//! Broker configuration.
//!
//! The configuration is plain data. Reading it from the process environment
//! is infrastructure plumbing and lives outside this library; here only the
//! shape and the documented default values are defined.
//!
//! The timeout, retry and secret knobs exist for the surrounding service to
//! wire in; the registry and router logic in this crate does not consult
//! them.

use vstd::prelude::*;

verus! {

/// Runtime settings of the broker service.
#[derive(Debug)]
pub struct IntegrationBrokerConfig {
    pub port: u16,
    pub database_url: String,
    pub external_api_timeout_ms: u64,
    pub max_retry_attempts: u8,
    pub webhook_secret_key: String,
}

impl Clone for IntegrationBrokerConfig {
    fn clone(&self) -> (r: Self)
        ensures
            r == *self,
    {
        IntegrationBrokerConfig {
            port: self.port,
            database_url: self.database_url.clone(),
            external_api_timeout_ms: self.external_api_timeout_ms,
            max_retry_attempts: self.max_retry_attempts,
            webhook_secret_key: self.webhook_secret_key.clone(),
        }
    }
}

impl Default for IntegrationBrokerConfig {
    /// The defaults used when the environment supplies no overrides.
    fn default() -> (r: Self)
        ensures
            r.port == 8080u16,
            r.database_url@ == "sqlite:integration_broker.db"@,
            r.external_api_timeout_ms == 5000u64,
            r.max_retry_attempts == 3u8,
            r.webhook_secret_key@ == "default_insecure_secret"@,
    {
        IntegrationBrokerConfig {
            port: 8080,
            database_url: String::from_str("sqlite:integration_broker.db"),
            external_api_timeout_ms: 5000,
            max_retry_attempts: 3,
            webhook_secret_key: String::from_str("default_insecure_secret"),
        }
    }
}

} // verus!
