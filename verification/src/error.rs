//! The broker's error taxonomy.
//!
//! Every failure inside the registry or the webhook router is surfaced to the
//! caller as one of these kinds, with a human-readable message. No kind is
//! retried or recovered from; the HTTP layer maps each to a generic failure
//! response.

use vstd::prelude::*;

verus! {

/// Error kinds shared by the integration registry and the webhook router.
///
/// `AuthenticationError` and `ValidationError` are reserved kinds: no code
/// path in this crate currently produces them, but they are part of the
/// published taxonomy and the HTTP layer knows how to render them.
#[derive(Debug)]
pub enum IntegrationBrokerError {
    /// Any persistence read or write error.
    StorageFailure(String),
    /// Reserved for credential checks.
    AuthenticationError(String),
    /// Reserved for request validation.
    ValidationError(String),
    /// The configured downstream call failed or returned an undecodable body.
    ExternalApiError(String),
}

impl Clone for IntegrationBrokerError {
    fn clone(&self) -> (r: Self)
        ensures
            r == *self,
    {
        match self {
            IntegrationBrokerError::StorageFailure(m) => {
                IntegrationBrokerError::StorageFailure(m.clone())
            },
            IntegrationBrokerError::AuthenticationError(m) => {
                IntegrationBrokerError::AuthenticationError(m.clone())
            },
            IntegrationBrokerError::ValidationError(m) => {
                IntegrationBrokerError::ValidationError(m.clone())
            },
            IntegrationBrokerError::ExternalApiError(m) => {
                IntegrationBrokerError::ExternalApiError(m.clone())
            },
        }
    }
}

impl IntegrationBrokerError {
    /// The message carried by this error, whatever its kind.
    pub fn message(&self) -> (r: &String)
        ensures
            (match self {
                IntegrationBrokerError::StorageFailure(m) => r == m,
                IntegrationBrokerError::AuthenticationError(m) => r == m,
                IntegrationBrokerError::ValidationError(m) => r == m,
                IntegrationBrokerError::ExternalApiError(m) => r == m,
            }),
    {
        match self {
            IntegrationBrokerError::StorageFailure(m) => m,
            IntegrationBrokerError::AuthenticationError(m) => m,
            IntegrationBrokerError::ValidationError(m) => m,
            IntegrationBrokerError::ExternalApiError(m) => m,
        }
    }
}

} // verus!
