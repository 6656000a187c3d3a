//! Data model of the broker.
//!
//! `ExternalIntegration` is the persisted registry record; its mathematical
//! view is an `IntegrationModel`, which the registry contracts are stated
//! over. `WebhookPayload` is a transient event that exists only for the
//! duration of one forwarding call.

use vstd::prelude::*;

verus! {

/// Lifecycle state of a registry record.
///
/// Records are never removed: creation puts a record in `Active`, deletion
/// moves it to `Inactive`, and no operation moves it back.
#[derive(Debug, Clone, Copy, PartialEq, Eq, Structural)]
pub enum IntegrationStatus {
    Active,
    Inactive,
}

/// Mathematical view of one registry record.
pub ghost struct IntegrationModel {
    pub id: u128,
    pub system_name: Seq<char>,
    pub api_endpoint: Seq<char>,
    pub auth_type: Seq<char>,
    pub credentials: Seq<char>,
    pub status: IntegrationStatus,
    pub created_at: i64,
}

/// The same record with its status forced to `Inactive`.
pub open spec fn deactivated(m: IntegrationModel) -> IntegrationModel {
    IntegrationModel {
        id: m.id,
        system_name: m.system_name,
        api_endpoint: m.api_endpoint,
        auth_type: m.auth_type,
        credentials: m.credentials,
        status: IntegrationStatus::Inactive,
        created_at: m.created_at,
    }
}

/// A registered external system.
///
/// `id` and `created_at` are assigned by the registry at creation and are
/// immutable afterwards; `credentials` is an opaque blob whose protection at
/// rest is outside this crate's scope.
#[derive(Debug)]
pub struct ExternalIntegration {
    pub id: u128,
    pub system_name: String,
    pub api_endpoint: String,
    pub auth_type: String,
    pub credentials: String,
    pub status: IntegrationStatus,
    pub created_at: i64,
}

impl View for ExternalIntegration {
    type V = IntegrationModel;

    open spec fn view(&self) -> IntegrationModel {
        IntegrationModel {
            id: self.id,
            system_name: self.system_name@,
            api_endpoint: self.api_endpoint@,
            auth_type: self.auth_type@,
            credentials: self.credentials@,
            status: self.status,
            created_at: self.created_at,
        }
    }
}

impl Clone for ExternalIntegration {
    fn clone(&self) -> (r: Self)
        ensures
            r == *self,
    {
        ExternalIntegration {
            id: self.id,
            system_name: self.system_name.clone(),
            api_endpoint: self.api_endpoint.clone(),
            auth_type: self.auth_type.clone(),
            credentials: self.credentials.clone(),
            status: self.status,
            created_at: self.created_at,
        }
    }
}

/// Input to `create_integration`: the caller-supplied fields of a new record.
///
/// No format validation is applied to any field, and `system_name` is not
/// required to be unique across records.
#[derive(Debug)]
pub struct CreateIntegrationRequest {
    pub system_name: String,
    pub api_endpoint: String,
    pub auth_type: String,
    pub credentials: String,
}

/// Declares `serde_json::Value` to Verus so a webhook's structured body can
/// sit in a field and be carried through. The value is opaque: verified code
/// never inspects what is inside it, only moves it along unchanged.
#[verifier::external_type_specification]
#[verifier::external_body]
pub struct ExJsonValue(serde_json::Value);

/// An inbound webhook event.
///
/// `source_system` is not checked against the registry: a webhook may name a
/// system that was never registered. `payload_data` is an arbitrary
/// structured body, opaque to this crate; it is carried through to the
/// downstream call untouched.
#[derive(Debug)]
pub struct WebhookPayload {
    pub source_system: String,
    pub event_type: String,
    pub payload_data: serde_json::Value,
}

} // verus!
