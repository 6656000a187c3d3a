//! The webhook router: a stateless, single-shot relay.
//!
//! Every inbound webhook, whatever its `source_system`, is forwarded to the
//! same statically configured downstream address; the registry is never
//! consulted. The router's logic is split around the one outbound call:
//! `prepare_dispatch` fixes where the payload goes and that it goes there
//! unmodified, and `complete_dispatch` folds the call's outcome into the
//! router's result. Issuing the call itself is I/O and lives outside this
//! library.

use vstd::prelude::*;

use crate::error::IntegrationBrokerError;
use crate::models::WebhookPayload;

verus! {

/// Address of the single downstream consumer all webhooks are relayed to.
pub open spec fn spec_downstream_endpoint() -> Seq<char> {
    "http://order_processing_service/webhooks"@
}

/// The statically configured downstream address.
pub fn downstream_endpoint() -> (r: String)
    ensures
        r@ == spec_downstream_endpoint(),
{
    String::from_str("http://order_processing_service/webhooks")
}

/// One outbound call, ready to be issued: where to send, and what.
#[derive(Debug)]
pub struct DispatchRequest {
    pub destination: String,
    pub body: WebhookPayload,
}

/// Builds the outbound call for `payload`.
///
/// The destination is the one downstream address, and the body carries the
/// exact `source_system`, `event_type` and `payload_data` the webhook
/// arrived with, unmodified.
pub fn prepare_dispatch(payload: WebhookPayload) -> (r: DispatchRequest)
    ensures
        r.destination@ == spec_downstream_endpoint(),
        r.body.source_system@ == payload.source_system@,
        r.body.event_type@ == payload.event_type@,
        r.body.payload_data == payload.payload_data,
        r.body == payload,
{
    DispatchRequest { destination: downstream_endpoint(), body: payload }
}

/// Folds the outcome of the downstream call into the router's result.
///
/// A response body that arrived and decoded is returned verbatim; any
/// failure — downstream unreachable, the call rejected, or an undecodable
/// body — surfaces as `ExternalApiError` carrying the failure's message,
/// with no retry and no other recovery.
pub fn complete_dispatch(outcome: Result<serde_json::Value, String>) -> (r: Result<
    serde_json::Value,
    IntegrationBrokerError,
>)
    ensures
        outcome matches Ok(v) ==> (r matches Ok(w) && w == v),
        outcome matches Err(m) ==> (r matches Err(e)
            && e matches IntegrationBrokerError::ExternalApiError(em)
            && em == m),
{
    match outcome {
        Ok(v) => Ok(v),
        Err(m) => Err(IntegrationBrokerError::ExternalApiError(m)),
    }
}

} // verus!
