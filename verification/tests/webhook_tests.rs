use integration_broker::config::IntegrationBrokerConfig;
use integration_broker::error::IntegrationBrokerError;
use integration_broker::models::WebhookPayload;
use integration_broker::webhook::{complete_dispatch, downstream_endpoint, prepare_dispatch};

fn payload(source: &str, event: &str, data: serde_json::Value) -> WebhookPayload {
    WebhookPayload {
        source_system: source.to_string(),
        event_type: event.to_string(),
        payload_data: data,
    }
}

fn sample_data() -> serde_json::Value {
    serde_json::from_str("{\"order_id\": 17, \"total\": \"12.50\"}")
        .expect("literal JSON parses")
}

#[test]
fn dispatch_forwards_fields_unmodified() {
    let data = sample_data();
    let dispatch = prepare_dispatch(payload("Stripe", "payment.succeeded", data.clone()));
    assert_eq!(dispatch.body.source_system, "Stripe");
    assert_eq!(dispatch.body.event_type, "payment.succeeded");
    assert_eq!(dispatch.body.payload_data, data);
}

#[test]
fn dispatch_targets_the_one_downstream_address() {
    let first = prepare_dispatch(payload("Stripe", "payment.succeeded", sample_data()));
    let second = prepare_dispatch(payload("GitHub", "push", serde_json::Value::Null));
    assert_eq!(first.destination, "http://order_processing_service/webhooks");
    assert_eq!(second.destination, first.destination);
    assert_eq!(downstream_endpoint(), first.destination);
}

#[test]
fn unregistered_source_systems_are_forwarded_too() {
    let dispatch = prepare_dispatch(payload("never_registered", "ping", serde_json::Value::Null));
    assert_eq!(dispatch.body.source_system, "never_registered");
    assert_eq!(dispatch.destination, "http://order_processing_service/webhooks");
}

#[test]
fn downstream_body_is_returned_verbatim() {
    let body = sample_data();
    let out = complete_dispatch(Ok(body.clone())).expect("a decoded body is a success");
    assert_eq!(out, body);
}

#[test]
fn downstream_failure_surfaces_as_external_api_error() {
    let err = complete_dispatch(Err("connection refused".to_string()))
        .expect_err("a failed call is an error");
    match err {
        IntegrationBrokerError::ExternalApiError(m) => assert_eq!(m, "connection refused"),
        other => panic!("unexpected error kind: {:?}", other),
    }
}

#[test]
fn default_config_matches_documented_defaults() {
    let cfg = IntegrationBrokerConfig::default();
    assert_eq!(cfg.port, 8080);
    assert_eq!(cfg.database_url, "sqlite:integration_broker.db");
    assert_eq!(cfg.external_api_timeout_ms, 5000);
    assert_eq!(cfg.max_retry_attempts, 3);
    assert_eq!(cfg.webhook_secret_key, "default_insecure_secret");
}
