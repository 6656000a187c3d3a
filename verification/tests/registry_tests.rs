use integration_broker::error::IntegrationBrokerError;
use integration_broker::models::{CreateIntegrationRequest, IntegrationStatus};
use integration_broker::registry::IntegrationRegistry;

fn request(name: &str, endpoint: &str, auth: &str, creds: &str) -> CreateIntegrationRequest {
    CreateIntegrationRequest {
        system_name: name.to_string(),
        api_endpoint: endpoint.to_string(),
        auth_type: auth.to_string(),
        credentials: creds.to_string(),
    }
}

#[test]
fn create_returns_active_record_with_given_fields() {
    let mut reg = IntegrationRegistry::new();
    let rec = reg
        .create_integration(request(
            "Stripe",
            "https://api.stripe.com",
            "bearer",
            "sk_test_x",
        ))
        .expect("create on an empty registry succeeds");
    assert_eq!(rec.system_name, "Stripe");
    assert_eq!(rec.api_endpoint, "https://api.stripe.com");
    assert_eq!(rec.auth_type, "bearer");
    assert_eq!(rec.credentials, "sk_test_x");
    assert_eq!(rec.status, IntegrationStatus::Active);
}

#[test]
fn create_stamps_a_time_no_earlier_than_the_call() {
    let before = chrono::Utc::now().timestamp_micros();
    let mut reg = IntegrationRegistry::new();
    let rec = reg
        .create_integration(request("a", "b", "c", "d"))
        .expect("create on an empty registry succeeds");
    let after = chrono::Utc::now().timestamp_micros();
    assert!(before <= rec.created_at);
    assert!(rec.created_at <= after);
}

#[test]
fn create_generates_distinct_ids() {
    let mut reg = IntegrationRegistry::new();
    let first = reg
        .create_integration(request("a", "b", "c", "d"))
        .expect("create on an empty registry succeeds");
    let second = reg
        .create_integration(request("a", "b", "c", "d"))
        .expect("a fresh random id collides with one record with negligible probability");
    assert_ne!(first.id, second.id);
}

#[test]
fn two_creates_then_delete_first_lists_exactly_the_second() {
    let mut reg = IntegrationRegistry::new();
    let first = reg
        .create_integration(request("one", "e1", "t1", "c1"))
        .expect("create succeeds");
    let second = reg
        .create_integration(request("two", "e2", "t2", "c2"))
        .expect("create succeeds");
    reg.delete_integration(first.id).expect("delete succeeds");
    let listed = reg.list_integrations().expect("list succeeds");
    assert_eq!(listed.len(), 1);
    assert_eq!(listed[0].id, second.id);
    assert_eq!(listed[0].system_name, "two");
    assert_eq!(listed[0].status, IntegrationStatus::Active);
}

#[test]
fn deleted_id_never_listed_again() {
    let mut reg = IntegrationRegistry::new();
    let rec = reg
        .create_integration(request("gone", "e", "t", "c"))
        .expect("create succeeds");
    reg.delete_integration(rec.id).expect("delete succeeds");
    let listed = reg.list_integrations().expect("list succeeds");
    assert!(listed.iter().all(|r| r.id != rec.id));
    // a second delete of the same id is idempotent
    reg.delete_integration(rec.id).expect("delete succeeds");
    let listed_again = reg.list_integrations().expect("list succeeds");
    assert!(listed_again.iter().all(|r| r.id != rec.id));
}

#[test]
fn delete_of_unknown_id_succeeds_and_changes_nothing() {
    let mut reg = IntegrationRegistry::new();
    let kept = reg
        .create_integration(request("kept", "e", "t", "c"))
        .expect("create succeeds");
    let unknown_id = kept.id.wrapping_add(1);
    reg.delete_integration(unknown_id)
        .expect("delete of an unknown id succeeds");
    let listed = reg.list_integrations().expect("list succeeds");
    assert_eq!(listed.len(), 1);
    assert_eq!(listed[0].id, kept.id);
    assert_eq!(listed[0].status, IntegrationStatus::Active);
}

#[test]
fn list_returns_only_active_records() {
    let mut reg = IntegrationRegistry::new();
    let a = reg
        .create_integration(request("a", "e", "t", "c"))
        .expect("create succeeds");
    let b = reg
        .create_integration(request("b", "e", "t", "c"))
        .expect("create succeeds");
    let c = reg
        .create_integration(request("c", "e", "t", "c"))
        .expect("create succeeds");
    reg.delete_integration(b.id).expect("delete succeeds");
    let listed = reg.list_integrations().expect("list succeeds");
    let ids: Vec<u128> = listed.iter().map(|r| r.id).collect();
    assert_eq!(ids, vec![a.id, c.id]);
    assert!(listed.iter().all(|r| r.status == IntegrationStatus::Active));
}

#[test]
fn list_of_empty_registry_is_empty_not_an_error() {
    let reg = IntegrationRegistry::new();
    let listed = reg.list_integrations().expect("list succeeds");
    assert!(listed.is_empty());
}

#[test]
fn duplicate_system_names_are_allowed() {
    let mut reg = IntegrationRegistry::new();
    reg.create_integration(request("same", "e1", "t", "c"))
        .expect("create succeeds");
    reg.create_integration(request("same", "e2", "t", "c"))
        .expect("create succeeds");
    let listed = reg.list_integrations().expect("list succeeds");
    assert_eq!(listed.len(), 2);
    assert!(listed.iter().all(|r| r.system_name == "same"));
}

#[test]
fn insert_with_duplicate_id_is_a_storage_failure() {
    let mut reg = IntegrationRegistry::new();
    reg.insert_integration(request("one", "e", "t", "c"), 7, 100)
        .expect("first insert succeeds");
    let err = reg
        .insert_integration(request("two", "e", "t", "c"), 7, 101)
        .expect_err("the store rejects a duplicate key");
    assert!(matches!(err, IntegrationBrokerError::StorageFailure(_)));
    // the failed insert left the registry unchanged
    let listed = reg.list_integrations().expect("list succeeds");
    assert_eq!(listed.len(), 1);
    assert_eq!(listed[0].system_name, "one");
}

#[test]
fn insert_stores_the_given_id_and_stamp() {
    let mut reg = IntegrationRegistry::new();
    let rec = reg
        .insert_integration(request("one", "e", "t", "c"), 42, 1234)
        .expect("insert succeeds");
    assert_eq!(rec.id, 42);
    assert_eq!(rec.created_at, 1234);
    assert_eq!(rec.status, IntegrationStatus::Active);
}

#[test]
fn error_message_is_carried() {
    let err = IntegrationBrokerError::ValidationError("bad field".to_string());
    assert_eq!(err.message().as_str(), "bad field");
}
