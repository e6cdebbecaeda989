use philharmonic_store::{BackendError, IdKindError, IdentityKindError, StoreError};

#[test]
fn backend_error_new_keeps_message_and_hint() {
    let e = BackendError::new("deadlock".to_string(), true);
    assert_eq!(e.message, "deadlock");
    assert!(e.retryable);
    let e = BackendError::new("schema".to_string(), false);
    assert_eq!(e.message, "schema");
    assert!(!e.retryable);
}

#[test]
fn backend_error_fatal_is_not_retryable() {
    let e = BackendError::fatal("boom".to_string());
    assert_eq!(e.message, "boom");
    assert!(!e.retryable);
}

#[test]
fn backend_error_transient_is_retryable() {
    let e = BackendError::transient("try again".to_string());
    assert_eq!(e.message, "try again");
    assert!(e.retryable);
}

#[test]
fn concurrency_outcomes_are_retryable() {
    assert!(StoreError::RevisionConflict { entity_id: 1, revision_seq: 2 }.is_retryable());
    assert!(StoreError::IdentityCollision { uuid: 3 }.is_retryable());
}

#[test]
fn backend_errors_follow_their_hint() {
    assert!(StoreError::Backend(BackendError::transient("t".to_string())).is_retryable());
    assert!(!StoreError::Backend(BackendError::fatal("f".to_string())).is_retryable());
}

#[test]
fn semantic_violations_are_not_retryable() {
    let kind = IdKindError { expected: 7, actual: 4 };
    assert!(!StoreError::KindMismatch { expected: 1, actual: 2 }.is_retryable());
    assert!(!StoreError::Decode(philharmonic_types::ContentDecodeError::Custom("bad".to_string())).is_retryable());
    assert!(!StoreError::IdKind(kind).is_retryable());
    assert!(!StoreError::IdentityKind(IdentityKindError::Public(kind)).is_retryable());
    assert!(!StoreError::ScalarTypeMismatch {
        attribute_name: "flag".to_string(),
        detail: "expected bool".to_string(),
    }
    .is_retryable());
    assert!(!StoreError::EntityNotFound { entity_id: 5 }.is_retryable());
}
