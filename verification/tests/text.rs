use philharmonic_store::{BackendError, IdKindError, IdentityKindError, StoreError};

use philharmonic_types::{ContentDecodeError, Uuid};

#[test]
fn backend_error_text_names_the_message() {
    let e = BackendError::new("connection lost".to_string(), true);
    assert_eq!(e.message, "connection lost");
    assert!(e.retryable);
    assert_eq!(e.to_string(), "backend error: connection lost");
    assert_eq!(StoreError::Backend(e).to_string(), "backend error: connection lost");
}

#[test]
fn kind_mismatch_text_uses_hyphenated_uuids() {
    let expected: u128 = 0x0000_0000_0000_0000_0000_0000_00C0_FFEE;
    let actual: u128 = 0x0190_a1b2_c3d4_7e5f_8a9b_0c1d_2e3f_4a5b;
    let text = StoreError::KindMismatch { expected, actual }.to_string();
    assert_eq!(
        text,
        "entity kind mismatch: expected 00000000-0000-0000-0000-000000c0ffee, found 0190a1b2-c3d4-7e5f-8a9b-0c1d2e3f4a5b"
    );
    assert_eq!(
        text,
        format!(
            "entity kind mismatch: expected {}, found {}",
            Uuid::from_u128(expected),
            Uuid::from_u128(actual)
        )
    );
}

#[test]
fn revision_conflict_text_gives_entity_and_sequence() {
    let text = StoreError::RevisionConflict { entity_id: 1, revision_seq: 120 }.to_string();
    assert_eq!(
        text,
        "revision conflict: entity 00000000-0000-0000-0000-000000000001, seq 120 already exists"
    );
}

#[test]
fn identity_and_entity_texts() {
    assert_eq!(
        StoreError::IdentityCollision { uuid: 0xff }.to_string(),
        "identity collision: 00000000-0000-0000-0000-0000000000ff"
    );
    assert_eq!(
        StoreError::EntityNotFound { entity_id: 0 }.to_string(),
        "entity not found: 00000000-0000-0000-0000-000000000000"
    );
}

#[test]
fn version_error_texts() {
    let e = IdKindError { expected: 7, actual: 4 };
    assert_eq!(e.to_string(), "UUID version mismatch: expected v7, got v4");
    assert_eq!(
        StoreError::IdKind(e).to_string(),
        "UUID version mismatch in storage: UUID version mismatch: expected v7, got v4"
    );
    assert_eq!(
        IdentityKindError::Internal(e).to_string(),
        "internal ID is not UUIDv7: UUID version mismatch: expected v7, got v4"
    );
    let p = IdKindError { expected: 4, actual: 10 };
    assert_eq!(
        StoreError::IdentityKind(IdentityKindError::Public(p)).to_string(),
        "identity version mismatch in storage: public ID is not UUIDv4: UUID version mismatch: expected v4, got v10"
    );
}

#[test]
fn scalar_and_decode_texts() {
    assert_eq!(
        StoreError::ScalarTypeMismatch {
            attribute_name: "flag".to_string(),
            detail: "expected bool".to_string(),
        }
        .to_string(),
        "scalar type mismatch for attribute flag: expected bool"
    );
    assert_eq!(
        StoreError::Decode(ContentDecodeError::Custom("bad shape".to_string())).to_string(),
        "content decode failed: content decode failed: bad shape"
    );
}

#[test]
fn from_conversions_pick_the_variant() {
    assert!(matches!(
        StoreError::from(BackendError::fatal("x".to_string())),
        StoreError::Backend(BackendError { retryable: false, .. })
    ));
    assert!(matches!(
        StoreError::from(ContentDecodeError::Custom("y".to_string())),
        StoreError::Decode(ContentDecodeError::Custom(_))
    ));
    assert!(matches!(
        StoreError::from(IdKindError { expected: 7, actual: 1 }),
        StoreError::IdKind(IdKindError { expected: 7, actual: 1 })
    ));
    assert!(matches!(
        StoreError::from(IdentityKindError::Public(IdKindError { expected: 4, actual: 7 })),
        StoreError::IdentityKind(IdentityKindError::Public(_))
    ));
}
