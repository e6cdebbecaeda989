use philharmonic_store::ext::create_entity_minting;
use philharmonic_store::identity::mint_typed;
use philharmonic_store::{BackendError, EntityId, Identity, StoreError};

use philharmonic_types::Uuid;

fn seeded_identity() -> Identity {
    Identity {
        internal: Uuid::now_v7().as_u128(),
        public: Uuid::new_v4().as_u128(),
    }
}

#[test]
fn create_entity_minting_calls_mint_then_create_entity_and_returns_id() {
    let expected_identity = seeded_identity();

    // The mint's outcome is typed first; the creation is asked to register
    // exactly the minted pair.
    let minted: EntityId = mint_typed(Ok(expected_identity)).unwrap();
    let registered = minted.untyped();
    assert_eq!(registered, expected_identity);

    let id = create_entity_minting(Ok(()), minted).unwrap();

    assert_eq!(id.untyped(), expected_identity);
}

#[test]
fn create_entity_minting_returns_create_error_and_keeps_orphaned_identity() {
    let minted_identity = seeded_identity();
    let minted = mint_typed(Ok(minted_identity)).unwrap();
    assert_eq!(minted.untyped(), minted_identity);

    let err = create_entity_minting(
        Err(StoreError::Backend(BackendError::fatal("create failed".to_string()))),
        minted,
    )
    .unwrap_err();

    match err {
        StoreError::Backend(backend) => {
            assert_eq!(backend.message, "create failed");
            assert!(!backend.retryable);
        }
        other => panic!("expected backend error, got {other:?}"),
    }
}

#[test]
fn create_entity_minting_stops_when_mint_fails() {
    let err = mint_typed(Err(StoreError::IdentityCollision { uuid: 42 })).unwrap_err();
    assert!(matches!(err, StoreError::IdentityCollision { uuid: 42 }));
}
