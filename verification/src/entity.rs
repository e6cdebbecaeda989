use vstd::prelude::*;

use crate::error::StoreError;
use crate::identity::{EntityId, Identity};

verus! {

/// An entity as read from the entity registry, without its revisions: its
/// identity pair, its kind UUID and its creation time in milliseconds since
/// the Unix epoch.
#[derive(Clone, Copy, Debug, PartialEq, Eq, Structural)]
pub struct EntityRow {
    /// The entity's identity pair.
    pub identity: Identity,
    /// The entity's kind UUID.
    pub kind: u128,
    /// When the entity was created, in milliseconds since the Unix epoch.
    pub created_at: i64,
}

/// What a kind-verified entity read returns, given what the untyped read
/// returned: absence stays absence, a row of another kind is refused with
/// `StoreError::KindMismatch`, a row of the expected kind is returned, and
/// the read's own error is returned unchanged.
pub open spec fn kind_checked(
    fetched: Result<Option<EntityRow>, StoreError>,
    expected_kind: u128,
) -> Result<Option<EntityRow>, StoreError> {
    match fetched {
        Err(e) => Err(e),
        Ok(None) => Ok(None),
        Ok(Some(row)) => if row.kind != expected_kind {
            Err(StoreError::KindMismatch { expected: expected_kind, actual: row.kind })
        } else {
            Ok(Some(row))
        },
    }
}

/// The kind check of typed entity reads: the read's error is returned
/// unchanged whatever it is, absence is reported only for an absent entity,
/// any row of another kind is refused with `KindMismatch` naming the expected
/// and the stored kind, and a row of the expected kind is returned as read.
pub proof fn lemma_kind_check(fetched: Result<Option<EntityRow>, StoreError>, expected_kind: u128)
    ensures
        fetched matches Err(e) ==> kind_checked(fetched, expected_kind) == Err::<Option<EntityRow>, StoreError>(e),
        (kind_checked(fetched, expected_kind) == Ok::<Option<EntityRow>, StoreError>(None))
            <==> (fetched == Ok::<Option<EntityRow>, StoreError>(None)),
        fetched matches Ok(Some(row)) ==> (row.kind != expected_kind ==> kind_checked(fetched, expected_kind)
            == Err::<Option<EntityRow>, StoreError>(StoreError::KindMismatch { expected: expected_kind, actual: row.kind })),
        fetched matches Ok(Some(row)) ==> (row.kind == expected_kind ==> kind_checked(fetched, expected_kind)
            == Ok::<Option<EntityRow>, StoreError>(Some(row))),
        kind_checked(fetched, expected_kind) matches Ok(Some(row)) ==> row.kind == expected_kind,
{
}

/// Verify the kind of an entity read by `get_entity`: the decision of a typed
/// entity read for the kind `expected_kind`.
pub fn get_entity_typed(
    fetched: Result<Option<EntityRow>, StoreError>,
    expected_kind: u128,
) -> (r: Result<Option<EntityRow>, StoreError>)
    ensures
        r == kind_checked(fetched, expected_kind),
        r matches Ok(Some(row)) ==> row.kind == expected_kind,
        fetched matches Err(e) ==> r == Err::<Option<EntityRow>, StoreError>(e),
        (r == Ok::<Option<EntityRow>, StoreError>(None)) <==> (fetched == Ok::<Option<EntityRow>, StoreError>(None)),
        fetched matches Ok(Some(row)) ==> (row.kind != expected_kind ==> r == Err::<Option<EntityRow>, StoreError>(
            StoreError::KindMismatch { expected: expected_kind, actual: row.kind },
        )),
        fetched matches Ok(Some(row)) ==> (row.kind == expected_kind ==> r == Ok::<Option<EntityRow>, StoreError>(Some(row))),
{
    match fetched {
        Err(e) => Err(e),
        Ok(None) => Ok(None),
        Ok(Some(row)) => {
            if row.kind != expected_kind {
                Err(StoreError::KindMismatch { expected: expected_kind, actual: row.kind })
            } else {
                Ok(Some(row))
            }
        },
    }
}

/// Decide a typed revision append from the entity read that precedes it.
///
/// Returns the internal ID to append the revision to when the entity exists
/// with the expected kind; otherwise the error the append finishes with:
/// the read's error, `KindMismatch`, or `EntityNotFound` for the entity.
pub fn append_revision_typed(
    fetched: Result<Option<EntityRow>, StoreError>,
    id: &EntityId,
    expected_kind: u128,
) -> (r: Result<u128, StoreError>)
    ensures
        r == match kind_checked(fetched, expected_kind) {
            Err(e) => Err(e),
            Ok(None) => Err(StoreError::EntityNotFound { entity_id: id@.internal }),
            Ok(Some(_)) => Ok::<u128, StoreError>(id@.internal),
        },
        r is Ok ==> (fetched matches Ok(Some(row)) && row.kind == expected_kind),
        fetched matches Err(e) ==> r == Err::<u128, StoreError>(e),
        fetched == Ok::<Option<EntityRow>, StoreError>(None) ==> r == Err::<u128, StoreError>(
            StoreError::EntityNotFound { entity_id: id@.internal },
        ),
        fetched matches Ok(Some(row)) ==> (row.kind != expected_kind ==> r == Err::<u128, StoreError>(
            StoreError::KindMismatch { expected: expected_kind, actual: row.kind },
        )),
        fetched matches Ok(Some(row)) ==> (row.kind == expected_kind ==> r == Ok::<u128, StoreError>(id@.internal)),
{
    match get_entity_typed(fetched, expected_kind) {
        Err(e) => Err(e),
        Ok(None) => Err(StoreError::EntityNotFound { entity_id: id.internal() }),
        Ok(Some(_)) => Ok(id.internal()),
    }
}

/// Decide a typed revision read (of a given sequence or of the latest) from
/// the entity read that precedes it.
///
/// Returns the internal ID to read revisions of unless the kind check fails
/// (the read's error or `KindMismatch`). An absent entity does not stop the
/// read: the revision read then reports absence itself.
pub fn revision_read_target(
    fetched: Result<Option<EntityRow>, StoreError>,
    id: &EntityId,
    expected_kind: u128,
) -> (r: Result<u128, StoreError>)
    ensures
        r == match kind_checked(fetched, expected_kind) {
            Err(e) => Err(e),
            Ok(_) => Ok::<u128, StoreError>(id@.internal),
        },
        fetched matches Err(e) ==> r == Err::<u128, StoreError>(e),
        fetched == Ok::<Option<EntityRow>, StoreError>(None) ==> r == Ok::<u128, StoreError>(id@.internal),
        fetched matches Ok(Some(row)) ==> (row.kind != expected_kind ==> r == Err::<u128, StoreError>(
            StoreError::KindMismatch { expected: expected_kind, actual: row.kind },
        )),
        fetched matches Ok(Some(row)) ==> (row.kind == expected_kind ==> r == Ok::<u128, StoreError>(id@.internal)),
        r is Ok ==> r == Ok::<u128, StoreError>(id@.internal),
{
    match get_entity_typed(fetched, expected_kind) {
        Err(e) => Err(e),
        Ok(_) => Ok(id.internal()),
    }
}

} // verus!
