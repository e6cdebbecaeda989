use vstd::prelude::*;

use crate::error::{IdKindError, IdentityKindError, StoreError};

verus! {

/// The version field of a UUID given as its 128-bit big-endian value:
/// the high nibble of byte 6.
pub open spec fn uuid_version(uuid: u128) -> usize {
    ((uuid >> 76u128) & 0xfu128) as usize
}

/// An `(internal, public)` UUID pair, each UUID given as its 128-bit value.
///
/// Internal IDs are meant to be UUIDv7 (time-ordered), public IDs UUIDv4
/// (opaque); nothing in this type enforces it, see [`EntityId`].
#[derive(Clone, Copy, Debug, PartialEq, Eq, Hash, Structural)]
pub struct Identity {
    pub internal: u128,
    pub public: u128,
}

impl Identity {
    /// Why this pair cannot be typed as an entity ID, if it cannot: the
    /// internal ID is checked first, then the public ID.
    pub open spec fn typing_error(self) -> Option<IdentityKindError> {
        if uuid_version(self.internal) != 7 {
            Some(IdentityKindError::Internal(IdKindError { expected: 7, actual: uuid_version(self.internal) }))
        } else if uuid_version(self.public) != 4 {
            Some(IdentityKindError::Public(IdKindError { expected: 4, actual: uuid_version(self.public) }))
        } else {
            None
        }
    }

    /// Whether the pair has a UUIDv7 internal and a UUIDv4 public ID.
    pub open spec fn has_entity_versions(self) -> bool {
        uuid_version(self.internal) == 7 && uuid_version(self.public) == 4
    }

    /// Type this pair as an entity ID, validating the versions of both UUIDs.
    pub fn typed(self) -> (r: Result<EntityId, IdentityKindError>)
        ensures
            match self.typing_error() {
                None => r matches Ok(id) && id@ == self,
                Some(e) => r == Err::<EntityId, IdentityKindError>(e),
            },
            r is Ok <==> self.has_entity_versions(),
            uuid_version(self.internal) != 7 ==> r == Err::<EntityId, IdentityKindError>(
                IdentityKindError::Internal(IdKindError { expected: 7, actual: uuid_version(self.internal) }),
            ),
            uuid_version(self.internal) == 7 && uuid_version(self.public) != 4 ==> r == Err::<EntityId, IdentityKindError>(
                IdentityKindError::Public(IdKindError { expected: 4, actual: uuid_version(self.public) }),
            ),
            r matches Ok(id) ==> id@ == self,
    {
        match internal_id_from_uuid(self.internal) {
            Err(e) => return Err(IdentityKindError::Internal(e)),
            Ok(()) => {},
        }
        match public_id_from_uuid(self.public) {
            Err(e) => return Err(IdentityKindError::Public(e)),
            Ok(()) => {},
        }
        EntityId::from_checked(self)
    }
}

/// An identity pair can be typed as an entity ID exactly when its internal ID
/// is a UUIDv7 and its public ID a UUIDv4.
pub proof fn lemma_typing_succeeds_iff_versions(identity: Identity)
    ensures
        identity.typing_error() is None <==> identity.has_entity_versions(),
        uuid_version(identity.internal) != 7 ==> identity.typing_error() == Some(
            IdentityKindError::Internal(IdKindError { expected: 7, actual: uuid_version(identity.internal) }),
        ),
        uuid_version(identity.internal) == 7 && uuid_version(identity.public) != 4 ==> identity.typing_error() == Some(
            IdentityKindError::Public(IdKindError { expected: 4, actual: uuid_version(identity.public) }),
        ),
{
}

/// `philharmonic_types::InternalId::from_uuid` on the UUID with this 128-bit
/// value: it accepts the UUID exactly when its version is 7 and otherwise
/// reports the expected version 7 and the version found.
#[verifier::external_body]
fn internal_id_from_uuid(uuid: u128) -> (r: Result<(), IdKindError>)
    ensures
        r == (if uuid_version(uuid) == 7 {
            Ok::<(), IdKindError>(())
        } else {
            Err(IdKindError { expected: 7, actual: uuid_version(uuid) })
        }),
{
    match philharmonic_types::InternalId::<()>::from_uuid(philharmonic_types::Uuid::from_u128(uuid)) {
        Ok(_) => Ok(()),
        Err(e) => Err(IdKindError { expected: e.expected, actual: e.actual }),
    }
}

/// `philharmonic_types::PublicId::from_uuid` on the UUID with this 128-bit
/// value: it accepts the UUID exactly when its version is 4 and otherwise
/// reports the expected version 4 and the version found.
#[verifier::external_body]
fn public_id_from_uuid(uuid: u128) -> (r: Result<(), IdKindError>)
    ensures
        r == (if uuid_version(uuid) == 4 {
            Ok::<(), IdKindError>(())
        } else {
            Err(IdKindError { expected: 4, actual: uuid_version(uuid) })
        }),
{
    match philharmonic_types::PublicId::<()>::from_uuid(philharmonic_types::Uuid::from_u128(uuid)) {
        Ok(_) => Ok(()),
        Err(e) => Err(IdKindError { expected: e.expected, actual: e.actual }),
    }
}

/// An identity pair validated as an entity ID: its internal ID is a UUIDv7
/// and its public ID a UUIDv4. Only [`Identity::typed`] makes one.
#[derive(Clone, Copy, Debug)]
pub struct EntityId {
    internal: u128,
    public: u128,
}

impl View for EntityId {
    type V = Identity;

    closed spec fn view(&self) -> Identity {
        Identity { internal: self.internal, public: self.public }
    }
}

impl EntityId {
    #[verifier::type_invariant]
    spec fn versions_hold(self) -> bool {
        self@.has_entity_versions()
    }

    fn from_checked(identity: Identity) -> (r: Result<EntityId, IdentityKindError>)
        requires
            identity.has_entity_versions(),
        ensures
            r matches Ok(id) && id@ == identity,
    {
        Ok(EntityId { internal: identity.internal, public: identity.public })
    }

    /// The internal (UUIDv7) ID.
    pub fn internal(&self) -> (r: u128)
        ensures
            r == self@.internal,
            uuid_version(r) == 7,
    {
        proof { use_type_invariant(self); }
        self.internal
    }

    /// The public (UUIDv4) ID.
    pub fn public(&self) -> (r: u128)
        ensures
            r == self@.public,
            uuid_version(r) == 4,
    {
        proof { use_type_invariant(self); }
        self.public
    }

    /// The untyped identity pair.
    pub fn untyped(&self) -> (r: Identity)
        ensures
            r == self@,
            r.has_entity_versions(),
    {
        proof { use_type_invariant(self); }
        Identity { internal: self.internal, public: self.public }
    }
}

/// What a typed mint returns, given what the untyped mint returned: the
/// minted pair typed as an entity ID, its version error as
/// `StoreError::IdentityKind`, or the mint's own error unchanged.
pub fn mint_typed(minted: Result<Identity, StoreError>) -> (r: Result<EntityId, StoreError>)
    ensures
        match minted {
            Ok(identity) => match identity.typing_error() {
                None => r matches Ok(id) && id@ == identity,
                Some(e) => r == Err::<EntityId, StoreError>(StoreError::IdentityKind(e)),
            },
            Err(e) => r == Err::<EntityId, StoreError>(e),
        },
        r matches Ok(id) ==> id@.has_entity_versions(),
        minted matches Err(e) ==> r == Err::<EntityId, StoreError>(e),
        minted matches Ok(identity) ==> (identity.has_entity_versions() ==> (r matches Ok(id) && id@ == identity)),
        minted matches Ok(identity) ==> (!identity.has_entity_versions() ==> r matches Err(StoreError::IdentityKind(_))),
{
    let identity = minted?;
    match identity.typed() {
        Ok(id) => Ok(id),
        Err(e) => Err(StoreError::IdentityKind(e)),
    }
}

/// Whether `r` is what a typed resolution returns after the untyped
/// resolution returned `resolved`: absence stays absence, a found pair is
/// typed (or its version error is returned as `StoreError::IdentityKind`),
/// and the resolution's own error is returned unchanged.
pub open spec fn is_typed_resolution(
    resolved: Result<Option<Identity>, StoreError>,
    r: Result<Option<EntityId>, StoreError>,
) -> bool {
    match resolved {
        Err(e) => r == Err::<Option<EntityId>, StoreError>(e),
        Ok(None) => r == Ok::<Option<EntityId>, StoreError>(None),
        Ok(Some(identity)) => match identity.typing_error() {
            None => r matches Ok(Some(id)) && id@ == identity,
            Some(e) => r == Err::<Option<EntityId>, StoreError>(StoreError::IdentityKind(e)),
        },
    }
}

/// Typed resolution: whatever error the untyped resolution reported is
/// returned unchanged, absence is reported only when the untyped resolution
/// found nothing, a found pair with a UUIDv7 internal and a UUIDv4 public ID
/// comes back as that very pair, and any other found pair is refused with
/// `IdentityKind`.
pub proof fn lemma_typed_resolution(
    resolved: Result<Option<Identity>, StoreError>,
    r: Result<Option<EntityId>, StoreError>,
)
    requires
        is_typed_resolution(resolved, r),
    ensures
        resolved matches Err(e) ==> r == Err::<Option<EntityId>, StoreError>(e),
        (r == Ok::<Option<EntityId>, StoreError>(None)) <==> (resolved == Ok::<Option<Identity>, StoreError>(None)),
        resolved matches Ok(Some(identity)) ==> (identity.has_entity_versions() ==> (r matches Ok(Some(id)) && id@ == identity)),
        resolved matches Ok(Some(identity)) ==> (!identity.has_entity_versions() ==> r matches Err(StoreError::IdentityKind(_))),
{
}

fn type_resolved(resolved: Result<Option<Identity>, StoreError>) -> (r: Result<Option<EntityId>, StoreError>)
    ensures
        is_typed_resolution(resolved, r),
        resolved matches Err(e) ==> r == Err::<Option<EntityId>, StoreError>(e),
        (r == Ok::<Option<EntityId>, StoreError>(None)) <==> (resolved == Ok::<Option<Identity>, StoreError>(None)),
        resolved matches Ok(Some(identity)) ==> (identity.has_entity_versions() ==> (r matches Ok(Some(id)) && id@ == identity)),
        resolved matches Ok(Some(identity)) ==> (!identity.has_entity_versions() ==> r matches Err(StoreError::IdentityKind(_))),
{
    match resolved {
        Err(e) => Err(e),
        Ok(None) => Ok(None),
        Ok(Some(identity)) => match identity.typed() {
            Ok(id) => Ok(Some(id)),
            Err(e) => Err(StoreError::IdentityKind(e)),
        },
    }
}

/// What a typed resolution by public ID returns, given what the untyped
/// `resolve_public` returned.
pub fn resolve_public_typed(resolved: Result<Option<Identity>, StoreError>) -> (r: Result<Option<EntityId>, StoreError>)
    ensures
        is_typed_resolution(resolved, r),
        resolved matches Err(e) ==> r == Err::<Option<EntityId>, StoreError>(e),
        (r == Ok::<Option<EntityId>, StoreError>(None)) <==> (resolved == Ok::<Option<Identity>, StoreError>(None)),
        resolved matches Ok(Some(identity)) ==> (identity.has_entity_versions() ==> (r matches Ok(Some(id)) && id@ == identity)),
        resolved matches Ok(Some(identity)) ==> (!identity.has_entity_versions() ==> r matches Err(StoreError::IdentityKind(_))),
{
    type_resolved(resolved)
}

/// What a typed resolution by internal ID returns, given what the untyped
/// `resolve_internal` returned.
pub fn resolve_internal_typed(resolved: Result<Option<Identity>, StoreError>) -> (r: Result<Option<EntityId>, StoreError>)
    ensures
        is_typed_resolution(resolved, r),
        resolved matches Err(e) ==> r == Err::<Option<EntityId>, StoreError>(e),
        (r == Ok::<Option<EntityId>, StoreError>(None)) <==> (resolved == Ok::<Option<Identity>, StoreError>(None)),
        resolved matches Ok(Some(identity)) ==> (identity.has_entity_versions() ==> (r matches Ok(Some(id)) && id@ == identity)),
        resolved matches Ok(Some(identity)) ==> (!identity.has_entity_versions() ==> r matches Err(StoreError::IdentityKind(_))),
{
    type_resolved(resolved)
}

} // verus!
