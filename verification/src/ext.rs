use vstd::prelude::*;

use crate::error::StoreError;
use crate::identity::EntityId;

verus! {

/// What minting an entity returns once the identity was minted and typed as
/// `id` and `create_entity` was asked to register `id`'s pair: `id` itself,
/// or the creation's error unchanged (the minted identity then stays behind
/// as a harmless orphan).
pub fn create_entity_minting(created: Result<(), StoreError>, id: EntityId) -> (r: Result<EntityId, StoreError>)
    ensures
        match created {
            Ok(()) => r matches Ok(x) && x@ == id@,
            Err(e) => r == Err::<EntityId, StoreError>(e),
        },
{
    match created {
        Ok(()) => Ok(id),
        Err(e) => Err(e),
    }
}

} // verus!
