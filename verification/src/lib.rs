//! Storage substrate for the Philharmonic workflow orchestration system:
//! the data shapes shared by every backend and the decisions that the typed
//! store operations make around the backends' untyped calls.
//!
//! Three concerns: content-addressed blobs ([`content`]), `(internal,
//! public)` identity pairs ([`identity`]) and entities with append-only
//! revision logs ([`entity`], [`revision`]). [`ext`] holds the decisions of
//! operations that span concerns. UUIDs are carried as their 128-bit
//! big-endian values and SHA-256 digests as 32 raw bytes.

pub mod content;
pub mod entity;
pub mod error;
pub mod ext;
pub mod identity;
pub mod revision;
pub mod text;

pub use content::ContentValue;
pub use entity::EntityRow;
pub use error::{BackendError, IdKindError, IdentityKindError, StoreError};
pub use identity::{EntityId, Identity};
pub use revision::{AttrMap, EntityRefValue, RevisionInput, RevisionRef, RevisionRow};
