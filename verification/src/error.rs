use vstd::prelude::*;

use crate::text::{decimal_string, decimal_text, decode_error_string, uuid_string, uuid_text};

verus! {

/// `philharmonic_types::ContentDecodeError`: why stored bytes did not decode
/// as the requested content type. Carried through as is.
#[verifier::external_type_specification]
#[verifier::external_body]
pub struct ExContentDecodeError(philharmonic_types::ContentDecodeError);

/// A UUID did not have the expected version.
#[derive(Debug, Clone, Copy, PartialEq, Eq, Structural)]
pub struct IdKindError {
    /// The UUID version that was expected.
    pub expected: usize,
    /// The UUID version that was actually found.
    pub actual: usize,
}

/// An identity pair whose UUIDs do not have the versions of their roles.
#[derive(Debug, Clone, Copy, PartialEq, Eq, Structural)]
pub enum IdentityKindError {
    /// The internal ID is not a UUIDv7.
    Internal(IdKindError),
    /// The public ID is not a UUIDv4.
    Public(IdKindError),
}

impl IdKindError {
    /// The error's message.
    pub open spec fn text(&self) -> Seq<char> {
        "UUID version mismatch: expected v"@ + decimal_text(self.expected as nat) + ", got v"@
            + decimal_text(self.actual as nat)
    }

    /// The error's message, as its `Display` renders it.
    pub fn to_string(&self) -> (r: String)
        ensures
            r@ == self.text(),
    {
        let mut r = String::from_str("UUID version mismatch: expected v");
        let expected = decimal_string(self.expected as u64);
        r.append(expected.as_str());
        r.append(", got v");
        let actual = decimal_string(self.actual as u64);
        r.append(actual.as_str());
        r
    }
}

impl IdentityKindError {
    /// The error's message.
    pub open spec fn text(&self) -> Seq<char> {
        match self {
            IdentityKindError::Internal(e) => "internal ID is not UUIDv7: "@ + e.text(),
            IdentityKindError::Public(e) => "public ID is not UUIDv4: "@ + e.text(),
        }
    }

    /// The error's message, as its `Display` renders it.
    pub fn to_string(&self) -> (r: String)
        ensures
            r@ == self.text(),
    {
        match self {
            IdentityKindError::Internal(e) => {
                let mut r = String::from_str("internal ID is not UUIDv7: ");
                let inner = e.to_string();
                r.append(inner.as_str());
                r
            },
            IdentityKindError::Public(e) => {
                let mut r = String::from_str("public ID is not UUIDv4: ");
                let inner = e.to_string();
                r.append(inner.as_str());
                r
            },
        }
    }
}

/// Errors returned by the storage substrate.
///
/// Semantic outcomes (`KindMismatch`, `Decode`, `IdKind`, `IdentityKind`,
/// `ScalarTypeMismatch`), concurrency outcomes (`RevisionConflict`,
/// `IdentityCollision`), a write to a missing parent (`EntityNotFound`) and
/// backend failures (`Backend`). UUIDs are carried as their 128-bit values.
/// Absence on a read path is not an error: reads return `Option`.
#[derive(Debug)]
pub enum StoreError {
    /// An entity was read with a kind other than the one the caller expected.
    KindMismatch { expected: u128, actual: u128 },
    /// Stored bytes could not be decoded as the requested content type.
    Decode(philharmonic_types::ContentDecodeError),
    /// A UUID read from storage does not have the expected version.
    IdKind(IdKindError),
    /// An identity pair read from storage has the wrong UUID versions.
    IdentityKind(IdentityKindError),
    /// A scalar value's type does not match the attribute's column shape.
    ScalarTypeMismatch { attribute_name: String, detail: String },
    /// Another writer already appended a revision at this sequence.
    RevisionConflict { entity_id: u128, revision_seq: u64 },
    /// A freshly minted identity collided with an existing one.
    IdentityCollision { uuid: u128 },
    /// A write referenced an entity that does not exist.
    EntityNotFound { entity_id: u128 },
    /// The backend reported a failure with no substrate-level meaning.
    Backend(BackendError),
}

impl StoreError {
    /// The error's message. For `Decode` only its fixed beginning: the rest is
    /// the decoding error's own text.
    pub open spec fn text(&self) -> Seq<char> {
        match self {
            StoreError::KindMismatch { expected, actual } =>
                "entity kind mismatch: expected "@ + uuid_text(*expected) + ", found "@ + uuid_text(*actual),
            StoreError::Decode(_) => "content decode failed: "@,
            StoreError::IdKind(e) => "UUID version mismatch in storage: "@ + e.text(),
            StoreError::IdentityKind(e) => "identity version mismatch in storage: "@ + e.text(),
            StoreError::ScalarTypeMismatch { attribute_name, detail } =>
                "scalar type mismatch for attribute "@ + attribute_name@ + ": "@ + detail@,
            StoreError::RevisionConflict { entity_id, revision_seq } =>
                "revision conflict: entity "@ + uuid_text(*entity_id) + ", seq "@ + decimal_text(*revision_seq as nat)
                    + " already exists"@,
            StoreError::IdentityCollision { uuid } => "identity collision: "@ + uuid_text(*uuid),
            StoreError::EntityNotFound { entity_id } => "entity not found: "@ + uuid_text(*entity_id),
            StoreError::Backend(e) => e.text(),
        }
    }

    /// The error's message, as its `Display` renders it: exactly `text()`,
    /// except that a `Decode` error's message continues after `text()` with the
    /// decoding error's own text.
    pub fn to_string(&self) -> (r: String)
        ensures
            !(self is Decode) ==> r@ == self.text(),
            self is Decode ==> r@.len() >= self.text().len() && r@.subrange(0, self.text().len() as int) == self.text(),
    {
        match self {
            StoreError::KindMismatch { expected, actual } => {
                let mut r = String::from_str("entity kind mismatch: expected ");
                let e = uuid_string(*expected);
                r.append(e.as_str());
                r.append(", found ");
                let a = uuid_string(*actual);
                r.append(a.as_str());
                r
            },
            StoreError::Decode(d) => {
                let mut r = String::from_str("content decode failed: ");
                let ghost prefix = r@;
                let inner = decode_error_string(d);
                r.append(inner.as_str());
                assert(r@.subrange(0, prefix.len() as int) =~= prefix);
                r
            },
            StoreError::IdKind(e) => {
                let mut r = String::from_str("UUID version mismatch in storage: ");
                let inner = e.to_string();
                r.append(inner.as_str());
                r
            },
            StoreError::IdentityKind(e) => {
                let mut r = String::from_str("identity version mismatch in storage: ");
                let inner = e.to_string();
                r.append(inner.as_str());
                r
            },
            StoreError::ScalarTypeMismatch { attribute_name, detail } => {
                let mut r = String::from_str("scalar type mismatch for attribute ");
                r.append(attribute_name.as_str());
                r.append(": ");
                r.append(detail.as_str());
                r
            },
            StoreError::RevisionConflict { entity_id, revision_seq } => {
                let mut r = String::from_str("revision conflict: entity ");
                let e = uuid_string(*entity_id);
                r.append(e.as_str());
                r.append(", seq ");
                let n = decimal_string(*revision_seq);
                r.append(n.as_str());
                r.append(" already exists");
                r
            },
            StoreError::IdentityCollision { uuid } => {
                let mut r = String::from_str("identity collision: ");
                let u = uuid_string(*uuid);
                r.append(u.as_str());
                r
            },
            StoreError::EntityNotFound { entity_id } => {
                let mut r = String::from_str("entity not found: ");
                let u = uuid_string(*entity_id);
                r.append(u.as_str());
                r
            },
            StoreError::Backend(e) => e.to_string(),
        }
    }

    /// Whether retrying the failed operation may succeed: concurrency
    /// outcomes are retryable, backend errors carry their own hint, and
    /// semantic violations are not.
    pub open spec fn retryable(&self) -> bool {
        match self {
            StoreError::RevisionConflict { .. } => true,
            StoreError::IdentityCollision { .. } => true,
            StoreError::Backend(e) => e.retryable,
            _ => false,
        }
    }

    /// Whether this error is potentially recoverable by retry.
    pub fn is_retryable(&self) -> (r: bool)
        ensures
            r == self.retryable(),
    {
        match self {
            StoreError::RevisionConflict { .. } | StoreError::IdentityCollision { .. } => true,
            StoreError::Backend(e) => e.retryable,
            StoreError::KindMismatch { .. }
            | StoreError::Decode(_)
            | StoreError::IdKind(_)
            | StoreError::IdentityKind(_)
            | StoreError::ScalarTypeMismatch { .. }
            | StoreError::EntityNotFound { .. } => false,
        }
    }
}

/// A backend-specific failure, carried inside `StoreError::Backend`.
///
/// `message` is for human consumption; `retryable` is the backend's hint
/// on whether retrying may succeed.
#[derive(Debug)]
pub struct BackendError {
    pub message: String,
    pub retryable: bool,
}

impl BackendError {
    /// The error's message.
    pub open spec fn text(&self) -> Seq<char> {
        "backend error: "@ + self.message@
    }

    /// The error's message, as its `Display` renders it.
    pub fn to_string(&self) -> (r: String)
        ensures
            r@ == self.text(),
    {
        let mut r = String::from_str("backend error: ");
        r.append(self.message.as_str());
        r
    }

    /// Construct a backend error with a message and retryability hint.
    pub fn new(message: String, retryable: bool) -> (e: Self)
        ensures
            e.message@ == message@,
            e.retryable == retryable,
    {
        BackendError { message, retryable }
    }

    /// Convenience constructor for a non-retryable backend error.
    pub fn fatal(message: String) -> (e: Self)
        ensures
            e.message@ == message@,
            !e.retryable,
    {
        Self::new(message, false)
    }

    /// Convenience constructor for a retryable backend error.
    pub fn transient(message: String) -> (e: Self)
        ensures
            e.message@ == message@,
            e.retryable,
    {
        Self::new(message, true)
    }
}

impl From<BackendError> for StoreError {
    /// Wrap the error as `StoreError::Backend`.
    fn from(e: BackendError) -> (r: StoreError)
        ensures
            r == StoreError::Backend(e),
    {
        StoreError::Backend(e)
    }
}

impl vstd::std_specs::convert::FromSpecImpl<BackendError> for StoreError {
    open spec fn obeys_from_spec() -> bool {
        true
    }

    open spec fn from_spec(e: BackendError) -> StoreError {
        StoreError::Backend(e)
    }
}

impl From<philharmonic_types::ContentDecodeError> for StoreError {
    /// Wrap the error as `StoreError::Decode`.
    fn from(e: philharmonic_types::ContentDecodeError) -> (r: StoreError)
        ensures
            r == StoreError::Decode(e),
    {
        StoreError::Decode(e)
    }
}

impl vstd::std_specs::convert::FromSpecImpl<philharmonic_types::ContentDecodeError> for StoreError {
    open spec fn obeys_from_spec() -> bool {
        true
    }

    open spec fn from_spec(e: philharmonic_types::ContentDecodeError) -> StoreError {
        StoreError::Decode(e)
    }
}

impl From<IdKindError> for StoreError {
    /// Wrap the error as `StoreError::IdKind`.
    fn from(e: IdKindError) -> (r: StoreError)
        ensures
            r == StoreError::IdKind(e),
    {
        StoreError::IdKind(e)
    }
}

impl vstd::std_specs::convert::FromSpecImpl<IdKindError> for StoreError {
    open spec fn obeys_from_spec() -> bool {
        true
    }

    open spec fn from_spec(e: IdKindError) -> StoreError {
        StoreError::IdKind(e)
    }
}

impl From<IdentityKindError> for StoreError {
    /// Wrap the error as `StoreError::IdentityKind`.
    fn from(e: IdentityKindError) -> (r: StoreError)
        ensures
            r == StoreError::IdentityKind(e),
    {
        StoreError::IdentityKind(e)
    }
}

impl vstd::std_specs::convert::FromSpecImpl<IdentityKindError> for StoreError {
    open spec fn obeys_from_spec() -> bool {
        true
    }

    open spec fn from_spec(e: IdentityKindError) -> StoreError {
        StoreError::IdentityKind(e)
    }
}

/// The retry classification: concurrency outcomes are retryable, a backend
/// error is retryable exactly when its backend says so, and every semantic
/// violation is not retryable.
pub proof fn lemma_retry_classification(
    expected: u128,
    actual: u128,
    decode: philharmonic_types::ContentDecodeError,
    id_kind: IdKindError,
    identity_kind: IdentityKindError,
    attribute_name: String,
    detail: String,
    entity_id: u128,
    revision_seq: u64,
    backend: BackendError,
)
    ensures
        (StoreError::RevisionConflict { entity_id, revision_seq }).retryable(),
        (StoreError::IdentityCollision { uuid: entity_id }).retryable(),
        StoreError::Backend(backend).retryable() == backend.retryable,
        !(StoreError::KindMismatch { expected, actual }).retryable(),
        !StoreError::Decode(decode).retryable(),
        !StoreError::IdKind(id_kind).retryable(),
        !StoreError::IdentityKind(identity_kind).retryable(),
        !(StoreError::ScalarTypeMismatch { attribute_name, detail }).retryable(),
        !(StoreError::EntityNotFound { entity_id }).retryable(),
{
}

} // verus!
