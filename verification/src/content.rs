use vstd::prelude::*;

use crate::error::StoreError;

verus! {

/// The SHA-256 digest that `philharmonic_types::ContentValue::new` records
/// for these bytes.
pub uninterp spec fn content_digest(bytes: Seq<u8>) -> Seq<u8>;

/// `philharmonic_types::ContentValue::new`, taken apart into the digest it
/// computes (as raw bytes) and the bytes it keeps: the digest is the one
/// named by `content_digest` for the given bytes, and the bytes come back
/// unchanged.
#[verifier::external_body]
fn content_value_parts(bytes: Vec<u8>) -> (r: ([u8; 32], Vec<u8>))
    ensures
        r.0@ == content_digest(bytes@),
        r.1@ == bytes@,
{
    let value = philharmonic_types::ContentValue::new(bytes);
    let digest = *value.digest().as_bytes();
    (digest, value.into_bytes())
}

/// A content blob together with its SHA-256 digest, the key it is stored
/// under. The digest always matches the bytes.
pub struct ContentValue {
    digest: [u8; 32],
    bytes: Vec<u8>,
}

impl ContentValue {
    #[verifier::type_invariant]
    spec fn digest_matches(self) -> bool {
        self.digest@ == content_digest(self.bytes@)
    }

    /// The stored bytes.
    pub closed spec fn bytes_view(&self) -> Seq<u8> {
        self.bytes@
    }

    /// Wrap bytes, computing their digest.
    pub fn new(bytes: Vec<u8>) -> (v: ContentValue)
        ensures
            v.bytes_view() == bytes@,
    {
        let (digest, bytes) = content_value_parts(bytes);
        ContentValue { digest, bytes }
    }

    /// The digest of the bytes: the key this value is stored under.
    pub fn digest(&self) -> (d: [u8; 32])
        ensures
            d@ == content_digest(self.bytes_view()),
    {
        proof { use_type_invariant(self); }
        self.digest
    }

    /// The stored bytes.
    pub fn bytes(&self) -> (b: &[u8])
        ensures
            b@ == self.bytes_view(),
    {
        self.bytes.as_slice()
    }

    /// The digest and the bytes, taken apart.
    pub fn into_parts(self) -> (r: ([u8; 32], Vec<u8>))
        ensures
            r.0@ == content_digest(self.bytes_view()),
            r.1@ == self.bytes_view(),
    {
        proof { use_type_invariant(&self); }
        (self.digest, self.bytes)
    }
}

/// What a typed content write returns once the untyped `put` of `value` has
/// returned: the value's digest, which is the typed hash of the content, or
/// the write's error unchanged.
pub fn put_typed(put: Result<(), StoreError>, value: &ContentValue) -> (r: Result<[u8; 32], StoreError>)
    ensures
        match put {
            Ok(()) => r matches Ok(d) && d@ == content_digest(value.bytes_view()),
            Err(e) => r == Err::<[u8; 32], StoreError>(e),
        },
{
    match put {
        Ok(()) => Ok(value.digest()),
        Err(e) => Err(e),
    }
}

/// What a typed content read returns, given the outcome of the untyped `get`
/// with any value found already decoded as the requested type: the read's
/// error unchanged, absence as `Ok(None)`, the decoded value, or the decoding
/// error as `StoreError::Decode`.
pub fn get_typed<T>(
    fetched: Result<Option<Result<T, philharmonic_types::ContentDecodeError>>, StoreError>,
) -> (r: Result<Option<T>, StoreError>)
    ensures
        match fetched {
            Err(e) => r == Err::<Option<T>, StoreError>(e),
            Ok(None) => r == Ok::<Option<T>, StoreError>(None),
            Ok(Some(Ok(t))) => r == Ok::<Option<T>, StoreError>(Some(t)),
            Ok(Some(Err(e))) => r == Err::<Option<T>, StoreError>(StoreError::Decode(e)),
        },
{
    match fetched {
        Err(e) => Err(e),
        Ok(None) => Ok(None),
        Ok(Some(Ok(t))) => Ok(Some(t)),
        Ok(Some(Err(e))) => Err(StoreError::Decode(e)),
    }
}

} // verus!
