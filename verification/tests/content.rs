use philharmonic_store::content::{get_typed, put_typed};
use philharmonic_store::{BackendError, ContentValue, StoreError};

use philharmonic_types::{ContentDecodeError, Sha256};

// SHA-256 of the bytes "hello".
const HELLO_SHA256: [u8; 32] = [
    0x2c, 0xf2, 0x4d, 0xba, 0x5f, 0xb0, 0xa3, 0x0e, 0x26, 0xe8, 0x3b, 0x2a, 0xc5, 0xb9, 0xe2, 0x9e,
    0x1b, 0x16, 0x1e, 0x5c, 0x1f, 0xa7, 0x42, 0x5e, 0x73, 0x04, 0x33, 0x62, 0x93, 0x8b, 0x98, 0x24,
];

#[test]
fn content_value_digest_is_sha256_of_bytes() {
    let value = ContentValue::new(b"hello".to_vec());
    assert_eq!(value.digest(), HELLO_SHA256);
    assert_eq!(value.digest(), *Sha256::of(b"hello").as_bytes());
    assert_eq!(value.bytes(), b"hello");
}

#[test]
fn same_bytes_give_same_digest() {
    let a = ContentValue::new(b"{\"a\":1}".to_vec());
    let b = ContentValue::new(b"{\"a\":1}".to_vec());
    let c = ContentValue::new(b"{\"a\":2}".to_vec());
    assert_eq!(a.digest(), b.digest());
    assert_ne!(a.digest(), c.digest());
}

#[test]
fn into_parts_returns_digest_and_bytes() {
    let (digest, bytes) = ContentValue::new(b"hello".to_vec()).into_parts();
    assert_eq!(digest, HELLO_SHA256);
    assert_eq!(bytes, b"hello".to_vec());
}

#[test]
fn put_typed_returns_digest_of_content() {
    let value = ContentValue::new(b"hello".to_vec());
    assert_eq!(put_typed(Ok(()), &value).unwrap(), HELLO_SHA256);
}

#[test]
fn put_typed_passes_write_error_through() {
    let value = ContentValue::new(b"hello".to_vec());
    let err = put_typed(Err(StoreError::Backend(BackendError::fatal("full".to_string()))), &value)
        .unwrap_err();
    match err {
        StoreError::Backend(e) => assert_eq!(e.message, "full"),
        other => panic!("expected backend error, got {other:?}"),
    }
}

#[test]
fn get_typed_returns_decoded_value() {
    let got: Option<u32> = get_typed(Ok(Some(Ok(17u32)))).unwrap();
    assert_eq!(got, Some(17));
}

#[test]
fn get_typed_returns_none_when_absent() {
    let got: Option<u32> = get_typed(Ok(None)).unwrap();
    assert_eq!(got, None);
}

#[test]
fn get_typed_passes_read_error_through() {
    let err = get_typed::<u32>(Err(StoreError::Backend(BackendError::transient("down".to_string())))).unwrap_err();
    match err {
        StoreError::Backend(e) => {
            assert_eq!(e.message, "down");
            assert!(e.retryable);
        }
        other => panic!("expected backend error, got {other:?}"),
    }
}

#[test]
fn get_typed_reports_decode_failure() {
    let err = get_typed::<u32>(Ok(Some(Err(ContentDecodeError::Custom("not a number".to_string()))))).unwrap_err();
    match err {
        StoreError::Decode(ContentDecodeError::Custom(m)) => assert_eq!(m, "not a number"),
        other => panic!("expected decode error, got {other:?}"),
    }
}
