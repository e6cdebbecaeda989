use vstd::prelude::*;

verus! {

/// The character of the decimal digit `d` (0 to 9).
pub open spec fn decimal_digit(d: nat) -> char {
    (d + 48) as char
}

/// The decimal text of `n`: its digits, most significant first, with no
/// leading zeros (`"0"` for zero).
pub open spec fn decimal_text(n: nat) -> Seq<char>
    decreases n,
{
    if n < 10 {
        seq![decimal_digit(n)]
    } else {
        decimal_text(n / 10).push(decimal_digit(n % 10))
    }
}

/// The character of the lower-case hexadecimal digit `d` (0 to 15).
pub open spec fn hex_digit(d: int) -> char {
    if d < 10 {
        (d + 48) as char
    } else {
        (d + 87) as char
    }
}

/// Hexadecimal digit `p` (0 to 31, most significant first) of a UUID given as
/// its 128-bit big-endian value.
pub open spec fn uuid_nibble(uuid: u128, p: int) -> int {
    ((uuid >> ((124 - 4 * p) as u128)) & 0xfu128) as int
}

/// The hyphenated lower-case text of a UUID (`xxxxxxxx-xxxx-xxxx-xxxx-xxxxxxxxxxxx`).
pub open spec fn uuid_text(uuid: u128) -> Seq<char> {
    Seq::new(
        36,
        |i: int|
            if i == 8 || i == 13 || i == 18 || i == 23 {
                '-'
            } else {
                let p = if i < 8 {
                    i
                } else if i < 13 {
                    i - 1
                } else if i < 18 {
                    i - 2
                } else if i < 23 {
                    i - 3
                } else {
                    i - 4
                };
                hex_digit(uuid_nibble(uuid, p))
            },
    )
}

/// The `Display` text of a `u64`: its decimal digits.
#[verifier::external_body]
pub(crate) fn decimal_string(n: u64) -> (r: String)
    ensures
        r@ == decimal_text(n as nat),
{
    format!("{}", n)
}

/// The `Display` text of `philharmonic_types::Uuid` (the `uuid` crate's
/// hyphenated lower-case form) for the UUID with this 128-bit value.
#[verifier::external_body]
pub(crate) fn uuid_string(uuid: u128) -> (r: String)
    ensures
        r@ == uuid_text(uuid),
{
    format!("{}", philharmonic_types::Uuid::from_u128(uuid))
}

/// The `Display` text of a `philharmonic_types::ContentDecodeError`. It
/// carries the text of an inner UTF-8 or JSON error, which nothing here
/// states.
#[verifier::external_body]
pub(crate) fn decode_error_string(e: &philharmonic_types::ContentDecodeError) -> String {
    format!("{}", e)
}

} // verus!
