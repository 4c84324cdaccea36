//! Token generator: opaque bearer tokens drawn from a cryptographically
//! strong random source and rendered as lowercase hexadecimal, so they are
//! safe for header transport.

use vstd::prelude::*;

verus! {

/// Relies on rand::random: one byte from the thread-local CSPRNG-backed
/// generator. Nothing can be promised of a random value.
#[verifier::external_body]
fn random_byte() -> u8 {
    rand::random::<u8>()
}

/// The lowercase hexadecimal digit for a value below 16.
pub open spec fn hex_digit_char(d: int) -> char
    recommends
        0 <= d < 16,
{
    if d == 0 {
        '0'
    } else if d == 1 {
        '1'
    } else if d == 2 {
        '2'
    } else if d == 3 {
        '3'
    } else if d == 4 {
        '4'
    } else if d == 5 {
        '5'
    } else if d == 6 {
        '6'
    } else if d == 7 {
        '7'
    } else if d == 8 {
        '8'
    } else if d == 9 {
        '9'
    } else if d == 10 {
        'a'
    } else if d == 11 {
        'b'
    } else if d == 12 {
        'c'
    } else if d == 13 {
        'd'
    } else if d == 14 {
        'e'
    } else {
        'f'
    }
}

/// A lowercase hexadecimal digit.
pub open spec fn is_hex_char(c: char) -> bool {
    crate::text::is_digit(c) || ('a' as u32) <= (c as u32) <= ('f' as u32)
}

/// The lowercase hexadecimal rendering of a byte string: two digits per
/// byte, high nibble first.
pub open spec fn hex_seq(bytes: Seq<u8>) -> Seq<char> {
    Seq::new(
        2 * bytes.len(),
        |i: int|
            if i % 2 == 0 {
                hex_digit_char((bytes[i / 2] >> 4) as int)
            } else {
                hex_digit_char((bytes[i / 2] & 0xf) as int)
            },
    )
}

/// Relies on hex::encode: two lowercase hexadecimal digits per input byte,
/// high nibble first.
#[verifier::external_body]
fn hex_encode(bytes: &Vec<u8>) -> (r: String)
    ensures
        r@ == hex_seq(bytes@),
{
    hex::encode(bytes.as_slice())
}

/// Generate a random API token: 32 bytes from a CSPRNG-backed source,
/// hex-encoded, so 64 lowercase hexadecimal characters with no control
/// characters. Distinctness from other calls holds with overwhelming
/// probability but is not a logical guarantee.
pub fn generate_token() -> (r: String)
    ensures
        r@.len() == 64,
        forall|i: int| 0 <= i < r@.len() ==> is_hex_char(#[trigger] r@[i]),
{
    let mut bytes: Vec<u8> = Vec::new();
    let mut i: usize = 0;
    while i < 32
        invariant
            bytes@.len() == i,
            i <= 32,
        decreases 32 - i,
    {
        let b = random_byte();
        bytes.push(b);
        i += 1;
    }
    let r = hex_encode(&bytes);
    proof {
        assert forall|j: int| 0 <= j < r@.len() implies is_hex_char(#[trigger] r@[j]) by {
            let b = bytes@[j / 2];
            assert((b >> 4) < 16 && (b & 0xf) < 16) by (bit_vector);
        }
    }
    r
}

} // verus!
