//! Hex encoding and decoding, stated over character sequences. The byte work
//! is done by the `hex` crate behind two trusted wrappers; everything around
//! them, including the round trip, is proved.

use vstd::prelude::*;

verus! {

/// The value of a hex digit, or -1 for any other character.
pub open spec fn hex_digit_val(c: char) -> int {
    if '0' as int <= c as int && c as int <= '9' as int {
        c as int - '0' as int
    } else if 'a' as int <= c as int && c as int <= 'f' as int {
        c as int - 'a' as int + 10
    } else if 'A' as int <= c as int && c as int <= 'F' as int {
        c as int - 'A' as int + 10
    } else {
        -1
    }
}

pub open spec fn is_hex_digit(c: char) -> bool {
    hex_digit_val(c) >= 0
}

/// The byte written by the digit pair at positions 2i and 2i+1.
pub open spec fn hex_byte_at(s: Seq<char>, i: int) -> u8 {
    (hex_digit_val(s[2 * i]) * 16 + hex_digit_val(s[2 * i + 1])) as u8
}

/// The bytes denoted by a sequence of hex digit pairs.
pub open spec fn hex_decode_seq(s: Seq<char>) -> Seq<u8> {
    Seq::new((s.len() / 2) as nat, |i: int| hex_byte_at(s, i))
}

/// The lowercase hex digit for a value in 0..16.
pub open spec fn hex_digit_char(v: int) -> char {
    if v == 0 { '0' }
    else if v == 1 { '1' }
    else if v == 2 { '2' }
    else if v == 3 { '3' }
    else if v == 4 { '4' }
    else if v == 5 { '5' }
    else if v == 6 { '6' }
    else if v == 7 { '7' }
    else if v == 8 { '8' }
    else if v == 9 { '9' }
    else if v == 10 { 'a' }
    else if v == 11 { 'b' }
    else if v == 12 { 'c' }
    else if v == 13 { 'd' }
    else if v == 14 { 'e' }
    else if v == 15 { 'f' }
    else { '?' }
}

/// The lowercase hex rendering of a byte sequence, two digits per byte.
pub open spec fn hex_encode_seq(b: Seq<u8>) -> Seq<char> {
    Seq::new((2 * b.len()) as nat, |i: int|
        if i % 2 == 0 {
            hex_digit_char(b[i / 2] as int / 16)
        } else {
            hex_digit_char(b[i / 2] as int % 16)
        })
}

/// Relies on hex::decode: it succeeds exactly on even-length strings of hex
/// digits (a non-ASCII character encodes to bytes outside the digit ranges,
/// so it is rejected as well), and each digit pair becomes one byte,
/// high nibble first.
#[verifier::external_body]
pub(crate) fn hex_decode(s: &str) -> (r: Result<Vec<u8>, ()>)
    ensures
        r is Ok <==> (s@.len() % 2 == 0 && (forall|i: int|
            0 <= i < s@.len() ==> is_hex_digit(s@[i]))),
        r matches Ok(v) ==> v@ == hex_decode_seq(s@),
{
    match hex::decode(s) {
        Ok(v) => Ok(v),
        Err(_) => Err(()),
    }
}

/// Relies on hex::encode: two lowercase hex digits per byte, high nibble first.
#[verifier::external_body]
pub(crate) fn hex_encode(b: &[u8]) -> (r: String)
    ensures
        r@ == hex_encode_seq(b@),
{
    hex::encode(b)
}

/// Digit-level inverse: reading back the digit written for v gives v.
pub proof fn lemma_hex_digit_round_trip(v: int)
    requires
        0 <= v < 16,
    ensures
        is_hex_digit(hex_digit_char(v)),
        hex_digit_val(hex_digit_char(v)) == v,
{
}

/// Encoding a byte sequence yields an even-length string of hex digits,
/// and decoding that string gives the original bytes back.
pub proof fn lemma_hex_round_trip(b: Seq<u8>)
    ensures
        hex_encode_seq(b).len() == 2 * b.len(),
        hex_encode_seq(b).len() % 2 == 0,
        forall|i: int| 0 <= i < 2 * b.len() ==> is_hex_digit(#[trigger] hex_encode_seq(b)[i]),
        hex_decode_seq(hex_encode_seq(b)) == b,
{
    let e = hex_encode_seq(b);
    assert forall|i: int| 0 <= i < 2 * b.len() implies is_hex_digit(#[trigger] e[i]) by {
        if i % 2 == 0 {
            lemma_hex_digit_round_trip(b[i / 2] as int / 16);
        } else {
            lemma_hex_digit_round_trip(b[i / 2] as int % 16);
        }
    }
    assert forall|i: int| 0 <= i < b.len() implies hex_decode_seq(e)[i] == b[i] by {
        assert((2 * i) / 2 == i);
        assert((2 * i + 1) / 2 == i);
        assert(e[2 * i] == hex_digit_char(b[i] as int / 16));
        assert(e[2 * i + 1] == hex_digit_char(b[i] as int % 16));
        lemma_hex_digit_round_trip(b[i] as int / 16);
        lemma_hex_digit_round_trip(b[i] as int % 16);
        assert((b[i] as int / 16) * 16 + b[i] as int % 16 == b[i] as int);
    }
    assert(hex_decode_seq(e) =~= b);
}

} // verus!
