//! Key management: decoding a hex private key into a validated secp256k1
//! scalar, and generating a fresh key pair. The curve arithmetic itself is
//! the secp256k1 crate's, behind trusted wrappers; the format checks and the
//! error taxonomy are proved.

use vstd::prelude::*;
use vstd::string::StrSliceExecFns;
use crate::hexcodec::{
    hex_decode, hex_encode, hex_decode_seq, hex_encode_seq, is_hex_digit, lemma_hex_round_trip,
};
use crate::WalletError;

verus! {

/// A byte sequence read as a big-endian unsigned integer.
pub open spec fn be_bytes_as_int(b: Seq<u8>) -> int
    decreases b.len(),
{
    if b.len() == 0 {
        0
    } else {
        be_bytes_as_int(b.drop_last()) * 256 + b.last() as int
    }
}

/// The order of the secp256k1 group,
/// 0xFFFFFFFFFFFFFFFFFFFFFFFFFFFFFFFE BAAEDCE6AF48A03BBFD25E8CD0364141,
/// written as high and low 128-bit halves.
pub open spec fn secp256k1_order() -> int {
    (0xFFFFFFFFFFFFFFFFFFFFFFFFFFFFFFFEu128 as int)
        * (0x10000000000000000u128 as int) * (0x10000000000000000u128 as int)
        + (0xBAAEDCE6AF48A03BBFD25E8CD0364141u128 as int)
}

/// A valid private scalar: 32 bytes whose big-endian value is in [1, n-1].
pub open spec fn is_valid_scalar(b: Seq<u8>) -> bool {
    &&& b.len() == 32
    &&& 0 < be_bytes_as_int(b)
    &&& be_bytes_as_int(b) < secp256k1_order()
}

/// Relies on secp256k1::SecretKey::from_slice: it accepts exactly the
/// 32-byte big-endian encodings of integers in [1, n-1], n the group order.
#[verifier::external_body]
fn scalar_is_valid(b: &[u8]) -> (r: bool)
    ensures
        r == is_valid_scalar(b@),
{
    secp256k1::SecretKey::from_slice(b).is_ok()
}

/// The 65-byte uncompressed serialization of the public key derived from a
/// private scalar: a function of the scalar alone.
pub uninterp spec fn uncompressed_pubkey_of(sk: Seq<u8>) -> Seq<u8>;

/// Relies on secp256k1's Secp256k1::generate_keypair over the operating
/// system's secure random source (which aborts rather than fall back to a
/// weak source), and on PublicKey::serialize_uncompressed: the secret is a
/// valid scalar, and the serialization of its derived public key is 65 bytes
/// starting with the format tag 0x04.
#[verifier::external_body]
fn generate_keypair_bytes() -> (r: (Vec<u8>, Vec<u8>))
    ensures
        is_valid_scalar(r.0@),
        r.1@ == uncompressed_pubkey_of(r.0@),
        r.1@.len() == 65,
        r.1@[0] == 4u8,
{
    let secp = secp256k1::Secp256k1::new();
    let (sk, pk) = secp.generate_keypair(&mut rand::rngs::OsRng);
    (sk.secret_bytes().to_vec(), pk.serialize_uncompressed().to_vec())
}

/// A validated secp256k1 private scalar, held as its 32 raw bytes.
#[derive(Debug)]
pub struct PrivateKey {
    bytes: Vec<u8>,
}

impl View for PrivateKey {
    type V = Seq<u8>;

    closed spec fn view(&self) -> Seq<u8> {
        self.bytes@
    }
}

impl PrivateKey {
    pub open spec fn wf(&self) -> bool {
        is_valid_scalar(self@)
    }

    pub fn as_bytes(&self) -> (r: &Vec<u8>)
        ensures
            r@ == self@,
    {
        &self.bytes
    }

    /// The key's raw bytes rendered as 64 lowercase hex digits.
    pub fn to_hex(&self) -> (r: String)
        ensures
            r@ == hex_encode_seq(self@),
    {
        hex_encode(self.bytes.as_slice())
    }
}

/// The uncompressed public key bytes of a key pair: 65 bytes, tag byte 0x04.
#[derive(Debug)]
pub struct PublicKey {
    bytes: Vec<u8>,
}

impl View for PublicKey {
    type V = Seq<u8>;

    closed spec fn view(&self) -> Seq<u8> {
        self.bytes@
    }
}

impl PublicKey {
    pub open spec fn wf(&self) -> bool {
        self@.len() == 65 && self@[0] == 4u8
    }

    /// Wrap an uncompressed serialization: 65 bytes beginning with the
    /// format tag 0x04.
    pub fn from_bytes(bytes: Vec<u8>) -> (r: Option<PublicKey>)
        ensures
            r is Some <==> (bytes@.len() == 65 && bytes@[0] == 4u8),
            r matches Some(p) ==> p@ == bytes@ && p.wf(),
    {
        if bytes.len() == 65 {
            let tag = bytes[0];
            if tag == 4u8 {
                return Some(PublicKey { bytes });
            }
        }
        None
    }

    pub fn as_bytes(&self) -> (r: &Vec<u8>)
        ensures
            r@ == self@,
    {
        &self.bytes
    }
}

/// A fresh key pair from the secure random source, as raw bytes.
pub fn generate_keypair() -> (r: (PrivateKey, PublicKey))
    ensures
        r.0.wf(),
        r.1.wf(),
        r.1@ == uncompressed_pubkey_of(r.0@),
{
    let (sk_bytes, pk_bytes) = generate_keypair_bytes();
    (PrivateKey { bytes: sk_bytes }, PublicKey { bytes: pk_bytes })
}

/// The input with one leading "0x" removed, if present.
pub open spec fn strip_hex_prefix(s: Seq<char>) -> Seq<char> {
    if s.len() >= 2 && s[0] == '0' && s[1] == 'x' {
        s.subrange(2, s.len() as int)
    } else {
        s
    }
}

/// A well-formed private-key string: after stripping an optional "0x",
/// exactly 64 hex digits.
pub open spec fn key_hex_wellformed(s: Seq<char>) -> bool {
    let t = strip_hex_prefix(s);
    t.len() == 64 && (forall|i: int| 0 <= i < t.len() ==> is_hex_digit(t[i]))
}

/// The bytes a well-formed private-key string denotes.
pub open spec fn key_bytes_of_hex(s: Seq<char>) -> Seq<u8> {
    hex_decode_seq(strip_hex_prefix(s))
}

/// Decode a hex private key: an optional "0x" prefix, then exactly 64 hex
/// digits, whose 32 bytes must be a valid scalar. Format faults (wrong
/// length, a non-hex character) are InvalidKeyFormat; a well-formed string
/// whose value is zero or at least the group order is InvalidSecretKey.
pub fn hex_to_secret_key(hex_str: &str) -> (r: Result<PrivateKey, WalletError>)
    ensures
        r is Ok <==> (key_hex_wellformed(hex_str@)
            && is_valid_scalar(key_bytes_of_hex(hex_str@))),
        r matches Ok(k) ==> k@ == key_bytes_of_hex(hex_str@) && k.wf(),
        r matches Err(e) ==> e == (if !key_hex_wellformed(hex_str@) {
            WalletError::InvalidKeyFormat
        } else {
            WalletError::InvalidSecretKey
        }),
{
    let n = hex_str.unicode_len();
    let has_prefix = n >= 2 && hex_str.get_char(0) == '0' && hex_str.get_char(1) == 'x';
    let stripped: &str = if has_prefix {
        hex_str.substring_char(2, n)
    } else {
        hex_str
    };
    assert(stripped@ == strip_hex_prefix(hex_str@));
    match hex_decode(stripped) {
        Err(_) => Err(WalletError::InvalidKeyFormat),
        Ok(bytes) => {
            if bytes.len() != 32 {
                return Err(WalletError::InvalidKeyFormat);
            }
            if !scalar_is_valid(bytes.as_slice()) {
                return Err(WalletError::InvalidSecretKey);
            }
            Ok(PrivateKey { bytes })
        },
    }
}

/// Round trip: rendering a valid key's bytes as hex yields a well-formed
/// private-key string that decodes back to the identical key bytes.
pub proof fn lemma_private_key_hex_round_trip(b: Seq<u8>)
    requires
        is_valid_scalar(b),
    ensures
        key_hex_wellformed(hex_encode_seq(b)),
        is_valid_scalar(key_bytes_of_hex(hex_encode_seq(b))),
        key_bytes_of_hex(hex_encode_seq(b)) == b,
{
    lemma_hex_round_trip(b);
    let e = hex_encode_seq(b);
    assert(e.len() == 64);
    if e[0] == '0' && e[1] == 'x' {
        assert(is_hex_digit(e[1]));
        assert(false);
    }
    assert(strip_hex_prefix(e) == e);
}

} // verus!
