//! Ethereum addresses: derivation from a public key (Keccak-256 of the
//! uncompressed key without its tag byte, low 20 bytes of the digest) and
//! parsing from a hex string. Keccak-256 itself is the tiny-keccak crate's,
//! behind one trusted wrapper.

use vstd::prelude::*;
use vstd::slice::slice_subrange;
use vstd::string::{StrSliceExecFns, StringExecFns};
use tiny_keccak::Hasher;
use crate::hexcodec::{hex_decode, hex_encode, hex_decode_seq, hex_encode_seq, is_hex_digit};
use crate::keys::{strip_hex_prefix, PublicKey};
use crate::WalletError;

verus! {

/// The Keccak-256 digest of a byte sequence: a pure function of the input.
pub uninterp spec fn keccak_of(b: Seq<u8>) -> Seq<u8>;

/// Relies on tiny_keccak's Keccak::v256: the digest is deterministic in the
/// input bytes and 32 bytes long.
#[verifier::external_body]
pub fn keccak256(bytes: &[u8]) -> (r: [u8; 32])
    ensures
        r@ == keccak_of(bytes@),
{
    let mut output = [0u8; 32];
    let mut hasher = tiny_keccak::Keccak::v256();
    hasher.update(bytes);
    hasher.finalize(&mut output);
    output
}

/// The address derived from an uncompressed public key: the format tag is
/// dropped, the remaining bytes are hashed, and the digest's last 20 bytes
/// are the address.
pub open spec fn eth_address_of(pk: Seq<u8>) -> Seq<u8> {
    keccak_of(pk.subrange(1, pk.len() as int)).subrange(12, 32)
}

/// A 20-byte Ethereum account address.
#[derive(Debug)]
pub struct Address {
    bytes: Vec<u8>,
}

impl View for Address {
    type V = Seq<u8>;

    closed spec fn view(&self) -> Seq<u8> {
        self.bytes@
    }
}

impl Address {
    pub open spec fn wf(&self) -> bool {
        self@.len() == 20
    }

    pub fn as_bytes(&self) -> (r: &Vec<u8>)
        ensures
            r@ == self@,
    {
        &self.bytes
    }

    /// The address as "0x" followed by 40 lowercase hex digits.
    pub fn to_hex_string(&self) -> (r: String)
        ensures
            r@ == seq!['0', 'x'] + hex_encode_seq(self@),
    {
        proof {
            reveal_strlit("0x");
        }
        let mut s = String::from_str("0x");
        let digits = hex_encode(self.bytes.as_slice());
        s.append(digits.as_str());
        proof {
            assert("0x"@ =~= seq!['0', 'x']);
        }
        s
    }
}

/// Derive the account address of an uncompressed public key.
pub fn public_key_to_address(public_key: &PublicKey) -> (r: Address)
    requires
        public_key.wf(),
    ensures
        r.wf(),
        r@ == eth_address_of(public_key@),
{
    let ser = public_key.as_bytes();
    let body: &[u8] = slice_subrange(ser.as_slice(), 1, ser.len());
    let hash = keccak256(body);
    let tail: &[u8] = slice_subrange(&hash, 12, 32);
    let bytes = vstd::slice::slice_to_vec(tail);
    assert(bytes@ =~= eth_address_of(public_key@));
    Address { bytes }
}

/// A well-formed address string: after stripping an optional "0x",
/// exactly 40 hex digits.
pub open spec fn addr_hex_wellformed(s: Seq<char>) -> bool {
    let t = strip_hex_prefix(s);
    t.len() == 40 && (forall|i: int| 0 <= i < t.len() ==> is_hex_digit(t[i]))
}

/// The bytes a well-formed address string denotes.
pub open spec fn addr_bytes_of_hex(s: Seq<char>) -> Seq<u8> {
    hex_decode_seq(strip_hex_prefix(s))
}

/// Parse an account address: an optional "0x" prefix, then exactly 40 hex
/// digits. Anything else is InvalidAddressFormat.
pub fn parse_address(s: &str) -> (r: Result<Address, WalletError>)
    ensures
        r is Ok <==> addr_hex_wellformed(s@),
        r matches Ok(a) ==> a@ == addr_bytes_of_hex(s@) && a.wf(),
        r matches Err(e) ==> e == WalletError::InvalidAddressFormat,
{
    let n = s.unicode_len();
    let has_prefix = n >= 2 && s.get_char(0) == '0' && s.get_char(1) == 'x';
    let stripped: &str = if has_prefix {
        s.substring_char(2, n)
    } else {
        s
    };
    assert(stripped@ == strip_hex_prefix(s@));
    match hex_decode(stripped) {
        Err(_) => Err(WalletError::InvalidAddressFormat),
        Ok(bytes) => {
            if bytes.len() != 20 {
                return Err(WalletError::InvalidAddressFormat);
            }
            Ok(Address { bytes })
        },
    }
}

} // verus!
