use tiny_keccak::Hasher;
use web3_wallet::address::{keccak256, parse_address, public_key_to_address};
use web3_wallet::keys::PublicKey;
use web3_wallet::WalletError;

/// The uncompressed secp256k1 generator point: the public key of scalar 1.
const GENERATOR_HEX: &str = "0479be667ef9dcbbac55a06295ce870b07029bfcdb2dce28d959f2815b16f81798483ada7726a3c4655da4fbfc0e1108a8fd17b448a68554199c47d08ffb10d4b8";

fn generator_key() -> PublicKey {
    PublicKey::from_bytes(hex::decode(GENERATOR_HEX).unwrap()).expect("well-formed key")
}

#[test]
fn keccak_of_empty_input_matches_known_digest() {
    let digest = keccak256(&[]);
    assert_eq!(
        hex::encode(digest),
        "c5d2460186f7233c927e7db2dcc703c0e500b653ca82273b7bfad8045d85a470"
    );
}

#[test]
fn keccak_agrees_with_tiny_keccak() {
    let data = b"wallet";
    let ours = keccak256(data);
    let mut theirs = [0u8; 32];
    let mut hasher = tiny_keccak::Keccak::v256();
    hasher.update(data);
    hasher.finalize(&mut theirs);
    assert_eq!(ours, theirs);
}

#[test]
fn address_of_generator_matches_known_vector() {
    // The Ethereum address of private key 1.
    let addr = public_key_to_address(&generator_key());
    assert_eq!(
        addr.to_hex_string(),
        "0x7e5f4552091a69125d5dfcb7b8c2659029395bdf"
    );
}

#[test]
fn address_is_20_bytes_and_deterministic() {
    let a1 = public_key_to_address(&generator_key());
    let a2 = public_key_to_address(&generator_key());
    assert_eq!(a1.as_bytes().len(), 20);
    assert_eq!(a1.as_bytes(), a2.as_bytes());
}

#[test]
fn address_matches_manual_derivation() {
    let pk_bytes = hex::decode(GENERATOR_HEX).unwrap();
    let digest = keccak256(&pk_bytes[1..]);
    let addr = public_key_to_address(&generator_key());
    assert_eq!(addr.as_bytes().as_slice(), &digest[12..]);
}

#[test]
fn public_key_from_bytes_rejects_bad_shapes() {
    assert!(PublicKey::from_bytes(vec![4u8; 64]).is_none());
    assert!(PublicKey::from_bytes(vec![2u8; 65]).is_none());
    assert!(PublicKey::from_bytes(vec![4u8; 65]).is_some());
}

#[test]
fn parse_address_accepts_both_prefix_forms() {
    let bare = "7e5f4552091a69125d5dfcb7b8c2659029395bdf";
    let a = parse_address(bare).expect("valid");
    assert_eq!(a.as_bytes().len(), 20);
    assert_eq!(a.as_bytes()[0], 0x7e);
    let prefixed = parse_address("0x7e5f4552091a69125d5dfcb7b8c2659029395bdf").expect("valid");
    assert_eq!(prefixed.as_bytes(), a.as_bytes());
    assert_eq!(prefixed.to_hex_string(), format!("0x{bare}"));
}

#[test]
fn parse_address_rejects_bad_strings() {
    for s in [
        "",
        "0x",
        "7e5f4552091a69125d5dfcb7b8c2659029395bd",    // 39 digits
        "7e5f4552091a69125d5dfcb7b8c2659029395bdf0",  // 41 digits
        "7e5f4552091a69125d5dfcb7b8c2659029395bdg",   // non-hex
        "not an address",
    ] {
        assert_eq!(parse_address(s).unwrap_err(), WalletError::InvalidAddressFormat);
    }
}
