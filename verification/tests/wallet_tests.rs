use web3_wallet::keys::{generate_keypair, hex_to_secret_key};
use web3_wallet::wallet::Wallet;

#[test]
fn generated_wallet_has_displayable_20_byte_nonzero_address() {
    let w = Wallet::generate();
    assert_eq!(w.address.as_bytes().len(), 20);
    let shown = w.address.to_hex_string();
    assert_eq!(shown.len(), 42);
    assert!(shown.starts_with("0x"));
    assert!(shown[2..].chars().all(|c| c.is_ascii_hexdigit()));
    assert_ne!(w.address.as_bytes().as_slice(), &[0u8; 20]);
}

#[test]
fn generated_key_round_trips_through_hex() {
    let w = Wallet::generate();
    let rendered = w.private_key.to_hex();
    assert_eq!(rendered.len(), 64);
    let decoded = hex_to_secret_key(&rendered).expect("generated keys decode");
    assert_eq!(decoded.as_bytes(), w.private_key.as_bytes());

    let prefixed = format!("0x{rendered}");
    let decoded = hex_to_secret_key(&prefixed).expect("prefixed form decodes too");
    assert_eq!(decoded.as_bytes(), w.private_key.as_bytes());
}

#[test]
fn generated_keypair_agrees_with_secp256k1_derivation() {
    let (sk, pk) = generate_keypair();
    let secp = secp256k1::Secp256k1::new();
    let their_sk = secp256k1::SecretKey::from_slice(sk.as_bytes()).expect("valid scalar");
    let their_pk = secp256k1::PublicKey::from_secret_key(&secp, &their_sk);
    assert_eq!(
        pk.as_bytes().as_slice(),
        &their_pk.serialize_uncompressed()[..]
    );
}

#[test]
fn two_generated_wallets_differ() {
    let a = Wallet::generate();
    let b = Wallet::generate();
    assert_ne!(a.private_key.as_bytes(), b.private_key.as_bytes());
    assert_ne!(a.address.as_bytes(), b.address.as_bytes());
}
