use web3_wallet::keys::hex_to_secret_key;
use web3_wallet::WalletError;

const KEY_ONE: &str = "0000000000000000000000000000000000000000000000000000000000000001";

#[test]
fn decode_accepts_plain_64_hex() {
    let k = hex_to_secret_key(KEY_ONE).expect("valid key");
    assert_eq!(k.as_bytes().len(), 32);
    assert_eq!(k.as_bytes()[31], 1u8);
    assert_eq!(k.as_bytes()[0], 0u8);
}

#[test]
fn decode_accepts_0x_prefix() {
    let with_prefix = format!("0x{}", KEY_ONE);
    let k = hex_to_secret_key(&with_prefix).expect("valid key");
    assert_eq!(k.as_bytes()[31], 1u8);
}

#[test]
fn decode_rejects_wrong_length_as_key_format() {
    // 63 digits
    assert_eq!(
        hex_to_secret_key(&KEY_ONE[1..]).unwrap_err(),
        WalletError::InvalidKeyFormat
    );
    // 65 digits
    let long = format!("{}0", KEY_ONE);
    assert_eq!(hex_to_secret_key(&long).unwrap_err(), WalletError::InvalidKeyFormat);
    // empty, and bare prefix
    assert_eq!(hex_to_secret_key("").unwrap_err(), WalletError::InvalidKeyFormat);
    assert_eq!(hex_to_secret_key("0x").unwrap_err(), WalletError::InvalidKeyFormat);
}

#[test]
fn decode_rejects_non_hex_characters() {
    let bad = format!("{}g", &KEY_ONE[1..]);
    assert_eq!(hex_to_secret_key(&bad).unwrap_err(), WalletError::InvalidKeyFormat);
    let unicode = format!("{}\u{00e9}", &KEY_ONE[1..]);
    assert_eq!(hex_to_secret_key(&unicode).unwrap_err(), WalletError::InvalidKeyFormat);
}

#[test]
fn decode_rejects_zero_scalar_as_secret_key() {
    let zeros = "0".repeat(64);
    assert_eq!(hex_to_secret_key(&zeros).unwrap_err(), WalletError::InvalidSecretKey);
}

#[test]
fn decode_rejects_scalar_at_or_above_group_order() {
    // All-ones is far above the secp256k1 group order.
    let ones = "f".repeat(64);
    assert_eq!(hex_to_secret_key(&ones).unwrap_err(), WalletError::InvalidSecretKey);
    // The group order itself is not a valid scalar.
    let order = "fffffffffffffffffffffffffffffffebaaedce6af48a03bbfd25e8cd0364141";
    assert_eq!(hex_to_secret_key(order).unwrap_err(), WalletError::InvalidSecretKey);
    // One below the order is the largest valid scalar.
    let order_minus_one = "fffffffffffffffffffffffffffffffebaaedce6af48a03bbfd25e8cd0364140";
    assert!(hex_to_secret_key(order_minus_one).is_ok());
}

#[test]
fn decode_agrees_with_secp256k1_validation() {
    for s in [
        "0000000000000000000000000000000000000000000000000000000000000001",
        "0000000000000000000000000000000000000000000000000000000000000000",
        "fffffffffffffffffffffffffffffffebaaedce6af48a03bbfd25e8cd0364141",
        "fffffffffffffffffffffffffffffffebaaedce6af48a03bbfd25e8cd0364140",
        "4646464646464646464646464646464646464646464646464646464646464646",
    ] {
        let ours = hex_to_secret_key(s).is_ok();
        let theirs = secp256k1::SecretKey::from_slice(&hex::decode(s).unwrap()).is_ok();
        assert_eq!(ours, theirs, "disagreement on {s}");
    }
}

#[test]
fn key_round_trips_through_hex() {
    let k = hex_to_secret_key(KEY_ONE).expect("valid key");
    let rendered = k.to_hex();
    assert_eq!(rendered, KEY_ONE);
    let again = hex_to_secret_key(&rendered).expect("round trip");
    assert_eq!(again.as_bytes(), k.as_bytes());
}
