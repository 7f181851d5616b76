//! The persisted key layout, held against the hex crate's encoding.

use account_state::keys::{balance_storage_key, nonce_storage_key, storage_key};
use account_state::types::Address;

#[test]
fn storage_key_prefixes_the_namespace() {
    assert_eq!(storage_key("abc"), "accounts/abc");
    assert_eq!(storage_key(""), "accounts/");
}

#[test]
fn balance_key_layout_matches_hex_crate() {
    let mut bytes = [0u8; 32];
    bytes[31] = 1;
    let key = balance_storage_key(Address::new(bytes));
    assert_eq!(key, format!("accounts/{}/balance", hex::encode(bytes)));
    assert_eq!(
        key,
        "accounts/0000000000000000000000000000000000000000000000000000000000000001/balance"
    );
}

#[test]
fn nonce_key_layout_matches_hex_crate() {
    let mut bytes = [0u8; 32];
    bytes[0] = 0xab;
    bytes[31] = 0xcd;
    let key = nonce_storage_key(Address::new(bytes));
    assert_eq!(key, format!("accounts/{}/nonce", hex::encode(bytes)));
}

#[test]
fn hex_text_matches_hex_crate() {
    let samples: [&[u8]; 4] = [&[], &[0x00], &[0x7a, 0xff, 0x10], &[0x01, 0x23, 0x45, 0x67]];
    for bytes in samples {
        assert_eq!(account_state::hex::encode_hex(bytes), hex::encode(bytes));
    }
}

#[test]
fn distinct_addresses_give_distinct_keys() {
    let mut b1 = [0u8; 32];
    let mut b2 = [0u8; 32];
    b1[31] = 1;
    b2[31] = 2;
    let a1 = Address::new(b1);
    let a2 = Address::new(b2);
    assert_ne!(balance_storage_key(a1), balance_storage_key(a2));
    assert_ne!(nonce_storage_key(a1), nonce_storage_key(a2));
    assert_ne!(balance_storage_key(a1), nonce_storage_key(a1));
    assert_ne!(balance_storage_key(a1), nonce_storage_key(a2));
}
