//! The canonical value encoding, held against borsh's integer layout.

use account_state::codec::{decode_balance, decode_nonce, encode_balance, encode_nonce};
use account_state::types::{Balance, Nonce};

#[test]
fn balance_encoding_matches_borsh() {
    for v in [0u128, 1, 500, 0x0102_0304_0506_0708, u128::MAX] {
        assert_eq!(encode_balance(Balance(v)), borsh::to_vec(&v).unwrap());
    }
}

#[test]
fn nonce_encoding_matches_borsh() {
    for v in [0u32, 1, 7, 0x0102_0304, u32::MAX] {
        assert_eq!(encode_nonce(Nonce(v)), borsh::to_vec(&v).unwrap());
    }
}

#[test]
fn balance_decoding_matches_borsh() {
    for v in [0u128, 500, u128::MAX] {
        let bytes = borsh::to_vec(&v).unwrap();
        assert_eq!(decode_balance(&bytes), Some(Balance(v)));
        assert_eq!(borsh::from_slice::<u128>(&bytes).unwrap(), v);
    }
}

#[test]
fn nonce_decoding_matches_borsh() {
    for v in [0u32, 7, u32::MAX] {
        let bytes = borsh::to_vec(&v).unwrap();
        assert_eq!(decode_nonce(&bytes), Some(Nonce(v)));
        assert_eq!(borsh::from_slice::<u32>(&bytes).unwrap(), v);
    }
}

#[test]
fn exact_little_endian_layout() {
    let mut expected = vec![1u8];
    expected.extend_from_slice(&[0; 15]);
    assert_eq!(encode_balance(Balance(1)), expected);
    assert_eq!(encode_nonce(Nonce(0x0102_0304)), vec![4, 3, 2, 1]);
}

#[test]
fn wrong_length_is_rejected_as_borsh_rejects_it() {
    for len in [0usize, 4, 15, 17] {
        let bytes = vec![0u8; len];
        assert_eq!(decode_balance(&bytes), None);
        assert!(borsh::from_slice::<u128>(&bytes).is_err());
    }
    for len in [0usize, 3, 5, 16] {
        let bytes = vec![0u8; len];
        assert_eq!(decode_nonce(&bytes), None);
        assert!(borsh::from_slice::<u32>(&bytes).is_err());
    }
}

#[test]
fn canonical_width_always_decodes() {
    let bytes = vec![0xffu8; 16];
    assert_eq!(decode_balance(&bytes), Some(Balance(u128::MAX)));
    let bytes = vec![0xffu8; 4];
    assert_eq!(decode_nonce(&bytes), Some(Nonce(u32::MAX)));
}
