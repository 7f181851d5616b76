//! Behaviour of the account accessors over the in-memory store adapter.

use account_state::state::{
    balance_from_raw, get_account_balance, get_account_nonce, nonce_from_raw,
    put_account_balance, put_account_nonce, MemoryStore, StateWrite,
};
use account_state::keys::{balance_storage_key, nonce_storage_key};
use account_state::types::{Address, Balance, Nonce, StateError};

fn address_from_last_byte(last: u8) -> Address {
    let mut bytes = [0u8; 32];
    bytes[31] = last;
    Address::new(bytes)
}

#[test]
fn unwritten_account_reads_zero() {
    let store = MemoryStore::new();
    let addr = address_from_last_byte(9);
    assert_eq!(get_account_balance(&store, addr), Ok(Balance(0)));
    assert_eq!(get_account_nonce(&store, addr), Ok(Nonce(0)));
}

#[test]
fn balance_roundtrip() {
    let mut store = MemoryStore::new();
    let addr = address_from_last_byte(1);
    assert_eq!(put_account_balance(&mut store, addr, Balance(500)), Ok(()));
    assert_eq!(get_account_balance(&store, addr), Ok(Balance(500)));
    assert_eq!(put_account_balance(&mut store, addr, Balance(u128::MAX)), Ok(()));
    assert_eq!(get_account_balance(&store, addr), Ok(Balance(u128::MAX)));
}

#[test]
fn nonce_roundtrip() {
    let mut store = MemoryStore::new();
    let addr = address_from_last_byte(1);
    assert_eq!(put_account_nonce(&mut store, addr, Nonce(7)), Ok(()));
    assert_eq!(get_account_nonce(&store, addr), Ok(Nonce(7)));
    assert_eq!(put_account_nonce(&mut store, addr, Nonce(u32::MAX)), Ok(()));
    assert_eq!(get_account_nonce(&store, addr), Ok(Nonce(u32::MAX)));
}

#[test]
fn explicit_zero_reads_back_as_zero() {
    let mut store = MemoryStore::new();
    let addr = address_from_last_byte(3);
    assert_eq!(put_account_balance(&mut store, addr, Balance(0)), Ok(()));
    assert_eq!(get_account_balance(&store, addr), Ok(Balance(0)));
}

#[test]
fn last_write_wins() {
    let mut store = MemoryStore::new();
    let addr = address_from_last_byte(4);
    put_account_balance(&mut store, addr, Balance(1)).unwrap();
    put_account_balance(&mut store, addr, Balance(2)).unwrap();
    assert_eq!(get_account_balance(&store, addr), Ok(Balance(2)));
}

#[test]
fn write_isolation() {
    let mut store = MemoryStore::new();
    let written = address_from_last_byte(1);
    let other = address_from_last_byte(2);
    put_account_balance(&mut store, other, Balance(11)).unwrap();
    put_account_nonce(&mut store, other, Nonce(22)).unwrap();
    put_account_nonce(&mut store, written, Nonce(33)).unwrap();

    put_account_balance(&mut store, written, Balance(44)).unwrap();

    assert_eq!(get_account_balance(&store, other), Ok(Balance(11)));
    assert_eq!(get_account_nonce(&store, other), Ok(Nonce(22)));
    assert_eq!(get_account_nonce(&store, written), Ok(Nonce(33)));
    assert_eq!(get_account_balance(&store, written), Ok(Balance(44)));
}

#[test]
fn corrupt_balance_bytes_fail_decoding() {
    let mut store = MemoryStore::new();
    let addr = address_from_last_byte(5);
    store.put_raw(balance_storage_key(addr), vec![1, 2, 3]);
    assert_eq!(get_account_balance(&store, addr), Err(StateError::Decoding));
}

#[test]
fn corrupt_nonce_bytes_fail_decoding() {
    let mut store = MemoryStore::new();
    let addr = address_from_last_byte(5);
    store.put_raw(nonce_storage_key(addr), vec![0; 17]);
    assert_eq!(get_account_nonce(&store, addr), Err(StateError::Decoding));
}

#[test]
fn raw_read_interpretation() {
    assert_eq!(balance_from_raw(Ok(None)), Ok(Balance(0)));
    assert_eq!(nonce_from_raw(Ok(None)), Ok(Nonce(0)));
    assert_eq!(
        balance_from_raw(Ok(Some(vec![2, 0, 0, 0, 0, 0, 0, 0, 0, 0, 0, 0, 0, 0, 0, 0]))),
        Ok(Balance(2))
    );
    assert_eq!(nonce_from_raw(Ok(Some(vec![7, 0, 0, 0]))), Ok(Nonce(7)));
    assert_eq!(balance_from_raw(Ok(Some(vec![1, 2]))), Err(StateError::Decoding));
    assert_eq!(nonce_from_raw(Ok(Some(vec![]))), Err(StateError::Decoding));
    assert_eq!(
        balance_from_raw(Err(StateError::StoreIo)),
        Err(StateError::StoreIo)
    );
    assert_eq!(nonce_from_raw(Err(StateError::StoreIo)), Err(StateError::StoreIo));
}

#[test]
fn single_account_scenario() {
    let mut store = MemoryStore::new();
    let addr = address_from_last_byte(1);

    assert_eq!(get_account_balance(&store, addr), Ok(Balance(0)));
    assert_eq!(get_account_nonce(&store, addr), Ok(Nonce(0)));

    put_account_balance(&mut store, addr, Balance(500)).unwrap();
    assert_eq!(get_account_balance(&store, addr), Ok(Balance(500)));
    assert_eq!(get_account_nonce(&store, addr), Ok(Nonce(0)));

    put_account_nonce(&mut store, addr, Nonce(7)).unwrap();
    assert_eq!(get_account_nonce(&store, addr), Ok(Nonce(7)));
    assert_eq!(get_account_balance(&store, addr), Ok(Balance(500)));
}
