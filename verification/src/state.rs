//! Read and write capabilities over a raw key-value state substrate.
//!
//! The substrate is abstract: any store whose raw point reads and writes
//! satisfy the [`StateRead`] / [`StateWrite`] contracts gains the account
//! operations. [`MemoryStore`] is a concrete adapter. The accessor layer is
//! stateless per call: it derives the key, encodes or decodes the value, and
//! delegates every lookup to the store, with no caching or buffering.

use vstd::prelude::*;

verus! {

use crate::codec::{
    decode_balance,
    decode_nonce,
    encode_balance,
    encode_nonce,
    spec_decode_balance,
    spec_decode_nonce,
    spec_encode_balance,
    spec_encode_nonce,
};
use crate::keys::{balance_storage_key, nonce_storage_key, spec_balance_key, spec_nonce_key};
use crate::types::{Address, Balance, Nonce, StateError};

/// Read capability of a key-value state substrate.
pub trait StateRead {
    /// The store's contents: key text to raw bytes.
    spec fn kv(&self) -> Map<Seq<char>, Seq<u8>>;

    /// Raw point read. `Ok(None)` means no entry at `key`; an entry that is
    /// present comes back exactly as written; a failing store reports a
    /// store error and nothing else.
    fn get_raw(&self, key: &str) -> (r: Result<Option<Vec<u8>>, StateError>)
        ensures
            match r {
                Ok(Some(v)) => self.kv().contains_key(key@) && v@ == self.kv()[key@],
                Ok(None) => !self.kv().contains_key(key@),
                Err(e) => e is StoreIo,
            },
    ;
}

/// Write capability of a key-value state substrate.
pub trait StateWrite: StateRead {
    /// Raw unconditional write: the last write at a key wins.
    fn put_raw(&mut self, key: String, value: Vec<u8>)
        ensures
            final (self).kv() == old(self).kv().insert(key@, value@),
    ;
}

/// The contents an append-only journal of raw writes denotes, newest entry
/// winning.
pub open spec fn journal_map(entries: Seq<(String, Vec<u8>)>) -> Map<Seq<char>, Seq<u8>>
    decreases entries.len(),
{
    if entries.len() == 0 {
        Map::empty()
    } else {
        journal_map(entries.drop_last()).insert(entries.last().0@, entries.last().1@)
    }
}

/// In-memory store adapter: raw writes are journalled in order, and a read
/// scans from the newest entry backwards, so the last write wins. Reads
/// never fail.
pub struct MemoryStore {
    entries: Vec<(String, Vec<u8>)>,
}

impl MemoryStore {
    /// An empty store: no key holds an entry.
    pub fn new() -> (s: MemoryStore)
        ensures
            s.kv() == Map::<Seq<char>, Seq<u8>>::empty(),
    {
        MemoryStore { entries: Vec::new() }
    }
}

/// Copy raw bytes out of the store.
fn copy_bytes(v: &Vec<u8>) -> (r: Vec<u8>)
    ensures
        r@ == v@,
{
    let mut out: Vec<u8> = Vec::new();
    for i in 0..v.len()
        invariant
            out@ =~= v@.take(i as int),
    {
        out.push(v[i]);
    }
    proof {
        assert(v@.take(v@.len() as int) =~= v@);
    }
    out
}

impl StateRead for MemoryStore {
    closed spec fn kv(&self) -> Map<Seq<char>, Seq<u8>> {
        journal_map(self.entries@)
    }

    fn get_raw(&self, key: &str) -> (r: Result<Option<Vec<u8>>, StateError>) {
        let owned: String = key.to_owned();
        let mut i: usize = self.entries.len();
        proof {
            assert(self.entries@.take(self.entries@.len() as int) =~= self.entries@);
        }
        while i > 0
            invariant
                i <= self.entries@.len(),
                owned@ == key@,
                journal_map(self.entries@).contains_key(key@) == journal_map(
                    self.entries@.take(i as int),
                ).contains_key(key@),
                journal_map(self.entries@).contains_key(key@) ==> journal_map(
                    self.entries@.take(i as int),
                )[key@] == journal_map(self.entries@)[key@],
            decreases i,
        {
            i = i - 1;
            proof {
                let up_to_here = self.entries@.take(i + 1);
                assert(up_to_here.drop_last() =~= self.entries@.take(i as int));
                assert(up_to_here.last() == self.entries@[i as int]);
                assert(journal_map(up_to_here) == journal_map(
                    self.entries@.take(i as int),
                ).insert(self.entries@[i as int].0@, self.entries@[i as int].1@));
            }
            if self.entries[i].0 == owned {
                return Ok(Some(copy_bytes(&self.entries[i].1)));
            }
        }
        proof {
            assert(self.entries@.take(0) =~= Seq::<(String, Vec<u8>)>::empty());
        }
        Ok(None)
    }
}

impl StateWrite for MemoryStore {
    fn put_raw(&mut self, key: String, value: Vec<u8>) {
        let ghost key_view = key@;
        let ghost value_view = value@;
        self.entries.push((key, value));
        proof {
            assert(self.entries@.drop_last() =~= old(self).entries@);
            assert(self.entries@.last().0@ == key_view);
            assert(self.entries@.last().1@ == value_view);
        }
    }
}

/// What a balance read returns, as a function of the store contents: zero
/// where no entry exists, the decoded value where the entry is canonical,
/// and a decoding error where it is not.
pub open spec fn spec_get_balance(kv: Map<Seq<char>, Seq<u8>>, addr: Seq<u8>) -> Result<
    Balance,
    StateError,
> {
    let key = spec_balance_key(addr);
    if !kv.contains_key(key) {
        Ok(Balance(0))
    } else {
        match spec_decode_balance(kv[key]) {
            Some(b) => Ok(b),
            None => Err(StateError::Decoding),
        }
    }
}

/// What a nonce read returns, as a function of the store contents.
pub open spec fn spec_get_nonce(kv: Map<Seq<char>, Seq<u8>>, addr: Seq<u8>) -> Result<
    Nonce,
    StateError,
> {
    let key = spec_nonce_key(addr);
    if !kv.contains_key(key) {
        Ok(Nonce(0))
    } else {
        match spec_decode_nonce(kv[key]) {
            Some(n) => Ok(n),
            None => Err(StateError::Decoding),
        }
    }
}

/// The store contents after a balance write.
pub open spec fn spec_put_balance(
    kv: Map<Seq<char>, Seq<u8>>,
    addr: Seq<u8>,
    balance: Balance,
) -> Map<Seq<char>, Seq<u8>> {
    kv.insert(spec_balance_key(addr), spec_encode_balance(balance))
}

/// The store contents after a nonce write.
pub open spec fn spec_put_nonce(kv: Map<Seq<char>, Seq<u8>>, addr: Seq<u8>, nonce: Nonce) -> Map<
    Seq<char>,
    Seq<u8>,
> {
    kv.insert(spec_nonce_key(addr), spec_encode_nonce(nonce))
}

/// The bytes a raw read handed back, stripped to their mathematical form.
pub open spec fn spec_raw_view(raw: Result<Option<Vec<u8>>, StateError>) -> Result<
    Option<Seq<u8>>,
    StateError,
> {
    match raw {
        Ok(Some(v)) => Ok(Some(v@)),
        Ok(None) => Ok(None),
        Err(e) => Err(e),
    }
}

/// What a balance read returns for each possible raw read outcome: absence
/// is the zero default, canonical bytes decode, any other bytes are a
/// decoding error, and a failed read is a store error.
pub open spec fn spec_balance_from_raw(raw: Result<Option<Seq<u8>>, StateError>) -> Result<
    Balance,
    StateError,
> {
    match raw {
        Err(_) => Err(StateError::StoreIo),
        Ok(None) => Ok(Balance(0)),
        Ok(Some(bytes)) => match spec_decode_balance(bytes) {
            Some(balance) => Ok(balance),
            None => Err(StateError::Decoding),
        },
    }
}

/// What a nonce read returns for each possible raw read outcome.
pub open spec fn spec_nonce_from_raw(raw: Result<Option<Seq<u8>>, StateError>) -> Result<
    Nonce,
    StateError,
> {
    match raw {
        Err(_) => Err(StateError::StoreIo),
        Ok(None) => Ok(Nonce(0)),
        Ok(Some(bytes)) => match spec_decode_nonce(bytes) {
            Some(nonce) => Ok(nonce),
            None => Err(StateError::Decoding),
        },
    }
}

/// Interpret a raw read at a balance key. Total over every raw outcome, so
/// the store alone decides whether a read can fail with a store error.
pub fn balance_from_raw(raw: Result<Option<Vec<u8>>, StateError>) -> (r: Result<
    Balance,
    StateError,
>)
    ensures
        r == spec_balance_from_raw(spec_raw_view(raw)),
{
    match raw {
        Err(_) => Err(StateError::StoreIo),
        Ok(None) => Ok(Balance(0)),
        Ok(Some(bytes)) => match decode_balance(bytes.as_slice()) {
            Some(balance) => Ok(balance),
            None => Err(StateError::Decoding),
        },
    }
}

/// Interpret a raw read at a nonce key, totally over every raw outcome.
pub fn nonce_from_raw(raw: Result<Option<Vec<u8>>, StateError>) -> (r: Result<
    Nonce,
    StateError,
>)
    ensures
        r == spec_nonce_from_raw(spec_raw_view(raw)),
{
    match raw {
        Err(_) => Err(StateError::StoreIo),
        Ok(None) => Ok(Nonce(0)),
        Ok(Some(bytes)) => match decode_nonce(bytes.as_slice()) {
            Some(nonce) => Ok(nonce),
            None => Err(StateError::Decoding),
        },
    }
}

/// Read an account's balance: zero when the account was never written,
/// otherwise the decoded stored value; malformed stored bytes are a decoding
/// error, never coerced to a default. A store error passes through
/// unaltered.
pub fn get_account_balance<S: StateRead>(state: &S, address: Address) -> (r: Result<
    Balance,
    StateError,
>)
    ensures
        r matches Err(StateError::StoreIo) || r == spec_get_balance(state.kv(), address@),
{
    let key = balance_storage_key(address);
    let raw = state.get_raw(key.as_str());
    balance_from_raw(raw)
}

/// Read an account's nonce, with the same contract as the balance read.
pub fn get_account_nonce<S: StateRead>(state: &S, address: Address) -> (r: Result<
    Nonce,
    StateError,
>)
    ensures
        r matches Err(StateError::StoreIo) || r == spec_get_nonce(state.kv(), address@),
{
    let key = nonce_storage_key(address);
    let raw = state.get_raw(key.as_str());
    nonce_from_raw(raw)
}

/// Write an account's balance: an unconditional overwrite of the balance
/// key with the canonical encoding. Encoding is total over the balance
/// type, so the write always succeeds.
pub fn put_account_balance<S: StateWrite>(
    state: &mut S,
    address: Address,
    balance: Balance,
) -> (r: Result<(), StateError>)
    ensures
        r is Ok,
        final (state).kv() == spec_put_balance(old(state).kv(), address@, balance),
{
    let bytes = encode_balance(balance);
    state.put_raw(balance_storage_key(address), bytes);
    Ok(())
}

/// Write an account's nonce, with the same contract as the balance write.
pub fn put_account_nonce<S: StateWrite>(state: &mut S, address: Address, nonce: Nonce) -> (r:
    Result<(), StateError>)
    ensures
        r is Ok,
        final (state).kv() == spec_put_nonce(old(state).kv(), address@, nonce),
{
    let bytes = encode_nonce(nonce);
    state.put_raw(nonce_storage_key(address), bytes);
    Ok(())
}

} // verus!
