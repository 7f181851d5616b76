//! Persisted key namespace of the account state.
//!
//! Every account field lives under `accounts/<lowercase-hex-address>/<field>`.
//! The hexadecimal segment is fixed-width and bijective over the address byte
//! space, so no two distinct (address, field) pairs ever alias one key.

use vstd::prelude::*;
use vstd::string::StringExecFns;

verus! {

use crate::hex::{encode_hex, hex_of, lemma_hex_of_injective, lemma_hex_of_len};
use crate::types::{Address, ADDRESS_LEN};

/// The key namespace of an account, from its hexadecimal text.
pub open spec fn spec_storage_key(hex_address: Seq<char>) -> Seq<char> {
    "accounts/"@ + hex_address
}

/// The key under which an address's balance is stored.
pub open spec fn spec_balance_key(addr: Seq<u8>) -> Seq<char> {
    spec_storage_key(hex_of(addr)) + "/balance"@
}

/// The key under which an address's nonce is stored.
pub open spec fn spec_nonce_key(addr: Seq<u8>) -> Seq<char> {
    spec_storage_key(hex_of(addr)) + "/nonce"@
}

/// Prefix an account's hexadecimal text with the namespace of all accounts.
pub fn storage_key(address: &str) -> (r: String)
    ensures
        r@ == spec_storage_key(address@),
{
    let mut out = String::from_str("accounts/");
    out.append(address);
    out
}

/// Build the balance key of an address.
pub fn balance_storage_key(address: Address) -> (r: String)
    ensures
        r@ == spec_balance_key(address@),
{
    let hex_address = encode_hex(address.bytes.as_slice());
    let mut out = storage_key(hex_address.as_str());
    out.append("/balance");
    out
}

/// Build the nonce key of an address.
pub fn nonce_storage_key(address: Address) -> (r: String)
    ensures
        r@ == spec_nonce_key(address@),
{
    let hex_address = encode_hex(address.bytes.as_slice());
    let mut out = storage_key(hex_address.as_str());
    out.append("/nonce");
    out
}

/// Balance keys of distinct addresses are distinct.
pub proof fn lemma_balance_key_injective(a1: Seq<u8>, a2: Seq<u8>)
    requires
        a1.len() == ADDRESS_LEN,
        a2.len() == ADDRESS_LEN,
        spec_balance_key(a1) == spec_balance_key(a2),
    ensures
        a1 == a2,
{
    lemma_hex_of_len(a1);
    lemma_hex_of_len(a2);
    reveal_strlit("accounts/");
    reveal_strlit("/balance");
    assert(hex_of(a1) =~= hex_of(a2)) by {
        assert forall|i: int| 0 <= i < hex_of(a1).len() implies hex_of(a1)[i] == hex_of(
            a2,
        )[i] by {
            assert(spec_balance_key(a1)[9 + i] == hex_of(a1)[i]);
            assert(spec_balance_key(a2)[9 + i] == hex_of(a2)[i]);
        }
    }
    lemma_hex_of_injective(a1, a2);
}

/// Nonce keys of distinct addresses are distinct.
pub proof fn lemma_nonce_key_injective(a1: Seq<u8>, a2: Seq<u8>)
    requires
        a1.len() == ADDRESS_LEN,
        a2.len() == ADDRESS_LEN,
        spec_nonce_key(a1) == spec_nonce_key(a2),
    ensures
        a1 == a2,
{
    lemma_hex_of_len(a1);
    lemma_hex_of_len(a2);
    reveal_strlit("accounts/");
    reveal_strlit("/nonce");
    assert(hex_of(a1) =~= hex_of(a2)) by {
        assert forall|i: int| 0 <= i < hex_of(a1).len() implies hex_of(a1)[i] == hex_of(
            a2,
        )[i] by {
            assert(spec_nonce_key(a1)[9 + i] == hex_of(a1)[i]);
            assert(spec_nonce_key(a2)[9 + i] == hex_of(a2)[i]);
        }
    }
    lemma_hex_of_injective(a1, a2);
}

/// A balance key never collides with a nonce key, whatever the addresses:
/// the two field suffixes give the keys different lengths.
pub proof fn lemma_balance_nonce_keys_differ(a1: Seq<u8>, a2: Seq<u8>)
    requires
        a1.len() == ADDRESS_LEN,
        a2.len() == ADDRESS_LEN,
    ensures
        spec_balance_key(a1) != spec_nonce_key(a2),
{
    lemma_hex_of_len(a1);
    lemma_hex_of_len(a2);
    reveal_strlit("accounts/");
    reveal_strlit("/balance");
    reveal_strlit("/nonce");
    assert(spec_balance_key(a1).len() == 81);
    assert(spec_nonce_key(a2).len() == 79);
}

} // verus!
