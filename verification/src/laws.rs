//! Properties of the accessor layer, stated over the store-contents model
//! that the function contracts use.

use vstd::prelude::*;

verus! {

use crate::codec::{
    lemma_le_bytes_len,
    lemma_le_roundtrip,
    lemma_pow256_balance_width,
    lemma_pow256_nonce_width,
    spec_decode_balance,
    spec_decode_nonce,
    BALANCE_ENCODED_LEN,
    NONCE_ENCODED_LEN,
};
use crate::keys::{
    lemma_balance_key_injective,
    lemma_balance_nonce_keys_differ,
    lemma_nonce_key_injective,
    spec_balance_key,
    spec_nonce_key,
};
use crate::state::{
    spec_get_balance,
    spec_get_nonce,
    spec_put_balance,
    spec_put_nonce,
};
use crate::types::{Balance, Nonce, StateError, ADDRESS_LEN};

/// An address never written reads as zero balance and zero nonce; the
/// absence of an entry is the documented default, not an error.
pub proof fn lemma_unwritten_account_reads_zero(kv: Map<Seq<char>, Seq<u8>>, addr: Seq<u8>)
    requires
        !kv.contains_key(spec_balance_key(addr)),
        !kv.contains_key(spec_nonce_key(addr)),
    ensures
        spec_get_balance(kv, addr) == Ok::<Balance, StateError>(Balance(0)),
        spec_get_nonce(kv, addr) == Ok::<Nonce, StateError>(Nonce(0)),
{
}

/// Round trip: after a balance write, a balance read of the same address
/// returns exactly the written value.
pub proof fn lemma_put_get_balance_roundtrip(
    kv: Map<Seq<char>, Seq<u8>>,
    addr: Seq<u8>,
    balance: Balance,
)
    ensures
        spec_get_balance(spec_put_balance(kv, addr, balance), addr) == Ok::<
            Balance,
            StateError,
        >(balance),
{
    lemma_le_bytes_len(balance.0 as nat, BALANCE_ENCODED_LEN as nat);
    lemma_pow256_balance_width();
    lemma_le_roundtrip(balance.0 as nat, BALANCE_ENCODED_LEN as nat);
}

/// Round trip: after a nonce write, a nonce read of the same address
/// returns exactly the written value.
pub proof fn lemma_put_get_nonce_roundtrip(
    kv: Map<Seq<char>, Seq<u8>>,
    addr: Seq<u8>,
    nonce: Nonce,
)
    ensures
        spec_get_nonce(spec_put_nonce(kv, addr, nonce), addr) == Ok::<Nonce, StateError>(nonce),
{
    lemma_le_bytes_len(nonce.0 as nat, NONCE_ENCODED_LEN as nat);
    lemma_pow256_nonce_width();
    lemma_le_roundtrip(nonce.0 as nat, NONCE_ENCODED_LEN as nat);
}

/// Isolation of a balance write: it leaves the balance of every other
/// address and the nonce of every address, its own included, unchanged.
pub proof fn lemma_put_balance_isolation(
    kv: Map<Seq<char>, Seq<u8>>,
    written: Seq<u8>,
    other: Seq<u8>,
    balance: Balance,
)
    requires
        written.len() == ADDRESS_LEN,
        other.len() == ADDRESS_LEN,
    ensures
        written != other ==> spec_get_balance(spec_put_balance(kv, written, balance), other)
            == spec_get_balance(kv, other),
        spec_get_nonce(spec_put_balance(kv, written, balance), other) == spec_get_nonce(
            kv,
            other,
        ),
{
    if written != other && spec_balance_key(written) == spec_balance_key(other) {
        lemma_balance_key_injective(written, other);
    }
    lemma_balance_nonce_keys_differ(written, other);
}

/// Isolation of a nonce write: it leaves the nonce of every other address
/// and the balance of every address, its own included, unchanged.
pub proof fn lemma_put_nonce_isolation(
    kv: Map<Seq<char>, Seq<u8>>,
    written: Seq<u8>,
    other: Seq<u8>,
    nonce: Nonce,
)
    requires
        written.len() == ADDRESS_LEN,
        other.len() == ADDRESS_LEN,
    ensures
        written != other ==> spec_get_nonce(spec_put_nonce(kv, written, nonce), other)
            == spec_get_nonce(kv, other),
        spec_get_balance(spec_put_nonce(kv, written, nonce), other) == spec_get_balance(
            kv,
            other,
        ),
{
    if written != other && spec_nonce_key(written) == spec_nonce_key(other) {
        lemma_nonce_key_injective(written, other);
    }
    lemma_balance_nonce_keys_differ(other, written);
}

/// Corrupted bytes under a balance key make the next balance read fail with
/// a decoding error rather than read as a default. Within the canonical
/// width every byte pattern denotes a value, so corruption is detectable
/// exactly when it changes the length.
pub proof fn lemma_corrupt_balance_read_fails(
    kv: Map<Seq<char>, Seq<u8>>,
    addr: Seq<u8>,
    bytes: Seq<u8>,
)
    requires
        bytes.len() != BALANCE_ENCODED_LEN,
    ensures
        spec_get_balance(kv.insert(spec_balance_key(addr), bytes), addr) == Err::<
            Balance,
            StateError,
        >(StateError::Decoding),
{
    assert(spec_decode_balance(bytes) is None);
}

/// Corrupted bytes under a nonce key make the next nonce read fail with a
/// decoding error, under the same length caveat as for balances.
pub proof fn lemma_corrupt_nonce_read_fails(
    kv: Map<Seq<char>, Seq<u8>>,
    addr: Seq<u8>,
    bytes: Seq<u8>,
)
    requires
        bytes.len() != NONCE_ENCODED_LEN,
    ensures
        spec_get_nonce(kv.insert(spec_nonce_key(addr), bytes), addr) == Err::<
            Nonce,
            StateError,
        >(StateError::Decoding),
{
    assert(spec_decode_nonce(bytes) is None);
}

} // verus!
