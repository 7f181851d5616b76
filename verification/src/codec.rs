//! Canonical byte encoding of the stored value types.
//!
//! Each semantic type has one fixed-width little-endian layout, used
//! identically on the read and the write path: 16 bytes for a [`Balance`],
//! 4 bytes for a [`Nonce`]. Decoding accepts exactly the canonical width and
//! rejects every other length; within the canonical width every byte pattern
//! denotes a value, so the round trip is exact in both directions.

use vstd::prelude::*;

verus! {

use crate::types::{Balance, Nonce};

/// Byte width of an encoded [`Balance`].
pub const BALANCE_ENCODED_LEN: usize = 16;

/// Byte width of an encoded [`Nonce`].
pub const NONCE_ENCODED_LEN: usize = 4;

/// 256 raised to the power `n`: the number of values `n` bytes can denote.
pub open spec fn pow256(n: nat) -> nat
    decreases n,
{
    if n == 0 {
        1
    } else {
        256 * pow256((n - 1) as nat)
    }
}

/// The `n` little-endian bytes of `v`, least significant byte first.
pub open spec fn le_bytes(v: nat, n: nat) -> Seq<u8>
    decreases n,
{
    if n == 0 {
        Seq::empty()
    } else {
        seq![(v % 256) as u8] + le_bytes(v / 256, (n - 1) as nat)
    }
}

/// The value a little-endian byte sequence denotes.
pub open spec fn le_value(b: Seq<u8>) -> nat
    decreases b.len(),
{
    if b.len() == 0 {
        0
    } else {
        b[0] as nat + 256 * le_value(b.drop_first())
    }
}

/// Canonical encoding of a balance.
pub open spec fn spec_encode_balance(b: Balance) -> Seq<u8> {
    le_bytes(b.0 as nat, BALANCE_ENCODED_LEN as nat)
}

/// Canonical encoding of a nonce.
pub open spec fn spec_encode_nonce(n: Nonce) -> Seq<u8> {
    le_bytes(n.0 as nat, NONCE_ENCODED_LEN as nat)
}

/// Decoding of a balance: exactly the canonical width is accepted.
pub open spec fn spec_decode_balance(bytes: Seq<u8>) -> Option<Balance> {
    if bytes.len() == BALANCE_ENCODED_LEN {
        Some(Balance(le_value(bytes) as u128))
    } else {
        None
    }
}

/// Decoding of a nonce: exactly the canonical width is accepted.
pub open spec fn spec_decode_nonce(bytes: Seq<u8>) -> Option<Nonce> {
    if bytes.len() == NONCE_ENCODED_LEN {
        Some(Nonce(le_value(bytes) as u32))
    } else {
        None
    }
}

/// An encoding is as wide as asked for.
pub proof fn lemma_le_bytes_len(v: nat, n: nat)
    ensures
        le_bytes(v, n).len() == n,
    decreases n,
{
    if n > 0 {
        lemma_le_bytes_len(v / 256, (n - 1) as nat);
    }
}

/// A sequence of `n` bytes denotes a value below `pow256(n)`.
pub proof fn lemma_le_value_bound(b: Seq<u8>)
    ensures
        le_value(b) < pow256(b.len()),
    decreases b.len(),
{
    if b.len() > 0 {
        lemma_le_value_bound(b.drop_first());
    }
}

/// `pow256` grows with its exponent.
pub proof fn lemma_pow256_increases(a: nat, b: nat)
    requires
        a <= b,
    ensures
        pow256(a) <= pow256(b),
    decreases b,
{
    if a < b && b > 0 {
        lemma_pow256_increases(a, (b - 1) as nat);
    }
}

/// The canonical balance width covers exactly the `u128` range.
pub proof fn lemma_pow256_balance_width()
    ensures
        pow256(BALANCE_ENCODED_LEN as nat) == 0x1_0000_0000_0000_0000_0000_0000_0000_0000,
{
    reveal_with_fuel(pow256, 17);
}

/// The canonical nonce width covers exactly the `u32` range.
pub proof fn lemma_pow256_nonce_width()
    ensures
        pow256(NONCE_ENCODED_LEN as nat) == 0x1_0000_0000,
{
    reveal_with_fuel(pow256, 5);
}

/// Decoding inverts encoding: the round trip over `n` bytes is exact for
/// every value those bytes can denote.
pub proof fn lemma_le_roundtrip(v: nat, n: nat)
    requires
        v < pow256(n),
    ensures
        le_value(le_bytes(v, n)) == v,
    decreases n,
{
    if n == 0 {
        assert(v == 0);
    } else {
        let rest = le_bytes(v / 256, (n - 1) as nat);
        assert(le_bytes(v, n) == seq![(v % 256) as u8] + rest);
        assert((seq![(v % 256) as u8] + rest).drop_first() =~= rest);
        assert(v / 256 < pow256((n - 1) as nat)) by {
            assert(v < 256 * pow256((n - 1) as nat));
        };
        lemma_le_roundtrip(v / 256, (n - 1) as nat);
        assert(le_value(le_bytes(v, n)) == (v % 256) + 256 * (v / 256));
    }
}

/// Encode a balance into its canonical 16 little-endian bytes.
pub fn encode_balance(balance: Balance) -> (r: Vec<u8>)
    ensures
        r@ == spec_encode_balance(balance),
{
    let mut out: Vec<u8> = Vec::new();
    let mut x: u128 = balance.0;
    for i in 0..BALANCE_ENCODED_LEN
        invariant
            out@.len() == i,
            le_bytes(balance.0 as nat, BALANCE_ENCODED_LEN as nat) == out@ + le_bytes(
                x as nat,
                (BALANCE_ENCODED_LEN - i) as nat,
            ),
    {
        proof {
            assert(le_bytes(x as nat, (BALANCE_ENCODED_LEN - i) as nat) == seq![
                (x as nat % 256) as u8,
            ] + le_bytes(x as nat / 256, (BALANCE_ENCODED_LEN - i - 1) as nat));
            assert(out@ + (seq![(x as nat % 256) as u8] + le_bytes(
                x as nat / 256,
                (BALANCE_ENCODED_LEN - i - 1) as nat,
            )) =~= (out@ + seq![(x as nat % 256) as u8]) + le_bytes(
                x as nat / 256,
                (BALANCE_ENCODED_LEN - i - 1) as nat,
            ));
        }
        out.push((x % 256) as u8);
        x = x / 256;
    }
    proof {
        assert(out@ =~= out@ + le_bytes(x as nat, 0));
    }
    out
}

/// Encode a nonce into its canonical 4 little-endian bytes.
pub fn encode_nonce(nonce: Nonce) -> (r: Vec<u8>)
    ensures
        r@ == spec_encode_nonce(nonce),
{
    let mut out: Vec<u8> = Vec::new();
    let mut x: u32 = nonce.0;
    for i in 0..NONCE_ENCODED_LEN
        invariant
            out@.len() == i,
            le_bytes(nonce.0 as nat, NONCE_ENCODED_LEN as nat) == out@ + le_bytes(
                x as nat,
                (NONCE_ENCODED_LEN - i) as nat,
            ),
    {
        proof {
            assert(le_bytes(x as nat, (NONCE_ENCODED_LEN - i) as nat) == seq![
                (x as nat % 256) as u8,
            ] + le_bytes(x as nat / 256, (NONCE_ENCODED_LEN - i - 1) as nat));
            assert(out@ + (seq![(x as nat % 256) as u8] + le_bytes(
                x as nat / 256,
                (NONCE_ENCODED_LEN - i - 1) as nat,
            )) =~= (out@ + seq![(x as nat % 256) as u8]) + le_bytes(
                x as nat / 256,
                (NONCE_ENCODED_LEN - i - 1) as nat,
            ));
        }
        out.push((x % 256) as u8);
        x = x / 256;
    }
    proof {
        assert(out@ =~= out@ + le_bytes(x as nat, 0));
    }
    out
}

/// Decode a balance from stored bytes; `None` on any non-canonical length.
pub fn decode_balance(bytes: &[u8]) -> (r: Option<Balance>)
    ensures
        r == spec_decode_balance(bytes@),
{
    if bytes.len() != BALANCE_ENCODED_LEN {
        return None;
    }
    let mut x: u128 = 0;
    for j in 0..BALANCE_ENCODED_LEN
        invariant
            bytes@.len() == BALANCE_ENCODED_LEN,
            x as nat == le_value(bytes@.skip((BALANCE_ENCODED_LEN - j) as int)),
    {
        let i = BALANCE_ENCODED_LEN - 1 - j;
        proof {
            let tail = bytes@.skip(i as int);
            assert(tail.drop_first() =~= bytes@.skip(i + 1));
            assert(le_value(tail) == bytes@[i as int] as nat + 256 * le_value(
                bytes@.skip(i + 1),
            ));
            lemma_le_value_bound(tail);
            lemma_pow256_increases(tail.len() as nat, BALANCE_ENCODED_LEN as nat);
            lemma_pow256_balance_width();
        }
        x = x * 256 + bytes[i] as u128;
    }
    proof {
        assert(bytes@.skip(0) =~= bytes@);
    }
    Some(Balance(x))
}

/// Decode a nonce from stored bytes; `None` on any non-canonical length.
pub fn decode_nonce(bytes: &[u8]) -> (r: Option<Nonce>)
    ensures
        r == spec_decode_nonce(bytes@),
{
    if bytes.len() != NONCE_ENCODED_LEN {
        return None;
    }
    let mut x: u32 = 0;
    for j in 0..NONCE_ENCODED_LEN
        invariant
            bytes@.len() == NONCE_ENCODED_LEN,
            x as nat == le_value(bytes@.skip((NONCE_ENCODED_LEN - j) as int)),
    {
        let i = NONCE_ENCODED_LEN - 1 - j;
        proof {
            let tail = bytes@.skip(i as int);
            assert(tail.drop_first() =~= bytes@.skip(i + 1));
            assert(le_value(tail) == bytes@[i as int] as nat + 256 * le_value(
                bytes@.skip(i + 1),
            ));
            lemma_le_value_bound(tail);
            lemma_pow256_increases(tail.len() as nat, NONCE_ENCODED_LEN as nat);
            lemma_pow256_nonce_width();
        }
        x = x * 256 + bytes[i] as u32;
    }
    proof {
        assert(bytes@.skip(0) =~= bytes@);
    }
    Some(Nonce(x))
}

} // verus!
