//! Semantic value types of the account state layer and its error vocabulary.

use vstd::prelude::*;

verus! {

/// Quantity of the ledger's native currency, in minimal units.
#[derive(Clone, Copy, Debug, PartialEq, Eq, Structural)]
pub struct Balance(pub u128);

/// Per-account transaction sequence counter.
///
/// Monotonicity is a convention of external callers, not enforced here.
#[derive(Clone, Copy, Debug, PartialEq, Eq, Structural)]
pub struct Nonce(pub u32);

/// Number of bytes in an address.
pub const ADDRESS_LEN: usize = 32;

/// Fixed-length account identifier. Validation and cryptographic derivation
/// happen outside this layer; here it is an opaque 32-byte value.
#[derive(Clone, Copy, Debug)]
pub struct Address {
    pub bytes: [u8; ADDRESS_LEN],
}

impl View for Address {
    type V = Seq<u8>;

    open spec fn view(&self) -> Seq<u8> {
        self.bytes@
    }
}

impl Address {
    pub fn new(bytes: [u8; ADDRESS_LEN]) -> (a: Address)
        ensures
            a@ == bytes@,
    {
        Address { bytes }
    }
}

/// Failures surfaced by the accessor layer.
#[derive(Clone, Copy, Debug, PartialEq, Eq, Structural)]
pub enum StateError {
    /// The underlying store failed to serve a raw read.
    StoreIo,
    /// Stored bytes at an account key do not parse as the expected type.
    Decoding,
    /// A value could not be encoded into its canonical byte form.
    Encoding,
}

} // verus!
