//! Account state accessor layer of a ledger.
//!
//! Defines how per-account financial state (balance, transaction nonce) is
//! addressed, read, and written inside a versioned key-value state substrate:
//! the key-namespacing scheme, the zero-default semantics for never-written
//! accounts, and the canonical byte encoding of the stored values.

pub mod codec;
pub mod hex;
pub mod keys;
pub mod laws;
pub mod state;
pub mod types;
