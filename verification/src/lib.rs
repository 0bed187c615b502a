//! A minimal append-only ledger: proof-of-work mining over hash-linked
//! blocks, with a Merkle commitment over each block's transactions and a
//! validator that detects tampering.

use vstd::prelude::*;

pub mod block;
pub mod chain;
pub mod clock;
pub mod hashing;
pub mod transaction;

verus! {

/// The errors the ledger reports instead of panicking or looping forever.
#[derive(Debug, Clone, Copy, PartialEq, Eq, Structural)]
pub enum LedgerError {
    /// The requested difficulty exceeds the digest's hex length, so no hash
    /// could ever satisfy it.
    InvalidDifficulty,
    /// The system clock could not supply a timestamp.
    ClockError,
    /// Every nonce in the 64-bit search space was tried without meeting the
    /// target.
    NonceExhausted,
}

} // verus!
