//! The ways a handoff can go wrong.
use vstd::prelude::*;

verus! {

/// Why a handoff operation refused or failed.
#[derive(Debug, Clone, Copy, PartialEq, Eq, Structural)]
pub enum HandoffError {
    /// A slot was asked for a capacity at or above `u32::MAX`.
    Misuse { samples: usize },
    /// A second publish on a slot that already holds a buffer.
    AlreadyPublished,
    /// The observed buffer does not hold the slot's number of values.
    LengthMismatch { expected_len: usize, observed_len: usize },
    /// The sum of the observed values differs from the expected checksum.
    ChecksumMismatch { expected: u64, observed: u64 },
}

} // verus!
