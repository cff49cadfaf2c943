//! A single-shot, single-producer / single-consumer handoff of an immutable
//! buffer of `u32` values between two threads.
//!
//! The producer builds the whole buffer and then publishes it through one
//! shared slot; the consumer polls the slot and, once it sees the buffer,
//! checks that the sum of its values is the expected checksum.
pub mod buffer;
pub mod checksum;
pub mod error;
pub mod slot;

pub use buffer::PublishedBuffer;
pub use checksum::{checksum, expected_checksum};
pub use error::HandoffError;
pub use slot::{check_capacity, check_observed, SynchronisedSumFixed};
