//! The handoff slot: one producer publishes a complete buffer exactly once,
//! one consumer polls until it sees it and checks its checksum.
use vstd::prelude::*;
use std::sync::OnceLock;
use crate::buffer::PublishedBuffer;
use crate::checksum::{checksum, lemma_sum_of_upto, sum_of, triangular, upto};
use crate::error::HandoffError;

verus! {

/// std's `OnceLock`, the slot's synchronisation cell. It can be written once;
/// a thread whose `get` returns the stored value sees that value as `set`
/// stored it, fully written (std's `Sync` guarantee for the type). `get` never
/// blocks, and `set` waits only on another `set` in progress, which a slot with
/// one producer never has.
#[verifier::external_type_specification]
#[verifier::external_body]
#[verifier::reject_recursive_types(T)]
pub struct ExOnceLock<T>(OnceLock<T>);

/// Relies on `OnceLock::new`: creates an empty cell.
pub assume_specification<T>[ OnceLock::<T>::new ]() -> OnceLock<T>;

/// Relies on `OnceLock::get`: `None` while the cell is empty, else the stored
/// value. Another thread may fill the cell at any time, so nothing is said of
/// which of the two comes back.
pub assume_specification<T>[ OnceLock::<T>::get ](cell: &OnceLock<T>) -> Option<&T>;

/// Relies on `OnceLock::set`: stores `value` if the cell was empty and returns
/// `Ok(())`; otherwise leaves the cell as it is and hands `value` back.
pub assume_specification<T>[ OnceLock::<T>::set ](cell: &OnceLock<T>, value: T) -> (r: Result<(), T>)
    ensures
        r matches Err(v) ==> v == value,
;

/// What a consumer concludes from a buffer of `observed` values, for a slot of
/// `samples` values and the checksum `expected`.
pub open spec fn observed_outcome(samples: nat, observed: Seq<u32>, expected: int) -> Result<(), HandoffError> {
    if observed.len() != samples {
        Err(HandoffError::LengthMismatch { expected_len: samples as usize, observed_len: observed.len() as usize })
    } else if sum_of(observed) != expected {
        Err(HandoffError::ChecksumMismatch { expected: expected as u64, observed: sum_of(observed) as u64 })
    } else {
        Ok(())
    }
}

/// A consumer that observes the buffer a producer publishes for a slot of
/// `capacity` values, and expects `capacity * (capacity - 1) / 2`, accepts it:
/// the values are `0..capacity`, element for element, and so is their sum.
pub proof fn lemma_published_buffer_accepted(capacity: nat)
    requires
        capacity < u32::MAX,
    ensures
        sum_of(upto(capacity)) == triangular(capacity as int),
        observed_outcome(capacity, upto(capacity), triangular(capacity as int)) == Ok::<(), HandoffError>(()),
{
    lemma_sum_of_upto(capacity);
}

/// Accepts a slot capacity strictly below `u32::MAX`; any other is misuse.
pub fn check_capacity(samples: usize) -> (r: Result<(), HandoffError>)
    ensures
        r is Ok <==> samples < u32::MAX,
        r is Err ==> r == Err::<(), HandoffError>((HandoffError::Misuse { samples })),
{
    if samples < u32::MAX as usize {
        Ok(())
    } else {
        Err(HandoffError::Misuse { samples })
    }
}

/// Checks a buffer that a consumer observed: it must hold `samples` values
/// whose sum is `expected_sum`.
pub fn check_observed(samples: usize, observed: &[u32], expected_sum: u64) -> (r: Result<(), HandoffError>)
    requires
        samples < u32::MAX,
    ensures
        r == observed_outcome(samples as nat, observed@, expected_sum as int),
{
    if observed.len() != samples {
        return Err(HandoffError::LengthMismatch { expected_len: samples, observed_len: observed.len() });
    }
    let sum = checksum(observed);
    if sum != expected_sum {
        Err(HandoffError::ChecksumMismatch { expected: expected_sum, observed: sum })
    } else {
        Ok(())
    }
}

/// A single-shot handoff slot for a buffer of `samples` values, ordered by
/// release on publish and acquire on observe.
///
/// The slot owns the published buffer, which is freed with the slot once
/// producer and consumer are both done with it.
pub struct SynchronisedSumFixed {
    shared: OnceLock<PublishedBuffer>,
    samples: usize,
}

impl SynchronisedSumFixed {
    #[verifier::type_invariant]
    spec fn capacity_in_range(&self) -> bool {
        self.samples < u32::MAX
    }

    /// The number of values the slot's buffer holds.
    pub closed spec fn capacity(&self) -> nat {
        self.samples as nat
    }

    /// Creates an empty slot for `samples` values; a capacity at or above
    /// `u32::MAX` is refused as misuse.
    pub fn new(samples: usize) -> (r: Result<SynchronisedSumFixed, HandoffError>)
        ensures
            r is Ok <==> samples < u32::MAX,
            r matches Ok(slot) ==> slot.capacity() == samples,
            r matches Err(e) ==> e == (HandoffError::Misuse { samples }),
    {
        match check_capacity(samples) {
            Ok(()) => Ok(SynchronisedSumFixed { shared: OnceLock::new(), samples }),
            Err(e) => Err(e),
        }
    }

    /// The number of values the slot's buffer holds.
    pub fn samples(&self) -> (r: usize)
        ensures
            r == self.capacity(),
            r < u32::MAX,
    {
        proof {
            use_type_invariant(self);
        }
        self.samples
    }

    /// Producer side: builds the complete buffer `0..samples` and only then
    /// publishes it. A slot is published once; a second call leaves the
    /// first buffer in place and reports `AlreadyPublished`.
    pub fn generate(&self) -> (r: Result<(), HandoffError>)
        ensures
            r is Err ==> r == Err::<(), HandoffError>(HandoffError::AlreadyPublished),
    {
        proof {
            use_type_invariant(self);
        }
        let buffer = PublishedBuffer::new(self.samples as u32);
        match self.shared.set(buffer) {
            Ok(()) => Ok(()),
            Err(_) => Err(HandoffError::AlreadyPublished),
        }
    }

    /// Consumer side, one poll: `None` while nothing is published, else the
    /// published buffer, which is complete.
    pub fn observe(&self) -> (r: Option<&PublishedBuffer>)
        ensures
            r matches Some(b) ==> b@ == upto(b@.len()) && b@.len() < u32::MAX,
    {
        match self.shared.get() {
            Some(b) => {
                proof {
                    use_type_invariant(b);
                }
                Some(b)
            },
            None => None,
        }
    }

    /// Consumer side, one poll step: `None` while nothing is published; once
    /// a buffer is seen, the outcome of checking it against `expected_sum`.
    /// Whatever was seen is a complete buffer `0..n`, so an expected sum
    /// other than `samples * (samples - 1) / 2` is never accepted.
    pub fn try_calculate(&self, expected_sum: u64) -> (r: Option<Result<(), HandoffError>>)
        ensures
            r matches Some(outcome) ==> exists|n: nat|
                #![trigger upto(n)]
                n < u32::MAX && outcome == observed_outcome(self.capacity(), upto(n), expected_sum as int),
            r == Some(Ok::<(), HandoffError>(())) ==> expected_sum == triangular(self.capacity() as int),
    {
        proof {
            use_type_invariant(self);
        }
        match self.observe() {
            Some(b) => {
                let values = b.as_slice();
                proof {
                    lemma_sum_of_upto(b@.len());
                }
                Some(check_observed(self.samples, values, expected_sum))
            },
            None => None,
        }
    }
}

} // verus!
