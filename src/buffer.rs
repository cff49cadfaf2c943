//! The immutable buffer that a producer publishes.
use vstd::prelude::*;
use crate::checksum::{checksum, lemma_sum_of_upto, sum_of, triangular, upto};

verus! {

/// A buffer that holds the values `0, 1, ..., n - 1`, with `n < u32::MAX`.
///
/// The buffer is complete from the moment it exists: no value of this type
/// has some entries written and others not, so whoever obtains one, from any
/// thread, sees every entry at its final value.
pub struct PublishedBuffer {
    values: Vec<u32>,
}

impl View for PublishedBuffer {
    type V = Seq<u32>;

    closed spec fn view(&self) -> Seq<u32> {
        self.values@
    }
}

impl PublishedBuffer {
    /// Every entry holds its own index.
    #[verifier::type_invariant]
    pub open spec fn is_complete(&self) -> bool {
        &&& self@.len() < u32::MAX
        &&& self@ == upto(self@.len())
    }

    /// Builds the buffer `0..count`, filled in full before it is returned.
    pub fn new(count: u32) -> (r: PublishedBuffer)
        requires
            count < u32::MAX,
        ensures
            r@ == upto(count as nat),
    {
        let mut values: Vec<u32> = Vec::with_capacity(count as usize);
        let mut i: u32 = 0;
        while i < count
            invariant
                i <= count,
                values@ == upto(i as nat),
            decreases count - i,
        {
            values.push(i);
            i = i + 1;
            assert(values@ =~= upto(i as nat));
        }
        PublishedBuffer { values }
    }

    /// The number of values.
    pub fn len(&self) -> (r: usize)
        ensures
            r == self@.len(),
            r < u32::MAX,
            self@ == upto(r as nat),
    {
        proof {
            use_type_invariant(self);
        }
        self.values.len()
    }

    /// The values, in index order.
    pub fn as_slice(&self) -> (r: &[u32])
        ensures
            r@ == self@,
            r@ == upto(r@.len()),
    {
        proof {
            use_type_invariant(self);
        }
        self.values.as_slice()
    }

    /// The sum of the values, which for `n` values is `n * (n - 1) / 2`.
    pub fn checksum(&self) -> (r: u64)
        ensures
            r == sum_of(self@),
            r == triangular(self@.len() as int),
    {
        proof {
            use_type_invariant(self);
            lemma_sum_of_upto(self@.len());
        }
        checksum(self.values.as_slice())
    }
}

} // verus!
