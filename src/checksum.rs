//! Sums of `u32` sequences and the checksum of the sequence `0, 1, ..., n - 1`.
use vstd::prelude::*;

verus! {

/// The sequence `0, 1, ..., n - 1` as `u32` values.
pub open spec fn upto(n: nat) -> Seq<u32> {
    Seq::new(n, |i: int| i as u32)
}

/// The sum of all values of `s`.
pub open spec fn sum_of(s: Seq<u32>) -> int
    decreases s.len(),
{
    if s.len() == 0 {
        0
    } else {
        sum_of(s.drop_last()) + s.last()
    }
}

/// The checksum expected for a buffer of `n` values `0..n`: `n * (n - 1) / 2`.
pub open spec fn triangular(n: int) -> int {
    n * (n - 1) / 2
}

/// Every value of `s` is at most `u32::MAX`, so the sum is at most
/// `s.len() * u32::MAX`.
pub proof fn lemma_sum_of_bounds(s: Seq<u32>)
    ensures
        0 <= sum_of(s) <= s.len() * u32::MAX,
    decreases s.len(),
{
    if s.len() > 0 {
        lemma_sum_of_bounds(s.drop_last());
        assert(sum_of(s) <= (s.len() - 1) * u32::MAX + u32::MAX) by (nonlinear_arith)
            requires
                sum_of(s) == sum_of(s.drop_last()) + s.last(),
                sum_of(s.drop_last()) <= (s.len() - 1) * u32::MAX,
                s.last() <= u32::MAX,
        ;
        assert((s.len() - 1) * u32::MAX + u32::MAX == s.len() * u32::MAX) by (nonlinear_arith);
    }
}

/// The values `0..n` sum to `n * (n - 1) / 2`: a buffer that holds `i` at
/// each index `i` always has the checksum that its length predicts.
pub proof fn lemma_sum_of_upto(n: nat)
    requires
        n <= u32::MAX + 1,
    ensures
        sum_of(upto(n)) == triangular(n as int),
    decreases n,
{
    if n > 0 {
        let m = (n - 1) as nat;
        assert(upto(n).drop_last() =~= upto(m));
        assert(upto(n).last() == m);
        lemma_sum_of_upto(m);
        assert(triangular(m as int) + m == triangular(n as int)) by (nonlinear_arith)
            requires
                n == m + 1,
        ;
        assert(sum_of(upto(n)) == sum_of(upto(m)) + m);
    } else {
        assert(triangular(0) == 0);
    }
}

/// The sum of `values`, computed in 64 bits.
pub fn checksum(values: &[u32]) -> (r: u64)
    requires
        values@.len() < u32::MAX,
    ensures
        r == sum_of(values@),
{
    let mut sum: u64 = 0;
    let mut i: usize = 0;
    while i < values.len()
        invariant
            i <= values@.len(),
            values@.len() < u32::MAX,
            sum == sum_of(values@.subrange(0, i as int)),
        decreases values@.len() - i,
    {
        let ghost prefix = values@.subrange(0, i as int);
        let ghost next = values@.subrange(0, i + 1);
        assert(next.drop_last() =~= prefix);
        proof {
            lemma_sum_of_bounds(next);
            assert(next.len() * u32::MAX < u64::MAX) by (nonlinear_arith)
                requires
                    next.len() < u32::MAX,
            ;
        }
        sum = sum + values[i] as u64;
        i = i + 1;
    }
    assert(values@.subrange(0, i as int) =~= values@);
    sum
}

/// The checksum that a consumer expects for a buffer of `capacity` values
/// `0..capacity`: `capacity * (capacity - 1) / 2`, and `0` for an empty buffer.
pub fn expected_checksum(capacity: u32) -> (r: u64)
    ensures
        r == triangular(capacity as int),
{
    if capacity == 0 {
        0
    } else {
        let n = capacity as u64;
        assert(n * (n - 1) <= u64::MAX) by (nonlinear_arith)
            requires
                n <= u32::MAX,
                n >= 1,
        ;
        n * (n - 1) / 2
    }
}

} // verus!
