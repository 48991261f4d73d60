//! Sums and counts over a series of whole numbers.

use vstd::prelude::*;

verus! {

/// The sum of the values.
pub open spec fn total_of(values: Seq<u64>) -> int
    decreases values.len(),
{
    if values.len() == 0 {
        0
    } else {
        total_of(values.drop_last()) + values.last()
    }
}

/// The number of values that are at least `threshold`.
pub open spec fn hits_of(values: Seq<u64>, threshold: int) -> int
    decreases values.len(),
{
    if values.len() == 0 {
        0
    } else {
        hits_of(values.drop_last(), threshold) + if values.last() >= threshold {
            1int
        } else {
            0int
        }
    }
}

/// The sum of values lies between the count times the least and the count
/// times the greatest of them.
pub proof fn total_within(values: Seq<u64>, low: int, high: int)
    requires
        forall|i: int| 0 <= i < values.len() ==> low <= #[trigger] values[i] <= high,
    ensures
        values.len() * low <= total_of(values) <= values.len() * high,
    decreases values.len(),
{
    if values.len() > 0 {
        total_within(values.drop_last(), low, high);
        assert(values.len() * low == (values.len() - 1) * low + low) by (nonlinear_arith);
        assert(values.len() * high == (values.len() - 1) * high + high) by (nonlinear_arith);
    } else {
        assert(values.len() * low == 0) by (nonlinear_arith)
            requires
                values.len() == 0,
        ;
        assert(values.len() * high == 0) by (nonlinear_arith)
            requires
                values.len() == 0,
        ;
    }
}

/// The sum of the values.
pub fn total(values: &Vec<u64>) -> (sum: u128)
    ensures
        sum == total_of(values@),
        sum <= values.len() * u64::MAX,
{
    let mut sum: u128 = 0;
    let mut index: usize = 0;
    while index < values.len()
        invariant
            index <= values.len(),
            sum == total_of(values@.take(index as int)),
            sum <= index * u64::MAX,
        decreases values.len() - index,
    {
        proof {
            let longer = values@.take(index + 1);
            assert(longer.drop_last() =~= values@.take(index as int));
            assert(index * u64::MAX <= 0xFFFF_FFFF_FFFF_FFFF * 0xFFFF_FFFF_FFFF_FFFF)
                by (nonlinear_arith)
                requires
                    0 <= index <= 0xFFFF_FFFF_FFFF_FFFF,
            ;
        }
        sum = sum + values[index] as u128;
        index = index + 1;
    }
    assert(values@.take(values.len() as int) =~= values@);
    sum
}

/// The number of values that are at least `threshold`.
pub fn count_at_least(values: &Vec<u64>, threshold: u64) -> (hits: usize)
    ensures
        hits == hits_of(values@, threshold as int),
        hits <= values.len(),
{
    let mut hits: usize = 0;
    let mut index: usize = 0;
    while index < values.len()
        invariant
            index <= values.len(),
            hits == hits_of(values@.take(index as int), threshold as int),
            hits <= index,
        decreases values.len() - index,
    {
        proof {
            let longer = values@.take(index + 1);
            assert(longer.drop_last() =~= values@.take(index as int));
        }
        if values[index] >= threshold {
            hits = hits + 1;
        }
        index = index + 1;
    }
    assert(values@.take(values.len() as int) =~= values@);
    hits
}

} // verus!
