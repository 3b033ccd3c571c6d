//! Summary statistics of a rain sample.

use vstd::prelude::*;

verus! {

/// The sum of a sample.
pub open spec fn total(sample: Seq<u32>) -> nat
    decreases sample.len(),
{
    if sample.len() == 0 {
        0
    } else {
        total(sample.drop_last()) + sample.last() as nat
    }
}

/// The smallest value of a sample that is not empty.
pub open spec fn least(sample: Seq<u32>) -> u32
    recommends
        sample.len() > 0,
    decreases sample.len(),
{
    if sample.len() <= 1 {
        sample[0]
    } else if sample.last() < least(sample.drop_last()) {
        sample.last()
    } else {
        least(sample.drop_last())
    }
}

/// The arithmetic mean of a sample that is not empty, rounded down to a whole
/// unit.
pub open spec fn mean(sample: Seq<u32>) -> nat
    recommends
        sample.len() > 0,
{
    total(sample) / sample.len()
}

/// The smallest value of a sample occurs in it, and no value of the sample is
/// smaller.
pub proof fn least_is_minimum(sample: Seq<u32>)
    requires
        sample.len() > 0,
    ensures
        sample.contains(least(sample)),
        forall|i: int| 0 <= i < sample.len() ==> least(sample) <= #[trigger] sample[i],
    decreases sample.len(),
{
    if sample.len() <= 1 {
        assert(sample[0] == least(sample));
    } else {
        let front = sample.drop_last();
        least_is_minimum(front);
        if sample.last() < least(front) {
            assert(sample[sample.len() - 1] == least(sample));
        } else {
            let k = choose|k: int| 0 <= k < front.len() && front[k] == least(front);
            assert(sample[k] == least(sample));
        }
        assert forall|i: int| 0 <= i < sample.len() implies least(sample) <= #[trigger] sample[i] by {
            if i < front.len() {
                assert(front[i] == sample[i]);
            }
        }
    }
}

/// A value that occurs in a sample and is no larger than any of its values is
/// the sample's smallest value.
pub proof fn minimum_is_least(sample: Seq<u32>, m: u32)
    requires
        sample.contains(m),
        forall|i: int| 0 <= i < sample.len() ==> m <= #[trigger] sample[i],
    ensures
        m == least(sample),
{
    least_is_minimum(sample);
    let k = choose|k: int| 0 <= k < sample.len() && sample[k] == least(sample);
    let j = choose|j: int| 0 <= j < sample.len() && sample[j] == m;
    assert(m <= sample[k]);
    assert(least(sample) <= sample[j]);
}

/// The sum of a sample lies between its length times its smallest value and
/// its length times the largest value that a reading can hold.
pub proof fn total_bounds(sample: Seq<u32>)
    ensures
        total(sample) <= sample.len() * u32::MAX,
        sample.len() > 0 ==> sample.len() * least(sample) <= total(sample),
    decreases sample.len(),
{
    if sample.len() > 0 {
        let front = sample.drop_last();
        total_bounds(front);
        assert(sample.len() * u32::MAX == front.len() * u32::MAX + u32::MAX) by (nonlinear_arith)
            requires
                sample.len() == front.len() + 1,
        ;
        if front.len() > 0 {
            let m = least(sample) as int;
            let f = least(front) as int;
            let n = front.len() as int;
            assert((n + 1) * m <= n * f + m) by (nonlinear_arith)
                requires
                    m <= f,
                    n >= 0,
            ;
        }
    }
}

/// The mean is the sum divided by the count, rounded down: it is at most one
/// unit below the exact quotient, and it lies between the smallest value and
/// the largest value that a reading can hold.
pub proof fn mean_is_average(sample: Seq<u32>)
    requires
        sample.len() > 0,
    ensures
        mean(sample) * sample.len() <= total(sample) < (mean(sample) + 1) * sample.len(),
        least(sample) <= mean(sample) <= u32::MAX,
{
    total_bounds(sample);
    let t = total(sample) as int;
    let n = sample.len() as int;
    let l = least(sample) as int;
    assert((t / n) * n <= t < (t / n + 1) * n) by (nonlinear_arith)
        requires
            n > 0,
            t >= 0,
    ;
    assert(l <= t / n <= u32::MAX) by (nonlinear_arith)
        requires
            n > 0,
            n * l <= t,
            t <= n * u32::MAX,
    ;
}

/// Count, smallest value and mean of a sample.
#[derive(Clone, Copy, Debug, PartialEq, Eq, Structural)]
pub struct RainStats {
    /// How many values the sample holds.
    pub count: usize,
    /// The smallest of them.
    pub min: u32,
    /// Their mean, rounded down to a whole unit.
    pub avg: u32,
}

/// The statistics of a sample, in one pass over it; `None` for the empty
/// sample, which has none.
pub fn summarize(sample: &Vec<u32>) -> (r: Option<RainStats>)
    ensures
        r is None <==> sample@.len() == 0,
        r matches Some(s) ==> {
            &&& s.count == sample@.len()
            &&& s.min == least(sample@)
            &&& s.avg == mean(sample@)
        },
{
    if sample.len() == 0 {
        return None;
    }
    let mut min: u32 = sample[0];
    let mut sum: u128 = sample[0] as u128;
    let mut i: usize = 1;
    proof {
        let first = sample@.take(1);
        assert(first.drop_last() =~= Seq::<u32>::empty());
        assert(total(first.drop_last()) == 0);
        assert(total(first) == sample[0]);
    }
    while i < sample.len()
        invariant
            1 <= i <= sample.len(),
            min == least(sample@.take(i as int)),
            sum == total(sample@.take(i as int)),
        decreases sample.len() - i,
    {
        let v: u32 = sample[i];
        proof {
            let next = sample@.take(i + 1);
            assert(next.drop_last() =~= sample@.take(i as int));
            assert(next.last() == v);
            total_bounds(next);
            assert(next.len() * u32::MAX <= u64::MAX * u32::MAX) by (nonlinear_arith)
                requires
                    next.len() <= u64::MAX,
            ;
        }
        if v < min {
            min = v;
        }
        sum = sum + v as u128;
        i += 1;
    }
    proof {
        assert(sample@.take(i as int) =~= sample@);
        mean_is_average(sample@);
    }
    let avg: u128 = sum / (sample.len() as u128);
    Some(RainStats { count: sample.len(), min, avg: avg as u32 })
}

} // verus!
