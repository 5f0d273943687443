//! Bucket bounds of the duration histogram.
//!
//! A bound is the inclusive upper limit of a bucket, as a whole number of
//! nanoseconds. A sequence of bounds is one to build from when it is not
//! empty and every bound is above the one before it.

use crate::error::MetricsError;
use vstd::prelude::*;

verus! {

/// Every bound is below all that follow it.
pub open spec fn ascending(bounds: Seq<u64>) -> bool {
    forall|i: int, j: int| 0 <= i < j < bounds.len() ==> bounds[i] < bounds[j]
}

/// The sequence is one that a histogram can be built from.
pub open spec fn acceptable(bounds: Seq<u64>) -> bool {
    bounds.len() > 0 && ascending(bounds)
}

/// `index` is the first place at which a bound is not above the bound
/// before it.
pub open spec fn first_disorder(bounds: Seq<u64>, index: int) -> bool {
    &&& 1 <= index < bounds.len()
    &&& bounds[index - 1] >= bounds[index]
    &&& forall|j: int| 1 <= j < index ==> bounds[j - 1] < #[trigger] bounds[j]
}

/// The bounds that are used where none are configured: 5 ms to 10 s.
pub open spec fn default_bounds() -> Seq<u64> {
    seq![
        5_000_000u64,
        10_000_000u64,
        25_000_000u64,
        50_000_000u64,
        100_000_000u64,
        250_000_000u64,
        500_000_000u64,
        1_000_000_000u64,
        2_500_000_000u64,
        5_000_000_000u64,
        10_000_000_000u64,
    ]
}

/// The default bounds are acceptable.
pub proof fn lemma_default_bounds_acceptable()
    ensures
        acceptable(default_bounds()),
{
    let b = default_bounds();
    assert(b.len() == 11);
    assert forall|i: int, j: int| 0 <= i < j < b.len() implies b[i] < b[j] by {
        assert(b[0] < b[1] < b[2] < b[3] < b[4] < b[5]);
        assert(b[5] < b[6] < b[7] < b[8] < b[9] < b[10]);
    }
}

/// A sequence with a disorder is not ascending.
proof fn lemma_disorder_refutes_ascending(bounds: Seq<u64>, index: int)
    requires
        1 <= index < bounds.len(),
        bounds[index - 1] >= bounds[index],
    ensures
        !ascending(bounds),
{
    assert(!(bounds[index - 1] < bounds[index]));
}

/// The default bounds.
pub fn default_buckets() -> (bounds: Vec<u64>)
    ensures
        bounds@ == default_bounds(),
        acceptable(bounds@),
{
    let mut bounds: Vec<u64> = Vec::new();
    bounds.push(5_000_000);
    bounds.push(10_000_000);
    bounds.push(25_000_000);
    bounds.push(50_000_000);
    bounds.push(100_000_000);
    bounds.push(250_000_000);
    bounds.push(500_000_000);
    bounds.push(1_000_000_000);
    bounds.push(2_500_000_000);
    bounds.push(5_000_000_000);
    bounds.push(10_000_000_000);
    proof {
        assert(bounds@ =~= default_bounds());
        lemma_default_bounds_acceptable();
    }
    bounds
}

/// Accepts a sequence of bounds, or says what is wrong with it.
pub fn check_buckets(bounds: &[u64]) -> (r: Result<(), MetricsError>)
    ensures
        r is Ok <==> acceptable(bounds@),
        r == Err::<(), MetricsError>(MetricsError::EmptyBuckets) <==> bounds@.len() == 0,
        r is Err && bounds@.len() > 0 ==> (r matches Err(MetricsError::UnorderedBuckets { index })
            && first_disorder(bounds@, index as int)),
{
    let n: usize = bounds.len();
    if n == 0 {
        return Err(MetricsError::EmptyBuckets);
    }
    let mut k: usize = 1;
    while k < n
        invariant
            n == bounds@.len(),
            1 <= k <= n,
            ascending(bounds@.take(k as int)),
        decreases n - k,
    {
        if bounds[k - 1] >= bounds[k] {
            proof {
                lemma_disorder_refutes_ascending(bounds@, k as int);
                assert forall|j: int| 1 <= j < k implies bounds@[j - 1] < #[trigger] bounds@[j] by {
                    assert(bounds@.take(k as int)[j - 1] < bounds@.take(k as int)[j]);
                }
            }
            return Err(MetricsError::UnorderedBuckets { index: k });
        }
        proof {
            let before = bounds@.take(k as int);
            let after = bounds@.take(k + 1);
            assert forall|i: int, j: int| 0 <= i < j < after.len() implies after[i] < after[j] by {
                if j < k {
                    assert(before[i] < before[j]);
                } else if i < k - 1 {
                    assert(before[i] < before[k - 1]);
                }
            }
        }
        k = k + 1;
    }
    proof {
        assert(bounds@.take(n as int) =~= bounds@);
    }
    Ok(())
}

} // verus!
