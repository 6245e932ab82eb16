//! Latency distributions over samples measured in nanoseconds.

use vstd::prelude::*;
use vstd::slice::slice_to_vec;

verus! {

/// The largest value of a `u64`.
pub const U64_MAX: u128 = 0xffff_ffff_ffff_ffff;

/// Failures of latency operations.
#[derive(Debug, Clone)]
pub enum LatencyAdapterError {
    /// A timing measurement is unusable.
    InvalidMeasurement(String),
    /// A named checkpoint was never recorded.
    MissingCheckpoint(String),
    /// A statistic could not be computed.
    CalculationError(String),
}

/// Summary statistics of latency samples, all in nanoseconds.
#[derive(Debug, Clone, Copy, PartialEq, Eq)]
pub struct LatencyDistribution {
    /// Smallest sample.
    pub min: u64,
    /// Largest sample.
    pub max: u64,
    /// Mean, rounded down.
    pub mean: u64,
    /// Population standard deviation around `mean`, rounded down.
    pub std_dev: u64,
    /// Median.
    pub p50: u64,
    /// 90th percentile.
    pub p90: u64,
    /// 95th percentile.
    pub p95: u64,
    /// 99th percentile.
    pub p99: u64,
    /// Number of samples.
    pub sample_count: usize,
}

/// Latency statistics of total time, time to first token and inter-token
/// time.
#[derive(Debug, Clone, Copy, PartialEq, Eq)]
pub struct AggregatedLatencyStats {
    pub total_latency: LatencyDistribution,
    pub ttft: LatencyDistribution,
    pub inter_token: LatencyDistribution,
    pub sample_count: usize,
}

/// The sum of `s`.
pub open spec fn seq_sum(s: Seq<u64>) -> int
    decreases s.len(),
{
    if s.len() == 0 {
        0
    } else {
        seq_sum(s.drop_last()) + s.last()
    }
}

/// The sum of the squared distances of the elements of `s` from `m`.
pub open spec fn sq_dev_sum(s: Seq<u64>, m: int) -> int
    decreases s.len(),
{
    if s.len() == 0 {
        0
    } else {
        sq_dev_sum(s.drop_last(), m) + (s.last() - m) * (s.last() - m)
    }
}

/// `t` is in ascending order.
pub open spec fn is_ascending(t: Seq<u64>) -> bool {
    forall|i: int, j: int| 0 <= i <= j < t.len() ==> t[i] <= t[j]
}

/// The position of the `pct`-th percentile among `n` ordered samples.
pub open spec fn rank(n: int, pct: int) -> int {
    n * pct / 100
}

/// `d` holds the order statistics of the ascending samples `t`.
pub open spec fn order_stats(d: LatencyDistribution, t: Seq<u64>) -> bool {
    let n = t.len() as int;
    &&& d.min == t[0]
    &&& d.max == t[n - 1]
    &&& d.p50 == t[rank(n, 50)]
    &&& d.p90 == t[rank(n, 90)]
    &&& d.p95 == t[rank(n, 95)]
    &&& d.p99 == t[if rank(n, 99) < n - 1 { rank(n, 99) } else { n - 1 }]
}

/// `r` is the largest integer whose square does not exceed `x`.
pub open spec fn is_isqrt(r: int, x: int) -> bool {
    r * r <= x < (r + 1) * (r + 1)
}

/// Relies on `slice::sort`: sorts the elements in ascending order.
#[verifier::external_body]
fn sort_ascending(v: &mut Vec<u64>)
    ensures
        final(v)@.to_multiset() == old(v)@.to_multiset(),
        is_ascending(final(v)@),
{
    v.sort();
}

/// The sum of the samples, which is at most `len * U64_MAX`.
fn sum_of(samples: &[u64]) -> (r: u128)
    requires
        samples@.len() <= u32::MAX,
    ensures
        r == seq_sum(samples@),
        r <= samples@.len() * U64_MAX,
{
    let mut sum: u128 = 0;
    let mut i: usize = 0;
    assert(samples@.take(0) =~= Seq::<u64>::empty());
    while i < samples.len()
        invariant
            0 <= i <= samples@.len() <= u32::MAX,
            sum == seq_sum(samples@.take(i as int)),
            sum <= i * U64_MAX,
        decreases samples@.len() - i,
    {
        assert(samples@.take(i + 1).drop_last() =~= samples@.take(i as int));
        sum = sum + samples[i] as u128;
        i = i + 1;
    }
    assert(samples@.take(i as int) =~= samples@);
    sum
}

/// `floor(sq_dev_sum(samples, mean) / n)`, accumulated without overflow.
fn mean_sq_dev(samples: &[u64], mean: u64) -> (r: u128)
    requires
        0 < samples@.len() <= u32::MAX,
    ensures
        r == sq_dev_sum(samples@, mean as int) / samples@.len() as int,
{
    let n: u128 = samples.len() as u128;
    let ghost m = mean as int;
    let ghost maxsq = U64_MAX * U64_MAX;
    let mut q: u128 = 0;
    let mut rem: u128 = 0;
    let mut i: usize = 0;
    assert(samples@.take(0) =~= Seq::<u64>::empty());
    while i < samples.len()
        invariant
            0 <= i <= samples@.len() <= u32::MAX,
            n == samples@.len(),
            m == mean,
            maxsq == U64_MAX * U64_MAX,
            q * n + rem == sq_dev_sum(samples@.take(i as int), m),
            rem < n,
            0 <= sq_dev_sum(samples@.take(i as int), m) <= i * maxsq,
        decreases samples@.len() - i,
    {
        assert(samples@.take(i + 1).drop_last() =~= samples@.take(i as int));
        let x: u64 = samples[i];
        let d: u64 = if x >= mean { x - mean } else { mean - x };
        proof {
            assert((x - m) * (x - m) == (d as int) * (d as int)) by (nonlinear_arith)
                requires d == (if x >= m { x - m } else { m - x });
            assert((d as int) * (d as int) <= maxsq) by (nonlinear_arith)
                requires 0 <= d <= U64_MAX, maxsq == U64_MAX * U64_MAX;
            assert((d as int) * (d as int) >= 0) by (nonlinear_arith);
        }
        let d2: u128 = (d as u128) * (d as u128);
        let ghost s_next = sq_dev_sum(samples@.take(i + 1), m);
        assert(s_next == q * n + rem + d2);
        assert(s_next <= (i + 1) * maxsq) by (nonlinear_arith)
            requires s_next <= i * maxsq + maxsq;
        let a: u128 = d2 / n;
        let b: u128 = d2 % n;
        proof {
            assert(a * n + b == d2 && b < n) by (nonlinear_arith)
                requires a == d2 / n, b == d2 % n, n > 0;
            assert((q + a) * n + rem + b == s_next) by (nonlinear_arith)
                requires a * n + b == d2, s_next == q * n + rem + d2;
            assert(q + a <= maxsq) by (nonlinear_arith)
                requires (q + a) * n + rem + b == s_next, s_next <= (i + 1) * maxsq,
                    i + 1 <= n, rem >= 0, b >= 0, n > 0, maxsq >= 0;
        }
        q = q + a;
        rem = rem + b;
        if rem >= n {
            proof {
                assert((q + 1) * n + (rem - n) == q * n + rem) by (nonlinear_arith);
                assert(q + 1 <= maxsq) by (nonlinear_arith)
                    requires (q + 1) * n + (rem - n) == s_next, s_next <= (i + 1) * maxsq,
                        i + 1 <= n, rem >= n, n > 0, maxsq >= 0;
            }
            q = q + 1;
            rem = rem - n;
        }
        i = i + 1;
    }
    assert(samples@.take(i as int) =~= samples@);
    proof {
        let s = sq_dev_sum(samples@, m);
        assert(q == s / (n as int)) by (nonlinear_arith)
            requires q * n + rem == s, 0 <= rem < n;
    }
    q
}

/// The integer square root of `x`.
fn isqrt(x: u128) -> (r: u64)
    ensures
        is_isqrt(r as int, x as int),
{
    let mut lo: u128 = 0;
    let mut hi: u128 = U64_MAX + 1;
    assert(x < hi * hi) by (nonlinear_arith)
        requires x <= u128::MAX, hi == U64_MAX + 1;
    while hi - lo > 1
        invariant
            lo < hi <= U64_MAX + 1,
            lo * lo <= x < hi * hi,
        decreases hi - lo,
    {
        let mid: u128 = lo + (hi - lo) / 2;
        assert(mid * mid <= U64_MAX * U64_MAX) by (nonlinear_arith)
            requires mid < U64_MAX + 1;
        if mid * mid <= x {
            lo = mid;
        } else {
            hi = mid;
        }
    }
    assert(hi == lo + 1);
    lo as u64
}

impl Default for LatencyDistribution {
    fn default() -> (r: Self)
        ensures
            r == LatencyDistribution::zero(),
    {
        LatencyDistribution {
            min: 0,
            max: 0,
            mean: 0,
            std_dev: 0,
            p50: 0,
            p90: 0,
            p95: 0,
            p99: 0,
            sample_count: 0,
        }
    }
}

impl LatencyDistribution {
    /// The distribution of no samples: every statistic zero.
    pub open spec fn zero() -> LatencyDistribution {
        LatencyDistribution {
            min: 0,
            max: 0,
            mean: 0,
            std_dev: 0,
            p50: 0,
            p90: 0,
            p95: 0,
            p99: 0,
            sample_count: 0,
        }
    }

    /// The statistics of `samples`, given in nanoseconds: the order
    /// statistics of the samples in ascending order, the mean rounded down,
    /// and the standard deviation around that mean rounded down. Without
    /// samples, every statistic is zero.
    pub fn from_samples(samples: &[u64]) -> (r: Self)
        requires
            samples@.len() <= u32::MAX,
        ensures
            samples@.len() == 0 ==> r == LatencyDistribution::zero(),
            samples@.len() > 0 ==> {
                let n = samples@.len() as int;
                let mean = seq_sum(samples@) / n;
                &&& r.sample_count == n
                &&& r.mean == mean
                &&& is_isqrt(r.std_dev as int, sq_dev_sum(samples@, mean) / n)
                &&& exists|t: Seq<u64>|
                    t.to_multiset() == samples@.to_multiset() && is_ascending(t) && #[trigger] order_stats(r, t)
            },
    {
        if samples.len() == 0 {
            return LatencyDistribution::default();
        }
        let mut sorted = slice_to_vec(samples);
        sort_ascending(&mut sorted);
        proof {
            assert(sorted@.len() == samples@.len()) by {
                sorted@.to_multiset_ensures();
                samples@.to_multiset_ensures();
            }
        }
        let n: usize = sorted.len();
        let sum: u128 = sum_of(samples);
        let nn: u128 = n as u128;
        assert(sum / nn <= U64_MAX) by (nonlinear_arith)
            requires sum <= nn * U64_MAX, nn > 0;
        let mean: u64 = (sum / nn) as u64;
        let variance: u128 = mean_sq_dev(samples, mean);
        let std_dev: u64 = isqrt(variance);
        let n64: u64 = n as u64;
        let i50: u64 = n64 * 50 / 100;
        let i90: u64 = n64 * 90 / 100;
        let i95: u64 = n64 * 95 / 100;
        let i99: u64 = n64 * 99 / 100;
        proof {
            assert(i50 < n64) by (nonlinear_arith) requires i50 == n64 * 50 / 100, n64 > 0;
            assert(i90 < n64) by (nonlinear_arith) requires i90 == n64 * 90 / 100, n64 > 0;
            assert(i95 < n64) by (nonlinear_arith) requires i95 == n64 * 95 / 100, n64 > 0;
        }
        let i99c: u64 = if i99 < n64 - 1 { i99 } else { n64 - 1 };
        let r = LatencyDistribution {
            min: sorted[0],
            max: sorted[n - 1],
            mean,
            std_dev,
            p50: sorted[i50 as usize],
            p90: sorted[i90 as usize],
            p95: sorted[i95 as usize],
            p99: sorted[i99c as usize],
            sample_count: n,
        };
        assert(order_stats(r, sorted@));
        r
    }
}

} // verus!
