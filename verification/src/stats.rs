//! Latency statistics over integer microsecond samples, and the run summary.

use std::collections::BTreeMap;

use vstd::prelude::*;
use vstd::relations::{sorted_by, total_ordering};

use crate::cli::ProbeConfig;
use crate::model::{
    kind_at_rank, kind_rank, kinds_ascending, AttemptResult, LatencySummary, RunSummary, TimingSample,
    TransportFailureKind, KIND_COUNT,
};

verus! {

/// Statistics of one phase over a non-empty set of samples.
///
/// The mean is `total_us / samples` and the median is
/// `(median_low_us + median_high_us) / 2`; both are kept as exact integers.
#[derive(Debug, Clone, Copy, PartialEq, Eq)]
pub struct MetricStats {
    pub samples: usize,
    pub min_us: u64,
    pub max_us: u64,
    /// Sum of all samples.
    pub total_us: u128,
    /// Lower of the two middle samples (the middle one for an odd count).
    pub median_low_us: u64,
    /// Upper of the two middle samples (the middle one for an odd count).
    pub median_high_us: u64,
    pub p95_us: u64,
    pub p99_us: u64,
}

/// The ascending order on samples.
pub open spec fn ascending() -> spec_fn(u64, u64) -> bool {
    |a: u64, b: u64| a <= b
}

/// The samples in ascending order.
pub open spec fn sorted_samples(values: Seq<u64>) -> Seq<u64> {
    values.sort_by(ascending())
}

/// Sum of a sequence of samples.
pub open spec fn sum_of(s: Seq<u64>) -> nat
    decreases s.len(),
{
    if s.len() == 0 {
        0
    } else {
        sum_of(s.drop_last()) + (s.last() as nat)
    }
}

/// The smallest integer that is at least `a / b`.
pub open spec fn ceil_div(a: nat, b: nat) -> nat
    recommends
        b > 0,
{
    ((a + b - 1) as nat) / b
}

/// Zero-based index of the nearest-rank percentile `num / den` among `len`
/// ascending samples: the rank `ceil(num / den * len)`, at least 1, minus one.
pub open spec fn nearest_rank_index(len: nat, num: nat, den: nat) -> int {
    let rank = ceil_div(num * len, den);
    if rank == 0 {
        0
    } else {
        rank - 1
    }
}

/// The statistics of a non-empty sequence of samples.
pub open spec fn stats_of(values: Seq<u64>) -> MetricStats {
    let s = sorted_samples(values);
    let n = values.len();
    MetricStats {
        samples: n as usize,
        min_us: s[0],
        max_us: s[n - 1],
        total_us: sum_of(values) as u128,
        median_low_us: s[(n - 1) / 2],
        median_high_us: s[(n / 2) as int],
        p95_us: s[nearest_rank_index(n, 95, 100)],
        p99_us: s[nearest_rank_index(n, 99, 100)],
    }
}

/// What `summarize` gives: nothing for no samples, else their statistics.
pub open spec fn summary_of(values: Seq<u64>) -> Option<MetricStats> {
    if values.len() == 0 {
        None
    } else {
        Some(stats_of(values))
    }
}

proof fn lemma_ascending_total()
    ensures
        total_ordering(ascending()),
{
}

/// A sorted rearrangement of `values` is `sorted_samples(values)`.
proof fn lemma_sorted_rearrangement(values: Seq<u64>, sorted: Seq<u64>)
    requires
        sorted.to_multiset() == values.to_multiset(),
        sorted_by(sorted, ascending()),
    ensures
        sorted == sorted_samples(values),
{
    lemma_ascending_total();
    values.lemma_sort_by_ensures(ascending());
    vstd::seq_lib::lemma_sorted_unique(sorted, values.sort_by(ascending()), ascending());
}

/// Sorts samples in ascending order.
///
/// Calls `<[u64]>::sort_unstable`; its documentation promises that the slice
/// comes back sorted, holding the same elements.
#[verifier::external_body]
fn sort_unstable_ascending(v: &mut Vec<u64>)
    ensures
        final(v)@.to_multiset() == old(v)@.to_multiset(),
        sorted_by(final(v)@, ascending()),
{
    v.sort_unstable();
}

proof fn lemma_sum_step_bound(i: int, total: int, v: int)
    requires
        0 <= i < 0x1_0000_0000_0000_0000,
        0 <= total <= i * 0xffff_ffff_ffff_ffff,
        0 <= v <= 0xffff_ffff_ffff_ffff,
    ensures
        total + v <= (i + 1) * 0xffff_ffff_ffff_ffff,
        (i + 1) * 0xffff_ffff_ffff_ffff <= u128::MAX,
{
    assert((i + 1) * 0xffff_ffff_ffff_ffff == i * 0xffff_ffff_ffff_ffff + 0xffff_ffff_ffff_ffff)
        by (nonlinear_arith);
    assert((i + 1) * 0xffff_ffff_ffff_ffff <= 0x1_0000_0000_0000_0000 * 0xffff_ffff_ffff_ffff)
        by (nonlinear_arith)
        requires
            i + 1 <= 0x1_0000_0000_0000_0000,
    ;
}

/// Sum of all samples, exact.
fn sum_samples(values: &[u64]) -> (total: u128)
    ensures
        total == sum_of(values@),
{
    let mut total: u128 = 0;
    let mut i: usize = 0;
    while i < values.len()
        invariant
            i <= values@.len(),
            total == sum_of(values@.take(i as int)),
            total <= i * 0xffff_ffff_ffff_ffff,
        decreases values@.len() - i,
    {
        proof {
            assert(values@.take(i + 1).drop_last() == values@.take(i as int));
            lemma_sum_step_bound(i as int, total as int, values@[i as int] as int);
        }
        total = total + values[i] as u128;
        i = i + 1;
    }
    proof {
        assert(values@.take(values@.len() as int) == values@);
    }
    total
}

proof fn lemma_rank_bound(n: nat, num: nat, den: nat)
    requires
        n > 0,
        den > 0,
        num <= den,
    ensures
        ceil_div(num * n, den) <= n,
        0 <= nearest_rank_index(n, num, den) < n,
{
    assert(num * n <= den * n) by (nonlinear_arith)
        requires
            num <= den,
    ;
    assert(num * n + den - 1 < den * (n + 1)) by (nonlinear_arith)
        requires
            num * n <= den * n,
            den > 0,
    ;
    let a = (num * n + den - 1) as nat;
    assert(a / den <= n) by (nonlinear_arith)
        requires
            a < den * (n + 1),
            den > 0,
    ;
}

/// The sample at the nearest-rank percentile `percentile_num / percentile_den`.
///
/// The percentile is a fraction in `[0, 1]`, written as a ratio of integers.
pub fn nearest_rank(values_sorted: &[u64], percentile_num: u64, percentile_den: u64) -> (r: u64)
    requires
        values_sorted@.len() > 0,
        percentile_den > 0,
        percentile_num <= percentile_den,
    ensures
        r == values_sorted@[nearest_rank_index(
            values_sorted@.len(),
            percentile_num as nat,
            percentile_den as nat,
        )],
{
    let n = values_sorted.len() as u128;
    let num = percentile_num as u128;
    let den = percentile_den as u128;
    proof {
        lemma_rank_bound(n as nat, num as nat, den as nat);
        assert(num * n <= 0xffff_ffff_ffff_ffff * 0xffff_ffff_ffff_ffff) by (nonlinear_arith)
            requires
                num <= 0xffff_ffff_ffff_ffff,
                n <= 0xffff_ffff_ffff_ffff,
        ;
    }
    let rank = (num * n + den - 1) / den;
    let index: u128 = if rank == 0 {
        0
    } else {
        rank - 1
    };
    values_sorted[index as usize]
}

/// Statistics of a set of samples; nothing when there are none.
pub fn summarize(values: &[u64]) -> (r: Option<MetricStats>)
    ensures
        r == summary_of(values@),
{
    if values.len() == 0 {
        return None;
    }
    let mut sorted = vstd::slice::slice_to_vec(values);
    sort_unstable_ascending(&mut sorted);
    proof {
        lemma_sorted_rearrangement(values@, sorted@);
        sorted@.to_multiset_ensures();
        values@.to_multiset_ensures();
    }
    let samples = sorted.len();
    let min_us = sorted[0];
    let max_us = sorted[samples - 1];
    let total_us = sum_samples(values);
    let median_low_us = sorted[(samples - 1) / 2];
    let median_high_us = sorted[samples / 2];
    let p95_us = nearest_rank(sorted.as_slice(), 95, 100);
    let p99_us = nearest_rank(sorted.as_slice(), 99, 100);
    Some(
        MetricStats {
            samples,
            min_us,
            max_us,
            total_us,
            median_low_us,
            median_high_us,
            p95_us,
            p99_us,
        },
    )
}


proof fn lemma_ceil_div(a: nat, b: nat)
    requires
        b > 0,
    ensures
        ceil_div(a, b) * b >= a,
        ceil_div(a, b) * b < a + b,
{
    let x = (a + b - 1) as int;
    vstd::arithmetic::div_mod::lemma_fundamental_div_mod(x, b as int);
    vstd::arithmetic::div_mod::lemma_mod_pos_bound(x, b as int);
    assert(ceil_div(a, b) == x / (b as int));
    assert(x == (b as int) * (x / (b as int)) + x % (b as int));
    assert((x / (b as int)) * (b as int) == (b as int) * (x / (b as int))) by (nonlinear_arith);
}

/// Nearest-rank indices stay inside the samples.
pub proof fn lemma_nearest_rank_index_in_bounds(len: nat, num: nat, den: nat)
    requires
        len > 0,
        den > 0,
        num <= den,
    ensures
        0 <= nearest_rank_index(len, num, den) < len,
{
    lemma_rank_bound(len, num, den);
}

/// A higher percentile never picks an earlier sample: if
/// `num1 / den1 <= num2 / den2`, the index for the first is at most the index for
/// the second.
pub proof fn lemma_nearest_rank_index_monotone(len: nat, num1: nat, den1: nat, num2: nat, den2: nat)
    requires
        den1 > 0,
        den2 > 0,
        num1 * den2 <= num2 * den1,
    ensures
        nearest_rank_index(len, num1, den1) <= nearest_rank_index(len, num2, den2),
{
    let a1 = num1 * len;
    let a2 = num2 * len;
    let r1 = ceil_div(a1, den1);
    let r2 = ceil_div(a2, den2);
    lemma_ceil_div(a1, den1);
    lemma_ceil_div(a2, den2);
    if r2 < r1 {
        // r1 * den1 < a1 + den1, so (r1 - 1) * den1 < a1
        assert((r1 - 1) * den1 < a1) by (nonlinear_arith)
            requires
                r1 * den1 < a1 + den1,
        ;
        assert(r2 * den1 <= (r1 - 1) * den1) by (nonlinear_arith)
            requires
                r2 <= r1 - 1,
                den1 > 0,
        ;
        assert(a2 * den1 <= r2 * den2 * den1) by (nonlinear_arith)
            requires
                r2 * den2 >= a2,
                den1 > 0,
        ;
        assert(r2 * den2 * den1 <= (r1 - 1) * den1 * den2) by (nonlinear_arith)
            requires
                r2 * den1 <= (r1 - 1) * den1,
                den2 > 0,
        ;
        assert((r1 - 1) * den1 * den2 < a1 * den2) by (nonlinear_arith)
            requires
                (r1 - 1) * den1 < a1,
                den2 > 0,
        ;
        assert(a1 * den2 <= a2 * den1) by (nonlinear_arith)
            requires
                num1 * den2 <= num2 * den1,
                a1 == num1 * len,
                a2 == num2 * len,
        ;
        assert(false);
    }
}

/// Sorted samples are ascending at every pair of positions.
proof fn lemma_sorted_samples_facts(values: Seq<u64>)
    ensures
        sorted_samples(values).len() == values.len(),
        sorted_samples(values).to_multiset() == values.to_multiset(),
        forall|i: int, j: int|
            0 <= i <= j < values.len() ==> sorted_samples(values)[i] <= sorted_samples(values)[j],
{
    lemma_ascending_total();
    values.lemma_sort_by_ensures(ascending());
    let s = sorted_samples(values);
    s.to_multiset_ensures();
    values.to_multiset_ensures();
    assert forall|i: int, j: int| 0 <= i <= j < values.len() implies s[i] <= s[j] by {
        if i < j {
            assert(ascending()(s[i], s[j]));
        }
    }
}

/// An element of the samples appears among the sorted samples, and back.
proof fn lemma_sorted_samples_same_elements(values: Seq<u64>)
    ensures
        forall|x: u64| values.contains(x) <==> sorted_samples(values).contains(x),
{
    lemma_sorted_samples_facts(values);
    let s = sorted_samples(values);
    assert forall|x: u64| values.contains(x) <==> s.contains(x) by {
        vstd::seq_lib::to_multiset_contains(values, x);
        vstd::seq_lib::to_multiset_contains(s, x);
    }
}

proof fn lemma_sum_bounds(s: Seq<u64>, lo: int, hi: int)
    requires
        forall|i: int| 0 <= i < s.len() ==> lo <= #[trigger] s[i] <= hi,
    ensures
        s.len() * lo <= sum_of(s) <= s.len() * hi,
    decreases s.len(),
{
    if s.len() > 0 {
        let t = s.drop_last();
        assert forall|i: int| 0 <= i < t.len() implies lo <= #[trigger] t[i] <= hi by {
            assert(t[i] == s[i]);
        }
        lemma_sum_bounds(t, lo, hi);
        assert(s.len() * lo == t.len() * lo + lo) by (nonlinear_arith)
            requires
                s.len() == t.len() + 1,
        ;
        assert(s.len() * hi == t.len() * hi + hi) by (nonlinear_arith)
            requires
                s.len() == t.len() + 1,
        ;
    }
}

/// Order laws of the statistics of non-empty samples: every figure lies between
/// the minimum and the maximum, which are themselves samples and bound every
/// sample; the median pair and the percentiles are samples, ordered as their
/// positions are; the mean lies between the minimum and the maximum.
pub proof fn lemma_stats_order(values: Seq<u64>)
    requires
        0 < values.len() <= usize::MAX,
    ensures
        ({
            let m = stats_of(values);
            &&& m.samples == values.len()
            &&& m.min_us <= m.median_low_us <= m.median_high_us <= m.max_us
            &&& m.min_us <= m.p95_us <= m.p99_us <= m.max_us
            &&& values.contains(m.min_us)
            &&& values.contains(m.max_us)
            &&& values.contains(m.median_low_us)
            &&& values.contains(m.median_high_us)
            &&& values.contains(m.p95_us)
            &&& values.contains(m.p99_us)
            &&& forall|i: int| 0 <= i < values.len() ==> m.min_us <= #[trigger] values[i] <= m.max_us
            &&& values.len() * m.min_us <= m.total_us <= values.len() * m.max_us
        }),
{
    let n = values.len();
    let s = sorted_samples(values);
    let m = stats_of(values);
    lemma_sorted_samples_facts(values);
    lemma_sorted_samples_same_elements(values);
    lemma_rank_bound(n, 95, 100);
    lemma_rank_bound(n, 99, 100);
    lemma_nearest_rank_index_monotone(n, 95, 100, 99, 100);
    let i95 = nearest_rank_index(n, 95, 100);
    let i99 = nearest_rank_index(n, 99, 100);
    assert(s[0] <= s[(n - 1) / 2]);
    assert(s[(n - 1) / 2] <= s[(n / 2) as int]);
    assert(s[(n / 2) as int] <= s[n - 1]);
    assert(s[0] <= s[i95]);
    assert(s[i95] <= s[i99]);
    assert(s[i99] <= s[n - 1]);
    assert(s.contains(s[0]));
    assert(s.contains(s[n - 1]));
    assert(s.contains(s[(n - 1) / 2]));
    assert(s.contains(s[(n / 2) as int]));
    assert(s.contains(s[i95]));
    assert(s.contains(s[i99]));
    assert forall|i: int| 0 <= i < values.len() implies m.min_us <= #[trigger] values[i] <= m.max_us by {
        assert(values.contains(values[i]));
        let k = choose|k: int| 0 <= k < s.len() && s[k] == values[i];
        assert(s[0] <= s[k] <= s[n - 1]);
    }
    lemma_sum_bounds(values, m.min_us as int, m.max_us as int);
    lemma_sum_fits(values);
}

/// The sum of at most `usize::MAX` samples fits in a `u128`.
proof fn lemma_sum_fits(values: Seq<u64>)
    requires
        values.len() <= usize::MAX,
    ensures
        sum_of(values) <= u128::MAX,
{
    lemma_sum_bounds(values, 0, u64::MAX as int);
    assert(values.len() * (u64::MAX as int) <= u128::MAX) by (nonlinear_arith)
        requires
            values.len() <= 0xffff_ffff_ffff_ffff,
    ;
}

/// Removing one sample removes its value from the sum.
proof fn lemma_sum_remove(s: Seq<u64>, j: int)
    requires
        0 <= j < s.len(),
    ensures
        sum_of(s) == sum_of(s.remove(j)) + s[j],
    decreases s.len(),
{
    if j < s.len() - 1 {
        let t = s.drop_last();
        lemma_sum_remove(t, j);
        assert(s.remove(j).drop_last() == t.remove(j));
        assert(s.remove(j).last() == s.last());
    } else {
        assert(s.remove(j) == s.drop_last());
    }
}

/// Two rearrangements of the same samples have the same sum.
proof fn lemma_sum_rearrangement(a: Seq<u64>, b: Seq<u64>)
    requires
        a.to_multiset() == b.to_multiset(),
    ensures
        sum_of(a) == sum_of(b),
    decreases a.len(),
{
    a.to_multiset_ensures();
    b.to_multiset_ensures();
    if a.len() == 0 {
        assert(b.len() == 0);
    } else {
        let x = a.last();
        assert(a.contains(x)) by {
            assert(a[a.len() - 1] == x);
        }
        vstd::seq_lib::to_multiset_contains(a, x);
        vstd::seq_lib::to_multiset_contains(b, x);
        let j = choose|j: int| 0 <= j < b.len() && b[j] == x;
        lemma_sum_remove(b, j);
        assert(a.remove(a.len() - 1) == a.drop_last());
        vstd::seq_lib::to_multiset_remove(a, a.len() - 1);
        vstd::seq_lib::to_multiset_remove(b, j);
        lemma_sum_rearrangement(a.drop_last(), b.remove(j));
    }
}

/// The statistics do not depend on the order in which the samples came.
pub proof fn lemma_stats_rearrangement(a: Seq<u64>, b: Seq<u64>)
    requires
        a.to_multiset() == b.to_multiset(),
    ensures
        summary_of(a) == summary_of(b),
{
    a.to_multiset_ensures();
    b.to_multiset_ensures();
    lemma_sum_rearrangement(a, b);
    lemma_sorted_samples_facts(a);
    lemma_sorted_samples_facts(b);
    lemma_ascending_total();
    a.lemma_sort_by_ensures(ascending());
    b.lemma_sort_by_ensures(ascending());
    vstd::seq_lib::lemma_sorted_unique(sorted_samples(a), sorted_samples(b), ascending());
}

/// With fewer than 100 samples the nearest-rank P99 is the maximum, and with
/// fewer than 20 so is the P95.
pub proof fn lemma_small_counts_reach_max(values: Seq<u64>)
    requires
        0 < values.len(),
    ensures
        values.len() < 100 ==> stats_of(values).p99_us == stats_of(values).max_us,
        values.len() < 20 ==> stats_of(values).p95_us == stats_of(values).max_us,
{
    let n = values.len();
    lemma_ceil_div(99 * n, 100);
    lemma_ceil_div(95 * n, 100);
    if n < 100 {
        assert(ceil_div(99 * n, 100) == n);
    }
    if n < 20 {
        assert(ceil_div(95 * n, 100) == n);
    }
}

/// A single sample is its own minimum, maximum, median and percentiles.
pub proof fn lemma_single_sample(v: u64)
    ensures
        ({
            let m = stats_of(seq![v]);
            &&& m.samples == 1
            &&& m.min_us == v && m.max_us == v
            &&& m.median_low_us == v && m.median_high_us == v
            &&& m.p95_us == v && m.p99_us == v
            &&& m.total_us == v
        }),
{
    let values = seq![v];
    lemma_sorted_samples_facts(values);
    lemma_sorted_samples_same_elements(values);
    let s = sorted_samples(values);
    assert(s.contains(s[0]));
    assert(values.contains(s[0]));
    assert(s[0] == v);
    assert(values.drop_last() == Seq::<u64>::empty());
    assert(values.last() == v);
    assert(sum_of(values) == sum_of(values.drop_last()) + v);
    assert(sum_of(values) == v);
    lemma_ceil_div(99, 100);
    lemma_ceil_div(95, 100);
}


/// The final HTTP status of an attempt, if its transfer completed.
pub open spec fn status_of(a: AttemptResult) -> Option<u32> {
    match a {
        AttemptResult::Success(x) => Some(x.response.status_code),
        AttemptResult::HttpFailure(x) => Some(x.response.status_code),
        AttemptResult::TransportFailure(_) => None,
    }
}

/// The kind of an attempt's transport failure, if it had one.
pub open spec fn failure_kind_of(a: AttemptResult) -> Option<TransportFailureKind> {
    match a {
        AttemptResult::TransportFailure(x) => Some(x.kind),
        _ => None,
    }
}

/// Number of successful attempts.
pub open spec fn success_count(s: Seq<AttemptResult>) -> nat
    decreases s.len(),
{
    if s.len() == 0 {
        0
    } else {
        success_count(s.drop_last()) + if s.last() is Success {
            1nat
        } else {
            0nat
        }
    }
}

/// Number of completed transfers whose final status was `code`.
pub open spec fn status_count(s: Seq<AttemptResult>, code: u32) -> nat
    decreases s.len(),
{
    if s.len() == 0 {
        0
    } else {
        status_count(s.drop_last(), code) + if status_of(s.last()) == Some(code) {
            1nat
        } else {
            0nat
        }
    }
}

/// Number of transport failures of a kind.
pub open spec fn kind_count(s: Seq<AttemptResult>, kind: TransportFailureKind) -> nat
    decreases s.len(),
{
    if s.len() == 0 {
        0
    } else {
        kind_count(s.drop_last(), kind) + if failure_kind_of(s.last()) == Some(kind) {
            1nat
        } else {
            0nat
        }
    }
}

/// The timings of the successful attempts, in order.
pub open spec fn successful_timings(s: Seq<AttemptResult>) -> Seq<TimingSample>
    decreases s.len(),
{
    if s.len() == 0 {
        Seq::empty()
    } else {
        let rest = successful_timings(s.drop_last());
        match s.last() {
            AttemptResult::Success(x) => rest.push(x.timing),
            _ => rest,
        }
    }
}

/// `m` maps each status that occurred to the number of attempts that ended
/// with it, and holds no other status.
pub open spec fn counts_statuses(m: Map<u32, u32>, s: Seq<AttemptResult>) -> bool {
    forall|code: u32|
        (#[trigger] m.contains_key(code) <==> status_count(s, code) > 0) && (m.contains_key(code)
            ==> m[code] == status_count(s, code))
}

/// The rows `(kind, count)` of the failure table for the kinds of rank below
/// `upto`, in rank order, leaving out kinds that did not occur.
pub open spec fn kind_rows(s: Seq<AttemptResult>, upto: nat) -> Seq<(TransportFailureKind, u32)>
    decreases upto,
{
    if upto == 0 {
        Seq::empty()
    } else {
        let rest = kind_rows(s, (upto - 1) as nat);
        let kind = kind_at_rank((upto - 1) as nat);
        if kind_count(s, kind) > 0 {
            rest.push((kind, kind_count(s, kind) as u32))
        } else {
            rest
        }
    }
}

/// The TLS timings that are present, in order.
pub open spec fn tls_values(s: Seq<TimingSample>) -> Seq<u64>
    decreases s.len(),
{
    if s.len() == 0 {
        Seq::empty()
    } else {
        let rest = tls_values(s.drop_last());
        match s.last().tls_us {
            Some(v) => rest.push(v),
            None => rest,
        }
    }
}

/// The DNS timings, in order.
pub open spec fn dns_values(s: Seq<TimingSample>) -> Seq<u64> {
    s.map_values(|t: TimingSample| t.dns_us)
}

/// The TCP connection timings, in order.
pub open spec fn tcp_values(s: Seq<TimingSample>) -> Seq<u64> {
    s.map_values(|t: TimingSample| t.tcp_us)
}

/// The time-to-first-byte timings, in order.
pub open spec fn ttfb_values(s: Seq<TimingSample>) -> Seq<u64> {
    s.map_values(|t: TimingSample| t.ttfb_us)
}

/// The body transfer timings, in order.
pub open spec fn download_values(s: Seq<TimingSample>) -> Seq<u64> {
    s.map_values(|t: TimingSample| t.download_us)
}

/// The total timings, in order.
pub open spec fn total_values(s: Seq<TimingSample>) -> Seq<u64> {
    s.map_values(|t: TimingSample| t.total_us)
}

/// Per-phase statistics of the given timings; nothing when there are none. TLS
/// statistics exist only for HTTPS targets that have TLS timings.
pub open spec fn latency_of(timings: Seq<TimingSample>, is_https: bool) -> Option<LatencySummary> {
    if timings.len() == 0 {
        None
    } else {
        Some(
            LatencySummary {
                dns: stats_of(dns_values(timings)),
                tcp: stats_of(tcp_values(timings)),
                tls: if is_https {
                    summary_of(tls_values(timings))
                } else {
                    None
                },
                ttfb: stats_of(ttfb_values(timings)),
                download: stats_of(download_values(timings)),
                total: stats_of(total_values(timings)),
            },
        )
    }
}

/// What `build_run_summary` gives for a configuration and the attempts of a run.
pub open spec fn summarizes_run(r: RunSummary, config: ProbeConfig, attempts: Seq<AttemptResult>) -> bool {
    let successes = success_count(attempts);
    &&& r.target@ == config.url@
    &&& r.requested_attempts == config.count
    &&& r.successful_attempts == successes
    &&& r.failed_attempts == if config.count >= successes {
        config.count - successes
    } else {
        0
    }
    &&& r.latency == latency_of(successful_timings(attempts), config.is_https)
    &&& counts_statuses(r.status_counts@, attempts)
    &&& r.transport_failure_counts@ == kind_rows(attempts, KIND_COUNT as nat)
    &&& r.attempts@ == attempts
    &&& r.follow_redirects == config.follow_redirects
    &&& r.is_https == config.is_https
}

/// The failure table lists kinds below `upto` in ascending order.
proof fn lemma_kind_rows_ascending(s: Seq<AttemptResult>, upto: nat)
    requires
        upto <= KIND_COUNT,
    ensures
        kinds_ascending(kind_rows(s, upto)),
        forall|i: int| 0 <= i < kind_rows(s, upto).len() ==> kind_rank(#[trigger] kind_rows(s, upto)[i].0) < upto,
    decreases upto,
{
    if upto > 0 {
        lemma_kind_rows_ascending(s, (upto - 1) as nat);
        crate::model::lemma_kind_rank_roundtrip(kind_at_rank((upto - 1) as nat));
        assert(kind_rank(kind_at_rank((upto - 1) as nat)) == upto - 1);
    }
}

proof fn lemma_counts_bounded(s: Seq<AttemptResult>)
    ensures
        success_count(s) <= s.len(),
        successful_timings(s).len() == success_count(s),
        forall|code: u32| #[trigger] status_count(s, code) <= s.len(),
        forall|kind: TransportFailureKind| #[trigger] kind_count(s, kind) <= s.len(),
    decreases s.len(),
{
    if s.len() > 0 {
        lemma_counts_bounded(s.drop_last());
        assert forall|code: u32| #[trigger] status_count(s, code) <= s.len() by {
            assert(status_count(s.drop_last(), code) <= s.drop_last().len());
        }
        assert forall|kind: TransportFailureKind| #[trigger] kind_count(s, kind) <= s.len() by {
            assert(kind_count(s.drop_last(), kind) <= s.drop_last().len());
        }
    }
}

/// The values of one phase, in the order of the timings.
fn collect<F>(timings: &[TimingSample], f: F) -> (r: Vec<u64>)
    where
        F: Fn(&TimingSample) -> u64,
    requires
        forall|i: int| 0 <= i < timings@.len() ==> f.requires((&timings@[i],)),
    ensures
        r@.len() == timings@.len(),
        forall|i: int| 0 <= i < timings@.len() ==> f.ensures((&timings@[i],), #[trigger] r@[i]),
{
    let mut r: Vec<u64> = Vec::new();
    let mut i: usize = 0;
    while i < timings.len()
        invariant
            i <= timings@.len(),
            r@.len() == i,
            forall|i: int| 0 <= i < timings@.len() ==> f.requires((&timings@[i],)),
            forall|j: int| 0 <= j < i ==> f.ensures((&timings@[j],), #[trigger] r@[j]),
        decreases timings@.len() - i,
    {
        let v = f(&timings[i]);
        r.push(v);
        i = i + 1;
    }
    r
}

/// The TLS timings that are present, in order.
fn collect_tls(timings: &[TimingSample]) -> (r: Vec<u64>)
    ensures
        r@ == tls_values(timings@),
{
    let mut r: Vec<u64> = Vec::new();
    let mut i: usize = 0;
    while i < timings.len()
        invariant
            i <= timings@.len(),
            r@ == tls_values(timings@.take(i as int)),
        decreases timings@.len() - i,
    {
        proof {
            assert(timings@.take(i + 1).drop_last() == timings@.take(i as int));
        }
        if let Some(v) = timings[i].tls_us {
            r.push(v);
        }
        i = i + 1;
    }
    proof {
        assert(timings@.take(timings@.len() as int) == timings@);
    }
    r
}

/// Per-phase statistics of the timings of the successful attempts.
fn summarize_latency(timings: &[TimingSample], is_https: bool) -> (r: Option<LatencySummary>)
    ensures
        r == latency_of(timings@, is_https),
{
    if timings.len() == 0 {
        return None;
    }
    let dns = collect(timings, |t: &TimingSample| -> (v: u64) ensures v == t.dns_us { t.dns_us });
    let tcp = collect(timings, |t: &TimingSample| -> (v: u64) ensures v == t.tcp_us { t.tcp_us });
    let ttfb = collect(timings, |t: &TimingSample| -> (v: u64) ensures v == t.ttfb_us { t.ttfb_us });
    let download = collect(
        timings,
        |t: &TimingSample| -> (v: u64) ensures v == t.download_us { t.download_us },
    );
    let total = collect(
        timings,
        |t: &TimingSample| -> (v: u64) ensures v == t.total_us { t.total_us },
    );
    let tls_values = collect_tls(timings);
    proof {
        assert(dns@ == dns_values(timings@));
        assert(tcp@ == tcp_values(timings@));
        assert(ttfb@ == ttfb_values(timings@));
        assert(download@ == download_values(timings@));
        assert(total@ == total_values(timings@));
    }
    let tls = if is_https {
        summarize(tls_values.as_slice())
    } else {
        None
    };
    Some(
        LatencySummary {
            dns: summarize(dns.as_slice()).unwrap(),
            tcp: summarize(tcp.as_slice()).unwrap(),
            tls,
            ttfb: summarize(ttfb.as_slice()).unwrap(),
            download: summarize(download.as_slice()).unwrap(),
            total: summarize(total.as_slice()).unwrap(),
        },
    )
}

/// Counts the outcomes of a run and computes latency statistics over its
/// successful attempts.
pub fn build_run_summary(config: &ProbeConfig, attempts: Vec<AttemptResult>) -> (r: RunSummary)
    requires
        attempts@.len() <= u32::MAX,
    ensures
        summarizes_run(r, *config, attempts@),
        kinds_ascending(r.transport_failure_counts@),
{
    let mut successful_attempts: u32 = 0;
    let mut status_counts: BTreeMap<u32, u32> = BTreeMap::new();
    let mut kind_counts: Vec<u32> = Vec::new();
    while kind_counts.len() < KIND_COUNT
        invariant
            kind_counts@.len() <= KIND_COUNT,
            forall|r: int| 0 <= r < kind_counts@.len() ==> kind_counts@[r] == 0,
        decreases KIND_COUNT - kind_counts@.len(),
    {
        kind_counts.push(0);
    }
    let mut timings: Vec<TimingSample> = Vec::new();
    let mut i: usize = 0;
    while i < attempts.len()
        invariant
            i <= attempts@.len(),
            attempts@.len() <= u32::MAX,
            successful_attempts == success_count(attempts@.take(i as int)),
            timings@ == successful_timings(attempts@.take(i as int)),
            counts_statuses(status_counts@, attempts@.take(i as int)),
            kind_counts@.len() == KIND_COUNT,
            forall|r: int|
                0 <= r < KIND_COUNT ==> kind_counts@[r] == kind_count(
                    attempts@.take(i as int),
                    kind_at_rank(r as nat),
                ),
        decreases attempts@.len() - i,
    {
        let ghost prefix = attempts@.take(i as int);
        let ghost next = attempts@.take(i + 1);
        proof {
            assert(next.drop_last() == prefix);
            assert(next.last() == attempts@[i as int]);
            lemma_counts_bounded(prefix);
        }
        match &attempts[i] {
            AttemptResult::Success(success) => {
                let code = success.response.status_code;
                let old_count: u32 = match status_counts.get(&code) {
                    Some(c) => *c,
                    None => 0,
                };
                status_counts.insert(code, old_count + 1);
                successful_attempts = successful_attempts + 1;
                timings.push(success.timing);
            },
            AttemptResult::HttpFailure(failure) => {
                let code = failure.response.status_code;
                let old_count: u32 = match status_counts.get(&code) {
                    Some(c) => *c,
                    None => 0,
                };
                status_counts.insert(code, old_count + 1);
            },
            AttemptResult::TransportFailure(failure) => {
                let rank = failure.kind.rank();
                proof {
                    crate::model::lemma_kind_rank_roundtrip(failure.kind);
                }
                let c = kind_counts[rank];
                kind_counts.set(rank, c + 1);
            },
        }
        proof {
            assert forall|r: int|
                0 <= r < KIND_COUNT implies kind_counts@[r] == kind_count(
                next,
                kind_at_rank(r as nat),
            ) by {
                crate::model::lemma_kind_rank_roundtrip(kind_at_rank(r as nat));
            }
        }
        i = i + 1;
    }
    proof {
        assert(attempts@.take(attempts@.len() as int) == attempts@);
    }
    let mut transport_failure_counts: Vec<(TransportFailureKind, u32)> = Vec::new();
    let mut rank: usize = 0;
    while rank < KIND_COUNT
        invariant
            rank <= KIND_COUNT,
            kind_counts@.len() == KIND_COUNT,
            forall|r: int|
                0 <= r < KIND_COUNT ==> kind_counts@[r] == kind_count(
                    attempts@,
                    kind_at_rank(r as nat),
                ),
            transport_failure_counts@ == kind_rows(attempts@, rank as nat),
        decreases KIND_COUNT - rank,
    {
        if kind_counts[rank] > 0 {
            transport_failure_counts.push((TransportFailureKind::from_rank(rank), kind_counts[rank]));
        }
        rank = rank + 1;
    }
    proof {
        lemma_kind_rows_ascending(attempts@, KIND_COUNT as nat);
    }
    let requested_attempts = config.count;
    let failed_attempts = if requested_attempts >= successful_attempts {
        requested_attempts - successful_attempts
    } else {
        0
    };
    let latency = summarize_latency(timings.as_slice(), config.is_https);
    RunSummary {
        target: config.url.clone(),
        requested_attempts,
        successful_attempts,
        failed_attempts,
        latency,
        status_counts,
        transport_failure_counts,
        attempts,
        follow_redirects: config.follow_redirects,
        is_https: config.is_https,
    }
}


/// Number of completed transfers that did not succeed.
pub open spec fn http_failure_count(s: Seq<AttemptResult>) -> nat
    decreases s.len(),
{
    if s.len() == 0 {
        0
    } else {
        http_failure_count(s.drop_last()) + if s.last() is HttpFailure {
            1nat
        } else {
            0nat
        }
    }
}

/// Number of transfers that did not complete.
pub open spec fn transport_failure_count(s: Seq<AttemptResult>) -> nat
    decreases s.len(),
{
    if s.len() == 0 {
        0
    } else {
        transport_failure_count(s.drop_last()) + if s.last() is TransportFailure {
            1nat
        } else {
            0nat
        }
    }
}

/// Transport failures of the kinds of rank below `upto`.
pub open spec fn kinds_total(s: Seq<AttemptResult>, upto: nat) -> nat
    decreases upto,
{
    if upto == 0 {
        0
    } else {
        kinds_total(s, (upto - 1) as nat) + kind_count(s, kind_at_rank((upto - 1) as nat))
    }
}

proof fn lemma_kinds_total_step(s: Seq<AttemptResult>, a: AttemptResult, upto: nat)
    requires
        upto <= KIND_COUNT,
    ensures
        kinds_total(s.push(a), upto) == kinds_total(s, upto) + match failure_kind_of(a) {
            Some(k) => if kind_rank(k) < upto {
                1nat
            } else {
                0nat
            },
            None => 0nat,
        },
    decreases upto,
{
    assert(s.push(a).drop_last() == s);
    if upto > 0 {
        lemma_kinds_total_step(s, a, (upto - 1) as nat);
        if let Some(k) = failure_kind_of(a) {
            crate::model::lemma_kind_rank_roundtrip(k);
            crate::model::lemma_kind_rank_roundtrip(kind_at_rank((upto - 1) as nat));
        }
    }
}

proof fn lemma_kinds_total_empty(s: Seq<AttemptResult>, upto: nat)
    requires
        s.len() == 0,
    ensures
        kinds_total(s, upto) == 0,
    decreases upto,
{
    if upto > 0 {
        lemma_kinds_total_empty(s, (upto - 1) as nat);
    }
}

/// Every attempt is counted exactly once: as a success, as an HTTP failure,
/// or as a transport failure of exactly one kind.
pub proof fn lemma_attempts_counted_once(s: Seq<AttemptResult>)
    ensures
        success_count(s) + http_failure_count(s) + transport_failure_count(s) == s.len(),
        kinds_total(s, KIND_COUNT as nat) == transport_failure_count(s),
    decreases s.len(),
{
    if s.len() == 0 {
        lemma_kinds_total_empty(s, KIND_COUNT as nat);
    } else {
        let t = s.drop_last();
        lemma_attempts_counted_once(t);
        assert(t.push(s.last()) == s);
        lemma_kinds_total_step(t, s.last(), KIND_COUNT as nat);
        if let Some(k) = failure_kind_of(s.last()) {
            crate::model::lemma_kind_rank_roundtrip(k);
        }
    }
}

proof fn lemma_all_succeeded_count(s: Seq<AttemptResult>)
    ensures
        success_count(s) == s.len() <==> crate::all_succeeded(s),
    decreases s.len(),
{
    if s.len() > 0 {
        let t = s.drop_last();
        lemma_all_succeeded_count(t);
        lemma_counts_bounded(t);
        if crate::all_succeeded(s) {
            assert forall|i: int| 0 <= i < t.len() implies #[trigger] t[i] is Success by {
                assert(s[i] is Success);
            }
            assert(s[s.len() - 1] is Success);
        }
        if success_count(s) == s.len() {
            assert forall|i: int| 0 <= i < s.len() implies #[trigger] s[i] is Success by {
                if i < s.len() - 1 {
                    assert(t[i] is Success);
                }
            }
        }
    }
}

/// After a complete run (one attempt per requested attempt), successes and
/// failures add up to the requested attempts, and nothing failed exactly when
/// every attempt succeeded.
pub proof fn lemma_complete_run_accounting(r: RunSummary, config: ProbeConfig, attempts: Seq<AttemptResult>)
    requires
        summarizes_run(r, config, attempts),
        attempts.len() == config.count,
    ensures
        r.successful_attempts + r.failed_attempts == r.requested_attempts,
        r.failed_attempts == 0 <==> crate::all_succeeded(attempts),
{
    lemma_counts_bounded(attempts);
    lemma_all_succeeded_count(attempts);
}

/// Latency statistics come only from successful attempts: they exist exactly
/// when some attempt succeeded, every phase has one sample per success, and an
/// HTTP target has no TLS statistics.
pub proof fn lemma_latency_from_successes(r: RunSummary, config: ProbeConfig, attempts: Seq<AttemptResult>)
    requires
        summarizes_run(r, config, attempts),
    ensures
        r.latency is Some <==> success_count(attempts) > 0,
        r.latency matches Some(l) ==> {
            &&& l.dns.samples == success_count(attempts)
            &&& l.tcp.samples == success_count(attempts)
            &&& l.ttfb.samples == success_count(attempts)
            &&& l.download.samples == success_count(attempts)
            &&& l.total.samples == success_count(attempts)
            &&& (!config.is_https ==> l.tls is None)
        },
{
    lemma_counts_bounded(attempts);
}

} // verus!
