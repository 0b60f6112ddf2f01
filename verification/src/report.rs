//! Summary statistics over measured proving runs.
//!
//! Durations are carried as whole nanoseconds. Ranking nanoseconds ranks the
//! durations exactly as ranking their values in seconds does, so the runs
//! picked out as minimum, median, 95th percentile and maximum are the same.
use vstd::prelude::*;
use vstd::relations::{sorted_by, total_ordering};

verus! {

/// The order in which run durations are ranked: shortest first.
pub open spec fn ascending() -> spec_fn(u64, u64) -> bool {
    |a: u64, b: u64| a <= b
}

/// The measured durations, shortest first.
pub open spec fn sorted_durations(times: Seq<u64>) -> Seq<u64> {
    times.sort_by(ascending())
}

/// Position of the `pct`-th percentile among `n` ranked samples:
/// `(n - 1) * pct / 100`, rounded to the nearest position, halves upwards.
pub open spec fn spec_percentile_index(n: nat, pct: nat) -> nat
    recommends
        n >= 1,
{
    (((n - 1) * pct + 50) / 100) as nat
}

/// Minimum, median, 95th percentile and maximum of a set of runs.
#[derive(Clone, Copy, Debug, PartialEq, Eq)]
pub struct RunStats {
    pub min: u64,
    pub p50: u64,
    pub p95: u64,
    pub max: u64,
}

/// The statistics of a non-empty list of durations, read off its ranking.
pub open spec fn spec_run_stats(times: Seq<u64>) -> RunStats
    recommends
        times.len() >= 1,
{
    let s = sorted_durations(times);
    let n = times.len();
    RunStats {
        min: s[0],
        p50: s[spec_percentile_index(n, 50) as int],
        p95: s[spec_percentile_index(n, 95) as int],
        max: s[n - 1],
    }
}

proof fn lemma_ascending_total()
    ensures
        total_ordering(ascending()),
{
}

proof fn lemma_percentile_index_bounds(n: nat, p: nat, q: nat)
    requires
        n >= 1,
        p <= q <= 100,
    ensures
        spec_percentile_index(n, p) <= spec_percentile_index(n, q) < n,
{
    let m = (n - 1) as nat;
    assert(m * p <= m * q) by (nonlinear_arith)
        requires
            p <= q,
    ;
    assert(m * q <= m * 100) by (nonlinear_arith)
        requires
            q <= 100,
    ;
    assert((m * p + 50) / 100 <= (m * q + 50) / 100) by (nonlinear_arith)
        requires
            m * p <= m * q,
    ;
    assert((m * q + 50) / 100 <= m) by (nonlinear_arith)
        requires
            m * q <= m * 100,
    ;
}

/// The ranking is a reordering of the measurements and is in ascending order.
pub proof fn lemma_sorted_durations(times: Seq<u64>)
    ensures
        sorted_by(sorted_durations(times), ascending()),
        sorted_durations(times).to_multiset() == times.to_multiset(),
        sorted_durations(times).len() == times.len(),
{
    lemma_ascending_total();
    times.lemma_sort_by_ensures(ascending());
    vstd::seq_lib::to_multiset_len(times);
    vstd::seq_lib::to_multiset_len(sorted_durations(times));
}

/// Computes the percentile position of [`spec_percentile_index`].
pub fn percentile_index(n: usize, pct: u64) -> (idx: usize)
    requires
        n >= 1,
        pct <= 100,
    ensures
        idx == spec_percentile_index(n as nat, pct as nat),
        idx < n,
{
    proof {
        lemma_percentile_index_bounds(n as nat, pct as nat, pct as nat);
    }
    let m: u128 = (n - 1) as u128;
    assert(m * (pct as u128) <= m * 100) by (nonlinear_arith)
        requires
            pct <= 100,
    ;
    let idx: u128 = (m * (pct as u128) + 50) / 100;
    idx as usize
}

/// Ranks the durations, shortest first.
pub fn sort_durations(times: &Vec<u64>) -> (sorted: Vec<u64>)
    ensures
        sorted@ == sorted_durations(times@),
{
    broadcast use vstd::seq_lib::group_to_multiset_ensures;

    let mut out: Vec<u64> = Vec::new();
    let n = times.len();
    for i in 0..n
        invariant
            n == times.len(),
            sorted_by(out@, ascending()),
            out@.to_multiset() == times@.subrange(0, i as int).to_multiset(),
    {
        let x = times[i];
        let mut j: usize = 0;
        while j < out.len() && out[j] <= x
            invariant
                j <= out.len(),
                forall|k: int| 0 <= k < j ==> out@[k] <= x,
            decreases out.len() - j,
        {
            j = j + 1;
        }
        let ghost before = out@;
        out.insert(j, x);
        proof {
            assert(forall|k: int| j <= k < before.len() ==> x < before[k]) by {
                assert forall|k: int| j <= k < before.len() implies x < before[k] by {
                    if j < before.len() {
                        assert((ascending())(before[j as int], before[k]) || j == k);
                    }
                }
            }
            assert forall|a: int, b: int| 0 <= a < b < out@.len() implies #[trigger] (
            ascending())(out@[a], out@[b]) by {
                if b < j {
                    assert((ascending())(before[a], before[b]));
                } else if b == j {
                } else if a < j {
                } else if a == j {
                } else {
                    assert((ascending())(before[a - 1], before[b - 1]));
                }
            }
            vstd::seq_lib::to_multiset_insert(before, j as int, x);
            let prefix = times@.subrange(0, i as int);
            assert(times@.subrange(0, i + 1) == prefix.push(x));
            vstd::seq_lib::to_multiset_build(prefix, x);
            assert(out@.to_multiset() == before.to_multiset().insert(x));
        }
    }
    proof {
        assert(times@.subrange(0, n as int) == times@);
        lemma_sorted_durations(times@);
        lemma_ascending_total();
        vstd::seq_lib::lemma_sorted_unique(out@, sorted_durations(times@), ascending());
    }
    out
}

/// How many of the durations satisfy `p`.
pub open spec fn count_where(times: Seq<u64>, p: spec_fn(u64) -> bool) -> nat
    decreases times.len(),
{
    if times.len() == 0 {
        0
    } else {
        count_where(times.drop_last(), p) + if p(times.last()) {
            1nat
        } else {
            0nat
        }
    }
}

proof fn lemma_count_le_len(s: Seq<u64>, p: spec_fn(u64) -> bool)
    ensures
        count_where(s, p) <= s.len(),
    decreases s.len(),
{
    if s.len() > 0 {
        lemma_count_le_len(s.drop_last(), p);
    }
}

proof fn lemma_count_add(a: Seq<u64>, b: Seq<u64>, p: spec_fn(u64) -> bool)
    ensures
        count_where(a + b, p) == count_where(a, p) + count_where(b, p),
    decreases b.len(),
{
    if b.len() == 0 {
        assert(a + b =~= a);
    } else {
        assert((a + b).drop_last() =~= a + b.drop_last());
        assert((a + b).last() == b.last());
        lemma_count_add(a, b.drop_last(), p);
    }
}

proof fn lemma_count_all(s: Seq<u64>, p: spec_fn(u64) -> bool)
    requires
        forall|i: int| 0 <= i < s.len() ==> p(#[trigger] s[i]),
    ensures
        count_where(s, p) == s.len(),
    decreases s.len(),
{
    if s.len() > 0 {
        assert(p(s[s.len() - 1]));
        lemma_count_all(s.drop_last(), p);
    }
}

proof fn lemma_count_none(s: Seq<u64>, p: spec_fn(u64) -> bool)
    requires
        forall|i: int| 0 <= i < s.len() ==> !p(#[trigger] s[i]),
    ensures
        count_where(s, p) == 0,
    decreases s.len(),
{
    if s.len() > 0 {
        assert(!p(s[s.len() - 1]));
        lemma_count_none(s.drop_last(), p);
    }
}

proof fn lemma_count_remove(s: Seq<u64>, j: int, p: spec_fn(u64) -> bool)
    requires
        0 <= j < s.len(),
    ensures
        count_where(s, p) == count_where(s.remove(j), p) + if p(s[j]) {
            1nat
        } else {
            0nat
        },
    decreases s.len(),
{
    if j == s.len() - 1 {
        assert(s.remove(j) =~= s.drop_last());
    } else {
        assert(s.remove(j).drop_last() =~= s.drop_last().remove(j));
        assert(s.remove(j).last() == s.last());
        lemma_count_remove(s.drop_last(), j, p);
    }
}

/// Counting depends only on which durations there are, not on their order.
proof fn lemma_count_reorder(a: Seq<u64>, b: Seq<u64>, p: spec_fn(u64) -> bool)
    requires
        a.to_multiset() == b.to_multiset(),
    ensures
        count_where(a, p) == count_where(b, p),
    decreases a.len(),
{
    broadcast use vstd::seq_lib::group_to_multiset_ensures;
    broadcast use vstd::multiset::group_multiset_axioms;

    if a.len() == 0 {
        assert(b.to_multiset().len() == 0);
        assert(b.len() == 0);
    } else {
        let x = a.last();
        let rest = a.drop_last();
        assert(a =~= rest.push(x));
        vstd::seq_lib::to_multiset_build(rest, x);
        assert(a.to_multiset().count(x) > 0);
        assert(b.to_multiset().count(x) > 0);
        assert(b.contains(x));
        let j = choose|j: int| 0 <= j < b.len() && b[j] == x;
        vstd::seq_lib::to_multiset_remove(b, j);
        assert(rest.to_multiset() =~= b.remove(j).to_multiset());
        lemma_count_reorder(rest, b.remove(j), p);
        lemma_count_remove(b, j, p);
    }
}

/// In an ascending sequence, at most `k` elements are smaller than the
/// element at position `k`, and at least `k + 1` are no larger.
proof fn lemma_sorted_rank(s: Seq<u64>, k: int)
    requires
        sorted_by(s, ascending()),
        0 <= k < s.len(),
    ensures
        count_where(s, |x: u64| x < s[k]) <= k,
        count_where(s, |x: u64| x <= s[k]) >= k + 1,
{
    let v = s[k];
    let lt = |x: u64| x < v;
    let le = |x: u64| x <= v;
    assert(s =~= s.take(k) + s.skip(k));
    lemma_count_add(s.take(k), s.skip(k), lt);
    lemma_count_le_len(s.take(k), lt);
    assert forall|i: int| 0 <= i < s.skip(k).len() implies !lt(#[trigger] s.skip(k)[i]) by {
        if i > 0 {
            assert((ascending())(s[k], s[k + i]));
        }
    }
    lemma_count_none(s.skip(k), lt);
    assert(s =~= s.take(k + 1) + s.skip(k + 1));
    lemma_count_add(s.take(k + 1), s.skip(k + 1), le);
    assert forall|i: int| 0 <= i < s.take(k + 1).len() implies le(#[trigger] s.take(k + 1)[i]) by {
        if i < k {
            assert((ascending())(s[i], s[k]));
        }
    }
    lemma_count_all(s.take(k + 1), le);
}

/// The duration at position `k` of the ranking is a measured duration of
/// rank `k`: at most `k` runs were shorter, more than `k` were no longer.
proof fn lemma_ranked_duration(times: Seq<u64>, k: int)
    requires
        0 <= k < times.len(),
    ensures
        times.contains(sorted_durations(times)[k]),
        count_where(times, |x: u64| x < sorted_durations(times)[k]) <= k,
        count_where(times, |x: u64| x <= sorted_durations(times)[k]) > k,
{
    let s = sorted_durations(times);
    lemma_sorted_durations(times);
    assert(s.contains(s[k]));
    lemma_ranked_is_measured(times, s[k]);
    lemma_sorted_rank(s, k);
    lemma_count_reorder(times, s, |x: u64| x < s[k]);
    lemma_count_reorder(times, s, |x: u64| x <= s[k]);
}

/// Each statistic is the measured duration of its rank among the `n` runs:
/// the minimum has rank 0, the median rank `((n - 1) * 50 + 50) / 100`, the
/// 95th percentile rank `((n - 1) * 95 + 50) / 100` and the maximum rank
/// `n - 1`, where a duration `v` has rank `k` when at most `k` runs were
/// shorter than `v` and more than `k` runs took at most `v`.
pub proof fn lemma_run_stats_ranks(times: Seq<u64>)
    requires
        times.len() >= 1,
    ensures
        times.contains(spec_run_stats(times).min),
        count_where(times, |x: u64| x < spec_run_stats(times).min) == 0,
        times.contains(spec_run_stats(times).p50),
        count_where(times, |x: u64| x < spec_run_stats(times).p50) <= ((times.len() - 1) * 50
            + 50) / 100,
        count_where(times, |x: u64| x <= spec_run_stats(times).p50) > ((times.len() - 1) * 50
            + 50) / 100,
        times.contains(spec_run_stats(times).p95),
        count_where(times, |x: u64| x < spec_run_stats(times).p95) <= ((times.len() - 1) * 95
            + 50) / 100,
        count_where(times, |x: u64| x <= spec_run_stats(times).p95) > ((times.len() - 1) * 95
            + 50) / 100,
        times.contains(spec_run_stats(times).max),
        count_where(times, |x: u64| x <= spec_run_stats(times).max) == times.len(),
{
    let n = times.len();
    lemma_percentile_index_bounds(n, 50, 95);
    lemma_percentile_index_bounds(n, 95, 100);
    lemma_ranked_duration(times, 0);
    lemma_ranked_duration(times, spec_percentile_index(n, 50) as int);
    lemma_ranked_duration(times, spec_percentile_index(n, 95) as int);
    lemma_ranked_duration(times, n - 1);
    lemma_count_le_len(times, |x: u64| x <= spec_run_stats(times).max);
}

/// Minimum, median, 95th percentile and maximum of the measured runs.
pub fn summarize_runs(times: &Vec<u64>) -> (stats: RunStats)
    requires
        times.len() >= 1,
    ensures
        stats == spec_run_stats(times@),
        times@.contains(stats.p50),
        count_where(times@, |x: u64| x < stats.p50) <= ((times.len() - 1) * 50 + 50) / 100,
        count_where(times@, |x: u64| x <= stats.p50) > ((times.len() - 1) * 50 + 50) / 100,
        times@.contains(stats.p95),
        count_where(times@, |x: u64| x < stats.p95) <= ((times.len() - 1) * 95 + 50) / 100,
        count_where(times@, |x: u64| x <= stats.p95) > ((times.len() - 1) * 95 + 50) / 100,
{
    let sorted = sort_durations(times);
    proof {
        lemma_sorted_durations(times@);
        lemma_run_stats_ranks(times@);
    }
    let n = sorted.len();
    let i50 = percentile_index(n, 50);
    let i95 = percentile_index(n, 95);
    RunStats { min: sorted[0], p50: sorted[i50], p95: sorted[i95], max: sorted[n - 1] }
}

/// The four statistics are ordered: minimum, median, 95th percentile, maximum.
pub proof fn lemma_run_stats_ordered(times: Seq<u64>)
    requires
        times.len() >= 1,
    ensures
        spec_run_stats(times).min <= spec_run_stats(times).p50,
        spec_run_stats(times).p50 <= spec_run_stats(times).p95,
        spec_run_stats(times).p95 <= spec_run_stats(times).max,
{
    let n = times.len();
    let s = sorted_durations(times);
    lemma_sorted_durations(times);
    lemma_percentile_index_bounds(n, 0, 50);
    lemma_percentile_index_bounds(n, 50, 95);
    lemma_percentile_index_bounds(n, 95, 100);
    let i50 = spec_percentile_index(n, 50) as int;
    let i95 = spec_percentile_index(n, 95) as int;
    if 0 < i50 {
        assert((ascending())(s[0], s[i50]));
    }
    if i50 < i95 {
        assert((ascending())(s[i50], s[i95]));
    }
    if i95 < n - 1 {
        assert((ascending())(s[i95], s[n - 1]));
    }
}

proof fn lemma_ranked_is_measured(times: Seq<u64>, v: u64)
    requires
        sorted_durations(times).contains(v),
    ensures
        times.contains(v),
{
    broadcast use vstd::seq_lib::group_to_multiset_ensures;

    lemma_sorted_durations(times);
    assert(sorted_durations(times).to_multiset().count(v) > 0);
    assert(times.to_multiset().count(v) > 0);
}

/// Every statistic is one of the measured durations, the minimum is no larger
/// and the maximum no smaller than any of them.
pub proof fn lemma_run_stats_observed(times: Seq<u64>)
    requires
        times.len() >= 1,
    ensures
        times.contains(spec_run_stats(times).min),
        times.contains(spec_run_stats(times).p50),
        times.contains(spec_run_stats(times).p95),
        times.contains(spec_run_stats(times).max),
        forall|i: int|
            0 <= i < times.len() ==> spec_run_stats(times).min <= #[trigger] times[i]
                <= spec_run_stats(times).max,
{
    broadcast use vstd::seq_lib::group_to_multiset_ensures;

    let n = times.len();
    let s = sorted_durations(times);
    let st = spec_run_stats(times);
    lemma_sorted_durations(times);
    lemma_percentile_index_bounds(n, 50, 95);
    lemma_percentile_index_bounds(n, 95, 100);
    assert(s.contains(st.min));
    assert(s.contains(st.p50));
    assert(s.contains(st.p95));
    assert(s.contains(st.max));
    lemma_ranked_is_measured(times, st.min);
    lemma_ranked_is_measured(times, st.p50);
    lemma_ranked_is_measured(times, st.p95);
    lemma_ranked_is_measured(times, st.max);
    assert forall|i: int| 0 <= i < times.len() implies st.min <= #[trigger] times[i] <= st.max by {
        assert(times.contains(times[i]));
        assert(s.to_multiset().count(times[i]) > 0);
        assert(s.contains(times[i]));
        let k = choose|k: int| 0 <= k < s.len() && s[k] == times[i];
        if 0 < k {
            assert((ascending())(s[0], s[k]));
        }
        if k < n - 1 {
            assert((ascending())(s[k], s[n - 1]));
        }
    }
}

/// The statistics depend only on which durations were measured, not on the
/// order in which the runs happened.
pub proof fn lemma_run_stats_order_independent(a: Seq<u64>, b: Seq<u64>)
    requires
        a.to_multiset() == b.to_multiset(),
        a.len() >= 1,
    ensures
        spec_run_stats(a) == spec_run_stats(b),
{
    lemma_sorted_durations(a);
    lemma_sorted_durations(b);
    lemma_ascending_total();
    vstd::seq_lib::to_multiset_len(a);
    vstd::seq_lib::to_multiset_len(b);
    vstd::seq_lib::lemma_sorted_unique(sorted_durations(a), sorted_durations(b), ascending());
}

/// Which kind of bench run a report describes.
#[derive(Clone, Copy, Debug, PartialEq, Eq)]
pub enum ReportKind {
    /// The program was only executed: cycles were counted, nothing was proved.
    ExecuteOnly,
    /// The program was proved with the STARK-only core prover.
    StarkProved,
}

/// What one bench invocation reports. Durations are in nanoseconds.
pub struct RunReport {
    pub kind: ReportKind,
    pub runs: u32,
    pub cycles: u64,
    pub stats: RunStats,
    pub prove_nanos_each: Vec<u64>,
    pub elf_bytes: usize,
}

/// The report of a run that only executed the program: one run, the cycle
/// count, and no proving times.
pub fn execute_only_report(cycles: u64, elf_bytes: usize) -> (report: RunReport)
    ensures
        report.kind == ReportKind::ExecuteOnly,
        report.runs == 1,
        report.cycles == cycles,
        report.stats == (RunStats { min: 0, p50: 0, p95: 0, max: 0 }),
        report.prove_nanos_each@ == Seq::<u64>::empty(),
        report.elf_bytes == elf_bytes,
{
    RunReport {
        kind: ReportKind::ExecuteOnly,
        runs: 1,
        cycles,
        stats: RunStats { min: 0, p50: 0, p95: 0, max: 0 },
        prove_nanos_each: Vec::new(),
        elf_bytes,
    }
}

/// The report of `runs` proving runs whose durations, in the order they ran,
/// are `times`.
pub fn proving_report(runs: u32, cycles: u64, times: Vec<u64>, elf_bytes: usize) -> (report:
    RunReport)
    requires
        times.len() >= 1,
    ensures
        report.kind == ReportKind::StarkProved,
        report.runs == runs,
        report.cycles == cycles,
        report.stats == spec_run_stats(times@),
        times@.contains(report.stats.p50),
        count_where(times@, |x: u64| x < report.stats.p50) <= ((times.len() - 1) * 50 + 50) / 100,
        count_where(times@, |x: u64| x <= report.stats.p50) > ((times.len() - 1) * 50 + 50) / 100,
        times@.contains(report.stats.p95),
        count_where(times@, |x: u64| x < report.stats.p95) <= ((times.len() - 1) * 95 + 50) / 100,
        count_where(times@, |x: u64| x <= report.stats.p95) > ((times.len() - 1) * 95 + 50) / 100,
        report.prove_nanos_each@ == times@,
        report.elf_bytes == elf_bytes,
{
    let stats = summarize_runs(&times);
    RunReport { kind: ReportKind::StarkProved, runs, cycles, stats, prove_nanos_each: times, elf_bytes }
}

} // verus!
