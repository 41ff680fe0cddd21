//! Adaptive-iteration median timer.
//!
//! Each operation is timed alone: a few untimed warmup calls, one probe call
//! whose duration sizes the sample, then the timed sample. The reported number
//! is the nearest-rank median of the sample, which is robust to the
//! scheduler and interrupt tail that makes means jump between runs; the 10th
//! and 90th percentiles are kept so the spread stays visible.
//!
//! [`Measurement`] holds the policy's state and decides each next step;
//! [`measure`] drives it with the wall clock and a cycle-counter reader that
//! the caller supplies (the counter is a per-thread perf event on x86_64
//! Linux and absent elsewhere).
pub mod cycles;

use crate::report::{decimal, decimal_string};
use std::time::Instant;
use vstd::prelude::*;
use vstd::relations::{sorted_by, total_ordering};
use vstd::string::StringExecFns;

verus! {

/// An operation whose single-call probe exceeds this many nanoseconds gets
/// fewer than `target_iters` iterations.
pub const SLOW_OP_NS: u64 = 1_000_000;

/// Rough wall-time cap, in nanoseconds, for one measurement of a slow
/// operation: iterations = budget / probe, clamped to
/// `MIN_ITERS..=target_iters`.
pub const OP_TIME_BUDGET_NS: u64 = 1_000_000_000;

/// Sample-count floor, so a median still means something for operations that
/// take hundreds of milliseconds.
pub const MIN_ITERS: usize = 30;

/// Per-run measurement policy, shared by every measured operation.
#[derive(Clone, Copy)]
pub struct Budget {
    /// Untimed iterations before the probe.
    pub warmup: usize,
    /// Sample count for operations at or under [`SLOW_OP_NS`] per call.
    pub target_iters: usize,
}

impl Default for Budget {
    /// Two warmup calls, then a thousand timed iterations.
    fn default() -> (b: Budget)
        ensures
            b.warmup == 2,
            b.target_iters == 1000,
    {
        Budget { warmup: 2, target_iters: 1000 }
    }
}

/// Result of timing one operation.
#[derive(Clone, Copy)]
pub struct Timing {
    /// Nearest-rank median of the wall-clock samples, in nanoseconds.
    pub ns_median: u64,
    /// 10th percentile of the same sample.
    pub ns_p10: u64,
    /// 90th percentile of the same sample.
    pub ns_p90: u64,
    /// Median of the cycle-count deltas, when the cycle counter was live.
    pub cyc_median: Option<u64>,
    /// Iterations actually sampled.
    pub iters: usize,
}

/// A budget that the timer accepts: its target is at least the floor, so the
/// clamp in [`sample_count`] is well formed, and small enough that the
/// percentile index arithmetic cannot overflow.
pub open spec fn budget_ok(b: Budget) -> bool {
    MIN_ITERS <= b.target_iters <= usize::MAX / 100
}

/// `v` clamped to `lo..=hi`.
pub open spec fn clamp_spec(v: int, lo: int, hi: int) -> int {
    if v < lo {
        lo
    } else if v > hi {
        hi
    } else {
        v
    }
}

/// The sample size planned for an operation whose probe call took
/// `probe_ns` nanoseconds.
pub open spec fn planned_iters(probe_ns: u64, target: usize) -> int {
    if probe_ns <= SLOW_OP_NS {
        target as int
    } else {
        clamp_spec((OP_TIME_BUDGET_NS / probe_ns) as int, MIN_ITERS as int, target as int)
    }
}

/// How many timed iterations an operation gets, given its probe duration.
/// Fast operations get the full target; slow ones get the time budget divided
/// by the probe, floored at [`MIN_ITERS`] and capped at the target.
pub fn sample_count(probe_ns: u64, b: &Budget) -> (n: usize)
    requires
        MIN_ITERS <= b.target_iters,
    ensures
        n == planned_iters(probe_ns, b.target_iters),
        MIN_ITERS <= n <= b.target_iters,
{
    if probe_ns <= SLOW_OP_NS {
        b.target_iters
    } else {
        let q: u64 = OP_TIME_BUDGET_NS / probe_ns;
        assert(q < 1000) by (nonlinear_arith)
            requires
                q == OP_TIME_BUDGET_NS / probe_ns,
                probe_ns > SLOW_OP_NS,
        {
        }
        let q: usize = q as usize;
        if q < MIN_ITERS {
            MIN_ITERS
        } else if q > b.target_iters {
            b.target_iters
        } else {
            q
        }
    }
}

/// The order in which samples are ranked.
pub open spec fn ascending() -> spec_fn(u64, u64) -> bool {
    |a: u64, b: u64| a <= b
}

/// The samples in ascending order.
pub open spec fn sorted_samples(s: Seq<u64>) -> Seq<u64> {
    s.sort_by(ascending())
}

/// Index of the `p`-th percentile in a sorted sample of length `len`
/// (nearest rank, rounded down).
pub open spec fn rank_index(len: nat, p: nat) -> int {
    ((len - 1) * p) / 100
}

/// The nearest-rank `p`-th percentile of the sample `s`.
pub open spec fn nearest_rank(s: Seq<u64>, p: nat) -> u64 {
    sorted_samples(s)[rank_index(s.len(), p)]
}

/// What a finished measurement reports for the wall-clock samples `ns`, the
/// cycle deltas `cy`, and the planned sample size `iters`.
pub open spec fn summary(ns: Seq<u64>, cy: Seq<u64>, iters: usize) -> Timing {
    Timing {
        ns_median: nearest_rank(ns, 50),
        ns_p10: nearest_rank(ns, 10),
        ns_p90: nearest_rank(ns, 90),
        cyc_median: if cy.len() == 0 {
            None
        } else {
            Some(nearest_rank(cy, 50))
        },
        iters,
    }
}

proof fn lemma_ascending_total()
    ensures
        total_ordering(ascending()),
{
}

/// The sorted sample is a rearrangement of the sample, in ascending order.
pub proof fn lemma_sorted_samples(s: Seq<u64>)
    ensures
        sorted_by(sorted_samples(s), ascending()),
        sorted_samples(s).to_multiset() == s.to_multiset(),
        sorted_samples(s).len() == s.len(),
{
    lemma_ascending_total();
    s.lemma_sort_by_ensures(ascending());
    broadcast use vstd::seq_lib::group_to_multiset_ensures;

    assert(sorted_samples(s).len() == sorted_samples(s).to_multiset().len());
    assert(s.len() == s.to_multiset().len());
}

/// Sorts the samples in place, ascending; equal samples may trade places.
#[verifier::external_body]
fn sort_unstable_u64(v: &mut Vec<u64>)
    ensures
        sorted_by(final(v)@, ascending()),
        final(v)@.to_multiset() == old(v)@.to_multiset(),
{
    v.sort_unstable();
}

/// Sorts `v`; the result is the sample's ascending arrangement.
fn sort_samples(v: &mut Vec<u64>)
    ensures
        final(v)@ == sorted_samples(old(v)@),
{
    let ghost before = v@;
    sort_unstable_u64(v);
    proof {
        lemma_sorted_samples(before);
        lemma_ascending_total();
        vstd::seq_lib::lemma_sorted_unique(v@, sorted_samples(before), ascending());
    }
}

/// The nearest-rank `p`-th percentile of a sorted, non-empty sample.
fn percentile(sorted: &Vec<u64>, p: usize) -> (r: u64)
    requires
        sorted.len() >= 1,
        p <= 100,
        sorted.len() <= usize::MAX / 100,
    ensures
        r == sorted@[rank_index(sorted@.len(), p as nat)],
{
    let len = sorted.len();
    assert((len - 1) * p <= (len - 1) * 100) by (nonlinear_arith)
        requires
            len >= 1,
            p <= 100,
    {
    }
    assert(((len - 1) * p) / 100 <= len - 1) by (nonlinear_arith)
        requires
            len >= 1,
            p <= 100,
    {
    }
    let idx: usize = (len - 1) * p / 100;
    sorted[idx]
}

/// Summarises a non-empty wall-clock sample and its cycle deltas.
pub fn summarize(ns: Vec<u64>, cy: Vec<u64>, iters: usize) -> (t: Timing)
    requires
        1 <= ns.len() <= usize::MAX / 100,
        cy.len() <= ns.len(),
    ensures
        t == summary(ns@, cy@, iters),
{
    let ghost ns0 = ns@;
    let ghost cy0 = cy@;
    let mut ns = ns;
    let mut cy = cy;
    sort_samples(&mut ns);
    proof {
        lemma_sorted_samples(ns0);
        lemma_sorted_samples(cy0);
    }
    let cyc_median = if cy.len() == 0 {
        None
    } else {
        sort_samples(&mut cy);
        Some(percentile(&cy, 50))
    };
    Timing {
        ns_median: percentile(&ns, 50),
        ns_p10: percentile(&ns, 10),
        ns_p90: percentile(&ns, 90),
        cyc_median,
        iters,
    }
}


/// Slower probes never get more iterations: the planned sample size is
/// non-increasing in the probe duration.
pub proof fn lemma_planned_iters_monotone(p1: u64, p2: u64, target: usize)
    requires
        1 <= p1 <= p2,
        MIN_ITERS <= target,
    ensures
        planned_iters(p2, target) <= planned_iters(p1, target),
{
    if p1 > SLOW_OP_NS {
        vstd::arithmetic::div_mod::lemma_div_is_ordered_by_denominator(
            OP_TIME_BUDGET_NS as int,
            p1 as int,
            p2 as int,
        );
    }
}

/// Every planned sample size lies between the floor and the target.
pub proof fn lemma_planned_iters_bounds(p: u64, target: usize)
    requires
        MIN_ITERS <= target,
    ensures
        MIN_ITERS <= planned_iters(p, target) <= target,
{
}

/// The one-second budget over the one-millisecond threshold makes the policy
/// continuous: whenever the target is at most budget / threshold (a thousand
/// iterations), every probe gets exactly the time budget divided by the
/// probe, clamped to the floor and the target. A probe right at the
/// threshold therefore still gets the full target.
pub proof fn lemma_planned_iters_continuous(p: u64, target: usize)
    requires
        1 <= p,
        MIN_ITERS <= target <= OP_TIME_BUDGET_NS / SLOW_OP_NS,
    ensures
        planned_iters(p, target) == clamp_spec(
            (OP_TIME_BUDGET_NS / p) as int,
            MIN_ITERS as int,
            target as int,
        ),
{
    if p <= SLOW_OP_NS {
        vstd::arithmetic::div_mod::lemma_div_is_ordered_by_denominator(
            OP_TIME_BUDGET_NS as int,
            p as int,
            SLOW_OP_NS as int,
        );
    }
}

/// A slow operation's sample stays within the time budget unless the floor
/// forced more iterations: planned iterations times the probe duration is at
/// most [`OP_TIME_BUDGET_NS`] whenever the count is above the floor.
pub proof fn lemma_slow_op_within_budget(p: u64, target: usize)
    requires
        p > SLOW_OP_NS,
        MIN_ITERS <= target,
        planned_iters(p, target) > MIN_ITERS,
    ensures
        planned_iters(p, target) * p <= OP_TIME_BUDGET_NS,
{
    let b = OP_TIME_BUDGET_NS as int;
    let pi = p as int;
    let q = b / pi;
    let n = planned_iters(p, target);
    assert(n <= q);
    vstd::arithmetic::div_mod::lemma_fundamental_div_mod(b, pi);
    vstd::arithmetic::div_mod::lemma_mod_bound(b, pi);
    assert(n * pi <= b) by (nonlinear_arith)
        requires
            b == pi * q + b % pi,
            b % pi >= 0,
            n <= q,
            pi > 0,
    {
    }
}

/// Clamping leaves a value already in range unchanged, and otherwise moves
/// it to the nearer end: for `lo <= hi`, the result lies in `lo..=hi`, equals
/// `v` when `v` does, `lo` when `v < lo` and `hi` when `v > hi`.
pub proof fn lemma_clamp(v: int, lo: int, hi: int)
    requires
        lo <= hi,
    ensures
        lo <= clamp_spec(v, lo, hi) <= hi,
        lo <= v <= hi ==> clamp_spec(v, lo, hi) == v,
        v < lo ==> clamp_spec(v, lo, hi) == lo,
        v > hi ==> clamp_spec(v, lo, hi) == hi,
{
}

/// What the sample-size policy gives for a probe of `p >= 1` nanoseconds,
/// in terms of the time budget rather than the formula: the count lies
/// between [`MIN_ITERS`] and the target; a probe of at most [`SLOW_OP_NS`]
/// gets the full target; for a slower probe the sample fits in
/// [`OP_TIME_BUDGET_NS`] unless the floor forced it up, and one more
/// iteration would not fit unless the target capped it. So a slow probe
/// whose budget quotient lies in `MIN_ITERS..=target` gets exactly that
/// quotient.
pub proof fn lemma_sample_size_fills_budget(p: u64, target: usize)
    requires
        1 <= p,
        MIN_ITERS <= target,
    ensures
        MIN_ITERS <= planned_iters(p, target) <= target,
        p <= SLOW_OP_NS ==> planned_iters(p, target) == target,
        p > SLOW_OP_NS && planned_iters(p, target) > MIN_ITERS ==> planned_iters(p, target) * p
            <= OP_TIME_BUDGET_NS,
        p > SLOW_OP_NS && planned_iters(p, target) < target ==> (planned_iters(p, target) + 1) * p
            > OP_TIME_BUDGET_NS,
        p > SLOW_OP_NS && MIN_ITERS <= OP_TIME_BUDGET_NS / p <= target ==> planned_iters(p, target)
            == OP_TIME_BUDGET_NS / p,
{
    let n = planned_iters(p, target);
    let b = OP_TIME_BUDGET_NS as int;
    let pi = p as int;
    let q = b / pi;
    lemma_clamp(q, MIN_ITERS as int, target as int);
    if p > SLOW_OP_NS {
        vstd::arithmetic::div_mod::lemma_fundamental_div_mod(b, pi);
        vstd::arithmetic::div_mod::lemma_mod_bound(b, pi);
        if n > MIN_ITERS {
            assert(n <= q);
            assert(n * pi <= b) by (nonlinear_arith)
                requires
                    b == pi * q + b % pi,
                    b % pi >= 0,
                    n <= q,
                    pi > 0,
            {
            }
        }
        if n < target {
            assert(q <= n);
            assert((n + 1) * pi > b) by (nonlinear_arith)
                requires
                    b == pi * q + b % pi,
                    b % pi < pi,
                    q <= n,
                    pi > 0,
            {
            }
        }
    }
}

/// What the timed loop plans for a probe reading `p`: the reading is used as
/// read (a zero reading counts as one nanosecond), so the planned size is
/// the full target for a reading of at most [`SLOW_OP_NS`], and for a
/// slower reading it fits the sample into [`OP_TIME_BUDGET_NS`] at `p`
/// nanoseconds per call (unless the floor forced it up) while one more call
/// would not fit (unless the target capped it).
pub proof fn lemma_probe_reading_sizes_sample(p: u64, target: usize)
    requires
        MIN_ITERS <= target,
    ensures
        MIN_ITERS <= planned_iters(probe_floor(p), target) <= target,
        p <= SLOW_OP_NS ==> planned_iters(probe_floor(p), target) == target,
        p > SLOW_OP_NS && planned_iters(probe_floor(p), target) > MIN_ITERS ==> planned_iters(
            probe_floor(p),
            target,
        ) * p <= OP_TIME_BUDGET_NS,
        p > SLOW_OP_NS && planned_iters(probe_floor(p), target) < target ==> (planned_iters(
            probe_floor(p),
            target,
        ) + 1) * p > OP_TIME_BUDGET_NS,
{
    lemma_sample_size_fills_budget(probe_floor(p), target);
}

/// The reported percentiles of a non-empty sample are samples, and they are
/// ordered: the 10th percentile is at most the median, which is at most the
/// 90th percentile. No sample lies below the 10th percentile's rank.
pub proof fn lemma_summary_ordered(ns: Seq<u64>, cy: Seq<u64>, iters: usize)
    requires
        ns.len() >= 1,
    ensures
        summary(ns, cy, iters).ns_p10 <= summary(ns, cy, iters).ns_median,
        summary(ns, cy, iters).ns_median <= summary(ns, cy, iters).ns_p90,
        ns.contains(summary(ns, cy, iters).ns_p10),
        ns.contains(summary(ns, cy, iters).ns_median),
        ns.contains(summary(ns, cy, iters).ns_p90),
        summary(ns, cy, iters).cyc_median is Some <==> cy.len() > 0,
        cy.len() > 0 ==> cy.contains(summary(ns, cy, iters).cyc_median->0),
{
    lemma_sorted_samples(ns);
    let t = sorted_samples(ns);
    let len = ns.len();
    let i10 = rank_index(len, 10);
    let i50 = rank_index(len, 50);
    let i90 = rank_index(len, 90);
    assert(0 <= i10 <= i50 <= i90 < len) by (nonlinear_arith)
        requires
            len >= 1,
            i10 == ((len - 1) * 10) / 100,
            i50 == ((len - 1) * 50) / 100,
            i90 == ((len - 1) * 90) / 100,
    {
        vstd::arithmetic::div_mod::lemma_div_is_ordered((len - 1) * 10, (len - 1) * 50, 100);
        vstd::arithmetic::div_mod::lemma_div_is_ordered((len - 1) * 50, (len - 1) * 90, 100);
        vstd::arithmetic::div_mod::lemma_div_is_ordered((len - 1) * 90, (len - 1) * 100, 100);
    }
    assert(ascending()(t[i10], t[i50]) || i10 == i50);
    assert(ascending()(t[i50], t[i90]) || i50 == i90);
    lemma_rank_is_sample(ns, 10);
    lemma_rank_is_sample(ns, 50);
    lemma_rank_is_sample(ns, 90);
    if cy.len() > 0 {
        lemma_rank_is_sample(cy, 50);
    }
}

/// Every nearest-rank percentile of a non-empty sample is one of its samples.
pub proof fn lemma_rank_is_sample(s: Seq<u64>, p: nat)
    requires
        s.len() >= 1,
        p <= 100,
    ensures
        s.contains(nearest_rank(s, p)),
{
    lemma_sorted_samples(s);
    let t = sorted_samples(s);
    let len = s.len();
    let i = rank_index(len, p);
    assert(0 <= i < len) by (nonlinear_arith)
        requires
            len >= 1,
            p <= 100,
            i == ((len - 1) * p) / 100,
    {
        vstd::arithmetic::div_mod::lemma_div_is_ordered((len - 1) * p, (len - 1) * 100, 100);
    }
    broadcast use vstd::seq_lib::group_to_multiset_ensures;

    assert(t.contains(t[i]));
    assert(t.to_multiset().count(t[i]) > 0);
    assert(s.to_multiset().count(t[i]) > 0);
}

/// How many samples of `s` lie strictly below `v`.
pub open spec fn count_below(s: Seq<u64>, v: u64) -> nat {
    s.filter(|x: u64| x < v).len()
}

/// How many samples of `s` are at most `v`.
pub open spec fn count_at_most(s: Seq<u64>, v: u64) -> nat {
    s.filter(|x: u64| x <= v).len()
}

/// Filtering a sequence and taking its multiset commute.
proof fn lemma_filter_multiset(s: Seq<u64>, pred: spec_fn(u64) -> bool)
    ensures
        s.filter(pred).to_multiset() == s.to_multiset().filter(pred),
    decreases s.len(),
{
    broadcast use vstd::seq_lib::group_to_multiset_ensures;
    broadcast use vstd::multiset::group_multiset_axioms;

    if s.len() == 0 {
        reveal(Seq::filter);
        assert(s.filter(pred) =~= s);
        assert(s.to_multiset().filter(pred) =~= s.to_multiset());
    } else {
        let init = s.drop_last();
        let e = s.last();
        lemma_filter_multiset(init, pred);
        assert(init.push(e) =~= s);
        init.lemma_filter_push(e, pred);
        assert(s.to_multiset() == init.to_multiset().insert(e));
        if pred(e) {
            assert(s.filter(pred).to_multiset() == init.filter(pred).to_multiset().insert(e));
        }
        assert(s.filter(pred).to_multiset() =~= s.to_multiset().filter(pred));
    }
}

/// Samples with the same multiset have the same number of members
/// satisfying any predicate.
proof fn lemma_filter_len_multiset(s: Seq<u64>, t: Seq<u64>, pred: spec_fn(u64) -> bool)
    requires
        s.to_multiset() == t.to_multiset(),
    ensures
        s.filter(pred).len() == t.filter(pred).len(),
{
    broadcast use vstd::seq_lib::group_to_multiset_ensures;

    lemma_filter_multiset(s, pred);
    lemma_filter_multiset(t, pred);
    assert(s.filter(pred).len() == s.filter(pred).to_multiset().len());
    assert(t.filter(pred).len() == t.filter(pred).to_multiset().len());
}

/// Every member of `s` satisfies `pred`: filtering keeps all of them.
proof fn lemma_filter_all(s: Seq<u64>, pred: spec_fn(u64) -> bool)
    requires
        forall|i: int| 0 <= i < s.len() ==> pred(s[i]),
    ensures
        s.filter(pred).len() == s.len(),
    decreases s.len(),
{
    if s.len() > 0 {
        let init = s.drop_last();
        lemma_filter_all(init, pred);
        assert(init.push(s.last()) =~= s);
        init.lemma_filter_push(s.last(), pred);
    } else {
        reveal(Seq::filter);
    }
}

/// The nearest-rank percentile is a true order statistic of the raw
/// samples, whatever order they were recorded in: fewer than `k + 1` samples
/// lie strictly below it and more than `k` are at most it, where `k` is the
/// percentile's rank index.
pub proof fn lemma_rank_counts(s: Seq<u64>, p: nat)
    requires
        s.len() >= 1,
        p <= 100,
    ensures
        count_below(s, nearest_rank(s, p)) <= rank_index(s.len(), p),
        rank_index(s.len(), p) < count_at_most(s, nearest_rank(s, p)),
{
    lemma_sorted_samples(s);
    let t = sorted_samples(s);
    let len = s.len();
    let k = rank_index(len, p);
    assert(0 <= k < len) by (nonlinear_arith)
        requires
            len >= 1,
            p <= 100,
            k == ((len - 1) * p) / 100,
    {
        vstd::arithmetic::div_mod::lemma_div_is_ordered((len - 1) * p, (len - 1) * 100, 100);
    }
    let v = t[k];
    let below = |x: u64| x < v;
    let at_most = |x: u64| x <= v;
    lemma_filter_len_multiset(s, t, below);
    lemma_filter_len_multiset(s, t, at_most);
    let lo = t.take(k);
    let hi = t.skip(k);
    assert(lo + hi =~= t);
    Seq::filter_distributes_over_add(lo, hi, below);
    assert forall|i: int| 0 <= i < hi.len() implies !below(hi[i]) by {
        assert(ascending()(t[k], t[k + i]) || i == 0);
    }
    assert(hi.all(|x: u64| !below(x)));
    hi.lemma_all_neg_filter_empty(below);
    lo.lemma_filter_len(below);
    let lo2 = t.take(k + 1);
    let hi2 = t.skip(k + 1);
    assert(lo2 + hi2 =~= t);
    Seq::filter_distributes_over_add(lo2, hi2, at_most);
    assert forall|i: int| 0 <= i < lo2.len() implies at_most(lo2[i]) by {
        assert(ascending()(t[i], t[k]) || i == k);
    }
    lemma_filter_all(lo2, at_most);
}

/// The multiplier of the busy-spin's linear congruential generator.
pub const SPIN_MUL: u64 = 6364136223846793005;

/// The increment of the busy-spin's linear congruential generator.
pub const SPIN_INC: u64 = 1442695040888963407;

/// The generator's seed at the start of a CPU ramp.
pub const SPIN_SEED: u64 = 0x9e3779b97f4a7c15;

/// Generator steps per round of the CPU ramp, between two clock readings.
pub const SPIN_ROUND: u64 = 4096;

/// `x` after `n` steps of the generator, wrapping modulo 2^64.
pub open spec fn spin_steps(x: u64, n: nat) -> u64
    decreases n,
{
    if n == 0 {
        x
    } else {
        spin_steps(x, (n - 1) as nat).wrapping_mul(SPIN_MUL).wrapping_add(SPIN_INC)
    }
}

/// One round of the CPU ramp's busy loop: [`SPIN_ROUND`] generator steps.
/// The caller keeps the result observable so the work is not optimised away,
/// and repeats rounds until its deadline passes.
pub fn spin_round(x: u64) -> (y: u64)
    ensures
        y == spin_steps(x, SPIN_ROUND as nat),
{
    let mut y = x;
    for k in 0..SPIN_ROUND
        invariant
            y == spin_steps(x, k as nat),
    {
        y = y.wrapping_mul(SPIN_MUL).wrapping_add(SPIN_INC);
    }
    y
}

/// The operating system the harness runs on, as far as the timer cares.
#[derive(Clone, Copy, PartialEq, Eq, Structural)]
pub enum HostOs {
    Linux,
    MacOs,
    Other,
}

/// What the wall clock is on `os`, for the report's method preamble.
/// `Instant` reads `clock_gettime(CLOCK_MONOTONIC)` on Linux and the mach
/// monotonic clock on macOS.
pub open spec fn clock_desc_text(os: HostOs) -> Seq<char> {
    match os {
        HostOs::Linux => "CLOCK_MONOTONIC (via std::time::Instant)"@,
        HostOs::MacOs => "mach monotonic clock via std::time::Instant (macOS's CLOCK_MONOTONIC equivalent)"@,
        HostOs::Other => "std::time::Instant (monotonic)"@,
    }
}

/// What the wall clock is on `os`.
pub fn clock_desc(os: HostOs) -> (s: &'static str)
    ensures
        s@ == clock_desc_text(os),
{
    match os {
        HostOs::Linux => "CLOCK_MONOTONIC (via std::time::Instant)",
        HostOs::MacOs => "mach monotonic clock via std::time::Instant (macOS's CLOCK_MONOTONIC equivalent)",
        HostOs::Other => "std::time::Instant (monotonic)",
    }
}

/// The CPU the benchmark thread is pinned to on Linux: always a nonzero one,
/// because CPU 0 takes most IRQ traffic on common configurations. That is
/// CPU 1 when the host reports more than one CPU; when it reports a single
/// CPU, or its count cannot be read (`parallelism` is `None`), no nonzero CPU
/// is known to exist and the thread stays unpinned (`None`).
pub fn pin_cpu(parallelism: Option<usize>) -> (cpu: Option<usize>)
    ensures
        cpu == (match parallelism {
            Some(n) => if n > 1 { Some(1usize) } else { None::<usize> },
            None => None::<usize>,
        }),
        cpu matches Some(c) ==> c != 0,
{
    match parallelism {
        Some(n) => if n > 1 {
            Some(1)
        } else {
            None
        },
        None => None,
    }
}

/// The report's account of the Linux pinning attempt: the chosen CPU (if
/// any) and whether `sched_setaffinity` succeeded.
pub open spec fn pin_desc_text(cpu: Option<usize>, pinned: bool) -> Seq<char> {
    match cpu {
        Some(c) => if pinned {
            "sched_setaffinity to CPU "@ + decimal(c as nat)
        } else {
            "UNPINNED - sched_setaffinity to CPU "@ + decimal(c as nat) + " failed"@
        },
        None => "UNPINNED - no nonzero CPU available (CPU 0 takes most IRQ traffic)"@,
    }
}

/// What the Linux pinning attempt did, printed verbatim in the report's
/// method preamble so the preamble never claims a pin the platform did not
/// perform.
pub fn pin_desc(cpu: Option<usize>, pinned: bool) -> (s: String)
    ensures
        s@ == pin_desc_text(cpu, pinned),
{
    match cpu {
        Some(c) => {
            let mut s = if pinned {
                String::from_str("sched_setaffinity to CPU ")
            } else {
                String::from_str("UNPINNED - sched_setaffinity to CPU ")
            };
            let d = decimal_string(c as u64);
            s.append(d.as_str());
            if !pinned {
                s.append(" failed");
            }
            s
        },
        None => String::from_str("UNPINNED - no nonzero CPU available (CPU 0 takes most IRQ traffic)"),
    }
}

/// What the caller of a [`Measurement`] does next.
#[derive(Clone, Copy, PartialEq, Eq, Structural)]
pub enum Step {
    /// Time one call of the operation, with the cycle counter read just
    /// inside the clock readings, and report it with
    /// [`Measurement::record_sample`].
    Sample,
    /// The sample is complete: call [`Measurement::finish`].
    Done,
}

/// A probe reading as the sizing policy sees it: a reading of zero counts
/// as one nanosecond.
pub open spec fn probe_floor(probe_ns: u64) -> u64 {
    if probe_ns == 0 {
        1
    } else {
        probe_ns
    }
}

/// The timed part of one measurement in progress: the sample size fixed by
/// the probe, and the samples recorded so far.
pub struct Measurement {
    budget: Budget,
    planned: usize,
    ns: Vec<u64>,
    cycles: Vec<u64>,
}

impl Measurement {
    /// The policy this measurement follows.
    pub closed spec fn budget(self) -> Budget {
        self.budget
    }

    /// The sample size the probe fixed.
    pub closed spec fn planned(self) -> usize {
        self.planned
    }

    /// Wall-clock samples recorded so far, in nanoseconds.
    pub closed spec fn ns_samples(self) -> Seq<u64> {
        self.ns@
    }

    /// Cycle-count deltas recorded so far.
    pub closed spec fn cycle_samples(self) -> Seq<u64> {
        self.cycles@
    }

    /// The measurement's invariant.
    pub closed spec fn wf(self) -> bool {
        &&& budget_ok(self.budget)
        &&& MIN_ITERS <= self.planned <= self.budget.target_iters
        &&& self.ns@.len() <= self.planned
        &&& self.cycles@.len() <= self.ns@.len()
    }

    /// What the caller must do next: samples until the planned size is
    /// reached.
    pub open spec fn next_step(self) -> Step {
        if self.ns_samples().len() < self.planned() {
            Step::Sample
        } else {
            Step::Done
        }
    }

    /// The calls still to be made before the measurement is done.
    pub open spec fn calls_left(self) -> nat {
        (self.planned() - self.ns_samples().len()) as nat
    }

    /// Starts the timed part of a measurement under the budget `b`, after
    /// the warmups and a probe call that took `probe_ns` nanoseconds; the
    /// probe fixes the sample size.
    pub fn new(b: Budget, probe_ns: u64) -> (m: Measurement)
        requires
            budget_ok(b),
        ensures
            m.wf(),
            m.budget() == b,
            m.planned() == planned_iters(probe_floor(probe_ns), b.target_iters),
            m.ns_samples().len() == 0,
            m.cycle_samples().len() == 0,
    {
        let p: u64 = if probe_ns == 0 { 1 } else { probe_ns };
        let n = sample_count(p, &b);
        Measurement { budget: b, planned: n, ns: Vec::new(), cycles: Vec::new() }
    }

    /// The step the caller takes next.
    pub fn step(&self) -> (s: Step)
        requires
            self.wf(),
        ensures
            s == self.next_step(),
    {
        if self.ns.len() < self.planned {
            Step::Sample
        } else {
            Step::Done
        }
    }

    /// Records one timed call: `elapsed_ns` from the wall clock, and the
    /// cycle counter read before (`c0`) and after (`c1`) the call. The cycle
    /// delta is recorded only when both readings are present; it is taken
    /// modulo 2^64, as the counter wraps.
    pub fn record_sample(&mut self, elapsed_ns: u64, c0: Option<u64>, c1: Option<u64>)
        requires
            old(self).wf(),
            old(self).next_step() == Step::Sample,
        ensures
            final(self).wf(),
            final(self).budget() == old(self).budget(),
            final(self).planned() == old(self).planned(),
            final(self).ns_samples() == old(self).ns_samples().push(elapsed_ns),
            final(self).cycle_samples() == match (c0, c1) {
                (Some(a), Some(b)) => old(self).cycle_samples().push(b.wrapping_sub(a)),
                _ => old(self).cycle_samples(),
            },
            final(self).calls_left() < old(self).calls_left(),
    {
        self.ns.push(elapsed_ns);
        match (c0, c1) {
            (Some(a), Some(b)) => {
                self.cycles.push(b.wrapping_sub(a));
            },
            _ => {},
        }
    }

    /// Summarises the completed sample.
    pub fn finish(self) -> (t: Timing)
        requires
            self.wf(),
            self.next_step() == Step::Done,
        ensures
            self.ns_samples().len() == self.planned(),
            t == summary(self.ns_samples(), self.cycle_samples(), self.planned()),
            t.iters == self.ns_samples().len(),
            MIN_ITERS <= t.iters <= self.budget().target_iters,
    {
        summarize(self.ns, self.cycles, self.planned)
    }
}

#[verifier::external_type_specification]
#[verifier::external_body]
pub struct ExInstant(Instant);

/// `Instant::now`: a reading of the monotonic wall clock. Nothing is claimed
/// of it.
#[verifier::external_body]
fn clock_now() -> (t: Instant) {
    Instant::now()
}

/// Nanoseconds elapsed since `t0` (`Instant::elapsed`, then `as_nanos`),
/// truncated to 64 bits. Nothing is claimed of the reading.
#[verifier::external_body]
fn clock_elapsed_ns(t0: &Instant) -> (ns: u64) {
    t0.elapsed().as_nanos() as u64
}

/// `std::hint::black_box`: hands `x` back unchanged while keeping the
/// optimiser from deleting the work that produced it.
#[verifier::external_body]
fn opaque<T>(x: T) -> (r: T)
    ensures
        r == x,
{
    std::hint::black_box(x)
}

/// What holds of every timing [`measure`] returns under the budget `b`,
/// whatever the clock and the cycle counter read: the sample size is the one
/// planned from some probe reading, and the timing is the summary of that
/// many wall-clock samples and at most as many cycle deltas.
pub open spec fn is_measurement_of(t: Timing, b: Budget) -> bool {
    exists|probe_ns: u64| is_measurement_with_probe(t, b, probe_ns)
}

/// `t` is a timing under the budget `b` whose probe call read `probe_ns`
/// nanoseconds (a zero reading counts as one): its sample size is the one
/// planned from that probe, and it is the summary of that many wall-clock
/// samples and at most as many cycle deltas.
pub open spec fn is_measurement_with_probe(t: Timing, b: Budget, probe_ns: u64) -> bool {
    &&& probe_ns >= 1
    &&& t.iters == planned_iters(probe_ns, b.target_iters)
    &&& exists|ns: Seq<u64>, cy: Seq<u64>|
        ns.len() == t.iters && cy.len() <= ns.len() && t == summary(ns, cy, t.iters)
}

/// Across any two timings under the same budget whose probe calls read
/// `p1 <= p2` nanoseconds (two calls of [`measure_with_probe`], say), the
/// sample count never grows as the operation gets slower: the one whose probe
/// read less gets at least as many iterations. Every timing whose probe read
/// at most [`SLOW_OP_NS`] gets exactly the target, and none gets fewer than
/// [`MIN_ITERS`] or more than the target.
pub proof fn lemma_measurements_monotone(t1: Timing, t2: Timing, b: Budget, p1: u64, p2: u64)
    requires
        MIN_ITERS <= b.target_iters,
        is_measurement_with_probe(t1, b, probe_floor(p1)),
        is_measurement_with_probe(t2, b, probe_floor(p2)),
        p1 <= p2,
    ensures
        t1.iters >= t2.iters,
        p1 <= SLOW_OP_NS ==> t1.iters == b.target_iters,
        MIN_ITERS <= t1.iters <= b.target_iters,
{
    lemma_planned_iters_monotone(probe_floor(p1), probe_floor(p2), b.target_iters);
    lemma_planned_iters_bounds(probe_floor(p1), b.target_iters);
}

/// The timed loop of [`measure`], after the warmups and a probe call that
/// took `probe_ns` nanoseconds: the probe sizes the sample ([`planned_iters`]
/// of [`probe_floor`]), and each timed call reads the cycle counter `cycles`
/// just inside the clock readings, so the cycle window never includes the
/// clock calls. Every result of `f` is kept observable so the optimiser
/// cannot delete the work.
pub fn measure_with_probe<T, F: FnMut() -> T, C: Fn() -> Option<u64>>(
    f: F,
    cycles: C,
    b: &Budget,
    probe_ns: u64,
) -> (t: Timing)
    requires
        budget_ok(*b),
        forall|| call_requires(f, ()),
        forall|| call_requires(cycles, ()),
    ensures
        is_measurement_with_probe(t, *b, probe_floor(probe_ns)),
        MIN_ITERS <= t.iters <= b.target_iters,
{
    let mut f = f;
    let mut m = Measurement::new(*b, probe_ns);
    loop
        invariant
            m.wf(),
            m.budget() == *b,
            m.planned() == planned_iters(probe_floor(probe_ns), b.target_iters),
            forall|| call_requires(f, ()),
            forall|| call_requires(cycles, ()),
        decreases m.calls_left(),
    {
        match m.step() {
            Step::Sample => {
                let t0 = clock_now();
                let c0 = cycles();
                opaque(f());
                let c1 = cycles();
                let elapsed = clock_elapsed_ns(&t0);
                m.record_sample(elapsed, c0, c1);
            },
            Step::Done => {
                let ghost ns = m.ns_samples();
                let ghost cy = m.cycle_samples();
                let t = m.finish();
                assert(ns.len() == t.iters && cy.len() <= ns.len() && t == summary(
                    ns,
                    cy,
                    t.iters,
                ));
                return t;
            },
        }
    }
}

/// Times `f`: `b.warmup` untimed calls, then a one-call probe that sizes the
/// sample, then the timed loop of [`measure_with_probe`]. Fast operations
/// (probe at most [`SLOW_OP_NS`]) get the full `b.target_iters`; slow ones
/// get [`OP_TIME_BUDGET_NS`] / probe, floored at [`MIN_ITERS`], so one
/// measurement costs bounded time.
pub fn measure<T, F: FnMut() -> T, C: Fn() -> Option<u64>>(f: F, cycles: C, b: &Budget) -> (t:
    Timing)
    requires
        budget_ok(*b),
        forall|| call_requires(f, ()),
        forall|| call_requires(cycles, ()),
    ensures
        MIN_ITERS <= t.iters <= b.target_iters,
        is_measurement_of(t, *b),
{
    let mut f = f;
    let warmup = b.warmup;
    for _i in 0..warmup
        invariant
            forall|| call_requires(f, ()),
    {
        opaque(f());
    }
    let t0 = clock_now();
    opaque(f());
    let elapsed = clock_elapsed_ns(&t0);
    let t = measure_with_probe(f, cycles, b, elapsed);
    assert(is_measurement_with_probe(t, *b, probe_floor(elapsed)));
    t
}


/// The report's description of the cycle counter, given whether it opened
/// on this thread.
pub fn cycle_counter_desc(live: bool) -> (d: Option<&'static str>)
    ensures
        d == (if live { Some(cycles::CYCLES_DESC) } else { None::<&'static str> }),
{
    cycles::desc(live)
}

} // verus!
