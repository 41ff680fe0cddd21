use pq_sig_bench::timing::{
    clock_desc, measure, measure_with_probe, pin_cpu, pin_desc, sample_count, spin_round, summarize, HostOs, Measurement, Step,
    MIN_ITERS, OP_TIME_BUDGET_NS, SLOW_OP_NS, SPIN_INC, SPIN_MUL, SPIN_ROUND, SPIN_SEED,
};
use pq_sig_bench::Budget;

#[test]
fn budget_default_is_two_warmups_and_a_thousand_iterations() {
    let b = Budget::default();
    assert_eq!(b.warmup, 2);
    assert_eq!(b.target_iters, 1000);
}

#[test]
fn fast_probe_gets_the_full_target() {
    let b = Budget::default();
    assert_eq!(sample_count(1, &b), 1000);
    assert_eq!(sample_count(25_000, &b), 1000);
}

#[test]
fn probe_right_at_the_threshold_still_gets_the_full_target() {
    let b = Budget::default();
    assert_eq!(sample_count(SLOW_OP_NS, &b), 1000);
    assert_eq!(sample_count(SLOW_OP_NS + 1, &b), 999);
}

#[test]
fn slow_probe_gets_budget_over_probe() {
    let b = Budget::default();
    assert_eq!(sample_count(10_000_000, &b), 100);
    assert_eq!(sample_count(2_500_000, &b), 400);
}

#[test]
fn very_slow_probe_is_floored() {
    let b = Budget::default();
    assert_eq!(sample_count(800_000_000, &b), MIN_ITERS);
    assert_eq!(sample_count(u64::MAX, &b), MIN_ITERS);
}

#[test]
fn slower_probes_never_get_more_iterations() {
    let b = Budget::default();
    let mut last = usize::MAX;
    let mut p: u64 = 1;
    while p < 10 * OP_TIME_BUDGET_NS {
        let n = sample_count(p, &b);
        assert!(n <= last);
        assert!(n >= MIN_ITERS && n <= b.target_iters);
        last = n;
        p = p * 3 + 7;
    }
}

#[test]
fn slow_sample_stays_within_the_time_budget() {
    let b = Budget::default();
    for p in [1_000_001u64, 3_333_333, 7_000_000, 20_000_000, 33_000_000] {
        let n = sample_count(p, &b);
        if n > MIN_ITERS {
            assert!(n as u64 * p <= OP_TIME_BUDGET_NS);
        }
    }
}

#[test]
fn summarize_takes_nearest_rank_percentiles() {
    let t = summarize(vec![50, 10, 40, 20, 30], vec![], 5);
    assert_eq!(t.ns_p10, 10);
    assert_eq!(t.ns_median, 30);
    assert_eq!(t.ns_p90, 40);
    assert_eq!(t.cyc_median, None);
    assert_eq!(t.iters, 5);
}

#[test]
fn summarize_orders_percentiles_on_a_larger_sample() {
    let ns: Vec<u64> = (0..101u64).rev().map(|x| x * 3).collect();
    let t = summarize(ns, vec![9, 7, 8], 101);
    assert_eq!(t.ns_p10, 30);
    assert_eq!(t.ns_median, 150);
    assert_eq!(t.ns_p90, 270);
    assert!(t.ns_p10 <= t.ns_median && t.ns_median <= t.ns_p90);
    assert_eq!(t.cyc_median, Some(8));
}

#[test]
fn summarize_single_sample() {
    let t = summarize(vec![42], vec![], 1);
    assert_eq!((t.ns_p10, t.ns_median, t.ns_p90), (42, 42, 42));
}

#[test]
fn measurement_samples_the_planned_size() {
    let b = Budget { warmup: 2, target_iters: 40 };
    // 1e9 / 20e6 = 50, capped at the target of 40.
    let mut m = Measurement::new(b, 20_000_000);
    let mut taken: u64 = 0;
    while m.step() == Step::Sample {
        taken += 1;
        m.record_sample(100 + taken, Some(1_000), Some(1_000 + 2 * taken));
    }
    assert!(m.step() == Step::Done);
    assert_eq!(taken, 40);
    let t = m.finish();
    assert_eq!(t.iters, 40);
    assert_eq!(t.ns_median, 100 + 20);
    assert_eq!(t.ns_p10, 100 + 4);
    assert_eq!(t.ns_p90, 100 + 36);
    assert_eq!(t.cyc_median, Some(2 * 20));
}

#[test]
fn measurement_zero_probe_counts_as_fast() {
    let b = Budget { warmup: 0, target_iters: 30 };
    let mut m = Measurement::new(b, 0);
    let mut n = 0;
    while m.step() == Step::Sample {
        m.record_sample(7, None, None);
        n += 1;
    }
    assert_eq!(n, 30);
    let t = m.finish();
    assert_eq!(t.cyc_median, None);
    assert_eq!(t.ns_median, 7);
}

#[test]
fn measurement_slow_probe_is_floored_at_thirty() {
    let b = Budget { warmup: 1, target_iters: 1000 };
    let mut m = Measurement::new(b, 500_000_000);
    let mut n = 0;
    while m.step() == Step::Sample {
        m.record_sample(500_000_000 + n, None, None);
        n += 1;
    }
    assert_eq!(n, 30);
    assert_eq!(m.finish().iters, 30);
}

#[test]
fn cycle_delta_wraps_and_needs_both_readings() {
    let b = Budget { warmup: 0, target_iters: 30 };
    let mut m = Measurement::new(b, 1);
    m.record_sample(1, Some(10), Some(5));
    for _ in 1..30 {
        m.record_sample(1, Some(3), None);
    }
    let t = m.finish();
    assert_eq!(t.cyc_median, Some(u64::MAX - 4));
}

#[test]
fn measure_with_probe_sizes_by_the_given_probe() {
    let b = Budget { warmup: 2, target_iters: 1000 };
    let mut calls = 0u64;
    let fast = measure_with_probe(|| calls += 1, || None, &b, 1_000);
    assert_eq!(fast.iters, 1000);
    assert_eq!(calls, 1000);
    let mut calls = 0u64;
    let slow = measure_with_probe(|| calls += 1, || Some(5), &b, 20_000_000);
    assert_eq!(slow.iters, 50);
    assert_eq!(calls, 50);
    assert_eq!(slow.cyc_median, Some(0));
    let floored = measure_with_probe(|| (), || None, &b, 900_000_000);
    assert_eq!(floored.iters, 30);
}

#[test]
fn slower_probe_never_gets_more_samples() {
    let b = Budget { warmup: 0, target_iters: 1000 };
    let probes = [0u64, 1, 1_000_000, 1_000_001, 2_500_000, 20_000_000, 33_333_334, 1_000_000_000];
    let mut last = usize::MAX;
    for p in probes {
        let t = measure_with_probe(|| (), || None, &b, p);
        assert!(t.iters <= last);
        last = t.iters;
    }
    assert_eq!(last, 30);
}

#[test]
fn spin_round_runs_the_generator() {
    let mut x = SPIN_SEED;
    for _ in 0..SPIN_ROUND {
        x = x.wrapping_mul(SPIN_MUL).wrapping_add(SPIN_INC);
    }
    assert_eq!(spin_round(SPIN_SEED), x);
    assert_ne!(spin_round(SPIN_SEED), SPIN_SEED);
}

#[test]
fn clock_descriptions_per_host() {
    assert_eq!(clock_desc(HostOs::Linux), "CLOCK_MONOTONIC (via std::time::Instant)");
    assert_eq!(
        clock_desc(HostOs::MacOs),
        "mach monotonic clock via std::time::Instant (macOS's CLOCK_MONOTONIC equivalent)"
    );
    assert_eq!(clock_desc(HostOs::Other), "std::time::Instant (monotonic)");
}

#[test]
fn pinning_prefers_a_nonzero_cpu() {
    assert_eq!(pin_cpu(Some(8)), Some(1));
    assert_eq!(pin_cpu(Some(2)), Some(1));
    assert_eq!(pin_cpu(Some(1)), None);
    assert_eq!(pin_cpu(None), None);
    assert_eq!(pin_desc(Some(1), true), "sched_setaffinity to CPU 1");
    assert_eq!(pin_desc(Some(1), false), "UNPINNED - sched_setaffinity to CPU 1 failed");
    assert_eq!(
        pin_desc(None, false),
        "UNPINNED - no nonzero CPU available (CPU 0 takes most IRQ traffic)"
    );
}

#[test]
fn median_is_an_order_statistic_of_the_raw_samples() {
    let raw = vec![3u64, 1, 3, 2, 3, 9, 0];
    let t = summarize(raw.clone(), vec![], 7);
    // rank index (7 - 1) * 50 / 100 = 3
    let below = raw.iter().filter(|&&x| x < t.ns_median).count();
    let at_most = raw.iter().filter(|&&x| x <= t.ns_median).count();
    assert!(below <= 3 && 3 < at_most);
    assert_eq!(t.ns_median, 3);
}

#[test]
fn measure_times_a_fast_operation_with_the_full_target() {
    let b = Budget { warmup: 2, target_iters: 40 };
    let mut calls = 0u32;
    let t = measure(
        || {
            calls += 1;
            calls
        },
        || None,
        &b,
    );
    assert_eq!(t.iters, 40);
    assert_eq!(calls, 2 + 1 + 40);
    assert_eq!(t.cyc_median, None);
    assert!(t.ns_p10 <= t.ns_median && t.ns_median <= t.ns_p90);
}

#[test]
fn measure_records_cycle_deltas_when_the_counter_is_live() {
    let b = Budget { warmup: 0, target_iters: 30 };
    let counter = std::cell::Cell::new(0u64);
    let t = measure(
        || 0u8,
        || {
            counter.set(counter.get() + 5);
            Some(counter.get())
        },
        &b,
    );
    assert_eq!(t.iters, 30);
    assert_eq!(t.cyc_median, Some(5));
}

#[test]
fn measure_gives_a_slow_operation_fewer_iterations() {
    let b = Budget { warmup: 0, target_iters: 1000 };
    let spin = || {
        let t0 = std::time::Instant::now();
        while t0.elapsed() < std::time::Duration::from_millis(3) {}
    };
    let t = measure(spin, || None, &b);
    assert!(t.iters >= MIN_ITERS && t.iters <= 1_000_000_000 / 3_000_000);
    assert!(t.ns_median >= 3_000_000);
}
