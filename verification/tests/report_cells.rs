use pq_sig_bench::report::{
    any_verify_cycles, baseline_verify_ns, csv_op, cycles_line, decimal_string, duration_unit,
    find_scheme, fmt_iters, same_text, scheme_label, DurationUnit,
};
use pq_sig_bench::timing::cycles::{desc, rdpmc_capable, read, PmcRead, PmcSnapshot, CYCLES_DESC};
use pq_sig_bench::timing::cycle_counter_desc;
use pq_sig_bench::{sign_msg, Meta, Row, Timing, MSG};

fn timing(median: u64, iters: usize, cyc: Option<u64>) -> Timing {
    Timing { ns_median: median, ns_p10: median - 1, ns_p90: median + 1, cyc_median: cyc, iters }
}

fn row(scheme: &'static str, verify_ns: u64, cyc: Option<u64>) -> Row {
    Row {
        meta: Meta { scheme, name: "impl" },
        pk_len: 1952,
        sig_len: 3309,
        sk_len: Some(32),
        keygen: Some(timing(25_500, 1000, None)),
        sign: None,
        verify: timing(verify_ns, 1000, cyc),
    }
}

#[test]
fn onchain_bytes_is_public_key_plus_signature() {
    assert_eq!(row("ML-DSA-65", 1, None).onchain_bytes(), 5261);
}

#[test]
fn sign_messages_extend_msg_with_the_counter() {
    let m1 = sign_msg(1);
    let m2 = sign_msg(2);
    assert_eq!(m1.len(), MSG.len() + 8);
    assert_eq!(&m1[..MSG.len()], MSG.as_bytes());
    assert_eq!(&m1[MSG.len()..], &1u64.to_le_bytes());
    assert_ne!(m1, m2);
    assert_ne!(sign_msg(0), sign_msg(1 << 56));
}

#[test]
fn decimal_text() {
    assert_eq!(decimal_string(0), "0");
    assert_eq!(decimal_string(7), "7");
    assert_eq!(decimal_string(10), "10");
    assert_eq!(decimal_string(1234567890), "1234567890");
    assert_eq!(decimal_string(u64::MAX), u64::MAX.to_string());
}

#[test]
fn iterations_cell() {
    let t = timing(10, 1000, None);
    let s = timing(10, 125, None);
    assert_eq!(fmt_iters(Some(t), Some(s), t), "1000/125/1000");
    assert_eq!(fmt_iters(None, None, s), "-/-/125");
}

#[test]
fn csv_fragment() {
    assert_eq!(csv_op(Some(timing(23_100, 1000, None))), "23100,23099,23101,1000");
    assert_eq!(csv_op(None), ",,,");
}

#[test]
fn pick_is_flagged() {
    assert_eq!(scheme_label("ML-DSA-65"), "**ML-DSA-65** (our pick)");
    assert_eq!(scheme_label("ML-DSA-87"), "ML-DSA-87");
    assert_eq!(scheme_label(""), "");
}

#[test]
fn text_comparison() {
    assert!(same_text("Ed25519", "Ed25519"));
    assert!(!same_text("Ed25519", "Ed2551"));
    assert!(!same_text("µs", "us"));
    assert!(same_text("", ""));
}

#[test]
fn rows_are_found_by_scheme() {
    let rows = vec![
        row("Ed25519", 27_900, None),
        row("ML-DSA-65", 23_100, None),
        row("ML-DSA-65", 1, None),
    ];
    assert_eq!(find_scheme(&rows, "ML-DSA-65"), Some(1));
    assert_eq!(find_scheme(&rows, "FN-DSA-512"), None);
    assert_eq!(baseline_verify_ns(&rows), Some(27_900));
    let no_baseline = vec![row("ML-DSA-65", 23_100, None)];
    assert_eq!(baseline_verify_ns(&no_baseline), None);
}

#[test]
fn cycles_table_only_with_cycles() {
    let without = vec![row("Ed25519", 1, None), row("ML-DSA-65", 2, None)];
    let with = vec![row("Ed25519", 1, None), row("ML-DSA-65", 2, Some(77))];
    assert!(!any_verify_cycles(&without));
    assert!(any_verify_cycles(&with));
    assert!(!any_verify_cycles(&vec![]));
}

#[test]
fn duration_units() {
    assert!(duration_unit(999) == DurationUnit::Nanoseconds);
    assert!(duration_unit(1_000) == DurationUnit::Microseconds);
    assert!(duration_unit(999_999) == DurationUnit::Microseconds);
    assert!(duration_unit(1_000_000) == DurationUnit::Milliseconds);
    assert!(duration_unit(1_000_000_000) == DurationUnit::Seconds);
}

#[test]
fn cycle_counter_lines() {
    assert_eq!(desc(true), Some(CYCLES_DESC));
    assert_eq!(desc(false), None);
    assert_eq!(cycle_counter_desc(false), None);
    assert_eq!(cycles_line(Some("rdpmc"), false), "rdpmc");
    assert_eq!(
        cycles_line(None, true),
        "none - Apple Silicon has no user-space cycle counter; wall clock only (on x86_64 Linux this report reads rdpmc CPU_CYCLES)"
    );
    assert_eq!(
        cycles_line(None, false),
        "none on this platform; wall clock only (on x86_64 Linux this report reads rdpmc CPU_CYCLES)"
    );
}

#[test]
fn pmc_reads() {
    let base = PmcSnapshot { lock_before: 4, index: 2, offset: 100, pmc_width: 48, raw: 5, lock_after: 4 };
    assert!(read(&base) == PmcRead::Count(105));
    assert!(read(&PmcSnapshot { lock_after: 6, ..base }) == PmcRead::Raced);
    assert!(read(&PmcSnapshot { index: 0, ..base }) == PmcRead::Unscheduled);
    // A 48-bit counter with its top bit set is negative.
    let neg = PmcSnapshot { raw: (1u64 << 48) - 1, offset: 10, ..base };
    assert!(read(&neg) == PmcRead::Count(9));
    let wide = PmcSnapshot { raw: u64::MAX, offset: 0, pmc_width: 64, ..base };
    assert!(read(&wide) == PmcRead::Count(u64::MAX));
}

#[test]
fn tampered_message_differs_from_the_signed_one() {
    assert_ne!(MSG.as_bytes(), pq_sig_bench::TAMPERED.as_bytes());
}

#[test]
fn rdpmc_capability_is_bit_two() {
    assert!(rdpmc_capable(0b100));
    assert!(rdpmc_capable(u64::MAX));
    assert!(!rdpmc_capable(0b011));
    assert!(!rdpmc_capable(0));
}
