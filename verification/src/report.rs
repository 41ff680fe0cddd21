//! The report's figures: which rows anchor the comparison, how rows are
//! labelled, and the integer cells of the tables and the CSV.
use crate::{Row, Timing};
use vstd::prelude::*;
use vstd::string::{StringExecFns, StringSliceAdditionalSpecFns};

verus! {

broadcast use vstd::string::group_string_axioms;

/// The scheme of the row the report flags as its pick.
pub const PICK_SCHEME: &'static str = "ML-DSA-65";

/// The scheme of the baseline row: the verify-cost ratios are relative to
/// its verification time.
pub const BASELINE_SCHEME: &'static str = "Ed25519";

/// Whether two strings hold the same text, compared byte by byte.
pub fn same_text(a: &str, b: &str) -> (r: bool)
    ensures
        r == (a@ == b@),
{
    let x = a.as_bytes();
    let y = b.as_bytes();
    proof {
        vstd::utf8::encode_utf8_decode_utf8(a@);
        vstd::utf8::encode_utf8_decode_utf8(b@);
    }
    if x.len() != y.len() {
        return false;
    }
    let n = x.len();
    for i in 0..n
        invariant
            n == x@.len(),
            n == y@.len(),
            x@ == a.spec_bytes(),
            y@ == b.spec_bytes(),
            forall|j: int| 0 <= j < i ==> x@[j] == y@[j],
    {
        if x[i] != y[i] {
            return false;
        }
    }
    assert(x@ == y@);
    true
}

/// The index of the first row whose scheme is `scheme`.
pub open spec fn first_with_scheme(rows: Seq<Row>, scheme: Seq<char>) -> Option<int> {
    if exists|i: int| 0 <= i < rows.len() && rows[i].meta.scheme@ == scheme {
        Some(
            choose|i: int|
                0 <= i < rows.len() && rows[i].meta.scheme@ == scheme && forall|j: int|
                    0 <= j < i ==> rows[j].meta.scheme@ != scheme,
        )
    } else {
        None
    }
}

/// Finds the first row whose scheme is `scheme`.
pub fn find_scheme(rows: &Vec<Row>, scheme: &str) -> (r: Option<usize>)
    ensures
        match r {
            Some(i) => {
                &&& i < rows@.len()
                &&& rows@[i as int].meta.scheme@ == scheme@
                &&& forall|j: int| 0 <= j < i ==> rows@[j].meta.scheme@ != scheme@
            },
            None => forall|j: int| 0 <= j < rows@.len() ==> rows@[j].meta.scheme@ != scheme@,
        },
{
    let n = rows.len();
    for i in 0..n
        invariant
            n == rows@.len(),
            forall|j: int| 0 <= j < i ==> rows@[j].meta.scheme@ != scheme@,
    {
        if same_text(rows[i].meta.scheme, scheme) {
            return Some(i);
        }
    }
    None
}

/// The baseline's median verification time, when the baseline row is among
/// `rows` (the first such row counts).
pub fn baseline_verify_ns(rows: &Vec<Row>) -> (r: Option<u64>)
    ensures
        match r {
            Some(ns) => exists|i: int|
                0 <= i < rows@.len() && rows@[i].meta.scheme@ == BASELINE_SCHEME@
                    && rows@[i].verify.ns_median == ns && forall|j: int|
                    0 <= j < i ==> rows@[j].meta.scheme@ != BASELINE_SCHEME@,
            None => forall|j: int|
                0 <= j < rows@.len() ==> rows@[j].meta.scheme@ != BASELINE_SCHEME@,
        },
{
    match find_scheme(rows, BASELINE_SCHEME) {
        Some(i) => Some(rows[i].verify.ns_median),
        None => None,
    }
}

/// Whether any row's verification recorded a cycle count; the report's
/// cycles table is printed only then.
pub fn any_verify_cycles(rows: &Vec<Row>) -> (r: bool)
    ensures
        r == exists|i: int| 0 <= i < rows@.len() && rows@[i].verify.cyc_median is Some,
{
    let n = rows.len();
    for i in 0..n
        invariant
            n == rows@.len(),
            forall|j: int| 0 <= j < i ==> rows@[j].verify.cyc_median is None,
    {
        if rows[i].verify.cyc_median.is_some() {
            return true;
        }
    }
    false
}

/// The label of a row's scheme in the report: the pick is flagged.
pub open spec fn scheme_label_text(scheme: Seq<char>) -> Seq<char> {
    if scheme == PICK_SCHEME@ {
        "**ML-DSA-65** (our pick)"@
    } else {
        scheme
    }
}

/// Only the ML-DSA-65 row is flagged: the label of every other scheme is
/// that scheme's own text, and the label of "ML-DSA-65" is the flagged pick.
pub proof fn lemma_only_the_pick_is_flagged(scheme: Seq<char>)
    ensures
        scheme != "ML-DSA-65"@ ==> scheme_label_text(scheme) == scheme,
        scheme_label_text("ML-DSA-65"@) == "**ML-DSA-65** (our pick)"@,
{
}

/// The label of a row's scheme in the report.
pub fn scheme_label(scheme: &str) -> (s: String)
    ensures
        s@ == scheme_label_text(scheme@),
{
    if same_text(scheme, PICK_SCHEME) {
        String::from_str("**ML-DSA-65** (our pick)")
    } else {
        String::from_str(scheme)
    }
}

/// The character of the decimal digit `d`.
pub open spec fn digit_char(d: nat) -> char {
    (48 + d) as char
}

/// The decimal text of `n`, without leading zeros.
pub open spec fn decimal(n: nat) -> Seq<char>
    decreases n,
{
    if n < 10 {
        seq![digit_char(n)]
    } else {
        decimal(n / 10).push(digit_char(n % 10))
    }
}

/// The text of the decimal digit `d`.
fn digit_text(d: u64) -> (s: &'static str)
    requires
        d < 10,
    ensures
        s@ == seq![digit_char(d as nat)],
{
    proof {
        reveal_strlit("0");
        reveal_strlit("1");
        reveal_strlit("2");
        reveal_strlit("3");
        reveal_strlit("4");
        reveal_strlit("5");
        reveal_strlit("6");
        reveal_strlit("7");
        reveal_strlit("8");
        reveal_strlit("9");
    }
    if d == 0 {
        "0"
    } else if d == 1 {
        "1"
    } else if d == 2 {
        "2"
    } else if d == 3 {
        "3"
    } else if d == 4 {
        "4"
    } else if d == 5 {
        "5"
    } else if d == 6 {
        "6"
    } else if d == 7 {
        "7"
    } else if d == 8 {
        "8"
    } else {
        "9"
    }
}

/// Appends the decimal text of `n` to `s`.
fn push_decimal(s: &mut String, n: u64)
    ensures
        final(s)@ == old(s)@ + decimal(n as nat),
    decreases n,
{
    if n >= 10 {
        push_decimal(s, n / 10);
    }
    s.append(digit_text(n % 10));
    assert(n >= 10 ==> decimal(n as nat) == decimal((n / 10) as nat).push(
        digit_char((n % 10) as nat),
    ));
}

/// The decimal text of `n`.
pub fn decimal_string(n: u64) -> (s: String)
    ensures
        s@ == decimal(n as nat),
{
    let mut s = String::new();
    push_decimal(&mut s, n);
    assert(s@ =~= decimal(n as nat));
    s
}

/// One operation's share of the iterations cell: the count, or "-" when the
/// operation was not measured.
pub open spec fn iters_text(t: Option<Timing>) -> Seq<char> {
    match t {
        Some(t) => decimal(t.iters as nat),
        None => "-"@,
    }
}

/// The iterations cell of a row: the keygen, sign and verify sample counts
/// separated by slashes, e.g. "1000/125/1000".
pub open spec fn iters_cell(keygen: Option<Timing>, sign: Option<Timing>, verify: Timing) -> Seq<
    char,
> {
    iters_text(keygen) + "/"@ + iters_text(sign) + "/"@ + decimal(verify.iters as nat)
}

fn push_iters(s: &mut String, t: Option<Timing>)
    ensures
        final(s)@ == old(s)@ + iters_text(t),
{
    match t {
        Some(t) => push_decimal(s, t.iters as u64),
        None => s.append("-"),
    }
}

/// The keygen/sign/verify iteration counts actually sampled for a row.
pub fn fmt_iters(keygen: Option<Timing>, sign: Option<Timing>, verify: Timing) -> (s: String)
    ensures
        s@ == iters_cell(keygen, sign, verify),
{
    let mut s = String::new();
    push_iters(&mut s, keygen);
    s.append("/");
    push_iters(&mut s, sign);
    s.append("/");
    push_decimal(&mut s, verify.iters as u64);
    assert(s@ =~= iters_cell(keygen, sign, verify));
    s
}

/// The CSV fragment of one operation: median, p10, p90 and iterations, or
/// four empty cells when the operation was not measured.
pub open spec fn csv_op_text(t: Option<Timing>) -> Seq<char> {
    match t {
        Some(t) => decimal(t.ns_median as nat) + ","@ + decimal(t.ns_p10 as nat) + ","@
            + decimal(t.ns_p90 as nat) + ","@ + decimal(t.iters as nat),
        None => ",,,"@,
    }
}

/// The CSV fragment of one operation.
pub fn csv_op(t: Option<Timing>) -> (s: String)
    ensures
        s@ == csv_op_text(t),
{
    let mut s = String::new();
    match t {
        Some(t) => {
            push_decimal(&mut s, t.ns_median);
            s.append(",");
            push_decimal(&mut s, t.ns_p10);
            s.append(",");
            push_decimal(&mut s, t.ns_p90);
            s.append(",");
            push_decimal(&mut s, t.iters as u64);
        },
        None => {
            s.append(",,,");
        },
    }
    assert(s@ =~= csv_op_text(t));
    s
}

/// The unit a duration is shown in.
#[derive(Clone, Copy, PartialEq, Eq, Structural)]
pub enum DurationUnit {
    Seconds,
    Milliseconds,
    Microseconds,
    Nanoseconds,
}

/// The unit a duration of `ns` nanoseconds is shown in: the largest unit of
/// which it is at least one.
pub open spec fn duration_unit_spec(ns: u64) -> DurationUnit {
    if ns >= 1_000_000_000 {
        DurationUnit::Seconds
    } else if ns >= 1_000_000 {
        DurationUnit::Milliseconds
    } else if ns >= 1_000 {
        DurationUnit::Microseconds
    } else {
        DurationUnit::Nanoseconds
    }
}

/// The unit a duration of `ns` nanoseconds is shown in.
pub fn duration_unit(ns: u64) -> (u: DurationUnit)
    ensures
        u == duration_unit_spec(ns),
{
    if ns >= 1_000_000_000 {
        DurationUnit::Seconds
    } else if ns >= 1_000_000 {
        DurationUnit::Milliseconds
    } else if ns >= 1_000 {
        DurationUnit::Microseconds
    } else {
        DurationUnit::Nanoseconds
    }
}


/// The report's cycle-counter line: the live counter's description, or why
/// there is none.
pub open spec fn cycles_line_text(desc: Option<Seq<char>>, apple_silicon: bool) -> Seq<char> {
    match desc {
        Some(d) => d,
        None => if apple_silicon {
            "none - Apple Silicon has no user-space cycle counter; wall clock only (on x86_64 Linux this report reads rdpmc CPU_CYCLES)"@
        } else {
            "none on this platform; wall clock only (on x86_64 Linux this report reads rdpmc CPU_CYCLES)"@
        },
    }
}

/// The report's cycle-counter line, built from what this run actually had:
/// `desc` is the live counter's description, `apple_silicon` whether the
/// host is an Apple Silicon Mac.
pub fn cycles_line(desc: Option<&str>, apple_silicon: bool) -> (s: String)
    ensures
        s@ == cycles_line_text(
            match desc {
                Some(d) => Some(d@),
                None => None,
            },
            apple_silicon,
        ),
{
    match desc {
        Some(d) => String::from_str(d),
        None => if apple_silicon {
            String::from_str(
                "none - Apple Silicon has no user-space cycle counter; wall clock only (on x86_64 Linux this report reads rdpmc CPU_CYCLES)",
            )
        } else {
            String::from_str(
                "none on this platform; wall clock only (on x86_64 Linux this report reads rdpmc CPU_CYCLES)",
            )
        },
    }
}

} // verus!
