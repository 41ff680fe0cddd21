//! Real core cycles from user space (x86_64 Linux): the perf page's
//! seqlock read protocol and the counter arithmetic.
//!
//! The caller opens `perf_event_open(PERF_COUNT_HW_CPU_CYCLES,
//! exclude_kernel)`, maps the perf page and executes `rdpmc`; it hands each
//! pass's readings to [`read`], which decides what they mean. Unlike `rdtsc`
//! this counts actual core cycles, comparable across frequency changes.
use vstd::prelude::*;

verus! {

/// How the report names a live cycle counter.
pub const CYCLES_DESC: &'static str = "rdpmc CPU_CYCLES (perf_event_open, user-space, exclude_kernel)";

/// The report's description of the cycle counter: present only when the
/// counter actually opened on this thread (`live`), so the report never
/// claims a counter that did not run.
pub fn desc(live: bool) -> (d: Option<&'static str>)
    ensures
        d == (if live { Some(CYCLES_DESC) } else { None::<&'static str> }),
{
    if live {
        Some(CYCLES_DESC)
    } else {
        None
    }
}

/// Whether the perf page's `capabilities` word has `cap_user_rdpmc` (bit 2)
/// set: the kernel confirming that user-space `rdpmc` is wired for the event.
/// Without it the instruction would fault, so the counter is not used.
pub fn rdpmc_capable(caps: u64) -> (ok: bool)
    ensures
        ok == ((caps >> 2u64) & 1 == 1),
{
    (caps >> 2u64) & 1 == 1
}

/// One pass over the perf page: the seqlock word before and after the
/// reads, the page's `index`, `offset` and `pmc_width` fields, and the value
/// `rdpmc` returned for counter `index - 1` (ignored when `index` is 0).
#[derive(Clone, Copy)]
pub struct PmcSnapshot {
    pub lock_before: u32,
    pub index: u32,
    pub offset: i64,
    pub pmc_width: u16,
    pub raw: u64,
    pub lock_after: u32,
}

/// What one pass of the protocol yields.
#[derive(Clone, Copy, PartialEq, Eq, Structural)]
pub enum PmcRead {
    /// The kernel updated the page during the pass: read again.
    Raced,
    /// The event is not scheduled on this CPU right now (index 0): no value.
    Unscheduled,
    /// The counter's value.
    Count(u64),
}

/// The shift that sign-extends a `pmc_width`-bit counter to 64 bits; the
/// width is clamped to `1..=64`.
pub open spec fn pmc_shift(width: u16) -> u64 {
    if width < 1 {
        63
    } else if width > 64 {
        0
    } else {
        (64 - width) as u64
    }
}

/// The raw counter, sign-extended from its width.
pub open spec fn pmc_signed(raw: u64, width: u16) -> i64 {
    ((raw << pmc_shift(width)) as i64) >> pmc_shift(width)
}

/// The counter's value: the kernel's signed base offset plus the
/// sign-extended raw counter, modulo 2^64.
pub open spec fn pmc_value(offset: i64, raw: u64, width: u16) -> u64 {
    offset.wrapping_add(pmc_signed(raw, width)) as u64
}

/// Sign extension keeps a counter below its sign bit unchanged, and turns a
/// counter with its sign bit set into a negative number whose bits above the
/// width are all ones: for a width `w` in `1..=63` and a raw value
/// `r < 2^w`, `r` reads as itself when `r < 2^(w-1)`, and otherwise as the
/// negative number with the bits of `r` below `w` and ones above.
pub proof fn lemma_pmc_signed(raw: u64, width: u16)
    requires
        1 <= width <= 63,
        raw < (1u64 << width),
    ensures
        raw < (1u64 << (width - 1) as u64) ==> pmc_signed(raw, width) == raw as i64,
        raw >= (1u64 << (width - 1) as u64) ==> pmc_signed(raw, width) < 0 && pmc_signed(
            raw,
            width,
        ) as u64 == (raw | !(((1u64 << width) - 1) as u64)),
{
    let shift: u64 = (64 - width) as u64;
    let w: u64 = width as u64;
    assert(pmc_shift(width) == shift);
    assert(raw < (1u64 << ((w - 1) as u64)) ==> ((raw << shift) as i64) >> shift == raw as i64)
        by (bit_vector)
        requires
            1 <= w <= 63,
            shift == 64 - w,
            raw < (1u64 << w),
    ;
    assert(raw >= (1u64 << ((w - 1) as u64)) ==> (((raw << shift) as i64) >> shift) as u64 == (
    raw | !(((1u64 << w) - 1) as u64)) && ((raw << shift) as i64) >> shift < 0) by (bit_vector)
        requires
            1 <= w <= 63,
            shift == 64 - w,
            raw < (1u64 << w),
    ;
}

/// The counter's value is the kernel's offset plus the sign-extended raw
/// counter, taken modulo 2^64, for every offset: read as an unsigned number
/// it is congruent to `offset + pmc_signed(raw, width)`.
pub proof fn lemma_pmc_value_adds_offset(offset: i64, raw: u64, width: u16)
    ensures
        pmc_value(offset, raw, width) as int == (offset as int + pmc_signed(raw, width) as int)
            % 0x1_0000_0000_0000_0000int,
{
    let c = pmc_signed(raw, width);
    let w: i64 = offset.wrapping_add(c);
    let sum: int = offset as int + c as int;
    assert(w as int == sum || w as int == sum - 0x1_0000_0000_0000_0000int || w as int == sum
        + 0x1_0000_0000_0000_0000int);
    assert(w >= 0 ==> w as u64 == w) by (bit_vector);
    assert(w < 0 ==> w as u64 == w + 0x1_0000_0000_0000_0000int) by (bit_vector);
    let v = w as u64;
    assert(v as int == pmc_value(offset, raw, width) as int);
    assert(0 <= v < 0x1_0000_0000_0000_0000int);
    if w >= 0 {
        assert(v as int == w as int);
    } else {
        assert(v as int == w as int + 0x1_0000_0000_0000_0000int);
    }
    assert((v as int) % 0x1_0000_0000_0000_0000int == v as int) by {
        vstd::arithmetic::div_mod::lemma_small_mod(v as nat, 0x1_0000_0000_0000_0000nat);
    }
}

/// Two reads against the same offset differ by the difference of their
/// sign-extended raw counters, modulo 2^64: the offset cancels, so cycle
/// deltas come out with the counter's sign, whatever the offset.
pub proof fn lemma_pmc_delta(offset: i64, raw1: u64, raw2: u64, width: u16)
    ensures
        (pmc_value(offset, raw2, width) as int - pmc_value(offset, raw1, width) as int)
            % 0x1_0000_0000_0000_0000int == (pmc_signed(raw2, width) as int - pmc_signed(
            raw1,
            width,
        ) as int) % 0x1_0000_0000_0000_0000int,
{
    let m = 0x1_0000_0000_0000_0000int;
    let a1 = offset as int + pmc_signed(raw1, width) as int;
    let a2 = offset as int + pmc_signed(raw2, width) as int;
    lemma_pmc_value_adds_offset(offset, raw1, width);
    lemma_pmc_value_adds_offset(offset, raw2, width);
    vstd::arithmetic::div_mod::lemma_sub_mod_noop(a2, a1, m);
}

/// One pass of the protocol, stated over the snapshot's fields: a moved
/// seqlock word is a race, an unscheduled event yields nothing, and
/// otherwise the value is the offset plus the raw counter sign-extended from
/// its width, modulo 2^64.
pub proof fn lemma_read_outcome(s: PmcSnapshot)
    ensures
        s.lock_after != s.lock_before ==> read_spec(s) == PmcRead::Raced,
        s.lock_after == s.lock_before && s.index == 0 ==> read_spec(s) == PmcRead::Unscheduled,
        s.lock_after == s.lock_before && s.index != 0 ==> (read_spec(s) matches PmcRead::Count(v)
            && v as int == (s.offset as int + pmc_signed(s.raw, s.pmc_width) as int)
            % 0x1_0000_0000_0000_0000int),
{
    lemma_pmc_value_adds_offset(s.offset, s.raw, s.pmc_width);
}

/// What the pass `s` yields: a race when the seqlock word moved, nothing
/// when the event is unscheduled, else the counter's value.
pub open spec fn read_spec(s: PmcSnapshot) -> PmcRead {
    if s.lock_after != s.lock_before {
        PmcRead::Raced
    } else if s.index == 0 {
        PmcRead::Unscheduled
    } else {
        PmcRead::Count(pmc_value(s.offset, s.raw, s.pmc_width))
    }
}

/// Decides what one pass of the seqlock protocol read.
pub fn read(s: &PmcSnapshot) -> (r: PmcRead)
    ensures
        r == read_spec(*s),
{
    if s.lock_after != s.lock_before {
        return PmcRead::Raced;
    }
    if s.index == 0 {
        return PmcRead::Unscheduled;
    }
    let shift: u64 = if s.pmc_width < 1 {
        63
    } else if s.pmc_width > 64 {
        0
    } else {
        (64 - s.pmc_width) as u64
    };
    let signed: i64 = ((s.raw << shift) as i64) >> shift;
    PmcRead::Count(s.offset.wrapping_add(signed) as u64)
}

} // verus!
