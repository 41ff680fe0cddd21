//! Measurement harness for post-quantum signature schemes: the correctness
//! gates every measured row must pass, the adaptive-iteration timing policy,
//! and the report's figures.
use vstd::prelude::*;
use vstd::string::StringSliceAdditionalSpecFns;

pub mod report;
pub mod schemes;
pub mod timing;

pub use schemes::{all_schemes, SchemeRow};
pub use timing::{Budget, Timing};

verus! {

/// The message every row signs once and verifies in its timed loop; rows
/// sign and verify its UTF-8 bytes, [`msg_bytes`].
pub const MSG: &'static str = "sui post-quantum native authenticator benchmark";

/// A message that differs from [`MSG`]: a signature over [`MSG`] must not
/// verify under it.
pub const TAMPERED: &'static str = "tampered";

/// The bytes every row signs once and verifies in its timed loop.
pub open spec fn msg_bytes() -> Seq<u8> {
    MSG.spec_bytes()
}

/// The bytes of [`TAMPERED`].
pub open spec fn tampered_bytes() -> Seq<u8> {
    TAMPERED.spec_bytes()
}

/// The tampered message differs from the signed one, so rejecting a
/// signature over it is a real test of the verifier.
pub proof fn lemma_tampered_differs()
    ensures
        msg_bytes() != tampered_bytes(),
{
    reveal_strlit("sui post-quantum native authenticator benchmark");
    reveal_strlit("tampered");
    vstd::utf8::encode_utf8_decode_utf8(MSG@);
    vstd::utf8::encode_utf8_decode_utf8(TAMPERED@);
    assert(MSG@.len() != TAMPERED@.len());
}

/// The little-endian bytes of `i`.
pub open spec fn le_bytes(i: u64) -> Seq<u8> {
    Seq::new(8, |k: int| ((i >> (8 * k) as u64) & 0xff) as u8)
}

/// The message signed in the `i`-th timed signing call: the bytes of [`MSG`] followed
/// by the counter's eight little-endian bytes.
pub open spec fn sign_msg_spec(i: u64) -> Seq<u8> {
    msg_bytes() + le_bytes(i)
}

/// The message signed in the `i`-th timed signing call. Signing runs
/// rejection loops whose length depends on the exact inputs, so every timed
/// signature is over a different message.
pub fn sign_msg(i: u64) -> (m: Vec<u8>)
    ensures
        m@ == sign_msg_spec(i),
{
    let base: &[u8] = MSG.as_bytes();
    let mut m: Vec<u8> = Vec::new();
    let n = base.len();
    for k in 0..n
        invariant
            n == base@.len(),
            base@ == msg_bytes(),
            m@ == base@.subrange(0, k as int),
    {
        m.push(base[k]);
    }
    assert(m@ == msg_bytes());
    for k in 0..8u64
        invariant
            m@ == msg_bytes() + le_bytes(i).subrange(0, k as int),
    {
        let byte: u8 = ((i >> (8 * k)) & 0xff) as u8;
        m.push(byte);
        assert(le_bytes(i).subrange(0, (k + 1) as int) == le_bytes(i).subrange(0, k as int).push(
            byte,
        ));
    }
    assert(le_bytes(i).subrange(0, 8) == le_bytes(i));
    m
}

/// Distinct counters give distinct messages: no two timed signing calls
/// sign the same message.
pub proof fn lemma_sign_msg_distinct(i: u64, j: u64)
    requires
        i != j,
    ensures
        sign_msg_spec(i) != sign_msg_spec(j),
{
    if sign_msg_spec(i) == sign_msg_spec(j) {
        let n = msg_bytes().len();
        assert forall|k: int| 0 <= k < 8 implies le_bytes(i)[k] == le_bytes(j)[k] by {
            assert(sign_msg_spec(i)[n + k] == sign_msg_spec(j)[n + k]);
        }
        assert(le_bytes(i)[0] == le_bytes(j)[0]);
        assert(le_bytes(i)[1] == le_bytes(j)[1]);
        assert(le_bytes(i)[2] == le_bytes(j)[2]);
        assert(le_bytes(i)[3] == le_bytes(j)[3]);
        assert(le_bytes(i)[4] == le_bytes(j)[4]);
        assert(le_bytes(i)[5] == le_bytes(j)[5]);
        assert(le_bytes(i)[6] == le_bytes(j)[6]);
        assert(le_bytes(i)[7] == le_bytes(j)[7]);
        assert(i == j) by (bit_vector)
            requires
                ((i >> 0u64) & 0xff) as u8 == ((j >> 0u64) & 0xff) as u8,
                ((i >> 8u64) & 0xff) as u8 == ((j >> 8u64) & 0xff) as u8,
                ((i >> 16u64) & 0xff) as u8 == ((j >> 16u64) & 0xff) as u8,
                ((i >> 24u64) & 0xff) as u8 == ((j >> 24u64) & 0xff) as u8,
                ((i >> 32u64) & 0xff) as u8 == ((j >> 32u64) & 0xff) as u8,
                ((i >> 40u64) & 0xff) as u8 == ((j >> 40u64) & 0xff) as u8,
                ((i >> 48u64) & 0xff) as u8 == ((j >> 48u64) & 0xff) as u8,
                ((i >> 56u64) & 0xff) as u8 == ((j >> 56u64) & 0xff) as u8,
        ;
    }
}

/// Static description of a measured row.
#[derive(Clone, Copy)]
pub struct Meta {
    /// The signature scheme and parameter set, e.g. "ML-DSA-65".
    pub scheme: &'static str,
    /// The implementation measured for it.
    pub name: &'static str,
}

/// One fully measured row.
pub struct Row {
    pub meta: Meta,
    pub pk_len: usize,
    pub sig_len: usize,
    pub sk_len: Option<usize>,
    pub keygen: Option<Timing>,
    pub sign: Option<Timing>,
    pub verify: Timing,
}

impl Row {
    /// On-chain footprint: what is stored (the public key) plus what is sent
    /// with every transaction (the signature).
    pub fn onchain_bytes(&self) -> (n: usize)
        requires
            self.pk_len + self.sig_len <= usize::MAX,
        ensures
            n == self.pk_len + self.sig_len,
    {
        self.pk_len + self.sig_len
    }
}

/// The correctness gate every row passes before its timing is trusted.
pub trait Scheme {
    /// What the row is.
    fn meta(&self) -> Meta;

    /// A sign-then-verify roundtrip must pass and a verification of the same
    /// signature against a tampered message must fail.
    fn self_check(&self) -> bool;
}

} // verus!
