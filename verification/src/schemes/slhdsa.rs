//! SLH-DSA-SHA2-128s: the stateless hash-based alternative, whose security
//! reduces to SHA-256 alone, priced as a 7,856-byte signature and signing
//! measured in hundreds of milliseconds.
//!
//! 128s ("small") rather than 128f ("fast"): on chain the signature is what
//! gets stored and verified, so the small-signature end of the trade is the
//! relevant one.
use crate::Meta;
use vstd::prelude::*;

verus! {

/// n = 16 bytes for the 128-bit security category (FIPS 205 Table 2).
pub const SLH_N: usize = 16;

/// SLH-DSA-SHA2-128s through fastcrypto's sphincs module.
pub struct SlhDsa128sFastcrypto;

impl SlhDsa128sFastcrypto {
    /// What the row is.
    pub open spec fn spec_meta() -> Meta {
        Meta { scheme: "SLH-DSA-SHA2-128s", name: "fastcrypto sphincs" }
    }

    /// What the row is.
    pub fn meta(&self) -> (m: Meta)
        ensures
            m == Self::spec_meta(),
    {
        Meta { scheme: "SLH-DSA-SHA2-128s", name: "fastcrypto sphincs" }
    }

    /// Public-key length: pk_seed and pk_root (FIPS 205 section 9.1).
    pub fn pk_len() -> (n: usize)
        ensures
            n == 2 * SLH_N,
    {
        2 * SLH_N
    }

    /// Secret-key length: sk_seed, sk_prf, pk_seed and pk_root
    /// (FIPS 205 section 9.1).
    pub fn sk_len() -> (n: usize)
        ensures
            n == 4 * SLH_N,
    {
        4 * SLH_N
    }

    /// The self-check's verdict from what the crate answered. The signature
    /// over the message must have been produced (`signed`), its byte encoding
    /// must be `expected_len` bytes long (`encoded_len`), it must parse back
    /// (`reparsed` is `Some`), the parsed-back signature must verify
    /// (`reparsed == Some(true)`), and the first signature must not verify
    /// over the tampered message. Checks run in that order; nothing after a
    /// failed step is consulted.
    pub fn self_check_verdict(
        signed: bool,
        encoded_len: usize,
        expected_len: usize,
        reparsed: Option<bool>,
        tampered_accepts: bool,
    ) -> (ok: bool)
        ensures
            ok == (signed && encoded_len == expected_len && reparsed == Some(true)
                && !tampered_accepts),
    {
        if !signed {
            return false;
        }
        if encoded_len != expected_len {
            return false;
        }
        match reparsed {
            Some(verified) => verified && !tampered_accepts,
            None => false,
        }
    }
}

} // verus!
