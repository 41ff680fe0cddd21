//! Ed25519 baseline, measured through fastcrypto's own scheme so the ratio
//! reflects what a Sui validator runs today. Single verification only:
//! validators also batch-verify Ed25519 (about 2x amortized) and no PQ scheme
//! has a batch mode, so the single-verify ratio understates the real gap by
//! about that factor.
use crate::{msg_bytes, tampered_bytes, Meta, Scheme, MSG, TAMPERED};
use fastcrypto::ed25519::{Ed25519KeyPair, Ed25519PublicKey, Ed25519Signature};
use fastcrypto::traits::{KeyPair, Signer, ToFromBytes, VerifyingKey};
use rand::{rngs::StdRng, SeedableRng};
use vstd::prelude::*;

verus! {

/// Length of an Ed25519 public key in bytes.
pub const ED25519_PK_LEN: usize = 32;

/// Length of an Ed25519 signature in bytes.
pub const ED25519_SIG_LEN: usize = 64;

/// Length of an Ed25519 private key in bytes.
pub const ED25519_SK_LEN: usize = 32;

/// The byte the deterministic generator's seed is filled with: every Ed25519
/// key pair of the harness comes from a `StdRng` seeded with 32 copies of it.
pub const ED25519_RNG_SEED_BYTE: u8 = 7;

/// Whether fastcrypto's Ed25519 verifier accepts `sig` as a signature over
/// `msg` under the encoded public key `pk` (false when either encoding does
/// not parse).
pub uninterp spec fn ed25519_accepts(pk: Seq<u8>, msg: Seq<u8>, sig: Seq<u8>) -> bool;

/// The encoded public and private keys that `Ed25519KeyPair::generate`
/// draws from a `StdRng` seeded with 32 copies of `seed_byte`.
pub uninterp spec fn ed25519_keypair_of_seed(seed_byte: u8) -> (Seq<u8>, Seq<u8>);

/// The signature that fastcrypto's `Signer::sign` makes over `msg` with the
/// private key encoded in `sk` (Ed25519 signing is deterministic).
pub uninterp spec fn ed25519_signature(sk: Seq<u8>, msg: Seq<u8>) -> Seq<u8>;

/// Draws an Ed25519 key pair from a `StdRng` seeded with 32 copies of `seed_byte` through
/// `Ed25519KeyPair::generate`; returns the encoded public and private keys.
/// Claimed: the seeded generator makes the keys a function of `seed_byte`,
/// named [`ed25519_keypair_of_seed`], and the encodings have fastcrypto's
/// fixed lengths.
#[verifier::external_body]
fn ed25519_generate(seed_byte: u8) -> (r: (Vec<u8>, Vec<u8>))
    ensures
        (r.0@, r.1@) == ed25519_keypair_of_seed(seed_byte),
        r.0.len() == ED25519_PK_LEN,
        r.1.len() == ED25519_SK_LEN,
{
    let kp = Ed25519KeyPair::generate(&mut StdRng::from_seed([seed_byte; 32]));
    (kp.public().as_bytes().to_vec(), kp.as_bytes().to_vec())
}

/// Signs `msg` with the private key encoded in `sk` through fastcrypto's
/// `Signer::sign`; `None` when `sk` does not parse, which a private key
/// encoding does exactly when it is not 32 bytes long. Claimed: the
/// signature is a function of `sk` and `msg`, named [`ed25519_signature`].
#[verifier::external_body]
fn ed25519_sign(sk: &[u8], msg: &[u8]) -> (r: Option<Vec<u8>>)
    ensures
        r is Some <==> sk@.len() == ED25519_SK_LEN,
        r matches Some(sig) ==> sig@ == ed25519_signature(sk@, msg@),
{
    match Ed25519KeyPair::from_bytes(sk) {
        Ok(kp) => Some(kp.sign(msg).as_bytes().to_vec()),
        Err(_) => None,
    }
}

/// fastcrypto's `VerifyingKey::verify` on the decoded key and signature.
/// Claimed: the answer is a function of the three byte strings, named
/// [`ed25519_accepts`].
#[verifier::external_body]
fn ed25519_verify(pk: &[u8], msg: &[u8], sig: &[u8]) -> (ok: bool)
    ensures
        ok == ed25519_accepts(pk@, msg@, sig@),
{
    match (Ed25519PublicKey::from_bytes(pk), Ed25519Signature::from_bytes(sig)) {
        (Ok(pk), Ok(sig)) => pk.verify(msg, &sig).is_ok(),
        _ => false,
    }
}

/// The self-check gate on one key and one signature over [`MSG`]: the
/// signature verifies and the same signature over [`TAMPERED`] does not.
pub fn ed25519_gate(pk: &[u8], sig: &[u8]) -> (ok: bool)
    ensures
        ok == (ed25519_accepts(pk@, msg_bytes(), sig@) && !ed25519_accepts(pk@, tampered_bytes(), sig@)),
{
    ed25519_verify(pk, MSG.as_bytes(), sig) && !ed25519_verify(pk, TAMPERED.as_bytes(), sig)
}

/// Ed25519 through fastcrypto, the baseline every other row is compared to.
pub struct Ed25519Baseline;

impl Ed25519Baseline {
    /// Whether [`Scheme::self_check`] passes: [`ed25519_gate`] holds for the
    /// key pair from [`ED25519_RNG_SEED_BYTE`] and its signature over [`MSG`].
    pub open spec fn spec_self_check() -> bool {
        let keys = ed25519_keypair_of_seed(ED25519_RNG_SEED_BYTE);
        let sig = ed25519_signature(keys.1, msg_bytes());
        ed25519_accepts(keys.0, msg_bytes(), sig) && !ed25519_accepts(
            keys.0,
            tampered_bytes(),
            sig,
        )
    }

    /// What the row is.
    pub open spec fn spec_meta() -> Meta {
        Meta { scheme: "Ed25519", name: "fastcrypto (baseline)" }
    }
}

impl Scheme for Ed25519Baseline {
    fn meta(&self) -> (m: Meta)
        ensures
            m == Self::spec_meta(),
    {
        Meta { scheme: "Ed25519", name: "fastcrypto (baseline)" }
    }

    /// Draws the seeded key pair, signs [`MSG`] and applies
    /// [`ed25519_gate`].
    fn self_check(&self) -> (ok: bool)
        ensures
            ok == Self::spec_self_check(),
            ok ==> exists|pk: Seq<u8>, sig: Seq<u8>|
                ed25519_accepts(pk, msg_bytes(), sig) && !ed25519_accepts(pk, tampered_bytes(), sig),
    {
        let (pk, sk) = ed25519_generate(ED25519_RNG_SEED_BYTE);
        match ed25519_sign(&sk, MSG.as_bytes()) {
            Some(sig) => ed25519_gate(&pk, &sig),
            None => false,
        }
    }
}

} // verus!
