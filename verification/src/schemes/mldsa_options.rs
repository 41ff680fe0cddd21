//! ML-DSA-65 across the Rust implementation landscape: the gates every
//! contender passes before it is timed against the mysten wrapper.
//!
//! Contenders, each cross-verified against the wrapper:
//! - aws-lc-rs: mldsa-native C imported into AWS-LC (see
//!   [`cross_check_with_aws_lc`](crate::schemes::mldsa_mysten::cross_check_with_aws_lc)).
//! - ml-dsa (RustCrypto): pure Rust, signing deterministically.
//! - libcrux-ml-dsa (Cryspen): formally verified Rust, portable path.
//! - pqcrypto-mldsa: PQClean's portable reference C behind bindings.
use crate::msg_bytes;
use crate::schemes::mldsa_mysten::{mldsa65_accepts, mldsa65_verify, os_random_32};
use crate::MSG;
use libcrux_ml_dsa::ml_dsa_65 as lc;
use ml_dsa::{EncodedSignature, EncodedVerifyingKey, MlDsa65, SigningKey};
use pqcrypto_mldsa::mldsa65 as pq;
use pqcrypto_traits::sign::{DetachedSignature, PublicKey, SecretKey};
use vstd::prelude::*;

verus! {

/// Whether RustCrypto's ML-DSA-65 verifier accepts `sig` over `msg`, under
/// the empty context string, for the encoded verifying key `vk` (false when
/// either encoding does not decode).
pub uninterp spec fn rustcrypto_accepts(vk: Seq<u8>, msg: Seq<u8>, sig: Seq<u8>) -> bool;

/// Whether libcrux's ML-DSA-65 verifier accepts `sig` over `msg`, under the
/// empty context string, for the encoded verification key `vk` (false when
/// either has the wrong length).
pub uninterp spec fn libcrux_accepts(vk: Seq<u8>, msg: Seq<u8>, sig: Seq<u8>) -> bool;

/// Whether PQClean's ML-DSA-65 verifier accepts `sig` as a detached signature
/// over `msg` for the encoded public key `pk` (false when either encoding
/// does not parse).
pub uninterp spec fn pqclean_mldsa65_accepts(pk: Seq<u8>, msg: Seq<u8>, sig: Seq<u8>) -> bool;

/// Whether `pk` and `sk` are the encoded public and secret halves of one
/// PQClean ML-DSA-65 key pair drawn by `mldsa65::keypair`.
pub uninterp spec fn pqclean_mldsa65_key_pair(pk: Seq<u8>, sk: Seq<u8>) -> bool;

/// Whether `sig` is one of the detached signatures that
/// `mldsa65::detached_sign` can make over `msg` under the secret key encoded
/// in `sk` (signing is randomised, so this relates the three rather than
/// naming one result).
pub uninterp spec fn pqclean_mldsa65_signed(sk: Seq<u8>, msg: Seq<u8>, sig: Seq<u8>) -> bool;

/// The encoded verifying key of RustCrypto's ML-DSA-65 key for the 32-byte
/// seed `seed` (`SigningKey::from_seed`, FIPS 204 Algorithm 6, deterministic
/// in the seed).
pub uninterp spec fn rustcrypto_verifying_key_of_seed(seed: Seq<u8>) -> Seq<u8>;

/// What RustCrypto's deterministic ML-DSA-65 signing gives over `msg`, with
/// the empty context string, under the key for the seed `seed`: the encoded
/// signature, or `None` where its rejection-sampling loop gives up
/// (deterministic in the seed and the message).
pub uninterp spec fn rustcrypto_signature(seed: Seq<u8>, msg: Seq<u8>) -> Option<Seq<u8>>;

/// The encoded verifying key of RustCrypto's ML-DSA-65 key for the seed
/// `seed`, the private key's serialised form (`SigningKey::from_seed`, then
/// `verifying_key` and `encode`). Claimed: it is a function of the seed,
/// named [`rustcrypto_verifying_key_of_seed`].
#[verifier::external_body]
fn rustcrypto_verifying_key(seed: [u8; 32]) -> (vk: Vec<u8>)
    ensures
        vk@ == rustcrypto_verifying_key_of_seed(seed@),
{
    SigningKey::<MlDsa65>::from_seed(&seed.into()).expanded_key().verifying_key().encode().to_vec()
}

/// `ExpandedSigningKey::sign_deterministic` over `msg` with the empty
/// context, under the key for the seed `seed`, encoded; `None` on the
/// crate's error, which with the empty context comes only from the
/// rejection-sampling loop. Claimed: the outcome is a function of the seed
/// and the message, named [`rustcrypto_signature`].
#[verifier::external_body]
fn rustcrypto_sign(seed: [u8; 32], msg: &[u8]) -> (sig: Option<Vec<u8>>)
    ensures
        sig is Some <==> rustcrypto_signature(seed@, msg@) is Some,
        sig matches Some(s) ==> rustcrypto_signature(seed@, msg@) == Some(s@),
{
    let sk = SigningKey::<MlDsa65>::from_seed(&seed.into());
    match sk.expanded_key().sign_deterministic(msg, b"") {
        Ok(sig) => Some(sig.encode().to_vec()),
        Err(_) => None,
    }
}

/// `VerifyingKey::verify_with_context` with the empty context on the decoded
/// key and signature. Claimed: the answer is a function of the three byte
/// strings, named [`rustcrypto_accepts`].
#[verifier::external_body]
fn rustcrypto_verify(vk: &[u8], msg: &[u8], sig: &[u8]) -> (ok: bool)
    ensures
        ok == rustcrypto_accepts(vk@, msg@, sig@),
{
    let vk = match EncodedVerifyingKey::<MlDsa65>::try_from(vk) {
        Ok(enc) => ml_dsa::VerifyingKey::<MlDsa65>::decode(&enc),
        Err(_) => return false,
    };
    let sig = match EncodedSignature::<MlDsa65>::try_from(sig) {
        Ok(enc) => ml_dsa::Signature::<MlDsa65>::decode(&enc),
        Err(_) => return false,
    };
    match sig {
        Some(sig) => vk.verify_with_context(msg, b"", &sig),
        None => false,
    }
}

/// The encoded signing and verification keys that libcrux's
/// `ml_dsa_65::generate_key_pair` derives from the 32-byte randomness `seed`
/// (FIPS 204 Algorithm 6, deterministic in the seed).
pub uninterp spec fn libcrux_keys_of_seed(seed: Seq<u8>) -> (Seq<u8>, Seq<u8>);

/// What libcrux's `ml_dsa_65::sign` gives over `msg`, with the empty context
/// string and the randomness `rnd`, under the encoded signing key `sk`: the
/// encoded signature, or `None` where `sk` is not a 4032-byte key or libcrux
/// reports an error (deterministic in the three).
pub uninterp spec fn libcrux_signature(sk: Seq<u8>, msg: Seq<u8>, rnd: Seq<u8>) -> Option<Seq<u8>>;

/// `ml_dsa_65::generate_key_pair` from libcrux for `seed`: the encoded
/// signing and verification keys. Claimed: they are a function of the seed,
/// named [`libcrux_keys_of_seed`], with libcrux's fixed ML-DSA-65 lengths.
#[verifier::external_body]
fn libcrux_generate(seed: [u8; 32]) -> (r: (Vec<u8>, Vec<u8>))
    ensures
        (r.0@, r.1@) == libcrux_keys_of_seed(seed@),
        r.0.len() == 4032,
        r.1.len() == 1952,
{
    let kp = lc::generate_key_pair(seed);
    (kp.signing_key.as_slice().to_vec(), kp.verification_key.as_slice().to_vec())
}

/// `ml_dsa_65::sign` from libcrux over `msg` with the empty context and the
/// randomness `rnd`; `None` when `sk` has the wrong length or libcrux
/// reports an error. Claimed: the outcome is a function of the three, named
/// [`libcrux_signature`], and a key of the wrong length gives `None`.
#[verifier::external_body]
fn libcrux_sign(sk: &[u8], msg: &[u8], rnd: [u8; 32]) -> (sig: Option<Vec<u8>>)
    ensures
        sig is Some <==> libcrux_signature(sk@, msg@, rnd@) is Some,
        sig matches Some(s) ==> libcrux_signature(sk@, msg@, rnd@) == Some(s@),
        sk@.len() != 4032 ==> sig is None,
{
    let sk: [u8; 4032] = match sk.try_into() {
        Ok(a) => a,
        Err(_) => return None,
    };
    match lc::sign(&lc::MLDSA65SigningKey::new(sk), msg, b"", rnd) {
        Ok(sig) => Some(sig.as_slice().to_vec()),
        Err(_) => None,
    }
}

/// `ml_dsa_65::verify` from libcrux with the empty context. Claimed: the
/// answer is a function of the three byte strings, named
/// [`libcrux_accepts`].
#[verifier::external_body]
fn libcrux_verify(vk: &[u8], msg: &[u8], sig: &[u8]) -> (ok: bool)
    ensures
        ok == libcrux_accepts(vk@, msg@, sig@),
{
    match (<[u8; 1952]>::try_from(vk), <[u8; 3309]>::try_from(sig)) {
        (Ok(vk), Ok(sig)) => lc::verify(
            &lc::MLDSA65VerificationKey::new(vk),
            msg,
            b"",
            &lc::MLDSA65Signature::new(sig),
        ).is_ok(),
        _ => false,
    }
}

/// A fresh PQClean ML-DSA-65 key pair (`mldsa65::keypair`, randomised), as
/// encoded public and secret keys. Claimed: the encodings have the fixed
/// lengths of the crate's key types, and they are the two halves of one key
/// pair. Like every PQClean entry point that
/// draws randomness, it panics if the operating system's random source
/// fails (pqcrypto-internals' `randombytes`).
#[verifier::external_body]
fn pqclean_mldsa65_keypair() -> (r: (Vec<u8>, Vec<u8>))
    ensures
        r.0.len() == 1952,
        r.1.len() == 4032,
        pqclean_mldsa65_key_pair(r.0@, r.1@),
{
    let (pk, sk) = pq::keypair();
    (pk.as_bytes().to_vec(), sk.as_bytes().to_vec())
}

/// `mldsa65::detached_sign` over `msg` under the secret key encoded in
/// `sk`; `None` when `sk` does not parse (it parses exactly when it is 4032
/// bytes long). Signing is randomised, so its bytes are not claimed; claimed
/// is that it is one of the signer's outputs over `msg` under `sk`, and that
/// it verifies under every public key paired with `sk` (the sign-then-verify
/// round trip of the crate's own tests). It panics if the operating system's
/// random source fails (pqcrypto-internals' `randombytes`).
#[verifier::external_body]
fn pqclean_mldsa65_sign(msg: &[u8], sk: &[u8]) -> (sig: Option<Vec<u8>>)
    ensures
        sig is Some <==> sk@.len() == 4032,
        sig matches Some(s) ==> pqclean_mldsa65_signed(sk@, msg@, s@),
        sig matches Some(s) ==> forall|pk: Seq<u8>|
            #[trigger] pqclean_mldsa65_key_pair(pk, sk@) ==> pqclean_mldsa65_accepts(pk, msg@, s@),
{
    match pq::SecretKey::from_bytes(sk) {
        Ok(sk) => Some(pq::detached_sign(msg, &sk).as_bytes().to_vec()),
        Err(_) => None,
    }
}

/// `mldsa65::verify_detached_signature` on the decoded key and signature.
/// Claimed: the answer is a function of the three byte strings, named
/// [`pqclean_mldsa65_accepts`].
#[verifier::external_body]
fn pqclean_mldsa65_verify(pk: &[u8], msg: &[u8], sig: &[u8]) -> (ok: bool)
    ensures
        ok == pqclean_mldsa65_accepts(pk@, msg@, sig@),
{
    match (pq::PublicKey::from_bytes(pk), pq::DetachedSignature::from_bytes(sig)) {
        (Ok(pk), Ok(sig)) => pq::verify_detached_signature(&sig, msg, &pk).is_ok(),
        _ => false,
    }
}

/// The two-way verdict between the wrapper and a contender: the wrapper
/// accepts the contender's signature `their_sig` over [`MSG`] under
/// `their_vk`, and the contender (whose verifier answers `theirs_accepts`)
/// accepts the wrapper's signature `our_sig` under `our_vk`.
pub open spec fn two_way(
    their_vk: Seq<u8>,
    their_sig: Seq<u8>,
    theirs_accepts: bool,
) -> bool {
    mldsa65_accepts(their_vk, msg_bytes(), their_sig) && theirs_accepts
}

/// The RustCrypto gate on given material.
pub fn rustcrypto_verdict(their_vk: &[u8], their_sig: &[u8], our_vk: &[u8], our_sig: &[u8]) -> (ok:
    bool)
    ensures
        ok == two_way(their_vk@, their_sig@, rustcrypto_accepts(our_vk@, msg_bytes(), our_sig@)),
{
    mldsa65_verify(their_vk, MSG.as_bytes(), their_sig) && rustcrypto_verify(
        our_vk,
        MSG.as_bytes(),
        our_sig,
    )
}

/// The libcrux gate on given material.
pub fn libcrux_verdict(their_vk: &[u8], their_sig: &[u8], our_vk: &[u8], our_sig: &[u8]) -> (ok:
    bool)
    ensures
        ok == two_way(their_vk@, their_sig@, libcrux_accepts(our_vk@, msg_bytes(), our_sig@)),
{
    mldsa65_verify(their_vk, MSG.as_bytes(), their_sig) && libcrux_verify(
        our_vk,
        MSG.as_bytes(),
        our_sig,
    )
}

/// The PQClean gate on given material.
pub fn pqclean_verdict(their_vk: &[u8], their_sig: &[u8], our_vk: &[u8], our_sig: &[u8]) -> (ok:
    bool)
    ensures
        ok == two_way(
            their_vk@,
            their_sig@,
            pqclean_mldsa65_accepts(our_vk@, msg_bytes(), our_sig@),
        ),
{
    mldsa65_verify(their_vk, MSG.as_bytes(), their_sig) && pqclean_mldsa65_verify(
        our_vk,
        MSG.as_bytes(),
        our_sig,
    )
}

/// Whether the RustCrypto cross-check passes for the seed `seed` against
/// the wrapper's `our_vk` / `our_sig`: the key for `seed` signs [`MSG`]
/// deterministically, and the two-way verdict holds on that signature.
pub open spec fn spec_rustcrypto_check(seed: Seq<u8>, our_vk: Seq<u8>, our_sig: Seq<u8>) -> bool {
    match rustcrypto_signature(seed, msg_bytes()) {
        Some(sig) => two_way(
            rustcrypto_verifying_key_of_seed(seed),
            sig,
            rustcrypto_accepts(our_vk, msg_bytes(), our_sig),
        ),
        None => false,
    }
}

/// The RustCrypto cross-check on the key for `seed`.
pub fn cross_check_rustcrypto_from(seed: [u8; 32], our_vk: &[u8], our_sig: &[u8]) -> (ok: bool)
    ensures
        ok == spec_rustcrypto_check(seed@, our_vk@, our_sig@),
{
    let vk = rustcrypto_verifying_key(seed);
    match rustcrypto_sign(seed, MSG.as_bytes()) {
        Some(sig) => rustcrypto_verdict(&vk, &sig, our_vk, our_sig),
        None => false,
    }
}

/// Cross-checks RustCrypto against the wrapper's `our_vk` / `our_sig` on the
/// key for a fresh seed, through [`cross_check_rustcrypto_from`]. Fails when
/// the operating system's generator fails.
pub fn cross_check_rustcrypto(our_vk: &[u8], our_sig: &[u8]) -> (ok: bool)
    ensures
        ok ==> exists|seed: Seq<u8>|
            #![trigger spec_rustcrypto_check(seed, our_vk@, our_sig@)]
            seed.len() == 32 && spec_rustcrypto_check(seed, our_vk@, our_sig@),
{
    let seed = match os_random_32() {
        Some(s) => s,
        None => return false,
    };
    cross_check_rustcrypto_from(seed, our_vk, our_sig)
}

/// Whether the libcrux cross-check passes for the seed `seed` and the
/// signing randomness `rnd` against the wrapper's `our_vk` / `our_sig`: the
/// key pair for `seed` signs [`MSG`] with `rnd`, and the two-way verdict
/// holds on that signature.
pub open spec fn spec_libcrux_check(
    seed: Seq<u8>,
    rnd: Seq<u8>,
    our_vk: Seq<u8>,
    our_sig: Seq<u8>,
) -> bool {
    let keys = libcrux_keys_of_seed(seed);
    match libcrux_signature(keys.0, msg_bytes(), rnd) {
        Some(sig) => two_way(keys.1, sig, libcrux_accepts(our_vk, msg_bytes(), our_sig)),
        None => false,
    }
}

/// The libcrux cross-check on the key pair for `seed`, signing with `rnd`.
pub fn cross_check_libcrux_from(
    seed: [u8; 32],
    rnd: [u8; 32],
    our_vk: &[u8],
    our_sig: &[u8],
) -> (ok: bool)
    ensures
        ok == spec_libcrux_check(seed@, rnd@, our_vk@, our_sig@),
{
    let (sk, vk) = libcrux_generate(seed);
    match libcrux_sign(&sk, MSG.as_bytes(), rnd) {
        Some(sig) => libcrux_verdict(&vk, &sig, our_vk, our_sig),
        None => false,
    }
}

/// Cross-checks libcrux against the wrapper's `our_vk` / `our_sig`: a key
/// from a fresh seed signs [`MSG`] with fresh randomness, through
/// [`cross_check_libcrux_from`]. Fails when the operating system's generator
/// fails.
pub fn cross_check_libcrux(our_vk: &[u8], our_sig: &[u8]) -> (ok: bool)
    ensures
        ok ==> exists|seed: Seq<u8>, rnd: Seq<u8>|
            #![trigger spec_libcrux_check(seed, rnd, our_vk@, our_sig@)]
            seed.len() == 32 && rnd.len() == 32 && spec_libcrux_check(seed, rnd, our_vk@, our_sig@),
{
    let seed = match os_random_32() {
        Some(s) => s,
        None => return false,
    };
    let rnd = match os_random_32() {
        Some(r) => r,
        None => return false,
    };
    cross_check_libcrux_from(seed, rnd, our_vk, our_sig)
}

/// Cross-checks PQClean against the wrapper's `our_vk` / `our_sig`: a fresh
/// key pair signs [`MSG`], and the answer is the two-way verdict on that
/// material.
pub fn cross_check_pqclean(our_vk: &[u8], our_sig: &[u8]) -> (ok: bool)
    ensures
        exists|pk: Seq<u8>, sk: Seq<u8>, sig: Seq<u8>|
            #![trigger pqclean_mldsa65_key_pair(pk, sk), pqclean_mldsa65_signed(sk, msg_bytes(), sig)]
            pqclean_mldsa65_key_pair(pk, sk) && pqclean_mldsa65_signed(sk, msg_bytes(), sig)
                && pqclean_mldsa65_accepts(pk, msg_bytes(), sig) && ok == two_way(
                pk,
                sig,
                pqclean_mldsa65_accepts(our_vk@, msg_bytes(), our_sig@),
            ),
{
    let (pk, sk) = pqclean_mldsa65_keypair();
    match pqclean_mldsa65_sign(MSG.as_bytes(), &sk) {
        Some(sig) => pqclean_verdict(&pk, &sig, our_vk, our_sig),
        None => false,
    }
}

} // verus!
