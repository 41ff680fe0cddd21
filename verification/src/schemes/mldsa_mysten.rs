//! ML-DSA-65 through the mysten-mldsa-native-rs wrapper: the same
//! mldsa-native C that aws-lc imports, consumed directly. Comparing it with
//! the aws-lc-rs contender isolates what the binding and build shape cost.
use crate::schemes::mldsa::{
    aws_mldsa_accepts, aws_mldsa_generate, aws_mldsa_sign, aws_mldsa_verify, MlDsaLevel,
};
use crate::{msg_bytes, tampered_bytes, Meta, Scheme, MSG, TAMPERED};
use mysten_mldsa_native_rs as mldsa;
use rand::rngs::OsRng;
use rand::RngCore;
use vstd::prelude::*;

verus! {

/// Length of an ML-DSA-65 public key in bytes.
pub const MLDSA65_PK_LEN: usize = 1952;

/// Length of an ML-DSA-65 signature in bytes.
pub const MLDSA65_SIG_LEN: usize = 3309;

/// Length of the FIPS 204 key-generation seed, the wrapper's private key.
pub const MLDSA65_SEED_LEN: usize = 32;

/// The label of the measured backend.
pub const MYSTEN_BACKEND: &'static str = "mysten wrapper (native)";

#[verifier::external_type_specification]
#[verifier::external_body]
pub struct ExMystenSigningKey(mldsa::SigningKey);

/// Whether the wrapper's ML-DSA-65 verifier accepts `sig` as a signature
/// over `msg`, under the empty context string, for the encoded public key
/// `vk` (false when either encoding has the wrong length).
pub uninterp spec fn mldsa65_accepts(vk: Seq<u8>, msg: Seq<u8>, sig: Seq<u8>) -> bool;

/// The encoded public key that `SigningKeySeed::expand` derives from the
/// 32-byte seed `seed` (FIPS 204 Algorithm 6, deterministic in the seed).
pub uninterp spec fn mldsa65_public_key_of_seed(seed: Seq<u8>) -> Seq<u8>;

/// The encoded signature that the key expanded from `seed` makes over `msg`
/// with the empty context string and the hedging randomness `rnd` (FIPS 204
/// Algorithm 2 with `rnd` given, deterministic in the three).
pub uninterp spec fn mldsa65_signature(seed: Seq<u8>, msg: Seq<u8>, rnd: Seq<u8>) -> Seq<u8>;

/// Thirty-two bytes from the operating system's generator
/// (`OsRng::try_fill_bytes`), or `None` when it reports a failure. Nothing is
/// claimed of the bytes.
#[verifier::external_body]
pub(crate) fn os_random_32() -> (r: Option<[u8; 32]>) {
    let mut b = [0u8; 32];
    match OsRng.try_fill_bytes(&mut b) {
        Ok(()) => Some(b),
        Err(_) => None,
    }
}

/// `SigningKeySeed::expand`: the operational signing key and the encoded
/// public key derived from `seed`. Claimed: the public key is a function of
/// the seed, named [`mldsa65_public_key_of_seed`], with the fixed ML-DSA-65
/// length. The expansion asserts that the C call succeeds, which it does for
/// every seed.
#[verifier::external_body]
fn mldsa65_expand(seed: [u8; 32]) -> (r: (mldsa::SigningKey, Vec<u8>))
    ensures
        r.1@ == mldsa65_public_key_of_seed(seed@),
        r.1.len() == MLDSA65_PK_LEN,
{
    let (sk, vk) = mldsa::SigningKeySeed::from(seed).expand();
    (sk, vk.as_bytes().to_vec())
}

/// `SigningKey::sign` under the key expanded from `seed`, over `msg`, with
/// the empty context string and the hedging randomness `rnd`. The wrapper
/// fails only on a context longer than 255 bytes, which the empty one is not.
/// Claimed: the signature is a function of the three, named
/// [`mldsa65_signature`], with the fixed ML-DSA-65 length, and it verifies
/// under the public key of the same seed (the crate's documented
/// sign-then-verify round trip).
#[verifier::external_body]
fn mldsa65_sign(seed: [u8; 32], msg: &[u8], rnd: [u8; 32]) -> (sig: Vec<u8>)
    ensures
        sig@ == mldsa65_signature(seed@, msg@, rnd@),
        sig.len() == MLDSA65_SIG_LEN,
        mldsa65_accepts(mldsa65_public_key_of_seed(seed@), msg@, sig@),
{
    let (sk, _) = mldsa::SigningKeySeed::from(seed).expand();
    sk.sign(msg, b"", &rnd).unwrap().as_bytes().to_vec()
}

/// `VerifyingKey::verify` with the empty context string, on the decoded key
/// and signature. Claimed: the answer is a function of the three byte
/// strings, named [`mldsa65_accepts`].
#[verifier::external_body]
pub(crate) fn mldsa65_verify(vk: &[u8], msg: &[u8], sig: &[u8]) -> (ok: bool)
    ensures
        ok == mldsa65_accepts(vk@, msg@, sig@),
{
    match (mldsa::VerifyingKey::from_bytes(vk), mldsa::Signature::from_bytes(sig)) {
        (Ok(vk), Ok(sig)) => vk.verify(msg, b"", &sig).is_ok(),
        _ => false,
    }
}

/// `vk` and `sig` are the wrapper's public key and signature over [`MSG`]
/// for some 32-byte seed and some 32 bytes of hedging randomness.
pub open spec fn wrapper_material(vk: Seq<u8>, sig: Seq<u8>) -> bool {
    exists|seed: Seq<u8>, rnd: Seq<u8>|
        #![trigger mldsa65_signature(seed, msg_bytes(), rnd)]
        seed.len() == MLDSA65_SEED_LEN && rnd.len() == 32 && vk == mldsa65_public_key_of_seed(
            seed,
        ) && sig == mldsa65_signature(seed, msg_bytes(), rnd)
}

/// Key expansion from `seed` plus one signature over [`MSG`] with the
/// hedging randomness `rnd`: the signing key, the encoded public key and the
/// encoded signature.
pub fn generate_from(seed: [u8; 32], rnd: [u8; 32]) -> (r: (mldsa::SigningKey, Vec<u8>, Vec<u8>))
    ensures
        r.1@ == mldsa65_public_key_of_seed(seed@),
        r.2@ == mldsa65_signature(seed@, msg_bytes(), rnd@),
        r.1.len() == MLDSA65_PK_LEN,
        r.2.len() == MLDSA65_SIG_LEN,
        mldsa65_accepts(r.1@, msg_bytes(), r.2@),
{
    let (sk, vk) = mldsa65_expand(seed);
    let sig = mldsa65_sign(seed, MSG.as_bytes(), rnd);
    (sk, vk, sig)
}

/// A fresh key pair (seed from the operating system) plus one hedged
/// signature over [`MSG`] (randomness from the operating system), through
/// [`generate_from`]. `None` when the operating system's generator fails.
pub fn generate() -> (r: Option<(mldsa::SigningKey, Vec<u8>, Vec<u8>)>)
    ensures
        r matches Some((sk, vk, sig)) ==> wrapper_material(vk@, sig@) && vk.len()
            == MLDSA65_PK_LEN && sig.len() == MLDSA65_SIG_LEN && mldsa65_accepts(
            vk@,
            msg_bytes(),
            sig@,
        ),
{
    let seed = match os_random_32() {
        Some(s) => s,
        None => return None,
    };
    let rnd = match os_random_32() {
        Some(r) => r,
        None => return None,
    };
    let (sk, vk, sig) = generate_from(seed, rnd);
    assert(wrapper_material(vk@, sig@)) by {
        assert(mldsa65_signature(seed@, msg_bytes(), rnd@) == sig@);
    }
    Some((sk, vk, sig))
}

/// The self-check gate on one wrapper key and signature over [`MSG`].
pub fn mldsa65_gate(vk: &[u8], sig: &[u8]) -> (ok: bool)
    ensures
        ok == (mldsa65_accepts(vk@, msg_bytes(), sig@) && !mldsa65_accepts(
            vk@,
            tampered_bytes(),
            sig@,
        )),
{
    mldsa65_verify(vk, MSG.as_bytes(), sig) && !mldsa65_verify(vk, TAMPERED.as_bytes(), sig)
}

/// ML-DSA-65 through the mysten wrapper: the pick.
pub struct MlDsa65Mysten;

impl MlDsa65Mysten {
    /// What the row is.
    pub open spec fn spec_meta() -> Meta {
        Meta { scheme: "ML-DSA-65", name: MYSTEN_BACKEND }
    }

    /// Whether the self-check passes on the material that `seed` and `rnd`
    /// give: the signature over [`MSG`] verifies and the same signature over
    /// [`TAMPERED`] does not.
    pub open spec fn spec_self_check_from(seed: Seq<u8>, rnd: Seq<u8>) -> bool {
        let vk = mldsa65_public_key_of_seed(seed);
        let sig = mldsa65_signature(seed, msg_bytes(), rnd);
        mldsa65_accepts(vk, msg_bytes(), sig) && !mldsa65_accepts(vk, tampered_bytes(), sig)
    }

    /// The self-check on the key expanded from `seed` and its signature over
    /// [`MSG`] with the hedging randomness `rnd`.
    pub fn self_check_from(seed: [u8; 32], rnd: [u8; 32]) -> (ok: bool)
        ensures
            ok == Self::spec_self_check_from(seed@, rnd@),
    {
        let (_, vk, sig) = generate_from(seed, rnd);
        mldsa65_gate(&vk, &sig)
    }
}

impl Scheme for MlDsa65Mysten {
    fn meta(&self) -> (m: Meta)
        ensures
            m == Self::spec_meta(),
    {
        Meta { scheme: "ML-DSA-65", name: MYSTEN_BACKEND }
    }

    /// Draws a seed and hedging randomness and applies
    /// [`MlDsa65Mysten::self_check_from`].
    fn self_check(&self) -> (ok: bool)
        ensures
            ok ==> exists|seed: Seq<u8>, rnd: Seq<u8>|
                #![trigger Self::spec_self_check_from(seed, rnd)]
                seed.len() == MLDSA65_SEED_LEN && rnd.len() == 32 && Self::spec_self_check_from(
                    seed,
                    rnd,
                ),
            ok ==> exists|vk: Seq<u8>, sig: Seq<u8>|
                mldsa65_accepts(vk, msg_bytes(), sig) && !mldsa65_accepts(
                    vk,
                    tampered_bytes(),
                    sig,
                ),
    {
        let seed = match os_random_32() {
            Some(s) => s,
            None => return false,
        };
        let rnd = match os_random_32() {
            Some(r) => r,
            None => return false,
        };
        let ok = Self::self_check_from(seed, rnd);
        proof {
            if ok {
                let vk = mldsa65_public_key_of_seed(seed@);
                let sig = mldsa65_signature(seed@, msg_bytes(), rnd@);
                assert(mldsa65_accepts(vk, msg_bytes(), sig));
            }
        }
        ok
    }
}

/// The interop verdict between the wrapper and aws-lc-rs on ML-DSA-65, over
/// byte strings: aws-lc accepts the wrapper's signature `our_sig` over
/// [`MSG`] under `our_vk` and rejects it over [`TAMPERED`], and aws-lc's
/// signature `their_sig`, reported as `their_len` bytes long, is a
/// full-length signature that the wrapper accepts over [`MSG`] under
/// `their_pk`.
pub open spec fn spec_interop(
    our_vk: Seq<u8>,
    our_sig: Seq<u8>,
    their_pk: Seq<u8>,
    their_sig: Seq<u8>,
    their_len: nat,
) -> bool {
    aws_mldsa_accepts(MlDsaLevel::MlDsa65, our_vk, msg_bytes(), our_sig) && !aws_mldsa_accepts(
        MlDsaLevel::MlDsa65,
        our_vk,
        tampered_bytes(),
        our_sig,
    ) && their_len == MLDSA65_SIG_LEN && mldsa65_accepts(their_pk, msg_bytes(), their_sig)
}

/// The interop verdict, [`spec_interop`], on given material.
pub fn interop_verdict(
    our_vk: &[u8],
    our_sig: &[u8],
    their_pk: &[u8],
    their_sig: &[u8],
    their_len: usize,
) -> (ok: bool)
    ensures
        ok == spec_interop(our_vk@, our_sig@, their_pk@, their_sig@, their_len as nat),
{
    let ours_under_aws = aws_mldsa_verify(MlDsaLevel::MlDsa65, our_vk, MSG.as_bytes(), our_sig);
    let aws_rejects = !aws_mldsa_verify(
        MlDsaLevel::MlDsa65,
        our_vk,
        TAMPERED.as_bytes(),
        our_sig,
    );
    let theirs_under_ours = their_len == MLDSA65_SIG_LEN && mldsa65_verify(
        their_pk,
        MSG.as_bytes(),
        their_sig,
    );
    ours_under_aws && aws_rejects && theirs_under_ours
}

/// The interop gate with the wrapper's side made from `seed` and `rnd`: the
/// key expanded from `seed` and its signature over [`MSG`] with the hedging
/// randomness `rnd`, against aws-lc's public key `their_pk` and signature
/// `their_sig` of reported length `their_len`.
pub fn cross_check_with_aws_lc_from(
    seed: [u8; 32],
    rnd: [u8; 32],
    their_pk: &[u8],
    their_sig: &[u8],
    their_len: usize,
) -> (ok: bool)
    ensures
        ok == spec_interop(
            mldsa65_public_key_of_seed(seed@),
            mldsa65_signature(seed@, msg_bytes(), rnd@),
            their_pk@,
            their_sig@,
            their_len as nat,
        ),
{
    let (_, vk, sig) = generate_from(seed, rnd);
    interop_verdict(&vk, &sig, their_pk, their_sig, their_len)
}

/// Interop gate for the head-to-head: each library must accept the other's
/// signatures, and aws-lc must reject the wrapper's signature over a
/// tampered message. The wrapper's side comes from a fresh seed and fresh
/// hedging randomness, aws-lc's from a fresh ML-DSA-65 key pair signing
/// [`MSG`]; the verdict is [`cross_check_with_aws_lc_from`]. Fails when the
/// operating system's generator or aws-lc cannot produce its material.
pub fn cross_check_with_aws_lc() -> (ok: bool)
    ensures
        ok ==> exists|seed: Seq<u8>, rnd: Seq<u8>, pk: Seq<u8>, asig: Seq<u8>|
            #![trigger mldsa65_signature(seed, msg_bytes(), rnd), mldsa65_accepts(pk, msg_bytes(), asig)]
            seed.len() == MLDSA65_SEED_LEN && rnd.len() == 32 && pk.len() == MLDSA65_PK_LEN
                && spec_interop(
                mldsa65_public_key_of_seed(seed),
                mldsa65_signature(seed, msg_bytes(), rnd),
                pk,
                asig,
                MLDSA65_SIG_LEN as nat,
            ),
{
    let seed = match os_random_32() {
        Some(s) => s,
        None => return false,
    };
    let rnd = match os_random_32() {
        Some(r) => r,
        None => return false,
    };
    let kp = match aws_mldsa_generate(MlDsaLevel::MlDsa65) {
        Some(kp) => kp,
        None => return false,
    };
    match aws_mldsa_sign(&kp, MSG.as_bytes(), MLDSA65_SIG_LEN) {
        Some((n, asig, pk)) => {
            let ok = cross_check_with_aws_lc_from(seed, rnd, &pk, &asig, n);
            proof {
                if ok {
                    assert(mldsa65_accepts(pk@, msg_bytes(), asig@));
                }
            }
            ok
        },
        None => false,
    }
}

} // verus!
