//! ML-DSA (FIPS 204) at all three security levels through aws-lc-rs: the
//! mldsa-native C imported by AWS-LC. The API only signs hedged (one 32-byte
//! RNG draw per signature).
use crate::{msg_bytes, tampered_bytes, Meta, Scheme, MSG, TAMPERED};
use aws_lc_rs::signature::{
    KeyPair, PqdsaKeyPair, UnparsedPublicKey, ML_DSA_44, ML_DSA_44_SIGNING, ML_DSA_65,
    ML_DSA_65_SIGNING, ML_DSA_87, ML_DSA_87_SIGNING,
};
use vstd::prelude::*;

verus! {

/// An ML-DSA parameter set.
#[derive(Clone, Copy, PartialEq, Eq, Structural)]
pub enum MlDsaLevel {
    MlDsa44,
    MlDsa65,
    MlDsa87,
}

impl MlDsaLevel {
    /// FIPS 204 public-key length of the parameter set, in bytes.
    pub open spec fn pk_len(self) -> nat {
        match self {
            MlDsaLevel::MlDsa44 => 1312,
            MlDsaLevel::MlDsa65 => 1952,
            MlDsaLevel::MlDsa87 => 2592,
        }
    }

    /// FIPS 204 signature length of the parameter set, in bytes.
    pub open spec fn sig_len(self) -> nat {
        match self {
            MlDsaLevel::MlDsa44 => 2420,
            MlDsaLevel::MlDsa65 => 3309,
            MlDsaLevel::MlDsa87 => 4627,
        }
    }

    /// The FIPS 204 signature length of the parameter set.
    pub fn signature_len(self) -> (n: usize)
        ensures
            n == self.sig_len(),
    {
        match self {
            MlDsaLevel::MlDsa44 => 2420,
            MlDsaLevel::MlDsa65 => 3309,
            MlDsaLevel::MlDsa87 => 4627,
        }
    }
}

/// The parameter set whose FIPS 204 public key is `len` bytes long (the
/// three lengths differ).
pub open spec fn level_of_pk_len(len: nat) -> Option<MlDsaLevel> {
    if len == 1312 {
        Some(MlDsaLevel::MlDsa44)
    } else if len == 1952 {
        Some(MlDsaLevel::MlDsa65)
    } else if len == 2592 {
        Some(MlDsaLevel::MlDsa87)
    } else {
        None
    }
}

#[verifier::external_type_specification]
#[verifier::external_body]
pub struct ExPqdsaKeyPair(PqdsaKeyPair);

/// Whether aws-lc-rs's ML-DSA verifier for `level` accepts `sig` as a
/// signature over `msg` under the encoded public key `pk`.
pub uninterp spec fn aws_mldsa_accepts(
    level: MlDsaLevel,
    pk: Seq<u8>,
    msg: Seq<u8>,
    sig: Seq<u8>,
) -> bool;

/// `PqdsaKeyPair::generate` with the signing algorithm of `level`; `None`
/// when aws-lc reports a failure. Key generation is random and the key pair
/// is opaque, so nothing is claimed of it here; what it signs is claimed by
/// [`aws_mldsa_sign`].
#[verifier::external_body]
pub(crate) fn aws_mldsa_generate(level: MlDsaLevel) -> (r: Option<PqdsaKeyPair>) {
    let alg = match level {
        MlDsaLevel::MlDsa44 => &ML_DSA_44_SIGNING,
        MlDsaLevel::MlDsa65 => &ML_DSA_65_SIGNING,
        MlDsaLevel::MlDsa87 => &ML_DSA_87_SIGNING,
    };
    match PqdsaKeyPair::generate(alg) {
        Ok(kp) => Some(kp),
        Err(_) => None,
    }
}

/// `PqdsaKeyPair::sign` over `msg` into a zeroed buffer of `buf_len` bytes,
/// with the key pair's encoded public key (`KeyPair::public_key`): returns
/// the reported signature length, the buffer and the public key, or `None`
/// when aws-lc reports a failure (a buffer shorter than the signature, or a
/// failed signing). Signing is hedged, so the bytes are not claimed. Claimed:
/// the buffer keeps its length; a key pair of aws-lc-rs is one of the three
/// ML-DSA parameter sets, which its public key's length identifies; the
/// reported length is that set's FIPS 204 signature length (`sign` returns
/// `signature_len()`); and a buffer of exactly that length holds a signature
/// that the set's verifier accepts over `msg` under that public key (the
/// sign-then-verify round trip of the crate's own key-pair tests).
#[verifier::external_body]
pub(crate) fn aws_mldsa_sign(kp: &PqdsaKeyPair, msg: &[u8], buf_len: usize) -> (r: Option<
    (usize, Vec<u8>, Vec<u8>),
>)
    ensures
        r matches Some((n, sig, pk)) ==> {
            &&& sig.len() == buf_len
            &&& level_of_pk_len(pk.len() as nat) matches Some(l)
            &&& n == l.sig_len()
            &&& n == buf_len ==> aws_mldsa_accepts(l, pk@, msg@, sig@)
        },
{
    let mut sig = vec![0u8; buf_len];
    match kp.sign(msg, &mut sig) {
        Ok(n) => Some((n, sig, kp.public_key().as_ref().to_vec())),
        Err(_) => None,
    }
}

/// `UnparsedPublicKey::verify` for the verification algorithm of `level`.
/// Claimed: the answer is a function of the level and the three byte
/// strings, named [`aws_mldsa_accepts`].
#[verifier::external_body]
pub(crate) fn aws_mldsa_verify(level: MlDsaLevel, pk: &[u8], msg: &[u8], sig: &[u8]) -> (ok: bool)
    ensures
        ok == aws_mldsa_accepts(level, pk@, msg@, sig@),
{
    let alg = match level {
        MlDsaLevel::MlDsa44 => &ML_DSA_44,
        MlDsaLevel::MlDsa65 => &ML_DSA_65,
        MlDsaLevel::MlDsa87 => &ML_DSA_87,
    };
    UnparsedPublicKey::new(alg, pk).verify(msg, sig).is_ok()
}

/// The self-check gate on one aws-lc key and signature over [`MSG`].
pub fn aws_mldsa_gate(level: MlDsaLevel, pk: &[u8], sig: &[u8]) -> (ok: bool)
    ensures
        ok == (aws_mldsa_accepts(level, pk@, msg_bytes(), sig@) && !aws_mldsa_accepts(
            level,
            pk@,
            tampered_bytes(),
            sig@,
        )),
{
    aws_mldsa_verify(level, pk, MSG.as_bytes(), sig) && !aws_mldsa_verify(
        level,
        pk,
        TAMPERED.as_bytes(),
        sig,
    )
}

/// The signature buffer `sig`, kept only when aws-lc's reported length `n`
/// is the FIPS 204 length `sig_len` of the row.
pub fn accept_signature(n: usize, sig: Vec<u8>, sig_len: usize) -> (r: Option<Vec<u8>>)
    ensures
        r == (if n == sig_len {
            Some(sig)
        } else {
            None::<Vec<u8>>
        }),
{
    if n == sig_len {
        Some(sig)
    } else {
        None
    }
}

/// One aws-lc-rs row. The parameter sets differ only in the algorithm and
/// the FIPS 204 sizes, which the level carries, so one struct covers all
/// three.
#[derive(Clone, Copy)]
pub struct MlDsaAwsLc {
    pub scheme: &'static str,
    pub level: MlDsaLevel,
}

impl MlDsaAwsLc {
    /// The ML-DSA-44 row's description.
    pub open spec fn spec_ml_dsa_44() -> MlDsaAwsLc {
        MlDsaAwsLc { scheme: "ML-DSA-44", level: MlDsaLevel::MlDsa44 }
    }

    /// The ML-DSA-44 row.
    pub fn ml_dsa_44() -> (r: MlDsaAwsLc)
        ensures
            r == Self::spec_ml_dsa_44(),
    {
        MlDsaAwsLc { scheme: "ML-DSA-44", level: MlDsaLevel::MlDsa44 }
    }

    /// The ML-DSA-65 row's description.
    pub open spec fn spec_ml_dsa_65() -> MlDsaAwsLc {
        MlDsaAwsLc { scheme: "ML-DSA-65", level: MlDsaLevel::MlDsa65 }
    }

    /// The ML-DSA-65 row.
    pub fn ml_dsa_65() -> (r: MlDsaAwsLc)
        ensures
            r == Self::spec_ml_dsa_65(),
    {
        MlDsaAwsLc { scheme: "ML-DSA-65", level: MlDsaLevel::MlDsa65 }
    }

    /// The ML-DSA-87 row's description.
    pub open spec fn spec_ml_dsa_87() -> MlDsaAwsLc {
        MlDsaAwsLc { scheme: "ML-DSA-87", level: MlDsaLevel::MlDsa87 }
    }

    /// The ML-DSA-87 row.
    pub fn ml_dsa_87() -> (r: MlDsaAwsLc)
        ensures
            r == Self::spec_ml_dsa_87(),
    {
        MlDsaAwsLc { scheme: "ML-DSA-87", level: MlDsaLevel::MlDsa87 }
    }

    /// What the row is.
    pub open spec fn spec_meta(self) -> Meta {
        Meta { scheme: self.scheme, name: "aws-lc-rs" }
    }

    /// The row's FIPS 204 signature length, which what aws-lc emits is
    /// checked against.
    pub fn sig_len(&self) -> (n: usize)
        ensures
            n == self.level.sig_len(),
    {
        self.level.signature_len()
    }

    /// A fresh key pair, its encoded public key, and one signature over
    /// [`MSG`] of exactly the row's signature length, which the row's
    /// verifier accepts under that public key; `None` when aws-lc fails or
    /// reports a signature of another length ([`accept_signature`]).
    pub fn generate(&self) -> (r: Option<(PqdsaKeyPair, Vec<u8>, Vec<u8>)>)
        ensures
            r matches Some((kp, pk, sig)) ==> {
                &&& sig.len() == self.level.sig_len()
                &&& pk.len() == self.level.pk_len()
                &&& aws_mldsa_accepts(self.level, pk@, msg_bytes(), sig@)
            },
    {
        let kp = match aws_mldsa_generate(self.level) {
            Some(kp) => kp,
            None => return None,
        };
        let sig_len = self.sig_len();
        match aws_mldsa_sign(&kp, MSG.as_bytes(), sig_len) {
            Some((n, sig, pk)) => match accept_signature(n, sig, sig_len) {
                Some(sig) => Some((kp, pk, sig)),
                None => None,
            },
            None => None,
        }
    }
}

impl Scheme for MlDsaAwsLc {
    fn meta(&self) -> (m: Meta)
        ensures
            m == self.spec_meta(),
    {
        Meta { scheme: self.scheme, name: "aws-lc-rs" }
    }

    /// Generates a key pair and signature and applies [`aws_mldsa_gate`].
    fn self_check(&self) -> (ok: bool)
        ensures
            ok ==> exists|pk: Seq<u8>, sig: Seq<u8>|
                aws_mldsa_accepts(self.level, pk, msg_bytes(), sig) && !aws_mldsa_accepts(
                    self.level,
                    pk,
                    tampered_bytes(),
                    sig,
                ),
    {
        match self.generate() {
            Some((_, pk, sig)) => aws_mldsa_gate(self.level, &pk, &sig),
            None => false,
        }
    }
}

} // verus!
