//! The measured rows and their correctness gates.
pub mod ed25519;
pub mod falcon;
pub mod mldsa;
pub mod mldsa_mysten;
pub mod mldsa_options;
pub mod slhdsa;

use crate::{msg_bytes, tampered_bytes, Meta, Scheme};
use ed25519::ed25519_accepts;
use falcon::{falcon1024_accepts, falcon512_accepts};
use mldsa::aws_mldsa_accepts;
use mldsa_mysten::mldsa65_accepts;
use ed25519::Ed25519Baseline;
use falcon::{Falcon1024PqClean, Falcon512PqClean};
use mldsa::MlDsaAwsLc;
use mldsa_mysten::MlDsa65Mysten;
use vstd::prelude::*;

verus! {

/// One row of the scheme comparison, in report order.
pub enum SchemeRow {
    Ed25519(Ed25519Baseline),
    Falcon512(Falcon512PqClean),
    Falcon1024(Falcon1024PqClean),
    /// ML-DSA-44 and ML-DSA-87: mysten-mldsa-native-rs 0.2.0 carries
    /// ML-DSA-65 only, so these levels are measured on the same mldsa-native C
    /// through aws-lc-rs.
    MlDsaAwsLc(MlDsaAwsLc),
    MlDsa65Mysten(MlDsa65Mysten),
}

impl SchemeRow {
    /// What the row is.
    pub open spec fn spec_meta(self) -> Meta {
        match self {
            SchemeRow::Ed25519(_) => Ed25519Baseline::spec_meta(),
            SchemeRow::Falcon512(_) => Falcon512PqClean::spec_meta(),
            SchemeRow::Falcon1024(_) => Falcon1024PqClean::spec_meta(),
            SchemeRow::MlDsaAwsLc(s) => s.spec_meta(),
            SchemeRow::MlDsa65Mysten(_) => MlDsa65Mysten::spec_meta(),
        }
    }
}

impl SchemeRow {
    /// Some key and signature over [`MSG`](crate::MSG) pass the row's gate:
    /// its verifier accepts the signature and rejects it over
    /// [`TAMPERED`](crate::TAMPERED).
    pub open spec fn gate_witnessed(self) -> bool {
        match self {
            SchemeRow::Ed25519(_) => exists|pk: Seq<u8>, sig: Seq<u8>|
                ed25519_accepts(pk, msg_bytes(), sig) && !ed25519_accepts(
                    pk,
                    tampered_bytes(),
                    sig,
                ),
            SchemeRow::Falcon512(_) => exists|pk: Seq<u8>, sig: Seq<u8>|
                falcon512_accepts(pk, msg_bytes(), sig) && !falcon512_accepts(
                    pk,
                    tampered_bytes(),
                    sig,
                ),
            SchemeRow::Falcon1024(_) => exists|pk: Seq<u8>, sig: Seq<u8>|
                falcon1024_accepts(pk, msg_bytes(), sig) && !falcon1024_accepts(
                    pk,
                    tampered_bytes(),
                    sig,
                ),
            SchemeRow::MlDsaAwsLc(r) => exists|pk: Seq<u8>, sig: Seq<u8>|
                aws_mldsa_accepts(r.level, pk, msg_bytes(), sig) && !aws_mldsa_accepts(
                    r.level,
                    pk,
                    tampered_bytes(),
                    sig,
                ),
            SchemeRow::MlDsa65Mysten(_) => exists|vk: Seq<u8>, sig: Seq<u8>|
                mldsa65_accepts(vk, msg_bytes(), sig) && !mldsa65_accepts(
                    vk,
                    tampered_bytes(),
                    sig,
                ),
        }
    }
}

impl Scheme for SchemeRow {
    fn meta(&self) -> (m: Meta)
        ensures
            m == self.spec_meta(),
    {
        match self {
            SchemeRow::Ed25519(s) => s.meta(),
            SchemeRow::Falcon512(s) => s.meta(),
            SchemeRow::Falcon1024(s) => s.meta(),
            SchemeRow::MlDsaAwsLc(s) => s.meta(),
            SchemeRow::MlDsa65Mysten(s) => s.meta(),
        }
    }

    /// The row's own self-check.
    fn self_check(&self) -> (ok: bool)
        ensures
            ok ==> self.gate_witnessed(),
            self is Ed25519 ==> ok == Ed25519Baseline::spec_self_check(),
    {
        match self {
            SchemeRow::Ed25519(s) => s.self_check(),
            SchemeRow::Falcon512(s) => s.self_check(),
            SchemeRow::Falcon1024(s) => s.self_check(),
            SchemeRow::MlDsaAwsLc(s) => s.self_check(),
            SchemeRow::MlDsa65Mysten(s) => s.self_check(),
        }
    }
}

/// The rows of the scheme comparison, one implementation per row, in report
/// order: the Ed25519 baseline, the two Falcon parameter sets, then ML-DSA at
/// its three levels with the ML-DSA-65 pick in the middle.
///
/// Six rows where the comparison names seven, forced by the only registry
/// versions of two dependencies:
/// - SLH-DSA-SHA2-128s has no row: fastcrypto 0.1.11, the only version
///   published, ships the sphincs parameter and tree building blocks without
///   the top-level `slh_keygen`, `slh_sign` and `slh_verify` (its sizes and
///   self-check verdict are in [`slhdsa`]).
/// - ML-DSA-44 and ML-DSA-87 are measured through aws-lc-rs, on the same
///   mldsa-native C, and labelled "aws-lc-rs": mysten-mldsa-native-rs 0.2.0,
///   the only version published, carries ML-DSA-65 only.
pub fn all_schemes() -> (v: Vec<SchemeRow>)
    ensures
        v@.len() == 6,
        v@[0] is Ed25519,
        v@[1] is Falcon512,
        v@[2] is Falcon1024,
        v@[3] matches SchemeRow::MlDsaAwsLc(r) && r == MlDsaAwsLc::spec_ml_dsa_44(),
        v@[4] is MlDsa65Mysten,
        v@[5] matches SchemeRow::MlDsaAwsLc(r) && r == MlDsaAwsLc::spec_ml_dsa_87(),
{
    let mut v: Vec<SchemeRow> = Vec::new();
    v.push(SchemeRow::Ed25519(Ed25519Baseline));
    v.push(SchemeRow::Falcon512(Falcon512PqClean));
    v.push(SchemeRow::Falcon1024(Falcon1024PqClean));
    v.push(SchemeRow::MlDsaAwsLc(MlDsaAwsLc::ml_dsa_44()));
    v.push(SchemeRow::MlDsa65Mysten(MlDsa65Mysten));
    v.push(SchemeRow::MlDsaAwsLc(MlDsaAwsLc::ml_dsa_87()));
    v
}

} // verus!
