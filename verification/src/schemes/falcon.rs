//! FN-DSA (Falcon), one row per parameter set, both from PQClean's portable
//! C (`falcon-padded-512` / `falcon-padded-1024`) in the padded fixed-size
//! signature format.
use crate::{msg_bytes, tampered_bytes, Meta, Scheme, MSG, TAMPERED};
use pqcrypto_falcon::{falconpadded1024 as f1024, falconpadded512 as f512};
use pqcrypto_traits::sign::{DetachedSignature, PublicKey, SecretKey};
use vstd::prelude::*;

verus! {

/// Length of a FN-DSA-512 public key in bytes.
pub const FALCON512_PK_LEN: usize = 897;

/// Length of a FN-DSA-512 secret key in bytes.
pub const FALCON512_SK_LEN: usize = 1281;

/// Length of a padded FN-DSA-512 signature in bytes.
pub const FALCON512_SIG_LEN: usize = 666;

/// Whether PQClean's FN-DSA-512 verifier accepts `sig` as a detached signature
/// over `msg` under the encoded public key `pk` (false when either encoding
/// does not parse).
pub uninterp spec fn falcon512_accepts(pk: Seq<u8>, msg: Seq<u8>, sig: Seq<u8>) -> bool;

/// Whether `pk` and `sk` are the encoded public and secret halves of one
/// FN-DSA-512 key pair drawn by `f512::keypair`.
pub uninterp spec fn falcon512_key_pair(pk: Seq<u8>, sk: Seq<u8>) -> bool;

/// Whether `sig` is one of the detached signatures that `f512::detached_sign`
/// can make over `msg` under the secret key encoded in `sk` (signing is
/// randomised, so this relates the three rather than naming one result).
pub uninterp spec fn falcon512_signed(sk: Seq<u8>, msg: Seq<u8>, sig: Seq<u8>) -> bool;

/// A fresh FN-DSA-512 key pair from `f512::keypair` (randomised), as encoded
/// public and secret keys. Claimed: the encodings have the fixed lengths
/// that the crate's key types hold, and they are the two halves of one
/// key pair. It panics if the operating system's random source fails
/// (pqcrypto-internals' `randombytes`).
#[verifier::external_body]
fn falcon512_keypair() -> (r: (Vec<u8>, Vec<u8>))
    ensures
        r.0.len() == FALCON512_PK_LEN,
        r.1.len() == FALCON512_SK_LEN,
        falcon512_key_pair(r.0@, r.1@),
{
    let (pk, sk) = f512::keypair();
    (pk.as_bytes().to_vec(), sk.as_bytes().to_vec())
}

/// A detached signature over `msg` from `f512::detached_sign` under the
/// secret key encoded in `sk`; `None` when `sk` does not parse (it parses
/// exactly when it is [`FALCON512_SK_LEN`] bytes long). Signing is
/// randomised, so its bytes are not claimed; claimed is that it is one of
/// the signer's outputs over `msg` under `sk`, and that it verifies under
/// every public key paired with `sk` (the sign-then-verify round trip of the
/// crate's own tests). It panics if the operating system's random source
/// fails (pqcrypto-internals' `randombytes`).
#[verifier::external_body]
fn falcon512_sign(msg: &[u8], sk: &[u8]) -> (r: Option<Vec<u8>>)
    ensures
        r is Some <==> sk@.len() == FALCON512_SK_LEN,
        r matches Some(sig) ==> falcon512_signed(sk@, msg@, sig@),
        r matches Some(sig) ==> forall|pk: Seq<u8>|
            #[trigger] falcon512_key_pair(pk, sk@) ==> falcon512_accepts(pk, msg@, sig@),
{
    match f512::SecretKey::from_bytes(sk) {
        Ok(sk) => Some(f512::detached_sign(msg, &sk).as_bytes().to_vec()),
        Err(_) => None,
    }
}

/// `f512::verify_detached_signature` on the decoded key and signature.
/// Claimed: the answer is a function of the three byte strings, named
/// [`falcon512_accepts`].
#[verifier::external_body]
fn falcon512_verify(pk: &[u8], msg: &[u8], sig: &[u8]) -> (ok: bool)
    ensures
        ok == falcon512_accepts(pk@, msg@, sig@),
{
    match (f512::PublicKey::from_bytes(pk), f512::DetachedSignature::from_bytes(sig)) {
        (Ok(pk), Ok(sig)) => f512::verify_detached_signature(&sig, msg, &pk).is_ok(),
        _ => false,
    }
}

/// The self-check gate on one FN-DSA-512 key and one signature over [`MSG`]:
/// the signature verifies and the same signature over [`TAMPERED`] does not.
pub fn falcon512_gate(pk: &[u8], sig: &[u8]) -> (ok: bool)
    ensures
        ok == (falcon512_accepts(pk@, msg_bytes(), sig@) && !falcon512_accepts(pk@, tampered_bytes(), sig@)),
{
    falcon512_verify(pk, MSG.as_bytes(), sig) && !falcon512_verify(pk, TAMPERED.as_bytes(), sig)
}

/// FN-DSA-512 from PQClean's portable C, padded signature format.
pub struct Falcon512PqClean;

impl Falcon512PqClean {
    /// What the row is.
    pub open spec fn spec_meta() -> Meta {
        Meta { scheme: "FN-DSA-512", name: "PQClean C" }
    }
}

impl Scheme for Falcon512PqClean {
    fn meta(&self) -> (m: Meta)
        ensures
            m == Self::spec_meta(),
    {
        Meta { scheme: "FN-DSA-512", name: "PQClean C" }
    }

    /// Draws a key pair, signs [`MSG`] and applies [`falcon512_gate`]: the
    /// answer is whether the same signature is rejected over [`TAMPERED`].
    fn self_check(&self) -> (ok: bool)
        ensures
            exists|pk: Seq<u8>, sk: Seq<u8>, sig: Seq<u8>|
                #![trigger falcon512_key_pair(pk, sk), falcon512_signed(sk, msg_bytes(), sig)]
                falcon512_key_pair(pk, sk) && falcon512_signed(sk, msg_bytes(), sig)
                    && falcon512_accepts(pk, msg_bytes(), sig) && ok == !falcon512_accepts(
                    pk,
                    tampered_bytes(),
                    sig,
                ),
            ok ==> exists|pk: Seq<u8>, sig: Seq<u8>|
                falcon512_accepts(pk, msg_bytes(), sig) && !falcon512_accepts(pk, tampered_bytes(), sig),
    {
        let (pk, sk) = falcon512_keypair();
        match falcon512_sign(MSG.as_bytes(), &sk) {
            Some(sig) => falcon512_gate(&pk, &sig),
            None => false,
        }
    }
}

/// Length of a FN-DSA-1024 public key in bytes.
pub const FALCON1024_PK_LEN: usize = 1793;

/// Length of a FN-DSA-1024 secret key in bytes.
pub const FALCON1024_SK_LEN: usize = 2305;

/// Length of a padded FN-DSA-1024 signature in bytes.
pub const FALCON1024_SIG_LEN: usize = 1280;

/// Whether PQClean's FN-DSA-1024 verifier accepts `sig` as a detached signature
/// over `msg` under the encoded public key `pk` (false when either encoding
/// does not parse).
pub uninterp spec fn falcon1024_accepts(pk: Seq<u8>, msg: Seq<u8>, sig: Seq<u8>) -> bool;

/// Whether `pk` and `sk` are the encoded public and secret halves of one
/// FN-DSA-1024 key pair drawn by `f1024::keypair`.
pub uninterp spec fn falcon1024_key_pair(pk: Seq<u8>, sk: Seq<u8>) -> bool;

/// Whether `sig` is one of the detached signatures that `f1024::detached_sign`
/// can make over `msg` under the secret key encoded in `sk` (signing is
/// randomised, so this relates the three rather than naming one result).
pub uninterp spec fn falcon1024_signed(sk: Seq<u8>, msg: Seq<u8>, sig: Seq<u8>) -> bool;

/// A fresh FN-DSA-1024 key pair from `f1024::keypair` (randomised), as encoded
/// public and secret keys. Claimed: the encodings have the fixed lengths
/// that the crate's key types hold, and they are the two halves of one
/// key pair. It panics if the operating system's random source fails
/// (pqcrypto-internals' `randombytes`).
#[verifier::external_body]
fn falcon1024_keypair() -> (r: (Vec<u8>, Vec<u8>))
    ensures
        r.0.len() == FALCON1024_PK_LEN,
        r.1.len() == FALCON1024_SK_LEN,
        falcon1024_key_pair(r.0@, r.1@),
{
    let (pk, sk) = f1024::keypair();
    (pk.as_bytes().to_vec(), sk.as_bytes().to_vec())
}

/// A detached signature over `msg` from `f1024::detached_sign` under the
/// secret key encoded in `sk`; `None` when `sk` does not parse (it parses
/// exactly when it is [`FALCON1024_SK_LEN`] bytes long). Signing is
/// randomised, so its bytes are not claimed; claimed is that it is one of
/// the signer's outputs over `msg` under `sk`, and that it verifies under
/// every public key paired with `sk` (the sign-then-verify round trip of the
/// crate's own tests). It panics if the operating system's random source
/// fails (pqcrypto-internals' `randombytes`).
#[verifier::external_body]
fn falcon1024_sign(msg: &[u8], sk: &[u8]) -> (r: Option<Vec<u8>>)
    ensures
        r is Some <==> sk@.len() == FALCON1024_SK_LEN,
        r matches Some(sig) ==> falcon1024_signed(sk@, msg@, sig@),
        r matches Some(sig) ==> forall|pk: Seq<u8>|
            #[trigger] falcon1024_key_pair(pk, sk@) ==> falcon1024_accepts(pk, msg@, sig@),
{
    match f1024::SecretKey::from_bytes(sk) {
        Ok(sk) => Some(f1024::detached_sign(msg, &sk).as_bytes().to_vec()),
        Err(_) => None,
    }
}

/// `f1024::verify_detached_signature` on the decoded key and signature.
/// Claimed: the answer is a function of the three byte strings, named
/// [`falcon1024_accepts`].
#[verifier::external_body]
fn falcon1024_verify(pk: &[u8], msg: &[u8], sig: &[u8]) -> (ok: bool)
    ensures
        ok == falcon1024_accepts(pk@, msg@, sig@),
{
    match (f1024::PublicKey::from_bytes(pk), f1024::DetachedSignature::from_bytes(sig)) {
        (Ok(pk), Ok(sig)) => f1024::verify_detached_signature(&sig, msg, &pk).is_ok(),
        _ => false,
    }
}

/// The self-check gate on one FN-DSA-1024 key and one signature over [`MSG`]:
/// the signature verifies and the same signature over [`TAMPERED`] does not.
pub fn falcon1024_gate(pk: &[u8], sig: &[u8]) -> (ok: bool)
    ensures
        ok == (falcon1024_accepts(pk@, msg_bytes(), sig@) && !falcon1024_accepts(pk@, tampered_bytes(), sig@)),
{
    falcon1024_verify(pk, MSG.as_bytes(), sig) && !falcon1024_verify(pk, TAMPERED.as_bytes(), sig)
}

/// FN-DSA-1024 from PQClean's portable C, padded signature format.
pub struct Falcon1024PqClean;

impl Falcon1024PqClean {
    /// What the row is.
    pub open spec fn spec_meta() -> Meta {
        Meta { scheme: "FN-DSA-1024", name: "PQClean C" }
    }
}

impl Scheme for Falcon1024PqClean {
    fn meta(&self) -> (m: Meta)
        ensures
            m == Self::spec_meta(),
    {
        Meta { scheme: "FN-DSA-1024", name: "PQClean C" }
    }

    /// Draws a key pair, signs [`MSG`] and applies [`falcon1024_gate`]: the
    /// answer is whether the same signature is rejected over [`TAMPERED`].
    fn self_check(&self) -> (ok: bool)
        ensures
            exists|pk: Seq<u8>, sk: Seq<u8>, sig: Seq<u8>|
                #![trigger falcon1024_key_pair(pk, sk), falcon1024_signed(sk, msg_bytes(), sig)]
                falcon1024_key_pair(pk, sk) && falcon1024_signed(sk, msg_bytes(), sig)
                    && falcon1024_accepts(pk, msg_bytes(), sig) && ok == !falcon1024_accepts(
                    pk,
                    tampered_bytes(),
                    sig,
                ),
            ok ==> exists|pk: Seq<u8>, sig: Seq<u8>|
                falcon1024_accepts(pk, msg_bytes(), sig) && !falcon1024_accepts(pk, tampered_bytes(), sig),
    {
        let (pk, sk) = falcon1024_keypair();
        match falcon1024_sign(MSG.as_bytes(), &sk) {
            Some(sig) => falcon1024_gate(&pk, &sig),
            None => false,
        }
    }
}

} // verus!
