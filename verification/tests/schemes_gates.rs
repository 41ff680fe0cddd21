use pq_sig_bench::schemes::ed25519::{ed25519_gate, Ed25519Baseline};
use pq_sig_bench::schemes::falcon::{
    falcon1024_gate, falcon512_gate, Falcon1024PqClean, Falcon512PqClean,
};
use pq_sig_bench::schemes::mldsa::{accept_signature, aws_mldsa_gate, MlDsaAwsLc, MlDsaLevel};
use pq_sig_bench::schemes::mldsa_mysten::{
    cross_check_with_aws_lc, cross_check_with_aws_lc_from, generate, generate_from,
    interop_verdict, mldsa65_gate, MlDsa65Mysten, MLDSA65_PK_LEN, MLDSA65_SIG_LEN,
};
use pq_sig_bench::schemes::mldsa_options::{
    cross_check_libcrux, cross_check_libcrux_from, cross_check_pqclean, cross_check_rustcrypto,
    cross_check_rustcrypto_from, libcrux_verdict, pqclean_verdict, rustcrypto_verdict,
};
use pq_sig_bench::schemes::slhdsa::{SlhDsa128sFastcrypto, SLH_N};
use pq_sig_bench::{all_schemes, Scheme, SchemeRow, MSG};

use fastcrypto::ed25519::Ed25519KeyPair;
use fastcrypto::traits::{KeyPair, Signer, ToFromBytes};
use pqcrypto_falcon::{falconpadded1024 as f1024, falconpadded512 as f512};
use pqcrypto_traits::sign::{DetachedSignature, PublicKey};
use rand::{rngs::StdRng, SeedableRng};

#[test]
fn every_listed_row_passes_its_self_check() {
    for s in all_schemes() {
        let m = s.meta();
        assert!(s.self_check(), "self-check failed for {} / {}", m.scheme, m.name);
    }
}

#[test]
fn rows_come_in_report_order() {
    let rows = all_schemes();
    let schemes: Vec<&str> = rows.iter().map(|r| r.meta().scheme).collect();
    assert_eq!(
        schemes,
        vec!["Ed25519", "FN-DSA-512", "FN-DSA-1024", "ML-DSA-44", "ML-DSA-65", "ML-DSA-87"]
    );
    assert_eq!(rows[0].meta().name, "fastcrypto (baseline)");
    assert_eq!(rows[1].meta().name, "PQClean C");
    assert_eq!(rows[3].meta().name, "aws-lc-rs");
    assert_eq!(rows[4].meta().name, "mysten wrapper (native)");
    assert!(matches!(rows[4], SchemeRow::MlDsa65Mysten(_)));
}

#[test]
fn ed25519_gate_accepts_a_genuine_signature_only() {
    let kp = Ed25519KeyPair::generate(&mut StdRng::from_seed([7u8; 32]));
    let pk = kp.public().as_bytes().to_vec();
    let sig = kp.sign(MSG.as_bytes()).as_bytes().to_vec();
    assert!(ed25519_gate(&pk, &sig));
    let tampered = kp.sign(b"tampered").as_bytes().to_vec();
    assert!(!ed25519_gate(&pk, &tampered));
    assert!(!ed25519_gate(&pk, &[0u8; 64]));
    assert!(!ed25519_gate(&[1u8; 3], &sig));
    assert!(Ed25519Baseline.self_check());
}

#[test]
fn falcon_gates_reject_garbage() {
    assert!(!falcon512_gate(&[0u8; 897], &[0u8; 666]));
    assert!(!falcon1024_gate(&[0u8; 1793], &[0u8; 1280]));
    assert!(Falcon512PqClean.self_check());
    assert!(Falcon1024PqClean.self_check());
}

#[test]
fn falcon_gate_accepts_pqclean_material() {
    let (pk, sk) = f512::keypair();
    let sig = f512::detached_sign(MSG.as_bytes(), &sk);
    assert!(falcon512_gate(pk.as_bytes(), sig.as_bytes()));
    let other = f512::detached_sign(b"tampered", &sk);
    assert!(!falcon512_gate(pk.as_bytes(), other.as_bytes()));
}

#[test]
fn falcon1024_gate_accepts_pqclean_material() {
    let (pk, sk) = f1024::keypair();
    let sig = f1024::detached_sign(MSG.as_bytes(), &sk);
    assert!(falcon1024_gate(pk.as_bytes(), sig.as_bytes()));
    let (pk2, _) = f1024::keypair();
    assert!(!falcon1024_gate(pk2.as_bytes(), sig.as_bytes()));
}

#[test]
fn mysten_generate_has_fips_204_sizes() {
    let (_, vk, sig) = generate().expect("the OS generator works here");
    assert_eq!(vk.len(), MLDSA65_PK_LEN);
    assert_eq!(sig.len(), MLDSA65_SIG_LEN);
    assert!(mldsa65_gate(&vk, &sig));
    let mut bad = sig.clone();
    bad[0] ^= 1;
    assert!(!mldsa65_gate(&vk, &bad));
    assert!(MlDsa65Mysten.self_check());
}

#[test]
fn aws_lc_rows_generate_fixed_length_signatures() {
    for (row, len) in [
        (MlDsaAwsLc::ml_dsa_44(), 2420usize),
        (MlDsaAwsLc::ml_dsa_65(), 3309),
        (MlDsaAwsLc::ml_dsa_87(), 4627),
    ] {
        assert_eq!(row.level.signature_len(), len);
        let (_, pk, sig) = row.generate().expect("aws-lc works here");
        assert_eq!(sig.len(), len);
        assert!(aws_mldsa_gate(row.level, &pk, &sig));
        assert!(row.self_check());
    }
}

#[test]
fn aws_lc_gate_is_level_specific() {
    let row = MlDsaAwsLc::ml_dsa_44();
    let (_, pk, sig) = row.generate().unwrap();
    assert!(!aws_mldsa_gate(MlDsaLevel::MlDsa65, &pk, &sig));
}

#[test]
fn wrapper_and_aws_lc_interoperate() {
    assert!(cross_check_with_aws_lc());
}

#[test]
fn interop_verdict_needs_a_full_length_signature() {
    let (_, vk, sig) = generate().unwrap();
    let (_, vk2, sig2) = generate().unwrap();
    assert!(interop_verdict(&vk, &sig, &vk2, &sig2, MLDSA65_SIG_LEN));
    assert!(!interop_verdict(&vk, &sig, &vk2, &sig2, MLDSA65_SIG_LEN - 1));
    assert!(!interop_verdict(&vk, &sig2, &vk2, &sig2, MLDSA65_SIG_LEN));
}

#[test]
fn contenders_cross_verify_against_the_wrapper() {
    let (_, vk, sig) = generate().unwrap();
    assert!(cross_check_rustcrypto(&vk, &sig));
    assert!(cross_check_libcrux(&vk, &sig));
    assert!(cross_check_pqclean(&vk, &sig));
}

#[test]
fn contender_verdicts_fail_on_a_wrong_signature() {
    let (_, vk, sig) = generate().unwrap();
    let (_, vk2, sig2) = generate().unwrap();
    assert!(!rustcrypto_verdict(&vk2, &sig2, &vk, &sig2));
    assert!(!libcrux_verdict(&vk2, &sig2, &vk, &sig2));
    assert!(!pqclean_verdict(&vk2, &sig2, &vk, &sig2));
    assert!(rustcrypto_verdict(&vk2, &sig2, &vk, &sig));
    assert!(libcrux_verdict(&vk2, &sig2, &vk, &sig));
    assert!(pqclean_verdict(&vk2, &sig2, &vk, &sig));
}

#[test]
fn slh_dsa_sizes_and_verdict() {
    assert_eq!(SLH_N, 16);
    assert_eq!(SlhDsa128sFastcrypto::pk_len(), 32);
    assert_eq!(SlhDsa128sFastcrypto::sk_len(), 64);
    assert_eq!(SlhDsa128sFastcrypto.meta().scheme, "SLH-DSA-SHA2-128s");
    assert!(SlhDsa128sFastcrypto::self_check_verdict(true, 7856, 7856, Some(true), false));
    assert!(!SlhDsa128sFastcrypto::self_check_verdict(false, 7856, 7856, Some(true), false));
    assert!(!SlhDsa128sFastcrypto::self_check_verdict(true, 7855, 7856, Some(true), false));
    assert!(!SlhDsa128sFastcrypto::self_check_verdict(true, 7856, 7856, None, false));
    assert!(!SlhDsa128sFastcrypto::self_check_verdict(true, 7856, 7856, Some(false), false));
    assert!(!SlhDsa128sFastcrypto::self_check_verdict(true, 7856, 7856, Some(true), true));
}

#[test]
fn wrapper_material_follows_the_seed_and_randomness() {
    let seed = [1u8; 32];
    let rnd = [42u8; 32];
    let (_, vk, sig) = generate_from(seed, rnd);
    let (_, vk_again, sig_again) = generate_from(seed, rnd);
    assert_eq!(vk, vk_again);
    assert_eq!(sig, sig_again);
    let (sk, expected_vk) = mysten_mldsa_native_rs::SigningKeySeed::from(seed).expand();
    assert_eq!(vk, expected_vk.as_bytes().to_vec());
    let expected_sig = sk.sign(MSG.as_bytes(), b"", &rnd).unwrap();
    assert_eq!(sig, expected_sig.as_bytes().to_vec());
    assert!(mldsa65_gate(&vk, &sig));
    let (_, _, other_rnd_sig) = generate_from(seed, [0u8; 32]);
    assert_ne!(sig, other_rnd_sig);
    let (_, other_vk, _) = generate_from([2u8; 32], rnd);
    assert_ne!(vk, other_vk);
    assert!(MlDsa65Mysten::self_check_from(seed, rnd));
    assert!(MlDsa65Mysten::self_check_from([9u8; 32], [0u8; 32]));
}

#[test]
fn same_seed_gives_the_same_key_in_every_implementation() {
    let seed = [3u8; 32];
    let (_, vk, _) = generate_from(seed, [0u8; 32]);
    let rc = ml_dsa::SigningKey::<ml_dsa::MlDsa65>::from_seed(&seed.into());
    assert_eq!(vk, rc.expanded_key().verifying_key().encode().to_vec());
    let lc = libcrux_ml_dsa::ml_dsa_65::generate_key_pair(seed);
    assert_eq!(vk, lc.verification_key.as_slice().to_vec());
}

#[test]
fn aws_lc_interop_on_given_material() {
    let kp = aws_lc_rs::signature::PqdsaKeyPair::generate(&aws_lc_rs::signature::ML_DSA_65_SIGNING).unwrap();
    let mut asig = vec![0u8; MLDSA65_SIG_LEN];
    let n = kp.sign(MSG.as_bytes(), &mut asig).unwrap();
    let pk = aws_lc_rs::signature::KeyPair::public_key(&kp).as_ref().to_vec();
    let seed = [5u8; 32];
    let rnd = [6u8; 32];
    assert!(cross_check_with_aws_lc_from(seed, rnd, &pk, &asig, n));
    assert!(!cross_check_with_aws_lc_from(seed, rnd, &pk, &asig, n - 1));
    let mut bad = asig.clone();
    bad[10] ^= 0x80;
    assert!(!cross_check_with_aws_lc_from(seed, rnd, &pk, &bad, n));
    let (_, other_pk, _) = generate_from([7u8; 32], rnd);
    assert!(!cross_check_with_aws_lc_from(seed, rnd, &other_pk, &asig, n));
}

#[test]
fn contender_checks_on_given_seeds() {
    let (_, vk, sig) = generate_from([11u8; 32], [12u8; 32]);
    assert!(cross_check_rustcrypto_from([13u8; 32], &vk, &sig));
    assert!(cross_check_libcrux_from([14u8; 32], [15u8; 32], &vk, &sig));
    let (_, _, other_sig) = generate_from([16u8; 32], [12u8; 32]);
    assert!(!cross_check_rustcrypto_from([13u8; 32], &vk, &other_sig));
    assert!(!cross_check_libcrux_from([14u8; 32], [15u8; 32], &vk, &other_sig));
}

#[test]
fn accept_signature_keeps_only_the_fips_length() {
    assert_eq!(accept_signature(3309, vec![1, 2, 3], 3309), Some(vec![1, 2, 3]));
    assert_eq!(accept_signature(3308, vec![1, 2, 3], 3309), None);
    assert_eq!(accept_signature(2420, vec![], 4627), None);
}

#[test]
fn aws_lc_rows_sign_the_benchmark_message() {
    for row in [MlDsaAwsLc::ml_dsa_44(), MlDsaAwsLc::ml_dsa_65(), MlDsaAwsLc::ml_dsa_87()] {
        let (_, pk, sig) = row.generate().expect("aws-lc works here");
        assert_eq!(sig.len(), row.sig_len());
        let expected_pk_len = match row.level {
            MlDsaLevel::MlDsa44 => 1312,
            MlDsaLevel::MlDsa65 => 1952,
            MlDsaLevel::MlDsa87 => 2592,
        };
        assert_eq!(pk.len(), expected_pk_len);
        assert!(aws_mldsa_gate(row.level, &pk, &sig));
    }
}
