//! The verifier pipeline and the KZG accumulator on a real trusted setup:
//! structural invariants, term counts, order independence, and rejection of
//! proofs that do not satisfy the relation.

use ark_ec::CurveGroup;
use ark_ed_on_bls12_381_bandersnatch::EdwardsAffine;
use ark_ff::{FftField, PrimeField};
use ark_serialize::CanonicalSerialize;
use ark_std::rand::Rng;
use ark_std::test_rng;
use ark_std::UniformRand;
use ring_proof::field::Scalar;
use ring_proof::g1::{g1_from_bytes, G1Point, KzgVk};
use ring_proof::piop::{FixedColumnsCommitted, PiopParams, RingProof, VerifierKey};
use ring_proof::ring_verifier::RingVerifier;
use ring_proof::te::TePoint;
use ring_proof::transcript::ArkTranscript;
use w3f_pcs::pcs::{PcsParams, PCS};

type Fr = ark_bls12_381::Fr;
type G1 = ark_bls12_381::G1Projective;

fn ser<T: CanonicalSerialize>(value: &T) -> Vec<u8> {
    let mut bytes = Vec::new();
    value.serialize_compressed(&mut bytes).unwrap();
    bytes
}

fn scalar(x: Fr) -> Scalar {
    Scalar::from_limbs(x.into_bigint().0).unwrap()
}

fn g1_point<R: Rng>(rng: &mut R) -> G1Point {
    let p = G1::rand(rng).into_affine();
    g1_from_bytes(&ser(&p)).unwrap()
}

fn te_point<R: Rng>(rng: &mut R) -> TePoint {
    let p = EdwardsAffine::rand(rng);
    TePoint { x: scalar(p.x), y: scalar(p.y) }
}

fn make_verifier() -> RingVerifier {
    let rng = &mut test_rng();
    let urs = w3f_pcs::pcs::kzg::KZG::<ark_bls12_381::Bls12_381>::setup(64, rng);
    let raw = urs.raw_vk();
    let kzg_vk = KzgVk::new(&ser(&raw.g1), &ser(&raw.g2), &ser(&raw.tau_in_g2)).unwrap();
    let fixed = FixedColumnsCommitted {
        key_x: g1_point(rng),
        key_y: g1_point(rng),
        selector: g1_point(rng),
    };
    let params = PiopParams {
        domain_size: 512,
        omega: scalar(Fr::get_root_of_unity(512).unwrap()),
        h: te_point(rng),
        seed: te_point(rng),
        padding: te_point(rng),
    };
    RingVerifier::init(
        VerifierKey { kzg_vk, fixed_columns_committed: fixed },
        params,
        ArkTranscript::new(b"ring-proof-test"),
    )
}

/// Two identical well-shaped proofs whose openings do not satisfy the
/// relation, plus the claimed result point.
fn proof_duo<R: Rng>(rng: &mut R) -> (RingProof, RingProof, TePoint, TePoint) {
    let comms: Vec<Vec<u8>> = (0..4).map(|_| ser(&G1::rand(rng).into_affine())).collect();
    let evals: Vec<Fr> = (0..7).map(|_| Fr::rand(rng)).collect();
    let quotient = ser(&G1::rand(rng).into_affine());
    let lin = Fr::rand(rng);
    let agg_proof = ser(&G1::rand(rng).into_affine());
    let lin_proof = ser(&G1::rand(rng).into_affine());
    let result = EdwardsAffine::rand(rng);
    let build = || RingProof {
        column_commitments: comms.iter().map(|b| g1_from_bytes(b).unwrap()).collect(),
        columns_at_zeta: evals.iter().map(|x| scalar(*x)).collect(),
        quotient_commitment: g1_from_bytes(&quotient).unwrap(),
        lin_at_zeta_omega: scalar(lin),
        agg_at_zeta_proof: g1_from_bytes(&agg_proof).unwrap(),
        lin_at_zeta_omega_proof: g1_from_bytes(&lin_proof).unwrap(),
    };
    let r1 = TePoint { x: scalar(result.x), y: scalar(result.y) };
    let r2 = TePoint { x: scalar(result.x), y: scalar(result.y) };
    (build(), build(), r1, r2)
}

#[test]
fn garbage_proof_is_rejected() {
    let verifier = make_verifier();
    let rng = &mut test_rng();
    let (proof, _, result, _) = proof_duo(rng);
    assert!(!verifier.verify(&proof, &result));
}

#[test]
fn wrong_shape_is_rejected() {
    let verifier = make_verifier();
    let rng = &mut test_rng();
    let (mut proof, _, result, _) = proof_duo(rng);
    proof.column_commitments.pop();
    assert!(!verifier.verify(&proof, &result));
}

#[test]
fn off_curve_result_is_rejected() {
    let verifier = make_verifier();
    let rng = &mut test_rng();
    let (proof, _, _, _) = proof_duo(rng);
    let bad = TePoint { x: Scalar::from_u64(1), y: Scalar::from_u64(2) };
    assert!(!verifier.verify(&proof, &bad));
}

#[test]
fn empty_batches_accept() {
    let verifier = make_verifier();
    assert!(verifier.verify_batch(&Vec::new(), &Vec::new()));
    let verifier = make_verifier();
    assert!(verifier.verify_batch_kzg(Vec::new(), &Vec::new()));
}

#[test]
fn batch_with_garbage_rejects() {
    let verifier = make_verifier();
    let rng = &mut test_rng();
    let (p1, p2, r1, r2) = proof_duo(rng);
    assert!(!verifier.verify_batch(&vec![p1, p2], &vec![r1, r2]));
    let verifier = make_verifier();
    let (p1, p2, r1, r2) = proof_duo(rng);
    assert!(!verifier.verify_batch_kzg(vec![p1, p2], &vec![r1, r2]));
}

#[test]
fn accumulator_lists_stay_parallel_and_grow_linearly() {
    let verifier = make_verifier();
    let mut batch = verifier.kzg_batch_verifier();
    let rng = &mut test_rng();
    for k in 0..3usize {
        assert_eq!(batch.acc.num_acc_terms(), 1 + 13 * k);
        assert_eq!(batch.acc.num_acc_scalars(), batch.acc.num_acc_terms());
        assert_eq!(batch.acc.num_proofs(), 2 * k);
        assert_eq!(batch.acc.num_randomizers(), batch.acc.num_proofs());
        let (proof, _, result, _) = proof_duo(rng);
        assert!(batch.push(proof, &result));
    }
    assert_eq!(batch.acc.num_acc_terms(), 1 + 13 * 3);
    assert_eq!(batch.acc.num_proofs(), 2 * 3);
}

#[test]
fn rejected_push_leaves_the_accumulator_unchanged() {
    let verifier = make_verifier();
    let mut batch = verifier.kzg_batch_verifier();
    let rng = &mut test_rng();
    let (mut proof, _, result, _) = proof_duo(rng);
    proof.columns_at_zeta.pop();
    assert!(!batch.push(proof, &result));
    assert_eq!(batch.acc.num_acc_terms(), 1);
    assert_eq!(batch.acc.num_proofs(), 0);
}

#[test]
fn push_order_does_not_change_the_verdict() {
    let rng = &mut test_rng();
    let (pa1, pa2, ra1, ra2) = proof_duo(rng);
    let (pb1, pb2, rb1, rb2) = proof_duo(rng);

    let mut first = make_verifier().kzg_batch_verifier();
    let ia = first.prepare(pa1, &ra1).unwrap();
    let ib = first.prepare(pb1, &rb1).unwrap();
    first.push_prepared(ia);
    first.push_prepared(ib);

    let mut second = make_verifier().kzg_batch_verifier();
    let ib2 = second.prepare(pb2, &rb2).unwrap();
    let ia2 = second.prepare(pa2, &ra2).unwrap();
    second.push_prepared(ib2);
    second.push_prepared(ia2);

    assert_eq!(first.verify(), second.verify());
    assert_eq!(first.acc.num_acc_terms(), second.acc.num_acc_terms());
}

#[test]
fn repeated_verify_repeats_the_verdict() {
    let verifier = make_verifier();
    let mut batch = verifier.kzg_batch_verifier();
    let rng = &mut test_rng();
    let (proof, _, result, _) = proof_duo(rng);
    assert!(batch.push(proof, &result));
    let v1 = batch.verify();
    let v2 = batch.verify();
    assert_eq!(v1, v2);
}

#[test]
fn single_and_batch_agree_on_rejection() {
    let rng = &mut test_rng();
    let (p1, p2, r1, r2) = proof_duo(rng);
    let single = make_verifier().verify(&p1, &r1);
    let naive = make_verifier().verify_batch(&vec![p1], &vec![r1]);
    let accumulated = make_verifier().verify_batch_kzg(vec![p2], &vec![r2]);
    assert_eq!(single, naive);
    assert_eq!(naive, accumulated);
    assert!(!single);
}
