//! End-to-end protocol tests with an honest prover: witness columns are
//! built for the ring-membership relation, committed with a real KZG setup,
//! and opened by replaying the verifier's transcript order, so honestly
//! generated proofs must verify and corrupted ones must not.

use ark_ec::twisted_edwards::TECurveConfig;
use ark_ec::{AffineRepr, CurveGroup};
use ark_ed_on_bls12_381_bandersnatch::{BandersnatchConfig, EdwardsAffine, EdwardsProjective};
use ark_ff::{Field, PrimeField, Zero};
use ark_poly::univariate::DensePolynomial;
use ark_poly::{DenseUVPolynomial, EvaluationDomain, Evaluations, GeneralEvaluationDomain, Polynomial};
use ark_serialize::CanonicalSerialize;
use ark_std::rand::Rng;
use ark_std::test_rng;
use ark_std::UniformRand;
use ring_proof::field::Scalar;
use ring_proof::g1::{g1_from_bytes, G1Point, KzgVk};
use ring_proof::piop::{FixedColumnsCommitted, PiopParams, RingProof, VerifierKey};
use ring_proof::ring_verifier::{
    RingVerifier, TAG_ALPHAS, TAG_COMMITMENTS, TAG_EVALS, TAG_NUS, TAG_QUOTIENT, TAG_RESULT,
    TAG_VK, TAG_ZETA,
};
use ring_proof::te::TePoint;
use ring_proof::transcript::ArkTranscript;
use w3f_pcs::pcs::{PcsParams, PCS};

type Fr = ark_bls12_381::Fr;
type Kzg = w3f_pcs::pcs::kzg::KZG<ark_bls12_381::Bls12_381>;
type Poly = DensePolynomial<Fr>;

const LABEL: &[u8] = b"ring-proof-test";

fn ser<T: CanonicalSerialize>(value: &T) -> Vec<u8> {
    let mut bytes = Vec::new();
    value.serialize_compressed(&mut bytes).unwrap();
    bytes
}

fn scalar(x: Fr) -> Scalar {
    Scalar::from_limbs(x.into_bigint().0).unwrap()
}

fn fr(s: &Scalar) -> Fr {
    Fr::from_bigint(ark_ff::BigInt(s.to_limbs())).unwrap()
}

fn g1(bytes: &[u8]) -> G1Point {
    g1_from_bytes(bytes).unwrap()
}

fn te(p: EdwardsAffine) -> TePoint {
    TePoint { x: scalar(p.x), y: scalar(p.y) }
}

/// `p(w * X)` from `p(X)`.
fn shift(p: &Poly, w: Fr) -> Poly {
    let mut coeffs = p.coeffs.clone();
    let mut factor = Fr::from(1u64);
    for c in coeffs.iter_mut() {
        *c *= factor;
        factor *= w;
    }
    Poly::from_coefficients_vec(coeffs)
}

/// The Lagrange basis polynomial that is 1 at row `i`.
fn lagrange(domain: GeneralEvaluationDomain<Fr>, i: usize) -> Poly {
    let mut evals = vec![Fr::zero(); domain.size()];
    evals[i] = Fr::from(1u64);
    Evaluations::from_vec_and_domain(evals, domain).interpolate()
}

fn interpolate(domain: GeneralEvaluationDomain<Fr>, evals: Vec<Fr>) -> Poly {
    Evaluations::from_vec_and_domain(evals, domain).interpolate()
}

/// One ring: the trusted setup, the committed fixed columns, and everything
/// the prover and verifier share.
struct Ring {
    n: usize,
    m: usize,
    domain: GeneralEvaluationDomain<Fr>,
    ck: w3f_pcs::pcs::kzg::params::KzgCommitterKey<ark_bls12_381::G1Affine>,
    vk_bytes: (Vec<u8>, Vec<u8>, Vec<u8>),
    pks: Vec<EdwardsAffine>,
    keys: Vec<EdwardsAffine>,
    h: EdwardsAffine,
    seed: EdwardsAffine,
    padding: EdwardsAffine,
    kx_p: Poly,
    ky_p: Poly,
    sel_p: Poly,
    fixed_bytes: [Vec<u8>; 3],
}

fn make_ring(n: usize, m: usize) -> Ring {
    let rng = &mut test_rng();
    let urs = Kzg::setup(5 * n, rng);
    let raw = urs.raw_vk();
    let ck = urs.ck();
    let domain = GeneralEvaluationDomain::<Fr>::new(n).unwrap();
    let pks: Vec<EdwardsAffine> = (0..m).map(|_| EdwardsAffine::rand(rng)).collect();
    let h = EdwardsAffine::rand(rng);
    let seed = EdwardsAffine::rand(rng);
    let padding = EdwardsAffine::rand(rng);
    // Key rows: the ring itself, then the powers-of-two multiples of the
    // blinding base for the fixed-base scalar multiplication, then padding.
    let mut keys = pks.clone();
    let mut power = h;
    for _ in m..(n - 1) {
        keys.push(power);
        power = (power + power).into_affine();
    }
    keys.push(padding);
    let kx_p = interpolate(domain, keys.iter().map(|p| p.x).collect());
    let ky_p = interpolate(domain, keys.iter().map(|p| p.y).collect());
    let mut sel = vec![Fr::from(1u64); m];
    sel.extend(vec![Fr::zero(); n - m]);
    let sel_p = interpolate(domain, sel);
    let fixed_bytes = [
        ser(&Kzg::commit(&ck, &kx_p).unwrap().0),
        ser(&Kzg::commit(&ck, &ky_p).unwrap().0),
        ser(&Kzg::commit(&ck, &sel_p).unwrap().0),
    ];
    Ring {
        n,
        m,
        domain,
        ck,
        vk_bytes: (ser(&raw.g1), ser(&raw.g2), ser(&raw.tau_in_g2)),
        pks,
        keys,
        h,
        seed,
        padding,
        kx_p,
        ky_p,
        sel_p,
        fixed_bytes,
    }
}

fn make_verifier(ring: &Ring) -> RingVerifier {
    let kzg_vk = KzgVk::new(&ring.vk_bytes.0, &ring.vk_bytes.1, &ring.vk_bytes.2).unwrap();
    let fixed = FixedColumnsCommitted {
        key_x: g1(&ring.fixed_bytes[0]),
        key_y: g1(&ring.fixed_bytes[1]),
        selector: g1(&ring.fixed_bytes[2]),
    };
    let params = PiopParams {
        domain_size: ring.n as u64,
        omega: scalar(ring.domain.group_gen()),
        h: te(ring.h),
        seed: te(ring.seed),
        padding: te(ring.padding),
    };
    RingVerifier::init(
        VerifierKey { kzg_vk, fixed_columns_committed: fixed },
        params,
        ArkTranscript::new(LABEL),
    )
}

/// Replays the prelude the verifier's `init` absorbs.
fn prover_transcript(ring: &Ring) -> ArkTranscript {
    let mut t = ArkTranscript::new(LABEL);
    t.append_tag(TAG_VK);
    t.append_scalar(&Scalar::from_u64(ring.n as u64));
    t.append_scalar(&scalar(ring.domain.group_gen()));
    t.append_scalar(&scalar(ring.seed.x));
    t.append_scalar(&scalar(ring.seed.y));
    t.append_scalar(&scalar(ring.h.x));
    t.append_scalar(&scalar(ring.h.y));
    t.append_scalar(&scalar(ring.padding.x));
    t.append_scalar(&scalar(ring.padding.y));
    t.append_bytes(&ring.fixed_bytes[0]);
    t.append_bytes(&ring.fixed_bytes[1]);
    t.append_bytes(&ring.fixed_bytes[2]);
    t
}

/// Proves knowledge of the secret behind ring index `j`, blinded by
/// `t_blind` (as a bit string over the scalar rows). Returns the proof and
/// the claimed blinded public key.
fn prove(ring: &Ring, j: usize, t_blind: u128) -> (RingProof, TePoint) {
    let n = ring.n;
    let m = ring.m;
    let s_bits = n - 1 - m;
    let domain = ring.domain;
    let w = domain.group_gen();
    let one = Poly::from_coefficients_vec(vec![Fr::from(1u64)]);

    // Witness columns.
    let mut bits = vec![false; n];
    bits[j] = true;
    for i in 0..s_bits.min(127) {
        bits[m + i] = (t_blind >> i) & 1 == 1;
    }
    let mut acc = vec![ring.seed];
    let mut ip = vec![Fr::zero()];
    for i in 0..(n - 1) {
        let next = if bits[i] {
            (acc[i] + ring.keys[i]).into_affine()
        } else {
            acc[i]
        };
        acc.push(next);
        let sel_i = if i < m {
            Fr::from(1u64)
        } else {
            Fr::zero()
        };
        let inc = if bits[i] {
            sel_i
        } else {
            Fr::zero()
        };
        ip.push(ip[i] + inc);
    }
    let spr = acc[n - 1];
    let result = (EdwardsProjective::from(spr) - EdwardsProjective::from(ring.seed)).into_affine();
    let b_p = interpolate(domain, bits.iter().map(|b| if *b { Fr::from(1u64) } else { Fr::zero() }).collect());
    let ip_p = interpolate(domain, ip.clone());
    let ax_p = interpolate(domain, acc.iter().map(|p| p.x).collect());
    let ay_p = interpolate(domain, acc.iter().map(|p| p.y).collect());

    // Commit the witness columns and derive the challenges in protocol
    // order.
    let comm_b = ser(&Kzg::commit(&ring.ck, &b_p).unwrap().0);
    let comm_ip = ser(&Kzg::commit(&ring.ck, &ip_p).unwrap().0);
    let comm_ax = ser(&Kzg::commit(&ring.ck, &ax_p).unwrap().0);
    let comm_ay = ser(&Kzg::commit(&ring.ck, &ay_p).unwrap().0);
    let mut t = prover_transcript(ring);
    t.append_tag(TAG_RESULT);
    t.append_scalar(&scalar(result.x));
    t.append_scalar(&scalar(result.y));
    t.append_tag(TAG_COMMITMENTS);
    t.append_bytes(&comm_b);
    t.append_bytes(&comm_ip);
    t.append_bytes(&comm_ax);
    t.append_bytes(&comm_ay);
    let alphas: Vec<Fr> = t.challenge_scalars(TAG_ALPHAS, 10).iter().map(fr).collect();

    // The ten constraint polynomials.
    let nl = Poly::from_coefficients_vec(vec![-w.pow([n as u64 - 1]), Fr::from(1u64)]);
    let l0 = lagrange(domain, 0);
    let ln1 = lagrange(domain, n - 1);
    let d = BandersnatchConfig::COEFF_D;
    let a = BandersnatchConfig::COEFF_A;
    let sx = Poly::from_coefficients_vec(vec![ring.seed.x]);
    let sy = Poly::from_coefficients_vec(vec![ring.seed.y]);
    let rx = Poly::from_coefficients_vec(vec![spr.x]);
    let ry = Poly::from_coefficients_vec(vec![spr.y]);
    let one_minus_b = &one - &b_p;
    let prod4 = &(&ax_p * &ring.kx_p) * &(&ay_p * &ring.ky_p);
    let shift_ip = shift(&ip_p, w);
    let shift_ax = shift(&ax_p, w);
    let shift_ay = shift(&ay_p, w);
    let inner_x = &(&shift_ax * &(&one + &(&prod4 * d))) - &(&(&ax_p * &ring.ky_p) + &(&ay_p
        * &ring.kx_p));
    let inner_y = &(&shift_ay * &(&one - &(&prod4 * d))) - &(&(&ay_p * &ring.ky_p) - &(&(&ax_p
        * &ring.kx_p) * a));
    let constraints: [Poly; 10] = [
        &b_p * &one_minus_b,
        &nl * &(&(&shift_ip - &ip_p) - &(&b_p * &ring.sel_p)),
        &nl * &(&(&b_p * &inner_x) + &(&one_minus_b * &(&shift_ax - &ax_p))),
        &nl * &(&(&b_p * &inner_y) + &(&one_minus_b * &(&shift_ay - &ay_p))),
        &l0 * &ip_p,
        &ln1 * &(&ip_p - &one),
        &l0 * &(&ax_p - &sx),
        &l0 * &(&ay_p - &sy),
        &ln1 * &(&ax_p - &rx),
        &ln1 * &(&ay_p - &ry),
    ];
    let mut combined = Poly::zero();
    for i in 0..10 {
        combined = &combined + &(&constraints[i] * alphas[i]);
    }
    let (q_p, remainder) = combined.divide_by_vanishing_poly(domain);
    assert!(remainder.is_zero());

    let comm_q = ser(&Kzg::commit(&ring.ck, &q_p).unwrap().0);
    t.append_tag(TAG_QUOTIENT);
    t.append_bytes(&comm_q);
    let z = fr(&t.challenge_scalars(TAG_ZETA, 1)[0]);

    // Claimed evaluations at `z`, and the linearization value at `z * w`.
    let cols = [&ring.kx_p, &ring.ky_p, &ring.sel_p, &b_p, &ip_p, &ax_p, &ay_p];
    let evals: Vec<Fr> = cols.iter().map(|p| p.evaluate(&z)).collect();
    let nl_z = z - w.pow([n as u64 - 1]);
    let prod_z = evals[5] * evals[0] * evals[6] * evals[1];
    let b_z = evals[3];
    let a1 = alphas[1] * nl_z;
    let a2 = alphas[2] * nl_z * (b_z * (Fr::from(1u64) + d * prod_z) + (Fr::from(1u64) - b_z));
    let a3 = alphas[3] * nl_z * (b_z * (Fr::from(1u64) - d * prod_z) + (Fr::from(1u64) - b_z));
    let lin_p = &(&(&ip_p * a1) + &(&ax_p * a2)) + &(&ay_p * a3);
    let lin_ev = lin_p.evaluate(&(z * w));
    t.append_tag(TAG_EVALS);
    for e in evals.iter() {
        t.append_scalar(&scalar(*e));
    }
    t.append_scalar(&scalar(lin_ev));
    let nus: Vec<Fr> = t.challenge_scalars(TAG_NUS, 8).iter().map(fr).collect();

    // The two openings: the `nu`-aggregate of all columns and the quotient
    // at `z`, and the linearization polynomial at `z * w`.
    let mut agg_p = &q_p * nus[7];
    for i in 0..7 {
        agg_p = &agg_p + &(cols[i] * nus[i]);
    }
    let pi_z = ser(&Kzg::open(&ring.ck, &agg_p, z).unwrap());
    let pi_zw = ser(&Kzg::open(&ring.ck, &lin_p, z * w).unwrap());

    let proof = RingProof {
        column_commitments: vec![g1(&comm_b), g1(&comm_ip), g1(&comm_ax), g1(&comm_ay)],
        columns_at_zeta: evals.iter().map(|e| scalar(*e)).collect(),
        quotient_commitment: g1(&comm_q),
        lin_at_zeta_omega: scalar(lin_ev),
        agg_at_zeta_proof: g1(&pi_z),
        lin_at_zeta_omega_proof: g1(&pi_zw),
    };
    (proof, te(result))
}

#[test]
fn honest_proof_verifies() {
    let ring = make_ring(64, 16);
    let verifier = make_verifier(&ring);
    let (proof, result) = prove(&ring, 3, 0x2b3f);
    assert!(verifier.verify(&proof, &result));
}

#[test]
fn concrete_scenario_domain_512_keyset_16() {
    let ring = make_ring(512, 16);
    let verifier = make_verifier(&ring);
    let (proof, result) = prove(&ring, 3, 0x1122334455667788u128);
    assert!(verifier.verify(&proof, &result));
    // A different valid curve point that does not match the prover's key.
    let wrong = te(ring.pks[4]);
    assert!(!verifier.verify(&proof, &wrong));
}

#[test]
fn corrupting_an_evaluation_breaks_the_proof() {
    let ring = make_ring(64, 16);
    let verifier = make_verifier(&ring);
    let (mut proof, result) = prove(&ring, 5, 0x77);
    let tweaked = fr(&proof.columns_at_zeta[4]) + Fr::from(1u64);
    proof.columns_at_zeta[4] = scalar(tweaked);
    assert!(!verifier.verify(&proof, &result));
}

#[test]
fn corrupting_the_linearization_value_breaks_the_proof() {
    let ring = make_ring(64, 16);
    let verifier = make_verifier(&ring);
    let (mut proof, result) = prove(&ring, 5, 0x77);
    let tweaked = fr(&proof.lin_at_zeta_omega) + Fr::from(1u64);
    proof.lin_at_zeta_omega = scalar(tweaked);
    assert!(!verifier.verify(&proof, &result));
}

#[test]
fn honest_batch_verifies_both_ways() {
    let ring = make_ring(64, 16);
    let mut proofs = Vec::new();
    let mut results = Vec::new();
    for (j, t_blind) in [(0usize, 0u128), (3, 0x5a5a), (15, 0x7fff_ffff_ffff)] {
        let (proof, result) = prove(&ring, j, t_blind);
        let verifier = make_verifier(&ring);
        assert!(verifier.verify(&proof, &result));
        proofs.push(proof);
        results.push(result);
    }
    let verifier = make_verifier(&ring);
    assert!(verifier.verify_batch(&proofs, &results));
    let verifier = make_verifier(&ring);
    assert!(verifier.verify_batch_kzg(proofs, &results));
}

#[test]
fn one_corrupt_proof_spoils_the_batch() {
    let ring = make_ring(64, 16);
    let mut proofs = Vec::new();
    let mut results = Vec::new();
    for (j, t_blind) in [(1usize, 0x1111u128), (7, 0x2222), (11, 0x3333)] {
        let (proof, result) = prove(&ring, j, t_blind);
        proofs.push(proof);
        results.push(result);
    }
    let tweaked = fr(&proofs[1].columns_at_zeta[3]) + Fr::from(1u64);
    proofs[1].columns_at_zeta[3] = scalar(tweaked);
    let verifier = make_verifier(&ring);
    assert!(!verifier.verify_batch(&proofs, &results));
    let verifier = make_verifier(&ring);
    assert!(!verifier.verify_batch_kzg(proofs, &results));
}
