//! Field arithmetic, reached through the library's verified functions,
//! against independently computed values.

use ark_ff::{FftField, Field, PrimeField};
use ring_proof::field::{fr_pow, scalar_eq, weighted_sum, Scalar};
use ring_proof::piop::{evaluate_domain, PiopParams};
use ring_proof::te::TePoint;

type Fr = ark_bls12_381::Fr;

fn scalar(x: Fr) -> Scalar {
    Scalar::from_limbs(x.into_bigint().0).unwrap()
}

fn limbs(s: &Scalar) -> [u64; 4] {
    s.to_limbs()
}

#[test]
fn products_and_sums_of_small_values() {
    let one = Scalar::from_u64(1);
    // One product: 7 * 6.
    let p = weighted_sum(&vec![Scalar::from_u64(7)], &vec![Scalar::from_u64(6)]);
    assert_eq!(limbs(&p), [42, 0, 0, 0]);
    // One sum: 2 * 1 + 3 * 1.
    let s = weighted_sum(
        &vec![Scalar::from_u64(2), Scalar::from_u64(3)],
        &vec![one.copy(), one.copy()],
    );
    assert_eq!(limbs(&s), [5, 0, 0, 0]);
}

#[test]
fn minus_one_squared_is_one() {
    let m1 = scalar(-Fr::from(1u64));
    let sq = fr_pow(&m1, 2);
    assert!(scalar_eq(&sq, &Scalar::from_u64(1)));
}

#[test]
fn addition_wraps_at_the_modulus() {
    // (p - 1) + 2 == 1.
    let m1 = scalar(-Fr::from(1u64));
    let one = Scalar::from_u64(1);
    let wrapped = weighted_sum(
        &vec![m1, Scalar::from_u64(2)],
        &vec![one.copy(), one.copy()],
    );
    assert!(scalar_eq(&wrapped, &one));
}

#[test]
fn pow_small_and_against_reference() {
    let three = Scalar::from_u64(3);
    assert_eq!(limbs(&fr_pow(&three, 5)), [243, 0, 0, 0]);
    assert_eq!(limbs(&fr_pow(&three, 0)), [1, 0, 0, 0]);
    let base = scalar(Fr::from(1234567890123456789u64));
    let mine = fr_pow(&base, 512);
    let theirs = scalar(Fr::from(1234567890123456789u64).pow([512u64]));
    assert!(scalar_eq(&mine, &theirs));
}

#[test]
fn product_matches_reference_on_large_values() {
    let a = Fr::from(987654321098765432u64).pow([7u64]);
    let b = -Fr::from(42u64);
    let mine = weighted_sum(&vec![scalar(a)], &vec![scalar(b)]);
    assert!(scalar_eq(&mine, &scalar(a * b)));
}

#[test]
fn from_limbs_rejects_the_modulus() {
    let p_limbs: [u64; 4] = [
        0xffffffff00000001,
        0x53bda402fffe5bfe,
        0x3339d80809a1d805,
        0x73eda753299d7d48,
    ];
    assert!(Scalar::from_limbs(p_limbs).is_none());
    let p_minus_1: [u64; 4] = [
        0xffffffff00000000,
        0x53bda402fffe5bfe,
        0x3339d80809a1d805,
        0x73eda753299d7d48,
    ];
    let m1 = Scalar::from_limbs(p_minus_1).unwrap();
    assert!(scalar_eq(&m1, &scalar(-Fr::from(1u64))));
}

#[test]
fn is_zero_and_eq() {
    assert!(Scalar::from_u64(0).is_zero());
    assert!(!Scalar::from_u64(1).is_zero());
    assert!(scalar_eq(&Scalar::from_u64(9), &Scalar::from_u64(9)));
    assert!(!scalar_eq(&Scalar::from_u64(9), &Scalar::from_u64(8)));
}

#[test]
fn domain_snapshot_matches_the_lagrange_formulas() {
    let n: u64 = 8;
    let omega = Fr::get_root_of_unity(n).unwrap();
    let params = PiopParams {
        domain_size: n,
        omega: scalar(omega),
        h: TePoint { x: Scalar::from_u64(0), y: Scalar::from_u64(1) },
        seed: TePoint { x: Scalar::from_u64(0), y: Scalar::from_u64(1) },
        padding: TePoint { x: Scalar::from_u64(0), y: Scalar::from_u64(1) },
    };
    let zeta = Fr::from(5u64);
    let snap = evaluate_domain(&params, &scalar(zeta)).unwrap();

    let z_at = zeta.pow([n]) - Fr::from(1u64);
    let w_last = omega.pow([n - 1]);
    let l_first = z_at / (Fr::from(n) * (zeta - Fr::from(1u64)));
    let l_last = w_last * z_at / (Fr::from(n) * (zeta - w_last));
    assert!(scalar_eq(&snap.z_inv, &scalar(z_at.inverse().unwrap())));
    assert!(scalar_eq(&snap.not_last, &scalar(zeta - w_last)));
    assert!(scalar_eq(&snap.l_first, &scalar(l_first)));
    assert!(scalar_eq(&snap.l_last, &scalar(l_last)));
    assert!(scalar_eq(&snap.zeta_omega, &scalar(zeta * omega)));

    // A challenge point inside the domain is degenerate and rejected.
    assert!(evaluate_domain(&params, &scalar(omega)).is_none());
}
