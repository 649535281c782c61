//! Points of the BLS12-381 pairing group `G1`, held as their canonical
//! compressed encodings, with the group operations the verifier needs:
//! multi-scalar multiplication, negation, subgroup checking and the final
//! accumulated KZG pairing check. All group arithmetic is delegated to
//! `ark_ec` / `w3f_pcs` through trusted wrappers whose contracts name the
//! results as functions of the encodings.

use crate::field::{scalars_view, Scalar};
use ark_ec::CurveGroup;
use ark_ff::PrimeField;
use ark_serialize::{CanonicalDeserialize, CanonicalSerialize};
use vstd::multiset::Multiset;
use vstd::prelude::*;

verus! {

/// Whether bytes decode, under `ark_serialize`'s validating compressed
/// deserialization, to a point of the prime-order subgroup of `G1`.
pub uninterp spec fn valid_g1(bytes: Seq<u8>) -> bool;

/// Whether bytes decode, in the same way, to a point of the prime-order
/// subgroup of `G2`.
pub uninterp spec fn valid_g2(bytes: Seq<u8>) -> bool;

/// The encoding of the multi-scalar multiplication `sum scalar_i * point_i`
/// over a collection of (point encoding, scalar value) terms. A sum is
/// insensitive to the order of its terms, so the collection is a multiset.
pub uninterp spec fn msm_of(terms: Multiset<(Seq<u8>, nat)>) -> Seq<u8>;

/// The encoding of the negation of the point a `G1` encoding denotes.
pub uninterp spec fn g1_neg_of(bytes: Seq<u8>) -> Seq<u8>;

/// Whether the accumulated KZG pairing equation
/// `e(acc, g2) * e(proof, tau*g2) == 1` holds for the points the four
/// encodings denote.
pub uninterp spec fn pairing_accepts(
    acc: Seq<u8>,
    proof: Seq<u8>,
    g2: Seq<u8>,
    tau_g2: Seq<u8>,
) -> bool;

/// A point of the prime-order subgroup of `G1`, as a valid canonical
/// compressed encoding.
pub struct G1Point {
    bytes: Vec<u8>,
}

impl View for G1Point {
    type V = Seq<u8>;

    closed spec fn view(&self) -> Seq<u8> {
        self.bytes@
    }
}

/// The encodings of a sequence of points.
pub open spec fn points_view(s: Seq<G1Point>) -> Seq<Seq<u8>> {
    s.map_values(|q: G1Point| q@)
}

/// The multiset of (point encoding, scalar value) terms fed to an MSM.
pub open spec fn msm_terms(ps: Seq<Seq<u8>>, ss: Seq<nat>) -> Multiset<(Seq<u8>, nat)>
    recommends
        ps.len() == ss.len(),
{
    Seq::new(ps.len(), |i: int| (ps[i], ss[i])).to_multiset()
}

impl G1Point {
    #[verifier::type_invariant]
    spec fn well_encoded(self) -> bool {
        valid_g1(self.bytes@)
    }

    /// The compressed encoding of the point.
    pub fn to_bytes(&self) -> (r: Vec<u8>)
        ensures
            r@ == self@,
    {
        let r = self.bytes.clone();
        proof {
            assert(r@ =~= self.bytes@);
        }
        r
    }

    /// An identical copy.
    pub fn copy(&self) -> (r: G1Point)
        ensures
            r@ == self@,
    {
        proof {
            use_type_invariant(self);
        }
        let bytes = self.bytes.clone();
        proof {
            assert(bytes@ =~= self.bytes@);
        }
        G1Point { bytes }
    }
}

/// Appends copies of the source points.
pub fn extend_points(dst: &mut Vec<G1Point>, src: &Vec<G1Point>)
    ensures
        points_view(final(dst)@) == points_view(old(dst)@) + points_view(src@),
        final(dst)@.len() == old(dst)@.len() + src@.len(),
{
    let mut i: usize = 0;
    while i < src.len()
        invariant
            0 <= i <= src@.len(),
            dst@.len() == old(dst)@.len() + i,
            forall|j: int| 0 <= j < old(dst)@.len() ==> (#[trigger] dst@[j])@ == old(dst)@[j]@,
            forall|j: int|
                old(dst)@.len() <= j < old(dst)@.len() + i ==> (#[trigger] dst@[j])@ == src@[j
                    - old(dst)@.len()]@,
        decreases src@.len() - i,
    {
        dst.push(src[i].copy());
        i = i + 1;
    }
    proof {
        assert(points_view(dst@) =~= points_view(old(dst)@) + points_view(src@));
    }
}

/// Copies a vector of points.
pub fn copy_points(src: &Vec<G1Point>) -> (r: Vec<G1Point>)
    ensures
        points_view(r@) == points_view(src@),
        r@.len() == src@.len(),
{
    let mut r: Vec<G1Point> = Vec::new();
    let mut i: usize = 0;
    while i < src.len()
        invariant
            0 <= i <= src@.len(),
            r@.len() == i,
            forall|j: int| 0 <= j < i ==> (#[trigger] r@[j])@ == src@[j]@,
        decreases src@.len() - i,
    {
        r.push(src[i].copy());
        i = i + 1;
    }
    proof {
        assert(points_view(r@) =~= points_view(src@));
    }
    r
}

/// Decodes and validates a compressed `G1` encoding. Relies on
/// `CanonicalDeserialize::deserialize_compressed` for `G1Affine`, which
/// checks that the point is on the curve and in the prime-order subgroup.
#[verifier::external_body]
pub fn g1_from_bytes(bytes: &[u8]) -> (r: Option<G1Point>)
    ensures
        match r {
            Some(q) => q@ == bytes@ && valid_g1(bytes@),
            None => !valid_g1(bytes@),
        },
{
    match ark_bls12_381::G1Affine::deserialize_compressed(bytes) {
        Ok(_) => Some(G1Point { bytes: bytes.to_vec() }),
        Err(_) => None,
    }
}

/// Validates a compressed `G2` encoding, as `g1_from_bytes` does for `G1`.
/// Relies on `CanonicalDeserialize::deserialize_compressed` for `G2Affine`.
#[verifier::external_body]
pub(crate) fn g2_check(bytes: &[u8]) -> (r: bool)
    ensures
        r == valid_g2(bytes@),
{
    ark_bls12_381::G2Affine::deserialize_compressed(bytes).is_ok()
}

/// Multi-scalar multiplication over `G1`. Relies on
/// `ark_ec::VariableBaseMSM::msm`, which computes the sum of the points
/// scaled by the matching scalars; the sum of subgroup points stays in the
/// subgroup, and equal points with equal scalars give equal sums whatever
/// their order, so the result is a function of the term multiset.
#[verifier::external_body]
pub(crate) fn g1_msm(points: &Vec<G1Point>, scalars: &Vec<Scalar>) -> (r: G1Point)
    requires
        points@.len() == scalars@.len(),
    ensures
        r@ == msm_of(msm_terms(points_view(points@), scalars_view(scalars@))),
        valid_g1(r@),
{
    let ps: Vec<ark_bls12_381::G1Affine> = points.iter().map(
        |q| ark_bls12_381::G1Affine::deserialize_compressed_unchecked(&q.bytes[..]).unwrap(),
    ).collect();
    let ss: Vec<ark_bls12_381::Fr> = scalars.iter().map(
        |s| ark_bls12_381::Fr::from_bigint(ark_ff::BigInt(s.to_limbs())).unwrap(),
    ).collect();
    let m = <ark_bls12_381::G1Projective as ark_ec::VariableBaseMSM>::msm(&ps, &ss).unwrap();
    let mut bytes = Vec::new();
    m.into_affine().serialize_compressed(&mut bytes).unwrap();
    G1Point { bytes }
}

/// Negation in `G1`. Relies on `Neg` for `G1Affine`.
#[verifier::external_body]
pub(crate) fn g1_neg(q: &G1Point) -> (r: G1Point)
    ensures
        r@ == g1_neg_of(q@),
        valid_g1(r@),
{
    let a = ark_bls12_381::G1Affine::deserialize_compressed_unchecked(&q.bytes[..]).unwrap();
    let mut bytes = Vec::new();
    (-a).serialize_compressed(&mut bytes).unwrap();
    G1Point { bytes }
}

/// Prime-order subgroup membership check. Relies on
/// `is_in_correct_subgroup_assuming_on_curve` for `G1Affine`, which returns
/// `true` exactly on the points a valid encoding can denote.
#[verifier::external_body]
pub(crate) fn g1_subgroup_check(q: &G1Point) -> (r: bool)
    ensures
        r == valid_g1(q@),
{
    let a = ark_bls12_381::G1Affine::deserialize_compressed_unchecked(&q.bytes[..]).unwrap();
    a.is_in_correct_subgroup_assuming_on_curve()
}

/// A KZG verifier key: the `G1` generator of the trusted setup and the two
/// `G2` points (`g2`, `tau*g2`) entering the final pairing check.
pub struct KzgVk {
    g1: G1Point,
    g2: Vec<u8>,
    tau_g2: Vec<u8>,
}

impl View for KzgVk {
    type V = (Seq<u8>, Seq<u8>, Seq<u8>);

    closed spec fn view(&self) -> (Seq<u8>, Seq<u8>, Seq<u8>) {
        (self.g1@, self.g2@, self.tau_g2@)
    }
}

impl KzgVk {
    #[verifier::type_invariant]
    spec fn well_encoded(self) -> bool {
        valid_g2(self.g2@) && valid_g2(self.tau_g2@)
    }

    /// Builds a verifier key from compressed encodings, validating all three.
    pub fn new(g1: &[u8], g2: &[u8], tau_g2: &[u8]) -> (r: Option<KzgVk>)
        ensures
            match r {
                Some(vk) => vk@ == (g1@, g2@, tau_g2@) && valid_g1(g1@) && valid_g2(g2@)
                    && valid_g2(tau_g2@),
                None => !(valid_g1(g1@) && valid_g2(g2@) && valid_g2(tau_g2@)),
            },
    {
        let g1p = match g1_from_bytes(g1) {
            Some(q) => q,
            None => {
                return None;
            },
        };
        if !g2_check(g2) {
            return None;
        }
        if !g2_check(tau_g2) {
            return None;
        }
        let mut g2v: Vec<u8> = Vec::new();
        g2v.extend_from_slice(g2);
        let mut tau_v: Vec<u8> = Vec::new();
        tau_v.extend_from_slice(tau_g2);
        proof {
            assert(g2v@ =~= g2@);
            assert(tau_v@ =~= tau_g2@);
        }
        Some(KzgVk { g1: g1p, g2: g2v, tau_g2: tau_v })
    }

    /// The setup's `G1` generator.
    pub fn g1_generator(&self) -> (r: G1Point)
        ensures
            r@ == self@.0,
    {
        self.g1.copy()
    }

    /// An identical copy.
    pub fn copy(&self) -> (r: KzgVk)
        ensures
            r@ == self@,
    {
        proof {
            use_type_invariant(self);
        }
        let g2 = self.g2.clone();
        let tau_g2 = self.tau_g2.clone();
        proof {
            assert(g2@ =~= self.g2@);
            assert(tau_g2@ =~= self.tau_g2@);
        }
        KzgVk { g1: self.g1.copy(), g2, tau_g2 }
    }
}

/// The accumulated KZG pairing check. Relies on
/// `w3f_pcs::pcs::kzg::KZG::verify_accumulated`, which holds exactly when
/// `e(acc, g2) * e(proof, tau*g2)` is the identity.
#[verifier::external_body]
pub(crate) fn kzg_accept(acc: &G1Point, proof: &G1Point, vk: &KzgVk) -> (r: bool)
    ensures
        r == pairing_accepts(acc@, proof@, vk@.1, vk@.2),
{
    let a = ark_bls12_381::G1Affine::deserialize_compressed_unchecked(&acc.bytes[..]).unwrap();
    let pi = ark_bls12_381::G1Affine::deserialize_compressed_unchecked(&proof.bytes[..]).unwrap();
    let raw = w3f_pcs::pcs::kzg::params::RawKzgVerifierKey::<ark_bls12_381::Bls12_381> {
        g1: ark_bls12_381::G1Affine::deserialize_compressed_unchecked(&vk.g1.bytes[..]).unwrap(),
        g2: ark_bls12_381::G2Affine::deserialize_compressed_unchecked(&vk.g2[..]).unwrap(),
        tau_in_g2: ark_bls12_381::G2Affine::deserialize_compressed_unchecked(&vk.tau_g2[..]).unwrap(),
    };
    let prepared = w3f_pcs::pcs::RawVerifierKey::prepare(&raw);
    let opening = w3f_pcs::pcs::kzg::AccumulatedOpening { acc: a, proof: pi };
    w3f_pcs::pcs::kzg::KZG::verify_accumulated(opening, &prepared)
}

} // verus!
