//! The KZG opening accumulator. Each proof carries two opening claims (the
//! aggregated columns at `zeta` and the linearization polynomial at
//! `zeta * omega`); the accumulator folds every claim, weighted by a fresh
//! random coefficient `r` (and `r^2` for the second claim of the same proof,
//! keeping the two linked), into one pair of running point/scalar lists,
//! and defers the cost to a final `verify`: two multi-scalar multiplications
//! and a single pairing check, however many proofs were accumulated.
//!
//! The scalar at index 0 weighs the setup's `G1` generator and accumulates
//! the negated claimed evaluations; nothing else ever touches it.

use crate::field::{
    copy_scalars, extend_scalars, extend_scaled, fmul, fr_mul, fr_sub, fsub, scaled, scalars_view,
    wsum, Scalar,
};
use crate::g1::{
    extend_points, g1_msm, g1_neg, g1_neg_of, g1_subgroup_check, kzg_accept, msm_of, msm_terms,
    pairing_accepts, points_view, G1Point, KzgVk,
};
use crate::piop::{q_at_zeta, Challenges, RingPiop, RingProof};
use vstd::pervasive::VecAdditionalExecFns;
use vstd::prelude::*;

verus! {

/// Points appended to the running MSM by one accumulated proof: the fixed
/// columns, the witness columns, the quotient and the `zeta`-opening proof
/// (all opened at `zeta`), then the shifted-opened columns and the
/// `zeta * omega`-opening proof.
pub open spec fn acc_points_delta(
    fixed: Seq<Seq<u8>>,
    witness: Seq<Seq<u8>>,
    quotient: Seq<u8>,
    agg_pi: Seq<u8>,
    lin_pi: Seq<u8>,
) -> Seq<Seq<u8>> {
    fixed + witness + seq![quotient, agg_pi, witness[1], witness[2], witness[3], lin_pi]
}

/// Scalars appended by one accumulated proof, matching `acc_points_delta`
/// position by position: the aggregation randomness `nus` times `r`, then
/// `zeta * r`, then the linearization coefficients times `r^2`, then
/// `zeta * omega * r^2`.
pub open spec fn acc_scalars_delta(
    nus: Seq<nat>,
    zeta: nat,
    zeta_omega: nat,
    lin_coeffs: Seq<nat>,
    r: nat,
) -> Seq<nat> {
    scaled(nus, r) + seq![fmul(zeta, r)] + scaled(lin_coeffs, fmul(r, r)) + seq![
        fmul(zeta_omega, fmul(r, r)),
    ]
}

/// The aggregated claimed evaluation at `zeta`: the `nu`-weighted sum of the
/// column evaluations and the reconstructed quotient evaluation `q`.
pub open spec fn agg_eval(evals: Seq<nat>, nus: Seq<nat>, q: nat) -> nat {
    wsum(evals + seq![q], nus)
}

/// The constant-term scalar after folding one proof: the old value minus
/// `r` times the aggregated `zeta` evaluation minus `r^2` times the claimed
/// linearization evaluation.
pub open spec fn s0_after(s0: nat, agg: nat, lin_ev: nat, r: nat) -> nat {
    fsub(fsub(s0, fmul(agg, r)), fmul(lin_ev, fmul(r, r)))
}

/// `acc_points_delta` read off a relation instance and a proof.
pub open spec fn points_delta_of(piop: RingPiop, proof: RingProof) -> Seq<Seq<u8>> {
    acc_points_delta(
        piop.fixed@,
        points_view(piop.witness_comms@),
        proof.quotient_commitment@,
        proof.agg_at_zeta_proof@,
        proof.lin_at_zeta_omega_proof@,
    )
}

/// `acc_scalars_delta` read off a relation instance and the challenges.
pub open spec fn scalars_delta_of(piop: RingPiop, ch: Challenges, r: nat) -> Seq<nat> {
    acc_scalars_delta(
        scalars_view(ch.nus@),
        ch.zeta@,
        piop.domain@.1,
        crate::piop::lin_coeffs_at_zeta(
            scalars_view(ch.alphas@),
            scalars_view(piop.evals@),
            piop.domain@.3,
        ),
        r,
    )
}

/// The reconstructed quotient evaluation read off a relation instance.
pub open spec fn q_of(piop: RingPiop, proof: RingProof, ch: Challenges) -> nat {
    q_at_zeta(
        scalars_view(piop.evals@),
        scalars_view(ch.alphas@),
        piop.domain@,
        piop.seed@,
        piop.seed_plus_result@,
        proof.lin_at_zeta_omega@,
    )
}

/// The constant-term update read off a relation instance and a proof.
pub open spec fn s0_after_of(s0: nat, piop: RingPiop, proof: RingProof, ch: Challenges, r: nat) -> nat {
    s0_after(
        s0,
        agg_eval(scalars_view(piop.evals@), scalars_view(ch.nus@), q_of(piop, proof, ch)),
        proof.lin_at_zeta_omega@,
        r,
    )
}

/// The verdict of the final accumulated check: one pairing test on the
/// negated accumulator MSM and the aggregated opening-proof MSM.
pub open spec fn acc_verify(
    points: Seq<Seq<u8>>,
    scalars: Seq<nat>,
    proofs: Seq<Seq<u8>>,
    rands: Seq<nat>,
    vk: (Seq<u8>, Seq<u8>, Seq<u8>),
) -> bool {
    pairing_accepts(
        g1_neg_of(msm_of(msm_terms(points, scalars))),
        msm_of(msm_terms(proofs, rands)),
        vk.1,
        vk.2,
    )
}

/// Running state of the lazy KZG batch check: four parallel lists and the
/// verifier key of the polynomial commitment scheme.
pub struct KzgAccumulator {
    acc_points: Vec<G1Point>,
    acc_scalars: Vec<Scalar>,
    kzg_proofs: Vec<G1Point>,
    randomizers: Vec<Scalar>,
    kzg_vk: KzgVk,
}

impl KzgAccumulator {
    /// Encodings of the accumulated MSM points; index 0 is the setup's
    /// `G1` generator.
    pub closed spec fn points(self) -> Seq<Seq<u8>> {
        points_view(self.acc_points@)
    }

    /// The accumulated MSM scalars; index 0 is the constant-term
    /// accumulator.
    pub closed spec fn scalars(self) -> Seq<nat> {
        scalars_view(self.acc_scalars@)
    }

    /// Encodings of the accumulated opening proofs.
    pub closed spec fn proofs(self) -> Seq<Seq<u8>> {
        points_view(self.kzg_proofs@)
    }

    /// The random coefficients weighting the opening proofs.
    pub closed spec fn rands(self) -> Seq<nat> {
        scalars_view(self.randomizers@)
    }

    /// The verifier key's encodings.
    pub closed spec fn vk(self) -> (Seq<u8>, Seq<u8>, Seq<u8>) {
        self.kzg_vk@
    }

    /// The structural invariant: the parallel lists always have equal
    /// lengths, and the constant-term slot exists.
    pub open spec fn wf(self) -> bool {
        self.points().len() == self.scalars().len() && self.points().len() >= 1 && self.proofs().len()
            == self.rands().len()
    }

    /// A fresh accumulator: the generator with scalar zero, and no opening
    /// proofs.
    pub fn new(kzg_vk: KzgVk) -> (r: KzgAccumulator)
        ensures
            r.wf(),
            r.points() == seq![kzg_vk@.0],
            r.scalars() == seq![0nat],
            r.proofs() == Seq::<Seq<u8>>::empty(),
            r.rands() == Seq::<nat>::empty(),
            r.vk() == kzg_vk@,
    {
        let g1 = kzg_vk.g1_generator();
        let mut acc_points: Vec<G1Point> = Vec::new();
        acc_points.push(g1);
        let mut acc_scalars: Vec<Scalar> = Vec::new();
        acc_scalars.push(Scalar::from_u64(0));
        let r = KzgAccumulator {
            acc_points,
            acc_scalars,
            kzg_proofs: Vec::new(),
            randomizers: Vec::new(),
            kzg_vk,
        };
        proof {
            assert(r.points() =~= seq![r.kzg_vk@.0]);
            assert(r.scalars() =~= seq![0nat]);
            assert(r.proofs() =~= Seq::<Seq<u8>>::empty());
            assert(r.rands() =~= Seq::<nat>::empty());
        }
        r
    }

    /// The number of accumulated MSM terms.
    pub fn num_acc_terms(&self) -> (r: usize)
        ensures
            r == self.points().len(),
    {
        self.acc_points.len()
    }

    /// The number of accumulated MSM scalars.
    pub fn num_acc_scalars(&self) -> (r: usize)
        ensures
            r == self.scalars().len(),
    {
        self.acc_scalars.len()
    }

    /// The number of accumulated opening proofs.
    pub fn num_proofs(&self) -> (r: usize)
        ensures
            r == self.proofs().len(),
    {
        self.kzg_proofs.len()
    }

    /// The number of proof randomizers.
    pub fn num_randomizers(&self) -> (r: usize)
        ensures
            r == self.rands().len(),
    {
        self.randomizers.len()
    }

    /// Folds one proof's two opening claims into the running state, weighted
    /// by the fresh randomizer `r` and its square.
    pub fn accumulate(&mut self, piop: &RingPiop, proof: &RingProof, challenges: &Challenges, r:
        &Scalar)
        requires
            old(self).wf(),
            piop.wf(),
            proof.wf(),
            challenges.wf(),
        ensures
            final(self).wf(),
            final(self).vk() == old(self).vk(),
            final(self).points() == old(self).points() + points_delta_of(*piop, *proof),
            final(self).scalars() == old(self).scalars().update(
                0,
                s0_after_of(old(self).scalars()[0], *piop, *proof, *challenges, r@),
            ) + scalars_delta_of(*piop, *challenges, r@),
            final(self).proofs() == old(self).proofs() + seq![
                proof.agg_at_zeta_proof@,
                proof.lin_at_zeta_omega_proof@,
            ],
            final(self).rands() == old(self).rands() + seq![r@, fmul(r@, r@)],
            final(self).points().len() == old(self).points().len() + 13,
            final(self).proofs().len() == old(self).proofs().len() + 2,
    {
        let r2 = fr_mul(r, r);
        let new_s0 = folded_s0(&self.acc_scalars[0], piop, proof, challenges, r, &r2);
        self.acc_scalars.set(0, new_s0);
        proof {
            crate::field::lemma_view_update(old(self).acc_scalars@, 0, new_s0);
        }
        let dp = delta_points(piop, proof);
        let ds = delta_scalars(piop, challenges, r, &r2);
        extend_points(&mut self.acc_points, &dp);
        extend_scalars(&mut self.acc_scalars, &ds);
        self.kzg_proofs.push(proof.agg_at_zeta_proof.copy());
        self.kzg_proofs.push(proof.lin_at_zeta_omega_proof.copy());
        self.randomizers.push(r.copy());
        self.randomizers.push(r2);
        proof {
            assert(self.proofs() =~= old(self).proofs() + seq![
                proof.agg_at_zeta_proof@,
                proof.lin_at_zeta_omega_proof@,
            ]);
            assert(self.rands() =~= old(self).rands() + seq![r@, fmul(r@, r@)]);
        }
    }

    /// Checks every accumulated claim at once: two MSMs, mandatory subgroup
    /// checks on both resulting points, one pairing test.
    pub fn verify(&self) -> (r: bool)
        requires
            self.wf(),
        ensures
            r == acc_verify(self.points(), self.scalars(), self.proofs(), self.rands(), self.vk()),
    {
        let agg_proof = g1_msm(&self.kzg_proofs, &self.randomizers);
        if !g1_subgroup_check(&agg_proof) {
            return false;
        }
        let acc = g1_neg(&g1_msm(&self.acc_points, &self.acc_scalars));
        if !g1_subgroup_check(&acc) {
            return false;
        }
        kzg_accept(&acc, &agg_proof, &self.kzg_vk)
    }
}

/// The constant-term scalar after folding one proof's claimed evaluations.
fn folded_s0(s0: &Scalar, piop: &RingPiop, proof: &RingProof, challenges: &Challenges, r: &Scalar,
    r2: &Scalar) -> (out: Scalar)
    requires
        piop.wf(),
        proof.wf(),
        challenges.wf(),
        r2@ == fmul(r@, r@),
    ensures
        out@ == s0_after_of(s0@, *piop, *proof, *challenges, r@),
{
    let q_zeta = piop.evaluate_q_at_zeta(&challenges.alphas, &proof.lin_at_zeta_omega);
    let mut vals = copy_scalars(&piop.evals);
    vals.push(q_zeta);
    proof {
        assert(scalars_view(vals@) =~= scalars_view(piop.evals@) + seq![q_zeta@]);
    }
    let agg = crate::field::weighted_sum(&vals, &challenges.nus);
    fr_sub(&fr_sub(s0, &fr_mul(&agg, r)), &fr_mul(&proof.lin_at_zeta_omega, r2))
}

/// The points one proof appends to the accumulated MSM.
fn delta_points(piop: &RingPiop, proof: &RingProof) -> (out: Vec<G1Point>)
    requires
        piop.wf(),
        proof.wf(),
    ensures
        points_view(out@) == points_delta_of(*piop, *proof),
        out@.len() == 13,
{
    let mut dp: Vec<G1Point> = piop.precommitted_columns();
    extend_points(&mut dp, &piop.witness_comms);
    dp.push(proof.quotient_commitment.copy());
    dp.push(proof.agg_at_zeta_proof.copy());
    dp.push(piop.witness_comms[1].copy());
    dp.push(piop.witness_comms[2].copy());
    dp.push(piop.witness_comms[3].copy());
    dp.push(proof.lin_at_zeta_omega_proof.copy());
    proof {
        assert(points_view(dp@) =~= points_delta_of(*piop, *proof));
    }
    dp
}

/// The scalars one proof appends to the accumulated MSM, matching
/// `delta_points` position by position.
fn delta_scalars(piop: &RingPiop, challenges: &Challenges, r: &Scalar, r2: &Scalar) -> (out: Vec<
    Scalar,
>)
    requires
        piop.wf(),
        challenges.wf(),
        r2@ == fmul(r@, r@),
    ensures
        scalars_view(out@) == scalars_delta_of(*piop, *challenges, r@),
        out@.len() == 13,
{
    let ghost seg1 = scaled(scalars_view(challenges.nus@), r@);
    let ghost seg3 = scaled(
        crate::piop::lin_coeffs_at_zeta(
            scalars_view(challenges.alphas@),
            scalars_view(piop.evals@),
            piop.domain@.3,
        ),
        fmul(r@, r@),
    );
    let mut ds: Vec<Scalar> = Vec::new();
    extend_scaled(&mut ds, &challenges.nus, r);
    proof {
        assert(scalars_view(ds@) =~= seg1);
    }
    let ghost pre1 = ds@;
    ds.push(fr_mul(&challenges.zeta, r));
    proof {
        crate::field::lemma_view_push(pre1, ds@.last());
        crate::field::lemma_push_concat(seg1, fmul(challenges.zeta@, r@));
        assert(scalars_view(ds@) == seg1 + seq![fmul(challenges.zeta@, r@)]);
    }
    let ghost pre2 = scalars_view(ds@);
    let (lin_coeffs, _lin_comms) = piop.lin_poly_commitment(&challenges.alphas);
    extend_scaled(&mut ds, &lin_coeffs, r2);
    proof {
        assert(scalars_view(ds@) == pre2 + seg3);
    }
    let ghost pre3 = ds@;
    ds.push(fr_mul(&piop.domain.zeta_omega, r2));
    proof {
        crate::field::lemma_view_push(pre3, ds@.last());
        crate::field::lemma_push_concat(pre2 + seg3, fmul(piop.domain@.1, fmul(r@, r@)));
        assert(scalars_view(ds@) == pre2 + seg3 + seq![fmul(piop.domain@.1, fmul(r@, r@))]);
    }
    ds
}

} // verus!
