//! The ring verifier: it replays the protocol's fixed transcript order to
//! re-derive the challenges of a proof, builds the relation instance, and
//! checks the proof either immediately (one pairing check per proof) or
//! through the KZG accumulator (two MSMs and one pairing check for a whole
//! batch). The transcript append order and the one-byte protocol tags are a
//! wire contract: prover and verifier must match byte for byte.

use crate::field::{copy_scalars, first_n, fmul, fsub, le_bytes, p, scalars_view, Scalar};
use crate::g1::{copy_points, msm_terms, points_view, KzgVk};
use crate::kzg_acc::{
    acc_points_delta, acc_scalars_delta, acc_verify, agg_eval, s0_after, KzgAccumulator,
};
use crate::piop::{
    domain_eval, evaluate_domain, lin_coeffs_at_zeta, q_at_zeta, Challenges,
    FixedColumnsCommitted, PiopParams, RingPiop, RingProof, VerifierKey, N_COLUMNS, N_CONSTRAINTS,
};
use crate::te::{on_te_curve, te_add, te_add_spec, TePoint};
use crate::transcript::{
    challenge_entry, challenges_of, data_entry, entropy_of, rand_scalar_of, ArkTranscript,
};
use vstd::prelude::*;

verus! {

/// Transcript tag under which the verifier key material is absorbed.
pub const TAG_VK: u8 = 1;

/// Transcript tag preceding the claimed result point.
pub const TAG_RESULT: u8 = 10;

/// Transcript tag preceding the witness column commitments.
pub const TAG_COMMITMENTS: u8 = 11;

/// Transcript tag preceding the quotient commitment.
pub const TAG_QUOTIENT: u8 = 12;

/// Transcript tag preceding the claimed evaluations.
pub const TAG_EVALS: u8 = 13;

/// Transcript tag preceding the two opening proofs.
pub const TAG_OPENING_PROOFS: u8 = 14;

/// Transcript tag preceding a prepared item's entropy when re-keying.
pub const TAG_BATCH_ENTROPY: u8 = 15;

/// Challenge tag for the constraint-combination randomness.
pub const TAG_ALPHAS: u8 = 20;

/// Challenge tag for the evaluation point.
pub const TAG_ZETA: u8 = 21;

/// Challenge tag for the column-aggregation randomness.
pub const TAG_NUS: u8 = 22;

/// The transcript log after the verifier key and parameters are absorbed.
#[verifier::opaque]
pub open spec fn prelude_log(
    t0: Seq<Seq<u8>>,
    params: PiopParams,
    fixed: Seq<Seq<u8>>,
) -> Seq<Seq<u8>> {
    t0.push(data_entry(seq![TAG_VK])).push(data_entry(le_bytes(params.domain_size as nat, 32))).push(
        data_entry(le_bytes(params.omega@, 32)),
    ).push(data_entry(le_bytes(params.seed@.0, 32))).push(
        data_entry(le_bytes(params.seed@.1, 32)),
    ).push(data_entry(le_bytes(params.h@.0, 32))).push(data_entry(le_bytes(params.h@.1, 32))).push(
        data_entry(le_bytes(params.padding@.0, 32)),
    ).push(data_entry(le_bytes(params.padding@.1, 32))).push(data_entry(fixed[0])).push(
        data_entry(fixed[1]),
    ).push(data_entry(fixed[2]))
}

/// The log after the claimed result and the witness commitments are absorbed.
#[verifier::opaque]
pub open spec fn log_with_publics(
    prelude: Seq<Seq<u8>>,
    proof: RingProof,
    result: (nat, nat),
) -> Seq<Seq<u8>> {
    prelude.push(data_entry(seq![TAG_RESULT])).push(data_entry(le_bytes(result.0, 32))).push(
        data_entry(le_bytes(result.1, 32)),
    ).push(data_entry(seq![TAG_COMMITMENTS])).push(data_entry(proof.column_commitments@[0]@)).push(
        data_entry(proof.column_commitments@[1]@),
    ).push(data_entry(proof.column_commitments@[2]@)).push(
        data_entry(proof.column_commitments@[3]@),
    )
}

/// The constraint-combination challenges of a proof.
#[verifier::opaque]
pub open spec fn alphas_of(prelude: Seq<Seq<u8>>, proof: RingProof, result: (nat, nat)) -> Seq<
    nat,
> {
    first_n(challenges_of(log_with_publics(prelude, proof, result), TAG_ALPHAS), N_CONSTRAINTS as nat)
}

/// The log after the quotient commitment is absorbed.
#[verifier::opaque]
pub open spec fn log_with_quotient(
    prelude: Seq<Seq<u8>>,
    proof: RingProof,
    result: (nat, nat),
) -> Seq<Seq<u8>> {
    log_with_publics(prelude, proof, result).push(challenge_entry(TAG_ALPHAS)).push(
        data_entry(seq![TAG_QUOTIENT]),
    ).push(data_entry(proof.quotient_commitment@))
}

/// The evaluation-point challenge of a proof.
#[verifier::opaque]
pub open spec fn zeta_of(prelude: Seq<Seq<u8>>, proof: RingProof, result: (nat, nat)) -> nat {
    challenges_of(log_with_quotient(prelude, proof, result), TAG_ZETA)[0]
}

/// The log after the claimed evaluations are absorbed.
#[verifier::opaque]
pub open spec fn log_with_evals(
    prelude: Seq<Seq<u8>>,
    proof: RingProof,
    result: (nat, nat),
) -> Seq<Seq<u8>> {
    log_with_quotient(prelude, proof, result).push(challenge_entry(TAG_ZETA)).push(
        data_entry(seq![TAG_EVALS]),
    ).push(data_entry(le_bytes(proof.columns_at_zeta@[0]@, 32))).push(
        data_entry(le_bytes(proof.columns_at_zeta@[1]@, 32)),
    ).push(data_entry(le_bytes(proof.columns_at_zeta@[2]@, 32))).push(
        data_entry(le_bytes(proof.columns_at_zeta@[3]@, 32)),
    ).push(data_entry(le_bytes(proof.columns_at_zeta@[4]@, 32))).push(
        data_entry(le_bytes(proof.columns_at_zeta@[5]@, 32)),
    ).push(data_entry(le_bytes(proof.columns_at_zeta@[6]@, 32))).push(
        data_entry(le_bytes(proof.lin_at_zeta_omega@, 32)),
    )
}

/// The column-aggregation challenges of a proof.
#[verifier::opaque]
pub open spec fn nus_of(prelude: Seq<Seq<u8>>, proof: RingProof, result: (nat, nat)) -> Seq<nat> {
    first_n(challenges_of(log_with_evals(prelude, proof, result), TAG_NUS), (N_COLUMNS + 1) as nat)
}

/// The complete transcript log of a proof, opening proofs absorbed, from
/// which the verifier's own randomness is drawn.
#[verifier::opaque]
pub open spec fn final_log(
    prelude: Seq<Seq<u8>>,
    proof: RingProof,
    result: (nat, nat),
) -> Seq<Seq<u8>> {
    log_with_evals(prelude, proof, result).push(challenge_entry(TAG_NUS)).push(
        data_entry(seq![TAG_OPENING_PROOFS]),
    ).push(data_entry(proof.agg_at_zeta_proof@)).push(data_entry(proof.lin_at_zeta_omega_proof@))
}

/// Verifies ring-membership proofs against one committed ring.
pub struct RingVerifier {
    pub piop_params: PiopParams,
    pub fixed_columns_committed: FixedColumnsCommitted,
    pub kzg_vk: KzgVk,
    pub transcript_prelude: ArkTranscript,
}

/// The complete verdict of single-proof verification, as a function of the
/// verifier's state, the proof and the claimed result point: the proof shape
/// and the result point are checked, the challenges and the verifier's
/// randomizer are re-derived from the transcript, and the two opening claims
/// must pass the accumulated pairing check.
pub open spec fn ring_verify_spec(v: RingVerifier, proof: RingProof, result: (nat, nat)) -> bool {
    let prelude = v.transcript_prelude@;
    let alphas = alphas_of(prelude, proof, result);
    let zeta = zeta_of(prelude, proof, result);
    let nus = nus_of(prelude, proof, result);
    let r = rand_scalar_of(final_log(prelude, proof, result));
    if !proof.wf() || !on_te_curve(result) {
        false
    } else {
        match te_add_spec(v.piop_params.seed@, result) {
            None => false,
            Some(spr) => match domain_eval(
                v.piop_params.domain_size as nat,
                v.piop_params.omega@,
                zeta,
            ) {
                None => false,
                Some(dom) => {
                    let evals = scalars_view(proof.columns_at_zeta@);
                    let q = q_at_zeta(
                        evals,
                        alphas,
                        dom,
                        v.piop_params.seed@,
                        spr,
                        proof.lin_at_zeta_omega@,
                    );
                    let s0 = s0_after(0, agg_eval(evals, nus, q), proof.lin_at_zeta_omega@, r);
                    let points = seq![v.kzg_vk@.0] + acc_points_delta(
                        v.fixed_columns_committed@,
                        points_view(proof.column_commitments@),
                        proof.quotient_commitment@,
                        proof.agg_at_zeta_proof@,
                        proof.lin_at_zeta_omega_proof@,
                    );
                    let scalars = seq![s0] + acc_scalars_delta(
                        nus,
                        zeta,
                        dom.1,
                        lin_coeffs_at_zeta(alphas, evals, dom.3),
                        r,
                    );
                    acc_verify(
                        points,
                        scalars,
                        seq![proof.agg_at_zeta_proof@, proof.lin_at_zeta_omega_proof@],
                        seq![r, fmul(r, r)],
                        v.kzg_vk@,
                    )
                },
            },
        }
    }
}

impl RingVerifier {
    /// Structural soundness of the verifier's parameters.
    pub open spec fn wf(self) -> bool {
        self.piop_params.wf()
    }

    /// Builds a verifier for one ring: retains the parameters, the fixed
    /// column commitments and the PCS verifier key, and seeds the transcript
    /// prelude with all of them.
    pub fn init(
        verifier_key: VerifierKey,
        piop_params: PiopParams,
        empty_transcript: ArkTranscript,
    ) -> (r: RingVerifier)
        requires
            piop_params.wf(),
        ensures
            r.wf(),
            r.piop_params == piop_params,
            r.fixed_columns_committed == verifier_key.fixed_columns_committed,
            r.kzg_vk == verifier_key.kzg_vk,
            r.transcript_prelude@ == prelude_log(
                empty_transcript@,
                piop_params,
                verifier_key.fixed_columns_committed@,
            ),
    {
        proof {
            reveal(prelude_log);
        }
        let mut t = empty_transcript;
        t.append_tag(TAG_VK);
        t.append_scalar(&Scalar::from_u64(piop_params.domain_size));
        t.append_scalar(&piop_params.omega);
        t.append_scalar(&piop_params.seed.x);
        t.append_scalar(&piop_params.seed.y);
        t.append_scalar(&piop_params.h.x);
        t.append_scalar(&piop_params.h.y);
        t.append_scalar(&piop_params.padding.x);
        t.append_scalar(&piop_params.padding.y);
        t.append_bytes(verifier_key.fixed_columns_committed.key_x.to_bytes().as_slice());
        t.append_bytes(verifier_key.fixed_columns_committed.key_y.to_bytes().as_slice());
        t.append_bytes(verifier_key.fixed_columns_committed.selector.to_bytes().as_slice());
        RingVerifier {
            piop_params,
            fixed_columns_committed: verifier_key.fixed_columns_committed,
            kzg_vk: verifier_key.kzg_vk,
            transcript_prelude: t,
        }
    }

    /// The protocol parameters the verifier was built with.
    pub fn piop_params(&self) -> (r: &PiopParams)
        ensures
            *r == self.piop_params,
    {
        &self.piop_params
    }

    /// Re-derives a proof's challenges by replaying the canonical transcript
    /// order: the claimed result, each witness commitment, then `alphas`;
    /// the quotient commitment, then `zeta`; the claimed evaluations, then
    /// `nus`; finally the opening proofs. Returns the challenges and the
    /// transcript state the verifier's own randomness is drawn from.
    pub fn restore_challenges(&self, proof: &RingProof, result: &TePoint) -> (r: (
        Challenges,
        ArkTranscript,
    ))
        requires
            proof.wf(),
        ensures
            r.0.wf(),
            scalars_view(r.0.alphas@) == alphas_of(self.transcript_prelude@, *proof, result@),
            r.0.zeta@ == zeta_of(self.transcript_prelude@, *proof, result@),
            scalars_view(r.0.nus@) == nus_of(self.transcript_prelude@, *proof, result@),
            r.1@ == final_log(self.transcript_prelude@, *proof, result@),
    {
        proof {
            reveal(log_with_publics);
            reveal(alphas_of);
            reveal(log_with_quotient);
            reveal(zeta_of);
            reveal(log_with_evals);
            reveal(nus_of);
            reveal(final_log);
        }
        let mut t = self.transcript_prelude.copy();
        t.append_tag(TAG_RESULT);
        t.append_scalar(&result.x);
        t.append_scalar(&result.y);
        t.append_tag(TAG_COMMITMENTS);
        t.append_bytes(proof.column_commitments[0].to_bytes().as_slice());
        t.append_bytes(proof.column_commitments[1].to_bytes().as_slice());
        t.append_bytes(proof.column_commitments[2].to_bytes().as_slice());
        t.append_bytes(proof.column_commitments[3].to_bytes().as_slice());
        let alphas = t.challenge_scalars(TAG_ALPHAS, N_CONSTRAINTS);
        t.append_tag(TAG_QUOTIENT);
        t.append_bytes(proof.quotient_commitment.to_bytes().as_slice());
        let zetas = t.challenge_scalars(TAG_ZETA, 1);
        t.append_tag(TAG_EVALS);
        t.append_scalar(&proof.columns_at_zeta[0]);
        t.append_scalar(&proof.columns_at_zeta[1]);
        t.append_scalar(&proof.columns_at_zeta[2]);
        t.append_scalar(&proof.columns_at_zeta[3]);
        t.append_scalar(&proof.columns_at_zeta[4]);
        t.append_scalar(&proof.columns_at_zeta[5]);
        t.append_scalar(&proof.columns_at_zeta[6]);
        t.append_scalar(&proof.lin_at_zeta_omega);
        let nus = t.challenge_scalars(TAG_NUS, N_COLUMNS + 1);
        t.append_tag(TAG_OPENING_PROOFS);
        t.append_bytes(proof.agg_at_zeta_proof.to_bytes().as_slice());
        t.append_bytes(proof.lin_at_zeta_omega_proof.to_bytes().as_slice());
        let zeta = zetas[0].copy();
        proof {
            assert(scalars_view(alphas@) =~= alphas_of(self.transcript_prelude@, *proof, result@));
            assert(scalars_view(nus@) =~= nus_of(self.transcript_prelude@, *proof, result@));
        }
        (Challenges { alphas, zeta, nus }, t)
    }

    /// Verifies one proof against the committed ring and a claimed blinded
    /// public key. Malformed proof shapes and off-curve result points are
    /// rejected before challenge derivation; then one full pairing check
    /// decides. Returns `false` on any mismatch, never panics and never
    /// says why.
    pub fn verify(&self, proof: &RingProof, result: &TePoint) -> (out: bool)
        requires
            self.wf(),
        ensures
            out == ring_verify_spec(*self, *proof, result@),
    {
        if !proof.check_shape() {
            return false;
        }
        if !result.is_on_curve() {
            return false;
        }
        let (challenges, t) = self.restore_challenges(proof, result);
        let spr = match te_add(&self.piop_params.seed, result) {
            Some(v) => v,
            None => {
                return false;
            },
        };
        let dom = match evaluate_domain(&self.piop_params, &challenges.zeta) {
            Some(d) => d,
            None => {
                return false;
            },
        };
        let r = t.into_rand_scalar();
        let piop = RingPiop {
            domain: dom,
            fixed: self.fixed_columns_committed.copy(),
            witness_comms: copy_points(&proof.column_commitments),
            evals: copy_scalars(&proof.columns_at_zeta),
            seed: self.piop_params.seed.copy(),
            seed_plus_result: spr,
        };
        let mut acc = KzgAccumulator::new(self.kzg_vk.copy());
        acc.accumulate(&piop, proof, &challenges, &r);
        let out = acc.verify();
        proof {
            assert(seq![0nat].update(
                0,
                crate::kzg_acc::s0_after_of(0, piop, *proof, challenges, r@),
            ) =~= seq![crate::kzg_acc::s0_after_of(0, piop, *proof, challenges, r@)]);
            assert(points_view(piop.witness_comms@) == points_view(proof.column_commitments@));
            assert(scalars_view(piop.evals@) == scalars_view(proof.columns_at_zeta@));
        }
        out
    }

    /// Verifies a batch of proofs one by one, stopping at the first failure.
    /// Accepts exactly when every pair within the common length of the two
    /// vectors verifies; does not say which proof failed.
    pub fn verify_batch(&self, proofs: &Vec<RingProof>, results: &Vec<TePoint>) -> (out: bool)
        requires
            self.wf(),
        ensures
            out == (forall|i: int|
                0 <= i < vstd::math::min(proofs@.len() as int, results@.len() as int)
                    ==> ring_verify_spec(*self, proofs@[i], #[trigger] results@[i]@)),
    {
        let k = if proofs.len() <= results.len() {
            proofs.len()
        } else {
            results.len()
        };
        let mut i: usize = 0;
        while i < k
            invariant
                self.wf(),
                k == vstd::math::min(proofs@.len() as int, results@.len() as int),
                0 <= i <= k,
                forall|j: int|
                    0 <= j < i ==> ring_verify_spec(*self, proofs@[j], #[trigger] results@[j]@),
            decreases k - i,
        {
            if !self.verify(&proofs[i], &results[i]) {
                return false;
            }
            i = i + 1;
        }
        true
    }
}

/// A proof preprocessed for batch verification: its relation instance, its
/// re-derived challenges, and 32 bytes of entropy drawn from its transcript,
/// which later seed the proof's accumulation randomizer. Self-contained and
/// independent of the accumulator, so many proofs can be prepared in
/// parallel before being pushed one by one.
pub struct PreparedBatchItem {
    pub piop: RingPiop,
    pub proof: RingProof,
    pub challenges: Challenges,
    pub entropy: Vec<u8>,
}

impl PreparedBatchItem {
    /// Structural soundness of the item.
    pub open spec fn wf(self) -> bool {
        self.piop.wf() && self.proof.wf() && self.challenges.wf() && self.entropy@.len() == 32
    }
}

/// Whether a prepared item is what `prepare` derives for the given proof and
/// result under the given verifier.
pub open spec fn is_prepared(
    v: RingVerifier,
    item: PreparedBatchItem,
    proof: RingProof,
    result: (nat, nat),
) -> bool {
    let prelude = v.transcript_prelude@;
    on_te_curve(result) && item.proof == proof && scalars_view(item.challenges.alphas@) == alphas_of(
        prelude,
        proof,
        result,
    ) && item.challenges.zeta@ == zeta_of(prelude, proof, result) && scalars_view(
        item.challenges.nus@,
    ) == nus_of(prelude, proof, result) && item.entropy@ == entropy_of(
        final_log(prelude, proof, result),
    ) && item.piop.fixed@ == v.fixed_columns_committed@ && points_view(item.piop.witness_comms@)
        == points_view(proof.column_commitments@) && scalars_view(item.piop.evals@) == scalars_view(
        proof.columns_at_zeta@,
    ) && item.piop.seed@ == v.piop_params.seed@ && te_add_spec(v.piop_params.seed@, result)
        == Some(item.piop.seed_plus_result@) && domain_eval(
        v.piop_params.domain_size as nat,
        v.piop_params.omega@,
        zeta_of(prelude, proof, result),
    ) == Some(item.piop.domain@)
}

/// Whether `prepare` rejects the proof before touching any accumulator: a
/// malformed shape, an off-curve result point, or a degenerate challenge.
pub open spec fn prepare_rejects(v: RingVerifier, proof: RingProof, result: (nat, nat)) -> bool {
    !proof.wf() || !on_te_curve(result) || te_add_spec(v.piop_params.seed@, result) is None
        || domain_eval(
        v.piop_params.domain_size as nat,
        v.piop_params.omega@,
        zeta_of(v.transcript_prelude@, proof, result),
    ) is None
}

/// The randomizer of one accumulated proof: drawn from a short transcript
/// keyed with the prelude and the item's entropy, so it is independent per
/// proof and fixed only after the whole proof was absorbed.
pub open spec fn batch_r(prelude: Seq<Seq<u8>>, entropy: Seq<u8>) -> nat {
    rand_scalar_of(
        prelude.push(data_entry(seq![TAG_BATCH_ENTROPY])).push(data_entry(entropy)),
    )
}

/// The accumulator state one push adds to `st`, or `None` if the proof is
/// rejected at the boundary. The four components are the accumulated points,
/// scalars, opening proofs and randomizers.
#[verifier::opaque]
pub open spec fn push_step(
    v: RingVerifier,
    st: (Seq<Seq<u8>>, Seq<nat>, Seq<Seq<u8>>, Seq<nat>),
    proof: RingProof,
    result: (nat, nat),
) -> Option<(Seq<Seq<u8>>, Seq<nat>, Seq<Seq<u8>>, Seq<nat>)>
    recommends
        st.1.len() >= 1,
{
    let prelude = v.transcript_prelude@;
    let alphas = alphas_of(prelude, proof, result);
    let zeta = zeta_of(prelude, proof, result);
    let nus = nus_of(prelude, proof, result);
    let r = batch_r(prelude, entropy_of(final_log(prelude, proof, result)));
    if !proof.wf() || !on_te_curve(result) {
        None
    } else {
        match te_add_spec(v.piop_params.seed@, result) {
            None => None,
            Some(spr) => match domain_eval(
                v.piop_params.domain_size as nat,
                v.piop_params.omega@,
                zeta,
            ) {
                None => None,
                Some(dom) => {
                    let evals = scalars_view(proof.columns_at_zeta@);
                    let q = q_at_zeta(
                        evals,
                        alphas,
                        dom,
                        v.piop_params.seed@,
                        spr,
                        proof.lin_at_zeta_omega@,
                    );
                    Some(
                        (
                            st.0 + acc_points_delta(
                                v.fixed_columns_committed@,
                                points_view(proof.column_commitments@),
                                proof.quotient_commitment@,
                                proof.agg_at_zeta_proof@,
                                proof.lin_at_zeta_omega_proof@,
                            ),
                            st.1.update(
                                0,
                                s0_after(
                                    st.1[0],
                                    agg_eval(evals, nus, q),
                                    proof.lin_at_zeta_omega@,
                                    r,
                                ),
                            ) + acc_scalars_delta(
                                nus,
                                zeta,
                                dom.1,
                                lin_coeffs_at_zeta(alphas, evals, dom.3),
                                r,
                            ),
                            st.2 + seq![proof.agg_at_zeta_proof@, proof.lin_at_zeta_omega_proof@],
                            st.3 + seq![r, fmul(r, r)],
                        ),
                    )
                },
            },
        }
    }
}

/// A fresh accumulator's state under a verifier's key.
pub open spec fn init_state(v: RingVerifier) -> (Seq<Seq<u8>>, Seq<nat>, Seq<Seq<u8>>, Seq<nat>) {
    (seq![v.kzg_vk@.0], seq![0nat], Seq::<Seq<u8>>::empty(), Seq::<nat>::empty())
}

/// The accumulator state after pushing the first `k` proof/result pairs in
/// order, or `None` if any of them is rejected at the boundary.
pub open spec fn batch_state(
    v: RingVerifier,
    proofs: Seq<RingProof>,
    results: Seq<(nat, nat)>,
    k: nat,
) -> Option<(Seq<Seq<u8>>, Seq<nat>, Seq<Seq<u8>>, Seq<nat>)>
    recommends
        k <= proofs.len(),
        k <= results.len(),
    decreases k,
{
    if k == 0 {
        Some(init_state(v))
    } else {
        match batch_state(v, proofs, results, (k - 1) as nat) {
            None => None,
            Some(st) => push_step(v, st, proofs[k - 1], results[k - 1]),
        }
    }
}

/// The coordinates of a sequence of curve points.
pub open spec fn te_views(s: Seq<TePoint>) -> Seq<(nat, nat)> {
    s.map_values(|q: TePoint| q@)
}

/// Accumulating batch verifier for ring proofs: proofs are prepared (in any
/// order, even in parallel), pushed one by one into the shared accumulator,
/// and decided together by one final pairing check.
pub struct KzgBatchVerifier {
    pub acc: KzgAccumulator,
    pub verifier: RingVerifier,
}

impl KzgBatchVerifier {
    /// Structural soundness of the batch verifier.
    pub open spec fn wf(self) -> bool {
        self.acc.wf() && self.verifier.wf()
    }

    /// The accumulator's state as the four accumulated sequences.
    pub open spec fn state(self) -> (Seq<Seq<u8>>, Seq<nat>, Seq<Seq<u8>>, Seq<nat>) {
        (self.acc.points(), self.acc.scalars(), self.acc.proofs(), self.acc.rands())
    }

    /// Prepares a proof for batch verification without touching the
    /// accumulator: re-derives its challenges, builds its relation instance,
    /// and draws the entropy that will key its randomizer. Independent of
    /// the accumulator state, so distinct proofs can be prepared in
    /// parallel. Rejected proofs return `None` before any accumulation.
    pub fn prepare(&self, proof: RingProof, result: &TePoint) -> (out: Option<PreparedBatchItem>)
        requires
            self.verifier.wf(),
        ensures
            match out {
                Some(item) => item.wf() && is_prepared(self.verifier, item, proof, result@),
                None => prepare_rejects(self.verifier, proof, result@),
            },
    {
        if !proof.check_shape() {
            return None;
        }
        if !result.is_on_curve() {
            return None;
        }
        let (challenges, t) = self.verifier.restore_challenges(&proof, result);
        let spr = match te_add(&self.verifier.piop_params.seed, result) {
            Some(v) => v,
            None => {
                return None;
            },
        };
        let dom = match evaluate_domain(&self.verifier.piop_params, &challenges.zeta) {
            Some(d) => d,
            None => {
                return None;
            },
        };
        let entropy = t.into_entropy();
        let piop = RingPiop {
            domain: dom,
            fixed: self.verifier.fixed_columns_committed.copy(),
            witness_comms: copy_points(&proof.column_commitments),
            evals: copy_scalars(&proof.columns_at_zeta),
            seed: self.verifier.piop_params.seed.copy(),
            seed_plus_result: spr,
        };
        Some(PreparedBatchItem { piop, proof, challenges, entropy })
    }

    /// Accumulates a prepared proof: re-derives a short transcript keyed
    /// with the item's entropy, draws the randomizer from it, and folds the
    /// item's two opening claims into the accumulator. Mutates shared state,
    /// so calls must be serialized; the state after a set of pushes does not
    /// depend on their order.
    pub fn push_prepared(&mut self, item: PreparedBatchItem)
        requires
            old(self).wf(),
            item.wf(),
        ensures
            final(self).wf(),
            final(self).verifier == old(self).verifier,
            final(self).acc.vk() == old(self).acc.vk(),
            final(self).state() == prepared_push(
                old(self).verifier.transcript_prelude@,
                old(self).state(),
                item,
            ),
    {
        let mut t = self.verifier.transcript_prelude.copy();
        t.append_tag(TAG_BATCH_ENTROPY);
        t.append_bytes(item.entropy.as_slice());
        let r = t.into_rand_scalar();
        self.acc.accumulate(&item.piop, &item.proof, &item.challenges, &r);
    }

    /// Prepares a proof and accumulates it immediately. Returns whether the
    /// proof was accepted into the batch; a rejected proof leaves the
    /// accumulator unchanged.
    #[verifier::rlimit(100)]
    pub fn push(&mut self, proof: RingProof, result: &TePoint) -> (out: bool)
        requires
            old(self).wf(),
        ensures
            final(self).wf(),
            final(self).verifier == old(self).verifier,
            final(self).acc.vk() == old(self).acc.vk(),
            match push_step(old(self).verifier, old(self).state(), proof, result@) {
                Some(st) => out == true && final(self).state() == st,
                None => out == false && final(self).state() == old(self).state(),
            },
    {
        proof {
            reveal(push_step);
        }
        let item = match self.prepare(proof, result) {
            Some(item) => item,
            None => {
                return false;
            },
        };
        self.push_prepared(item);
        true
    }

    /// Decides the whole batch: two MSMs over everything accumulated and a
    /// single pairing check. Reading the state only, it can be called again;
    /// a repeated call repeats the same verdict.
    pub fn verify(&self) -> (out: bool)
        requires
            self.wf(),
        ensures
            out == acc_verify(
                self.acc.points(),
                self.acc.scalars(),
                self.acc.proofs(),
                self.acc.rands(),
                self.acc.vk(),
            ),
    {
        self.acc.verify()
    }
}

/// The state a prepared item's push produces: `push_step` with the item's
/// stored challenges and entropy.
pub open spec fn prepared_push(
    prelude: Seq<Seq<u8>>,
    st: (Seq<Seq<u8>>, Seq<nat>, Seq<Seq<u8>>, Seq<nat>),
    item: PreparedBatchItem,
) -> (Seq<Seq<u8>>, Seq<nat>, Seq<Seq<u8>>, Seq<nat>)
    recommends
        st.1.len() >= 1,
{
    let r = batch_r(prelude, item.entropy@);
    (
        st.0 + crate::kzg_acc::points_delta_of(item.piop, item.proof),
        st.1.update(
            0,
            crate::kzg_acc::s0_after_of(st.1[0], item.piop, item.proof, item.challenges, r),
        ) + crate::kzg_acc::scalars_delta_of(item.piop, item.challenges, r),
        st.2 + seq![item.proof.agg_at_zeta_proof@, item.proof.lin_at_zeta_omega_proof@],
        st.3 + seq![r, fmul(r, r)],
    )
}

impl RingVerifier {
    /// Builds a batch verifier around this verifier, with a fresh
    /// accumulator under the same PCS key.
    pub fn kzg_batch_verifier(self) -> (out: KzgBatchVerifier)
        requires
            self.wf(),
        ensures
            out.wf(),
            out.verifier == self,
            out.state() == init_state(self),
            out.acc.vk() == self.kzg_vk@,
    {
        let acc = KzgAccumulator::new(self.kzg_vk.copy());
        KzgBatchVerifier { acc, verifier: self }
    }

    /// Verifies a batch of proofs against the same ring with the KZG
    /// accumulator: every pair within the common length of the two vectors
    /// must be accepted into the batch and the accumulated pairing check
    /// must pass.
    #[verifier::loop_isolation(false)]
    pub fn verify_batch_kzg(self, proofs: Vec<RingProof>, results: &Vec<TePoint>) -> (out: bool)
        requires
            self.wf(),
        ensures
            out == match batch_state(
                self,
                proofs@,
                te_views(results@),
                vstd::math::min(proofs@.len() as int, results@.len() as int) as nat,
            ) {
                Some(st) => acc_verify(st.0, st.1, st.2, st.3, self.kzg_vk@),
                None => false,
            },
    {
        let ghost all_proofs = proofs@;
        let ghost v = self;
        let k = if proofs.len() <= results.len() {
            proofs.len()
        } else {
            results.len()
        };
        let mut rest = proofs;
        let mut batch = self.kzg_batch_verifier();
        let mut i: usize = 0;
        while i < k
            invariant
                batch.wf(),
                batch.verifier == v,
                0 <= i <= k,
                k == vstd::math::min(all_proofs.len() as int, results@.len() as int),
                batch.acc.vk() == v.kzg_vk@,
                rest@ == all_proofs.skip(i as int),
                batch_state(v, all_proofs, te_views(results@), i as nat) == Some(batch.state()),
            decreases k - i,
        {
            let proof = rest.remove(0);
            proof {
                assert(proof == all_proofs[i as int]);
                assert(rest@ =~= all_proofs.skip(i as int + 1));
                assert(results@[i as int]@ == te_views(results@)[i as int]);
            }
            if !batch.push(proof, &results[i]) {
                proof {
                    lemma_batch_state_none(
                        v,
                        all_proofs,
                        te_views(results@),
                        (i + 1) as nat,
                        k as nat,
                    );
                }
                return false;
            }
            i = i + 1;
        }
        batch.verify()
    }
}

/// Once a prefix rejects, every longer prefix rejects.
proof fn lemma_batch_state_none(
    v: RingVerifier,
    proofs: Seq<RingProof>,
    results: Seq<(nat, nat)>,
    j: nat,
    k: nat,
)
    requires
        j <= k,
        batch_state(v, proofs, results, j) is None,
    ensures
        batch_state(v, proofs, results, k) is None,
    decreases k - j,
{
    if j < k {
        lemma_batch_state_none(v, proofs, results, j + 1, k);
    }
}

/// Updating the head of a concatenation updates the head of its left part.
proof fn lemma_update_concat(a: Seq<nat>, b: Seq<nat>, v: nat)
    requires
        a.len() >= 1,
    ensures
        (a + b).update(0, v) == a.update(0, v) + b,
{
    assert((a + b).update(0, v) =~= a.update(0, v) + b);
}

/// Subtracting two reduced values folds into one modular expression.
proof fn lemma_fsub2(x: nat, a: nat, b: nat)
    requires
        a < p(),
        b < p(),
    ensures
        fsub(fsub(x, a), b) == (((x + 2 * p() - a - b) as int % (p() as int)) as nat),
{
    let pi = p() as int;
    let q: int = x + p() - a;
    assert(fsub(x, a) == (q % pi) as nat);
    vstd::arithmetic::div_mod::lemma_add_mod_noop_right((p() - b) as int, q, pi);
    assert(((p() - b) + q % pi) % pi == ((p() - b) + q) % pi);
}

/// The constant-term accumulator lands on the same value whichever of two
/// proofs' contributions is subtracted first.
proof fn lemma_s0_commutes(x: nat, u1: nat, u2: nat, u3: nat, u4: nat)
    requires
        u1 < p(),
        u2 < p(),
        u3 < p(),
        u4 < p(),
    ensures
        fsub(fsub(fsub(fsub(x, u1), u2), u3), u4) == fsub(fsub(fsub(fsub(x, u3), u4), u1), u2),
{
    let pi = p() as int;
    lemma_fsub2(x, u1, u2);
    lemma_fsub2(x, u3, u4);
    let y12 = (((x + 2 * p() - u1 - u2) as int % pi) as nat);
    let y34 = (((x + 2 * p() - u3 - u4) as int % pi) as nat);
    lemma_fsub2(y12, u3, u4);
    lemma_fsub2(y34, u1, u2);
    let q12: int = (x + 2 * p() - u1 - u2) as int;
    vstd::arithmetic::div_mod::lemma_add_mod_noop_right((2 * p() - u3 - u4) as int, q12, pi);
    let q34: int = (x + 2 * p() - u3 - u4) as int;
    vstd::arithmetic::div_mod::lemma_add_mod_noop_right((2 * p() - u1 - u2) as int, q34, pi);
}

/// An MSM's term multiset splits over parallel concatenations.
proof fn lemma_msm_terms_split(ps1: Seq<Seq<u8>>, ss1: Seq<nat>, ps2: Seq<Seq<u8>>, ss2: Seq<nat>)
    requires
        ps1.len() == ss1.len(),
        ps2.len() == ss2.len(),
    ensures
        msm_terms(ps1 + ps2, ss1 + ss2) == msm_terms(ps1, ss1).add(msm_terms(ps2, ss2)),
{
    let z = Seq::new((ps1 + ps2).len(), |i: int| ((ps1 + ps2)[i], (ss1 + ss2)[i]));
    let z1 = Seq::new(ps1.len(), |i: int| (ps1[i], ss1[i]));
    let z2 = Seq::new(ps2.len(), |i: int| (ps2[i], ss2[i]));
    assert(z =~= z1 + z2);
    vstd::seq_lib::lemma_multiset_commutative(z1, z2);
}

/// The thirteen points and thirteen scalars one prepared item appends.
proof fn lemma_delta_lens(item: PreparedBatchItem, r: nat)
    requires
        item.wf(),
    ensures
        crate::kzg_acc::points_delta_of(item.piop, item.proof).len() == 13,
        crate::kzg_acc::scalars_delta_of(item.piop, item.challenges, r).len() == 13,
{
    reveal(lin_coeffs_at_zeta);
}

/// Order independence of batch accumulation: pushing two prepared items into
/// the accumulator in either order yields states with the same term
/// multisets and the same constant-term scalar, so the final accumulated
/// pairing check gives the same verdict. By induction this extends to any
/// permutation of any number of prepared items.
pub proof fn lemma_push_order_independent(
    prelude: Seq<Seq<u8>>,
    st: (Seq<Seq<u8>>, Seq<nat>, Seq<Seq<u8>>, Seq<nat>),
    a: PreparedBatchItem,
    b: PreparedBatchItem,
    vk: (Seq<u8>, Seq<u8>, Seq<u8>),
)
    requires
        a.wf(),
        b.wf(),
        st.0.len() == st.1.len(),
        st.1.len() >= 1,
        st.2.len() == st.3.len(),
    ensures
        ({
            let ab = prepared_push(prelude, prepared_push(prelude, st, a), b);
            let ba = prepared_push(prelude, prepared_push(prelude, st, b), a);
            acc_verify(ab.0, ab.1, ab.2, ab.3, vk) == acc_verify(ba.0, ba.1, ba.2, ba.3, vk)
        }),
{
    broadcast use vstd::multiset::group_multiset_axioms;

    let ra = batch_r(prelude, a.entropy@);
    let rb = batch_r(prelude, b.entropy@);
    let dpa = crate::kzg_acc::points_delta_of(a.piop, a.proof);
    let dsa = crate::kzg_acc::scalars_delta_of(a.piop, a.challenges, ra);
    let dpb = crate::kzg_acc::points_delta_of(b.piop, b.proof);
    let dsb = crate::kzg_acc::scalars_delta_of(b.piop, b.challenges, rb);
    lemma_delta_lens(a, ra);
    lemma_delta_lens(b, rb);
    let u1 = fmul(
        crate::kzg_acc::agg_eval(
            scalars_view(a.piop.evals@),
            scalars_view(a.challenges.nus@),
            crate::kzg_acc::q_of(a.piop, a.proof, a.challenges),
        ),
        ra,
    );
    let u2 = fmul(a.proof.lin_at_zeta_omega@, fmul(ra, ra));
    let u3 = fmul(
        crate::kzg_acc::agg_eval(
            scalars_view(b.piop.evals@),
            scalars_view(b.challenges.nus@),
            crate::kzg_acc::q_of(b.piop, b.proof, b.challenges),
        ),
        rb,
    );
    let u4 = fmul(b.proof.lin_at_zeta_omega@, fmul(rb, rb));
    let x = st.1[0];
    lemma_s0_commutes(x, u1, u2, u3, u4);
    let s_final = fsub(fsub(fsub(fsub(x, u1), u2), u3), u4);
    let ab = prepared_push(prelude, prepared_push(prelude, st, a), b);
    let ba = prepared_push(prelude, prepared_push(prelude, st, b), a);

    // Normalize both scalar lists to an update of the original head followed
    // by the two deltas.
    lemma_update_concat(st.1.update(0, fsub(fsub(x, u1), u2)), dsa, s_final);
    lemma_update_concat(st.1.update(0, fsub(fsub(x, u3), u4)), dsb, s_final);
    assert(ab.1 == st.1.update(0, s_final) + dsa + dsb);
    assert(ba.1 == st.1.update(0, s_final) + dsb + dsa);
    assert(ab.0 == st.0 + dpa + dpb);
    assert(ba.0 == st.0 + dpb + dpa);

    // The accumulated MSM terms agree as multisets.
    let st1f = st.1.update(0, s_final);
    lemma_msm_terms_split(st.0, st1f, dpa, dsa);
    lemma_msm_terms_split(st.0 + dpa, st1f + dsa, dpb, dsb);
    lemma_msm_terms_split(st.0, st1f, dpb, dsb);
    lemma_msm_terms_split(st.0 + dpb, st1f + dsb, dpa, dsa);
    assert(msm_terms(ab.0, ab.1) =~= msm_terms(ba.0, ba.1));

    // So do the opening-proof terms.
    let ppa = seq![a.proof.agg_at_zeta_proof@, a.proof.lin_at_zeta_omega_proof@];
    let rra = seq![ra, fmul(ra, ra)];
    let ppb = seq![b.proof.agg_at_zeta_proof@, b.proof.lin_at_zeta_omega_proof@];
    let rrb = seq![rb, fmul(rb, rb)];
    lemma_msm_terms_split(st.2, st.3, ppa, rra);
    lemma_msm_terms_split(st.2 + ppa, st.3 + rra, ppb, rrb);
    lemma_msm_terms_split(st.2, st.3, ppb, rrb);
    lemma_msm_terms_split(st.2 + ppb, st.3 + rrb, ppa, rra);
    assert(msm_terms(ab.2, ab.3) =~= msm_terms(ba.2, ba.3));
}

} // verus!
