//! The PIOP verifier core for the ring-membership relation: the committed
//! column layout, the named constraint polynomials evaluated at the challenge
//! point, the linearization commitment recipe for the shifted-row opening,
//! and the reconstruction of the quotient polynomial's expected evaluation.
//!
//! Column order, fixed first: key x, key y, ring selector (committed once per
//! ring), then bit column, inner-product accumulator, conditional-addition
//! accumulator x and y (committed per proof). The constraints are, in order:
//! booleanity of the bit column; the inner-product update; the conditional
//! twisted Edwards addition identities for x and y; and six boundary
//! constraints pinning the inner product to start at zero and end at one and
//! the point accumulator to start at the seed and end at seed plus result.

use crate::field::{
    fadd, finv, fmul, fr_add, fr_inv, fr_mul, fr_pow, fr_sub, fsub, pow_mod, scalars_view,
    weighted_sum, wsum, Scalar,
};
use crate::g1::{points_view, G1Point, KzgVk};
use crate::te::{te_a, te_coeff_a, te_coeff_d, te_d, TePoint};
use vstd::prelude::*;

verus! {

/// Fixed columns committed once per ring.
pub const N_FIXED_COLUMNS: usize = 3;

/// Witness columns committed in each proof.
pub const N_WITNESS_COLUMNS: usize = 4;

/// All columns opened at the evaluation point.
pub const N_COLUMNS: usize = 7;

/// Named polynomial identities of the relation.
pub const N_CONSTRAINTS: usize = 10;

/// Commitments to the relation's fixed columns.
pub struct FixedColumnsCommitted {
    pub key_x: G1Point,
    pub key_y: G1Point,
    pub selector: G1Point,
}

impl View for FixedColumnsCommitted {
    type V = Seq<Seq<u8>>;

    open spec fn view(&self) -> Seq<Seq<u8>> {
        seq![self.key_x@, self.key_y@, self.selector@]
    }
}

impl FixedColumnsCommitted {
    /// An identical copy.
    pub fn copy(&self) -> (r: FixedColumnsCommitted)
        ensures
            r@ == self@,
    {
        let r = FixedColumnsCommitted {
            key_x: self.key_x.copy(),
            key_y: self.key_y.copy(),
            selector: self.selector.copy(),
        };
        proof {
            assert(r@ =~= self@);
        }
        r
    }
}

/// Raw verifier parameters: the prepared-pairing key material and the fixed
/// column commitments, built once per ring by an external indexer.
pub struct VerifierKey {
    pub kzg_vk: KzgVk,
    pub fixed_columns_committed: FixedColumnsCommitted,
}

/// Curve- and domain-specific protocol constants shared by prover and
/// verifier: the evaluation domain (size and generator), the Pedersen
/// blinding base, the proof-of-knowledge seed point and the padding point.
pub struct PiopParams {
    pub domain_size: u64,
    pub omega: Scalar,
    pub h: TePoint,
    pub seed: TePoint,
    pub padding: TePoint,
}

impl PiopParams {
    /// Structural soundness of the parameters.
    pub open spec fn wf(self) -> bool {
        self.domain_size >= 2
    }
}

/// A ring-membership proof: commitments to the witness columns, claimed
/// evaluations of all columns at the challenge point, the quotient
/// commitment, the claimed linearization evaluation at the shifted point,
/// and the two KZG opening proofs.
pub struct RingProof {
    pub column_commitments: Vec<G1Point>,
    pub columns_at_zeta: Vec<Scalar>,
    pub quotient_commitment: G1Point,
    pub lin_at_zeta_omega: Scalar,
    pub agg_at_zeta_proof: G1Point,
    pub lin_at_zeta_omega_proof: G1Point,
}

impl RingProof {
    /// Whether the proof has the relation's column counts.
    pub open spec fn wf(self) -> bool {
        self.column_commitments@.len() == N_WITNESS_COLUMNS && self.columns_at_zeta@.len()
            == N_COLUMNS
    }

    /// Executable form of `wf`; malformed shapes must be rejected before any
    /// challenge derivation.
    pub fn check_shape(&self) -> (r: bool)
        ensures
            r == self.wf(),
    {
        self.column_commitments.len() == N_WITNESS_COLUMNS && self.columns_at_zeta.len()
            == N_COLUMNS
    }
}

/// The verifier challenges: constraint-combination randomness `alphas`, the
/// evaluation point `zeta`, and column-aggregation randomness `nus`.
pub struct Challenges {
    pub alphas: Vec<Scalar>,
    pub zeta: Scalar,
    pub nus: Vec<Scalar>,
}

impl Challenges {
    /// Whether the challenge counts match the relation.
    pub open spec fn wf(self) -> bool {
        self.alphas@.len() == N_CONSTRAINTS && self.nus@.len() == N_COLUMNS + 1
    }
}

/// The evaluation-domain snapshot at the challenge point `zeta`: the inverse
/// of the vanishing polynomial's value, the `zeta - omega^(n-1)` factor that
/// switches constraints off on the last row, the first and last Lagrange
/// basis values, and the shifted point `zeta * omega`.
pub struct DomainAtZeta {
    pub zeta: Scalar,
    pub zeta_omega: Scalar,
    pub z_inv: Scalar,
    pub not_last: Scalar,
    pub l_first: Scalar,
    pub l_last: Scalar,
}

impl View for DomainAtZeta {
    type V = (nat, nat, nat, nat, nat, nat);

    open spec fn view(&self) -> (nat, nat, nat, nat, nat, nat) {
        (self.zeta@, self.zeta_omega@, self.z_inv@, self.not_last@, self.l_first@, self.l_last@)
    }
}

/// The domain snapshot at `zeta` for a radix-`n` domain with generator
/// `omega`, or `None` in the negligible-probability degenerate cases: the
/// vanishing polynomial `zeta^n - 1` is zero at `zeta`, or a Lagrange
/// denominator is zero.
#[verifier::opaque]
pub open spec fn domain_eval(n: nat, omega: nat, zeta: nat) -> Option<
    (nat, nat, nat, nat, nat, nat),
>
    recommends
        n >= 1,
{
    let z_at = fsub(pow_mod(zeta, n), 1);
    let w_last = pow_mod(omega, (n - 1) as nat);
    let not_last = fsub(zeta, w_last);
    let den_first = fmul(n, fsub(zeta, 1));
    let den_last = fmul(n, not_last);
    if z_at == 0 || den_first == 0 || den_last == 0 {
        None
    } else {
        Some(
            (
                zeta,
                fmul(zeta, omega),
                finv(z_at),
                not_last,
                fmul(z_at, finv(den_first)),
                fmul(fmul(w_last, z_at), finv(den_last)),
            ),
        )
    }
}

/// Evaluates the domain structure at `zeta`.
pub fn evaluate_domain(params: &PiopParams, zeta: &Scalar) -> (r: Option<DomainAtZeta>)
    requires
        params.wf(),
    ensures
        match r {
            Some(d) => domain_eval(params.domain_size as nat, params.omega@, zeta@) == Some(d@),
            None => domain_eval(params.domain_size as nat, params.omega@, zeta@) is None,
        },
{
    proof {
        reveal(domain_eval);
    }
    let one = Scalar::from_u64(1);
    let n_scalar = Scalar::from_u64(params.domain_size);
    let zn = fr_pow(zeta, params.domain_size);
    let z_at = fr_sub(&zn, &one);
    if z_at.is_zero() {
        return None;
    }
    let w_last = fr_pow(&params.omega, params.domain_size - 1);
    let not_last = fr_sub(zeta, &w_last);
    let den_first = fr_mul(&n_scalar, &fr_sub(zeta, &one));
    let den_last = fr_mul(&n_scalar, &not_last);
    let z_inv = match fr_inv(&z_at) {
        Some(v) => v,
        None => {
            proof {
                assert(false);
            }
            return None;
        },
    };
    let inv_first = match fr_inv(&den_first) {
        Some(v) => v,
        None => {
            return None;
        },
    };
    let inv_last = match fr_inv(&den_last) {
        Some(v) => v,
        None => {
            return None;
        },
    };
    Some(
        DomainAtZeta {
            zeta: zeta.copy(),
            zeta_omega: fr_mul(zeta, &params.omega),
            z_inv,
            not_last,
            l_first: fr_mul(&z_at, &inv_first),
            l_last: fr_mul(&fr_mul(&w_last, &z_at), &inv_last),
        },
    )
}

/// The relation instance for one proof: the domain snapshot, the fixed and
/// witness column commitments, the claimed evaluations, and the relation's
/// public inputs (the seed point and the expected final accumulator point
/// `seed + result`).
pub struct RingPiop {
    pub domain: DomainAtZeta,
    pub fixed: FixedColumnsCommitted,
    pub witness_comms: Vec<G1Point>,
    pub evals: Vec<Scalar>,
    pub seed: TePoint,
    pub seed_plus_result: TePoint,
}

impl RingPiop {
    /// Whether the instance has the relation's column counts.
    pub open spec fn wf(self) -> bool {
        self.witness_comms@.len() == N_WITNESS_COLUMNS && self.evals@.len() == N_COLUMNS
    }
}

/// The ten constraint evaluations at `zeta`, without their shifted-row
/// terms (those enter through the linearization polynomial). The column
/// evaluations come in the committed order.
#[verifier::opaque]
pub open spec fn constraints_at_zeta(
    ev: Seq<nat>,
    not_last: nat,
    l_first: nat,
    l_last: nat,
    seed: (nat, nat),
    spr: (nat, nat),
) -> Seq<nat>
    recommends
        ev.len() == N_COLUMNS,
{
    let kx = ev[0];
    let ky = ev[1];
    let sel = ev[2];
    let b = ev[3];
    let ip = ev[4];
    let ax = ev[5];
    let ay = ev[6];
    seq![
        fmul(b, fsub(1, b)),
        fmul(not_last, fsub(0, fadd(ip, fmul(b, sel)))),
        fmul(
            not_last,
            fsub(0, fadd(fmul(b, fadd(fmul(ax, ky), fmul(ay, kx))), fmul(fsub(1, b), ax))),
        ),
        fmul(
            not_last,
            fsub(
                0,
                fadd(fmul(b, fsub(fmul(ay, ky), fmul(te_a(), fmul(ax, kx)))), fmul(fsub(1, b), ay)),
            ),
        ),
        fmul(l_first, ip),
        fmul(l_last, fsub(ip, 1)),
        fmul(l_first, fsub(ax, seed.0)),
        fmul(l_first, fsub(ay, seed.1)),
        fmul(l_last, fsub(ax, spr.0)),
        fmul(l_last, fsub(ay, spr.1)),
    ]
}

/// The coefficients with which the shifted-opened columns (inner product,
/// accumulator x, accumulator y) enter the linearization polynomial.
#[verifier::opaque]
pub open spec fn lin_coeffs_at_zeta(alphas: Seq<nat>, ev: Seq<nat>, not_last: nat) -> Seq<nat>
    recommends
        alphas.len() == N_CONSTRAINTS,
        ev.len() == N_COLUMNS,
{
    let kx = ev[0];
    let ky = ev[1];
    let b = ev[3];
    let ax = ev[5];
    let ay = ev[6];
    let prod = fmul(fmul(ax, kx), fmul(ay, ky));
    seq![
        fmul(alphas[1], not_last),
        fmul(alphas[2], fmul(not_last, fadd(fmul(b, fadd(1, fmul(te_d(), prod))), fsub(1, b)))),
        fmul(alphas[3], fmul(not_last, fadd(fmul(b, fsub(1, fmul(te_d(), prod))), fsub(1, b)))),
    ]
}

/// The expected evaluation of the quotient polynomial at `zeta`: the
/// `alpha`-combination of the constraint evaluations, completed by the
/// claimed linearization value at `zeta * omega`, divided by the vanishing
/// polynomial's value.
#[verifier::opaque]
pub open spec fn q_at_zeta(
    ev: Seq<nat>,
    alphas: Seq<nat>,
    dom: (nat, nat, nat, nat, nat, nat),
    seed: (nat, nat),
    spr: (nat, nat),
    lin_ev: nat,
) -> nat {
    fmul(fadd(wsum(constraints_at_zeta(ev, dom.3, dom.4, dom.5, seed, spr), alphas), lin_ev), dom.2)
}

impl RingPiop {
    /// Reconstructs the quotient polynomial's expected evaluation at `zeta`.
    pub fn evaluate_q_at_zeta(&self, alphas: &Vec<Scalar>, lin_at_zeta_omega: &Scalar) -> (r:
        Scalar)
        requires
            self.wf(),
            alphas@.len() == N_CONSTRAINTS,
        ensures
            r@ == q_at_zeta(
                scalars_view(self.evals@),
                scalars_view(alphas@),
                self.domain@,
                self.seed@,
                self.seed_plus_result@,
                lin_at_zeta_omega@,
            ),
    {
        proof {
            reveal(q_at_zeta);
        }
        let constraints = self.evaluate_constraints();
        let combined = weighted_sum(&constraints, alphas);
        fr_mul(&fr_add(&combined, lin_at_zeta_omega), &self.domain.z_inv)
    }

    /// The ten constraint evaluations at `zeta`.
    pub fn evaluate_constraints(&self) -> (r: Vec<Scalar>)
        requires
            self.wf(),
        ensures
            scalars_view(r@) == constraints_at_zeta(
                scalars_view(self.evals@),
                self.domain@.3,
                self.domain@.4,
                self.domain@.5,
                self.seed@,
                self.seed_plus_result@,
            ),
            r@.len() == N_CONSTRAINTS,
    {
        proof {
            reveal(constraints_at_zeta);
        }
        let te_a_s = te_coeff_a();
        let one = Scalar::from_u64(1);
        let zero = Scalar::from_u64(0);
        let kx = &self.evals[0];
        let ky = &self.evals[1];
        let sel = &self.evals[2];
        let b = &self.evals[3];
        let ip = &self.evals[4];
        let ax = &self.evals[5];
        let ay = &self.evals[6];
        let not_last = &self.domain.not_last;
        let l_first = &self.domain.l_first;
        let l_last = &self.domain.l_last;
        let one_minus_b = fr_sub(&one, b);
        let mut r: Vec<Scalar> = Vec::new();
        r.push(fr_mul(b, &one_minus_b));
        r.push(fr_mul(not_last, &fr_sub(&zero, &fr_add(ip, &fr_mul(b, sel)))));
        r.push(
            fr_mul(
                not_last,
                &fr_sub(
                    &zero,
                    &fr_add(
                        &fr_mul(b, &fr_add(&fr_mul(ax, ky), &fr_mul(ay, kx))),
                        &fr_mul(&one_minus_b, ax),
                    ),
                ),
            ),
        );
        r.push(
            fr_mul(
                not_last,
                &fr_sub(
                    &zero,
                    &fr_add(
                        &fr_mul(b, &fr_sub(&fr_mul(ay, ky), &fr_mul(&te_a_s, &fr_mul(ax, kx)))),
                        &fr_mul(&one_minus_b, ay),
                    ),
                ),
            ),
        );
        r.push(fr_mul(l_first, ip));
        r.push(fr_mul(l_last, &fr_sub(ip, &one)));
        r.push(fr_mul(l_first, &fr_sub(ax, &self.seed.x)));
        r.push(fr_mul(l_first, &fr_sub(ay, &self.seed.y)));
        r.push(fr_mul(l_last, &fr_sub(ax, &self.seed_plus_result.x)));
        r.push(fr_mul(l_last, &fr_sub(ay, &self.seed_plus_result.y)));
        proof {
            assert(scalars_view(r@) =~= constraints_at_zeta(
                scalars_view(self.evals@),
                self.domain@.3,
                self.domain@.4,
                self.domain@.5,
                self.seed@,
                self.seed_plus_result@,
            ));
        }
        r
    }

    /// The linearization polynomial's commitment recipe for the
    /// `zeta * omega` opening: the coefficients and, in matching order, the
    /// commitments to the shifted-opened columns.
    pub fn lin_poly_commitment(&self, alphas: &Vec<Scalar>) -> (r: (Vec<Scalar>, Vec<G1Point>))
        requires
            self.wf(),
            alphas@.len() == N_CONSTRAINTS,
        ensures
            scalars_view(r.0@) == lin_coeffs_at_zeta(
                scalars_view(alphas@),
                scalars_view(self.evals@),
                self.domain@.3,
            ),
            points_view(r.1@) == seq![
                self.witness_comms@[1]@,
                self.witness_comms@[2]@,
                self.witness_comms@[3]@,
            ],
            r.0@.len() == 3,
            r.1@.len() == 3,
    {
        proof {
            reveal(lin_coeffs_at_zeta);
        }
        let te_d_s = te_coeff_d();
        let one = Scalar::from_u64(1);
        let kx = &self.evals[0];
        let ky = &self.evals[1];
        let b = &self.evals[3];
        let ax = &self.evals[5];
        let ay = &self.evals[6];
        let not_last = &self.domain.not_last;
        let one_minus_b = fr_sub(&one, b);
        let prod = fr_mul(&fr_mul(ax, kx), &fr_mul(ay, ky));
        let d_prod = fr_mul(&te_d_s, &prod);
        let mut coeffs: Vec<Scalar> = Vec::new();
        coeffs.push(fr_mul(&alphas[1], not_last));
        coeffs.push(
            fr_mul(
                &alphas[2],
                &fr_mul(not_last, &fr_add(&fr_mul(b, &fr_add(&one, &d_prod)), &one_minus_b)),
            ),
        );
        coeffs.push(
            fr_mul(
                &alphas[3],
                &fr_mul(not_last, &fr_add(&fr_mul(b, &fr_sub(&one, &d_prod)), &one_minus_b)),
            ),
        );
        let mut comms: Vec<G1Point> = Vec::new();
        comms.push(self.witness_comms[1].copy());
        comms.push(self.witness_comms[2].copy());
        comms.push(self.witness_comms[3].copy());
        proof {
            assert(scalars_view(coeffs@) =~= lin_coeffs_at_zeta(
                scalars_view(alphas@),
                scalars_view(self.evals@),
                self.domain@.3,
            ));
            assert(points_view(comms@) =~= seq![
                self.witness_comms@[1]@,
                self.witness_comms@[2]@,
                self.witness_comms@[3]@,
            ]);
        }
        (coeffs, comms)
    }

    /// The fixed column commitments, in committed order.
    pub fn precommitted_columns(&self) -> (r: Vec<G1Point>)
        ensures
            points_view(r@) == self.fixed@,
            r@.len() == N_FIXED_COLUMNS,
    {
        let mut r: Vec<G1Point> = Vec::new();
        r.push(self.fixed.key_x.copy());
        r.push(self.fixed.key_y.copy());
        r.push(self.fixed.selector.copy());
        proof {
            assert(points_view(r@) =~= self.fixed@);
        }
        r
    }
}

} // verus!
