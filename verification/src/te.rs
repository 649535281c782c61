//! Points of the Bandersnatch curve in twisted Edwards form, as pairs of
//! coordinates in the BLS12-381 scalar field, together with the complete
//! addition law used to combine the proof-of-knowledge seed with a claimed
//! result point.

use crate::field::{fadd, finv, fmul, fr_add, fr_inv, fr_mul, fr_sub, fsub, limbs_val, scalar_eq, Scalar};
use vstd::prelude::*;

verus! {

/// The twisted Edwards `a` coefficient of Bandersnatch, `-5` in the field.
pub open spec fn te_a() -> nat {
    52435875175126190479447740508185965837690552500527637822603658699938581184508nat
}

/// The twisted Edwards `d` coefficient of Bandersnatch.
pub open spec fn te_d() -> nat {
    45022363124591815672509500913686876175488063829319466900776701791074614335719nat
}

/// An affine point (or any coordinate pair) of the Bandersnatch curve.
pub struct TePoint {
    pub x: Scalar,
    pub y: Scalar,
}

impl View for TePoint {
    type V = (nat, nat);

    open spec fn view(&self) -> (nat, nat) {
        (self.x@, self.y@)
    }
}

/// Whether coordinates satisfy the curve equation
/// `a*x^2 + y^2 == 1 + d*x^2*y^2`.
pub open spec fn on_te_curve(q: (nat, nat)) -> bool {
    fadd(fmul(te_a(), fmul(q.0, q.0)), fmul(q.1, q.1)) == fadd(
        1,
        fmul(te_d(), fmul(fmul(q.0, q.0), fmul(q.1, q.1))),
    )
}

/// The twisted Edwards sum of two points, or `None` if a denominator of the
/// addition law vanishes (impossible for curve points, since `d` is a
/// non-square, but stated rather than assumed here).
#[verifier::opaque]
pub open spec fn te_add_spec(q1: (nat, nat), q2: (nat, nat)) -> Option<(nat, nat)> {
    let dxy = fmul(te_d(), fmul(fmul(q1.0, q2.0), fmul(q1.1, q2.1)));
    let den_x = fadd(1, dxy);
    let den_y = fsub(1, dxy);
    if den_x == 0 || den_y == 0 {
        None
    } else {
        Some(
            (
                fmul(fadd(fmul(q1.0, q2.1), fmul(q1.1, q2.0)), finv(den_x)),
                fmul(fsub(fmul(q1.1, q2.1), fmul(te_a(), fmul(q1.0, q2.0))), finv(den_y)),
            ),
        )
    }
}

/// The `a` coefficient as a field element.
pub fn te_coeff_a() -> (r: Scalar)
    ensures
        r@ == te_a(),
{
    let limbs: [u64; 4] = [
        0xfffffffefffffffc,
        0x53bda402fffe5bfe,
        0x3339d80809a1d805,
        0x73eda753299d7d48,
    ];
    proof {
        assert(limbs_val(limbs@) == te_a());
    }
    match Scalar::from_limbs(limbs) {
        Some(s) => s,
        None => {
            proof {
                assert(false);
            }
            Scalar::from_u64(0)
        },
    }
}

/// The `d` coefficient as a field element.
pub fn te_coeff_d() -> (r: Scalar)
    ensures
        r@ == te_d(),
{
    let limbs: [u64; 4] = [
        0xb369f2f5188d58e7,
        0xcb66677177e54f92,
        0xc66e3bf86be3b6d8,
        0x6389c12633c267cb,
    ];
    proof {
        assert(limbs_val(limbs@) == te_d());
    }
    match Scalar::from_limbs(limbs) {
        Some(s) => s,
        None => {
            proof {
                assert(false);
            }
            Scalar::from_u64(0)
        },
    }
}

impl TePoint {
    /// Whether the point lies on the Bandersnatch curve.
    pub fn is_on_curve(&self) -> (r: bool)
        ensures
            r == on_te_curve(self@),
    {
        let a = te_coeff_a();
        let d = te_coeff_d();
        let xx = fr_mul(&self.x, &self.x);
        let yy = fr_mul(&self.y, &self.y);
        let one = Scalar::from_u64(1);
        let lhs = fr_add(&fr_mul(&a, &xx), &yy);
        let rhs = fr_add(&one, &fr_mul(&d, &fr_mul(&xx, &yy)));
        scalar_eq(&lhs, &rhs)
    }

    /// An identical copy.
    pub fn copy(&self) -> (r: TePoint)
        ensures
            r@ == self@,
    {
        TePoint { x: self.x.copy(), y: self.y.copy() }
    }
}

/// Adds two points by the complete twisted Edwards formulas.
pub fn te_add(q1: &TePoint, q2: &TePoint) -> (r: Option<TePoint>)
    ensures
        match r {
            Some(s) => te_add_spec(q1@, q2@) == Some(s@),
            None => te_add_spec(q1@, q2@) is None,
        },
{
    proof {
        reveal(te_add_spec);
    }
    let a = te_coeff_a();
    let d = te_coeff_d();
    let one = Scalar::from_u64(1);
    let x1x2 = fr_mul(&q1.x, &q2.x);
    let y1y2 = fr_mul(&q1.y, &q2.y);
    let x1y2 = fr_mul(&q1.x, &q2.y);
    let y1x2 = fr_mul(&q1.y, &q2.x);
    let dxy = fr_mul(&d, &fr_mul(&x1x2, &y1y2));
    let den_x = fr_add(&one, &dxy);
    let den_y = fr_sub(&one, &dxy);
    let inv_x = match fr_inv(&den_x) {
        Some(v) => v,
        None => {
            return None;
        },
    };
    let inv_y = match fr_inv(&den_y) {
        Some(v) => v,
        None => {
            return None;
        },
    };
    let x3 = fr_mul(&fr_add(&x1y2, &y1x2), &inv_x);
    let y3 = fr_mul(&fr_sub(&y1y2, &fr_mul(&a, &x1x2)), &inv_y);
    Some(TePoint { x: x3, y: y3 })
}

} // verus!
