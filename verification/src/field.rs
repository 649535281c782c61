//! The scalar field of BLS12-381 (equally, the base field of the Bandersnatch
//! curve), modelled as canonical four-limb integers below the prime modulus.
//!
//! All arithmetic contracts are exact statements of modular arithmetic; the
//! executable operations call into `ark_ff` through trusted wrappers.

use ark_ff::PrimeField;
use vstd::prelude::*;

verus! {

/// The prime order of the BLS12-381 scalar field.
pub open spec fn p() -> nat {
    52435875175126190479447740508185965837690552500527637822603658699938581184513nat
}

/// Value of a little-endian sequence of four 64-bit limbs.
pub open spec fn limbs_val(s: Seq<u64>) -> nat {
    (s[0] as nat) + (s[1] as nat) * 0x10000000000000000nat
        + (s[2] as nat) * 0x100000000000000000000000000000000nat
        + (s[3] as nat) * 0x1000000000000000000000000000000000000000000000000nat
}

/// Addition in the field.
pub open spec fn fadd(a: nat, b: nat) -> nat {
    (a + b) % p()
}

/// Subtraction in the field (for canonical operands).
pub open spec fn fsub(a: nat, b: nat) -> nat
    recommends
        b < p(),
{
    ((a + p()) - b) as nat % p()
}

/// Multiplication in the field.
pub open spec fn fmul(a: nat, b: nat) -> nat {
    (a * b) % p()
}

/// An element of the field, kept canonical: its value is below `p()`.
pub struct Scalar {
    limbs: [u64; 4],
}

impl View for Scalar {
    type V = nat;

    closed spec fn view(&self) -> nat {
        limbs_val(self.limbs@)
    }
}

impl Scalar {
    #[verifier::type_invariant]
    spec fn canonical(self) -> bool {
        limbs_val(self.limbs@) < p()
    }

    /// The field element representing a small integer.
    pub fn from_u64(x: u64) -> (r: Scalar)
        ensures
            r@ == x as nat,
    {
        let r = Scalar { limbs: [x, 0, 0, 0] };
        proof {
            assert(limbs_val(r.limbs@) == x as nat);
        }
        r
    }

    /// Builds a field element from little-endian limbs; rejects values that
    /// are not below the modulus.
    pub fn from_limbs(limbs: [u64; 4]) -> (r: Option<Scalar>)
        ensures
            match r {
                Some(s) => s@ == limbs_val(limbs@) && limbs_val(limbs@) < p(),
                None => limbs_val(limbs@) >= p(),
            },
    {
        let l0: u64 = 0xffffffff00000001;
        let l1: u64 = 0x53bda402fffe5bfe;
        let l2: u64 = 0x3339d80809a1d805;
        let l3: u64 = 0x73eda753299d7d48;
        let below: bool = if limbs[3] != l3 {
            limbs[3] < l3
        } else if limbs[2] != l2 {
            limbs[2] < l2
        } else if limbs[1] != l1 {
            limbs[1] < l1
        } else {
            limbs[0] < l0
        };
        proof {
            assert(limbs_val(seq![l0, l1, l2, l3]) == p());
        }
        if below {
            Some(Scalar { limbs })
        } else {
            None
        }
    }

    /// The limbs of the canonical representation, little-endian.
    pub fn to_limbs(&self) -> (r: [u64; 4])
        ensures
            limbs_val(r@) == self@,
    {
        self.limbs
    }

    /// Whether the element is zero.
    pub fn is_zero(&self) -> (r: bool)
        ensures
            r == (self@ == 0),
    {
        proof {
            use_type_invariant(self);
        }
        let r = self.limbs[0] == 0 && self.limbs[1] == 0 && self.limbs[2] == 0 && self.limbs[3]
            == 0;
        r
    }

    /// An identical copy.
    pub fn copy(&self) -> (r: Scalar)
        ensures
            r@ == self@,
    {
        proof {
            use_type_invariant(self);
        }
        Scalar { limbs: self.limbs }
    }
}

/// Whether two field elements are equal.
pub fn scalar_eq(a: &Scalar, b: &Scalar) -> (r: bool)
    ensures
        r == (a@ == b@),
{
    proof {
        use_type_invariant(a);
        use_type_invariant(b);
        lemma_fsub_zero_iff_eq(a@, b@);
    }
    let d = fr_sub(a, b);
    d.is_zero()
}

proof fn lemma_fsub_zero_iff_eq(a: nat, b: nat)
    requires
        a < p(),
        b < p(),
    ensures
        (fsub(a, b) == 0) <==> (a == b),
{
    let x = ((a + p()) - b) as int;
    if a == b {
        vstd::arithmetic::div_mod::lemma_mod_self_0(p() as int);
    } else if a > b {
        vstd::arithmetic::div_mod::lemma_mod_sub_multiples_vanish(x, p() as int);
        vstd::arithmetic::div_mod::lemma_small_mod((a - b) as nat, p());
    } else {
        vstd::arithmetic::div_mod::lemma_small_mod(((a + p()) - b) as nat, p());
    }
}

/// The first `n` values of a sequence.
pub open spec fn first_n(s: Seq<nat>, n: nat) -> Seq<nat> {
    Seq::new(n, |i: int| s[i])
}

/// The `n` little-endian bytes of a value.
pub open spec fn le_bytes(v: nat, n: nat) -> Seq<u8> {
    Seq::new(n, |i: int| (((v as int) / vstd::arithmetic::power::pow(256, i as nat)) % 256) as u8)
}

/// `b` raised to the power `e` in the field.
pub open spec fn pow_mod(b: nat, e: nat) -> nat {
    (vstd::arithmetic::power::pow(b as int, e) % (p() as int)) as nat
}

/// The values of a sequence of field elements.
pub open spec fn scalars_view(s: Seq<Scalar>) -> Seq<nat> {
    s.map_values(|x: Scalar| x@)
}

/// The field inner product of two sequences of equal length.
pub open spec fn wsum(vals: Seq<nat>, ws: Seq<nat>) -> nat
    recommends
        vals.len() == ws.len(),
    decreases vals.len(),
{
    if vals.len() == 0 {
        0
    } else {
        fadd(wsum(vals.drop_last(), ws.drop_last()), fmul(vals.last(), ws.last()))
    }
}

proof fn lemma_wsum_push(a: Seq<nat>, b: Seq<nat>, x: nat, y: nat)
    ensures
        wsum(a.push(x), b.push(y)) == fadd(wsum(a, b), fmul(x, y)),
{
    assert(a.push(x).drop_last() =~= a);
    assert(b.push(y).drop_last() =~= b);
}

proof fn lemma_view_take_push(s: Seq<Scalar>, i: int)
    requires
        0 <= i < s.len(),
    ensures
        scalars_view(s.take(i + 1)) == scalars_view(s.take(i)).push(s[i]@),
{
    assert(scalars_view(s.take(i + 1)) =~= scalars_view(s.take(i)).push(s[i]@));
}

/// Raises a field element to a 64-bit power by binary exponentiation.
pub fn fr_pow(base: &Scalar, e: u64) -> (r: Scalar)
    ensures
        r@ == pow_mod(base@, e as nat),
{
    let mut result = Scalar::from_u64(1);
    let mut cur = base.copy();
    let mut rem: u64 = e;
    proof {
        use_type_invariant(base);
        vstd::arithmetic::power::lemma_pow0(base@ as int);
        vstd::arithmetic::power::lemma_pow1(base@ as int);
        assert(pow_mod(base@, e as nat) < p());
        vstd::arithmetic::div_mod::lemma_small_mod(pow_mod(base@, e as nat), p());
        assert(fmul(1nat, pow_mod(base@, e as nat)) == pow_mod(base@, e as nat));
    }
    while rem > 0
        invariant
            fmul(result@, pow_mod(cur@, rem as nat)) == pow_mod(base@, e as nat),
        decreases rem,
    {
        proof {
            use_type_invariant(&result);
            use_type_invariant(&cur);
        }
        if rem % 2 == 1 {
            let next = fr_mul(&result, &cur);
            proof {
                lemma_step_mul(result@, cur@, rem as nat);
            }
            result = next;
            rem = rem - 1;
        }
        if rem > 0 {
            proof {
                use_type_invariant(&result);
                use_type_invariant(&cur);
                lemma_step_square(result@, cur@, rem as nat);
            }
            cur = fr_mul(&cur, &cur);
            rem = rem / 2;
        }
    }
    proof {
        use_type_invariant(&result);
        vstd::arithmetic::power::lemma_pow0(cur@ as int);
        vstd::arithmetic::div_mod::lemma_small_mod(result@, p());
        vstd::arithmetic::div_mod::lemma_small_mod(1, p());
        assert(pow_mod(cur@, 0nat) == 1);
        assert(fmul(result@, 1nat) == result@);
    }
    result
}

proof fn lemma_step_mul(res: nat, cur: nat, rem: nat)
    requires
        rem > 0,
    ensures
        fmul(fmul(res, cur), pow_mod(cur, (rem - 1) as nat)) == fmul(res, pow_mod(cur, rem)),
{
    let pi = p() as int;
    let c = cur as int;
    let r = res as int;
    let pw = vstd::arithmetic::power::pow(c, (rem - 1) as nat);
    vstd::arithmetic::power::lemma_pow1(c);
    vstd::arithmetic::power::lemma_pow_adds(c, 1, (rem - 1) as nat);
    assert(vstd::arithmetic::power::pow(c, rem) == c * pw);
    vstd::arithmetic::div_mod::lemma_mul_mod_noop_general(r * c, pw, pi);
    vstd::arithmetic::div_mod::lemma_mul_mod_noop_general(r, vstd::arithmetic::power::pow(c, rem), pi);
    assert((r * c) * pw == r * (c * pw)) by {
        vstd::arithmetic::mul::lemma_mul_is_associative(r, c, pw);
    }
}

proof fn lemma_step_square(res: nat, cur: nat, rem: nat)
    requires
        rem > 0,
        rem % 2 == 0,
    ensures
        fmul(res, pow_mod(fmul(cur, cur), (rem / 2) as nat)) == fmul(res, pow_mod(cur, rem)),
{
    let pi = p() as int;
    let c = cur as int;
    let r = res as int;
    let h = (rem / 2) as nat;
    vstd::arithmetic::power::lemma_pow1(c);
    vstd::arithmetic::power::lemma_pow_adds(c, 1, 1);
    assert(vstd::arithmetic::power::pow(c, 2) == c * c);
    vstd::arithmetic::power::lemma_pow_multiplies(c, 2, h);
    assert(vstd::arithmetic::power::pow(c * c, h) == vstd::arithmetic::power::pow(c, rem));
    vstd::arithmetic::power::lemma_pow_mod_noop(c * c, h, pi);
    let pw = vstd::arithmetic::power::pow(c, rem);
    vstd::arithmetic::div_mod::lemma_mul_mod_noop_general(r, pw, pi);
    vstd::arithmetic::div_mod::lemma_mul_mod_noop_general(r, vstd::arithmetic::power::pow(
        ((c * c) % pi),
        h,
    ), pi);
}

/// The inner product of two equally long vectors of field elements.
pub fn weighted_sum(vals: &Vec<Scalar>, ws: &Vec<Scalar>) -> (r: Scalar)
    requires
        vals@.len() == ws@.len(),
    ensures
        r@ == wsum(scalars_view(vals@), scalars_view(ws@)),
{
    let mut acc = Scalar::from_u64(0);
    let mut i: usize = 0;
    proof {
        assert(scalars_view(vals@.take(0)) =~= scalars_view(vals@).take(0));
        assert(wsum(scalars_view(vals@.take(0)), scalars_view(ws@.take(0))) == 0);
    }
    while i < vals.len()
        invariant
            vals@.len() == ws@.len(),
            0 <= i <= vals@.len(),
            acc@ == wsum(scalars_view(vals@.take(i as int)), scalars_view(ws@.take(i as int))),
        decreases vals@.len() - i,
    {
        let term = fr_mul(&vals[i], &ws[i]);
        acc = fr_add(&acc, &term);
        proof {
            lemma_view_take_push(vals@, i as int);
            lemma_view_take_push(ws@, i as int);
            lemma_wsum_push(
                scalars_view(vals@.take(i as int)),
                scalars_view(ws@.take(i as int)),
                vals@[i as int]@,
                ws@[i as int]@,
            );
        }
        i = i + 1;
    }
    proof {
        assert(vals@.take(vals@.len() as int) =~= vals@);
        assert(ws@.take(ws@.len() as int) =~= ws@);
    }
    acc
}

/// Each value multiplied by a common factor in the field.
pub open spec fn scaled(s: Seq<nat>, m: nat) -> Seq<nat> {
    s.map_values(|x: nat| fmul(x, m))
}

/// Copies a vector of field elements.
pub fn copy_scalars(src: &Vec<Scalar>) -> (r: Vec<Scalar>)
    ensures
        scalars_view(r@) == scalars_view(src@),
        r@.len() == src@.len(),
{
    let mut r: Vec<Scalar> = Vec::new();
    let mut i: usize = 0;
    while i < src.len()
        invariant
            0 <= i <= src@.len(),
            r@.len() == i,
            forall|j: int| 0 <= j < i ==> (#[trigger] r@[j])@ == src@[j]@,
        decreases src@.len() - i,
    {
        r.push(src[i].copy());
        i = i + 1;
    }
    proof {
        assert(scalars_view(r@) =~= scalars_view(src@));
    }
    r
}

/// Appends copies of the source elements.
pub fn extend_scalars(dst: &mut Vec<Scalar>, src: &Vec<Scalar>)
    ensures
        scalars_view(final(dst)@) == scalars_view(old(dst)@) + scalars_view(src@),
        final(dst)@.len() == old(dst)@.len() + src@.len(),
{
    let mut i: usize = 0;
    while i < src.len()
        invariant
            0 <= i <= src@.len(),
            dst@.len() == old(dst)@.len() + i,
            forall|j: int| 0 <= j < old(dst)@.len() ==> (#[trigger] dst@[j])@ == old(dst)@[j]@,
            forall|j: int|
                old(dst)@.len() <= j < old(dst)@.len() + i ==> (#[trigger] dst@[j])@ == src@[j
                    - old(dst)@.len()]@,
        decreases src@.len() - i,
    {
        dst.push(src[i].copy());
        i = i + 1;
    }
    proof {
        assert(scalars_view(dst@) =~= scalars_view(old(dst)@) + scalars_view(src@));
    }
}

/// Mapping values commutes with a push.
pub proof fn lemma_view_push(s: Seq<Scalar>, v: Scalar)
    ensures
        scalars_view(s.push(v)) == scalars_view(s).push(v@),
{
    assert(scalars_view(s.push(v)) =~= scalars_view(s).push(v@));
}

/// Pushing equals appending a singleton.
pub proof fn lemma_push_concat(s: Seq<nat>, x: nat)
    ensures
        s.push(x) == s + seq![x],
{
    assert(s.push(x) =~= s + seq![x]);
}

/// Mapping values commutes with a pointwise update.
pub proof fn lemma_view_update(s: Seq<Scalar>, i: int, v: Scalar)
    requires
        0 <= i < s.len(),
    ensures
        scalars_view(s.update(i, v)) == scalars_view(s).update(i, v@),
{
    assert(scalars_view(s.update(i, v)) =~= scalars_view(s).update(i, v@));
}

/// Appends each source element multiplied by `m`.
pub fn extend_scaled(dst: &mut Vec<Scalar>, src: &Vec<Scalar>, m: &Scalar)
    ensures
        scalars_view(final(dst)@) == scalars_view(old(dst)@) + scaled(scalars_view(src@), m@),
        final(dst)@.len() == old(dst)@.len() + src@.len(),
{
    let mut i: usize = 0;
    while i < src.len()
        invariant
            0 <= i <= src@.len(),
            dst@.len() == old(dst)@.len() + i,
            forall|j: int| 0 <= j < old(dst)@.len() ==> (#[trigger] dst@[j])@ == old(dst)@[j]@,
            forall|j: int|
                old(dst)@.len() <= j < old(dst)@.len() + i ==> (#[trigger] dst@[j])@ == fmul(
                    src@[j - old(dst)@.len()]@,
                    m@,
                ),
        decreases src@.len() - i,
    {
        dst.push(fr_mul(&src[i], m));
        i = i + 1;
    }
    proof {
        assert(scalars_view(dst@) =~= scalars_view(old(dst)@) + scaled(scalars_view(src@), m@));
    }
}

/// Field addition. Relies on `ark_ff`'s `Add` for `Fr`, which adds residues
/// modulo the field order.
#[verifier::external_body]
pub(crate) fn fr_add(a: &Scalar, b: &Scalar) -> (r: Scalar)
    ensures
        r@ == fadd(a@, b@),
{
    let x = ark_bls12_381::Fr::from_bigint(ark_ff::BigInt(a.limbs)).unwrap();
    let y = ark_bls12_381::Fr::from_bigint(ark_ff::BigInt(b.limbs)).unwrap();
    Scalar { limbs: (x + y).into_bigint().0 }
}

/// Field subtraction. Relies on `ark_ff`'s `Sub` for `Fr`.
#[verifier::external_body]
pub(crate) fn fr_sub(a: &Scalar, b: &Scalar) -> (r: Scalar)
    ensures
        r@ == fsub(a@, b@),
{
    let x = ark_bls12_381::Fr::from_bigint(ark_ff::BigInt(a.limbs)).unwrap();
    let y = ark_bls12_381::Fr::from_bigint(ark_ff::BigInt(b.limbs)).unwrap();
    Scalar { limbs: (x - y).into_bigint().0 }
}

/// Field multiplication. Relies on `ark_ff`'s `Mul` for `Fr`, which multiplies
/// residues modulo the field order.
#[verifier::external_body]
pub(crate) fn fr_mul(a: &Scalar, b: &Scalar) -> (r: Scalar)
    ensures
        r@ == fmul(a@, b@),
{
    let x = ark_bls12_381::Fr::from_bigint(ark_ff::BigInt(a.limbs)).unwrap();
    let y = ark_bls12_381::Fr::from_bigint(ark_ff::BigInt(b.limbs)).unwrap();
    Scalar { limbs: (x * y).into_bigint().0 }
}

/// The multiplicative inverse in the field (an arbitrary value on zero).
pub open spec fn finv(a: nat) -> nat {
    choose|x: nat| x < p() && fmul(x, a) == 1
}

/// Field inversion. Relies on `ark_ff::Field::inverse`: `None` exactly on
/// zero, and otherwise the multiplicative inverse, which is unique modulo
/// the prime order.
#[verifier::external_body]
pub(crate) fn fr_inv(a: &Scalar) -> (r: Option<Scalar>)
    ensures
        match r {
            Some(x) => a@ != 0 && fmul(x@, a@) == 1 && x@ == finv(a@),
            None => a@ == 0,
        },
{
    let x = ark_bls12_381::Fr::from_bigint(ark_ff::BigInt(a.limbs)).unwrap();
    ark_ff::Field::inverse(&x).map(
        |y| Scalar { limbs: y.into_bigint().0 },
    )
}

} // verus!
