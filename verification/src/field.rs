//! Mathematical model of the scalar field of BLS12-381.
//!
//! Scalars, and discrete logarithms of group elements with respect to the
//! standard generators, are modelled as integers modulo the prime group
//! order `fq()`. All protocol contracts are stated over the operations of
//! this module.

use vstd::prelude::*;
use vstd::arithmetic::div_mod::lemma_add_mod_noop_right;
use vstd::arithmetic::div_mod::lemma_sub_mod_noop;
use vstd::arithmetic::div_mod::lemma_sub_mod_noop_right;
use vstd::arithmetic::div_mod::lemma_mul_mod_noop_general;
use vstd::arithmetic::div_mod::lemma_mod_twice;
use vstd::arithmetic::div_mod::lemma_mod_bound;
use vstd::arithmetic::div_mod::lemma_mod_multiples_vanish;
use vstd::arithmetic::div_mod::lemma_mod_equivalence;

verus! {

/// The order of the BLS12-381 scalar field and of the three pairing groups:
/// a 255-bit prime.
pub open spec fn fq() -> int {
    0x73eda753299d7d483339d80809a1d80553bda402fffe5bfeffffffff00000001int
}

/// Addition in the scalar field.
pub open spec fn fadd(a: int, b: int) -> int {
    (a + b) % fq()
}

/// Subtraction in the scalar field.
pub open spec fn fsub(a: int, b: int) -> int {
    (a - b) % fq()
}

/// Multiplication in the scalar field.
pub open spec fn fmul(a: int, b: int) -> int {
    (a * b) % fq()
}

/// Negation in the scalar field.
pub open spec fn fneg(a: int) -> int {
    (-a) % fq()
}

/// A value is invertible when some field element multiplies with it to one.
/// Since `fq()` is prime this holds exactly of the values that are nonzero
/// modulo `fq()`, but the proofs below only ever use the witness itself.
pub open spec fn invertible(a: int) -> bool {
    exists|b: int| fmul(a, b) == 1
}

/// The multiplicative inverse: the unique reduced field element whose
/// product with `a` is one. Meaningful only when `invertible(a)` holds.
pub open spec fn finv(a: int) -> int {
    choose|b: int| 0 <= b < fq() && fmul(a, b) == 1
}

/// A reduced value is its own remainder.
pub proof fn lemma_mod_small(x: int)
    requires
        0 <= x < fq(),
    ensures
        x % fq() == x,
{
    vstd::arithmetic::div_mod::lemma_small_mod(x as nat, fq() as nat);
}

/// Every field operation returns a reduced value.
pub proof fn lemma_field_bounds(a: int, b: int)
    ensures
        0 <= fadd(a, b) < fq(),
        0 <= fsub(a, b) < fq(),
        0 <= fmul(a, b) < fq(),
        0 <= fneg(a) < fq(),
{
    lemma_mod_bound(a + b, fq());
    lemma_mod_bound(a - b, fq());
    lemma_mod_bound(a * b, fq());
    lemma_mod_bound(-a, fq());
}

/// Reducing either argument of an addition first changes nothing.
pub proof fn lemma_fadd_flat(x: int, y: int)
    ensures
        fadd(x % fq(), y) == fadd(x, y),
        fadd(x, y % fq()) == fadd(x, y),
{
    lemma_add_mod_noop_right(y, x, fq());
    lemma_add_mod_noop_right(x, y, fq());
}

/// Reducing either argument of a subtraction first changes nothing.
pub proof fn lemma_fsub_flat(x: int, y: int)
    ensures
        fsub(x % fq(), y) == fsub(x, y),
        fsub(x, y % fq()) == fsub(x, y),
{
    lemma_sub_mod_noop_right(x, y, fq());
    lemma_mod_twice(x, fq());
    lemma_sub_mod_noop(x % fq(), y, fq());
    lemma_sub_mod_noop(x, y, fq());
}

/// Reducing either or both arguments of a multiplication first changes
/// nothing.
pub proof fn lemma_fmul_flat(x: int, y: int)
    ensures
        fmul(x % fq(), y) == fmul(x, y),
        fmul(x, y % fq()) == fmul(x, y),
        fmul(x % fq(), y % fq()) == fmul(x, y),
{
    lemma_mul_mod_noop_general(x, y, fq());
}

/// Reducing both arguments of an addition first changes nothing.
pub proof fn lemma_fadd_both(x: int, y: int)
    ensures
        fadd(x % fq(), y % fq()) == fadd(x, y),
{
    lemma_fadd_flat(x, y % fq());
    lemma_fadd_flat(x, y);
}

/// Reducing both arguments of a subtraction first changes nothing.
pub proof fn lemma_fsub_both(x: int, y: int)
    ensures
        fsub(x % fq(), y % fq()) == fsub(x, y),
{
    lemma_fsub_flat(x, y % fq());
    lemma_fsub_flat(x, y);
}

/// Negation agrees with subtracting from zero, on reduced input too.
pub proof fn lemma_fneg_flat(x: int)
    ensures
        fneg(x % fq()) == fneg(x),
        fneg(x) == fsub(0, x),
{
    lemma_sub_mod_noop_right(0, x, fq());
}

/// Adding a multiple of the modulus does not change a remainder.
pub proof fn lemma_multiple_vanish(x: int, k: int)
    ensures
        (x + k * fq()) % fq() == x % fq(),
{
    lemma_mod_multiples_vanish(k, x, fq());
    assert(fq() * k == k * fq()) by (nonlinear_arith);
}

/// Shifting by an invertible amount changes every remainder: the shifted
/// and the unshifted value cannot be congruent, or the shift would be
/// congruent to zero and could not multiply to one.
pub proof fn lemma_shift_changes(x: int, delta: int)
    requires
        invertible(delta),
    ensures
        (x + delta) % fq() != x % fq(),
{
    if (x + delta) % fq() == x % fq() {
        lemma_mod_equivalence(x + delta, x, fq());
        assert(delta % fq() == 0);
        let di = choose|b: int| fmul(delta, b) == 1;
        lemma_fmul_flat(delta, di);
        assert(fmul(delta % fq(), di) == fmul(delta, di));
        assert(fmul(0, di) == 0);
        assert(false);
    }
}

/// A product of invertible values is invertible.
pub proof fn lemma_invertible_mul(a: int, b: int)
    requires
        invertible(a),
        invertible(b),
    ensures
        invertible(a * b),
{
    let ai = choose|v: int| fmul(a, v) == 1;
    let bi = choose|v: int| fmul(b, v) == 1;
    assert((a * b) * (ai * bi) == (a * ai) * (b * bi)) by (nonlinear_arith);
    lemma_fmul_flat(a * ai, b * bi);
    assert(fmul((a * ai) % fq(), (b * bi) % fq()) == fmul(a * ai, b * bi));
    assert(fmul(1, 1) == 1int % fq());
    assert(fmul(a * b, ai * bi) == 1);
}

/// An invertible reduced value stays invertible unreduced, and the other
/// way round.
pub proof fn lemma_invertible_flat(a: int)
    ensures
        invertible(a % fq()) == invertible(a),
{
    if invertible(a % fq()) {
        let v = choose|v: int| #[trigger] fmul(a % fq(), v) == 1;
        lemma_fmul_flat(a, v);
        assert(fmul(a, v) == 1);
    }
    if invertible(a) {
        let v = choose|v: int| fmul(a, v) == 1;
        lemma_fmul_flat(a, v);
        assert(fmul(a % fq(), v) == 1);
    }
}

/// Two integers whose product with the same invertible value is congruent
/// are themselves congruent: the inverse witness cancels the factor.
pub proof fn lemma_cancel(y: int, yi: int, x1: int, x2: int)
    requires
        fmul(y, yi) == 1,
        fmul(y, x1) == fmul(y, x2),
    ensures
        x1 % fq() == x2 % fq(),
{
    lemma_fmul_flat(y * x1, yi);
    lemma_fmul_flat(y * x2, yi);
    assert(fmul(y * x1, yi) == fmul(y * x2, yi));
    assert((y * x1) * yi == (y * yi) * x1 && (y * x2) * yi == (y * yi) * x2)
        by (nonlinear_arith);
    lemma_fmul_flat(y * yi, x1);
    lemma_fmul_flat(y * yi, x2);
    assert(fmul(fmul(y, yi), x1) == fmul(fmul(y, yi), x2));
    assert(fmul(1, x1) == x1 % fq());
    assert(fmul(1, x2) == x2 % fq());
}

/// The in-range inverse of an invertible value is unique, and `finv`
/// returns it.
pub proof fn lemma_finv_unique(a: int, b: int)
    requires
        0 <= b < fq(),
        fmul(a, b) == 1,
    ensures
        invertible(a),
        finv(a) == b,
{
    assert(invertible(a));
    let f = choose|v: int| 0 <= v < fq() && fmul(a, v) == 1;
    assert(0 <= f < fq() && fmul(a, f) == 1);
    assert(fmul(a, b) == fmul(a, f));
    assert(fmul(b, a) == fmul(a, b) && fmul(b, f) == fmul(f, b)) by {
        assert(b * a == a * b && b * f == f * b) by (nonlinear_arith);
    }
    assert(fmul(a, f) == 1);
    assert(fmul(a * b, f) == fmul(a * f, b)) by {
        lemma_fmul_flat(a * b, f);
        lemma_fmul_flat(a * f, b);
        assert((a * b) * f == (a * f) * b) by (nonlinear_arith);
    }
    lemma_fmul_flat(f, a * b);
    lemma_fmul_flat(b, a * f);
    assert(f * (a * b) == (a * b) * f && b * (a * f) == (a * f) * b)
        by (nonlinear_arith);
    assert(fmul(f, fmul(a, b)) == fmul(b, fmul(a, f)));
    assert(fmul(f, 1) == f % fq());
    assert(fmul(b, 1) == b % fq());
    lemma_mod_small(f);
    lemma_mod_small(b);
}

/// An invertible value and its `finv` multiply to one.
pub proof fn lemma_finv_works(a: int)
    requires
        invertible(a),
    ensures
        0 <= finv(a) < fq(),
        fmul(a, finv(a)) == 1,
{
    let b = choose|b: int| fmul(a, b) == 1;
    lemma_mod_bound(b, fq());
    lemma_fmul_flat(a, b);
    lemma_finv_unique(a, b % fq());
}

/// Multiplying a reduced value by an inverse pair in turn gives it back.
pub proof fn lemma_inverse_cancel(b: int, t: int, i: int)
    requires
        0 <= b < fq(),
        fmul(t, i) == 1,
    ensures
        fmul(fmul(b, i), t) == b,
{
    lemma_fmul_flat(b * i, t);
    assert((b * i) * t == (t * i) * b) by (nonlinear_arith);
    lemma_fmul_flat(t * i, b);
    assert(fmul(fmul(t, i), b) == fmul(1, b));
    lemma_mod_small(b);
}

} // verus!
