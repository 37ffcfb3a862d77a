//! The algebraic guarantees of the protocol, stated and proved over the
//! models of `crate::types`.

use vstd::prelude::*;
use vstd::arithmetic::div_mod::lemma_mod_equivalence;
use vstd::arithmetic::div_mod::lemma_fundamental_div_mod;
use crate::field::fq;
use crate::field::fadd;
use crate::field::fsub;
use crate::field::fmul;
use crate::field::finv;
use crate::field::invertible;
use crate::field::lemma_fadd_flat;
use crate::field::lemma_fadd_both;
use crate::field::lemma_fsub_both;
use crate::field::lemma_fmul_flat;
use crate::field::lemma_fneg_flat;
use crate::field::lemma_multiple_vanish;
use crate::field::lemma_finv_works;
use crate::field::lemma_cancel;
use crate::field::lemma_shift_changes;
use crate::field::lemma_invertible_mul;
use crate::field::lemma_invertible_flat;
use crate::types::ProofModel;
use crate::types::GeneratorsModel;
use crate::types::SignatureModel;
use crate::types::RandomnessModel;
use crate::issuer::spec_b;
use crate::issuer::spec_check;
use crate::prover::spec_prove;
use crate::randomizer::spec_prove_rescaled;
use crate::verification::spec_c1_check;
use crate::verification::spec_c2_check;
use crate::verification::spec_verify;

verus! {

/// Whatever `sign` returns passes the signature check: a point `a` with
/// `a·(e + x) = b` satisfies `pairing(b, p2) == pairing(a, w + e·p2)` for
/// the public key `w = x·p2`.
pub proof fn lemma_signing_is_accepted(
    g: GeneratorsModel,
    x: int,
    sig: SignatureModel,
    m1: int,
    m2: int,
)
    requires
        fmul(sig.a, fadd(sig.e, x)) == spec_b(g, sig.s, m1, m2),
    ensures
        spec_check(g, fmul(g.p2, x), sig, m1, m2),
{
    let q = fq();
    let b = spec_b(g, sig.s, m1, m2);
    lemma_fmul_flat(sig.a, sig.e + x);
    assert(b == (sig.a * (sig.e + x)) % q);
    lemma_fmul_flat(sig.a * (sig.e + x), g.p2);
    assert(fmul(b, g.p2) == (sig.a * (sig.e + x) * g.p2) % q);
    lemma_fadd_both(g.p2 * x, g.p2 * sig.e);
    lemma_fmul_flat(sig.a, g.p2 * x + g.p2 * sig.e);
    assert(fmul(sig.a, fadd(fmul(g.p2, x), fmul(g.p2, sig.e))) == (sig.a * (g.p2 * x + g.p2
        * sig.e)) % q);
    assert(sig.a * (sig.e + x) * g.p2 == sig.a * (g.p2 * x + g.p2 * sig.e)) by (nonlinear_arith);
}

/// The first recomputed commitment of an honestly built proof equals its
/// `c1`, whatever the signature and scalars: the challenge terms cancel.
proof fn lemma_c1_reconstructed(
    g: GeneratorsModel,
    sig: SignatureModel,
    m1: int,
    m2: int,
    rnd: RandomnessModel,
)
    ensures
        ({
            let pm = spec_prove(g, sig, m1, m2, rnd);
            spec_c1_check(g, pm) == pm.c1
        }),
{
    let q = fq();
    let pm = spec_prove(g, sig, m1, m2, rnd);
    let b = spec_b(g, sig.s, m1, m2);
    let ap = pm.a_prime;
    let e = sig.e;
    let r1 = rnd.r1;
    let r2 = rnd.r2;
    let c = rnd.c;
    let et = rnd.e_t;
    let r2t = rnd.r2_t;
    let h0 = g.h0;
    lemma_fmul_flat(ap, -e);
    lemma_fadd_both(ap * -e, b * r1);
    assert(pm.a_bar == (ap * -e + b * r1) % q);
    lemma_fadd_both(b * r1, h0 * r2);
    assert(pm.d == (b * r1 + h0 * r2) % q);
    lemma_fadd_flat(et, c * e);
    assert(pm.e_hat == (et + c * e) % q);
    lemma_fadd_flat(r2t, c * r2);
    assert(pm.r2_hat == (r2t + c * r2) % q);
    lemma_fsub_both(ap * -e + b * r1, b * r1 + h0 * r2);
    assert(fsub(pm.a_bar, pm.d) == (ap * -e - h0 * r2) % q);
    lemma_fmul_flat(ap * -e - h0 * r2, c);
    assert(fmul(fsub(pm.a_bar, pm.d), c) == ((ap * -e - h0 * r2) * c) % q);
    lemma_fmul_flat(ap, et + c * e);
    assert(fmul(ap, pm.e_hat) == (ap * (et + c * e)) % q);
    lemma_fmul_flat(h0, r2t + c * r2);
    assert(fmul(h0, pm.r2_hat) == (h0 * (r2t + c * r2)) % q);
    lemma_fadd_both((ap * -e - h0 * r2) * c, ap * (et + c * e));
    lemma_fadd_both((ap * -e - h0 * r2) * c + ap * (et + c * e), h0 * (r2t + c * r2));
    assert(spec_c1_check(g, pm) == ((ap * -e - h0 * r2) * c + ap * (et + c * e) + h0 * (r2t + c
        * r2)) % q);
    lemma_fadd_both(ap * et, h0 * r2t);
    assert(pm.c1 == (ap * et + h0 * r2t) % q);
    assert((ap * -e - h0 * r2) * c + ap * (et + c * e) + h0 * (r2t + c * r2) == ap * et + h0 * r2t)
        by (nonlinear_arith);
}

/// The ring identity behind the second commitment: subtracting the
/// multiple of `q` that `r1·r3 = 1 + q·k` contributes, the recomputed
/// polynomial equals the committed one.
proof fn nl_c2_identity(
    p1: int,
    h0: int,
    h1: int,
    h2: int,
    s: int,
    m1: int,
    m2: int,
    r1: int,
    r2: int,
    r3: int,
    c: int,
    st: int,
    r3t: int,
    m2t: int,
    k: int,
    q: int,
    bp: int,
    dp: int,
    lp: int,
    rp: int,
)
    requires
        r1 * r3 == q * k + 1,
        bp == p1 + h0 * s + h1 * m1 + h2 * m2,
        dp == bp * r1 + h0 * r2,
        lp == (p1 + h1 * m1) * c + dp * -(r3t + c * r3) + h0 * (st + c * (s + r2 * r3)) + h2 * (m2t
            + c * m2),
        rp == dp * -r3t + h0 * st + h2 * m2t,
    ensures
        lp == rp + (-(c * bp * k)) * q,
{
    assert(dp * r3 == bp * (r1 * r3) + h0 * (r2 * r3)) by (nonlinear_arith)
        requires
            dp == bp * r1 + h0 * r2,
    ;
    assert(bp * (r1 * r3) == (bp * k) * q + bp) by (nonlinear_arith)
        requires
            r1 * r3 == q * k + 1,
    ;
    assert(dp * r3 == bp + h0 * (r2 * r3) + (bp * k) * q);
    assert(dp * -(r3t + c * r3) == dp * -r3t - c * (dp * r3)) by (nonlinear_arith);
    assert(h0 * (st + c * (s + r2 * r3)) == h0 * st + c * (h0 * s) + c * (h0 * (r2 * r3)))
        by (nonlinear_arith);
    assert(h2 * (m2t + c * m2) == h2 * m2t + c * (h2 * m2)) by (nonlinear_arith);
    assert((p1 + h1 * m1) * c == c * p1 + c * (h1 * m1)) by (nonlinear_arith);
    let inner = bp + h0 * (r2 * r3) + (bp * k) * q;
    assert(c * (dp * r3) == c * inner);
    assert(c * inner == c * bp + c * (h0 * (r2 * r3)) + c * ((bp * k) * q)) by (nonlinear_arith)
        requires
            inner == bp + h0 * (r2 * r3) + (bp * k) * q,
    ;
    assert(c * bp == c * p1 + c * (h0 * s) + c * (h1 * m1) + c * (h2 * m2)) by (nonlinear_arith)
        requires
            bp == p1 + h0 * s + h1 * m1 + h2 * m2,
    ;
    assert(c * ((bp * k) * q) == (c * bp * k) * q) by (nonlinear_arith);
    assert((-(c * bp * k)) * q == -((c * bp * k) * q)) by (nonlinear_arith);
}

/// The ring identity behind the pairing check: the blinded pair differs
/// from the rescaled right-hand side by a multiple of `q` coming from the
/// signature equation.
proof fn nl_pairing_identity(
    a: int,
    r1: int,
    e: int,
    b: int,
    p2: int,
    w: int,
    k: int,
    q: int,
)
    requires
        b * p2 - a * (w + p2 * e) == q * k,
    ensures
        ((a * r1) * -e + b * r1) * p2 == (a * r1) * w + (r1 * k) * q,
{
    assert(a * (w + p2 * e) == a * w + a * (p2 * e)) by (nonlinear_arith);
    assert(b * p2 == a * w + a * (p2 * e) + q * k);
    assert(((a * r1) * -e + b * r1) * p2 == ((a * r1) * -e) * p2 + r1 * (b * p2))
        by (nonlinear_arith);
    assert(r1 * (a * w + a * (p2 * e) + q * k) == r1 * (a * w) + r1 * (a * (p2 * e)) + r1 * (q * k))
        by (nonlinear_arith);
    assert(((a * r1) * -e) * p2 == -(r1 * (a * (p2 * e)))) by (nonlinear_arith);
    assert(r1 * (a * w) == (a * r1) * w) by (nonlinear_arith);
    assert(r1 * (q * k) == (r1 * k) * q) by (nonlinear_arith);
}

/// The second recomputed commitment of an honestly built proof equals its
/// `c2`, provided the blinding scalar was invertible: the challenge terms
/// cancel against the commitment `b`, through `r1·r3 = 1`.
proof fn lemma_c2_reconstructed(
    g: GeneratorsModel,
    sig: SignatureModel,
    m1: int,
    m2: int,
    rnd: RandomnessModel,
)
    requires
        invertible(rnd.r1),
    ensures
        ({
            let pm = spec_prove(g, sig, m1, m2, rnd);
            spec_c2_check(g, m1, pm) == pm.c2
        }),
{
    let q = fq();
    lemma_finv_works(rnd.r1);
    let pm = spec_prove(g, sig, m1, m2, rnd);
    let r3 = finv(rnd.r1);
    let s = sig.s;
    let r1 = rnd.r1;
    let r2 = rnd.r2;
    let c = rnd.c;
    let st = rnd.s_t;
    let r3t = rnd.r3_t;
    let m2t = rnd.m2_t;
    let p1 = g.p1;
    let h0 = g.h0;
    let h1 = g.h1;
    let h2 = g.h2;
    let bp = p1 + h0 * s + h1 * m1 + h2 * m2;
    lemma_fadd_flat(p1, h0 * s);
    lemma_fadd_both(p1 + h0 * s, h1 * m1);
    lemma_fadd_both(p1 + h0 * s + h1 * m1, h2 * m2);
    let b = spec_b(g, s, m1, m2);
    assert(b == bp % q);
    lemma_fmul_flat(bp, r1);
    lemma_fadd_both(bp * r1, h0 * r2);
    let dp = bp * r1 + h0 * r2;
    assert(pm.d == dp % q);
    lemma_fadd_flat(s, r2 * r3);
    lemma_fmul_flat(c, s + r2 * r3);
    lemma_fadd_flat(st, c * (s + r2 * r3));
    assert(pm.s_hat == (st + c * (s + r2 * r3)) % q);
    lemma_fadd_flat(r3t, c * r3);
    assert(pm.r3_hat == (r3t + c * r3) % q);
    lemma_fadd_flat(m2t, c * m2);
    assert(pm.m2_hat == (m2t + c * m2) % q);
    lemma_fmul_flat(dp, -r3t);
    lemma_fadd_both(dp * -r3t, h0 * st);
    lemma_fadd_both(dp * -r3t + h0 * st, h2 * m2t);
    let rp = dp * -r3t + h0 * st + h2 * m2t;
    assert(pm.c2 == rp % q);
    lemma_fadd_flat(p1, h1 * m1);
    lemma_fmul_flat(p1 + h1 * m1, c);
    lemma_fneg_flat(r3t + c * r3);
    lemma_fmul_flat(dp, -(r3t + c * r3));
    lemma_fmul_flat(h0, st + c * (s + r2 * r3));
    lemma_fmul_flat(h2, m2t + c * m2);
    let lp = (p1 + h1 * m1) * c + dp * -(r3t + c * r3) + h0 * (st + c * (s + r2 * r3)) + h2 * (m2t
        + c * m2);
    lemma_fadd_both((p1 + h1 * m1) * c, dp * -(r3t + c * r3));
    lemma_fadd_both((p1 + h1 * m1) * c + dp * -(r3t + c * r3), h0 * (st + c * (s + r2 * r3)));
    lemma_fadd_both(
        (p1 + h1 * m1) * c + dp * -(r3t + c * r3) + h0 * (st + c * (s + r2 * r3)),
        h2 * (m2t + c * m2),
    );
    assert(spec_c2_check(g, m1, pm) == lp % q);
    lemma_fundamental_div_mod(r1 * r3, q);
    let k = (r1 * r3) / q;
    assert((r1 * r3) % q == 1);
    assert(r1 * r3 == q * k + 1);
    nl_c2_identity(p1, h0, h1, h2, s, m1, m2, r1, r2, r3, c, st, r3t, m2t, k, q, bp, dp, lp, rp);
    lemma_multiple_vanish(rp, -(c * bp * k));
    assert(lp % q == rp % q);
}

/// The pairing check of an honestly built proof holds whenever the
/// underlying signature satisfies the signature equation under `w`.
proof fn lemma_pairing_reconstructed(
    g: GeneratorsModel,
    w: int,
    sig: SignatureModel,
    m1: int,
    m2: int,
    rnd: RandomnessModel,
)
    requires
        spec_check(g, w, sig, m1, m2),
    ensures
        ({
            let pm = spec_prove(g, sig, m1, m2, rnd);
            fmul(pm.a_bar, g.p2) == fmul(pm.a_prime, w)
        }),
{
    let q = fq();
    let pm = spec_prove(g, sig, m1, m2, rnd);
    let a = sig.a;
    let e = sig.e;
    let r1 = rnd.r1;
    let p2 = g.p2;
    let b = spec_b(g, sig.s, m1, m2);
    lemma_fmul_flat(a * r1, -e);
    lemma_fadd_both((a * r1) * -e, b * r1);
    assert(pm.a_bar == ((a * r1) * -e + b * r1) % q);
    let abp = (a * r1) * -e + b * r1;
    lemma_fmul_flat(abp, p2);
    assert(fmul(pm.a_bar, p2) == (abp * p2) % q);
    lemma_fmul_flat(a * r1, w);
    assert(fmul(pm.a_prime, w) == ((a * r1) * w) % q);
    lemma_fadd_flat(w, p2 * e);
    lemma_fmul_flat(a, w + p2 * e);
    assert((b * p2) % q == (a * (w + p2 * e)) % q);
    lemma_mod_equivalence(b * p2, a * (w + p2 * e), q);
    lemma_fundamental_div_mod(b * p2 - a * (w + p2 * e), q);
    let k = (b * p2 - a * (w + p2 * e)) / q;
    assert(b * p2 - a * (w + p2 * e) == q * k);
    nl_pairing_identity(a, r1, e, b, p2, w, k, q);
    assert(abp * p2 == (a * r1) * w + (r1 * k) * q);
    lemma_multiple_vanish((a * r1) * w, r1 * k);
    assert((abp * p2) % q == ((a * r1) * w) % q);
}

/// The first recomputed commitment of a rescaled proof equals its `c1`:
/// the rescaling factor rides along with the challenge terms and cancels.
proof fn lemma_c1_rescaled(
    g: GeneratorsModel,
    sig: SignatureModel,
    m1: int,
    m2: int,
    rnd: RandomnessModel,
    y: int,
)
    ensures
        ({
            let pm = spec_prove_rescaled(g, sig, m1, m2, rnd, y);
            spec_c1_check(g, pm) == pm.c1
        }),
{
    let q = fq();
    let pm = spec_prove_rescaled(g, sig, m1, m2, rnd, y);
    let b = spec_b(g, sig.s, m1, m2);
    let ap = pm.a_prime;
    let e = sig.e;
    let r1 = rnd.r1;
    let r2 = rnd.r2;
    let c = rnd.c;
    let et = rnd.e_t;
    let r2t = rnd.r2_t;
    let h0 = g.h0;
    lemma_fmul_flat(ap, -e);
    lemma_fmul_flat(ap * -e, y);
    lemma_fmul_flat(b * r1, y);
    lemma_fadd_both((ap * -e) * y, (b * r1) * y);
    assert(pm.a_bar == ((ap * -e) * y + (b * r1) * y) % q);
    lemma_fadd_both((b * r1) * y, h0 * r2);
    assert(pm.d == ((b * r1) * y + h0 * r2) % q);
    lemma_fmul_flat(c * y, e);
    lemma_fadd_flat(et, (c * y) * e);
    assert(pm.e_hat == (et + (c * y) * e) % q);
    lemma_fadd_flat(r2t, c * r2);
    assert(pm.r2_hat == (r2t + c * r2) % q);
    lemma_fsub_both((ap * -e) * y + (b * r1) * y, (b * r1) * y + h0 * r2);
    assert(fsub(pm.a_bar, pm.d) == ((ap * -e) * y - h0 * r2) % q);
    lemma_fmul_flat((ap * -e) * y - h0 * r2, c);
    lemma_fmul_flat(ap, et + (c * y) * e);
    lemma_fmul_flat(h0, r2t + c * r2);
    lemma_fadd_both(((ap * -e) * y - h0 * r2) * c, ap * (et + (c * y) * e));
    lemma_fadd_both(
        ((ap * -e) * y - h0 * r2) * c + ap * (et + (c * y) * e),
        h0 * (r2t + c * r2),
    );
    assert(spec_c1_check(g, pm) == (((ap * -e) * y - h0 * r2) * c + ap * (et + (c * y) * e) + h0 * (
    r2t + c * r2)) % q);
    lemma_fadd_both(ap * et, h0 * r2t);
    assert(pm.c1 == (ap * et + h0 * r2t) % q);
    assert(((ap * -e) * y) * c + ap * ((c * y) * e) == 0) by (nonlinear_arith);
    assert(((ap * -e) * y - h0 * r2) * c == ((ap * -e) * y) * c - (h0 * r2) * c)
        by (nonlinear_arith);
    assert(ap * (et + (c * y) * e) == ap * et + ap * ((c * y) * e)) by (nonlinear_arith);
    assert(h0 * (r2t + c * r2) == h0 * r2t + (h0 * r2) * c) by (nonlinear_arith);
    assert(((ap * -e) * y - h0 * r2) * c + ap * (et + (c * y) * e) + h0 * (r2t + c * r2) == ap * et
        + h0 * r2t);
}

/// The ring identity behind the second commitment of a rescaled proof:
/// the two inverse pairs contribute one multiple of `q` together.
proof fn nl_c2_rescaled_identity(
    p1: int,
    h0: int,
    h1: int,
    h2: int,
    s: int,
    m1: int,
    m2: int,
    r1: int,
    r2: int,
    r3: int,
    c: int,
    st: int,
    r3t: int,
    m2t: int,
    y: int,
    yi: int,
    k1: int,
    k2: int,
    q: int,
    bp: int,
    dpf: int,
    lpf: int,
    rpf: int,
)
    requires
        r1 * r3 == q * k1 + 1,
        y * yi == q * k2 + 1,
        bp == p1 + h0 * s + h1 * m1 + h2 * m2,
        dpf == (bp * r1) * y + h0 * r2,
        lpf == (p1 + h1 * m1) * c + dpf * -(r3t + (c * r3) * yi) + h0 * (st + c * (s + (r2 * r3)
            * yi)) + h2 * (m2t + c * m2),
        rpf == dpf * -r3t + h0 * st + h2 * m2t,
    ensures
        lpf == rpf + (-(c * bp * (k1 + k2 + q * (k1 * k2)))) * q,
{
    let kk = k1 + k2 + q * (k1 * k2);
    assert(((bp * r1) * y) * (r3 * yi) == bp * ((r1 * r3) * (y * yi))) by (nonlinear_arith);
    assert((h0 * r2) * (r3 * yi) == h0 * ((r2 * r3) * yi)) by (nonlinear_arith);
    assert(dpf * (r3 * yi) == ((bp * r1) * y) * (r3 * yi) + (h0 * r2) * (r3 * yi))
        by (nonlinear_arith)
        requires
            dpf == (bp * r1) * y + h0 * r2,
    ;
    assert((r1 * r3) * (y * yi) == q * (k1 + k2 + q * (k1 * k2)) + 1) by (nonlinear_arith)
        requires
            r1 * r3 == q * k1 + 1,
            y * yi == q * k2 + 1,
    ;
    assert(bp * (q * kk + 1) == (bp * kk) * q + bp) by (nonlinear_arith);
    assert(bp * ((r1 * r3) * (y * yi)) == bp * (q * kk + 1));
    assert(dpf * (r3 * yi) == (bp * kk) * q + bp + h0 * ((r2 * r3) * yi));
    assert(dpf * -(r3t + (c * r3) * yi) == dpf * -r3t - c * (dpf * (r3 * yi)))
        by (nonlinear_arith);
    assert(h0 * (st + c * (s + (r2 * r3) * yi)) == h0 * st + c * (h0 * s) + c * (h0 * ((r2 * r3)
        * yi))) by (nonlinear_arith);
    assert(h2 * (m2t + c * m2) == h2 * m2t + c * (h2 * m2)) by (nonlinear_arith);
    assert((p1 + h1 * m1) * c == c * p1 + c * (h1 * m1)) by (nonlinear_arith);
    let inner = (bp * kk) * q + bp + h0 * ((r2 * r3) * yi);
    assert(c * (dpf * (r3 * yi)) == c * inner);
    assert(c * inner == c * ((bp * kk) * q) + c * bp + c * (h0 * ((r2 * r3) * yi)))
        by (nonlinear_arith)
        requires
            inner == (bp * kk) * q + bp + h0 * ((r2 * r3) * yi),
    ;
    assert(c * bp == c * p1 + c * (h0 * s) + c * (h1 * m1) + c * (h2 * m2)) by (nonlinear_arith)
        requires
            bp == p1 + h0 * s + h1 * m1 + h2 * m2,
    ;
    assert(c * ((bp * kk) * q) == (c * bp * kk) * q) by (nonlinear_arith);
    assert((-(c * bp * kk)) * q == -((c * bp * kk) * q)) by (nonlinear_arith);
}

/// The second recomputed commitment of a rescaled proof equals its `c2`,
/// provided both the blinding scalar and the rescaling scalar were
/// invertible.
proof fn lemma_c2_rescaled(
    g: GeneratorsModel,
    sig: SignatureModel,
    m1: int,
    m2: int,
    rnd: RandomnessModel,
    y: int,
)
    requires
        invertible(rnd.r1),
        invertible(y),
    ensures
        ({
            let pm = spec_prove_rescaled(g, sig, m1, m2, rnd, y);
            spec_c2_check(g, m1, pm) == pm.c2
        }),
{
    let q = fq();
    lemma_finv_works(rnd.r1);
    lemma_finv_works(y);
    let pm = spec_prove_rescaled(g, sig, m1, m2, rnd, y);
    let r3 = finv(rnd.r1);
    let yi = finv(y);
    let s = sig.s;
    let r1 = rnd.r1;
    let r2 = rnd.r2;
    let c = rnd.c;
    let st = rnd.s_t;
    let r3t = rnd.r3_t;
    let m2t = rnd.m2_t;
    let p1 = g.p1;
    let h0 = g.h0;
    let h1 = g.h1;
    let h2 = g.h2;
    let bp = p1 + h0 * s + h1 * m1 + h2 * m2;
    lemma_fadd_flat(p1, h0 * s);
    lemma_fadd_both(p1 + h0 * s, h1 * m1);
    lemma_fadd_both(p1 + h0 * s + h1 * m1, h2 * m2);
    let b = spec_b(g, s, m1, m2);
    assert(b == bp % q);
    lemma_fmul_flat(bp, r1);
    lemma_fmul_flat(bp * r1, y);
    lemma_fadd_both((bp * r1) * y, h0 * r2);
    let dpf = (bp * r1) * y + h0 * r2;
    assert(pm.d == dpf % q);
    lemma_fmul_flat(r2 * r3, yi);
    lemma_fadd_flat(s, (r2 * r3) * yi);
    lemma_fmul_flat(c, s + (r2 * r3) * yi);
    lemma_fadd_flat(st, c * (s + (r2 * r3) * yi));
    assert(pm.s_hat == (st + c * (s + (r2 * r3) * yi)) % q);
    lemma_fmul_flat(c * r3, yi);
    lemma_fadd_flat(r3t, (c * r3) * yi);
    assert(pm.r3_hat == (r3t + (c * r3) * yi) % q);
    lemma_fadd_flat(m2t, c * m2);
    assert(pm.m2_hat == (m2t + c * m2) % q);
    lemma_fmul_flat(dpf, -r3t);
    lemma_fadd_both(dpf * -r3t, h0 * st);
    lemma_fadd_both(dpf * -r3t + h0 * st, h2 * m2t);
    let rpf = dpf * -r3t + h0 * st + h2 * m2t;
    assert(pm.c2 == rpf % q);
    lemma_fadd_flat(p1, h1 * m1);
    lemma_fmul_flat(p1 + h1 * m1, c);
    lemma_fneg_flat(r3t + (c * r3) * yi);
    lemma_fmul_flat(dpf, -(r3t + (c * r3) * yi));
    lemma_fmul_flat(h0, st + c * (s + (r2 * r3) * yi));
    lemma_fmul_flat(h2, m2t + c * m2);
    let lpf = (p1 + h1 * m1) * c + dpf * -(r3t + (c * r3) * yi) + h0 * (st + c * (s + (r2 * r3)
        * yi)) + h2 * (m2t + c * m2);
    lemma_fadd_both((p1 + h1 * m1) * c, dpf * -(r3t + (c * r3) * yi));
    lemma_fadd_both((p1 + h1 * m1) * c + dpf * -(r3t + (c * r3) * yi), h0 * (st + c * (s + (r2
        * r3) * yi)));
    lemma_fadd_both(
        (p1 + h1 * m1) * c + dpf * -(r3t + (c * r3) * yi) + h0 * (st + c * (s + (r2 * r3) * yi)),
        h2 * (m2t + c * m2),
    );
    assert(spec_c2_check(g, m1, pm) == lpf % q);
    lemma_fundamental_div_mod(r1 * r3, q);
    let k1 = (r1 * r3) / q;
    assert(r1 * r3 == q * k1 + 1);
    lemma_fundamental_div_mod(y * yi, q);
    let k2 = (y * yi) / q;
    assert(y * yi == q * k2 + 1);
    nl_c2_rescaled_identity(
        p1, h0, h1, h2, s, m1, m2, r1, r2, r3, c, st, r3t, m2t, y, yi, k1, k2, q, bp, dpf, lpf, rpf,
    );
    lemma_multiple_vanish(rpf, -(c * bp * (k1 + k2 + q * (k1 * k2))));
    assert(lpf % q == rpf % q);
}

/// The pairing check of the rescaled proof against the rescaled key holds
/// exactly when the base pairing check holds against the base key: the
/// rescaling factor multiplies both sides and is invertible.
proof fn lemma_pairing_rescaled_equiv(
    g: GeneratorsModel,
    w: int,
    sig: SignatureModel,
    m1: int,
    m2: int,
    rnd: RandomnessModel,
    y: int,
)
    requires
        invertible(y),
    ensures
        ({
            let pm = spec_prove(g, sig, m1, m2, rnd);
            let pmf = spec_prove_rescaled(g, sig, m1, m2, rnd, y);
            (fmul(pmf.a_bar, g.p2) == fmul(pmf.a_prime, fmul(w, y))) == (fmul(pm.a_bar, g.p2)
                == fmul(pm.a_prime, w))
        }),
{
    let q = fq();
    lemma_finv_works(y);
    let yi = finv(y);
    let pm = spec_prove(g, sig, m1, m2, rnd);
    let pmf = spec_prove_rescaled(g, sig, m1, m2, rnd, y);
    let a = sig.a;
    let e = sig.e;
    let r1 = rnd.r1;
    let p2 = g.p2;
    let b = spec_b(g, sig.s, m1, m2);
    lemma_fmul_flat(a * r1, -e);
    lemma_fadd_both((a * r1) * -e, b * r1);
    let ab = (a * r1) * -e + b * r1;
    assert(pm.a_bar == ab % q);
    lemma_fmul_flat(ab, p2);
    assert(fmul(pm.a_bar, p2) == (ab * p2) % q);
    lemma_fmul_flat(a * r1, w);
    assert(fmul(pm.a_prime, w) == ((a * r1) * w) % q);
    lemma_fmul_flat((a * r1) * -e, y);
    lemma_fmul_flat(b * r1, y);
    lemma_fadd_both(((a * r1) * -e) * y, (b * r1) * y);
    let abf = ((a * r1) * -e) * y + (b * r1) * y;
    assert(pmf.a_bar == abf % q);
    lemma_fmul_flat(abf, p2);
    assert(fmul(pmf.a_bar, p2) == (abf * p2) % q);
    lemma_fmul_flat(a * r1, w * y);
    assert(fmul(pmf.a_prime, fmul(w, y)) == ((a * r1) * (w * y)) % q);
    assert(abf * p2 == y * (ab * p2)) by (nonlinear_arith)
        requires
            abf == ((a * r1) * -e) * y + (b * r1) * y,
            ab == (a * r1) * -e + b * r1,
    ;
    assert((a * r1) * (w * y) == y * ((a * r1) * w)) by (nonlinear_arith);
    if (ab * p2) % q == ((a * r1) * w) % q {
        lemma_fmul_flat(y, ab * p2);
        lemma_fmul_flat(y, (a * r1) * w);
        assert(fmul(y, (ab * p2) % q) == fmul(y, ((a * r1) * w) % q));
        assert((y * (ab * p2)) % q == (y * ((a * r1) * w)) % q);
        assert((abf * p2) % q == ((a * r1) * (w * y)) % q);
    }
    if (abf * p2) % q == ((a * r1) * (w * y)) % q {
        assert((y * (ab * p2)) % q == (y * ((a * r1) * w)) % q);
        lemma_cancel(y, yi, ab * p2, (a * r1) * w);
        assert((ab * p2) % q == ((a * r1) * w) % q);
    }
}

/// Key-randomization compatibility: the rescaled proof verifies under the
/// rescaled key `w·y` exactly when the base proof verifies under `w`, for
/// every invertible rescaling scalar `y`.
pub proof fn lemma_rescaled_key_verification_equivalent(
    g: GeneratorsModel,
    w: int,
    sig: SignatureModel,
    m1: int,
    m2: int,
    rnd: RandomnessModel,
    y: int,
)
    requires
        invertible(rnd.r1),
        invertible(y),
    ensures
        spec_verify(g, fmul(w, y), m1, spec_prove_rescaled(g, sig, m1, m2, rnd, y)) == spec_verify(
            g,
            w,
            m1,
            spec_prove(g, sig, m1, m2, rnd),
        ),
{
    lemma_c1_reconstructed(g, sig, m1, m2, rnd);
    lemma_c2_reconstructed(g, sig, m1, m2, rnd);
    lemma_c1_rescaled(g, sig, m1, m2, rnd, y);
    lemma_c2_rescaled(g, sig, m1, m2, rnd, y);
    lemma_pairing_rescaled_equiv(g, w, sig, m1, m2, rnd, y);
}

/// The flattened polynomial forms of the two recomputed commitments of an
/// arbitrary proof, over its fields as atoms.
proof fn lemma_checks_flat(g: GeneratorsModel, m1: int, pm: ProofModel)
    ensures
        spec_c1_check(g, pm) == ((pm.a_bar - pm.d) * pm.c + pm.a_prime * pm.e_hat + g.h0
            * pm.r2_hat) % fq(),
        spec_c2_check(g, m1, pm) == ((g.p1 + g.h1 * m1) * pm.c + pm.d * -pm.r3_hat + g.h0
            * pm.s_hat + g.h2 * pm.m2_hat) % fq(),
{
    let q = fq();
    lemma_fmul_flat(pm.a_bar - pm.d, pm.c);
    assert(fmul(fsub(pm.a_bar, pm.d), pm.c) == ((pm.a_bar - pm.d) * pm.c) % q);
    lemma_fadd_both((pm.a_bar - pm.d) * pm.c, pm.a_prime * pm.e_hat);
    lemma_fadd_both((pm.a_bar - pm.d) * pm.c + pm.a_prime * pm.e_hat, g.h0 * pm.r2_hat);
    lemma_fadd_flat(g.p1, g.h1 * m1);
    lemma_fmul_flat(g.p1 + g.h1 * m1, pm.c);
    lemma_fmul_flat(pm.d, -pm.r3_hat);
    lemma_fadd_both((g.p1 + g.h1 * m1) * pm.c, pm.d * -pm.r3_hat);
    lemma_fadd_both((g.p1 + g.h1 * m1) * pm.c + pm.d * -pm.r3_hat, g.h0 * pm.s_hat);
    lemma_fadd_both(
        (g.p1 + g.h1 * m1) * pm.c + pm.d * -pm.r3_hat + g.h0 * pm.s_hat,
        g.h2 * pm.m2_hat,
    );
}

/// Incrementing the response for the signing exponent shifts the first
/// recomputed commitment by `a_prime`.
proof fn lemma_tampered_e_hat(g: GeneratorsModel, w: int, m1: int, pm: ProofModel)
    requires
        spec_verify(g, w, m1, pm),
        invertible(pm.a_prime),
    ensures
        !spec_verify(g, w, m1, ProofModel { e_hat: fadd(pm.e_hat, 1), ..pm }),
{
    let q = fq();
    lemma_checks_flat(g, m1, pm);
    let poly1 = (pm.a_bar - pm.d) * pm.c + pm.a_prime * pm.e_hat + g.h0 * pm.r2_hat;
    let pm_e = ProofModel { e_hat: fadd(pm.e_hat, 1), ..pm };
    assert(spec_c1_check(g, pm_e) == ({
        let t = (pm.a_bar - pm.d) * pm.c + pm.a_prime * (pm.e_hat + 1) + g.h0 * pm.r2_hat;
        t % q
    })) by {
        lemma_fmul_flat(pm.a_bar - pm.d, pm.c);
        lemma_fmul_flat(pm.a_prime, pm.e_hat + 1);
        lemma_fadd_both((pm.a_bar - pm.d) * pm.c, pm.a_prime * (pm.e_hat + 1));
        lemma_fadd_both(
            (pm.a_bar - pm.d) * pm.c + pm.a_prime * (pm.e_hat + 1),
            g.h0 * pm.r2_hat,
        );
    }
    assert(pm.a_prime * (pm.e_hat + 1) == pm.a_prime * pm.e_hat + pm.a_prime)
        by (nonlinear_arith);
    lemma_shift_changes(poly1, pm.a_prime);
    assert(spec_c1_check(g, pm_e) != pm.c1);
}

/// Incrementing the response for the blinding scalar `r2` shifts the
/// first recomputed commitment by `h0`.
proof fn lemma_tampered_r2_hat(g: GeneratorsModel, w: int, m1: int, pm: ProofModel)
    requires
        spec_verify(g, w, m1, pm),
        invertible(g.h0),
    ensures
        !spec_verify(g, w, m1, ProofModel { r2_hat: fadd(pm.r2_hat, 1), ..pm }),
{
    let q = fq();
    lemma_checks_flat(g, m1, pm);
    let poly1 = (pm.a_bar - pm.d) * pm.c + pm.a_prime * pm.e_hat + g.h0 * pm.r2_hat;
    let pm_r2 = ProofModel { r2_hat: fadd(pm.r2_hat, 1), ..pm };
    assert(spec_c1_check(g, pm_r2) == ({
        let t = (pm.a_bar - pm.d) * pm.c + pm.a_prime * pm.e_hat + g.h0 * (pm.r2_hat + 1);
        t % q
    })) by {
        lemma_fmul_flat(pm.a_bar - pm.d, pm.c);
        lemma_fmul_flat(g.h0, pm.r2_hat + 1);
        lemma_fadd_both((pm.a_bar - pm.d) * pm.c, pm.a_prime * pm.e_hat);
        lemma_fadd_both(
            (pm.a_bar - pm.d) * pm.c + pm.a_prime * pm.e_hat,
            g.h0 * (pm.r2_hat + 1),
        );
    }
    assert(g.h0 * (pm.r2_hat + 1) == g.h0 * pm.r2_hat + g.h0) by (nonlinear_arith);
    lemma_shift_changes(poly1, g.h0);
    assert(spec_c1_check(g, pm_r2) != pm.c1);
}

/// Incrementing the response for the adjusted opening `s'` shifts the
/// second recomputed commitment by `h0`.
proof fn lemma_tampered_s_hat(g: GeneratorsModel, w: int, m1: int, pm: ProofModel)
    requires
        spec_verify(g, w, m1, pm),
        invertible(g.h0),
    ensures
        !spec_verify(g, w, m1, ProofModel { s_hat: fadd(pm.s_hat, 1), ..pm }),
{
    let q = fq();
    lemma_checks_flat(g, m1, pm);
    let poly2 = (g.p1 + g.h1 * m1) * pm.c + pm.d * -pm.r3_hat + g.h0 * pm.s_hat + g.h2 * pm.m2_hat;
    let pm_s = ProofModel { s_hat: fadd(pm.s_hat, 1), ..pm };
    assert(spec_c2_check(g, m1, pm_s) == ({
        let t = (g.p1 + g.h1 * m1) * pm.c + pm.d * -pm.r3_hat + g.h0 * (pm.s_hat + 1) + g.h2
            * pm.m2_hat;
        t % q
    })) by {
        lemma_fadd_flat(g.p1, g.h1 * m1);
        lemma_fmul_flat(g.p1 + g.h1 * m1, pm.c);
        lemma_fmul_flat(pm.d, -pm.r3_hat);
        lemma_fmul_flat(g.h0, pm.s_hat + 1);
        lemma_fadd_both((g.p1 + g.h1 * m1) * pm.c, pm.d * -pm.r3_hat);
        lemma_fadd_both(
            (g.p1 + g.h1 * m1) * pm.c + pm.d * -pm.r3_hat,
            g.h0 * (pm.s_hat + 1),
        );
        lemma_fadd_both(
            (g.p1 + g.h1 * m1) * pm.c + pm.d * -pm.r3_hat + g.h0 * (pm.s_hat + 1),
            g.h2 * pm.m2_hat,
        );
    }
    assert(g.h0 * (pm.s_hat + 1) == g.h0 * pm.s_hat + g.h0) by (nonlinear_arith);
    lemma_shift_changes(poly2, g.h0);
    assert(spec_c2_check(g, m1, pm_s) != pm.c2);
}

/// Incrementing the response for the hidden message shifts the second
/// recomputed commitment by `h2`.
proof fn lemma_tampered_m2_hat(g: GeneratorsModel, w: int, m1: int, pm: ProofModel)
    requires
        spec_verify(g, w, m1, pm),
        invertible(g.h2),
    ensures
        !spec_verify(g, w, m1, ProofModel { m2_hat: fadd(pm.m2_hat, 1), ..pm }),
{
    let q = fq();
    lemma_checks_flat(g, m1, pm);
    let poly2 = (g.p1 + g.h1 * m1) * pm.c + pm.d * -pm.r3_hat + g.h0 * pm.s_hat + g.h2 * pm.m2_hat;
    let pm_m2 = ProofModel { m2_hat: fadd(pm.m2_hat, 1), ..pm };
    assert(spec_c2_check(g, m1, pm_m2) == ({
        let t = (g.p1 + g.h1 * m1) * pm.c + pm.d * -pm.r3_hat + g.h0 * pm.s_hat + g.h2 * (
        pm.m2_hat + 1);
        t % q
    })) by {
        lemma_fadd_flat(g.p1, g.h1 * m1);
        lemma_fmul_flat(g.p1 + g.h1 * m1, pm.c);
        lemma_fmul_flat(pm.d, -pm.r3_hat);
        lemma_fmul_flat(g.h2, pm.m2_hat + 1);
        lemma_fadd_both((g.p1 + g.h1 * m1) * pm.c, pm.d * -pm.r3_hat);
        lemma_fadd_both((g.p1 + g.h1 * m1) * pm.c + pm.d * -pm.r3_hat, g.h0 * pm.s_hat);
        lemma_fadd_both(
            (g.p1 + g.h1 * m1) * pm.c + pm.d * -pm.r3_hat + g.h0 * pm.s_hat,
            g.h2 * (pm.m2_hat + 1),
        );
    }
    assert(g.h2 * (pm.m2_hat + 1) == g.h2 * pm.m2_hat + g.h2) by (nonlinear_arith);
    lemma_shift_changes(poly2, g.h2);
    assert(spec_c2_check(g, m1, pm_m2) != pm.c2);
}

/// Incrementing the response for the inverse blinding `r3` shifts the
/// second recomputed commitment by `-d`.
proof fn lemma_tampered_r3_hat(g: GeneratorsModel, w: int, m1: int, pm: ProofModel)
    requires
        spec_verify(g, w, m1, pm),
        invertible(pm.d),
    ensures
        !spec_verify(g, w, m1, ProofModel { r3_hat: fadd(pm.r3_hat, 1), ..pm }),
{
    let q = fq();
    lemma_checks_flat(g, m1, pm);
    let poly2 = (g.p1 + g.h1 * m1) * pm.c + pm.d * -pm.r3_hat + g.h0 * pm.s_hat + g.h2 * pm.m2_hat;
    let pm_r3 = ProofModel { r3_hat: fadd(pm.r3_hat, 1), ..pm };
    assert(spec_c2_check(g, m1, pm_r3) == ({
        let t = (g.p1 + g.h1 * m1) * pm.c + pm.d * -(pm.r3_hat + 1) + g.h0 * pm.s_hat + g.h2
            * pm.m2_hat;
        t % q
    })) by {
        lemma_fneg_flat(pm.r3_hat + 1);
        lemma_fmul_flat(pm.d, -(pm.r3_hat + 1));
        lemma_fadd_flat(g.p1, g.h1 * m1);
        lemma_fmul_flat(g.p1 + g.h1 * m1, pm.c);
        lemma_fadd_both((g.p1 + g.h1 * m1) * pm.c, pm.d * -(pm.r3_hat + 1));
        lemma_fadd_both(
            (g.p1 + g.h1 * m1) * pm.c + pm.d * -(pm.r3_hat + 1),
            g.h0 * pm.s_hat,
        );
        lemma_fadd_both(
            (g.p1 + g.h1 * m1) * pm.c + pm.d * -(pm.r3_hat + 1) + g.h0 * pm.s_hat,
            g.h2 * pm.m2_hat,
        );
    }
    assert(pm.d * -(pm.r3_hat + 1) == pm.d * -pm.r3_hat - pm.d) by (nonlinear_arith);
    lemma_shift_changes(poly2 - pm.d, pm.d);
    assert(spec_c2_check(g, m1, pm_r3) != pm.c2);
}

/// Tamper detection: incrementing any single response of an accepted
/// proof makes the verifier reject it. Each response guards the
/// commitment term it multiplies, so the statement asks that term to be
/// invertible: a degenerate proof whose `a_prime` or `d` is the identity,
/// or generators with an identity `h0` or `h2`, would absorb the change.
pub proof fn lemma_tampered_response_rejected(
    g: GeneratorsModel,
    w: int,
    m1: int,
    pm: ProofModel,
)
    requires
        spec_verify(g, w, m1, pm),
        invertible(pm.a_prime),
        invertible(pm.d),
        invertible(g.h0),
        invertible(g.h2),
    ensures
        !spec_verify(g, w, m1, ProofModel { e_hat: fadd(pm.e_hat, 1), ..pm }),
        !spec_verify(g, w, m1, ProofModel { r2_hat: fadd(pm.r2_hat, 1), ..pm }),
        !spec_verify(g, w, m1, ProofModel { r3_hat: fadd(pm.r3_hat, 1), ..pm }),
        !spec_verify(g, w, m1, ProofModel { s_hat: fadd(pm.s_hat, 1), ..pm }),
        !spec_verify(g, w, m1, ProofModel { m2_hat: fadd(pm.m2_hat, 1), ..pm }),
{
    lemma_tampered_e_hat(g, w, m1, pm);
    lemma_tampered_r2_hat(g, w, m1, pm);
    lemma_tampered_r3_hat(g, w, m1, pm);
    lemma_tampered_s_hat(g, w, m1, pm);
    lemma_tampered_m2_hat(g, w, m1, pm);
}

/// Binding of the revealed message: a proof accepted for `m1` is rejected
/// for any other revealed message `m1p`, provided the challenge, the
/// message base `h1`, and the difference of the messages are invertible.
pub proof fn lemma_wrong_revealed_message_rejected(
    g: GeneratorsModel,
    w: int,
    m1: int,
    m1p: int,
    pm: ProofModel,
)
    requires
        spec_verify(g, w, m1, pm),
        invertible(pm.c),
        invertible(g.h1),
        invertible(fsub(m1p, m1)),
    ensures
        !spec_verify(g, w, m1p, pm),
{
    let q = fq();
    lemma_checks_flat(g, m1, pm);
    lemma_checks_flat(g, m1p, pm);
    let poly2 = (g.p1 + g.h1 * m1) * pm.c + pm.d * -pm.r3_hat + g.h0 * pm.s_hat + g.h2 * pm.m2_hat;
    let delta = (pm.c * g.h1) * (m1p - m1);
    assert((g.p1 + g.h1 * m1p) * pm.c == (g.p1 + g.h1 * m1) * pm.c + delta) by (nonlinear_arith)
        requires
            delta == (pm.c * g.h1) * (m1p - m1),
    ;
    lemma_invertible_flat(m1p - m1);
    lemma_invertible_mul(pm.c, g.h1);
    lemma_invertible_mul(pm.c * g.h1, m1p - m1);
    lemma_shift_changes(poly2, delta);
    assert(spec_c2_check(g, m1p, pm) != pm.c2);
}

/// Completeness: a proof honestly built from a signature that satisfies
/// the signature equation under `w`, with an invertible blinding scalar
/// `r1` and any `r2`, is accepted by the verifier under `w`.
pub proof fn lemma_honest_proof_verifies(
    g: GeneratorsModel,
    w: int,
    sig: SignatureModel,
    m1: int,
    m2: int,
    rnd: RandomnessModel,
)
    requires
        invertible(rnd.r1),
        spec_check(g, w, sig, m1, m2),
    ensures
        spec_verify(g, w, m1, spec_prove(g, sig, m1, m2, rnd)),
{
    lemma_c1_reconstructed(g, sig, m1, m2, rnd);
    lemma_c2_reconstructed(g, sig, m1, m2, rnd);
    lemma_pairing_reconstructed(g, w, sig, m1, m2, rnd);
}

} // verus!
