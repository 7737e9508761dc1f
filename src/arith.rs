//! Small arithmetic facts shared by the envelope and oscillator proofs.

use vstd::prelude::*;

verus! {

/// Scaling `a` by a fraction `e / l` of at most one never exceeds `a`.
pub proof fn lemma_fraction_le(a: int, e: int, l: int)
    requires
        0 <= a,
        0 <= e <= l,
        0 < l,
    ensures
        0 <= a * e / l <= a,
{
    assert(0 <= a * e <= l * a) by (nonlinear_arith)
        requires
            0 <= a,
            0 <= e <= l,
    ;
    vstd::arithmetic::div_mod::lemma_div_is_ordered(a * e, l * a, l);
    vstd::arithmetic::div_mod::lemma_div_pos_is_pos(a * e, l);
    vstd::arithmetic::div_mod::lemma_div_multiples_vanish(a, l);
}

/// A fraction `e / l` of `a` grows with `e`.
pub proof fn lemma_fraction_monotonic(a: int, e1: int, e2: int, l: int)
    requires
        0 <= a,
        0 <= e1 <= e2,
        0 < l,
    ensures
        a * e1 / l <= a * e2 / l,
{
    assert(a * e1 <= a * e2) by (nonlinear_arith)
        requires
            0 <= a,
            0 <= e1 <= e2,
    ;
    vstd::arithmetic::div_mod::lemma_div_is_ordered(a * e1, a * e2, l);
}

/// A product of two bounded naturals is bounded by the product of the bounds.
pub proof fn lemma_mul_bounded(a: int, b: int, a_max: int, b_max: int)
    requires
        0 <= a <= a_max,
        0 <= b <= b_max,
    ensures
        0 <= a * b <= a_max * b_max,
{
    assert(0 <= a * b <= a_max * b_max) by (nonlinear_arith)
        requires
            0 <= a <= a_max,
            0 <= b <= b_max,
    ;
}

/// One more step of `e / l` adds at most `a / l + 1` to the scaled value.
pub proof fn lemma_fraction_step(a: int, e: int, l: int)
    requires
        0 <= a,
        0 <= e,
        0 < l,
    ensures
        a * e / l <= a * (e + 1) / l <= a * e / l + a / l + 1,
{
    let q1 = a * e / l;
    let q2 = a * (e + 1) / l;
    let qa = a / l;
    vstd::arithmetic::div_mod::lemma_fundamental_div_mod(a * e, l);
    vstd::arithmetic::div_mod::lemma_fundamental_div_mod(a * (e + 1), l);
    vstd::arithmetic::div_mod::lemma_fundamental_div_mod(a, l);
    vstd::arithmetic::div_mod::lemma_mod_bound(a * e, l);
    vstd::arithmetic::div_mod::lemma_mod_bound(a * (e + 1), l);
    vstd::arithmetic::div_mod::lemma_mod_bound(a, l);
    lemma_fraction_monotonic(a, e, e + 1, l);
    assert(a * (e + 1) == a * e + a) by (nonlinear_arith);
    let r1 = (a * e) % l;
    let r2 = (a * (e + 1)) % l;
    let ra = a % l;
    assert(q2 <= q1 + qa + 1) by (nonlinear_arith)
        requires
            0 < l,
            l * q1 + r1 + l * qa + ra == l * q2 + r2,
            0 <= r1 < l,
            0 <= r2 < l,
            0 <= ra < l,
    ;
}

/// A value between `lo * n` and `hi * n` has its quotient by `n` between
/// `lo` and `hi`.
pub proof fn lemma_quotient_between(x: int, lo: int, hi: int, n: int)
    requires
        0 < n,
        lo * n <= x < hi * n,
    ensures
        lo <= x / n < hi,
{
    vstd::arithmetic::div_mod::lemma_fundamental_div_mod(x, n);
    vstd::arithmetic::div_mod::lemma_mod_bound(x, n);
    let q = x / n;
    let r = x % n;
    assert(lo <= q < hi) by (nonlinear_arith)
        requires
            0 < n,
            lo * n <= x < hi * n,
            x == n * q + r,
            0 <= r < n,
    ;
}

} // verus!
