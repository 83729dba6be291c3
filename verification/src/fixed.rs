//! Fixed-point arithmetic underlying the whole renderer.
//!
//! A real number `x` is represented by the `i64` value `x * FIX_ONE`,
//! rounded toward minus infinity. `FIX_ONE` is `2^24`, so every multiple of
//! `1/2^24` — in particular every plane coordinate, radius, easing value and
//! gradient position the renderer works with — is held exactly.

use vstd::prelude::*;

verus! {

/// The fixed-point unit: the representation of the real number `1`.
pub const FIX_ONE: i64 = 0x100_0000;

/// Largest magnitude accepted by [`fix_mul`]; `2^43`, far above any value the
/// renderer produces, while `m * m / FIX_ONE` still fits an `i64`.
pub const FIX_MUL_BOUND: i64 = 0x800_0000_0000;

/// Largest magnitude a keyframe coordinate, radius or palette shift may
/// have: `2^16` in real units.
pub const COORD_BOUND: i64 = 0x100_0000_0000;

/// Largest magnitude accepted by [`wrap_unit`].
pub const WRAP_BOUND: i64 = 0x4000_0000_0000_0000;

/// Fixed-point product: the real product of the represented numbers, rounded
/// toward minus infinity. (`/` on `int` is Euclidean division, which rounds
/// toward minus infinity for the positive divisor `FIX_ONE`.)
pub open spec fn fmul(a: int, b: int) -> int {
    (a * b) / (FIX_ONE as int)
}

/// Wrap of a fixed-point value into `[0, 1)`: the Euclidean remainder
/// modulo `FIX_ONE`, i.e. `v - floor(v)` on the represented reals.
pub open spec fn wrap_spec(v: int) -> int {
    v % (FIX_ONE as int)
}

/// Euclidean division by a positive divisor agrees with negated rounded-up
/// division of the negated dividend: `(-m) / f == -((m + f - 1) / f)`.
proof fn lemma_div_neg(m: int, f: int)
    requires
        m >= 0,
        f > 0,
    ensures
        (-m) / f == -((m + f - 1) / f),
{
    let k = m / f;
    let r = m % f;
    vstd::arithmetic::div_mod::lemma_fundamental_div_mod(m, f);
    assert((-k) * f == -(f * k)) by (nonlinear_arith);
    assert((-k - 1) * f == -(f * k) - f) by (nonlinear_arith);
    assert(k * f == f * k) by (nonlinear_arith);
    assert((k + 1) * f == f * k + f) by (nonlinear_arith);
    if r == 0 {
        vstd::arithmetic::div_mod::lemma_fundamental_div_mod_converse(-m, f, -k, 0);
        vstd::arithmetic::div_mod::lemma_fundamental_div_mod_converse(m + f - 1, f, k, f - 1);
    } else {
        vstd::arithmetic::div_mod::lemma_fundamental_div_mod_converse(-m, f, -k - 1, f - r);
        vstd::arithmetic::div_mod::lemma_fundamental_div_mod_converse(m + f - 1, f, k + 1, r - 1);
    }
}

/// Euclidean remainder of a negative value by a positive divisor:
/// `(-m) % f` is `0` when `m % f == 0` and `f - m % f` otherwise.
proof fn lemma_mod_neg(m: int, f: int)
    requires
        m >= 0,
        f > 0,
    ensures
        m % f == 0 ==> (-m) % f == 0,
        m % f != 0 ==> (-m) % f == f - m % f,
{
    let k = m / f;
    let r = m % f;
    vstd::arithmetic::div_mod::lemma_fundamental_div_mod(m, f);
    assert((-k) * f == -(f * k)) by (nonlinear_arith);
    assert((-k - 1) * f == -(f * k) - f) by (nonlinear_arith);
    if r == 0 {
        vstd::arithmetic::div_mod::lemma_fundamental_div_mod_converse(-m, f, -k, 0);
    } else {
        vstd::arithmetic::div_mod::lemma_fundamental_div_mod_converse(-m, f, -k - 1, f - r);
    }
}

/// The quotient of bounded operands is bounded: the core overflow argument
/// for [`fix_mul`].
proof fn lemma_fmul_in_range(a: int, b: int)
    requires
        -(FIX_MUL_BOUND as int) <= a <= FIX_MUL_BOUND as int,
        -(FIX_MUL_BOUND as int) <= b <= FIX_MUL_BOUND as int,
    ensures
        -0x4000_0000_0000_0000 <= fmul(a, b) <= 0x4000_0000_0000_0000,
        -0x40_0000_0000_0000_0000_0000 <= a * b <= 0x40_0000_0000_0000_0000_0000,
{
    let f = FIX_ONE as int;
    let p = a * b;
    assert(-0x40_0000_0000_0000_0000_0000 <= a * b <= 0x40_0000_0000_0000_0000_0000)
        by (nonlinear_arith)
        requires
            -0x800_0000_0000 <= a <= 0x800_0000_0000,
            -0x800_0000_0000 <= b <= 0x800_0000_0000,
    ;
    vstd::arithmetic::div_mod::lemma_div_is_ordered(p, 0x40_0000_0000_0000_0000_0000, f);
    vstd::arithmetic::div_mod::lemma_div_is_ordered(-0x40_0000_0000_0000_0000_0000, p, f);
    vstd::arithmetic::div_mod::lemma_fundamental_div_mod_converse(
        0x40_0000_0000_0000_0000_0000,
        f,
        0x4000_0000_0000_0000,
        0,
    );
    vstd::arithmetic::div_mod::lemma_fundamental_div_mod_converse(
        -0x40_0000_0000_0000_0000_0000,
        f,
        -0x4000_0000_0000_0000,
        0,
    );
}

/// A fixed-point product of operands with magnitude at most `m` lies within
/// one unit of `m * m / FIX_ONE`.
pub proof fn lemma_fmul_bounds(a: int, b: int, m: int)
    requires
        -m <= a <= m,
        -m <= b <= m,
        0 <= m,
    ensures
        -((m * m) / (FIX_ONE as int)) - 1 <= fmul(a, b) <= (m * m) / (FIX_ONE as int),
{
    let f = FIX_ONE as int;
    assert(-(m * m) <= a * b <= m * m) by (nonlinear_arith)
        requires
            -m <= a <= m,
            -m <= b <= m,
            0 <= m,
    ;
    assert(m * m >= 0) by (nonlinear_arith)
        requires
            0 <= m,
    ;
    vstd::arithmetic::div_mod::lemma_div_is_ordered(a * b, m * m, f);
    vstd::arithmetic::div_mod::lemma_div_is_ordered(-(m * m), a * b, f);
    lemma_div_neg(m * m, f);
    vstd::arithmetic::div_mod::lemma_div_is_ordered(m * m + f - 1, m * m + f, f);
    vstd::arithmetic::div_mod::lemma_div_plus_one(m * m, f);
}

/// A fixed-point product of nonnegative operands below `ca` and `cb` lies in
/// `[0, ca * cb / FIX_ONE]`.
pub proof fn lemma_fmul_le(a: int, b: int, ca: int, cb: int)
    requires
        0 <= a <= ca,
        0 <= b <= cb,
    ensures
        0 <= fmul(a, b) <= (ca * cb) / (FIX_ONE as int),
{
    let f = FIX_ONE as int;
    assert(0 <= a * b <= ca * cb) by (nonlinear_arith)
        requires
            0 <= a <= ca,
            0 <= b <= cb,
    ;
    vstd::arithmetic::div_mod::lemma_div_pos_is_pos(a * b, f);
    vstd::arithmetic::div_mod::lemma_div_is_ordered(a * b, ca * cb, f);
}

/// A fixed-point square is never negative.
pub proof fn lemma_fmul_square_nonneg(a: int)
    ensures
        fmul(a, a) >= 0,
{
    assert(a * a >= 0) by (nonlinear_arith);
    vstd::arithmetic::div_mod::lemma_div_pos_is_pos(a * a, FIX_ONE as int);
}

/// Fixed-point multiplication, exact per [`fmul`].
pub fn fix_mul(a: i64, b: i64) -> (r: i64)
    requires
        -FIX_MUL_BOUND <= a <= FIX_MUL_BOUND,
        -FIX_MUL_BOUND <= b <= FIX_MUL_BOUND,
    ensures
        r == fmul(a as int, b as int),
{
    proof {
        lemma_fmul_in_range(a as int, b as int);
    }
    let p: i128 = (a as i128) * (b as i128);
    if p >= 0 {
        let q: u128 = (p as u128) / (FIX_ONE as u128);
        proof {
            vstd::arithmetic::div_mod::lemma_div_pos_is_pos(p as int, FIX_ONE as int);
        }
        q as i64
    } else {
        let m: u128 = (-p) as u128;
        let q: u128 = (m + (FIX_ONE as u128) - 1) / (FIX_ONE as u128);
        proof {
            lemma_div_neg(m as int, FIX_ONE as int);
            vstd::arithmetic::div_mod::lemma_div_pos_is_pos((m + FIX_ONE - 1) as int, FIX_ONE as int);
        }
        -(q as i64)
    }
}

/// Wrap a fixed-point value into `[0, FIX_ONE)`, the fixed-point image of
/// `v - floor(v)`: a true modulo, so shifts below `0` and above `1` wrap
/// identically.
pub fn wrap_unit(v: i64) -> (r: i64)
    requires
        -WRAP_BOUND <= v <= WRAP_BOUND,
    ensures
        r == wrap_spec(v as int),
        0 <= r < FIX_ONE,
{
    proof {
        vstd::arithmetic::div_mod::lemma_mod_division_less_than_divisor(v as int, FIX_ONE as int);
    }
    if v >= 0 {
        ((v as u64) % (FIX_ONE as u64)) as i64
    } else {
        proof {
            lemma_mod_neg(-(v as int), FIX_ONE as int);
        }
        let m: u64 = ((-v) as u64) % (FIX_ONE as u64);
        if m == 0 {
            0
        } else {
            FIX_ONE - (m as i64)
        }
    }
}

/// Wrapping is invariant under adding any whole number of units:
/// `wrap_spec(v + k * FIX_ONE) == wrap_spec(v)`.
pub proof fn lemma_wrap_whole_shift(v: int, k: int)
    ensures
        wrap_spec(v + k * (FIX_ONE as int)) == wrap_spec(v),
{
    vstd::arithmetic::div_mod::lemma_mod_multiples_vanish(k, v, FIX_ONE as int);
}

} // verus!
