//! Fixed-point scalars.
//!
//! A world unit (or a radian) is `SCALE` quanta; every scalar of the
//! library is an `i64` count of quanta, so products and quotients have an
//! exact integer meaning that contracts can state in full.

use vstd::prelude::*;
use vstd::arithmetic::div_mod::lemma_fundamental_div_mod;
use vstd::arithmetic::div_mod::lemma_fundamental_div_mod_converse_mod;
use vstd::arithmetic::div_mod::lemma_mod_division_less_than_divisor;
use vstd::arithmetic::div_mod::lemma_mod_multiples_vanish;
use vstd::arithmetic::div_mod::lemma_div_is_ordered;
use vstd::arithmetic::div_mod::lemma_div_multiples_vanish;
use vstd::arithmetic::div_mod::lemma_div_pos_is_pos;

verus! {

/// Quanta per world unit and per radian.
pub const SCALE: i64 = 1_000_000;

/// A full turn, two pi radians, in angle quanta.
pub const TURN: i64 = 6_283_185;

/// A quarter turn, pi over two radians, in angle quanta.
pub const QUARTER_TURN: i64 = 1_570_796;

/// Largest magnitude a position or probe-hit coordinate may take, in
/// quanta; keeps every product in the camera formulas inside `i64`.
pub const POS_LIMIT: i64 = 1_000_000_000_000_000;

/// Largest orbit radius or probe distance, in quanta.
pub const DIST_LIMIT: i64 = 1_000_000_000_000;

/// Largest accumulated mouse motion along one axis in one frame, in
/// device counts.
pub const DELTA_LIMIT: i64 = 1_000_000;

/// Largest frame time, in quanta of a second (ten seconds).
pub const DT_LIMIT: i64 = 10_000_000;

/// Truncating division (rounding toward zero), the meaning of `/` on `i64`.
pub open spec fn div_trunc(a: int, b: int) -> int {
    if a >= 0 {
        a / b
    } else {
        -((-a) / b)
    }
}

/// The fixed-point product of two scalars: `a * b` rescaled to quanta.
pub open spec fn scale_mul(a: int, b: int) -> int {
    div_trunc(a * b, SCALE as int)
}

/// Fixed-point multiply; exact up to the truncation that `scale_mul` states.
pub fn mul_fx(a: i64, b: i64) -> (r: i64)
    requires
        -(i64::MAX as int) <= a * b <= i64::MAX as int,
    ensures
        r == scale_mul(a as int, b as int),
{
    (a * b) / SCALE
}

/// `v` forced into `[lo, hi]`.
pub open spec fn clamp_spec(v: int, lo: int, hi: int) -> int {
    if v < lo {
        lo
    } else if v > hi {
        hi
    } else {
        v
    }
}

/// Clamp a scalar to a closed interval.
pub fn clamp_i64(v: i64, lo: i64, hi: i64) -> (r: i64)
    requires
        lo <= hi,
    ensures
        r == clamp_spec(v as int, lo as int, hi as int),
        lo <= r <= hi,
{
    if v < lo {
        lo
    } else if v > hi {
        hi
    } else {
        v
    }
}

/// The canonical representative of an angle: its Euclidean remainder by a
/// full turn, always in `[0, TURN)`.
pub open spec fn wrap_spec(a: int) -> int {
    a % (TURN as int)
}

/// Reduce an angle to its canonical representative in `[0, TURN)`.
pub fn wrap_angle(a: i64) -> (r: i64)
    ensures
        r == wrap_spec(a as int),
        0 <= r < TURN,
{
    let m: i64 = a % TURN;
    proof {
        lemma_mod_division_less_than_divisor(a as int, TURN as int);
        if a < 0 {
            let neg = -(a as int);
            lemma_fundamental_div_mod(neg, TURN as int);
            lemma_mod_division_less_than_divisor(neg, TURN as int);
            let q = neg / (TURN as int);
            let rem = neg % (TURN as int);
            if rem == 0 {
                lemma_fundamental_div_mod_converse_mod(a as int, TURN as int, -q, 0);
            } else {
                lemma_fundamental_div_mod_converse_mod(
                    a as int,
                    TURN as int,
                    -q - 1,
                    (TURN as int) - rem,
                );
            }
        }
    }
    if m < 0 {
        m + TURN
    } else {
        m
    }
}

/// Angles a whole number of turns apart share a canonical representative.
pub proof fn lemma_wrap_add_turns(a: int, k: int)
    ensures
        wrap_spec(a + k * TURN) == wrap_spec(a),
{
    lemma_mod_multiples_vanish(k, a, TURN as int);
}

/// A bound on each factor bounds the product.
pub proof fn lemma_abs_mul_bound(a: int, a_max: int, b: int, b_max: int)
    requires
        -a_max <= a <= a_max,
        -b_max <= b <= b_max,
    ensures
        -(a_max * b_max) <= a * b <= a_max * b_max,
{
    assert(-(a_max * b_max) <= a * b <= a_max * b_max) by (nonlinear_arith)
        requires
            -a_max <= a <= a_max,
            -b_max <= b <= b_max,
    ;
}

/// A bound on the operands bounds the truncating quotient.
pub proof fn lemma_div_trunc_bound(a: int, b: int, m: int)
    requires
        b > 0,
        m >= 0,
        -(m * b) <= a <= m * b,
    ensures
        -m <= div_trunc(a, b) <= m,
{
    lemma_div_multiples_vanish(m, b);
    assert((b * m) / b == m);
    assert(m * b == b * m) by (nonlinear_arith);
    if a >= 0 {
        lemma_div_pos_is_pos(a, b);
        lemma_div_is_ordered(a, b * m, b);
    } else {
        lemma_div_pos_is_pos(-a, b);
        lemma_div_is_ordered(-a, b * m, b);
    }
}

} // verus!
