//! Fixed-point scalars: an `i64` holds millionths of a unit, so `1_000_000`
//! is one, `900_000` is nine tenths. Interpolation and scaling truncate the
//! scaled fraction toward zero, and both directions are stated exactly.

use vstd::prelude::*;

verus! {

use vstd::arithmetic::div_mod::lemma_div_is_ordered;
use vstd::arithmetic::div_mod::lemma_div_multiples_vanish;
use vstd::arithmetic::div_mod::lemma_div_pos_is_pos;
use vstd::arithmetic::div_mod::lemma_fundamental_div_mod;

/// One unit in the fixed-point encoding (six decimal places).
pub const UNIT: i64 = 1_000_000;

/// Largest magnitude, in millionths, that a well-formed animatable value
/// (a coordinate, a scale, a lens endpoint) may have: one million units.
pub const MAX_ABS: i64 = 1_000_000_000_000;

/// Magnitude a value must stay within so that one per-frame adjustment
/// (a preset, a damping factor, a pan offset) cannot leave [-MAX_ABS, MAX_ABS].
pub const STEP_LIMIT: i64 = 900_000_000_000;

/// A value small enough to be a lens endpoint or a stored coordinate.
pub open spec fn in_range(v: int) -> bool {
    -MAX_ABS <= v <= MAX_ABS
}

/// Linear interpolation from `start` to `end` at `r` millionths of the way,
/// with the scaled offset truncated toward zero.
pub open spec fn lerp_spec(start: int, end: int, r: int) -> int {
    if end >= start {
        start + ((end - start) * r) / (UNIT as int)
    } else {
        start - ((start - end) * r) / (UNIT as int)
    }
}

/// Product of `v` with a factor given in millionths, truncated toward zero.
pub open spec fn mul_ratio_spec(v: int, f: int) -> int {
    if v >= 0 {
        (v * f) / (UNIT as int)
    } else {
        -((-v * f) / (UNIT as int))
    }
}

/// The interpolated value at ratio zero is `start`, at ratio one `end`,
/// and in between it never leaves the closed interval of the endpoints.
pub proof fn lemma_lerp_bounds(start: int, end: int, r: int)
    requires
        0 <= r <= UNIT,
    ensures
        r == 0 ==> lerp_spec(start, end, r) == start,
        r == UNIT ==> lerp_spec(start, end, r) == end,
        start <= end ==> start <= lerp_spec(start, end, r) <= end,
        end <= start ==> end <= lerp_spec(start, end, r) <= start,
{
    let u = UNIT as int;
    if end >= start {
        let d = end - start;
        assert(d * 0 == 0) by (nonlinear_arith);
        assert(d * r <= d * u) by (nonlinear_arith)
            requires 0 <= d && r <= u;
        assert(0 <= d * r) by (nonlinear_arith)
            requires 0 <= d && 0 <= r;
        lemma_div_pos_is_pos(d * r, u);
        lemma_div_is_ordered(d * r, d * u, u);
        lemma_div_multiples_vanish(d, u);
        assert(u * d == d * u) by (nonlinear_arith);
    } else {
        let d = start - end;
        assert(d * 0 == 0) by (nonlinear_arith);
        assert(d * r <= d * u) by (nonlinear_arith)
            requires 0 <= d && r <= u;
        assert(0 <= d * r) by (nonlinear_arith)
            requires 0 <= d && 0 <= r;
        lemma_div_pos_is_pos(d * r, u);
        lemma_div_is_ordered(d * r, d * u, u);
        lemma_div_multiples_vanish(d, u);
        assert(u * d == d * u) by (nonlinear_arith);
    }
}

/// Interpolate between two in-range endpoints at `r` millionths.
pub fn lerp_fx(start: i64, end: i64, r: i64) -> (v: i64)
    requires
        in_range(start as int),
        in_range(end as int),
        0 <= r <= UNIT,
    ensures
        v == lerp_spec(start as int, end as int, r as int),
        r == 0 ==> v == start,
        r == UNIT ==> v == end,
        start <= end ==> start <= v <= end,
        end <= start ==> end <= v <= start,
        in_range(v as int),
{
    proof {
        lemma_lerp_bounds(start as int, end as int, r as int);
    }
    if end >= start {
        let d: i64 = end - start;
        proof {
            assert(d * r <= 2_000_000_000_000i64 * 1_000_000) by (nonlinear_arith)
                requires 0 <= d <= 2_000_000_000_000i64 && 0 <= r <= 1_000_000;
            assert(0 <= d * r) by (nonlinear_arith)
                requires 0 <= d && 0 <= r;
        }
        let off: i64 = (d * r) / UNIT;
        start + off
    } else {
        let d: i64 = start - end;
        proof {
            assert(d * r <= 2_000_000_000_000i64 * 1_000_000) by (nonlinear_arith)
                requires 0 <= d <= 2_000_000_000_000i64 && 0 <= r <= 1_000_000;
            assert(0 <= d * r) by (nonlinear_arith)
                requires 0 <= d && 0 <= r;
        }
        let off: i64 = (d * r) / UNIT;
        start - off
    }
}

/// Scale `v` by a factor in millionths (used by the held zoom keys, with
/// factors nine tenths and eleven tenths).
pub fn mul_ratio(v: i64, f: i64) -> (r: i64)
    requires
        -STEP_LIMIT <= v <= STEP_LIMIT,
        0 <= f <= 1_100_000,
    ensures
        r == mul_ratio_spec(v as int, f as int),
        in_range(r as int),
        -990_000_000_000 <= r <= 990_000_000_000,
{
    if v >= 0 {
        proof {
            let u = UNIT as int;
            assert(v * f <= 900_000_000_000i64 * 1_100_000) by (nonlinear_arith)
                requires 0 <= v <= 900_000_000_000i64 && 0 <= f <= 1_100_000;
            assert(0 <= v * f) by (nonlinear_arith)
                requires 0 <= v && 0 <= f;
            lemma_div_pos_is_pos(v * f, u);
            lemma_div_is_ordered(v * f, 990_000_000_000_000_000int, u);
        }
        (v * f) / UNIT
    } else {
        let m: i64 = -v;
        proof {
            let u = UNIT as int;
            assert(m * f <= 900_000_000_000i64 * 1_100_000) by (nonlinear_arith)
                requires 0 <= m <= 900_000_000_000i64 && 0 <= f <= 1_100_000;
            assert(0 <= m * f) by (nonlinear_arith)
                requires 0 <= m && 0 <= f;
            lemma_div_pos_is_pos(m * f, u);
            lemma_div_is_ordered(m * f, 990_000_000_000_000_000int, u);
        }
        -((m * f) / UNIT)
    }
}

/// Damping by nine tenths strictly shrinks any positive value and keeps it
/// nonnegative, so a held zoom-out key decreases the scale monotonically.
pub proof fn lemma_damp_decreases(v: int)
    requires
        1 <= v,
    ensures
        0 <= mul_ratio_spec(v, 900_000) < v,
{
    let u = UNIT as int;
    let x = v * 900_000;
    assert(0 <= v * 900_000) by (nonlinear_arith)
        requires 1 <= v;
    lemma_div_pos_is_pos(x, u);
    lemma_fundamental_div_mod(x, u);
    let q = x / u;
    let m = x % u;
    assert(q < v) by (nonlinear_arith)
        requires
            v * 900_000 == u * q + m,
            0 <= m < u,
            u == 1_000_000,
            1 <= v,
            0 <= q;
}

/// Growing by eleven tenths strictly increases any value of at least ten
/// millionths, so a held zoom-in key increases the scale monotonically
/// (below ten millionths the truncated tenth vanishes).
pub proof fn lemma_grow_increases(v: int)
    requires
        10 <= v,
    ensures
        mul_ratio_spec(v, 1_100_000) > v,
{
    let u = UNIT as int;
    let x = v * 1_100_000;
    assert(0 <= v * 1_100_000) by (nonlinear_arith)
        requires 10 <= v;
    lemma_fundamental_div_mod(x, u);
    let q = x / u;
    let m = x % u;
    assert(q > v) by (nonlinear_arith)
        requires
            v * 1_100_000 == u * q + m,
            0 <= m < u,
            u == 1_000_000,
            10 <= v;
}

} // verus!
