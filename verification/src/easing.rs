//! Easing curves over fixed-point progress: a raw ratio in `[0, 1_000_000]`
//! millionths maps to an eased ratio in the same range. Every curve sends
//! zero to zero and one to one exactly.
//!
//! The exponential curve is realized as a piecewise-linear fixed-point
//! approximation of `2^(10(2t - 1)) / 2`, interpolating between the exact
//! truncated powers of two at twenty evenly spaced nodes, with the standard
//! discontinuous special cases at the two endpoints.

use vstd::prelude::*;

verus! {

use vstd::arithmetic::div_mod::lemma_div_is_ordered;
use vstd::arithmetic::div_mod::lemma_div_pos_is_pos;
use vstd::arithmetic::div_mod::lemma_fundamental_div_mod;

/// The shape of an animation's progress curve.
#[derive(Clone, Copy, Debug, PartialEq, Eq, Structural)]
pub enum EaseFunction {
    Linear,
    QuadraticInOut,
    ExponentialInOut,
}

/// Two to the `n`.
pub open spec fn pow2(n: nat) -> int
    decreases n,
{
    if n == 0 {
        1
    } else {
        2 * pow2((n - 1) as nat)
    }
}

/// Node `k` of the exponential half-curve, for `k` in `0 ..= 11`: the value
/// of `2^(k - 11)` in millionths, truncated.
pub open spec fn expo_node(k: int) -> int {
    1_000_000int / pow2((11 - k) as nat)
}

/// The rising half of the exponential curve on `[0, 500_000]`: linear
/// interpolation between the two nodes that bracket `r`.
pub open spec fn expo_half(r: int) -> int {
    let k = r / 50_000;
    expo_node(k) + ((expo_node(k + 1) - expo_node(k)) * (r - 50_000 * k)) / 50_000
}

/// What each curve does to a raw ratio `r` in millionths.
pub open spec fn ease_spec(e: EaseFunction, r: int) -> int {
    match e {
        EaseFunction::Linear => r,
        EaseFunction::QuadraticInOut => {
            if r <= 500_000 {
                (2 * r * r) / 1_000_000
            } else {
                1_000_000 - (2 * (1_000_000 - r) * (1_000_000 - r)) / 1_000_000
            }
        },
        EaseFunction::ExponentialInOut => {
            if r == 0 {
                0
            } else if r == 1_000_000 {
                1_000_000
            } else if r <= 500_000 {
                expo_half(r)
            } else {
                1_000_000 - expo_half(1_000_000 - r)
            }
        },
    }
}

/// Every curve fixes the two endpoints: progress zero eases to zero and
/// progress one to one.
pub proof fn lemma_ease_boundaries(e: EaseFunction)
    ensures
        ease_spec(e, 0) == 0,
        ease_spec(e, 1_000_000) == 1_000_000,
{
}

/// The value of every node of the exponential half-curve, spelled out.
pub proof fn lemma_expo_node_values()
    ensures
        expo_node(0) == 488,
        expo_node(1) == 976,
        expo_node(2) == 1_953,
        expo_node(3) == 3_906,
        expo_node(4) == 7_812,
        expo_node(5) == 15_625,
        expo_node(6) == 31_250,
        expo_node(7) == 62_500,
        expo_node(8) == 125_000,
        expo_node(9) == 250_000,
        expo_node(10) == 500_000,
        expo_node(11) == 1_000_000,
{
    assert(pow2(0) == 1);
    assert(pow2(1) == 2);
    assert(pow2(2) == 4);
    assert(pow2(3) == 8);
    assert(pow2(4) == 16);
    assert(pow2(5) == 32);
    assert(pow2(6) == 64);
    assert(pow2(7) == 128);
    assert(pow2(8) == 256);
    assert(pow2(9) == 512);
    assert(pow2(10) == 1024);
    assert(pow2(11) == 2048);
}

/// Node `k` of the exponential half-curve, as executable code.
fn expo_node_val(k: i64) -> (v: i64)
    requires
        0 <= k <= 11,
    ensures
        v == expo_node(k as int),
        488 <= v <= 1_000_000,
        k == 11 ==> v == 1_000_000,
        k == 10 ==> v == 500_000,
{
    proof {
        lemma_expo_node_values();
    }
    if k == 0 {
        488
    } else if k == 1 {
        976
    } else if k == 2 {
        1_953
    } else if k == 3 {
        3_906
    } else if k == 4 {
        7_812
    } else if k == 5 {
        15_625
    } else if k == 6 {
        31_250
    } else if k == 7 {
        62_500
    } else if k == 8 {
        125_000
    } else if k == 9 {
        250_000
    } else if k == 10 {
        500_000
    } else {
        1_000_000
    }
}

/// The rising half of the exponential curve, as executable code.
fn expo_half_val(r: i64) -> (y: i64)
    requires
        0 <= r <= 500_000,
    ensures
        y == expo_half(r as int),
        0 <= y <= 500_000,
{
    let k: i64 = r / 50_000;
    proof {
        lemma_fundamental_div_mod(r as int, 50_000);
        lemma_div_pos_is_pos(r as int, 50_000);
        lemma_div_is_ordered(r as int, 500_000, 50_000);
    }
    let nk: i64 = expo_node_val(k);
    let nk1: i64 = expo_node_val(k + 1);
    let off: i64 = r - 50_000 * k;
    proof {
        lemma_expo_node_values();
        assert(nk <= nk1 && nk1 - nk <= 500_000);
        let d = (nk1 - nk) as int;
        assert(0 <= d * off <= 500_000 * 50_000) by (nonlinear_arith)
            requires
                0 <= d <= 500_000,
                0 <= off <= 50_000;
        lemma_div_pos_is_pos(d * off, 50_000);
        assert(d * off <= d * 50_000) by (nonlinear_arith)
            requires
                0 <= d,
                0 <= off <= 50_000;
        lemma_div_is_ordered(d * off, d * 50_000, 50_000);
        vstd::arithmetic::div_mod::lemma_div_multiples_vanish(d, 50_000);
        assert(50_000 * d == d * 50_000) by (nonlinear_arith);
        if k == 10 {
            assert(off == 0);
            assert(d * 0 == 0) by (nonlinear_arith);
        }
    }
    nk + ((nk1 - nk) * off) / 50_000
}

impl EaseFunction {
    /// Ease a raw progress ratio, given and returned in millionths.
    pub fn apply(&self, r: i64) -> (y: i64)
        requires
            0 <= r <= 1_000_000,
        ensures
            y == ease_spec(*self, r as int),
            0 <= y <= 1_000_000,
            r == 0 ==> y == 0,
            r == 1_000_000 ==> y == 1_000_000,
    {
        match self {
            EaseFunction::Linear => r,
            EaseFunction::QuadraticInOut => {
                if r <= 500_000 {
                    proof {
                        assert(0 <= 2 * r * r <= 2 * 500_000 * 500_000) by (nonlinear_arith)
                            requires 0 <= r <= 500_000;
                        lemma_div_pos_is_pos(2 * r * r, 1_000_000);
                        assert(2 * r * r <= 1_000_000 * r) by (nonlinear_arith)
                            requires 0 <= r <= 500_000;
                        lemma_div_is_ordered(2 * r * r, 1_000_000 * r, 1_000_000);
                        vstd::arithmetic::div_mod::lemma_div_multiples_vanish(
                            r as int,
                            1_000_000,
                        );
                    }
                    (2 * r * r) / 1_000_000
                } else {
                    let d: i64 = 1_000_000 - r;
                    proof {
                        assert(0 <= 2 * d * d <= 2 * 500_000 * 500_000) by (nonlinear_arith)
                            requires 0 <= d < 500_000;
                        lemma_div_pos_is_pos(2 * d * d, 1_000_000);
                        assert(2 * d * d <= 1_000_000 * d) by (nonlinear_arith)
                            requires 0 <= d < 500_000;
                        lemma_div_is_ordered(2 * d * d, 1_000_000 * d, 1_000_000);
                        vstd::arithmetic::div_mod::lemma_div_multiples_vanish(
                            d as int,
                            1_000_000,
                        );
                    }
                    1_000_000 - (2 * d * d) / 1_000_000
                }
            },
            EaseFunction::ExponentialInOut => {
                if r == 0 {
                    0
                } else if r == 1_000_000 {
                    1_000_000
                } else if r <= 500_000 {
                    expo_half_val(r)
                } else {
                    1_000_000 - expo_half_val(1_000_000 - r)
                }
            },
        }
    }
}

} // verus!
