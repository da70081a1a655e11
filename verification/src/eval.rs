//! Point Evaluator: iterates a formula from a starting point until the
//! escape radius is exceeded or the iteration cap is reached.
//!
//! The escape value is a fixed-point scalar: the iteration count (scaled by
//! `FIX_ONE`) in count mode, or the accumulated Euclidean travel distance
//! between successive points in distance mode.  Distance mode is a distinct
//! measurement, not a cosmetic toggle: its values live on another scale.
//! The escape value saturates at `EVAL_CAP` so that color formulas stay in
//! exact fixed-point range.

use vstd::prelude::*;

use crate::fixed::FIX_ONE;
use crate::fixed::floor_sqrt;
use crate::fixed::isqrt;
use crate::math::formula::GeneratorKind;
use crate::math::formula::step;
use crate::math::formula::step_spec;
use crate::math::structs::C_BOUND;
use crate::math::structs::Complex;
use crate::math::structs::STEP_BOUND;
use crate::math::structs::Z_BOUND;
use crate::math::structs::in_range;
use crate::math::structs::is_greater_spec;

verus! {

/// Saturation bound of the escape value.
pub const EVAL_CAP: u64 = 0x40_0000_0000;

/// The result of evaluating one point: the escape value and the number of
/// formula steps taken.
#[derive(Clone, Copy, Debug, PartialEq, Eq, Structural)]
pub struct Evaluation {
    /// Fixed-point escape value; zero is the immediate-escape sentinel.
    pub value: u64,
    /// Steps taken; equal to the cap exactly when the point never escaped.
    pub iterations: u64,
}

/// The escape test: the point left the circle of radius 2.
pub open spec fn escaped(z: Complex) -> bool {
    is_greater_spec(z, 2 * FIX_ONE as int)
}

/// Fixed-point Euclidean distance between two points.
pub open spec fn dist_spec(a: Complex, b: Complex) -> int {
    floor_sqrt(
        ((b.real as int - a.real as int) * (b.real as int - a.real as int) + (b.imaginary as int
            - a.imaginary as int) * (b.imaginary as int - a.imaginary as int)) as nat,
    ) as int
}

/// Saturate an escape value at `EVAL_CAP`.
pub open spec fn sat_cap(v: int) -> int {
    if v > EVAL_CAP as int {
        EVAL_CAP as int
    } else {
        v
    }
}

/// The evaluation recurrence: from state `(z, value, iterations)` with
/// `remaining` steps allowed, the final escape value and step count.
pub open spec fn eval_from(
    k: GeneratorKind,
    c: Complex,
    z: Complex,
    value: int,
    iterations: int,
    remaining: nat,
    travel: bool,
) -> (int, int)
    decreases remaining,
{
    if remaining == 0 || escaped(z) {
        (value, iterations)
    } else {
        let z2 = step_spec(k, c, z);
        let inc = if travel {
            dist_spec(z, z2)
        } else {
            FIX_ONE as int
        };
        eval_from(k, c, z2, sat_cap(value + inc), iterations + 1, (remaining - 1) as nat, travel)
    }
}

/// A point that has not escaped lies within the step bound of every
/// formula.
proof fn lemma_not_escaped_in_range(z: Complex)
    requires
        in_range(z, 0x1_0000_0000),
        !escaped(z),
    ensures
        in_range(z, Z_BOUND as int),
{
    assert(in_range(z, Z_BOUND as int)) by (nonlinear_arith)
        requires
            in_range(z, 0x1_0000_0000),
            z.real as int * z.real as int + z.imaginary as int * z.imaginary as int <= (2
                * FIX_ONE as int) * (2 * FIX_ONE as int),
            Z_BOUND == 131072i64,
            FIX_ONE == 65536i64,
    ;
}

/// Evaluates one point: applies the formula until escape or the cap, and
/// accumulates the configured escape measure.
pub fn evaluate(
    k: GeneratorKind,
    c: Complex,
    z0: Complex,
    max_i: u64,
    travel_distance: bool,
) -> (r: Evaluation)
    requires
        in_range(c, C_BOUND as int),
        in_range(z0, STEP_BOUND as int),
    ensures
        (r.value as int, r.iterations as int) == eval_from(
            k,
            c,
            z0,
            0,
            0,
            max_i as nat,
            travel_distance,
        ),
        r.iterations <= max_i,
        r.value <= EVAL_CAP,
{
    let mut z: Complex = z0;
    let mut value: u64 = 0;
    let mut iterations: u64 = 0;
    let mut remaining: u64 = max_i;
    while remaining > 0
        invariant
            in_range(c, C_BOUND as int),
            in_range(z, STEP_BOUND as int),
            value <= EVAL_CAP,
            iterations == max_i - remaining,
            remaining <= max_i,
            eval_from(k, c, z, value as int, iterations as int, remaining as nat, travel_distance)
                == eval_from(k, c, z0, 0, 0, max_i as nat, travel_distance),
        decreases remaining,
    {
        if z.is_greater(2 * FIX_ONE) {
            proof {
                assert(eval_from(
                    k,
                    c,
                    z,
                    value as int,
                    iterations as int,
                    remaining as nat,
                    travel_distance,
                ) == (value as int, iterations as int));
            }
            return Evaluation { value, iterations };
        }
        proof {
            lemma_not_escaped_in_range(z);
        }
        let z2 = step(k, c, z);
        let inc: u64 = if travel_distance {
            let dr: i64 = z2.real - z.real;
            let di: i64 = z2.imaginary - z.imaginary;
            proof {
                assert(dr as int * dr as int + di as int * di as int
                    <= 0x1000_0000_0000_0000_0000 && dr as int * dr as int >= 0 && di as int
                    * di as int >= 0) by (nonlinear_arith)
                    requires
                        -0x1000_0000 <= dr as int <= 0x1000_0000,
                        -0x1000_0000 <= di as int <= 0x1000_0000,
                ;
            }
            let sq: i128 = (dr as i128) * (dr as i128) + (di as i128) * (di as i128);
            let d: u64 = isqrt(sq as u128);
            proof {
                assert(d as int == dist_spec(z, z2));
                crate::fixed::lemma_floor_sqrt((sq as u128) as nat, d as nat);
                assert(d as int * d as int <= sq as int);
                assert(d <= 0x40_0000_0000) by (nonlinear_arith)
                    requires
                        d as int * d as int <= 0x1000_0000_0000_0000_0000,
                        d >= 0,
                ;
            }
            d
        } else {
            65536
        };
        value = value + inc;
        if value > EVAL_CAP {
            value = EVAL_CAP;
        }
        iterations = iterations + 1;
        remaining = remaining - 1;
        z = z2;
    }
    Evaluation { value, iterations }
}

/// How a pixel is colored: by a sentinel or through the color formulas.
#[derive(Clone, Copy, Debug, PartialEq, Eq, Structural)]
pub enum PixelClass {
    /// Immediate escape: the configured background color.
    Background,
    /// The iteration cap was exhausted: the configured foreground color.
    Foreground,
    /// An ordinary escape: the color formulas decide.
    Colored,
}

/// Sentinel classification of an evaluation.
///
/// A zero escape value is the immediate-escape sentinel; a point whose
/// step count reached the cap never escaped.  The cap test is on the step
/// count in both measurement modes: that is this library's resolution of
/// the count-against-distance unit mismatch.
pub open spec fn classify_spec(value: int, iterations: int, max_i: int) -> PixelClass {
    if value == 0 {
        PixelClass::Background
    } else if iterations == max_i {
        PixelClass::Foreground
    } else {
        PixelClass::Colored
    }
}

/// Classifies an evaluation against the iteration cap.
pub fn classify(e: &Evaluation, max_i: u64) -> (r: PixelClass)
    ensures
        r == classify_spec(e.value as int, e.iterations as int, max_i as int),
{
    if e.value == 0 {
        PixelClass::Background
    } else if e.iterations == max_i {
        PixelClass::Foreground
    } else {
        PixelClass::Colored
    }
}

/// With an iteration cap of zero every point is the immediate-escape
/// sentinel: the whole image is the background color.
pub proof fn lemma_zero_cap_is_background(
    k: GeneratorKind,
    c: Complex,
    z0: Complex,
    travel: bool,
)
    ensures
        classify_spec(
            eval_from(k, c, z0, 0, 0, 0, travel).0,
            eval_from(k, c, z0, 0, 0, 0, travel).1,
            0,
        ) == PixelClass::Background,
{
}

} // verus!
