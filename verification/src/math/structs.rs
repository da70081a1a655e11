//! Fixed-point complex numbers.
//!
//! Components are fixed-point scalars (see `crate::fixed`), so complex
//! arithmetic is exact integer arithmetic with proved overflow bounds.

use vstd::prelude::*;

use crate::fixed::FIX_ONE;
use crate::fixed::fix_mul;
use crate::fixed::fix_mul_spec;

verus! {

/// Magnitude bound on each component of an iterated point before a formula
/// step: points further out have already escaped.
pub const Z_BOUND: i64 = 131072;

/// Magnitude bound on each component of the per-run constant `c`.
pub const C_BOUND: i64 = 0x400_0000;

/// Magnitude bound on each component of a formula step's result.
pub const STEP_BOUND: i64 = 0x800_0000;

/// A complex number with fixed-point components.
#[derive(Clone, Copy, Debug, PartialEq, Eq, Structural)]
pub struct Complex {
    pub real: i64,
    pub imaginary: i64,
}

/// Both components have magnitude at most `b`.
pub open spec fn in_range(z: Complex, b: int) -> bool {
    -b <= z.real as int <= b && -b <= z.imaginary as int <= b
}

/// Componentwise sum.
pub open spec fn complex_add_spec(a: Complex, b: Complex) -> Complex {
    Complex {
        real: (a.real as int + b.real as int) as i64,
        imaginary: (a.imaginary as int + b.imaginary as int) as i64,
    }
}

/// Componentwise difference.
pub open spec fn complex_sub_spec(a: Complex, b: Complex) -> Complex {
    Complex {
        real: (a.real as int - b.real as int) as i64,
        imaginary: (a.imaginary as int - b.imaginary as int) as i64,
    }
}

/// Fixed-point complex product.
pub open spec fn complex_mul_spec(a: Complex, b: Complex) -> Complex {
    Complex {
        real: (fix_mul_spec(a.real as int, b.real as int) - fix_mul_spec(
            a.imaginary as int,
            b.imaginary as int,
        )) as i64,
        imaginary: (fix_mul_spec(a.real as int, b.imaginary as int) + fix_mul_spec(
            a.imaginary as int,
            b.real as int,
        )) as i64,
    }
}

/// A fixed-point complex product of points bounded by `m` is bounded
/// componentwise by `2 * m * m / FIX_ONE`.
pub proof fn lemma_complex_mul_bound(a: Complex, b: Complex, m: int)
    requires
        in_range(a, m),
        in_range(b, m),
        0 <= m <= 0x8000_0000,
    ensures
        in_range(complex_mul_spec(a, b), 2 * ((m * m) / (FIX_ONE as int))),
{
    crate::fixed::lemma_fix_mul_bound(a.real as int, b.real as int, m, m);
    crate::fixed::lemma_fix_mul_bound(a.imaginary as int, b.imaginary as int, m, m);
    crate::fixed::lemma_fix_mul_bound(a.real as int, b.imaginary as int, m, m);
    crate::fixed::lemma_fix_mul_bound(a.imaginary as int, b.real as int, m, m);
    assert(m * m <= 0x4000_0000_0000_0000) by (nonlinear_arith)
        requires
            0 <= m <= 0x8000_0000,
    ;
    vstd::arithmetic::div_mod::lemma_div_is_ordered(
        m * m,
        0x4000_0000_0000_0000,
        FIX_ONE as int,
    );
    vstd::arithmetic::div_mod::lemma_div_pos_is_pos(m * m, FIX_ONE as int);
}

/// The squared magnitude of `z` exceeds `t` squared.
pub open spec fn is_greater_spec(z: Complex, t: int) -> bool {
    z.real as int * z.real as int + z.imaginary as int * z.imaginary as int > t * t
}

impl Complex {
    /// Componentwise sum of two bounded points.
    pub fn plus(self, other: Complex) -> (r: Complex)
        requires
            in_range(self, 0x1000_0000_0000_0000),
            in_range(other, 0x1000_0000_0000_0000),
        ensures
            r == complex_add_spec(self, other),
    {
        Complex { real: self.real + other.real, imaginary: self.imaginary + other.imaginary }
    }

    /// Componentwise difference of two bounded points.
    pub fn minus(self, other: Complex) -> (r: Complex)
        requires
            in_range(self, 0x1000_0000_0000_0000),
            in_range(other, 0x1000_0000_0000_0000),
        ensures
            r == complex_sub_spec(self, other),
    {
        Complex { real: self.real - other.real, imaginary: self.imaginary - other.imaginary }
    }

    /// Fixed-point complex product of two bounded points.
    pub fn times(self, other: Complex) -> (r: Complex)
        requires
            in_range(self, 0x8000_0000),
            in_range(other, 0x8000_0000),
        ensures
            r == complex_mul_spec(self, other),
    {
        proof {
            crate::fixed::lemma_fix_mul_bound(self.real as int, other.real as int, 0x8000_0000, 0x8000_0000);
            crate::fixed::lemma_fix_mul_bound(
                self.imaginary as int,
                other.imaginary as int,
                0x8000_0000,
                0x8000_0000,
            );
            crate::fixed::lemma_fix_mul_bound(
                self.real as int,
                other.imaginary as int,
                0x8000_0000,
                0x8000_0000,
            );
            crate::fixed::lemma_fix_mul_bound(
                self.imaginary as int,
                other.real as int,
                0x8000_0000,
                0x8000_0000,
            );
        }
        Complex {
            real: fix_mul(self.real, other.real) - fix_mul(self.imaginary, other.imaginary),
            imaginary: fix_mul(self.real, other.imaginary) + fix_mul(self.imaginary, other.real),
        }
    }

    /// Whether the magnitude of `self` exceeds the scalar `other`:
    /// the escape test of the evaluator.
    pub fn is_greater(self, other: i64) -> (r: bool)
        requires
            in_range(self, 0x1_0000_0000),
            -0x1_0000_0000 <= other as int <= 0x1_0000_0000,
        ensures
            r == is_greater_spec(self, other as int),
    {
        proof {
            assert(self.real as int * self.real as int <= 0x1_0000_0000_0000_0000
                && self.imaginary as int * self.imaginary as int <= 0x1_0000_0000_0000_0000
                && other as int * other as int <= 0x1_0000_0000_0000_0000
                && self.real as int * self.real as int >= 0
                && self.imaginary as int * self.imaginary as int >= 0
                && other as int * other as int >= 0) by (nonlinear_arith)
                requires
                    -0x1_0000_0000 <= self.real as int <= 0x1_0000_0000,
                    -0x1_0000_0000 <= self.imaginary as int <= 0x1_0000_0000,
                    -0x1_0000_0000 <= other as int <= 0x1_0000_0000,
            ;
        }
        let rr: i128 = (self.real as i128) * (self.real as i128);
        let ii: i128 = (self.imaginary as i128) * (self.imaginary as i128);
        let tt: i128 = (other as i128) * (other as i128);
        rr + ii > tt
    }
}

} // verus!
