//! Fixed-point scalar arithmetic.
//!
//! Every fractional quantity of the renderer (complex coordinates, escape
//! values, hue degrees, luminance) is a signed 64-bit integer scaled by
//! `FIX_ONE`.  The arithmetic here is the single, exactly specified number
//! system of the library: it is deterministic on every machine, and every
//! operation is proved equal to its specification.

use vstd::prelude::*;
use vstd::arithmetic::mul::lemma_mul_inequality;
use vstd::arithmetic::div_mod::lemma_div_is_ordered;

verus! {

/// The fixed-point scale: the representation of 1.0.
pub const FIX_ONE: i64 = 65536;

/// Largest magnitude an argument of `fix_mul` may have.
pub const FIX_ARG_BOUND: i64 = 0x80_0000_0000;

/// Truncating fixed-point product: `a * b / FIX_ONE`, rounded toward zero.
pub open spec fn fix_mul_spec(a: int, b: int) -> int {
    if a * b >= 0 {
        (a * b) / (FIX_ONE as int)
    } else {
        -((-(a * b)) / (FIX_ONE as int))
    }
}

/// Fixed-point product of two bounded scalars.
pub fn fix_mul(a: i64, b: i64) -> (r: i64)
    requires
        -FIX_ARG_BOUND <= a <= FIX_ARG_BOUND,
        -FIX_ARG_BOUND <= b <= FIX_ARG_BOUND,
    ensures
        r == fix_mul_spec(a as int, b as int),
{
    let am: u64 = if a < 0 {
        (-a) as u64
    } else {
        a as u64
    };
    let bm: u64 = if b < 0 {
        (-b) as u64
    } else {
        b as u64
    };
    proof {
        assert((am as int) * (bm as int) <= FIX_ARG_BOUND as int * FIX_ARG_BOUND as int) by {
            lemma_mul_inequality(am as int, FIX_ARG_BOUND as int, bm as int);
            lemma_mul_inequality(bm as int, FIX_ARG_BOUND as int, FIX_ARG_BOUND as int);
        }
    }
    let p: u128 = (am as u128) * (bm as u128);
    let q: u128 = p / 65536;
    proof {
        assert(q <= p) by {
            vstd::arithmetic::div_mod::lemma_div_nonincreasing(p as int, 65536);
        }
        // The magnitude product is the magnitude of the product, and the
        // signs of the factors decide the sign of the product.
        assert((p as int == if a as int * b as int >= 0 {
            a as int * b as int
        } else {
            -(a as int * b as int)
        }) && (((a < 0) != (b < 0)) ==> a as int * b as int <= 0) && (((a < 0) == (b < 0))
            ==> a as int * b as int >= 0)) by (nonlinear_arith)
            requires
                am as int == if a < 0 {
                    -(a as int)
                } else {
                    a as int
                },
                bm as int == if b < 0 {
                    -(b as int)
                } else {
                    b as int
                },
                p as int == (am as int) * (bm as int),
        ;
    }
    if (a < 0) != (b < 0) {
        proof {
            if a as int * b as int == 0 {
                assert(p == 0);
                assert(q == 0);
            }
        }
        -(q as i64)
    } else {
        q as i64
    }
}

/// The fixed-point product of scalars of magnitudes at most `ma` and `mb`
/// has magnitude at most `ma * mb / FIX_ONE`.
pub proof fn lemma_fix_mul_bound(a: int, b: int, ma: int, mb: int)
    requires
        -ma <= a <= ma,
        -mb <= b <= mb,
    ensures
        -((ma * mb) / (FIX_ONE as int)) <= fix_mul_spec(a, b) <= (ma * mb) / (FIX_ONE as int),
{
    assert(-(ma * mb) <= a * b <= ma * mb && 0 <= ma * mb) by (nonlinear_arith)
        requires
            -ma <= a <= ma,
            -mb <= b <= mb,
    ;
    vstd::arithmetic::div_mod::lemma_div_pos_is_pos(ma * mb, FIX_ONE as int);
    if a * b >= 0 {
        lemma_div_is_ordered(a * b, ma * mb, FIX_ONE as int);
        vstd::arithmetic::div_mod::lemma_div_pos_is_pos(a * b, FIX_ONE as int);
    } else {
        lemma_div_is_ordered(-(a * b), ma * mb, FIX_ONE as int);
        vstd::arithmetic::div_mod::lemma_div_pos_is_pos(-(a * b), FIX_ONE as int);
    }
}

/// Scale a fixed-point value in `[0, FIX_ONE]` to a byte in `[0, 255]`.
pub open spec fn fix_to_byte_spec(x: int) -> int {
    (x * 255) / (FIX_ONE as int)
}

/// Byte channel value of a unit-interval fixed-point scalar.
pub fn fix_to_byte(x: i64) -> (r: u8)
    requires
        0 <= x <= FIX_ONE,
    ensures
        r == fix_to_byte_spec(x as int),
{
    proof {
        lemma_div_is_ordered(x as int * 255, FIX_ONE as int * 255, FIX_ONE as int);
    }
    ((x as u64 * 255) / 65536) as u8
}

/// Euclidean remainder of a fixed-point scalar: the result is always in
/// `[0, m)`, also for negative input.
pub fn emod(x: i64, m: u64) -> (r: u64)
    requires
        1 <= m <= 0x7FFF_FFFF_FFFF_FFFF,
        x > i64::MIN,
    ensures
        r as int == (x as int) % (m as int),
        r < m,
{
    if x >= 0 {
        proof {
            vstd::arithmetic::div_mod::lemma_mod_pos_bound(x as int, m as int);
        }
        (x as u64) % m
    } else {
        let y: u64 = (-x) as u64;
        let ym: u64 = y % m;
        proof {
            vstd::arithmetic::div_mod::lemma_fundamental_div_mod(y as int, m as int);
            let q = y as int / m as int;
            assert((m as int) * (-q) == -((m as int) * q) && (m as int) * (-q - 1) == -((
            m as int) * q) - (m as int)) by (nonlinear_arith);
            if ym == 0 {
                vstd::arithmetic::div_mod::lemma_mod_multiples_vanish(-q, 0, m as int);
                assert(x as int == (m as int) * (-q) + 0);
            } else {
                vstd::arithmetic::div_mod::lemma_mod_multiples_vanish(
                    -q - 1,
                    m as int - ym as int,
                    m as int,
                );
                assert(x as int == (m as int) * (-q - 1) + (m as int - ym as int));
                vstd::arithmetic::div_mod::lemma_small_mod((m - ym) as nat, m as nat);
            }
        }
        if ym == 0 {
            0
        } else {
            m - ym
        }
    }
}

/// `r` is the integer square root of `n`.
pub open spec fn sqrt_bounds(n: int, r: int) -> bool {
    0 <= r && r * r <= n && n < (r + 1) * (r + 1)
}

/// Largest candidate not above `cand` whose square is at most `n`.
pub open spec fn sqrt_below(n: int, cand: nat) -> nat
    decreases cand,
{
    if cand * cand <= n {
        cand
    } else if cand == 0 {
        0nat
    } else {
        sqrt_below(n, (cand - 1) as nat)
    }
}

/// Integer square root, as a specification-level function.
pub open spec fn floor_sqrt(n: nat) -> nat {
    sqrt_below(n as int, n)
}

/// Any value meeting `sqrt_bounds` is what `sqrt_below` finds, from any
/// starting candidate at or above it.
proof fn lemma_sqrt_below_finds(n: int, cand: nat, r: nat)
    requires
        sqrt_bounds(n, r as int),
        cand >= r,
    ensures
        sqrt_below(n, cand) == r,
    decreases cand,
{
    if cand * cand <= n {
        if cand > r {
            assert((r + 1) * (r + 1) <= cand as int * cand as int) by {
                lemma_mul_inequality(r as int + 1, cand as int, r as int + 1);
                lemma_mul_inequality(r as int + 1, cand as int, cand as int);
            }
            assert(false);
        }
    } else {
        assert(cand != r);
        lemma_sqrt_below_finds(n, (cand - 1) as nat, r);
    }
}

/// The integer square root characterizes `floor_sqrt`.
pub proof fn lemma_floor_sqrt(n: nat, r: nat)
    requires
        sqrt_bounds(n as int, r as int),
    ensures
        floor_sqrt(n) == r,
{
    assert(r <= n) by {
        if r > n {
            lemma_mul_inequality(1, r as int, r as int);
        }
    }
    lemma_sqrt_below_finds(n as int, n, r);
}

/// Integer square root by bisection.
pub fn isqrt(n: u128) -> (r: u64)
    requires
        n < 0x1_0000_0000_0000_0000_0000,  // 2^80
    ensures
        r == floor_sqrt(n as nat),
        sqrt_bounds(n as int, r as int),
{
    let mut lo: u64 = 0;
    let mut hi: u64 = 0x200_0000_0000;  // 2^41: its square exceeds the input bound
    proof {
        assert((hi as int) * (hi as int) > n as int) by (nonlinear_arith)
            requires
                hi == 0x200_0000_0000u64,
                n < 0x1_0000_0000_0000_0000_0000u128,
        ;
    }
    while hi - lo > 1
        invariant
            lo < hi,
            hi <= 0x200_0000_0000u64,
            (lo as int) * (lo as int) <= n as int,
            (n as int) < (hi as int) * (hi as int),
        decreases hi - lo,
    {
        let mid: u64 = lo + (hi - lo) / 2;
        proof {
            lemma_mul_inequality(mid as int, 0x200_0000_0000, mid as int);
            lemma_mul_inequality(mid as int, 0x200_0000_0000, 0x200_0000_0000);
        }
        if (mid as u128) * (mid as u128) <= n {
            lo = mid;
        } else {
            hi = mid;
        }
    }
    proof {
        lemma_floor_sqrt(n as nat, lo as nat);
    }
    lo
}

/// Bhaskara-style rational approximation of the sine of `u` fixed-point
/// degrees, for `u` in `[0, 180 * FIX_ONE]`; the result lies in
/// `[0, FIX_ONE]`.
pub open spec fn sin_deg_spec(u: int) -> int {
    let t = fix_mul_spec(u, 180 * FIX_ONE as int - u);
    (4 * t * FIX_ONE as int) / (40500 * FIX_ONE as int - t)
}

/// Sine of an angle in fixed-point degrees, by rational approximation.
pub fn sin_deg(u: i64) -> (r: i64)
    requires
        0 <= u <= 180 * FIX_ONE,
    ensures
        r == sin_deg_spec(u as int),
        0 <= r <= FIX_ONE,
{
    let t: i64 = fix_mul(u, 180 * FIX_ONE - u);
    proof {
        assert(0 <= t as int <= 8100 * FIX_ONE as int) by (nonlinear_arith)
            requires
                t as int == fix_mul_spec(u as int, 180 * FIX_ONE as int - u as int),
                0 <= u as int <= 180 * FIX_ONE as int,
                FIX_ONE == 65536i64,
        ;
    }
    let num: u64 = 4 * (t as u64) * 65536;
    let den: u64 = 40500 * 65536 - (t as u64);
    let r: u64 = num / den;
    proof {
        assert(r as int * den as int <= num as int && 0 <= r as int <= FIX_ONE as int) by (
        nonlinear_arith)
            requires
                den as int == 40500 * FIX_ONE as int - t as int,
                num as int == 4 * (t as int) * FIX_ONE as int,
                r as int == num as int / den as int,
                0 <= t as int <= 8100 * FIX_ONE as int,
                FIX_ONE == 65536i64,
        ;
    }
    r as i64
}

/// Cosine of an angle in fixed-point degrees, for angles in
/// `[0, 360 * FIX_ONE)`, folded onto the sine approximation.
pub open spec fn cos_deg_spec(d: int) -> int {
    if d <= 90 * FIX_ONE as int {
        sin_deg_spec(90 * FIX_ONE as int - d)
    } else if d <= 270 * FIX_ONE as int {
        -sin_deg_spec(d - 90 * FIX_ONE as int)
    } else {
        sin_deg_spec(d - 270 * FIX_ONE as int)
    }
}

/// Cosine of a fixed-point degree angle; the result lies in
/// `[-FIX_ONE, FIX_ONE]`.
pub fn cos_deg(d: u64) -> (r: i64)
    requires
        d < 360 * FIX_ONE as u64,
    ensures
        r == cos_deg_spec(d as int),
        -FIX_ONE <= r <= FIX_ONE,
{
    if d <= 90 * 65536 {
        sin_deg(90 * 65536 - d as i64)
    } else if d <= 270 * 65536 {
        -sin_deg(d as i64 - 90 * 65536)
    } else {
        sin_deg(d as i64 - 270 * 65536)
    }
}

} // verus!
