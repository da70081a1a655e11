//! The color profile: sentinel colors and HSV-style hue/value resolution
//! into RGBA pixel bytes.

use vstd::prelude::*;

use crate::fixed::FIX_ONE;
use crate::fixed::fix_mul;
use crate::fixed::fix_mul_spec;
use crate::fixed::fix_to_byte;
use crate::fixed::fix_to_byte_spec;
use crate::fixed::lemma_fix_mul_bound;
use crate::structs::Config;
use crate::structs::Rgba;

verus! {

/// The three color channels of a hue at full saturation: sector and
/// in-sector fraction decide which channels carry the value.
pub open spec fn hsv_channels_spec(h: int, v: int) -> (int, int, int) {
    let k = h / (60 * FIX_ONE as int);
    let f = (h % (60 * FIX_ONE as int)) / 60;
    let x1 = fix_mul_spec(v, f);
    let x2 = fix_mul_spec(v, FIX_ONE as int - f);
    if k == 0 {
        (v, x1, 0)
    } else if k == 1 {
        (x2, v, 0)
    } else if k == 2 {
        (0, v, x1)
    } else if k == 3 {
        (0, x2, v)
    } else if k == 4 {
        (x1, 0, v)
    } else {
        (v, 0, x2)
    }
}

/// The RGBA bytes of a resolved hue/value pair, alpha fully opaque.
pub open spec fn hsv_rgba_spec(h: int, v: int) -> Seq<u8> {
    let c = hsv_channels_spec(h, v);
    seq![
        fix_to_byte_spec(c.0) as u8,
        fix_to_byte_spec(c.1) as u8,
        fix_to_byte_spec(c.2) as u8,
        255u8,
    ]
}

/// The unit-interval channel products stay in the unit interval.
proof fn lemma_hsv_products_in_unit(v: int, f: int)
    requires
        0 <= v <= FIX_ONE as int,
        0 <= f < FIX_ONE as int,
    ensures
        0 <= fix_mul_spec(v, f) <= FIX_ONE as int,
        0 <= fix_mul_spec(v, FIX_ONE as int - f) <= FIX_ONE as int,
{
    lemma_fix_mul_bound(v, f, FIX_ONE as int, FIX_ONE as int);
    lemma_fix_mul_bound(v, FIX_ONE as int - f, FIX_ONE as int, FIX_ONE as int);
    assert(v * f >= 0 && v * (FIX_ONE as int - f) >= 0) by (nonlinear_arith)
        requires
            0 <= v,
            0 <= f < FIX_ONE as int,
    ;
    vstd::arithmetic::div_mod::lemma_div_pos_is_pos(v * f, FIX_ONE as int);
    vstd::arithmetic::div_mod::lemma_div_pos_is_pos(v * (FIX_ONE as int - f), FIX_ONE as int);
}

/// A color profile resolving hue and luminance into RGBA bytes, with the
/// run's sentinel colors.
pub struct RgbProfile {
    /// Sentinel bytes of points that never escape.
    pub foreground: Vec<u8>,
    /// Sentinel bytes of immediate escapes.
    pub background: Vec<u8>,
}

/// A color profile: the run's sentinel colors, and the resolution of a
/// hue/value pair into pixel bytes.
pub trait ColorProfile {
    /// The sentinel bytes of points that never escape.
    spec fn fg_spec(&self) -> Seq<u8>;

    /// The sentinel bytes of immediate escapes.
    spec fn bg_spec(&self) -> Seq<u8>;

    /// The sentinel bytes of points that never escape.
    fn get_foreground(&self) -> (r: &Vec<u8>)
        ensures
            r@ == self.fg_spec(),
    ;

    /// The sentinel bytes of immediate escapes.
    fn get_background(&self) -> (r: &Vec<u8>)
        ensures
            r@ == self.bg_spec(),
    ;

    /// Resolves a hue (fixed-point degrees below 360) and a luminance
    /// (unit interval) into four RGBA bytes at full saturation.
    fn method(&self, hue: u64, value: i64) -> (r: Vec<u8>)
        requires
            hue < 360 * FIX_ONE as u64,
            0 <= value <= FIX_ONE,
        ensures
            r@ == hsv_rgba_spec(hue as int, value as int),
    ;
}

impl ColorProfile for RgbProfile {
    open spec fn fg_spec(&self) -> Seq<u8> {
        self.foreground@
    }

    open spec fn bg_spec(&self) -> Seq<u8> {
        self.background@
    }

    fn get_foreground(&self) -> (r: &Vec<u8>) {
        &self.foreground
    }

    fn get_background(&self) -> (r: &Vec<u8>) {
        &self.background
    }

    fn method(&self, hue: u64, value: i64) -> (r: Vec<u8>) {
        let k: u64 = hue / (60 * 65536);
        let f: i64 = ((hue % (60 * 65536)) / 60) as i64;
        proof {
            vstd::arithmetic::div_mod::lemma_mod_pos_bound(hue as int, 60 * FIX_ONE as int);
            vstd::arithmetic::div_mod::lemma_div_is_ordered(
                hue as int % (60 * FIX_ONE as int),
                60 * FIX_ONE as int - 1,
                60,
            );
            lemma_hsv_products_in_unit(value as int, f as int);
        }
        let x1: i64 = fix_mul(value, f);
        let x2: i64 = fix_mul(value, FIX_ONE - f);
        let (cr, cg, cb): (i64, i64, i64) = if k == 0 {
            (value, x1, 0)
        } else if k == 1 {
            (x2, value, 0)
        } else if k == 2 {
            (0, value, x1)
        } else if k == 3 {
            (0, x2, value)
        } else if k == 4 {
            (x1, 0, value)
        } else {
            (value, 0, x2)
        };
        let mut out: Vec<u8> = Vec::new();
        out.push(fix_to_byte(cr));
        out.push(fix_to_byte(cg));
        out.push(fix_to_byte(cb));
        out.push(255);
        proof {
            assert(out@ =~= hsv_rgba_spec(hue as int, value as int));
        }
        out
    }
}

/// Builds the run's color profile from its configured sentinel colors.
pub fn get_profile(config: &Config) -> (r: RgbProfile)
    ensures
        r.background@ == seq![
            config.background.r,
            config.background.g,
            config.background.b,
            config.background.a,
        ],
        r.foreground@ == seq![
            config.foreground.r,
            config.foreground.g,
            config.foreground.b,
            config.foreground.a,
        ],
{
    let background: Vec<u8> = vec![
        config.background.r,
        config.background.g,
        config.background.b,
        config.background.a,
    ];
    let foreground: Vec<u8> = vec![
        config.foreground.r,
        config.foreground.g,
        config.foreground.b,
        config.foreground.a,
    ];
    RgbProfile { background, foreground }
}

} // verus!
