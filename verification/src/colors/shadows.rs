//! Shadow formulas: map an escape value to a luminance in `[0, 1]`.

use vstd::prelude::*;
use vstd::string::StringExecFns;

use crate::error::ConfigError;
use crate::eval::EVAL_CAP;
use crate::fixed::FIX_ONE;
use crate::fixed::cos_deg;
use crate::fixed::cos_deg_spec;
use crate::fixed::emod;
use crate::fixed::fix_mul;
use crate::fixed::fix_mul_spec;
use crate::fixed::lemma_fix_mul_bound;
use crate::str_eq;

verus! {

/// One fixed-point turn of the radian circle.
pub const TWO_PI_FIX: u64 = 411775;

/// Fixed-point degrees per radian.
pub const RAD_TO_DEG_FIX: i64 = 3754936;

/// Which shadow formula a run uses.
#[derive(Clone, Copy, Debug, PartialEq, Eq, Structural)]
pub enum ShadowKind {
    /// Constant full luminance.
    Uniform,
    /// Slight cosine variance around a bright base.
    Minimal,
    /// Sawtooth luminance from the escape value's remainder.
    Modulus,
}

/// Registry alias of a shadow formula.
pub open spec fn shadow_alias(k: ShadowKind) -> Seq<char> {
    match k {
        ShadowKind::Uniform => "NONE"@,
        ShadowKind::Minimal => "MINIMAL"@,
        ShadowKind::Modulus => "MODULUS"@,
    }
}

/// Human-readable description of a shadow formula.
pub open spec fn shadow_description(k: ShadowKind) -> Seq<char> {
    match k {
        ShadowKind::Uniform => "\tDoesn't change values, sets all lightness values to '1'"@,
        ShadowKind::Minimal => "Adds slight variance to values based on cos wave"@,
        ShadowKind::Modulus => "Adds significant variance using a sawtooth wave"@,
    }
}

/// Kernel source fragment of a shadow formula.
pub open spec fn shadow_kernel(k: ShadowKind) -> Seq<char> {
    match k {
        ShadowKind::Uniform => "return 1.0;"@,
        ShadowKind::Minimal => "return 0.125 * cos(n * 9.0) + 0.815;"@,
        ShadowKind::Modulus => "\n        float modulus_value = 3.0;\n        return 1.0 - (mod(n, modulus_value) / modulus_value);\n        "@,
    }
}

/// The luminance a shadow formula assigns to escape value `n`; always in
/// `[0, FIX_ONE]`.
pub open spec fn shadow_value_spec(k: ShadowKind, n: int) -> int {
    match k {
        ShadowKind::Uniform => FIX_ONE as int,
        ShadowKind::Minimal => fix_mul_spec(
            cos_deg_spec(
                fix_mul_spec(
                    fix_mul_spec(n, 9 * FIX_ONE as int) % (TWO_PI_FIX as int),
                    RAD_TO_DEG_FIX as int,
                ) % (360 * FIX_ONE as int),
            ),
            8192,
        ) + 53411,
        ShadowKind::Modulus => FIX_ONE as int - (n % (3 * FIX_ONE as int)) / 3,
    }
}

/// Computes the luminance a shadow formula assigns to an escape value.
pub fn shadow_value(k: ShadowKind, n: u64) -> (r: i64)
    requires
        n <= EVAL_CAP,
    ensures
        r == shadow_value_spec(k, n as int),
        0 <= r <= FIX_ONE,
{
    match k {
        ShadowKind::Uniform => FIX_ONE,
        ShadowKind::Minimal => {
            proof {
                lemma_fix_mul_bound(n as int, 9 * FIX_ONE as int, EVAL_CAP as int, 9 * FIX_ONE as int);
            }
            let t: i64 = fix_mul(n as i64, 9 * FIX_ONE);
            let tr: u64 = emod(t, TWO_PI_FIX);
            proof {
                lemma_fix_mul_bound(tr as int, RAD_TO_DEG_FIX as int, TWO_PI_FIX as int, RAD_TO_DEG_FIX as int);
            }
            let deg_raw: i64 = fix_mul(tr as i64, RAD_TO_DEG_FIX);
            let deg: u64 = emod(deg_raw, 360 * 65536);
            let c: i64 = cos_deg(deg);
            proof {
                lemma_fix_mul_bound(c as int, 8192, FIX_ONE as int, 8192);
            }
            fix_mul(c, 8192) + 53411
        },
        ShadowKind::Modulus => {
            let m: u64 = n % 196608;
            proof {
                vstd::arithmetic::div_mod::lemma_mod_pos_bound(n as int, 196608);
                vstd::arithmetic::div_mod::lemma_div_pos_is_pos(m as int, 3);
                vstd::arithmetic::div_mod::lemma_div_is_ordered(m as int, 196607, 3);
            }
            FIX_ONE - ((m / 3) as i64)
        },
    }
}

/// A pluggable shadow formula: a registry entry bundling the computation
/// with its alias, description and kernel fragment.
pub trait Shadows {
    /// Which catalog entry this formula is.
    spec fn kind(&self) -> ShadowKind;

    /// The alias under which the registry finds the formula.
    fn get_alias(&self) -> (r: String)
        ensures
            r@ == shadow_alias(self.kind()),
    ;

    /// A one-line description for the registry catalog.
    fn get_description(&self) -> (r: String)
        ensures
            r@ == shadow_description(self.kind()),
    ;

    /// The luminance assigned to escape value `n`.
    fn method(&self, n: u64) -> (r: i64)
        requires
            n <= EVAL_CAP,
        ensures
            r == shadow_value_spec(self.kind(), n as int),
            0 <= r <= FIX_ONE,
    ;

    /// The kernel source fragment computing the luminance.
    fn gpu_method(&self) -> (r: String)
        ensures
            r@ == shadow_kernel(self.kind()),
    ;
}

/// Constant full luminance.
pub struct NONE {}

impl Shadows for NONE {
    open spec fn kind(&self) -> ShadowKind {
        ShadowKind::Uniform
    }

    fn get_alias(&self) -> (r: String) {
        String::from_str("NONE")
    }

    fn get_description(&self) -> (r: String) {
        String::from_str("\tDoesn't change values, sets all lightness values to '1'")
    }

    fn method(&self, n: u64) -> (r: i64) {
        shadow_value(ShadowKind::Uniform, n)
    }

    fn gpu_method(&self) -> (r: String) {
        String::from_str("return 1.0;")
    }
}

/// Slight cosine variance around a bright base.
pub struct MINIMAL {}

impl Shadows for MINIMAL {
    open spec fn kind(&self) -> ShadowKind {
        ShadowKind::Minimal
    }

    fn get_alias(&self) -> (r: String) {
        String::from_str("MINIMAL")
    }

    fn get_description(&self) -> (r: String) {
        String::from_str("Adds slight variance to values based on cos wave")
    }

    fn method(&self, n: u64) -> (r: i64) {
        shadow_value(ShadowKind::Minimal, n)
    }

    fn gpu_method(&self) -> (r: String) {
        String::from_str("return 0.125 * cos(n * 9.0) + 0.815;")
    }
}

/// Sawtooth luminance from the escape value's remainder.
pub struct MODULUS {}

impl Shadows for MODULUS {
    open spec fn kind(&self) -> ShadowKind {
        ShadowKind::Modulus
    }

    fn get_alias(&self) -> (r: String) {
        String::from_str("MODULUS")
    }

    fn get_description(&self) -> (r: String) {
        String::from_str("Adds significant variance using a sawtooth wave")
    }

    fn method(&self, n: u64) -> (r: i64) {
        shadow_value(ShadowKind::Modulus, n)
    }

    fn gpu_method(&self) -> (r: String) {
        String::from_str(
            "\n        float modulus_value = 3.0;\n        return 1.0 - (mod(n, modulus_value) / modulus_value);\n        ",
        )
    }
}

/// The kernel source fragment of the selected shadow formula.
pub fn shadow_kernel_fragment(k: ShadowKind) -> (r: String)
    ensures
        r@ == shadow_kernel(k),
{
    match k {
        ShadowKind::Uniform => NONE {}.gpu_method(),
        ShadowKind::Minimal => MINIMAL {}.gpu_method(),
        ShadowKind::Modulus => MODULUS {}.gpu_method(),
    }
}

/// The registry lookup as a function of the queried name.
pub open spec fn shadow_lookup(s: Seq<char>) -> Result<ShadowKind, ConfigError> {
    if s == shadow_alias(ShadowKind::Uniform) {
        Ok(ShadowKind::Uniform)
    } else if s == shadow_alias(ShadowKind::Minimal) {
        Ok(ShadowKind::Minimal)
    } else if s == shadow_alias(ShadowKind::Modulus) {
        Ok(ShadowKind::Modulus)
    } else {
        Err(ConfigError::UnknownShadow)
    }
}

/// Resolves a shadow formula name; unknown names are a configuration
/// error, never a crash.
pub fn get_shadow(shadow: &str) -> (r: Result<ShadowKind, ConfigError>)
    ensures
        r == shadow_lookup(shadow@),
{
    if str_eq(shadow, "NONE") {
        Ok(ShadowKind::Uniform)
    } else if str_eq(shadow, "MINIMAL") {
        Ok(ShadowKind::Minimal)
    } else if str_eq(shadow, "MODULUS") {
        Ok(ShadowKind::Modulus)
    } else {
        Err(ConfigError::UnknownShadow)
    }
}

/// The catalog text enumerating every shadow formula alias with its
/// description.
pub open spec fn shadow_catalog_spec() -> Seq<char> {
    "  "@ + shadow_alias(ShadowKind::Uniform) + "\t"@ + shadow_description(ShadowKind::Uniform) + "\n  "@
        + shadow_alias(ShadowKind::Minimal) + "\t"@ + shadow_description(ShadowKind::Minimal)
        + "\n  "@ + shadow_alias(ShadowKind::Modulus) + "\t"@ + shadow_description(
        ShadowKind::Modulus,
    )
}

/// Builds the human-readable catalog of valid shadow formula names.
pub fn shadow_catalog() -> (r: String)
    ensures
        r@ == shadow_catalog_spec(),
{
    let mut out = String::from_str("  ");
    out.append(NONE {}.get_alias().as_str());
    out.append("\t");
    out.append(NONE {}.get_description().as_str());
    out.append("\n  ");
    out.append(MINIMAL {}.get_alias().as_str());
    out.append("\t");
    out.append(MINIMAL {}.get_description().as_str());
    out.append("\n  ");
    out.append(MODULUS {}.get_alias().as_str());
    out.append("\t");
    out.append(MODULUS {}.get_description().as_str());
    out
}

} // verus!
