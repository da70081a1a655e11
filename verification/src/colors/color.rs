//! Hue formulas: map an escape value to a hue angle in degrees.

use vstd::prelude::*;
use vstd::string::StringExecFns;

use crate::error::ConfigError;
use crate::eval::EVAL_CAP;
use crate::fixed::FIX_ONE;
use crate::fixed::cos_deg;
use crate::fixed::cos_deg_spec;
use crate::fixed::emod;
use crate::fixed::fix_mul;
use crate::fixed::fix_mul_spec;
use crate::fixed::lemma_fix_mul_bound;
use crate::str_eq;
use crate::structs::Config;
use crate::structs::RATE_BOUND;

verus! {

/// Which hue formula a run uses.
#[derive(Clone, Copy, Debug, PartialEq, Eq, Structural)]
pub enum ColorKind {
    /// Hue proportional to the escape value.
    Rotational,
    /// Hue oscillating between two fixed angles.
    Sinusoidal,
}

/// Registry alias of a hue formula.
pub open spec fn color_alias(k: ColorKind) -> Seq<char> {
    match k {
        ColorKind::Rotational => "ROTATIONAL"@,
        ColorKind::Sinusoidal => "SINUSOIDAL"@,
    }
}

/// Human-readable description of a hue formula.
pub open spec fn color_description(k: ColorKind) -> Seq<char> {
    match k {
        ColorKind::Rotational => "Simple rotational color based on iteration value"@,
        ColorKind::Sinusoidal => "Sinusoidal color values generated between set values"@,
    }
}

/// Kernel source fragment of a hue formula.
pub open spec fn color_kernel(k: ColorKind) -> Seq<char> {
    match k {
        ColorKind::Rotational => "return n;"@,
        ColorKind::Sinusoidal => "\n            float max_value = 277.0;\n            float min_value = 420.0;\n\n            return (max_value - min_value) * 0.5 * cos(n * 0.0174532925199) +\n                (max_value + min_value) * 0.5;\n        "@,
    }
}

/// The hue (in fixed-point degrees, not yet reduced modulo 360) a formula
/// assigns to escape value `n` at color-change rate `rate`.
pub open spec fn color_value_spec(k: ColorKind, n: int, rate: int) -> int {
    match k {
        ColorKind::Rotational => fix_mul_spec(n, rate),
        ColorKind::Sinusoidal => fix_mul_spec(
            -4685824,
            cos_deg_spec(fix_mul_spec(n, rate) % (360 * FIX_ONE as int)),
        ) + 22839296,
    }
}

/// Computes the hue a formula assigns to an escape value.
pub fn color_value(k: ColorKind, n: u64, rate: i64) -> (r: i64)
    requires
        n <= EVAL_CAP,
        -RATE_BOUND <= rate <= RATE_BOUND,
    ensures
        r == color_value_spec(k, n as int, rate as int),
        -0x1_0000_0000_0000 <= r <= 0x1_0000_0000_0000,
{
    proof {
        lemma_fix_mul_bound(n as int, rate as int, EVAL_CAP as int, RATE_BOUND as int);
    }
    match k {
        ColorKind::Rotational => fix_mul(n as i64, rate),
        ColorKind::Sinusoidal => {
            let t: i64 = fix_mul(n as i64, rate);
            let d: u64 = emod(t, 23592960);
            let c: i64 = cos_deg(d);
            proof {
                lemma_fix_mul_bound(-4685824, c as int, 4685824, FIX_ONE as int);
            }
            fix_mul(-4685824, c) + 22839296
        },
    }
}

/// A pluggable hue formula: a registry entry bundling the computation
/// with its alias, description and kernel fragment.
pub trait Colors {
    /// Which catalog entry this formula is.
    spec fn kind(&self) -> ColorKind;

    /// The alias under which the registry finds the formula.
    fn get_alias(&self) -> (r: String)
        ensures
            r@ == color_alias(self.kind()),
    ;

    /// A one-line description for the registry catalog.
    fn get_description(&self) -> (r: String)
        ensures
            r@ == color_description(self.kind()),
    ;

    /// The hue assigned to escape value `n` under `config`'s rate.
    fn method(&self, n: u64, config: &Config) -> (r: i64)
        requires
            n <= EVAL_CAP,
            config.wf(),
        ensures
            r == color_value_spec(self.kind(), n as int, config.rate_of_color_change as int),
    ;

    /// The kernel source fragment computing the hue.
    fn gpu_method(&self) -> (r: String)
        ensures
            r@ == color_kernel(self.kind()),
    ;
}

/// Hue proportional to the escape value.
struct ROTATIONAL {}

impl Colors for ROTATIONAL {
    open spec fn kind(&self) -> ColorKind {
        ColorKind::Rotational
    }

    fn get_alias(&self) -> (r: String) {
        String::from_str("ROTATIONAL")
    }

    fn get_description(&self) -> (r: String) {
        String::from_str("Simple rotational color based on iteration value")
    }

    fn method(&self, n: u64, config: &Config) -> (r: i64) {
        color_value(ColorKind::Rotational, n, config.rate_of_color_change)
    }

    fn gpu_method(&self) -> (r: String) {
        String::from_str("return n;")
    }
}

/// Hue oscillating between two fixed angles.
struct SINUSOIDAL {}

impl Colors for SINUSOIDAL {
    open spec fn kind(&self) -> ColorKind {
        ColorKind::Sinusoidal
    }

    fn get_alias(&self) -> (r: String) {
        String::from_str("SINUSOIDAL")
    }

    fn get_description(&self) -> (r: String) {
        String::from_str("Sinusoidal color values generated between set values")
    }

    fn method(&self, n: u64, config: &Config) -> (r: i64) {
        color_value(ColorKind::Sinusoidal, n, config.rate_of_color_change)
    }

    fn gpu_method(&self) -> (r: String) {
        String::from_str(
            "\n            float max_value = 277.0;\n            float min_value = 420.0;\n\n            return (max_value - min_value) * 0.5 * cos(n * 0.0174532925199) +\n                (max_value + min_value) * 0.5;\n        ",
        )
    }
}

/// The kernel source fragment of the selected hue formula.
pub fn color_kernel_fragment(k: ColorKind) -> (r: String)
    ensures
        r@ == color_kernel(k),
{
    match k {
        ColorKind::Rotational => ROTATIONAL {}.gpu_method(),
        ColorKind::Sinusoidal => SINUSOIDAL {}.gpu_method(),
    }
}

/// The registry lookup as a function of the queried name.
pub open spec fn color_lookup(s: Seq<char>) -> Result<ColorKind, ConfigError> {
    if s == color_alias(ColorKind::Rotational) {
        Ok(ColorKind::Rotational)
    } else if s == color_alias(ColorKind::Sinusoidal) {
        Ok(ColorKind::Sinusoidal)
    } else {
        Err(ConfigError::UnknownColor)
    }
}

/// Resolves a hue formula name; unknown names are a configuration error,
/// never a crash.
pub fn get_color(color: &str) -> (r: Result<ColorKind, ConfigError>)
    ensures
        r == color_lookup(color@),
{
    if str_eq(color, "ROTATIONAL") {
        Ok(ColorKind::Rotational)
    } else if str_eq(color, "SINUSOIDAL") {
        Ok(ColorKind::Sinusoidal)
    } else {
        Err(ConfigError::UnknownColor)
    }
}

/// The catalog text enumerating every hue formula alias with its
/// description.
pub open spec fn color_catalog_spec() -> Seq<char> {
    "  "@ + color_alias(ColorKind::Rotational) + "\t"@ + color_description(ColorKind::Rotational)
        + "\n  "@ + color_alias(ColorKind::Sinusoidal) + "\t"@ + color_description(
        ColorKind::Sinusoidal,
    )
}

/// Builds the human-readable catalog of valid hue formula names.
pub fn color_catalog() -> (r: String)
    ensures
        r@ == color_catalog_spec(),
{
    let mut out = String::from_str("  ");
    out.append(ROTATIONAL {}.get_alias().as_str());
    out.append("\t");
    out.append(ROTATIONAL {}.get_description().as_str());
    out.append("\n  ");
    out.append(SINUSOIDAL {}.get_alias().as_str());
    out.append("\t");
    out.append(SINUSOIDAL {}.get_description().as_str());
    out
}

} // verus!
