//! The catalog of iteration formulas.
//!
//! Each formula is one step of the escape-time recurrence: it maps the
//! per-run constant `c` and the iterated point `z` to the next point.  A
//! formula also carries its registry alias, a human-readable description,
//! and the kernel source fragment used when the step is compiled into an
//! accelerator kernel.

use vstd::prelude::*;
use vstd::string::StringExecFns;

use crate::error::ConfigError;
use crate::fixed::FIX_ONE;
use crate::math::structs::C_BOUND;
use crate::math::structs::Complex;
use crate::math::structs::STEP_BOUND;
use crate::math::structs::Z_BOUND;
use crate::math::structs::complex_add_spec;
use crate::math::structs::complex_mul_spec;
use crate::math::structs::complex_sub_spec;
use crate::math::structs::in_range;
use crate::math::structs::lemma_complex_mul_bound;
use crate::str_eq;

verus! {

/// Which iteration formula a run uses.
#[derive(Clone, Copy, Debug, PartialEq, Eq, Structural)]
pub enum GeneratorKind {
    /// Standard recurrence `z = z^2 + c`.
    Sd,
    /// Rabbit recurrence.
    R,
    /// Absolute-value rabbit recurrence.
    Abr,
    /// Burning-ship recurrence.
    Bs,
    /// Symmetric recurrence `z = z^2 + c - z`.
    Sym,
    /// Development aid: drifts the point along the real axis.
    Dbg,
}

/// Registry alias of a formula.
pub open spec fn generator_alias(k: GeneratorKind) -> Seq<char> {
    match k {
        GeneratorKind::Sd => "SD"@,
        GeneratorKind::R => "R"@,
        GeneratorKind::Abr => "ABR"@,
        GeneratorKind::Bs => "BS"@,
        GeneratorKind::Sym => "SYM"@,
        GeneratorKind::Dbg => "DBG"@,
    }
}

/// Human-readable description of a formula.
pub open spec fn generator_description(k: GeneratorKind) -> Seq<char> {
    match k {
        GeneratorKind::Sd => "Standard z = z^2 + c"@,
        GeneratorKind::R => "Custom Rabbit Generator"@,
        GeneratorKind::Abr => "Absolute Value Rabbit Generator"@,
        GeneratorKind::Bs => "Burning Ship Generator"@,
        GeneratorKind::Sym => "A Symetrical Mandelbrot Like Generation"@,
        GeneratorKind::Dbg => "A Debug Formula for development Purposes."@,
    }
}

/// Kernel source fragment of a formula.
pub open spec fn generator_kernel(k: GeneratorKind) -> Seq<char> {
    match k {
        GeneratorKind::Sd => "z = add(mult(z, z), c);"@,
        GeneratorKind::R => "Complex old_z = z;\n        z = add(mult(z, z), c);\n        z.data.y -= old_z.data.x;\n        z.data.x -= old_z.data.y;"@,
        GeneratorKind::Abr => "Complex old_z = z;\n        z = mult(z, z);\n        if (z.data.y < 0.0) {\n            z.data.y *= -1.0;\n        }\n        z.data.y -= old_z.data.x;\n        z.data.x -= old_z.data.y;\n        z.data += c.data;"@,
        GeneratorKind::Bs => "z = mult(z, z);\n        if (z.data.y > 0.0) {\n            z.data.y *= -1.0;\n        }\n        z.data += c.data;"@,
        GeneratorKind::Sym => "z = add(\n            add(mult(z, z), c),\n            Complex(\n                -z.data\n            )\n        );"@,
        GeneratorKind::Dbg => "z.data.x += 0.1;\n            z.data.y += 0.1;"@,
    }
}

/// One step of the standard recurrence.
pub open spec fn step_sd_spec(c: Complex, z: Complex) -> Complex {
    complex_add_spec(complex_mul_spec(z, z), c)
}

/// One step of the rabbit recurrence.
pub open spec fn step_r_spec(c: Complex, z: Complex) -> Complex {
    let m = complex_add_spec(complex_mul_spec(z, z), c);
    Complex {
        real: (m.real as int - z.imaginary as int) as i64,
        imaginary: (m.imaginary as int - z.real as int) as i64,
    }
}

/// One step of the absolute-value rabbit recurrence.
pub open spec fn step_abr_spec(c: Complex, z: Complex) -> Complex {
    let m = complex_mul_spec(z, z);
    let f = if m.imaginary < 0 {
        (-(m.imaginary as int)) as i64
    } else {
        m.imaginary
    };
    complex_add_spec(
        Complex {
            real: (m.real as int - z.imaginary as int) as i64,
            imaginary: (f as int - z.real as int) as i64,
        },
        c,
    )
}

/// One step of the burning-ship recurrence.
pub open spec fn step_bs_spec(c: Complex, z: Complex) -> Complex {
    let m = complex_mul_spec(z, z);
    let f = if m.imaginary > 0 {
        (-(m.imaginary as int)) as i64
    } else {
        m.imaginary
    };
    complex_add_spec(Complex { real: m.real, imaginary: f }, c)
}

/// One step of the symmetric recurrence.
pub open spec fn step_sym_spec(c: Complex, z: Complex) -> Complex {
    complex_sub_spec(complex_add_spec(complex_mul_spec(z, z), c), z)
}

/// One step of the development drift: both components move by a tenth.
pub open spec fn step_dbg_spec(c: Complex, z: Complex) -> Complex {
    Complex {
        real: (z.real as int + FIX_ONE as int / 10) as i64,
        imaginary: (z.imaginary as int + FIX_ONE as int / 10) as i64,
    }
}

/// One step of the recurrence selected by `k`.
pub open spec fn step_spec(k: GeneratorKind, c: Complex, z: Complex) -> Complex {
    match k {
        GeneratorKind::Sd => step_sd_spec(c, z),
        GeneratorKind::R => step_r_spec(c, z),
        GeneratorKind::Abr => step_abr_spec(c, z),
        GeneratorKind::Bs => step_bs_spec(c, z),
        GeneratorKind::Sym => step_sym_spec(c, z),
        GeneratorKind::Dbg => step_dbg_spec(c, z),
    }
}

/// Applies one step of the recurrence selected by `k` to a not-yet-escaped
/// point.
pub fn step(k: GeneratorKind, c: Complex, z: Complex) -> (r: Complex)
    requires
        in_range(z, Z_BOUND as int),
        in_range(c, C_BOUND as int),
    ensures
        r == step_spec(k, c, z),
        in_range(r, STEP_BOUND as int),
{
    proof {
        lemma_complex_mul_bound(z, z, Z_BOUND as int);
    }
    match k {
        GeneratorKind::Sd => {
            z.times(z).plus(c)
        },
        GeneratorKind::R => {
            let m = z.times(z).plus(c);
            Complex { real: m.real - z.imaginary, imaginary: m.imaginary - z.real }
        },
        GeneratorKind::Abr => {
            let m = z.times(z);
            let f = if m.imaginary < 0 {
                -m.imaginary
            } else {
                m.imaginary
            };
            Complex { real: m.real - z.imaginary, imaginary: f - z.real }.plus(c)
        },
        GeneratorKind::Bs => {
            let m = z.times(z);
            let f = if m.imaginary > 0 {
                -m.imaginary
            } else {
                m.imaginary
            };
            Complex { real: m.real, imaginary: f }.plus(c)
        },
        GeneratorKind::Sym => {
            z.times(z).plus(c).minus(z)
        },
        GeneratorKind::Dbg => {
            Complex { real: z.real + 6553, imaginary: z.imaginary + 6553 }
        },
    }
}

/// A pluggable iteration formula: a registry entry bundling the step with
/// its alias, description and kernel fragment.
pub trait Formula {
    /// Which catalog entry this formula is.
    spec fn kind(&self) -> GeneratorKind;

    /// The alias under which the registry finds the formula.
    fn get_alias(&self) -> (r: String)
        ensures
            r@ == generator_alias(self.kind()),
    ;

    /// A one-line description for the registry catalog.
    fn get_description(&self) -> (r: String)
        ensures
            r@ == generator_description(self.kind()),
    ;

    /// One step of the recurrence.
    fn method(&self, c: Complex, z: Complex) -> (r: Complex)
        requires
            in_range(z, Z_BOUND as int),
            in_range(c, C_BOUND as int),
        ensures
            r == step_spec(self.kind(), c, z),
            in_range(r, STEP_BOUND as int),
    ;

    /// The kernel source fragment computing one step.
    fn gpu_method(&self) -> (r: String)
        ensures
            r@ == generator_kernel(self.kind()),
    ;
}

/// Standard recurrence `z = z^2 + c`.
pub struct SD {}

impl Formula for SD {
    open spec fn kind(&self) -> GeneratorKind {
        GeneratorKind::Sd
    }

    fn get_alias(&self) -> (r: String) {
        String::from_str("SD")
    }

    fn get_description(&self) -> (r: String) {
        String::from_str("Standard z = z^2 + c")
    }

    fn method(&self, c: Complex, z: Complex) -> (r: Complex) {
        step(GeneratorKind::Sd, c, z)
    }

    fn gpu_method(&self) -> (r: String) {
        String::from_str("z = add(mult(z, z), c);")
    }
}

/// Rabbit recurrence.
pub struct R {}

impl Formula for R {
    open spec fn kind(&self) -> GeneratorKind {
        GeneratorKind::R
    }

    fn get_alias(&self) -> (r: String) {
        String::from_str("R")
    }

    fn get_description(&self) -> (r: String) {
        String::from_str("Custom Rabbit Generator")
    }

    fn method(&self, c: Complex, z: Complex) -> (r: Complex) {
        step(GeneratorKind::R, c, z)
    }

    fn gpu_method(&self) -> (r: String) {
        String::from_str(
            "Complex old_z = z;\n        z = add(mult(z, z), c);\n        z.data.y -= old_z.data.x;\n        z.data.x -= old_z.data.y;",
        )
    }
}

/// Absolute-value rabbit recurrence.
pub struct ABR {}

impl Formula for ABR {
    open spec fn kind(&self) -> GeneratorKind {
        GeneratorKind::Abr
    }

    fn get_alias(&self) -> (r: String) {
        String::from_str("ABR")
    }

    fn get_description(&self) -> (r: String) {
        String::from_str("Absolute Value Rabbit Generator")
    }

    fn method(&self, c: Complex, z: Complex) -> (r: Complex) {
        step(GeneratorKind::Abr, c, z)
    }

    fn gpu_method(&self) -> (r: String) {
        String::from_str(
            "Complex old_z = z;\n        z = mult(z, z);\n        if (z.data.y < 0.0) {\n            z.data.y *= -1.0;\n        }\n        z.data.y -= old_z.data.x;\n        z.data.x -= old_z.data.y;\n        z.data += c.data;",
        )
    }
}

/// Burning-ship recurrence.
pub struct BS {}

impl Formula for BS {
    open spec fn kind(&self) -> GeneratorKind {
        GeneratorKind::Bs
    }

    fn get_alias(&self) -> (r: String) {
        String::from_str("BS")
    }

    fn get_description(&self) -> (r: String) {
        String::from_str("Burning Ship Generator")
    }

    fn method(&self, c: Complex, z: Complex) -> (r: Complex) {
        step(GeneratorKind::Bs, c, z)
    }

    fn gpu_method(&self) -> (r: String) {
        String::from_str(
            "z = mult(z, z);\n        if (z.data.y > 0.0) {\n            z.data.y *= -1.0;\n        }\n        z.data += c.data;",
        )
    }
}

/// Symmetric recurrence.
pub struct SYM {}

impl Formula for SYM {
    open spec fn kind(&self) -> GeneratorKind {
        GeneratorKind::Sym
    }

    fn get_alias(&self) -> (r: String) {
        String::from_str("SYM")
    }

    fn get_description(&self) -> (r: String) {
        String::from_str("A Symetrical Mandelbrot Like Generation")
    }

    fn method(&self, c: Complex, z: Complex) -> (r: Complex) {
        step(GeneratorKind::Sym, c, z)
    }

    fn gpu_method(&self) -> (r: String) {
        String::from_str(
            "z = add(\n            add(mult(z, z), c),\n            Complex(\n                -z.data\n            )\n        );",
        )
    }
}

/// Development drift formula.
struct DBG {}

impl Formula for DBG {
    open spec fn kind(&self) -> GeneratorKind {
        GeneratorKind::Dbg
    }

    fn get_alias(&self) -> (r: String) {
        String::from_str("DBG")
    }

    fn get_description(&self) -> (r: String) {
        String::from_str("A Debug Formula for development Purposes.")
    }

    fn method(&self, c: Complex, z: Complex) -> (r: Complex) {
        step(GeneratorKind::Dbg, c, z)
    }

    fn gpu_method(&self) -> (r: String) {
        String::from_str("z.data.x += 0.1;\n            z.data.y += 0.1;")
    }
}

/// The kernel source fragment of the selected formula.
pub fn kernel_fragment(k: GeneratorKind) -> (r: String)
    ensures
        r@ == generator_kernel(k),
{
    match k {
        GeneratorKind::Sd => SD {}.gpu_method(),
        GeneratorKind::R => R {}.gpu_method(),
        GeneratorKind::Abr => ABR {}.gpu_method(),
        GeneratorKind::Bs => BS {}.gpu_method(),
        GeneratorKind::Sym => SYM {}.gpu_method(),
        GeneratorKind::Dbg => DBG {}.gpu_method(),
    }
}

/// The registry lookup as a function of the queried name.
pub open spec fn generator_lookup(s: Seq<char>) -> Result<GeneratorKind, ConfigError> {
    if s == generator_alias(GeneratorKind::Sd) {
        Ok(GeneratorKind::Sd)
    } else if s == generator_alias(GeneratorKind::R) {
        Ok(GeneratorKind::R)
    } else if s == generator_alias(GeneratorKind::Abr) {
        Ok(GeneratorKind::Abr)
    } else if s == generator_alias(GeneratorKind::Bs) {
        Ok(GeneratorKind::Bs)
    } else if s == generator_alias(GeneratorKind::Sym) {
        Ok(GeneratorKind::Sym)
    } else if s == generator_alias(GeneratorKind::Dbg) {
        Ok(GeneratorKind::Dbg)
    } else {
        Err(ConfigError::UnknownGenerator)
    }
}

/// Resolves a generator formula name; unknown names are a configuration
/// error, never a crash.
pub fn get_formula(formula: &str) -> (r: Result<GeneratorKind, ConfigError>)
    ensures
        r == generator_lookup(formula@),
{
    if str_eq(formula, "SD") {
        Ok(GeneratorKind::Sd)
    } else if str_eq(formula, "R") {
        Ok(GeneratorKind::R)
    } else if str_eq(formula, "ABR") {
        Ok(GeneratorKind::Abr)
    } else if str_eq(formula, "BS") {
        Ok(GeneratorKind::Bs)
    } else if str_eq(formula, "SYM") {
        Ok(GeneratorKind::Sym)
    } else if str_eq(formula, "DBG") {
        Ok(GeneratorKind::Dbg)
    } else {
        Err(ConfigError::UnknownGenerator)
    }
}

/// The catalog text enumerating every formula alias with its description,
/// offered in diagnostics for an unknown name.
pub open spec fn generator_catalog_spec() -> Seq<char> {
    "  "@ + generator_alias(GeneratorKind::Sd) + "\t"@ + generator_description(GeneratorKind::Sd)
        + "\n  "@ + generator_alias(GeneratorKind::R) + "\t"@ + generator_description(
        GeneratorKind::R,
    ) + "\n  "@ + generator_alias(GeneratorKind::Abr) + "\t"@ + generator_description(
        GeneratorKind::Abr,
    ) + "\n  "@ + generator_alias(GeneratorKind::Bs) + "\t"@ + generator_description(
        GeneratorKind::Bs,
    ) + "\n  "@ + generator_alias(GeneratorKind::Sym) + "\t"@ + generator_description(
        GeneratorKind::Sym,
    ) + "\n  "@ + generator_alias(GeneratorKind::Dbg) + "\t"@ + generator_description(
        GeneratorKind::Dbg,
    )
}

/// Builds the human-readable catalog of valid formula names.
pub fn generator_catalog() -> (r: String)
    ensures
        r@ == generator_catalog_spec(),
{
    let mut out = String::from_str("  ");
    out.append(SD {}.get_alias().as_str());
    out.append("\t");
    out.append(SD {}.get_description().as_str());
    out.append("\n  ");
    out.append(R {}.get_alias().as_str());
    out.append("\t");
    out.append(R {}.get_description().as_str());
    out.append("\n  ");
    out.append(ABR {}.get_alias().as_str());
    out.append("\t");
    out.append(ABR {}.get_description().as_str());
    out.append("\n  ");
    out.append(BS {}.get_alias().as_str());
    out.append("\t");
    out.append(BS {}.get_description().as_str());
    out.append("\n  ");
    out.append(SYM {}.get_alias().as_str());
    out.append("\t");
    out.append(SYM {}.get_description().as_str());
    out.append("\n  ");
    out.append(DBG {}.get_alias().as_str());
    out.append("\t");
    out.append(DBG {}.get_description().as_str());
    out
}

} // verus!
