//! Fixed-point arithmetic, complex numbers, formulas, colors and
//! shadows on concrete values.

use kyros::colors::color::{color_catalog, color_value, get_color, ColorKind};
use kyros::colors::profiles::{get_profile, ColorProfile, RgbProfile};
use kyros::colors::shadows::{get_shadow, shadow_catalog, shadow_value, ShadowKind};
use kyros::colors::shadows::{Shadows, MINIMAL, MODULUS, NONE};
use kyros::error::ConfigError;
use kyros::eval::{classify, evaluate, Evaluation, PixelClass};
use kyros::fixed::{cos_deg, emod, fix_mul, fix_to_byte, isqrt, sin_deg, FIX_ONE};
use kyros::math::formula::{generator_catalog, get_formula, step, Formula, GeneratorKind};
use kyros::math::formula::{ABR, BS, R, SD, SYM};
use kyros::math::structs::Complex;
use kyros::structs::{Config, MathFrame, Rgba};

fn test_config() -> Config {
    Config {
        c_init: None,
        size_x: 4,
        size_y: 4,
        max_i: 50,
        gen_formula: String::from("SD"),
        color_formula: String::from("ROTATIONAL"),
        rate_of_color_change: 9 * FIX_ONE,
        shadow_formula: String::from("NONE"),
        background: Rgba {
            r: 10,
            g: 20,
            b: 30,
            a: 40,
        },
        foreground: Rgba {
            r: 1,
            g: 2,
            b: 3,
            a: 255,
        },
        travel_distance: false,
        rgba: true,
        gpu: false,
        chunk_size: 8,
        compression: 6,
        compression_threads: 1,
        read_config: None,
        save_method: String::from("MOCK"),
        filename: String::from("out"),
        math_frame: MathFrame {
            factor_x: 87381,
            factor_y: 87381,
            offset_x: -131072,
            offset_y: -131072,
        },
    }
}

#[test]
fn fix_mul_exact_values() {
    assert_eq!(fix_mul(FIX_ONE, FIX_ONE), FIX_ONE);
    assert_eq!(fix_mul(2 * FIX_ONE, 3 * FIX_ONE), 6 * FIX_ONE);
    assert_eq!(fix_mul(-2 * FIX_ONE, 3 * FIX_ONE), -6 * FIX_ONE);
    assert_eq!(fix_mul(FIX_ONE / 2, FIX_ONE / 2), FIX_ONE / 4);
    assert_eq!(fix_mul(0, 12345), 0);
}

#[test]
fn fix_to_byte_endpoints() {
    assert_eq!(fix_to_byte(0), 0);
    assert_eq!(fix_to_byte(FIX_ONE), 255);
    assert_eq!(fix_to_byte(FIX_ONE / 2), 127);
}

#[test]
fn isqrt_values() {
    assert_eq!(isqrt(0), 0);
    assert_eq!(isqrt(1), 1);
    assert_eq!(isqrt(10), 3);
    assert_eq!(isqrt(16), 4);
    assert_eq!(isqrt(999999), 999);
}

#[test]
fn emod_wraps_negatives() {
    assert_eq!(emod(7, 3), 1);
    assert_eq!(emod(-5, 3), 1);
    assert_eq!(emod(-6, 3), 0);
    assert_eq!(emod(0, 360), 0);
}

#[test]
fn cosine_quarter_points() {
    assert_eq!(cos_deg(0), FIX_ONE);
    assert_eq!(cos_deg(90 * FIX_ONE as u64), 0);
    assert_eq!(cos_deg(180 * FIX_ONE as u64), -FIX_ONE);
    assert_eq!(cos_deg(270 * FIX_ONE as u64), 0);
    assert_eq!(sin_deg(90 * FIX_ONE), FIX_ONE);
    // The rational approximation is close at off-axis angles too.
    let c60 = cos_deg(60 * FIX_ONE as u64);
    assert!((c60 - FIX_ONE / 2).abs() < FIX_ONE / 64);
}

#[test]
fn complex_ops() {
    let one = Complex {
        real: FIX_ONE,
        imaginary: 0,
    };
    let i = Complex {
        real: 0,
        imaginary: FIX_ONE,
    };
    let s = one.plus(i);
    assert_eq!(s.real, FIX_ONE);
    assert_eq!(s.imaginary, FIX_ONE);
    // i * i == -1
    let ii = i.times(i);
    assert_eq!(ii.real, -FIX_ONE);
    assert_eq!(ii.imaginary, 0);
    assert!(Complex {
        real: 3 * FIX_ONE,
        imaginary: 0
    }
    .is_greater(2 * FIX_ONE));
    assert!(!one.is_greater(2 * FIX_ONE));
}

#[test]
fn formula_step_values() {
    let c = Complex {
        real: FIX_ONE,
        imaginary: 0,
    };
    let z = Complex {
        real: FIX_ONE,
        imaginary: FIX_ONE,
    };
    // SD: (1 + i)^2 + 1 == 1 + 2i
    let r = step(GeneratorKind::Sd, c, z);
    assert_eq!(r.real, FIX_ONE);
    assert_eq!(r.imaginary, 2 * FIX_ONE);
    // SYM subtracts z again.
    let r2 = step(GeneratorKind::Sym, c, z);
    assert_eq!(r2.real, 0);
    assert_eq!(r2.imaginary, FIX_ONE);
    // BS flips a positive imaginary part of z^2 before adding c.
    let r3 = step(GeneratorKind::Bs, c, z);
    assert_eq!(r3.real, FIX_ONE);
    assert_eq!(r3.imaginary, -2 * FIX_ONE);
}

#[test]
fn formula_registry() {
    assert_eq!(get_formula("SD"), Ok(GeneratorKind::Sd));
    assert_eq!(get_formula("R"), Ok(GeneratorKind::R));
    assert_eq!(get_formula("ABR"), Ok(GeneratorKind::Abr));
    assert_eq!(get_formula("BS"), Ok(GeneratorKind::Bs));
    assert_eq!(get_formula("SYM"), Ok(GeneratorKind::Sym));
    assert_eq!(get_formula("DBG"), Ok(GeneratorKind::Dbg));
    assert_eq!(get_formula("HELP"), Err(ConfigError::UnknownGenerator));
    assert_eq!(SD {}.get_alias(), "SD");
    assert_eq!(R {}.get_description(), "Custom Rabbit Generator");
    assert_eq!(ABR {}.get_alias(), "ABR");
    assert_eq!(BS {}.gpu_method().contains("mult(z, z)"), true);
    assert_eq!(SYM {}.get_alias(), "SYM");
    let catalog = generator_catalog();
    assert!(catalog.contains("SD\tStandard z = z^2 + c"));
    assert!(catalog.contains("Burning Ship Generator"));
}

#[test]
fn color_registry_and_values() {
    assert_eq!(get_color("ROTATIONAL"), Ok(ColorKind::Rotational));
    assert_eq!(get_color("SINUSOIDAL"), Ok(ColorKind::Sinusoidal));
    assert_eq!(get_color("HELP"), Err(ConfigError::UnknownColor));
    assert!(color_catalog().contains("ROTATIONAL"));
    // Rotational: n * rate.
    assert_eq!(
        color_value(ColorKind::Rotational, 3 * FIX_ONE as u64, 9 * FIX_ONE),
        27 * FIX_ONE
    );
    // Sinusoidal at n = 0: cos(0) == 1, so (277-420)/2 + (277+420)/2 == 277.
    assert_eq!(
        color_value(ColorKind::Sinusoidal, 0, 9 * FIX_ONE),
        277 * FIX_ONE
    );
}

#[test]
fn shadow_registry_and_values() {
    assert_eq!(get_shadow("NONE"), Ok(ShadowKind::Uniform));
    assert_eq!(get_shadow("MINIMAL"), Ok(ShadowKind::Minimal));
    assert_eq!(get_shadow("MODULUS"), Ok(ShadowKind::Modulus));
    assert_eq!(get_shadow("HELP"), Err(ConfigError::UnknownShadow));
    assert!(shadow_catalog().contains("MODULUS"));
    assert_eq!(NONE {}.method(12345), FIX_ONE);
    // Modulus at n == 1.0: 1 - 1/3.
    assert_eq!(MODULUS {}.method(FIX_ONE as u64), FIX_ONE - FIX_ONE / 3);
    // Minimal stays within its documented band.
    let v = MINIMAL {}.method(7 * FIX_ONE as u64);
    assert!(v >= 45000 && v <= 62000);
    assert_eq!(shadow_value(ShadowKind::Uniform, 0), FIX_ONE);
}

#[test]
fn profile_resolves_primary_hues() {
    let config = test_config();
    let profile: RgbProfile = get_profile(&config);
    assert_eq!(profile.get_background().as_slice(), &[10, 20, 30, 40]);
    assert_eq!(profile.get_foreground().as_slice(), &[1, 2, 3, 255]);
    // Hue 0 at full value is pure red.
    assert_eq!(profile.method(0, FIX_ONE).as_slice(), &[255, 0, 0, 255]);
    // Hue 120 degrees is pure green.
    assert_eq!(
        profile
            .method(120 * FIX_ONE as u64, FIX_ONE)
            .as_slice(),
        &[0, 255, 0, 255]
    );
    // Hue 240 degrees is pure blue.
    assert_eq!(
        profile
            .method(240 * FIX_ONE as u64, FIX_ONE)
            .as_slice(),
        &[0, 0, 255, 255]
    );
}

#[test]
fn chunk_frame_shifts_offset_by_first_row() {
    let frame = MathFrame {
        factor_x: 100,
        factor_y: 200,
        offset_x: -50,
        offset_y: -60,
    };
    let derived = kyros::structs::frame_for_chunk(&frame, 2, 4, 4);
    assert_eq!(derived.factor_y, 200);
    assert_eq!(derived.offset_y, 200 * 2 - 60);
    // Mapping local row 0 through the derived frame lands where global
    // row 2 lands through the run frame.
    let a = kyros::structs::map_coord(0, 1, &derived, 4, 4);
    let b = kyros::structs::map_coord(2, 1, &frame, 4, 4);
    assert_eq!(a, b);
}

#[test]
fn evaluator_immediate_escape_is_sentinel_zero() {
    let z0 = Complex {
        real: -2 * FIX_ONE,
        imaginary: -2 * FIX_ONE,
    };
    let e = evaluate(GeneratorKind::Sd, z0, z0, 50, false);
    assert_eq!(
        e,
        Evaluation {
            value: 0,
            iterations: 0
        }
    );
    assert_eq!(classify(&e, 50), PixelClass::Background);
}

#[test]
fn evaluator_zero_cap_every_point_background() {
    for (re, im) in [(0i64, 0i64), (FIX_ONE, 0), (-FIX_ONE, FIX_ONE)] {
        let z0 = Complex {
            real: re,
            imaginary: im,
        };
        for travel in [false, true] {
            let e = evaluate(GeneratorKind::Sd, z0, z0, 0, travel);
            assert_eq!(e.value, 0);
            assert_eq!(classify(&e, 0), PixelClass::Background);
        }
    }
}

#[test]
fn evaluator_origin_never_escapes() {
    let zero = Complex {
        real: 0,
        imaginary: 0,
    };
    let e = evaluate(GeneratorKind::Sd, zero, zero, 50, false);
    assert_eq!(e.iterations, 50);
    assert_eq!(e.value, 50 * FIX_ONE as u64);
    assert_eq!(classify(&e, 50), PixelClass::Foreground);
}

#[test]
fn evaluator_deterministic_bit_identical() {
    let z0 = Complex {
        real: -FIX_ONE / 2,
        imaginary: FIX_ONE / 3,
    };
    for travel in [false, true] {
        let a = evaluate(GeneratorKind::Sd, z0, z0, 200, travel);
        let b = evaluate(GeneratorKind::Sd, z0, z0, 200, travel);
        assert_eq!(a, b);
    }
}

#[test]
fn evaluator_travel_distance_is_a_different_measure() {
    // A point that escapes after a few steps: count and distance modes
    // agree on the step count but not on the escape value.
    let z0 = Complex {
        real: FIX_ONE / 2,
        imaginary: FIX_ONE / 2,
    };
    let count = evaluate(GeneratorKind::Sd, z0, z0, 100, false);
    let dist = evaluate(GeneratorKind::Sd, z0, z0, 100, true);
    assert_eq!(count.iterations, dist.iterations);
    assert!(count.iterations > 0 && count.iterations < 100);
    assert_ne!(count.value, dist.value);
}
