//! End-to-end rendering scenarios on a 4x4 image.

use kyros::colors::color::ColorKind;
use kyros::colors::shadows::ShadowKind;
use kyros::error::ConfigError;
use kyros::eval::{classify, evaluate, PixelClass};
use kyros::fixed::FIX_ONE;
use kyros::math::formula::GeneratorKind;
use kyros::math::structs::Complex;
use kyros::plan::plan;
use kyros::render::{cpu_eval, produce_chunk, resolve_kinds};
use kyros::structs::{map_coord, Config, MathFrame, Rgba};

fn small_config(travel: bool) -> Config {
    Config {
        c_init: None,
        size_x: 4,
        size_y: 4,
        max_i: 50,
        gen_formula: String::from("SD"),
        color_formula: String::from("ROTATIONAL"),
        rate_of_color_change: 9 * FIX_ONE,
        shadow_formula: String::from("NONE"),
        background: Rgba {
            r: 10,
            g: 20,
            b: 30,
            a: 40,
        },
        foreground: Rgba {
            r: 1,
            g: 2,
            b: 3,
            a: 255,
        },
        travel_distance: travel,
        rgba: true,
        gpu: false,
        chunk_size: 8,
        compression: 6,
        compression_threads: 1,
        read_config: None,
        save_method: String::from("MOCK"),
        filename: String::from("out"),
        math_frame: MathFrame {
            factor_x: 87381,
            factor_y: 87381,
            offset_x: -131072,
            offset_y: -131072,
        },
    }
}

fn render_whole(config: &Config) -> Vec<u8> {
    let chunks = plan(config.size_y, config.size_x, config.chunk_size).unwrap();
    let mut img: Vec<u8> = Vec::new();
    for c in &chunks {
        img.extend_from_slice(&produce_chunk(config, c).unwrap());
    }
    img
}

#[test]
fn end_to_end_two_chunks_and_background_corner() {
    let config = small_config(false);
    let chunks = plan(config.size_y, config.size_x, config.chunk_size).unwrap();
    assert_eq!(chunks.len(), 2);
    assert_eq!(chunks[0].row_count, 2);
    assert_eq!(chunks[1].row_count, 2);
    let img = render_whole(&config);
    assert_eq!(img.len(), 4 * 4 * 4);
    // The corner pixel maps to (-2, -2), far outside the escape radius:
    // the immediate-escape sentinel, so the configured background color.
    assert_eq!(&img[0..4], &[10, 20, 30, 40]);
}

#[test]
fn zero_iteration_cap_renders_uniform_background() {
    let mut config = small_config(false);
    config.max_i = 0;
    for travel in [false, true] {
        config.travel_distance = travel;
        let img = render_whole(&config);
        for px in img.chunks(4) {
            assert_eq!(px, &[10, 20, 30, 40]);
        }
    }
}

#[test]
fn chunked_render_equals_single_pass() {
    let config = small_config(false);
    let img = render_whole(&config);
    let whole = cpu_eval(&config).unwrap();
    assert_eq!(img, whole);
}

#[test]
fn cpu_eval_checks_save_method_first() {
    let mut config = small_config(false);
    config.save_method = String::from("HELP");
    assert_eq!(cpu_eval(&config), Err(ConfigError::UnknownSaveMethod));
    let mut config2 = small_config(false);
    config2.color_formula = String::from("HELP");
    assert_eq!(cpu_eval(&config2), Err(ConfigError::UnknownColor));
}

#[test]
fn cpu_eval_deterministic() {
    let config = small_config(true);
    assert_eq!(cpu_eval(&config).unwrap(), cpu_eval(&config).unwrap());
}

#[test]
fn travel_distance_changes_escaping_pixel_colors() {
    let count_cfg = small_config(false);
    let travel_cfg = small_config(true);
    let (gk, _, _) = resolve_kinds(&count_cfg).unwrap();
    let img_count = render_whole(&count_cfg);
    let img_travel = render_whole(&travel_cfg);
    let bg = [10u8, 20, 30, 40];
    let fg = [1u8, 2, 3, 255];
    let mut found = false;
    for row in 0..4u32 {
        for col in 0..4u32 {
            let z0: Complex = map_coord(row, col, &count_cfg.math_frame, 4, 4);
            let e = evaluate(gk, z0, z0, count_cfg.max_i, false);
            if classify(&e, count_cfg.max_i) != PixelClass::Colored {
                continue;
            }
            let at = ((row * 4 + col) * 4) as usize;
            let a = &img_count[at..at + 4];
            let b = &img_travel[at..at + 4];
            assert_ne!(a, &bg);
            assert_ne!(a, &fg);
            assert_ne!(b, &bg);
            assert_ne!(b, &fg);
            if a != b {
                found = true;
            }
        }
    }
    assert!(found, "no escaping pixel changed color between measures");
}

#[test]
fn julia_mode_uses_fixed_constant() {
    let mut config = small_config(false);
    config.c_init = Some(Complex {
        real: 5245,
        imaginary: -41677,
    });
    let img_julia = render_whole(&config);
    let img_mandelbrot = render_whole(&small_config(false));
    assert_eq!(img_julia.len(), img_mandelbrot.len());
    assert_ne!(img_julia, img_mandelbrot);
}

#[test]
fn rgb_output_drops_alpha() {
    let mut config = small_config(false);
    config.rgba = false;
    let img = render_whole(&config);
    assert_eq!(img.len(), 4 * 4 * 3);
    assert_eq!(&img[0..3], &[10, 20, 30]);
}

#[test]
fn kinds_resolution_reports_first_unknown() {
    let mut config = small_config(false);
    config.shadow_formula = String::from("HELP");
    assert_eq!(
        resolve_kinds(&config).map(|_| ()),
        Err(ConfigError::UnknownShadow)
    );
    let ok = resolve_kinds(&small_config(false)).unwrap();
    assert_eq!(
        ok,
        (
            GeneratorKind::Sd,
            ColorKind::Rotational,
            ShadowKind::Uniform
        )
    );
}
