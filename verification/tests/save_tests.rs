//! Save methods, base64, kernel assembly and configuration validation.

use base64::Engine;

use kyros::error::ConfigError;
use kyros::fixed::FIX_ONE;
use kyros::kernel::assemble_kernel;
use kyros::math::structs::Complex;
use kyros::save::{
    base64_encode, get_save_method, save_catalog, save_encode, Save, SaveKind, B64, PNG, TIFF,
};
use kyros::structs::{Config, MathFrame, Rgba};

fn small_config() -> Config {
    Config {
        c_init: None,
        size_x: 4,
        size_y: 4,
        max_i: 50,
        gen_formula: String::from("SD"),
        color_formula: String::from("ROTATIONAL"),
        rate_of_color_change: 9 * FIX_ONE,
        shadow_formula: String::from("NONE"),
        background: Rgba {
            r: 10,
            g: 20,
            b: 30,
            a: 40,
        },
        foreground: Rgba {
            r: 1,
            g: 2,
            b: 3,
            a: 255,
        },
        travel_distance: false,
        rgba: true,
        gpu: false,
        chunk_size: 8,
        compression: 6,
        compression_threads: 1,
        read_config: None,
        save_method: String::from("MOCK"),
        filename: String::from("out"),
        math_frame: MathFrame {
            factor_x: 87381,
            factor_y: 87381,
            offset_x: -131072,
            offset_y: -131072,
        },
    }
}

fn test_image() -> Vec<u8> {
    (0..4 * 4 * 4).map(|i| (i * 7 % 256) as u8).collect()
}

#[test]
fn base64_known_vectors() {
    assert_eq!(base64_encode(&vec![]), b"");
    assert_eq!(base64_encode(&b"f".to_vec()), b"Zg==");
    assert_eq!(base64_encode(&b"fo".to_vec()), b"Zm8=");
    assert_eq!(base64_encode(&b"foo".to_vec()), b"Zm9v");
    assert_eq!(base64_encode(&b"foobar".to_vec()), b"Zm9vYmFy");
}

#[test]
fn base64_matches_reference_crate() {
    let data: Vec<u8> = (0u8..=255).collect();
    let ours = String::from_utf8(base64_encode(&data)).unwrap();
    let reference = base64::engine::general_purpose::STANDARD.encode(&data);
    assert_eq!(ours, reference);
}

#[test]
fn save_registry() {
    assert_eq!(get_save_method("PNG"), Ok(SaveKind::Png));
    assert_eq!(get_save_method("B64"), Ok(SaveKind::B64));
    assert_eq!(get_save_method("TIFF"), Ok(SaveKind::Tiff));
    assert_eq!(get_save_method("MOCK"), Ok(SaveKind::Mock));
    assert_eq!(get_save_method("HELP"), Err(ConfigError::UnknownSaveMethod));
    let catalog = save_catalog();
    assert!(catalog.contains("PNG\tSaves Image as PNG."));
    assert!(catalog.contains("MOCK"));
}

#[test]
fn png_save_roundtrip() {
    let config = small_config();
    let img = test_image();
    let file = PNG {}.method(&img, &config).unwrap();
    let decoder = png::Decoder::new(std::io::Cursor::new(file));
    let mut reader = decoder.read_info().unwrap();
    let mut pixels = vec![0u8; reader.output_buffer_size().unwrap()];
    let info = reader.next_frame(&mut pixels).unwrap();
    assert_eq!(info.width, 4);
    assert_eq!(info.height, 4);
    assert_eq!(pixels, img);
}

#[test]
fn tiff_save_roundtrip() {
    let config = small_config();
    let img = test_image();
    let file = TIFF {}.method(&img, &config).unwrap();
    let decoded = image::load_from_memory_with_format(&file, image::ImageFormat::Tiff).unwrap();
    let rgba = decoded.to_rgba8();
    assert_eq!(rgba.width(), 4);
    assert_eq!(rgba.height(), 4);
    assert_eq!(rgba.into_raw(), img);
}

#[test]
fn b64_save_is_base64_of_png() {
    let config = small_config();
    let img = test_image();
    let b64_bytes = B64 {}.method(&img, &config).unwrap();
    let text = String::from_utf8(b64_bytes).unwrap();
    let png_bytes = base64::engine::general_purpose::STANDARD
        .decode(text)
        .unwrap();
    assert_eq!(&png_bytes[0..8], &[137, 80, 78, 71, 13, 10, 26, 10]);
    let decoder = png::Decoder::new(std::io::Cursor::new(png_bytes));
    let mut reader = decoder.read_info().unwrap();
    let mut pixels = vec![0u8; reader.output_buffer_size().unwrap()];
    reader.next_frame(&mut pixels).unwrap();
    assert_eq!(pixels, img);
}

#[test]
fn mock_save_discards() {
    let config = small_config();
    let img = test_image();
    assert_eq!(save_encode(SaveKind::Mock, &img, &config), Ok(vec![]));
}

#[test]
fn kernel_assembly_splices_fragments() {
    let src = assemble_kernel(
        kyros::math::formula::GeneratorKind::Bs,
        kyros::colors::color::ColorKind::Sinusoidal,
        kyros::colors::shadows::ShadowKind::Modulus,
        "4",
        "4",
        "false",
        "9.0",
        "0.1, 0.2, 0.3, 0.4",
        "0.0, 0.0, 0.0, 1.0",
        "50",
        "0.0, 0.0",
        false,
    );
    assert!(src.starts_with("#version 450"));
    assert!(src.contains("const uint width = 4;"));
    assert!(src.contains("if (z.data.y > 0.0)"));
    assert!(src.contains("0.0174532925199"));
    assert!(src.contains("mod(n, modulus_value)"));
    assert!(src.contains("c = z;"));
    let julia = assemble_kernel(
        kyros::math::formula::GeneratorKind::Sd,
        kyros::colors::color::ColorKind::Rotational,
        kyros::colors::shadows::ShadowKind::Uniform,
        "4",
        "4",
        "false",
        "9.0",
        "0.1, 0.2, 0.3, 0.4",
        "0.0, 0.0, 0.0, 1.0",
        "50",
        "0.08, -0.63",
        true,
    );
    assert!(!julia.contains("c = z;"));
}

#[test]
fn validate_accepts_and_orders_errors() {
    assert_eq!(small_config().validate(), Ok(()));
    assert_eq!(Config::default().validate(), Ok(()));

    let mut c = small_config();
    c.size_x = 0;
    assert_eq!(c.validate(), Err(ConfigError::InvalidDimensions));

    let mut c = small_config();
    c.max_i = 0;
    assert_eq!(c.validate(), Err(ConfigError::ZeroIterations));

    let mut c = small_config();
    c.chunk_size = 3;
    assert_eq!(c.validate(), Err(ConfigError::ChunkBudgetTooSmall));

    let mut c = small_config();
    c.gen_formula = String::from("HELP");
    assert_eq!(c.validate(), Err(ConfigError::UnknownGenerator));

    let mut c = small_config();
    c.color_formula = String::from("HELP");
    assert_eq!(c.validate(), Err(ConfigError::UnknownColor));

    let mut c = small_config();
    c.shadow_formula = String::from("HELP");
    assert_eq!(c.validate(), Err(ConfigError::UnknownShadow));

    let mut c = small_config();
    c.save_method = String::from("HELP");
    assert_eq!(c.validate(), Err(ConfigError::UnknownSaveMethod));

    let mut c = small_config();
    c.rate_of_color_change = i64::MAX;
    assert_eq!(c.validate(), Err(ConfigError::RateTooLarge));

    let mut c = small_config();
    c.math_frame.offset_x = i64::MAX / 2;
    assert_eq!(c.validate(), Err(ConfigError::FrameOutOfRange));

    let mut c = small_config();
    c.c_init = Some(Complex {
        real: i64::MAX / 2,
        imaginary: 0,
    });
    assert_eq!(c.validate(), Err(ConfigError::ConstantOutOfRange));
}

#[test]
fn default_config_values() {
    let d = Config::default();
    assert_eq!(d.size_x, 512);
    assert_eq!(d.size_y, 512);
    assert_eq!(d.max_i, 1024);
    assert_eq!(d.gen_formula, "SD");
    assert_eq!(d.color_formula, "ROTATIONAL");
    assert_eq!(d.shadow_formula, "NONE");
    assert_eq!(d.save_method, "MOCK");
    assert_eq!(d.chunk_size, 16384);
    assert!(d.travel_distance);
    assert!(d.rgba);
}
