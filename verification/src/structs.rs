//! Run configuration: the immutable per-run parameters, the linear
//! coordinate transform, and the coordinate mapper.
//!
//! A `Config` is created once from validated input and never mutated; the
//! planner, the evaluator and the pipeline read it.  The transform maps a
//! pixel `(row, col)` onto the complex plane:
//! `real = factor_x * col + offset_x`, `imaginary = factor_y * row +
//! offset_y`, in fixed-point.

use vstd::prelude::*;
use vstd::arithmetic::mul::lemma_mul_inequality;
use vstd::string::StringExecFns;

use crate::error::ConfigError;
use crate::math::structs::C_BOUND;
use crate::math::structs::Complex;
use crate::math::structs::in_range;

verus! {

/// Magnitude bound on the color-change rate.
pub const RATE_BOUND: i64 = 0x400_0000;

/// An RGBA color given as plain channel bytes.
#[derive(Clone, Copy, Debug, PartialEq, Eq, Structural)]
pub struct Rgba {
    pub r: u8,
    pub g: u8,
    pub b: u8,
    pub a: u8,
}

/// The linear transform from pixel space to the complex plane, in
/// fixed-point: factors are per-pixel increments, offsets place the
/// origin.
#[derive(Clone, Copy, Debug, PartialEq, Eq, Structural)]
pub struct MathFrame {
    /// Per-column increment of the real part.
    pub factor_x: i64,
    /// Per-row increment of the imaginary part.
    pub factor_y: i64,
    /// Real part of the pixel at column zero.
    pub offset_x: i64,
    /// Imaginary part of the pixel at row zero.
    pub offset_y: i64,
}

/// The transform keeps every pixel of a `size_x` by `size_y` image within
/// the evaluator's coordinate bound: it suffices to check the corners.
pub open spec fn frame_ok(frame: MathFrame, size_x: u32, size_y: u32) -> bool {
    &&& -C_BOUND as int <= frame.offset_x as int <= C_BOUND as int
    &&& -C_BOUND as int <= frame.factor_x as int * (size_x as int - 1) + frame.offset_x as int
        <= C_BOUND as int
    &&& -C_BOUND as int <= frame.offset_y as int <= C_BOUND as int
    &&& -C_BOUND as int <= frame.factor_y as int * (size_y as int - 1) + frame.offset_y as int
        <= C_BOUND as int
}

/// An affine map bounded at both ends of an index range is bounded at
/// every index in between.
pub proof fn lemma_affine_bound(f: int, o: int, i: int, m: int, b: int)
    requires
        0 <= i <= m,
        -b <= o <= b,
        -b <= f * m + o <= b,
    ensures
        -b <= f * i + o <= b,
{
    if f >= 0 {
        lemma_mul_inequality(i, m, f);
        assert(i * f <= m * f);
        assert(f * i >= 0) by (nonlinear_arith)
            requires
                f >= 0,
                i >= 0,
        ;
    } else {
        lemma_mul_inequality(i, m, -f);
        assert(f * i <= 0) by (nonlinear_arith)
            requires
                f < 0,
                i >= 0,
        ;
        assert(f * i >= f * m) by (nonlinear_arith)
            requires
                i * (-f) <= m * (-f),
        ;
    }
}

/// Main object for the generation configuration of one run.
#[derive(Clone, Debug)]
pub struct Config {
    /// Fixed constant point: Julia mode when set, Mandelbrot mode when
    /// not.
    pub c_init: Option<Complex>,
    /// Image width in pixels.
    pub size_x: u32,
    /// Image height in pixels.
    pub size_y: u32,
    /// Maximum iterations per pixel.
    pub max_i: u64,
    /// Registry name of the generator formula.
    pub gen_formula: String,
    /// Registry name of the color formula.
    pub color_formula: String,
    /// Fixed-point rate of color change for the color formula.
    pub rate_of_color_change: i64,
    /// Registry name of the shadow formula.
    pub shadow_formula: String,
    /// Sentinel color of immediate escapes.
    pub background: Rgba,
    /// Sentinel color of points that never escape.
    pub foreground: Rgba,
    /// Measure travel distance instead of counting iterations.
    pub travel_distance: bool,
    /// Emit four channels per pixel instead of three.
    pub rgba: bool,
    /// Use the accelerated backend.
    pub gpu: bool,
    /// Target maximum chunk size, in total pixels.
    pub chunk_size: u64,
    /// Compression level for the image data stream.
    pub compression: u32,
    /// Worker count a parallel compressor may use; the library's own
    /// stream stage is single-threaded (one chunk in flight preserves
    /// order), so this setting is carried for the run's record only.
    pub compression_threads: u32,
    /// When set, only read back the configuration embedded in this file.
    pub read_config: Option<String>,
    /// Registry name of the save method.
    pub save_method: String,
    /// Output filename stem.
    pub filename: String,
    /// The coordinate transform of the run.
    pub math_frame: MathFrame,
}

impl Config {
    /// The structural invariant of a usable configuration.
    pub open spec fn wf(self) -> bool {
        &&& self.size_x >= 1
        &&& self.size_y >= 1
        &&& -RATE_BOUND as int <= self.rate_of_color_change as int <= RATE_BOUND as int
        &&& frame_ok(self.math_frame, self.size_x, self.size_y)
        &&& match self.c_init {
            Some(c) => in_range(c, C_BOUND as int),
            None => true,
        }
    }

    /// Output channels per pixel: four with an alpha channel, three
    /// without.
    pub open spec fn channels_spec(self) -> int {
        if self.rgba {
            4
        } else {
            3
        }
    }

    /// Output channels per pixel.
    pub fn channels(&self) -> (r: u32)
        ensures
            r == self.channels_spec(),
    {
        if self.rgba {
            4
        } else {
            3
        }
    }
}

impl Default for Config {
    /// The default run: a 512 by 512 standard-recurrence image of the
    /// viewport `[-2, 2]` squared, rendered to the discarding save method.
    fn default() -> (r: Config)
        ensures
            r.c_init is None,
            r.size_x == 512 && r.size_y == 512,
            r.max_i == 1024,
            r.gen_formula@ == "SD"@,
            r.color_formula@ == "ROTATIONAL"@,
            r.rate_of_color_change == 9 * crate::fixed::FIX_ONE,
            r.shadow_formula@ == "NONE"@,
            r.background == (Rgba { r: 0, g: 0, b: 0, a: 0 }),
            r.foreground == (Rgba { r: 0, g: 0, b: 0, a: 255 }),
            r.travel_distance == true,
            r.rgba == true,
            r.gpu == true,
            r.chunk_size == 16384,
            r.compression == 9,
            r.compression_threads == 100,
            r.read_config is None,
            r.save_method@ == "MOCK"@,
            r.filename@ == "out"@,
            r.math_frame == (MathFrame {
                factor_x: 513i64,
                factor_y: 513i64,
                offset_x: -131072i64,
                offset_y: -131072i64,
            }),
            r.wf(),
    {
        let c = Config {
            c_init: None,
            size_x: 512,
            size_y: 512,
            max_i: 1024,
            gen_formula: String::from_str("SD"),
            color_formula: String::from_str("ROTATIONAL"),
            rate_of_color_change: 9 * crate::fixed::FIX_ONE,
            shadow_formula: String::from_str("NONE"),
            background: Rgba { r: 0, g: 0, b: 0, a: 0 },
            foreground: Rgba { r: 0, g: 0, b: 0, a: 255 },
            travel_distance: true,
            rgba: true,
            gpu: true,
            chunk_size: 16384,
            compression: 9,
            compression_threads: 100,
            read_config: None,
            save_method: String::from_str("MOCK"),
            filename: String::from_str("out"),
            math_frame: MathFrame {
                factor_x: 513,
                factor_y: 513,
                offset_x: -131072,
                offset_y: -131072,
            },
        };
        proof {
            assert(frame_ok(c.math_frame, 512, 512));
        }
        c
    }
}

/// The configuration gate, as a function of the configuration: the
/// first failing check decides the error, in this order — dimensions,
/// iteration cap, chunk budget, the four registry names, then the
/// fixed-point ranges.
pub open spec fn validate_spec(c: Config) -> Result<(), ConfigError> {
    if c.size_x == 0 || c.size_y == 0 {
        Err(ConfigError::InvalidDimensions)
    } else if c.max_i == 0 {
        Err(ConfigError::ZeroIterations)
    } else if c.chunk_size as int / c.size_x as int == 0 {
        Err(ConfigError::ChunkBudgetTooSmall)
    } else if crate::math::formula::generator_lookup(c.gen_formula@) is Err {
        Err(ConfigError::UnknownGenerator)
    } else if crate::colors::color::color_lookup(c.color_formula@) is Err {
        Err(ConfigError::UnknownColor)
    } else if crate::colors::shadows::shadow_lookup(c.shadow_formula@) is Err {
        Err(ConfigError::UnknownShadow)
    } else if crate::save::save_lookup(c.save_method@) is Err {
        Err(ConfigError::UnknownSaveMethod)
    } else if !(-RATE_BOUND <= c.rate_of_color_change && c.rate_of_color_change <= RATE_BOUND) {
        Err(ConfigError::RateTooLarge)
    } else if !frame_ok(c.math_frame, c.size_x, c.size_y) {
        Err(ConfigError::FrameOutOfRange)
    } else if c.c_init matches Some(ci) && !in_range(ci, C_BOUND as int) {
        Err(ConfigError::ConstantOutOfRange)
    } else {
        Ok(())
    }
}

impl Config {
    /// Checks the whole configuration before any rendering work starts:
    /// a rejected configuration never reaches a backend, and an accepted
    /// one is well formed.
    pub fn validate(&self) -> (r: Result<(), ConfigError>)
        ensures
            r == validate_spec(*self),
            r is Ok ==> self.wf() && self.max_i >= 1,
    {
        if self.size_x == 0 || self.size_y == 0 {
            return Err(ConfigError::InvalidDimensions);
        }
        if self.max_i == 0 {
            return Err(ConfigError::ZeroIterations);
        }
        if self.chunk_size / (self.size_x as u64) == 0 {
            return Err(ConfigError::ChunkBudgetTooSmall);
        }
        match crate::math::formula::get_formula(self.gen_formula.as_str()) {
            Ok(_) => {},
            Err(_) => {
                return Err(ConfigError::UnknownGenerator);
            },
        }
        match crate::colors::color::get_color(self.color_formula.as_str()) {
            Ok(_) => {},
            Err(_) => {
                return Err(ConfigError::UnknownColor);
            },
        }
        match crate::colors::shadows::get_shadow(self.shadow_formula.as_str()) {
            Ok(_) => {},
            Err(_) => {
                return Err(ConfigError::UnknownShadow);
            },
        }
        match crate::save::get_save_method(self.save_method.as_str()) {
            Ok(_) => {},
            Err(_) => {
                return Err(ConfigError::UnknownSaveMethod);
            },
        }
        if !(-RATE_BOUND <= self.rate_of_color_change && self.rate_of_color_change <= RATE_BOUND) {
            return Err(ConfigError::RateTooLarge);
        }
        proof {
            assert(-0x8000_0000_0000_0000_0000_0000_0000 <= self.math_frame.factor_x as int * (
            self.size_x as int - 1) <= 0x8000_0000_0000_0000_0000_0000_0000
                && -0x8000_0000_0000_0000_0000_0000_0000 <= self.math_frame.factor_y as int * (
            self.size_y as int - 1) <= 0x8000_0000_0000_0000_0000_0000_0000) by (nonlinear_arith)
                requires
                    -0x8000_0000_0000_0000 <= self.math_frame.factor_x as int
                        <= 0x8000_0000_0000_0000,
                    -0x8000_0000_0000_0000 <= self.math_frame.factor_y as int
                        <= 0x8000_0000_0000_0000,
                    0 <= self.size_x as int - 1,
                    self.size_x as int <= 0x1_0000_0000,
                    0 <= self.size_y as int - 1,
                    self.size_y as int <= 0x1_0000_0000,
            ;
        }
        let fx_end: i128 = (self.math_frame.factor_x as i128) * ((self.size_x - 1) as i128)
            + (self.math_frame.offset_x as i128);
        let fy_end: i128 = (self.math_frame.factor_y as i128) * ((self.size_y - 1) as i128)
            + (self.math_frame.offset_y as i128);
        let c_bound: i128 = C_BOUND as i128;
        if !(-C_BOUND <= self.math_frame.offset_x && self.math_frame.offset_x <= C_BOUND
            && -c_bound <= fx_end && fx_end <= c_bound && -C_BOUND <= self.math_frame.offset_y
            && self.math_frame.offset_y <= C_BOUND && -c_bound <= fy_end && fy_end <= c_bound) {
            return Err(ConfigError::FrameOutOfRange);
        }
        match self.c_init {
            Some(ci) => {
                if !(-C_BOUND <= ci.real && ci.real <= C_BOUND && -C_BOUND <= ci.imaginary
                    && ci.imaginary <= C_BOUND) {
                    return Err(ConfigError::ConstantOutOfRange);
                }
            },
            None => {},
        }
        Ok(())
    }
}

/// Where the coordinate mapper sends pixel `(row, col)`.
pub open spec fn map_spec(row: u32, col: u32, frame: MathFrame) -> Complex {
    Complex {
        real: (frame.factor_x as int * col as int + frame.offset_x as int) as i64,
        imaginary: (frame.factor_y as int * row as int + frame.offset_y as int) as i64,
    }
}

/// Maps a pixel onto the complex plane through the run's linear
/// transform: pure, total, and within the evaluator's coordinate bound.
pub fn map_coord(row: u32, col: u32, frame: &MathFrame, size_x: u32, size_y: u32) -> (r: Complex)
    requires
        frame_ok(*frame, size_x, size_y),
        col < size_x,
        row < size_y,
    ensures
        r == map_spec(row, col, *frame),
        in_range(r, C_BOUND as int),
{
    proof {
        lemma_affine_bound(
            frame.factor_x as int,
            frame.offset_x as int,
            col as int,
            size_x as int - 1,
            C_BOUND as int,
        );
        lemma_affine_bound(
            frame.factor_y as int,
            frame.offset_y as int,
            row as int,
            size_y as int - 1,
            C_BOUND as int,
        );
        assert(-0x8000_0000_0000_0000_0000_0000_0000 <= frame.factor_x as int * col as int
            <= 0x8000_0000_0000_0000_0000_0000_0000) by (nonlinear_arith)
            requires
                -0x8000_0000_0000_0000 <= frame.factor_x as int <= 0x8000_0000_0000_0000,
                0 <= col as int <= 0x1_0000_0000,
        ;
        assert(-0x8000_0000_0000_0000_0000_0000_0000 <= frame.factor_y as int * row as int
            <= 0x8000_0000_0000_0000_0000_0000_0000) by (nonlinear_arith)
            requires
                -0x8000_0000_0000_0000 <= frame.factor_y as int <= 0x8000_0000_0000_0000,
                0 <= row as int <= 0x1_0000_0000,
        ;
    }
    let real128: i128 = (frame.factor_x as i128) * (col as i128) + (frame.offset_x as i128);
    let imag128: i128 = (frame.factor_y as i128) * (row as i128) + (frame.offset_y as i128);
    Complex { real: real128 as i64, imaginary: imag128 as i64 }
}

/// The frame a chunk evaluates with: the run frame shifted down by the
/// chunk's first row, so that the chunk's local row zero maps where the
/// global first row maps.
pub open spec fn frame_for_chunk_spec(frame: MathFrame, first_row: u32) -> MathFrame {
    MathFrame {
        factor_x: frame.factor_x,
        factor_y: frame.factor_y,
        offset_x: frame.offset_x,
        offset_y: (frame.factor_y as int * first_row as int + frame.offset_y as int) as i64,
    }
}

/// Derives the chunk-local frame.  Mapping local row `i` through it equals
/// mapping global row `first_row + i` through the run frame.
pub fn frame_for_chunk(frame: &MathFrame, first_row: u32, size_x: u32, size_y: u32) -> (r:
    MathFrame)
    requires
        frame_ok(*frame, size_x, size_y),
        first_row < size_y,
    ensures
        r == frame_for_chunk_spec(*frame, first_row),
{
    proof {
        lemma_affine_bound(
            frame.factor_y as int,
            frame.offset_y as int,
            first_row as int,
            size_y as int - 1,
            C_BOUND as int,
        );
        assert(-0x8000_0000_0000_0000_0000_0000_0000 <= frame.factor_y as int * first_row as int
            <= 0x8000_0000_0000_0000_0000_0000_0000) by (nonlinear_arith)
            requires
                -0x8000_0000_0000_0000 <= frame.factor_y as int <= 0x8000_0000_0000_0000,
                0 <= first_row as int <= 0x1_0000_0000,
        ;
    }
    let off: i128 = (frame.factor_y as i128) * (first_row as i128) + (frame.offset_y as i128);
    MathFrame {
        factor_x: frame.factor_x,
        factor_y: frame.factor_y,
        offset_x: frame.offset_x,
        offset_y: off as i64,
    }
}

/// Mapping a local row through a chunk's derived frame agrees with
/// mapping the global row through the run frame.
pub proof fn lemma_chunk_frame_maps_same(
    frame: MathFrame,
    first_row: u32,
    local_row: u32,
    col: u32,
    size_x: u32,
    size_y: u32,
)
    requires
        frame_ok(frame, size_x, size_y),
        first_row + local_row < size_y,
        col < size_x,
    ensures
        map_spec(local_row, col, frame_for_chunk_spec(frame, first_row)) == map_spec(
            (first_row + local_row) as u32,
            col,
            frame,
        ),
{
    let fy = frame.factor_y as int;
    lemma_affine_bound(
        fy,
        frame.offset_y as int,
        first_row as int,
        size_y as int - 1,
        C_BOUND as int,
    );
    lemma_affine_bound(
        fy,
        frame.offset_y as int,
        first_row as int + local_row as int,
        size_y as int - 1,
        C_BOUND as int,
    );
    assert(fy * (first_row as int + local_row as int) == fy * first_row as int + fy
        * local_row as int) by (nonlinear_arith);
}

} // verus!
