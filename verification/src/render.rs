//! The CPU compute backend: renders a chunk's rows into a raw byte
//! buffer, pixel by pixel, through the coordinate mapper, the point
//! evaluator and the color resolver.
//!
//! The buffer a chunk produces is specified byte for byte, so rendering
//! is a pure function of the configuration and the chunk: re-rendering
//! the same inputs yields the same bytes.

use vstd::prelude::*;

use crate::colors::color::ColorKind;
use crate::colors::color::color_lookup;
use crate::colors::color::color_value;
use crate::colors::color::color_value_spec;
use crate::colors::color::get_color;
use crate::colors::profiles::ColorProfile;
use crate::colors::profiles::RgbProfile;
use crate::colors::profiles::get_profile;
use crate::colors::profiles::hsv_rgba_spec;
use crate::colors::shadows::ShadowKind;
use crate::colors::shadows::get_shadow;
use crate::colors::shadows::shadow_lookup;
use crate::colors::shadows::shadow_value;
use crate::colors::shadows::shadow_value_spec;
use crate::error::ConfigError;
use crate::eval::PixelClass;
use crate::eval::classify;
use crate::eval::classify_spec;
use crate::eval::eval_from;
use crate::eval::evaluate;
use crate::fixed::FIX_ONE;
use crate::fixed::emod;
use crate::math::formula::GeneratorKind;
use crate::math::formula::generator_lookup;
use crate::math::formula::get_formula;
use crate::math::structs::Complex;
use crate::plan::Chunk;
use crate::structs::Config;
use crate::structs::map_spec;
use crate::structs::map_coord;

verus! {

/// The escape measurement of pixel `(row, col)` under `config`.
pub open spec fn pixel_eval_spec(gk: GeneratorKind, config: Config, row: u32, col: u32) -> (
    int,
    int,
) {
    let z0 = map_spec(row, col, config.math_frame);
    let c = match config.c_init {
        Some(ci) => ci,
        None => z0,
    };
    eval_from(gk, c, z0, 0, 0, config.max_i as nat, config.travel_distance)
}

/// The four RGBA bytes of pixel `(row, col)`: a sentinel color, or the
/// resolved formula color.
pub open spec fn pixel_rgba_spec(
    gk: GeneratorKind,
    ck: ColorKind,
    sk: ShadowKind,
    config: Config,
    row: u32,
    col: u32,
) -> Seq<u8> {
    let e = pixel_eval_spec(gk, config, row, col);
    match classify_spec(e.0, e.1, config.max_i as int) {
        PixelClass::Background => seq![
            config.background.r,
            config.background.g,
            config.background.b,
            config.background.a,
        ],
        PixelClass::Foreground => seq![
            config.foreground.r,
            config.foreground.g,
            config.foreground.b,
            config.foreground.a,
        ],
        PixelClass::Colored => hsv_rgba_spec(
            color_value_spec(ck, e.0, config.rate_of_color_change as int) % (360 * FIX_ONE as int),
            shadow_value_spec(sk, e.0),
        ),
    }
}

/// The bytes a pixel contributes to the buffer: the RGBA bytes truncated
/// to the configured channel count.
pub open spec fn pixel_bytes_spec(
    gk: GeneratorKind,
    ck: ColorKind,
    sk: ShadowKind,
    config: Config,
    row: u32,
    col: u32,
) -> Seq<u8> {
    pixel_rgba_spec(gk, ck, sk, config, row, col).subrange(0, config.channels_spec())
}

/// The bytes of the first `ncols` pixels of a row, in column order.
pub open spec fn row_bytes_spec(
    gk: GeneratorKind,
    ck: ColorKind,
    sk: ShadowKind,
    config: Config,
    row: u32,
    ncols: int,
) -> Seq<u8>
    decreases ncols,
{
    if ncols <= 0 {
        Seq::empty()
    } else {
        row_bytes_spec(gk, ck, sk, config, row, ncols - 1) + pixel_bytes_spec(
            gk,
            ck,
            sk,
            config,
            row,
            (ncols - 1) as u32,
        )
    }
}

/// The bytes of the first `nrows` rows of a band starting at `first_row`,
/// in row order.
pub open spec fn chunk_bytes_spec(
    gk: GeneratorKind,
    ck: ColorKind,
    sk: ShadowKind,
    config: Config,
    first_row: u32,
    nrows: int,
) -> Seq<u8>
    decreases nrows,
{
    if nrows <= 0 {
        Seq::empty()
    } else {
        chunk_bytes_spec(gk, ck, sk, config, first_row, nrows - 1) + row_bytes_spec(
            gk,
            ck,
            sk,
            config,
            (first_row + nrows - 1) as u32,
            config.size_x as int,
        )
    }
}

/// A row of `ncols` pixels contributes `ncols * channels` bytes.
#[verifier::rlimit(60)]
pub proof fn lemma_row_bytes_len(
    gk: GeneratorKind,
    ck: ColorKind,
    sk: ShadowKind,
    config: Config,
    row: u32,
    ncols: int,
)
    requires
        ncols >= 0,
    ensures
        row_bytes_spec(gk, ck, sk, config, row, ncols).len() == ncols * config.channels_spec(),
    decreases ncols,
{
    if ncols > 0 {
        lemma_row_bytes_len(gk, ck, sk, config, row, ncols - 1);
        assert(ncols * config.channels_spec() == (ncols - 1) * config.channels_spec()
            + config.channels_spec()) by (nonlinear_arith);
    } else {
        assert(0 * config.channels_spec() == 0) by (nonlinear_arith);
    }
}

/// A band of `nrows` rows contributes `nrows * size_x * channels` bytes.
#[verifier::rlimit(60)]
pub proof fn lemma_chunk_bytes_len(
    gk: GeneratorKind,
    ck: ColorKind,
    sk: ShadowKind,
    config: Config,
    first_row: u32,
    nrows: int,
)
    requires
        nrows >= 0,
    ensures
        chunk_bytes_spec(gk, ck, sk, config, first_row, nrows).len() == nrows * (
        config.size_x as int * config.channels_spec()),
    decreases nrows,
{
    if nrows > 0 {
        lemma_chunk_bytes_len(gk, ck, sk, config, first_row, nrows - 1);
        lemma_row_bytes_len(
            gk,
            ck,
            sk,
            config,
            (first_row + nrows - 1) as u32,
            config.size_x as int,
        );
        assert(nrows * (config.size_x as int * config.channels_spec()) == (nrows - 1) * (
        config.size_x as int * config.channels_spec()) + config.size_x as int
            * config.channels_spec()) by (nonlinear_arith);
    } else {
        assert(0 * (config.size_x as int * config.channels_spec()) == 0) by (nonlinear_arith);
    }
}

/// A pixel contributes exactly `channels` bytes.
pub proof fn lemma_pixel_bytes_len(
    gk: GeneratorKind,
    ck: ColorKind,
    sk: ShadowKind,
    config: Config,
    row: u32,
    col: u32,
)
    ensures
        pixel_bytes_spec(gk, ck, sk, config, row, col).len() == config.channels_spec(),
{
    assert(pixel_rgba_spec(gk, ck, sk, config, row, col).len() == 4);
}

/// Where a pixel sits in a row's bytes: column `j` occupies the
/// `channels` bytes at offset `j * channels`.
#[verifier::rlimit(60)]
proof fn lemma_row_pixel_at(
    gk: GeneratorKind,
    ck: ColorKind,
    sk: ShadowKind,
    config: Config,
    row: u32,
    ncols: int,
    j: int,
)
    requires
        0 <= j < ncols,
        ncols <= u32::MAX,
    ensures
        row_bytes_spec(gk, ck, sk, config, row, ncols).subrange(
            j * config.channels_spec(),
            (j + 1) * config.channels_spec(),
        ) == pixel_bytes_spec(gk, ck, sk, config, row, j as u32),
    decreases ncols,
{
    let ch = config.channels_spec();
    let whole = row_bytes_spec(gk, ck, sk, config, row, ncols);
    let left = row_bytes_spec(gk, ck, sk, config, row, ncols - 1);
    let px = pixel_bytes_spec(gk, ck, sk, config, row, (ncols - 1) as u32);
    lemma_row_bytes_len(gk, ck, sk, config, row, ncols - 1);
    lemma_pixel_bytes_len(gk, ck, sk, config, row, (ncols - 1) as u32);
    if j == ncols - 1 {
        assert(j * ch == left.len() && (j + 1) * ch == whole.len()) by (nonlinear_arith)
            requires
                left.len() == (ncols - 1) * ch,
                whole.len() == left.len() + ch,
                j == ncols - 1,
        ;
        assert(whole.subrange(j * ch, (j + 1) * ch) =~= px);
    } else {
        lemma_row_pixel_at(gk, ck, sk, config, row, ncols - 1, j);
        assert((j + 1) * ch <= left.len()) by (nonlinear_arith)
            requires
                left.len() == (ncols - 1) * ch,
                0 <= j < ncols - 1,
                ch >= 0,
        ;
        vstd::arithmetic::mul::lemma_mul_nonnegative(j, ch);
        assert(whole.subrange(j * ch, (j + 1) * ch) =~= left.subrange(j * ch, (j + 1) * ch));
    }
}

/// Where a pixel sits in a chunk's buffer: local row `i`, column `j`
/// occupies the `channels` bytes at offset `(i * size_x + j) * channels`,
/// and holds that pixel's resolved bytes for global row `first_row + i`.
#[verifier::rlimit(60)]
pub proof fn lemma_chunk_pixel_at(
    gk: GeneratorKind,
    ck: ColorKind,
    sk: ShadowKind,
    config: Config,
    first_row: u32,
    nrows: int,
    i: int,
    j: int,
)
    requires
        0 <= i < nrows,
        0 <= j < config.size_x,
        first_row + nrows <= u32::MAX,
    ensures
        chunk_bytes_spec(gk, ck, sk, config, first_row, nrows).subrange(
            (i * config.size_x as int + j) * config.channels_spec(),
            (i * config.size_x as int + j) * config.channels_spec() + config.channels_spec(),
        ) == pixel_bytes_spec(gk, ck, sk, config, (first_row + i) as u32, j as u32),
    decreases nrows,
{
    let ch = config.channels_spec();
    let sx = config.size_x as int;
    let whole = chunk_bytes_spec(gk, ck, sk, config, first_row, nrows);
    let left = chunk_bytes_spec(gk, ck, sk, config, first_row, nrows - 1);
    let last_row = row_bytes_spec(gk, ck, sk, config, (first_row + nrows - 1) as u32, sx);
    lemma_chunk_bytes_len(gk, ck, sk, config, first_row, nrows - 1);
    lemma_row_bytes_len(gk, ck, sk, config, (first_row + nrows - 1) as u32, sx);
    vstd::arithmetic::mul::lemma_mul_nonnegative(i * sx + j, ch);
    if i == nrows - 1 {
        lemma_row_pixel_at(gk, ck, sk, config, (first_row + i) as u32, sx, j);
        assert((i * sx + j) * ch == left.len() + j * ch && (i * sx + j) * ch + ch == left.len() + (
        j + 1) * ch && (j + 1) * ch <= last_row.len()) by (nonlinear_arith)
            requires
                left.len() == (nrows - 1) * (sx * ch),
                last_row.len() == sx * ch,
                i == nrows - 1,
                0 <= j < sx,
                ch >= 0,
        ;
        assert(whole.subrange(left.len() + j * ch, left.len() + (j + 1) * ch) =~= last_row.subrange(
            j * ch,
            (j + 1) * ch,
        ));
    } else {
        lemma_chunk_pixel_at(gk, ck, sk, config, first_row, nrows - 1, i, j);
        assert((i * sx + j) * ch + ch <= left.len()) by (nonlinear_arith)
            requires
                left.len() == (nrows - 1) * (sx * ch),
                0 <= i < nrows - 1,
                0 <= j < sx,
                ch >= 0,
        ;
        assert(whole.subrange((i * sx + j) * ch, (i * sx + j) * ch + ch) =~= left.subrange(
            (i * sx + j) * ch,
            (i * sx + j) * ch + ch,
        ));
    }
}

/// Renders one pixel and appends its bytes to the buffer.
fn render_pixel(
    gk: GeneratorKind,
    ck: ColorKind,
    sk: ShadowKind,
    config: &Config,
    profile: &RgbProfile,
    row: u32,
    col: u32,
    out: &mut Vec<u8>,
)
    requires
        config.wf(),
        row < config.size_y,
        col < config.size_x,
    ensures
        final(out)@ == old(out)@ + pixel_bytes_spec(gk, ck, sk, *config, row, col),
{
    let z0: Complex = map_coord(row, col, &config.math_frame, config.size_x, config.size_y);
    let c: Complex = match config.c_init {
        Some(ci) => ci,
        None => z0,
    };
    let e = evaluate(gk, c, z0, config.max_i, config.travel_distance);
    let cls = classify(&e, config.max_i);
    let px: Vec<u8> = match cls {
        PixelClass::Background => {
            vec![config.background.r, config.background.g, config.background.b, config.background.a]
        },
        PixelClass::Foreground => {
            vec![config.foreground.r, config.foreground.g, config.foreground.b, config.foreground.a]
        },
        PixelClass::Colored => {
            let hv: i64 = color_value(ck, e.value, config.rate_of_color_change);
            let hue: u64 = emod(hv, 23592960);
            let val: i64 = shadow_value(sk, e.value);
            profile.method(hue, val)
        },
    };
    proof {
        assert(px@ == pixel_rgba_spec(gk, ck, sk, *config, row, col));
    }
    let channels: u32 = config.channels();
    let mut idx: usize = 0;
    while idx < channels as usize
        invariant
            channels as int == config.channels_spec(),
            px@ == pixel_rgba_spec(gk, ck, sk, *config, row, col),
            px@.len() == 4,
            idx <= channels as usize,
            channels <= 4,
            out@ == old(out)@ + px@.subrange(0, idx as int),
        decreases channels as usize - idx,
    {
        out.push(px[idx]);
        proof {
            assert(px@.subrange(0, idx as int + 1) =~= px@.subrange(0, idx as int).push(
                px@[idx as int],
            ));
        }
        idx = idx + 1;
    }
    proof {
        assert(out@ == old(out)@ + pixel_bytes_spec(gk, ck, sk, *config, row, col));
    }
}

/// The resolution of a configuration's formula names, in the order the
/// renderer checks them.
pub open spec fn resolve_kinds_spec(config: Config) -> Result<
    (GeneratorKind, ColorKind, ShadowKind),
    ConfigError,
> {
    if color_lookup(config.color_formula@) is Err {
        Err(ConfigError::UnknownColor)
    } else if shadow_lookup(config.shadow_formula@) is Err {
        Err(ConfigError::UnknownShadow)
    } else if generator_lookup(config.gen_formula@) is Err {
        Err(ConfigError::UnknownGenerator)
    } else {
        Ok(
            (
                generator_lookup(config.gen_formula@).unwrap(),
                color_lookup(config.color_formula@).unwrap(),
                shadow_lookup(config.shadow_formula@).unwrap(),
            ),
        )
    }
}

/// Resolves the configuration's formula names against the registries.
pub fn resolve_kinds(config: &Config) -> (r: Result<
    (GeneratorKind, ColorKind, ShadowKind),
    ConfigError,
>)
    ensures
        r == resolve_kinds_spec(*config),
{
    let ck = match get_color(config.color_formula.as_str()) {
        Ok(k) => k,
        Err(e) => {
            return Err(e);
        },
    };
    let sk = match get_shadow(config.shadow_formula.as_str()) {
        Ok(k) => k,
        Err(e) => {
            return Err(e);
        },
    };
    let gk = match get_formula(config.gen_formula.as_str()) {
        Ok(k) => k,
        Err(e) => {
            return Err(e);
        },
    };
    Ok((gk, ck, sk))
}

/// Produces the raw byte buffer of one chunk: `row_count` rows starting at
/// `first_row`, every pixel resolved through the configured formulas.
///
/// The buffer is specified byte for byte, so both of two runs over the
/// same chunk return the same buffer.
pub fn produce_chunk(config: &Config, chunk: &Chunk) -> (r: Result<Vec<u8>, ConfigError>)
    requires
        config.wf(),
        chunk.first_row as int + chunk.row_count as int <= config.size_y as int,
    ensures
        resolve_kinds_spec(*config) is Err ==> r == Err::<Vec<u8>, _>(
            resolve_kinds_spec(*config).unwrap_err(),
        ),
        resolve_kinds_spec(*config) matches Ok((gk, ck, sk)) ==> r is Ok && r.unwrap()@
            == chunk_bytes_spec(gk, ck, sk, *config, chunk.first_row, chunk.row_count as int),
{
    let (gk, ck, sk) = match resolve_kinds(config) {
        Ok(t) => t,
        Err(e) => {
            return Err(e);
        },
    };
    let profile = get_profile(config);
    let mut out: Vec<u8> = Vec::new();
    let mut i: u32 = 0;
    while i < chunk.row_count
        invariant
            config.wf(),
            chunk.first_row as int + chunk.row_count as int <= config.size_y as int,
            i <= chunk.row_count,
            out@ == chunk_bytes_spec(gk, ck, sk, *config, chunk.first_row, i as int),
        decreases chunk.row_count - i,
    {
        let row: u32 = chunk.first_row + i;
        let mut j: u32 = 0;
        while j < config.size_x
            invariant
                config.wf(),
                chunk.first_row as int + chunk.row_count as int <= config.size_y as int,
                i < chunk.row_count,
                row == chunk.first_row + i,
                j <= config.size_x,
                out@ == chunk_bytes_spec(gk, ck, sk, *config, chunk.first_row, i as int)
                    + row_bytes_spec(gk, ck, sk, *config, row, j as int),
            decreases config.size_x - j,
        {
            render_pixel(gk, ck, sk, config, &profile, row, j, &mut out);
            j = j + 1;
        }
        i = i + 1;
        proof {
            assert(chunk_bytes_spec(gk, ck, sk, *config, chunk.first_row, i as int)
                == chunk_bytes_spec(gk, ck, sk, *config, chunk.first_row, i as int - 1)
                + row_bytes_spec(gk, ck, sk, *config, row, config.size_x as int));
        }
    }
    Ok(out)
}

/// Renders the whole image in one pass on the CPU backend: the reference
/// implementation and the default when no accelerator is requested.
///
/// The save method is resolved first, so a bad save name fails before
/// any pixel work, like every other configuration error.
pub fn cpu_eval(config: &Config) -> (r: Result<Vec<u8>, ConfigError>)
    requires
        config.wf(),
    ensures
        crate::save::save_lookup(config.save_method@) is Err ==> r == Err::<Vec<u8>, _>(
            ConfigError::UnknownSaveMethod,
        ),
        crate::save::save_lookup(config.save_method@) is Ok && resolve_kinds_spec(*config) is Err
            ==> r == Err::<Vec<u8>, _>(resolve_kinds_spec(*config).unwrap_err()),
        (crate::save::save_lookup(config.save_method@) is Ok && resolve_kinds_spec(*config) matches
            Ok((gk, ck, sk))) ==> r is Ok && r.unwrap()@ == chunk_bytes_spec(
            resolve_kinds_spec(*config).unwrap().0,
            resolve_kinds_spec(*config).unwrap().1,
            resolve_kinds_spec(*config).unwrap().2,
            *config,
            0,
            config.size_y as int,
        ),
{
    match crate::save::get_save_method(config.save_method.as_str()) {
        Ok(_) => {},
        Err(e) => {
            return Err(e);
        },
    }
    let whole = Chunk { index: 0, first_row: 0, row_count: config.size_y };
    produce_chunk(config, &whole)
}

/// Rendering is deterministic: two buffers meeting the chunk contract
/// for the same configuration and chunk are bit-identical.
pub proof fn lemma_render_deterministic(
    gk: GeneratorKind,
    ck: ColorKind,
    sk: ShadowKind,
    config: Config,
    first_row: u32,
    nrows: int,
    a: Seq<u8>,
    b: Seq<u8>,
)
    requires
        a == chunk_bytes_spec(gk, ck, sk, config, first_row, nrows),
        b == chunk_bytes_spec(gk, ck, sk, config, first_row, nrows),
    ensures
        a == b,
{
}

/// With an iteration cap of zero, every pixel of every chunk is the
/// background sentinel: the image is uniformly the background color.
pub proof fn lemma_zero_cap_uniform_background(
    gk: GeneratorKind,
    ck: ColorKind,
    sk: ShadowKind,
    config: Config,
    row: u32,
    col: u32,
)
    requires
        config.max_i == 0,
    ensures
        pixel_rgba_spec(gk, ck, sk, config, row, col) == seq![
            config.background.r,
            config.background.g,
            config.background.b,
            config.background.a,
        ],
{
}

} // verus!
