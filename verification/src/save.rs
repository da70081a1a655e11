//! Save methods: encode a finished raw image into an output file's
//! bytes.  Writing those bytes to a file or a terminal is the caller's
//! concern.

use vstd::prelude::*;
use vstd::slice::slice_to_vec;
use vstd::string::StringExecFns;

use crate::compress::compress_all;
use crate::compress::pack_rows;
use crate::compress::packed_rows_spec;
use crate::error::ConfigError;
use crate::error::SaveError;
use crate::persist::idat_tag_spec;
use crate::persist::iend_tag_spec;
use crate::persist::ihdr_payload_spec;
use crate::persist::ihdr_tag_spec;
use crate::persist::png_chunk;
use crate::persist::png_chunk_spec;
use crate::persist::png_signature_spec;
use crate::str_eq;
use crate::structs::Config;

verus! {

/// The standard base64 digit of a 6-bit value.
pub open spec fn b64_digit(v: int) -> u8
    recommends
        0 <= v < 64,
{
    if v < 26 {
        (65 + v) as u8
    } else if v < 52 {
        (97 + (v - 26)) as u8
    } else if v < 62 {
        (48 + (v - 52)) as u8
    } else if v == 62 {
        43u8
    } else {
        47u8
    }
}

/// Standard base64 with padding: three bytes become four digits, a tail
/// of one or two bytes is padded with `=`.
pub open spec fn base64_spec(data: Seq<u8>) -> Seq<u8>
    decreases data.len(),
{
    if data.len() == 0 {
        Seq::empty()
    } else if data.len() == 1 {
        let b0 = data[0] as int;
        seq![b64_digit(b0 / 4), b64_digit((b0 % 4) * 16), 61u8, 61u8]
    } else if data.len() == 2 {
        let b0 = data[0] as int;
        let b1 = data[1] as int;
        seq![
            b64_digit(b0 / 4),
            b64_digit((b0 % 4) * 16 + b1 / 16),
            b64_digit((b1 % 16) * 4),
            61u8,
        ]
    } else {
        let b0 = data[0] as int;
        let b1 = data[1] as int;
        let b2 = data[2] as int;
        seq![
            b64_digit(b0 / 4),
            b64_digit((b0 % 4) * 16 + b1 / 16),
            b64_digit((b1 % 16) * 4 + b2 / 64),
            b64_digit(b2 % 64),
        ] + base64_spec(data.skip(3))
    }
}

/// The base64 digit of a 6-bit value.
fn b64_digit_exec(v: u8) -> (r: u8)
    requires
        v < 64,
    ensures
        r == b64_digit(v as int),
{
    if v < 26 {
        65 + v
    } else if v < 52 {
        97 + (v - 26)
    } else if v < 62 {
        48 + (v - 52)
    } else if v == 62 {
        43
    } else {
        47
    }
}

/// Encodes bytes as standard base64 with padding.
pub fn base64_encode(data: &Vec<u8>) -> (r: Vec<u8>)
    ensures
        r@ == base64_spec(data@),
{
    let n: usize = data.len();
    let mut out: Vec<u8> = Vec::new();
    let mut i: usize = 0;
    proof {
        assert(data@.skip(0) =~= data@);
    }
    while n - i >= 3
        invariant
            n == data@.len(),
            i <= n,
            base64_spec(data@) == out@ + base64_spec(data@.skip(i as int)),
        decreases n - i,
    {
        let b0: u8 = data[i];
        let b1: u8 = data[i + 1];
        let b2: u8 = data[i + 2];
        proof {
            let rest = data@.skip(i as int);
            assert(rest.len() >= 3);
            assert(rest[0] == data@[i as int]);
            assert(rest[1] == data@[i as int + 1]);
            assert(rest[2] == data@[i as int + 2]);
            assert(rest.skip(3) =~= data@.skip(i as int + 3));
        }
        out.push(b64_digit_exec(b0 / 4));
        out.push(b64_digit_exec((b0 % 4) * 16 + b1 / 16));
        out.push(b64_digit_exec((b1 % 16) * 4 + b2 / 64));
        out.push(b64_digit_exec(b2 % 64));
        i = i + 3;
        proof {
            assert(base64_spec(data@) =~= out@ + base64_spec(data@.skip(i as int)));
        }
    }
    let rem: usize = n - i;
    if rem == 1 {
        let b0: u8 = data[i];
        proof {
            let rest = data@.skip(i as int);
            assert(rest.len() == 1);
            assert(rest[0] == data@[i as int]);
        }
        out.push(b64_digit_exec(b0 / 4));
        out.push(b64_digit_exec((b0 % 4) * 16));
        out.push(61);
        out.push(61);
        proof {
            assert(out@ =~= base64_spec(data@));
        }
    } else if rem == 2 {
        let b0: u8 = data[i];
        let b1: u8 = data[i + 1];
        proof {
            let rest = data@.skip(i as int);
            assert(rest.len() == 2);
            assert(rest[0] == data@[i as int]);
            assert(rest[1] == data@[i as int + 1]);
        }
        out.push(b64_digit_exec(b0 / 4));
        out.push(b64_digit_exec((b0 % 4) * 16 + b1 / 16));
        out.push(b64_digit_exec((b1 % 16) * 4));
        out.push(61);
        proof {
            assert(out@ =~= base64_spec(data@));
        }
    } else {
        proof {
            assert(data@.skip(i as int).len() == 0);
            assert(base64_spec(data@.skip(i as int)) == Seq::<u8>::empty());
            assert(out@ =~= out@ + base64_spec(data@.skip(i as int)));
        }
    }
    proof {
        assert(out@ =~= base64_spec(data@));
    }
    out
}

/// The TIFF encoding the image crate produces for a raw buffer: a
/// function of the buffer, the dimensions and the color type alone.
pub uninterp spec fn tiff_encoding_of(data: Seq<u8>, width: u32, height: u32, rgba: bool) -> Seq<
    u8,
>;

/// Relies on image's TiffEncoder::write_image into an in-memory cursor.
/// The encoder asserts the buffer length and errors on zero dimensions
/// or a file too large for TIFF's 32-bit offsets; the preconditions keep
/// all three out, so with an in-memory cursor the call cannot fail and
/// the unwrap cannot fire.  The encoding is a function of the buffer,
/// the dimensions and the color type alone.
#[verifier::external_body]
fn tiff_encode(buf: &[u8], width: u32, height: u32, rgba: bool) -> (r: Vec<u8>)
    requires
        buf@.len() == width as int * height as int * (if rgba {
            4int
        } else {
            3int
        }),
        width >= 1,
        height >= 1,
        buf@.len() < 0xFFFF_0000,
    ensures
        r@ == tiff_encoding_of(buf@, width, height, rgba),
{
    let mut cur = std::io::Cursor::new(Vec::new());
    let enc = image::codecs::tiff::TiffEncoder::new(&mut cur);
    let ct = if rgba {
        image::ExtendedColorType::Rgba8
    } else {
        image::ExtendedColorType::Rgb8
    };
    image::ImageEncoder::write_image(enc, buf, width, height, ct).unwrap();
    cur.into_inner()
}

/// A raw image buffer matches the configured geometry, and the geometry
/// is small enough to frame: nonzero dimensions and a raw size under the
/// container formats' 32-bit bounds.
pub open spec fn image_len_ok(config: Config, len: int) -> bool {
    &&& len == config.size_y as int * (config.size_x as int * config.channels_spec())
    &&& 1 <= config.size_x < 0x1000_0000
    &&& 1 <= config.size_y < 0x1000_0000
    &&& len < 0xFFFF_0000
    &&& config.compression <= 9
}

/// The deflated scanline stream of a raw image under a configuration:
/// the rows packed with filter bytes, compressed as one closed zlib
/// stream at the configured level.
pub open spec fn png_payload_spec(config: Config, data: Seq<u8>) -> Seq<u8> {
    crate::compress::zlib_stream_of(
        seq![
            packed_rows_spec(
                data,
                config.size_x as int * config.channels_spec(),
                config.size_y as int,
            ),
        ],
        config.compression,
    )
}

/// Whether a save method succeeds on a raw image: always, except where a
/// deflated PNG payload exceeds the chunk frame bound.
pub open spec fn save_success_spec(k: SaveKind, config: Config, data: Seq<u8>) -> bool {
    match k {
        SaveKind::Png => png_payload_spec(config, data).len() < 0xFFFF_0000,
        SaveKind::B64 => png_payload_spec(config, data).len() < 0xFFFF_0000,
        SaveKind::Tiff => true,
        SaveKind::Mock => true,
    }
}

/// A whole single-data-chunk PNG file around a compressed payload.
pub open spec fn plain_png_spec(width: u32, height: u32, rgba: bool, z: Seq<u8>) -> Seq<u8> {
    png_signature_spec() + png_chunk_spec(ihdr_tag_spec(), ihdr_payload_spec(width, height, rgba))
        + png_chunk_spec(idat_tag_spec(), z) + png_chunk_spec(iend_tag_spec(), Seq::<u8>::empty())
}

/// Encodes the raw image as a complete PNG file: signature, header, one
/// image-data chunk holding the deflated scanlines, and the trailer.
fn png_file_bytes(image_buffer: &[u8], config: &Config) -> (r: Result<Vec<u8>, SaveError>)
    requires
        image_len_ok(*config, image_buffer@.len() as int),
    ensures
        r is Ok <==> png_payload_spec(*config, image_buffer@).len() < 0xFFFF_0000,
        r is Err ==> r == Err::<Vec<u8>, _>(SaveError::Encoding),
        r is Ok ==> r.unwrap()@ == plain_png_spec(
            config.size_x,
            config.size_y,
            config.rgba,
            png_payload_spec(*config, image_buffer@),
        ),
{
    let data: Vec<u8> = slice_to_vec(image_buffer);
    let channels: u32 = config.channels();
    let row_len: u32 = config.size_x * channels;
    proof {
        assert(data@.len() == config.size_y as int * (row_len as int)) by (nonlinear_arith)
            requires
                data@.len() == config.size_y as int * (config.size_x as int
                    * config.channels_spec()),
                row_len as int == config.size_x as int * config.channels_spec(),
        ;
    }
    let packed = pack_rows(&data, row_len, config.size_y);
    let compressed: Vec<u8> = compress_all(&packed, config.compression);
    proof {
        assert(compressed@ == png_payload_spec(*config, image_buffer@));
    }
    if compressed.len() >= 0xFFFF_0000 {
        return Err(SaveError::Encoding);
    }
    let mut out: Vec<u8> = Vec::new();
    out.push(137);
    out.push(80);
    out.push(78);
    out.push(71);
    out.push(13);
    out.push(10);
    out.push(26);
    out.push(10);
    proof {
        assert(out@ =~= png_signature_spec());
    }
    let mut ihdr_tag: Vec<u8> = Vec::new();
    ihdr_tag.push(73);
    ihdr_tag.push(72);
    ihdr_tag.push(68);
    ihdr_tag.push(82);
    let mut ihdr_payload: Vec<u8> = Vec::new();
    crate::persist::be32_append(&mut ihdr_payload, config.size_x);
    crate::persist::be32_append(&mut ihdr_payload, config.size_y);
    ihdr_payload.push(8);
    ihdr_payload.push(if config.rgba {
        6
    } else {
        2
    });
    ihdr_payload.push(0);
    ihdr_payload.push(0);
    ihdr_payload.push(0);
    proof {
        assert(ihdr_tag@ =~= ihdr_tag_spec());
        assert(ihdr_payload@ =~= ihdr_payload_spec(config.size_x, config.size_y, config.rgba));
    }
    let ihdr = png_chunk(&ihdr_tag, &ihdr_payload);
    crate::persist::bytes_append(&mut out, &ihdr);
    let mut idat_tag: Vec<u8> = Vec::new();
    idat_tag.push(73);
    idat_tag.push(68);
    idat_tag.push(65);
    idat_tag.push(84);
    proof {
        assert(idat_tag@ =~= idat_tag_spec());
    }
    let idat = png_chunk(&idat_tag, &compressed);
    crate::persist::bytes_append(&mut out, &idat);
    let mut iend_tag: Vec<u8> = Vec::new();
    iend_tag.push(73);
    iend_tag.push(69);
    iend_tag.push(78);
    iend_tag.push(68);
    let empty: Vec<u8> = Vec::new();
    proof {
        assert(iend_tag@ =~= iend_tag_spec());
        assert(empty@ =~= Seq::<u8>::empty());
    }
    let iend = png_chunk(&iend_tag, &empty);
    crate::persist::bytes_append(&mut out, &iend);
    proof {
        assert(out@ == plain_png_spec(config.size_x, config.size_y, config.rgba, compressed@));
    }
    Ok(out)
}

/// Which save method a run uses.
#[derive(Clone, Copy, Debug, PartialEq, Eq, Structural)]
pub enum SaveKind {
    /// A PNG file.
    Png,
    /// A base64 rendering of the PNG file, for a terminal.
    B64,
    /// A TIFF file.
    Tiff,
    /// A discarding method for tests.
    Mock,
}

/// Registry alias of a save method.
pub open spec fn save_alias(k: SaveKind) -> Seq<char> {
    match k {
        SaveKind::Png => "PNG"@,
        SaveKind::B64 => "B64"@,
        SaveKind::Tiff => "TIFF"@,
        SaveKind::Mock => "MOCK"@,
    }
}

/// Human-readable description of a save method.
pub open spec fn save_description(k: SaveKind) -> Seq<char> {
    match k {
        SaveKind::Png => "Saves Image as PNG."@,
        SaveKind::B64 => "Sends base-64 encoded PNG image to std-out."@,
        SaveKind::Tiff => "Saves Image as TIFF"@,
        SaveKind::Mock => "A Save method meant to be used for testing, doesn't actually save and data."@,
    }
}

/// What a save method's successful output is: each payload a named
/// function of the raw image and the configuration.
pub open spec fn save_output_ok(k: SaveKind, config: Config, data: Seq<u8>, out: Seq<u8>) -> bool {
    match k {
        SaveKind::Png => out == plain_png_spec(
            config.size_x,
            config.size_y,
            config.rgba,
            png_payload_spec(config, data),
        ),
        SaveKind::B64 => out == base64_spec(
            plain_png_spec(
                config.size_x,
                config.size_y,
                config.rgba,
                png_payload_spec(config, data),
            ),
        ),
        SaveKind::Tiff => out == tiff_encoding_of(data, config.size_x, config.size_y, config.rgba),
        SaveKind::Mock => out == Seq::<u8>::empty(),
    }
}

/// A pluggable save method: a registry entry that encodes a raw image
/// into the bytes of an output file.
pub trait Save {
    /// Which catalog entry this method is.
    spec fn kind(&self) -> SaveKind;

    /// The alias under which the registry finds the method.
    fn get_alias(&self) -> (r: String)
        ensures
            r@ == save_alias(self.kind()),
    ;

    /// A one-line description for the registry catalog.
    fn get_description(&self) -> (r: String)
        ensures
            r@ == save_description(self.kind()),
    ;

    /// Encodes the raw image; succeeds exactly where the encoding fits
    /// its container.
    fn method(&self, image_buffer: &[u8], config: &Config) -> (r: Result<Vec<u8>, SaveError>)
        requires
            image_len_ok(*config, image_buffer@.len() as int),
        ensures
            r is Ok <==> save_success_spec(self.kind(), *config, image_buffer@),
            r is Ok ==> save_output_ok(self.kind(), *config, image_buffer@, r.unwrap()@),
    ;
}

/// A PNG file.
pub struct PNG {}

impl Save for PNG {
    open spec fn kind(&self) -> SaveKind {
        SaveKind::Png
    }

    fn get_alias(&self) -> (r: String) {
        String::from_str("PNG")
    }

    fn get_description(&self) -> (r: String) {
        String::from_str("Saves Image as PNG.")
    }

    fn method(&self, image_buffer: &[u8], config: &Config) -> (r: Result<Vec<u8>, SaveError>) {
        png_file_bytes(image_buffer, config)
    }
}

/// A base64 rendering of the PNG file.
pub struct B64 {}

impl Save for B64 {
    open spec fn kind(&self) -> SaveKind {
        SaveKind::B64
    }

    fn get_alias(&self) -> (r: String) {
        String::from_str("B64")
    }

    fn get_description(&self) -> (r: String) {
        String::from_str("Sends base-64 encoded PNG image to std-out.")
    }

    fn method(&self, image_buffer: &[u8], config: &Config) -> (r: Result<Vec<u8>, SaveError>) {
        let png = match png_file_bytes(image_buffer, config) {
            Ok(v) => v,
            Err(e) => {
                return Err(e);
            },
        };
        Ok(base64_encode(&png))
    }
}

/// A TIFF file.
pub struct TIFF {}

impl Save for TIFF {
    open spec fn kind(&self) -> SaveKind {
        SaveKind::Tiff
    }

    fn get_alias(&self) -> (r: String) {
        String::from_str("TIFF")
    }

    fn get_description(&self) -> (r: String) {
        String::from_str("Saves Image as TIFF")
    }

    fn method(&self, image_buffer: &[u8], config: &Config) -> (r: Result<Vec<u8>, SaveError>) {
        proof {
            assert(image_buffer@.len() == config.size_x as int * config.size_y as int * (
            if config.rgba {
                4int
            } else {
                3int
            })) by (nonlinear_arith)
                requires
                    image_buffer@.len() == config.size_y as int * (config.size_x as int
                        * config.channels_spec()),
                    config.channels_spec() == if config.rgba {
                        4int
                    } else {
                        3int
                    },
            ;
        }
        Ok(tiff_encode(image_buffer, config.size_x, config.size_y, config.rgba))
    }
}

/// A discarding save method for tests.
struct MOCK {}

impl Save for MOCK {
    open spec fn kind(&self) -> SaveKind {
        SaveKind::Mock
    }

    fn get_alias(&self) -> (r: String) {
        String::from_str("MOCK")
    }

    fn get_description(&self) -> (r: String) {
        String::from_str(
            "A Save method meant to be used for testing, doesn't actually save and data.",
        )
    }

    fn method(&self, image_buffer: &[u8], config: &Config) -> (r: Result<Vec<u8>, SaveError>) {
        let empty: Vec<u8> = Vec::new();
        proof {
            assert(empty@ =~= Seq::<u8>::empty());
        }
        Ok(empty)
    }
}

/// The registry lookup as a function of the queried name.
pub open spec fn save_lookup(s: Seq<char>) -> Result<SaveKind, ConfigError> {
    if s == save_alias(SaveKind::Png) {
        Ok(SaveKind::Png)
    } else if s == save_alias(SaveKind::B64) {
        Ok(SaveKind::B64)
    } else if s == save_alias(SaveKind::Tiff) {
        Ok(SaveKind::Tiff)
    } else if s == save_alias(SaveKind::Mock) {
        Ok(SaveKind::Mock)
    } else {
        Err(ConfigError::UnknownSaveMethod)
    }
}

/// Resolves a save method name; unknown names are a configuration
/// error, never a crash.
pub fn get_save_method(save_method: &str) -> (r: Result<SaveKind, ConfigError>)
    ensures
        r == save_lookup(save_method@),
{
    if str_eq(save_method, "PNG") {
        Ok(SaveKind::Png)
    } else if str_eq(save_method, "B64") {
        Ok(SaveKind::B64)
    } else if str_eq(save_method, "TIFF") {
        Ok(SaveKind::Tiff)
    } else if str_eq(save_method, "MOCK") {
        Ok(SaveKind::Mock)
    } else {
        Err(ConfigError::UnknownSaveMethod)
    }
}

/// Encodes a raw image with the selected save method.
pub fn save_encode(k: SaveKind, image_buffer: &[u8], config: &Config) -> (r: Result<
    Vec<u8>,
    SaveError,
>)
    requires
        image_len_ok(*config, image_buffer@.len() as int),
    ensures
        r is Ok <==> save_success_spec(k, *config, image_buffer@),
        r is Ok ==> save_output_ok(k, *config, image_buffer@, r.unwrap()@),
{
    match k {
        SaveKind::Png => PNG {}.method(image_buffer, config),
        SaveKind::B64 => B64 {}.method(image_buffer, config),
        SaveKind::Tiff => TIFF {}.method(image_buffer, config),
        SaveKind::Mock => MOCK {}.method(image_buffer, config),
    }
}

/// The catalog text enumerating every save method alias with its
/// description.
pub open spec fn save_catalog_spec() -> Seq<char> {
    "  "@ + save_alias(SaveKind::Png) + "\t"@ + save_description(SaveKind::Png) + "\n  "@
        + save_alias(SaveKind::B64) + "\t"@ + save_description(SaveKind::B64) + "\n  "@
        + save_alias(SaveKind::Tiff) + "\t"@ + save_description(SaveKind::Tiff) + "\n  "@
        + save_alias(SaveKind::Mock) + "\t"@ + save_description(SaveKind::Mock)
}

/// Builds the human-readable catalog of valid save method names.
pub fn save_catalog() -> (r: String)
    ensures
        r@ == save_catalog_spec(),
{
    let mut out = String::from_str("  ");
    out.append(PNG {}.get_alias().as_str());
    out.append("\t");
    out.append(PNG {}.get_description().as_str());
    out.append("\n  ");
    out.append(B64 {}.get_alias().as_str());
    out.append("\t");
    out.append(B64 {}.get_description().as_str());
    out.append("\n  ");
    out.append(TIFF {}.get_alias().as_str());
    out.append("\t");
    out.append(TIFF {}.get_description().as_str());
    out.append("\n  ");
    out.append(MOCK {}.get_alias().as_str());
    out.append("\t");
    out.append(MOCK {}.get_description().as_str());
    out
}

} // verus!
