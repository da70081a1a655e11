//! Persistence Stage: frames the streaming PNG byte for byte.
//!
//! The stage emits the PNG signature, the `IHDR` header and an embedded
//! `zTXt` chunk holding the serialized run configuration before any pixel
//! data exists, then one `IDAT` chunk per compressed fragment as the
//! fragments arrive, and finally the `IEND` trailer.  Writing the pieces
//! to the output file is the caller's concern; this stage owns the
//! format and the order.

use vstd::prelude::*;

use crate::compress::compress_all;
use crate::error::StreamError;

verus! {

/// The CRC-32 checksum (as used by PNG) of a byte sequence.
pub uninterp spec fn crc32_of(data: Seq<u8>) -> u32;

/// Relies on crc32fast::hash: the IEEE CRC-32 of the bytes, a function of
/// the bytes alone.
#[verifier::external_body]
fn crc32(data: &Vec<u8>) -> (r: u32)
    ensures
        r == crc32_of(data@),
{
    crc32fast::hash(data.as_slice())
}

/// The four big-endian bytes of a 32-bit value.
pub open spec fn be32_spec(x: int) -> Seq<u8>
    recommends
        0 <= x < 0x1_0000_0000,
{
    seq![
        ((x / 0x100_0000) % 256) as u8,
        ((x / 0x1_0000) % 256) as u8,
        ((x / 0x100) % 256) as u8,
        (x % 256) as u8,
    ]
}

/// Appends the four big-endian bytes of `x`.
pub fn be32_append(out: &mut Vec<u8>, x: u32)
    ensures
        final(out)@ == old(out)@ + be32_spec(x as int),
{
    out.push((x / 0x100_0000) as u8);
    out.push(((x / 0x1_0000) % 256) as u8);
    out.push(((x / 0x100) % 256) as u8);
    out.push((x % 256) as u8);
    proof {
        assert(x as int / 0x100_0000 < 256) by (nonlinear_arith)
            requires
                0 <= x as int,
                (x as int) < 0x1_0000_0000,
        ;
        assert(final(out)@ =~= old(out)@ + be32_spec(x as int));
    }
}

/// Appends a copy of `src`.
pub fn bytes_append(out: &mut Vec<u8>, src: &Vec<u8>)
    ensures
        final(out)@ == old(out)@ + src@,
{
    let n: usize = src.len();
    let mut i: usize = 0;
    while i < n
        invariant
            n == src@.len(),
            i <= n,
            out@ == old(out)@ + src@.subrange(0, i as int),
        decreases n - i,
    {
        out.push(src[i]);
        proof {
            assert(src@.subrange(0, i as int + 1) =~= src@.subrange(0, i as int).push(
                src@[i as int],
            ));
            assert(out@ =~= old(out)@ + src@.subrange(0, i as int + 1));
        }
        i = i + 1;
    }
    proof {
        assert(src@.subrange(0, n as int) =~= src@);
    }
}

/// One PNG chunk: payload length, type tag, payload, and the CRC-32 of
/// tag and payload.
pub open spec fn png_chunk_spec(ctype: Seq<u8>, data: Seq<u8>) -> Seq<u8>
    recommends
        ctype.len() == 4,
        data.len() < 0x1_0000_0000,
{
    be32_spec(data.len() as int) + ctype + data + be32_spec(crc32_of(ctype + data) as int)
}

/// Frames one PNG chunk around a payload.
pub fn png_chunk(ctype: &Vec<u8>, data: &Vec<u8>) -> (r: Vec<u8>)
    requires
        ctype@.len() == 4,
        data@.len() < 0x1_0000_0000,
    ensures
        r@ == png_chunk_spec(ctype@, data@),
{
    let mut td: Vec<u8> = Vec::new();
    bytes_append(&mut td, ctype);
    bytes_append(&mut td, data);
    let crc: u32 = crc32(&td);
    let mut out: Vec<u8> = Vec::new();
    be32_append(&mut out, data.len() as u32);
    bytes_append(&mut out, &td);
    be32_append(&mut out, crc);
    proof {
        assert(out@ =~= png_chunk_spec(ctype@, data@));
    }
    out
}

/// The eight signature bytes every PNG file starts with.
pub open spec fn png_signature_spec() -> Seq<u8> {
    seq![137u8, 80u8, 78u8, 71u8, 13u8, 10u8, 26u8, 10u8]
}

/// The `IHDR` payload: dimensions, bit depth 8, truecolor with or
/// without alpha, no interlacing.
pub open spec fn ihdr_payload_spec(width: u32, height: u32, rgba: bool) -> Seq<u8> {
    be32_spec(width as int) + be32_spec(height as int) + seq![
        8u8,
        (if rgba {
            6u8
        } else {
            2u8
        }),
        0u8,
        0u8,
        0u8,
    ]
}

/// The type tag of the header chunk.
pub open spec fn ihdr_tag_spec() -> Seq<u8> {
    seq![73u8, 72u8, 68u8, 82u8]
}

/// The type tag of an image-data chunk.
pub open spec fn idat_tag_spec() -> Seq<u8> {
    seq![73u8, 68u8, 65u8, 84u8]
}

/// The type tag of the trailer chunk.
pub open spec fn iend_tag_spec() -> Seq<u8> {
    seq![73u8, 69u8, 78u8, 68u8]
}

/// The type tag of a compressed text chunk.
pub open spec fn ztxt_tag_spec() -> Seq<u8> {
    seq![122u8, 84u8, 88u8, 116u8]
}

/// The fixed start of the configuration text chunk's payload: the
/// keyword `kyros_config`, its terminator, and deflate as the text
/// compression method.
pub open spec fn ztxt_prefix_spec() -> Seq<u8> {
    seq![
        107u8,
        121u8,
        114u8,
        111u8,
        115u8,
        95u8,
        99u8,
        111u8,
        110u8,
        102u8,
        105u8,
        103u8,
        0u8,
        0u8,
    ]
}

/// The states of the persistence stage.
#[derive(Clone, Copy, Debug, PartialEq, Eq, Structural)]
pub enum PersistState {
    /// Nothing emitted yet; the header comes first.
    Fresh,
    /// The header is out; image-data chunks may follow.
    Streaming,
    /// The trailer is out; the stream is complete.
    Finished,
}

/// The persistence stage: emits the pieces of the PNG stream in their
/// only legal order and counts the image-data chunks.
pub struct PngStream {
    /// Where the stream stands.
    pub state: PersistState,
    /// How many image-data chunks have been emitted.
    pub idat_count: u32,
}

impl PngStream {
    /// A stream that has emitted nothing.
    pub fn new() -> (r: PngStream)
        ensures
            r.state == PersistState::Fresh,
            r.idat_count == 0,
    {
        PngStream { state: PersistState::Fresh, idat_count: 0 }
    }

    /// Emits everything that precedes pixel data: signature, header
    /// chunk, and the embedded configuration text chunk.
    pub fn header(
        &mut self,
        width: u32,
        height: u32,
        rgba: bool,
        config_text: &Vec<u8>,
        level: u32,
    ) -> (r: Result<Vec<u8>, StreamError>)
        requires
            old(self).state == PersistState::Fresh,
            level <= 9,
        ensures
            r is Ok <==> crate::compress::zlib_stream_of(seq![config_text@], level).len()
                < 0xFFFF_0000,
            r is Ok ==> final(self).state == PersistState::Streaming,
            r is Err ==> final(self).state == PersistState::Fresh && r == Err::<Vec<u8>, _>(
                StreamError::Oversize,
            ),
            final(self).idat_count == old(self).idat_count,
            r is Ok ==> r.unwrap()@ == png_signature_spec() + png_chunk_spec(
                ihdr_tag_spec(),
                ihdr_payload_spec(width, height, rgba),
            ) + png_chunk_spec(
                ztxt_tag_spec(),
                ztxt_prefix_spec() + crate::compress::zlib_stream_of(seq![config_text@], level),
            ),
    {
        let compressed_text: Vec<u8> = compress_all(config_text, level);
        if compressed_text.len() >= 0xFFFF_0000 {
            return Err(StreamError::Oversize);
        }
        let mut out: Vec<u8> = Vec::new();
        out.push(137);
        out.push(80);
        out.push(78);
        out.push(71);
        out.push(13);
        out.push(10);
        out.push(26);
        out.push(10);
        proof {
            assert(out@ =~= png_signature_spec());
        }

        let mut ihdr_tag: Vec<u8> = Vec::new();
        ihdr_tag.push(73);
        ihdr_tag.push(72);
        ihdr_tag.push(68);
        ihdr_tag.push(82);
        let mut ihdr_payload: Vec<u8> = Vec::new();
        be32_append(&mut ihdr_payload, width);
        be32_append(&mut ihdr_payload, height);
        ihdr_payload.push(8);
        ihdr_payload.push(if rgba {
            6
        } else {
            2
        });
        ihdr_payload.push(0);
        ihdr_payload.push(0);
        ihdr_payload.push(0);
        proof {
            assert(ihdr_tag@ =~= ihdr_tag_spec());
            assert(ihdr_payload@ =~= ihdr_payload_spec(width, height, rgba));
        }
        let ihdr = png_chunk(&ihdr_tag, &ihdr_payload);
        bytes_append(&mut out, &ihdr);

        let mut ztxt_tag: Vec<u8> = Vec::new();
        ztxt_tag.push(122);
        ztxt_tag.push(84);
        ztxt_tag.push(88);
        ztxt_tag.push(116);
        let mut ztxt_payload: Vec<u8> = Vec::new();
        ztxt_payload.push(107);
        ztxt_payload.push(121);
        ztxt_payload.push(114);
        ztxt_payload.push(111);
        ztxt_payload.push(115);
        ztxt_payload.push(95);
        ztxt_payload.push(99);
        ztxt_payload.push(111);
        ztxt_payload.push(110);
        ztxt_payload.push(102);
        ztxt_payload.push(105);
        ztxt_payload.push(103);
        ztxt_payload.push(0);
        ztxt_payload.push(0);
        proof {
            assert(ztxt_payload@ =~= ztxt_prefix_spec());
            assert(ztxt_tag@ =~= ztxt_tag_spec());
        }
        bytes_append(&mut ztxt_payload, &compressed_text);
        let ztxt = png_chunk(&ztxt_tag, &ztxt_payload);
        bytes_append(&mut out, &ztxt);

        self.state = PersistState::Streaming;
        proof {
            assert(out@ == png_signature_spec() + png_chunk_spec(
                ihdr_tag_spec(),
                ihdr_payload_spec(width, height, rgba),
            ) + png_chunk_spec(ztxt_tag_spec(), ztxt_prefix_spec() + compressed_text@));
        }
        Ok(out)
    }

    /// Emits one compressed fragment as one `IDAT` chunk; fragments
    /// arrive and leave in order.
    pub fn idat(&mut self, frag: &Vec<u8>) -> (r: Vec<u8>)
        requires
            old(self).state == PersistState::Streaming,
            old(self).idat_count < 0xFFFF_FFFF,
            frag@.len() < 0x1_0000_0000,
        ensures
            final(self).state == PersistState::Streaming,
            final(self).idat_count == old(self).idat_count + 1,
            r@ == png_chunk_spec(idat_tag_spec(), frag@),
    {
        let mut idat_tag: Vec<u8> = Vec::new();
        idat_tag.push(73);
        idat_tag.push(68);
        idat_tag.push(65);
        idat_tag.push(84);
        proof {
            assert(idat_tag@ =~= idat_tag_spec());
        }
        self.idat_count = self.idat_count + 1;
        png_chunk(&idat_tag, frag)
    }

    /// Emits the trailer chunk and closes the stream.
    pub fn finish(&mut self) -> (r: Vec<u8>)
        requires
            old(self).state == PersistState::Streaming,
        ensures
            final(self).state == PersistState::Finished,
            final(self).idat_count == old(self).idat_count,
            r@ == png_chunk_spec(iend_tag_spec(), Seq::<u8>::empty()),
    {
        let mut iend_tag: Vec<u8> = Vec::new();
        iend_tag.push(73);
        iend_tag.push(69);
        iend_tag.push(78);
        iend_tag.push(68);
        let empty: Vec<u8> = Vec::new();
        proof {
            assert(iend_tag@ =~= iend_tag_spec());
            assert(empty@ =~= Seq::<u8>::empty());
        }
        self.state = PersistState::Finished;
        png_chunk(&iend_tag, &empty)
    }
}

} // verus!
