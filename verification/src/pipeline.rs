//! Pipeline Coordinator: tracks the three stages' progress and decides
//! when the compute stage may run ahead.
//!
//! Chunks flow compute → compress → persist in strictly increasing index
//! order; no stage may reorder or skip a chunk.  The coordinator's
//! counters are the three progress counters of a render (chunks
//! computed, compressed and written), and the in-flight bound is the
//! backpressure that caps peak memory at a fixed number of chunks
//! instead of the whole image.

use vstd::prelude::*;

use crate::compress::CompressionStage;
use crate::compress::StageState;
use crate::compress::pack_rows;
use crate::compress::packed_rows_spec;
use crate::error::RenderError;
use crate::persist::PersistState;
use crate::persist::PngStream;
use crate::persist::idat_tag_spec;
use crate::persist::iend_tag_spec;
use crate::persist::ihdr_payload_spec;
use crate::persist::ihdr_tag_spec;
use crate::persist::png_chunk_spec;
use crate::persist::png_signature_spec;
use crate::persist::ztxt_prefix_spec;
use crate::persist::ztxt_tag_spec;
use crate::plan::lemma_plan_covers_image;
use crate::plan::plan;
use crate::plan::plan_spec;
use crate::render::lemma_chunk_bytes_len;
use crate::render::produce_chunk;
use crate::render::resolve_kinds;
use crate::render::resolve_kinds_spec;
use crate::structs::Config;

verus! {

/// A run of image-data chunks, one per compressed fragment, in emission
/// order.
pub open spec fn idat_run(frags: Seq<Seq<u8>>) -> Seq<u8>
    decreases frags.len(),
{
    if frags.len() == 0 {
        Seq::empty()
    } else {
        idat_run(frags.drop_last()) + png_chunk_spec(idat_tag_spec(), frags.last())
    }
}

/// The concatenation of a fragment sequence.
pub open spec fn concat_frags(frags: Seq<Seq<u8>>) -> Seq<u8>
    decreases frags.len(),
{
    if frags.len() == 0 {
        Seq::empty()
    } else {
        concat_frags(frags.drop_last()) + frags.last()
    }
}

/// The packed scanline buffer of every planned chunk, in chunk order:
/// what the compression stage is fed over a whole run.
pub open spec fn packed_chunks_spec(
    gk: crate::math::formula::GeneratorKind,
    ck: crate::colors::color::ColorKind,
    sk: crate::colors::shadows::ShadowKind,
    config: Config,
) -> Seq<Seq<u8>> {
    let s = plan_spec(config.size_y, config.size_x, config.chunk_size);
    Seq::new(
        s.len(),
        |i: int|
            packed_rows_spec(
                crate::render::chunk_bytes_spec(
                    gk,
                    ck,
                    sk,
                    config,
                    s[i].first_row,
                    s[i].row_count as int,
                ),
                config.size_x as int * config.channels_spec(),
                s[i].row_count as int,
            ),
    )
}

/// Whether the compressed fragment of chunk `i` fits one PNG image-data
/// chunk: its length is the growth of the compressor's output at that
/// chunk boundary.
pub open spec fn fragment_fits(chunks: Seq<Seq<u8>>, level: u32, i: int) -> bool {
    if i < chunks.len() - 1 {
        (crate::compress::zlib_flushed_of(chunks.take(i + 1), level).len() as int)
            - (crate::compress::zlib_flushed_of(chunks.take(i), level).len() as int) < 0xFFFF_0000
    } else {
        (crate::compress::zlib_stream_of(chunks, level).len() as int)
            - (crate::compress::zlib_flushed_of(chunks.take(i), level).len() as int) < 0xFFFF_0000
    }
}

/// The compressed fragment of chunk `i`: the segment the compressor's
/// output grows by at that chunk boundary.
pub open spec fn fragment_of(chunks: Seq<Seq<u8>>, level: u32, i: int) -> Seq<u8> {
    if i < chunks.len() - 1 {
        crate::compress::zlib_flushed_of(chunks.take(i + 1), level).skip(
            crate::compress::zlib_flushed_of(chunks.take(i), level).len() as int,
        )
    } else {
        crate::compress::zlib_stream_of(chunks, level).skip(
            crate::compress::zlib_flushed_of(chunks.take(i), level).len() as int,
        )
    }
}

/// Runs the whole three-stage pipeline in one pass: plans the chunks,
/// renders each on the CPU backend, compresses it in arrival order, and
/// frames the stream as a PNG file.
///
/// On success the output is exactly one PNG stream: signature, header,
/// the configuration text chunk holding the deflated config text, one
/// image-data chunk per planned chunk whose payloads concatenate to the
/// deflate stream of the packed chunk sequence, and the trailer.  The
/// only failure after a valid configuration is a compressed payload
/// exceeding the chunk frame bound.
pub fn render_to_png(config: &Config, config_text: &Vec<u8>) -> (r: Result<Vec<u8>, RenderError>)
    requires
        config.wf(),
        config.compression <= 9,
        config.size_x < 0x1000_0000,
        config.size_y < 0x1000_0000,
        crate::plan::rows_per_chunk_spec(config.size_x, config.chunk_size) > 0,
    ensures
        resolve_kinds_spec(*config) is Err ==> r == Err::<Vec<u8>, _>(
            RenderError::Config(resolve_kinds_spec(*config).unwrap_err()),
        ),
        resolve_kinds_spec(*config) is Ok && r is Err ==> r == Err::<Vec<u8>, _>(
            RenderError::Stream(crate::error::StreamError::Oversize),
        ),
        r is Ok <==> (resolve_kinds_spec(*config) is Ok && crate::compress::zlib_stream_of(
            seq![config_text@],
            config.compression,
        ).len() < 0xFFFF_0000 && forall|k: int|
            0 <= k < plan_spec(config.size_y, config.size_x, config.chunk_size).len()
                ==> #[trigger] fragment_fits(
                packed_chunks_spec(
                    resolve_kinds_spec(*config).unwrap().0,
                    resolve_kinds_spec(*config).unwrap().1,
                    resolve_kinds_spec(*config).unwrap().2,
                    *config,
                ),
                config.compression,
                k,
            )),
        r is Ok ==> exists|frags: Seq<Seq<u8>>|
            #![trigger concat_frags(frags)]
            {
                let gk = resolve_kinds_spec(*config).unwrap().0;
                let ck = resolve_kinds_spec(*config).unwrap().1;
                let sk = resolve_kinds_spec(*config).unwrap().2;
                &&& frags.len() == plan_spec(config.size_y, config.size_x, config.chunk_size).len()
                &&& concat_frags(frags) == crate::compress::zlib_stream_of(
                    packed_chunks_spec(gk, ck, sk, *config),
                    config.compression,
                )
                &&& forall|k: int|
                    0 <= k < frags.len() ==> #[trigger] frags[k] == fragment_of(
                        packed_chunks_spec(gk, ck, sk, *config),
                        config.compression,
                        k,
                    )
                &&& r.unwrap()@ == png_signature_spec() + png_chunk_spec(
                    ihdr_tag_spec(),
                    ihdr_payload_spec(config.size_x, config.size_y, config.rgba),
                ) + png_chunk_spec(
                    ztxt_tag_spec(),
                    ztxt_prefix_spec() + crate::compress::zlib_stream_of(
                        seq![config_text@],
                        config.compression,
                    ),
                ) + idat_run(frags) + png_chunk_spec(iend_tag_spec(), Seq::<u8>::empty())
            },
{
    let (gk, ck, sk) = match resolve_kinds(config) {
        Ok(t) => t,
        Err(e) => {
            return Err(RenderError::Config(e));
        },
    };
    let chunks = match plan(config.size_y, config.size_x, config.chunk_size) {
        Ok(v) => v,
        Err(e) => {
            proof {
                assert(false);
            }
            return Err(RenderError::Config(e));
        },
    };
    proof {
        lemma_plan_covers_image(config.size_y, config.size_x, config.chunk_size);
    }
    let total: u32 = chunks.len() as u32;
    let channels: u32 = config.channels();
    let row_len: u32 = config.size_x * channels;

    let mut stage = CompressionStage::new(config.compression, total);
    let mut png = PngStream::new();
    let mut out: Vec<u8> = match png.header(
        config.size_x,
        config.size_y,
        config.rgba,
        config_text,
        config.compression,
    ) {
        Ok(v) => v,
        Err(e) => {
            return Err(RenderError::Stream(e));
        },
    };
    let ghost header: Seq<u8> = out@;
    let ghost mut frag_seq: Seq<Seq<u8>> = Seq::empty();
    proof {
        assert(packed_chunks_spec(gk, ck, sk, *config).take(0) =~= Seq::<Seq<u8>>::empty());
    }

    let mut i: u32 = 0;
    while i < total
        invariant
            config.wf(),
            config.compression <= 9,
            config.size_x < 0x1000_0000,
            config.size_y < 0x1000_0000,
            resolve_kinds_spec(*config) == Ok::<_, crate::error::ConfigError>((gk, ck, sk)),
            chunks@ == plan_spec(config.size_y, config.size_x, config.chunk_size),
            total == chunks@.len(),
            1 <= total <= config.size_y,
            channels as int == config.channels_spec(),
            row_len as int == config.size_x as int * config.channels_spec(),
            forall|k: int|
                0 <= k < chunks@.len() ==> (#[trigger] chunks@[k]).first_row as int
                    + chunks@[k].row_count as int <= config.size_y as int,
            forall|k: int| 0 <= k < chunks@.len() ==> (#[trigger] chunks@[k]).index == k,
            0 <= i <= total,
            stage.wf(),
            stage.total == total,
            stage.level == config.compression,
            i < total ==> stage.state == StageState::Idle && stage.next_index == i,
            i == total ==> stage.state == StageState::Done,
            stage.history@ == packed_chunks_spec(gk, ck, sk, *config).take(i as int),
            png.state == PersistState::Streaming,
            png.idat_count == i,
            frag_seq.len() == i as int,
            concat_frags(frag_seq) == stage.emitted@,
            forall|k: int|
                0 <= k < i as int ==> #[trigger] fragment_fits(
                    packed_chunks_spec(gk, ck, sk, *config),
                    config.compression,
                    k,
                ),
            forall|k: int|
                0 <= k < i as int ==> #[trigger] frag_seq[k] == fragment_of(
                    packed_chunks_spec(gk, ck, sk, *config),
                    config.compression,
                    k,
                ),
            header == png_signature_spec() + png_chunk_spec(
                ihdr_tag_spec(),
                ihdr_payload_spec(config.size_x, config.size_y, config.rgba),
            ) + png_chunk_spec(
                ztxt_tag_spec(),
                ztxt_prefix_spec() + crate::compress::zlib_stream_of(
                    seq![config_text@],
                    config.compression,
                ),
            ),
            out@ == header + idat_run(frag_seq),
        decreases total - i,
    {
        let chunk = chunks[i as usize];
        let raw = match produce_chunk(config, &chunk) {
            Ok(v) => v,
            Err(e) => {
                proof {
                    assert(false);
                }
                return Err(RenderError::Config(e));
            },
        };
        proof {
            lemma_chunk_bytes_len(gk, ck, sk, *config, chunk.first_row, chunk.row_count as int);
        }
        let packed = pack_rows(&raw, row_len, chunk.row_count);
        proof {
            assert(packed@ == packed_chunks_spec(gk, ck, sk, *config)[i as int]);
        }
        let ghost emitted_before: Seq<u8> = stage.emitted@;
        let frag = stage.accept_chunk(i, &packed);
        proof {
            let pc = packed_chunks_spec(gk, ck, sk, *config);
            assert(pc.len() == total);
            assert(stage.history@ =~= pc.take(i as int + 1));
            assert(emitted_before == crate::compress::zlib_flushed_of(
                pc.take(i as int),
                config.compression,
            ));
            if i + 1 == total {
                assert(pc.take(i as int + 1) =~= pc);
                assert(stage.emitted@ == crate::compress::zlib_stream_of(pc, config.compression));
            } else {
                assert(stage.emitted@ == crate::compress::zlib_flushed_of(
                    pc.take(i as int + 1),
                    config.compression,
                ));
            }
            assert(stage.emitted@.len() == emitted_before.len() + frag@.len());
            assert((emitted_before + frag@).skip(emitted_before.len() as int) =~= frag@);
            assert(frag@ == fragment_of(pc, config.compression, i as int));
        }
        if frag.len() >= 0xFFFF_0000 {
            proof {
                assert(!fragment_fits(
                    packed_chunks_spec(gk, ck, sk, *config),
                    config.compression,
                    i as int,
                ));
            }
            return Err(RenderError::Stream(crate::error::StreamError::Oversize));
        }
        proof {
            assert(fragment_fits(
                packed_chunks_spec(gk, ck, sk, *config),
                config.compression,
                i as int,
            ));
        }
        let piece = png.idat(&frag);
        crate::persist::bytes_append(&mut out, &piece);
        proof {
            let prev = frag_seq;
            frag_seq = frag_seq.push(frag@);
            assert(frag_seq.drop_last() =~= prev);
            assert(concat_frags(frag_seq) == concat_frags(prev) + frag@);
            assert(idat_run(frag_seq) == idat_run(prev) + png_chunk_spec(idat_tag_spec(), frag@));
            assert(out@ =~= header + idat_run(frag_seq));
        }
        i = i + 1;
    }
    let trailer = png.finish();
    crate::persist::bytes_append(&mut out, &trailer);
    proof {
        assert(stage.history@ =~= packed_chunks_spec(gk, ck, sk, *config));
        assert(concat_frags(frag_seq) == crate::compress::zlib_stream_of(
            packed_chunks_spec(gk, ck, sk, *config),
            config.compression,
        ));
        assert(out@ == header + idat_run(frag_seq) + png_chunk_spec(
            iend_tag_spec(),
            Seq::<u8>::empty(),
        ));
    }
    Ok(out)
}

/// Progress and backpressure state of one render.
#[derive(Clone, Copy, Debug, PartialEq, Eq, Structural)]
pub struct Coordinator {
    /// Total chunks of the render.
    pub total: u32,
    /// How many computed chunks may sit unconsumed ahead of the
    /// compression stage.
    pub capacity: u32,
    /// Chunks fully computed; the next chunk to compute is this index.
    pub computed: u32,
    /// Chunks fully compressed; the next chunk to compress is this
    /// index.
    pub compressed: u32,
    /// Chunks whose fragments are fully written; the next chunk to
    /// write is this index.
    pub written: u32,
}

impl Coordinator {
    /// The stages never run out of order and never exceed the in-flight
    /// bound.
    pub open spec fn wf(self) -> bool {
        &&& self.capacity >= 1
        &&& self.written <= self.compressed <= self.computed <= self.total
        &&& self.computed - self.compressed <= self.capacity
    }

    /// Whether the compute stage may produce its next chunk now: there
    /// is one left, and producing it keeps the in-flight bound.
    pub open spec fn can_submit_spec(self) -> bool {
        self.computed < self.total && (self.computed as int - self.compressed as int)
            < self.capacity as int
    }

    /// A fresh coordinator: nothing computed, compressed or written.
    pub fn new(total: u32, capacity: u32) -> (r: Coordinator)
        requires
            capacity >= 1,
        ensures
            r.wf(),
            r.total == total,
            r.capacity == capacity,
            r.computed == 0 && r.compressed == 0 && r.written == 0,
    {
        Coordinator { total, capacity, computed: 0, compressed: 0, written: 0 }
    }

    /// Whether the compute stage may produce its next chunk, or must
    /// block until the compression stage catches up.
    pub fn can_submit(&self) -> (r: bool)
        requires
            self.wf(),
        ensures
            r == self.can_submit_spec(),
    {
        self.computed < self.total && self.computed - self.compressed < self.capacity
    }

    /// Records that the next chunk has been computed and handed on.
    pub fn note_computed(&mut self) -> (r: u32)
        requires
            old(self).wf(),
            old(self).can_submit_spec(),
        ensures
            final(self).wf(),
            *final(self) == (Coordinator { computed: (old(self).computed + 1) as u32, ..*old(self) }),
            r == old(self).computed,
    {
        let idx = self.computed;
        self.computed = self.computed + 1;
        idx
    }

    /// Records that the next chunk has been compressed.
    pub fn note_compressed(&mut self) -> (r: u32)
        requires
            old(self).wf(),
            old(self).compressed < old(self).computed,
        ensures
            final(self).wf(),
            *final(self) == (Coordinator {
                compressed: (old(self).compressed + 1) as u32,
                ..*old(self)
            }),
            r == old(self).compressed,
    {
        let idx = self.compressed;
        self.compressed = self.compressed + 1;
        idx
    }

    /// Records that the next chunk's fragments have been written.
    pub fn note_written(&mut self) -> (r: u32)
        requires
            old(self).wf(),
            old(self).written < old(self).compressed,
        ensures
            final(self).wf(),
            *final(self) == (Coordinator { written: (old(self).written + 1) as u32, ..*old(self) }),
            r == old(self).written,
    {
        let idx = self.written;
        self.written = self.written + 1;
        idx
    }

    /// Whether every chunk has made it to the file.
    pub fn is_done(&self) -> (r: bool)
        requires
            self.wf(),
        ensures
            r == (self.written == self.total),
    {
        self.written == self.total
    }
}

/// Backpressure blocks the producer: once the compute stage has produced
/// `capacity` more chunks than compression has consumed, it may not
/// submit another until compression catches up.
pub proof fn lemma_backpressure_blocks(c: Coordinator)
    requires
        c.wf(),
        c.computed - c.compressed == c.capacity,
    ensures
        !c.can_submit_spec(),
{
}

/// Order preservation: the next chunk each stage handles is exactly the
/// count of chunks that stage has finished, so every chunk is written
/// after it was compressed, compressed after it was computed, and no
/// stage skips or reorders a chunk.
pub proof fn lemma_stages_in_order(c: Coordinator)
    requires
        c.wf(),
    ensures
        c.written <= c.compressed,
        c.compressed <= c.computed,
        c.computed <= c.total,
{
}

} // verus!
