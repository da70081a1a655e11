//! Compression Stage: repacks raw chunk rows into PNG scanlines and
//! deflates them incrementally, one chunk in flight at a time.
//!
//! The stage is the sole owner of the compressor.  Chunks must arrive in
//! strictly increasing index order — that is a hard precondition, not a
//! recoverable condition.  Each non-final chunk ends in a sync flush, the
//! final chunk closes the stream, so the fragments handed on concatenate
//! to exactly one zlib stream of the chunk sequence: `zlib_stream_of`
//! names that stream, and every fragment is pinned as a segment of it.

use vstd::prelude::*;

verus! {

/// The zlib stream compressor: flate2's `ZlibEncoder` writing into an
/// in-memory sink.  Verus cannot hold the encoder type itself, so it
/// lives inside this opaque holder and is reached only through the
/// trusted functions below.  Every function of this interface leaves the
/// sink empty, so each handed-out fragment is exactly the output since
/// the previous chunk boundary.
#[verifier::external_body]
pub struct ChunkCompressor {
    inner: flate2::write::ZlibEncoder<Vec<u8>>,
}

/// The chunk sequence fed to a compressor so far, one entry per
/// completed (sync-flushed) chunk.
pub uninterp spec fn zlib_chunks(e: ChunkCompressor) -> Seq<Seq<u8>>;

/// The compression level a compressor was created with.
pub uninterp spec fn zlib_level(e: ChunkCompressor) -> u32;

/// The bytes flate2's zlib compressor has emitted after feeding the
/// given chunks in order at the given level, sync-flushing each: a
/// function of the chunks and the level alone (the backing deflate
/// implementation is pure, deterministic Rust).
pub uninterp spec fn zlib_flushed_of(chunks: Seq<Seq<u8>>, level: u32) -> Seq<u8>;

/// The complete closed zlib stream flate2 emits for the given chunks at
/// the given level: each chunk fed in order, every chunk but the last
/// followed by a sync flush, the stream finished after the last.  A
/// function of the chunks and the level alone.
pub uninterp spec fn zlib_stream_of(chunks: Seq<Seq<u8>>, level: u32) -> Seq<u8>;

/// Relies on flate2's ZlibEncoder::new: a fresh compressor with an empty
/// sink that has been fed nothing and has emitted nothing.  No panic for
/// levels up to 9, kept by the precondition.
#[verifier::external_body]
fn zlib_new(level: u32) -> (r: ChunkCompressor)
    requires
        level <= 9,
    ensures
        zlib_chunks(r) == Seq::<Seq<u8>>::empty(),
        zlib_level(r) == level,
        zlib_flushed_of(zlib_chunks(r), zlib_level(r)) == Seq::<u8>::empty(),
{
    ChunkCompressor {
        inner: flate2::write::ZlibEncoder::new(Vec::new(), flate2::Compression::new(level)),
    }
}

/// Relies on flate2's ZlibEncoder: Write::write_all feeds the bytes in
/// order, Write::flush performs a sync flush that drains every
/// compressed byte into the sink, and get_mut with core's mem::take
/// hands the sink out empty.  With an in-memory Vec sink and no writes
/// after the stream is closed, none of these can fail, so the unwraps
/// cannot fire.  The returned bytes are the compressor's whole output
/// since the previous chunk boundary.
#[verifier::external_body]
fn zlib_push_chunk(e: &mut ChunkCompressor, data: &Vec<u8>) -> (r: Vec<u8>)
    ensures
        zlib_chunks(*final(e)) == zlib_chunks(*old(e)).push(data@),
        zlib_level(*final(e)) == zlib_level(*old(e)),
        zlib_flushed_of(zlib_chunks(*old(e)), zlib_level(*old(e))) + r@ == zlib_flushed_of(
            zlib_chunks(*final(e)),
            zlib_level(*final(e)),
        ),
{
    std::io::Write::write_all(&mut e.inner, data.as_slice()).unwrap();
    std::io::Write::flush(&mut e.inner).unwrap();
    core::mem::take(e.inner.get_mut())
}

/// Relies on flate2's ZlibEncoder: Write::write_all feeds the final
/// chunk and finish closes the deflate stream, returning the sink with
/// every remaining compressed byte.  With a Vec sink neither can fail,
/// so the unwraps cannot fire.  Together with the output already handed
/// out, the result completes the closed stream of the whole chunk
/// sequence.
#[verifier::external_body]
fn zlib_close(e: ChunkCompressor, data: &Vec<u8>) -> (r: Vec<u8>)
    ensures
        zlib_flushed_of(zlib_chunks(e), zlib_level(e)) + r@ == zlib_stream_of(
            zlib_chunks(e).push(data@),
            zlib_level(e),
        ),
{
    let mut inner = e.inner;
    std::io::Write::write_all(&mut inner, data.as_slice()).unwrap();
    inner.finish().unwrap()
}

/// Compresses a whole buffer as one closed zlib stream.
pub fn compress_all(data: &Vec<u8>, level: u32) -> (r: Vec<u8>)
    requires
        level <= 9,
    ensures
        r@ == zlib_stream_of(seq![data@], level),
{
    let enc: ChunkCompressor = zlib_new(level);
    proof {
        assert(zlib_chunks(enc).push(data@) =~= seq![data@]);
    }
    zlib_close(enc, data)
}

/// Raw rows repacked as PNG scanlines: each row of `row_len` bytes gains
/// a leading zero filter byte (PNG "no filter").
pub open spec fn packed_rows_spec(data: Seq<u8>, row_len: int, nrows: int) -> Seq<u8>
    decreases nrows,
{
    if nrows <= 0 {
        Seq::empty()
    } else {
        packed_rows_spec(data, row_len, nrows - 1) + seq![0u8] + data.subrange(
            (nrows - 1) * row_len,
            nrows * row_len,
        )
    }
}

/// Repacks a chunk's raw rows with one leading filter byte per row.
pub fn pack_rows(data: &Vec<u8>, row_len: u32, nrows: u32) -> (r: Vec<u8>)
    requires
        data@.len() == nrows as int * row_len as int,
    ensures
        r@ == packed_rows_spec(data@, row_len as int, nrows as int),
{
    let dlen: usize = data.len();
    let mut out: Vec<u8> = Vec::new();
    let mut i: u32 = 0;
    while i < nrows
        invariant
            data@.len() == nrows as int * row_len as int,
            dlen == data@.len(),
            i <= nrows,
            out@ == packed_rows_spec(data@, row_len as int, i as int),
        decreases nrows - i,
    {
        proof {
            assert((i as int + 1) * row_len as int == i as int * row_len as int + row_len as int)
                by (nonlinear_arith);
            vstd::arithmetic::mul::lemma_mul_inequality(i as int, nrows as int, row_len as int);
            vstd::arithmetic::mul::lemma_mul_inequality(
                i as int + 1,
                nrows as int,
                row_len as int,
            );
            vstd::arithmetic::mul::lemma_mul_nonnegative(i as int, row_len as int);
        }
        out.push(0u8);
        let mut j: u32 = 0;
        let base: u64 = (i as u64) * (row_len as u64);
        while j < row_len
            invariant
                data@.len() == nrows as int * row_len as int,
                i < nrows,
                j <= row_len,
                base == i as int * row_len as int,
                base + row_len as int <= data@.len(),
                dlen == data@.len(),
                out@ == packed_rows_spec(data@, row_len as int, i as int) + seq![0u8]
                    + data@.subrange(base as int, base as int + j as int),
            decreases row_len - j,
        {
            let idx: u64 = base + j as u64;
            out.push(data[idx as usize]);
            proof {
                let pref = packed_rows_spec(data@, row_len as int, i as int) + seq![0u8];
                assert(data@.subrange(base as int, base as int + j as int + 1) =~= data@.subrange(
                    base as int,
                    base as int + j as int,
                ).push(data@[base as int + j as int]));
                assert(out@ =~= pref + data@.subrange(base as int, base as int + j as int + 1));
            }
            j = j + 1;
        }
        i = i + 1;
        proof {
            assert(out@ =~= packed_rows_spec(data@, row_len as int, i as int));
        }
    }
    out
}

/// The states of the compression stage.
#[derive(Clone, Copy, Debug, PartialEq, Eq, Structural)]
pub enum StageState {
    /// Ready for the next chunk.
    Idle,
    /// A chunk's scanlines are being fed to the compressor.
    Accumulating,
    /// The compressor is being flushed at a chunk boundary.
    Flushing,
    /// The final chunk has closed the stream; no more input is legal.
    Done,
}

/// The compression stage: owns the compressor, accepts chunks in strict
/// index order, and emits one compressed fragment per chunk.  At every
/// point the fragments handed on, concatenated, are exactly the deflate
/// output of the chunk history — the stream of the history once the
/// stage is done.
pub struct CompressionStage {
    /// The owned compressor; surrendered when the stream is done.
    pub encoder: Option<ChunkCompressor>,
    /// Where the stage stands between chunks.
    pub state: StageState,
    /// Index of the next chunk the stage will accept.
    pub next_index: u32,
    /// Total number of chunks of the render.
    pub total: u32,
    /// Compression level of the stream.
    pub level: u32,
    /// The packed chunk buffers accepted so far, in order.
    pub history: Ghost<Seq<Seq<u8>>>,
    /// The compressed bytes handed on so far, concatenated.
    pub emitted: Ghost<Seq<u8>>,
}

impl CompressionStage {
    /// The stage is ready to run, and what it has emitted is exactly the
    /// compressor's output for the chunk history.
    pub open spec fn wf(self) -> bool {
        &&& self.next_index <= self.total
        &&& self.level <= 9
        &&& (self.state == StageState::Done <==> self.encoder is None)
        &&& (self.state == StageState::Idle <==> self.encoder is Some)
        &&& (self.state == StageState::Done ==> self.next_index == self.total)
        &&& self.history@.len() == self.next_index
        &&& (self.state == StageState::Idle ==> zlib_chunks(self.encoder.unwrap()) == self.history@
            && zlib_level(self.encoder.unwrap()) == self.level && self.emitted@ == zlib_flushed_of(
            self.history@,
            self.level,
        ))
        &&& (self.state == StageState::Done ==> self.emitted@ == zlib_stream_of(self.history@, self.level))
    }

    /// Creates the stage for a render of `total` chunks.
    pub fn new(level: u32, total: u32) -> (r: CompressionStage)
        requires
            level <= 9,
            total >= 1,
        ensures
            r.wf(),
            r.state == StageState::Idle,
            r.next_index == 0,
            r.total == total,
            r.level == level,
            r.history@ == Seq::<Seq<u8>>::empty(),
            r.emitted@ == Seq::<u8>::empty(),
    {
        CompressionStage {
            encoder: Some(zlib_new(level)),
            state: StageState::Idle,
            next_index: 0,
            total,
            level,
            history: Ghost(Seq::empty()),
            emitted: Ghost(Seq::empty()),
        }
    }

    /// Accepts the next chunk's packed scanlines, in strict index order,
    /// and returns the compressed fragment the chunk produced.
    ///
    /// A non-final chunk ends in a sync flush and leaves the stage idle
    /// with the fragment extending the flushed output of the history; the
    /// final chunk closes the stream, and the emitted bytes then form
    /// exactly `zlib_stream_of` of the whole history.
    pub fn accept_chunk(&mut self, chunk_index: u32, packed: &Vec<u8>) -> (r: Vec<u8>)
        requires
            old(self).wf(),
            old(self).state == StageState::Idle,
            chunk_index == old(self).next_index,
            chunk_index < old(self).total,
        ensures
            final(self).wf(),
            final(self).total == old(self).total,
            final(self).level == old(self).level,
            final(self).next_index == old(self).next_index + 1,
            final(self).history@ == old(self).history@.push(packed@),
            final(self).emitted@ == old(self).emitted@ + r@,
            final(self).state == (if chunk_index + 1 == old(self).total {
                StageState::Done
            } else {
                StageState::Idle
            }),
    {
        let mut enc = self.encoder.take().unwrap();
        self.state = StageState::Accumulating;
        let last: bool = chunk_index + 1 == self.total;
        if last {
            self.state = StageState::Flushing;
            let tail = zlib_close(enc, packed);
            self.state = StageState::Done;
            self.next_index = chunk_index + 1;
            proof {
                self.history@ = self.history@.push(packed@);
                self.emitted@ = self.emitted@ + tail@;
            }
            tail
        } else {
            let frag = zlib_push_chunk(&mut enc, packed);
            self.encoder = Some(enc);
            self.state = StageState::Idle;
            self.next_index = chunk_index + 1;
            proof {
                self.history@ = self.history@.push(packed@);
                self.emitted@ = self.emitted@ + frag@;
            }
            frag
        }
    }
}

} // verus!
