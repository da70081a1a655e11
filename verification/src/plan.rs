//! Chunk planner: partitions the image into an ordered sequence of
//! contiguous horizontal row bands of bounded pixel count.
//!
//! All chunks but the last span the same number of rows; the last chunk
//! takes whatever is left.  The planner is deterministic and side-effect
//! free, so re-planning with the same inputs yields the same sequence.

use vstd::prelude::*;
use vstd::arithmetic::div_mod::lemma_fundamental_div_mod;
use vstd::arithmetic::mul::lemma_mul_inequality;

use crate::error::ConfigError;

verus! {

/// One contiguous band of image rows, processed as a unit by the pipeline.
#[derive(Clone, Copy, Debug, PartialEq, Eq, Structural)]
pub struct Chunk {
    /// Position of the band in the pipeline order, starting at zero.
    pub index: u32,
    /// First image row covered by the band.
    pub first_row: u32,
    /// Number of rows in the band; equal for all chunks but possibly the
    /// last.
    pub row_count: u32,
}

/// Rows that fit in one chunk: the pixel budget divided by the image width.
pub open spec fn rows_per_chunk_spec(width: u32, max_pixels_per_chunk: u64) -> int
    recommends
        width > 0,
{
    max_pixels_per_chunk as int / width as int
}

/// Bands needed to cover `height` rows at `rpc` rows each (ceiling
/// division).
pub open spec fn chunk_count_spec(height: u32, rpc: int) -> int
    recommends
        height > 0,
        rpc > 0,
{
    (height - 1) / rpc + 1
}

/// The planned chunk sequence: band `i` starts at row `i * rpc`; every band
/// but the last spans `rpc` rows, and the last spans the remainder.
pub open spec fn plan_spec(height: u32, width: u32, max_pixels_per_chunk: u64) -> Seq<Chunk>
    recommends
        height > 0,
        width > 0,
        rows_per_chunk_spec(width, max_pixels_per_chunk) > 0,
{
    let rpc = rows_per_chunk_spec(width, max_pixels_per_chunk);
    let n = chunk_count_spec(height, rpc);
    Seq::new(
        n as nat,
        |i: int|
            Chunk {
                index: i as u32,
                first_row: (i * rpc) as u32,
                row_count: if i == n - 1 {
                    (height - (n - 1) * rpc) as u32
                } else {
                    rpc as u32
                },
            },
    )
}

/// Total number of rows covered by a chunk sequence.
pub open spec fn total_rows(chunks: Seq<Chunk>) -> int
    decreases chunks.len(),
{
    if chunks.len() == 0 {
        0
    } else {
        total_rows(chunks.drop_last()) + chunks.last().row_count
    }
}

/// The planned band geometry is well placed: `n >= 1` bands, all full bands
/// fit strictly below `height`, and the last band has between 1 and `rpc`
/// rows.
proof fn lemma_plan_geometry(height: u32, rpc: int)
    requires
        height > 0,
        rpc > 0,
    ensures
        chunk_count_spec(height, rpc) >= 1,
        (chunk_count_spec(height, rpc) - 1) * rpc < height,
        height - (chunk_count_spec(height, rpc) - 1) * rpc <= rpc,
{
    let q = (height - 1) / rpc;
    let r = (height - 1) % rpc;
    lemma_fundamental_div_mod(height - 1, rpc);
    assert(height - 1 == q * rpc + r);
    assert(0 <= r < rpc);
    assert(q >= 0) by {
        if q < 0 {
            lemma_mul_inequality(q, -1, rpc);
        }
    }
    assert(chunk_count_spec(height, rpc) == q + 1);
    assert((q + 1 - 1) * rpc == q * rpc);
    assert(q * rpc == height - 1 - r);
}

/// A prefix of uniform bands covers exactly its count times the band
/// size.
proof fn lemma_total_rows_full_prefix(s: Seq<Chunk>, rpc: int, k: int)
    requires
        0 <= k <= s.len(),
        forall|i: int| 0 <= i < k ==> (s[i].row_count as int) == rpc,
    ensures
        total_rows(s.take(k)) == k * rpc,
    decreases k,
{
    if k == 0 {
        assert(s.take(0) =~= Seq::<Chunk>::empty());
        assert(0 * rpc == 0) by (nonlinear_arith);
    } else {
        lemma_total_rows_full_prefix(s, rpc, k - 1);
        assert(s.take(k).drop_last() =~= s.take(k - 1));
        assert(s.take(k).last() == s[k - 1]);
        assert(k * rpc == (k - 1) * rpc + rpc) by (nonlinear_arith);
    }
}

/// The planner covers the image exactly: at least one band, indices
/// forming the contiguous range from zero, every band but the last
/// spanning `rows_per_chunk` rows, the last between one and
/// `rows_per_chunk` rows, and the row counts summing to the height.
pub proof fn lemma_plan_covers_image(height: u32, width: u32, max_pixels_per_chunk: u64)
    requires
        height > 0,
        width > 0,
        rows_per_chunk_spec(width, max_pixels_per_chunk) > 0,
    ensures
        ({
            let s = plan_spec(height, width, max_pixels_per_chunk);
            let rpc = rows_per_chunk_spec(width, max_pixels_per_chunk);
            &&& s.len() >= 1
            &&& s.len() <= height
            &&& total_rows(s) == height
            &&& forall|i: int| 0 <= i < s.len() ==> (#[trigger] s[i]).index == i
            &&& forall|i: int| 0 <= i < s.len() - 1 ==> (#[trigger] s[i]).row_count as int == rpc
            &&& forall|i: int|
                0 <= i < s.len() ==> (#[trigger] s[i]).first_row as int + s[i].row_count as int
                    <= height
            &&& forall|i: int| 0 <= i < s.len() ==> (#[trigger] s[i]).row_count >= 1
            &&& 1 <= s.last().row_count
            &&& s.last().row_count as int <= rpc
        }),
{
    let s = plan_spec(height, width, max_pixels_per_chunk);
    let rpc = rows_per_chunk_spec(width, max_pixels_per_chunk);
    let n = chunk_count_spec(height, rpc);
    lemma_plan_geometry(height, rpc);
    if n >= 2 {
        lemma_mul_inequality(1, n - 1, rpc);
        assert(rpc < height);
        lemma_mul_inequality(1, rpc, n - 1);
        assert(1 * (n - 1) <= rpc * (n - 1));
    }
    assert forall|i: int| 0 <= i < s.len() - 1 implies (#[trigger] s[i]).row_count as int
        == rpc by {
        assert(s[i].row_count == rpc as u32);
    }
    assert forall|i: int|
        0 <= i < s.len() implies (#[trigger] s[i]).first_row as int + s[i].row_count as int
        <= height && s[i].row_count >= 1 by {
        lemma_mul_inequality(i, n - 1, rpc);
        vstd::arithmetic::mul::lemma_mul_nonnegative(i as int, rpc);
        if i < n - 1 {
            assert((i + 1) * rpc == i * rpc + rpc) by (nonlinear_arith);
            lemma_mul_inequality(i + 1, n - 1, rpc);
        }
    }
    lemma_total_rows_full_prefix(s, rpc, n - 1);
    assert(s.drop_last() =~= s.take(n - 1));
    assert(total_rows(s) == (n - 1) * rpc + s.last().row_count);
    assert(s.last().row_count as int == height - (n - 1) * rpc);
}

/// Re-planning is idempotent: the chunk sequence is a function of the
/// inputs, so two plans of the same inputs are identical.
pub proof fn lemma_plan_idempotent(
    height: u32,
    width: u32,
    max_pixels_per_chunk: u64,
    a: Seq<Chunk>,
    b: Seq<Chunk>,
)
    requires
        a == plan_spec(height, width, max_pixels_per_chunk),
        b == plan_spec(height, width, max_pixels_per_chunk),
    ensures
        a == b,
{
}

/// Plans the image as an ordered sequence of row bands.
///
/// Rejects zero dimensions and a pixel budget smaller than one row; on
/// success the result is exactly the sequence described by `plan_spec`.
pub fn plan(height: u32, width: u32, max_pixels_per_chunk: u64) -> (r: Result<
    Vec<Chunk>,
    ConfigError,
>)
    ensures
        (height == 0 || width == 0) <==> r == Err::<Vec<Chunk>, _>(ConfigError::InvalidDimensions),
        (height > 0 && width > 0 && rows_per_chunk_spec(width, max_pixels_per_chunk) == 0) <==> r
            == Err::<Vec<Chunk>, _>(ConfigError::ChunkBudgetTooSmall),
        r is Ok <==> (height > 0 && width > 0 && rows_per_chunk_spec(width, max_pixels_per_chunk)
            > 0),
        r is Ok ==> r.unwrap()@ == plan_spec(height, width, max_pixels_per_chunk),
{
    if height == 0 || width == 0 {
        return Err(ConfigError::InvalidDimensions);
    }
    let rpc_u64: u64 = max_pixels_per_chunk / (width as u64);
    if rpc_u64 == 0 {
        return Err(ConfigError::ChunkBudgetTooSmall);
    }
    let ghost rpc: int = rows_per_chunk_spec(width, max_pixels_per_chunk);
    proof {
        lemma_plan_geometry(height, rpc);
    }
    let ghost n: int = chunk_count_spec(height, rpc);

    // The count fits in u32 because already the first band covers at least
    // one row.
    let count_u64: u64 = if rpc_u64 >= height as u64 {
        1
    } else {
        ((height as u64) - 1) / rpc_u64 + 1
    };
    proof {
        if rpc >= height {
            assert((height - 1) / rpc == 0) by {
                vstd::arithmetic::div_mod::lemma_basic_div(height - 1, rpc);
            }
        }
        assert(count_u64 == n);
        assert(n <= height) by {
            lemma_fundamental_div_mod(height - 1, rpc);
            assert((height - 1) / rpc <= height - 1) by {
                vstd::arithmetic::div_mod::lemma_div_nonincreasing(height - 1, rpc);
            }
        }
    }
    let count: u32 = count_u64 as u32;

    let mut chunks: Vec<Chunk> = Vec::new();
    let mut i: u32 = 0;
    let mut first_row: u64 = 0;
    proof {
        vstd::arithmetic::mul::lemma_mul_by_zero_is_zero(rpc);
    }
    while i < count
        invariant
            height > 0,
            width > 0,
            rpc == rows_per_chunk_spec(width, max_pixels_per_chunk),
            rpc > 0,
            rpc_u64 as int == rpc,
            n == chunk_count_spec(height, rpc),
            count == n,
            n <= height,
            (n - 1) * rpc < height,
            height - (n - 1) * rpc <= rpc,
            0 <= i <= count,
            i < count ==> first_row == i as int * rpc,
            chunks@.len() == i as int,
            forall|j: int|
                0 <= j < i as int ==> chunks@[j] == plan_spec(
                    height,
                    width,
                    max_pixels_per_chunk,
                )[j],
        decreases count - i,
    {
        proof {
            lemma_mul_inequality(i as int, n - 1, rpc);
            assert(i as int * rpc <= (n - 1) * rpc);
            if i as int != n - 1 {
                // A non-final band spans exactly rpc rows, which is under
                // the height bound because the next band still starts
                // inside the image.
                lemma_mul_inequality(i as int + 1, n - 1, rpc);
                assert((i as int + 1) * rpc == i as int * rpc + rpc) by (nonlinear_arith);
                lemma_mul_inequality(1, n - 1, rpc);
                assert(rpc < height);
            }
        }
        let row_count: u32 = if i == count - 1 {
            (height as u64 - first_row) as u32
        } else {
            rpc_u64 as u32
        };
        chunks.push(Chunk { index: i, first_row: first_row as u32, row_count });
        proof {
            let s = plan_spec(height, width, max_pixels_per_chunk);
            vstd::arithmetic::mul::lemma_mul_nonnegative(i as int, rpc);
            assert(0 <= i as int * rpc < height);
            assert(s.len() == n);
            assert(s[i as int].index == i);
            assert(s[i as int].first_row == (i as int * rpc) as u32);
            assert(first_row as u32 == (i as int * rpc) as u32);
            if i as int == n - 1 {
                assert(row_count == (height - (n - 1) * rpc) as u32);
            } else {
                assert(s[i as int].row_count == rpc as u32);
            }
            assert(chunks@[i as int] == s[i as int]);
        }
        if i < count - 1 {
            proof {
                assert((i as int + 1) * rpc == i as int * rpc + rpc) by (nonlinear_arith);
                lemma_mul_inequality(i as int + 1, n - 1, rpc);
            }
            first_row = first_row + rpc_u64;
        }
        i = i + 1;
    }
    proof {
        let s = plan_spec(height, width, max_pixels_per_chunk);
        assert(chunks@ =~= s);
    }
    Ok(chunks)
}

/// Rows that fit in one chunk, as executable code; zero means the budget
/// does not cover one row.
pub fn rows_per_chunk(width: u32, max_pixels_per_chunk: u64) -> (r: u64)
    requires
        width > 0,
    ensures
        r == rows_per_chunk_spec(width, max_pixels_per_chunk),
{
    max_pixels_per_chunk / (width as u64)
}

/// Bands needed to cover the image, as executable code.
pub fn chunk_count(height: u32, width: u32, max_pixels_per_chunk: u64) -> (r: Result<
    u32,
    ConfigError,
>)
    ensures
        (height == 0 || width == 0) <==> r == Err::<u32, _>(ConfigError::InvalidDimensions),
        (height > 0 && width > 0 && rows_per_chunk_spec(width, max_pixels_per_chunk) == 0) <==> r
            == Err::<u32, _>(ConfigError::ChunkBudgetTooSmall),
        r is Ok ==> r.unwrap() == chunk_count_spec(
            height,
            rows_per_chunk_spec(width, max_pixels_per_chunk),
        ),
{
    let planned = plan(height, width, max_pixels_per_chunk)?;
    proof {
        lemma_plan_geometry(height, rows_per_chunk_spec(width, max_pixels_per_chunk));
        assert(planned@.len() <= height);
    }
    Ok(planned.len() as u32)
}

} // verus!
