//! Chunk planner behavior: coverage, determinism, rejection.

use kyros::error::ConfigError;
use kyros::plan::{chunk_count, plan, rows_per_chunk, Chunk};

#[test]
fn plan_two_even_chunks() {
    let chunks = plan(4, 4, 8).unwrap();
    assert_eq!(chunks.len(), 2);
    assert_eq!(
        chunks[0],
        Chunk {
            index: 0,
            first_row: 0,
            row_count: 2
        }
    );
    assert_eq!(
        chunks[1],
        Chunk {
            index: 1,
            first_row: 2,
            row_count: 2
        }
    );
}

#[test]
fn plan_short_final_chunk() {
    // 10 rows of width 3 with a budget of 7 pixels: 2 rows per chunk,
    // 5 chunks, the last still 2; with 11 rows the last is 1.
    let chunks = plan(11, 3, 7).unwrap();
    assert_eq!(chunks.len(), 6);
    for (i, c) in chunks.iter().enumerate() {
        assert_eq!(c.index as usize, i);
        assert_eq!(c.first_row, 2 * i as u32);
    }
    for c in &chunks[..5] {
        assert_eq!(c.row_count, 2);
    }
    assert_eq!(chunks[5].row_count, 1);
}

#[test]
fn plan_row_counts_sum_to_height() {
    for (h, w, m) in [(1u32, 1u32, 1u64), (7, 3, 9), (512, 512, 16384), (100, 10, 1000)] {
        let chunks = plan(h, w, m).unwrap();
        let total: u64 = chunks.iter().map(|c| c.row_count as u64).sum();
        assert_eq!(total, h as u64);
        for (i, c) in chunks.iter().enumerate() {
            assert_eq!(c.index as usize, i);
        }
    }
}

#[test]
fn plan_single_chunk_when_budget_huge() {
    let chunks = plan(33, 4, u64::MAX).unwrap();
    assert_eq!(chunks.len(), 1);
    assert_eq!(chunks[0].row_count, 33);
}

#[test]
fn replanning_is_idempotent() {
    let a = plan(513, 37, 1000).unwrap();
    let b = plan(513, 37, 1000).unwrap();
    assert_eq!(a, b);
}

#[test]
fn plan_rejects_zero_dimensions() {
    assert_eq!(plan(0, 4, 8), Err(ConfigError::InvalidDimensions));
    assert_eq!(plan(4, 0, 8), Err(ConfigError::InvalidDimensions));
}

#[test]
fn plan_rejects_budget_below_one_row() {
    assert_eq!(plan(4, 9, 8), Err(ConfigError::ChunkBudgetTooSmall));
    assert_eq!(rows_per_chunk(9, 8), 0);
}

#[test]
fn chunk_count_matches_plan() {
    assert_eq!(chunk_count(4, 4, 8), Ok(2));
    assert_eq!(chunk_count(11, 3, 7), Ok(6));
    assert_eq!(chunk_count(0, 3, 7), Err(ConfigError::InvalidDimensions));
}
