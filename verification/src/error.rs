//! Error taxonomy of the renderer.
//!
//! Configuration problems are reported before any rendering work starts and
//! are non-retryable; encoding problems abort a save.

use vstd::prelude::*;

verus! {

/// A configuration that can never render: reported before any chunk work
/// begins.
#[derive(Clone, Copy, Debug, PartialEq, Eq, Structural)]
pub enum ConfigError {
    /// Image width or height is zero.
    InvalidDimensions,
    /// The maximum iteration count is zero where at least one is required.
    ZeroIterations,
    /// The per-chunk pixel budget does not cover even one image row.
    ChunkBudgetTooSmall,
    /// The generator formula name is not in the registry.
    UnknownGenerator,
    /// The color formula name is not in the registry.
    UnknownColor,
    /// The shadow formula name is not in the registry.
    UnknownShadow,
    /// The save method name is not in the registry.
    UnknownSaveMethod,
    /// The color-change rate is outside the fixed-point range.
    RateTooLarge,
    /// The coordinate transform sends a pixel outside the evaluator's
    /// range.
    FrameOutOfRange,
    /// The fixed constant point is outside the evaluator's range.
    ConstantOutOfRange,
}

/// A failure while encoding an image for a save method.
#[derive(Clone, Copy, Debug, PartialEq, Eq, Structural)]
pub enum SaveError {
    /// The encoded stream does not fit its container's chunk bound.
    Encoding,
}

/// A fatal failure of the streaming pipeline; the render aborts rather
/// than write a corrupt file silently.
#[derive(Clone, Copy, Debug, PartialEq, Eq, Structural)]
pub enum StreamError {
    /// A compressed payload exceeds the chunk frame bound.
    Oversize,
}

/// Anything that aborts a whole render: a configuration rejected at the
/// gate, or a stage failing mid-stream.  Every fatal condition
/// propagates here; none is logged and ignored.
#[derive(Clone, Copy, Debug, PartialEq, Eq, Structural)]
pub enum RenderError {
    /// The configuration was rejected before any chunk work began.
    Config(ConfigError),
    /// A pipeline stage failed; the output stream is incomplete.
    Stream(StreamError),
}

} // verus!
