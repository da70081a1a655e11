//! Chunked, pipelined renderer for escape-time fractal images.
//!
//! The library plans a W x H image as a sequence of bounded row bands
//! (chunks), evaluates each pixel with a pluggable iteration formula over
//! fixed-point complex arithmetic, resolves escape values to RGB(A) bytes,
//! compresses the scanlines incrementally and frames them as a streaming
//! PNG, so that no stage ever holds more than a bounded number of chunks.

use vstd::prelude::*;
use vstd::string::StringExecFns;

pub mod colors;
pub mod compress;
pub mod error;
pub mod eval;
pub mod fixed;
pub mod kernel;
pub mod math;
pub mod persist;
pub mod pipeline;
pub mod plan;
pub mod render;
pub mod save;
pub mod structs;

verus! {

/// Whether two string slices hold the same characters.
pub fn str_eq(a: &str, b: &str) -> (r: bool)
    ensures
        r == (a@ == b@),
{
    let sa = String::from_str(a);
    let sb = String::from_str(b);
    sa == sb
}

} // verus!
