//! Incremental re-quantization preview pipeline.
//!
//! The library turns a stream of parameter changes into quantize, remap,
//! render and estimate steps, with a single-entry cache for the expensive
//! palette search and a checkpointed cancellation discipline that keeps the
//! displayed result in step with the most recently requested parameters.

use vstd::prelude::*;

pub mod encode;
pub mod preview;
pub mod quant;
pub mod source;
pub mod store;
pub mod utilities;
pub mod worker;

verus! {

/// A failure of a preview or export step.
///
/// Errors during a preview cycle abort that cycle only; the previously
/// displayed preview remains valid.
#[derive(Clone, Copy, PartialEq, Eq, Structural, Debug)]
pub enum PipelineError {
    /// The external quantizer rejected the palette search or the remap.
    Quantizer,
    /// The external codec rejected the encode.
    Codec,
    /// The image dimensions cannot be represented by the codec.
    Image,
}

} // verus!
