//! Error taxonomy of the rendering pipeline.

use vstd::prelude::*;

verus! {

/// Every fallible operation of the pipeline reports one of these.
/// There is no internal retry: the first failure is surfaced immediately
/// and no partial mutation is left behind.
#[derive(Debug, Clone, PartialEq, Eq)]
pub enum RenderError {
    /// An image invariant is violated: zero dimension, buffer-length
    /// mismatch, or a non-finite / degenerate target rectangle.
    InvalidImage,
    /// A pixel-format conversion has no defined mapping.
    UnsupportedFormat,
    /// The codec could not decode the bytes (corrupt or unrecognized
    /// container, or an empty decoded image).
    DecodeError(String),
    /// The codec could not encode the buffer.
    EncodeError(String),
    /// A rasterization target is non-finite or out of the representable
    /// coordinate range.
    InvalidBounds,
    /// The drawing-surface allocator rejected the requested pixel
    /// dimensions (zero or excessively large).
    SurfaceAllocationFailed,
    /// The vector-rasterization or display backend reported a failure;
    /// the message is backend-specific and opaque to this crate.
    ExternalRenderError(String),
}

} // verus!
