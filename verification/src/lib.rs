//! Rendering pipeline for an infinite-canvas drawing application.
//!
//! Vector fragments (SVG markup with document-space bounds) are rasterized
//! into pixel buffers, pixel buffers are converted between backend formats,
//! encoded to and decoded from image container formats, and assembled into
//! immutable scene-node trees for display.

pub mod codec;
pub mod error;
pub mod geom;
pub mod raster;
pub mod renderer;
pub mod scene;
pub mod numfmt;
pub mod pixel;
pub mod svg;
pub mod vector;
