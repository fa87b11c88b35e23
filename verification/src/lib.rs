//! Core of a vector-to-raster export pipeline.
//!
//! Given the intrinsic size of a renderable scene and the operator's
//! overrides, this library resolves the output geometry once, parses an
//! optional background color, plans one encode task per distinct requested
//! output format, and converts premultiplied RGBA pixel buffers into the
//! byte layout each format's encoder needs. Rasterization, encoding and all
//! I/O are external collaborators; the planning and pixel arithmetic here
//! are verified.

pub mod color;
pub mod convert;
pub mod formats;
pub mod geometry;
pub mod input;
pub mod plan;
pub mod report;
