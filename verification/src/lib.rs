//! Verified viewport compositor for a dual-video comparison viewer.
//!
//! Two video streams are composited into one viewport that the user can
//! pan, zoom and split.  The crate owns the geometry only: from a zoom
//! level, a pan offset, a split border and a display mode it derives the
//! exact pixel rectangle and crop amounts of each video layer.  Decoding,
//! rendering and input handling live outside and talk to this crate in
//! plain integers.

pub mod compositor;
pub mod geometry;
pub mod pipeline;
pub mod status;
