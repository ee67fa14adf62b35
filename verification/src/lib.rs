//! An animated table of Lissajous figures.
//!
//! A square grid of "driver" circles sits along the top row and left column
//! of the viewport. Each driver carries a marker that rotates at an integer
//! multiple of a global angle; the column markers supply x coordinates and
//! the row markers supply y coordinates for a grid of traced curves, one per
//! row/column pair. Every frame each curve gains one point, and once the
//! global angle completes a full revolution all paths are cleared and the
//! cycle restarts.
//!
//! All geometry is carried in integer fixed-point coordinates; the cosine
//! and sine samples that drive the markers are supplied by the caller as
//! fixed-point values, so the whole model is exact. The graphics host that
//! turns draw operations into pixels lives outside this crate.

pub mod color;
pub mod curve;
pub mod draw;
pub mod scene;
