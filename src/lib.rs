//! Decision core of a small sphere ray caster.
//!
//! Geometry is computed in single-precision floating point by the caller;
//! every value this library inspects arrives as its raw IEEE-754 binary32
//! encoding (`ieee::Ieee32`), so the comparisons that decide hits, shadows
//! and shading are stated and proved exactly, bit for bit. Screen offsets are
//! produced as exact fractions, and the render loop fills a row-major buffer.
pub mod hit;
pub mod ieee;
pub mod raster;
pub mod roots;
pub mod screen;
pub mod shading;
