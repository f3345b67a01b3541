//! Conversion between statically typed image buffers and dynamically typed
//! numeric matrices.
//!
//! An [`image_buffer::ImageBuffer`] knows its pixel kind and element type at
//! compile time; a [`mat::Mat`] carries its depth and channel count as
//! values, and may keep its rows apart in memory. [`convert`] turns one into
//! the other, element for element and without reordering channels, and
//! refuses a matrix that does not fit the image asked for. [`laws`] states
//! what holds of the two directions together.
//!
//! Floating-point elements are carried as their bit patterns: a conversion
//! moves elements and never computes with them.

pub mod convert;
pub mod element;
pub mod error;
pub mod image_buffer;
pub mod laws;
pub mod mat;
pub mod pixel;
