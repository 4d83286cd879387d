//! Color representations and conversions: the 8-bit sRGB core.
//!
//! This crate holds the integer side of the color library: the gamma-encoded
//! sRGB types with 8-bit channels, the conversions between them, the uniform
//! [`Color`] interface over them, and the comparison of channel bit patterns
//! that approximate equality rests on. Every function carries a contract that
//! Verus proves.

pub mod color;
pub mod srgb;
pub mod ulps;

pub use color::Color;
pub use srgb::{Srgb8, Srgba8};
