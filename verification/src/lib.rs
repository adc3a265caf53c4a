//! Validated byte codecs for BLS12-381 values: a scalar field element as its
//! canonical 32-byte form, and a G1 point as its standard 48-byte compressed
//! form. Decoding checks the length first and then the algebra library's
//! validity flag, so untrusted bytes either reconstruct a valid value or are
//! rejected with a specific error.

pub mod algebra;
pub mod error;
pub mod point_codec;
pub mod scalar_codec;
