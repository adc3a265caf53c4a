//! The scalar codec: a field scalar to and from its canonical 32-byte form.

use vstd::prelude::*;

use crate::algebra::{scalar_bytes, scalar_from_bytes, scalar_of_bytes, scalar_to_bytes};
use crate::error::SerdeError;

verus! {

/// Exact byte length of an encoded scalar.
pub const SCALAR_SIZE: usize = 32;

/// What decoding a byte string as a scalar yields: any length other than 32
/// is rejected before parsing, then the algebra library's canonical parse
/// decides between a valid field element and a parsing failure.
pub open spec fn spec_decode(b: Seq<u8>) -> Result<bls12_381::Scalar, SerdeError> {
    if b.len() != SCALAR_SIZE {
        Err(SerdeError::DataLengthError)
    } else {
        match scalar_of_bytes(b) {
            Some(s) => Ok(s),
            None => Err(SerdeError::ParsingError),
        }
    }
}

/// Encodes a scalar as its canonical 32-byte form. Always succeeds, always
/// returns exactly 32 bytes, and decoding them yields the scalar back.
pub fn encode(s: &bls12_381::Scalar) -> (r: Vec<u8>)
    ensures
        r@ == scalar_bytes(*s),
        r@.len() == SCALAR_SIZE,
        spec_decode(r@) == Ok::<bls12_381::Scalar, SerdeError>(*s),
{
    scalar_to_bytes(s)
}

/// Decodes a byte slice into a scalar: `DataLengthError` unless the input is
/// exactly 32 bytes, `ParsingError` unless those bytes are the canonical
/// encoding of a field element, and the parsed scalar otherwise.
pub fn decode(value: &[u8]) -> (r: Result<bls12_381::Scalar, SerdeError>)
    ensures
        r == spec_decode(value@),
{
    if value.len() != SCALAR_SIZE {
        return Err(SerdeError::DataLengthError);
    }
    match scalar_from_bytes(value) {
        Some(s) => Ok(s),
        None => Err(SerdeError::ParsingError),
    }
}

/// Reads byte-string input for a scalar. Every input shape goes through the
/// same length check and the same canonical parse: none may skip validation.
#[derive(Debug)]
pub struct ScalarVisitor {}

impl ScalarVisitor {
    /// Decodes from a borrowed byte slice.
    pub fn visit_bytes(&self, value: &[u8]) -> (r: Result<bls12_381::Scalar, SerdeError>)
        ensures
            r == spec_decode(value@),
    {
        decode(value)
    }

    /// Decodes from a slice borrowed for the input's whole lifetime; the
    /// checks are the same as for `visit_bytes`.
    pub fn visit_borrowed_bytes(&self, v: &[u8]) -> (r: Result<bls12_381::Scalar, SerdeError>)
        ensures
            r == spec_decode(v@),
    {
        decode(v)
    }

    /// Decodes from an owned byte buffer; the checks are the same as for
    /// `visit_bytes`.
    pub fn visit_byte_buf(&self, v: Vec<u8>) -> (r: Result<bls12_381::Scalar, SerdeError>)
        ensures
            r == spec_decode(v@),
    {
        decode(v.as_slice())
    }
}

/// Determinism: two encodings of one scalar are byte-identical, because each
/// equals the scalar's single canonical byte form.
pub proof fn lemma_encode_deterministic(s: bls12_381::Scalar, r1: Seq<u8>, r2: Seq<u8>)
    requires
        r1 == scalar_bytes(s),
        r2 == scalar_bytes(s),
    ensures
        r1 == r2,
{
}

/// Input-shape equivalence: all decode paths apply the same length check and
/// the same canonical parse, so the same bytes give the same outcome whether
/// they arrive owned, borrowed, or as a transient slice.
pub proof fn lemma_decode_shape_equivalence(
    b: Seq<u8>,
    r1: Result<bls12_381::Scalar, SerdeError>,
    r2: Result<bls12_381::Scalar, SerdeError>,
)
    requires
        r1 == spec_decode(b),
        r2 == spec_decode(b),
    ensures
        r1 == r2,
{
}

} // verus!
