//! The point codec: a G1 affine point to and from its standard 48-byte
//! compressed form.

use vstd::prelude::*;

use crate::algebra::{point_bytes, point_from_compressed, point_in_group, point_of_bytes,
    point_to_compressed};
use crate::error::SerdeError;

verus! {

/// Exact byte length of an encoded G1 point.
pub const G1_SIZE: usize = 48;

/// What decoding a byte string as a G1 point yields: any length other than 48
/// is rejected before parsing, then the algebra library's decompression
/// decides between a valid point and a parsing failure.
pub open spec fn spec_decode(b: Seq<u8>) -> Result<bls12_381::G1Affine, SerdeError> {
    if b.len() != G1_SIZE {
        Err(SerdeError::DataLengthError)
    } else {
        match point_of_bytes(b) {
            Some(p) => Ok(p),
            None => Err(SerdeError::ParsingError),
        }
    }
}

/// Encodes a point as its standard 48-byte compressed form. Always succeeds,
/// always returns exactly 48 bytes, and for every point of the prime-order
/// subgroup decoding them yields the point back.
pub fn encode(p: &bls12_381::G1Affine) -> (r: Vec<u8>)
    ensures
        r@ == point_bytes(*p),
        r@.len() == G1_SIZE,
        point_in_group(*p) ==> spec_decode(r@) == Ok::<bls12_381::G1Affine, SerdeError>(*p),
{
    point_to_compressed(p)
}

/// Decodes a byte slice into a G1 point: `DataLengthError` unless the input
/// is exactly 48 bytes, `ParsingError` unless those bytes are a well-formed
/// compressed encoding of a subgroup point, and the decompressed point
/// otherwise — every decoded point lies in the prime-order subgroup.
pub fn decode(value: &[u8]) -> (r: Result<bls12_381::G1Affine, SerdeError>)
    ensures
        r == spec_decode(value@),
        r matches Ok(p) ==> point_in_group(p),
{
    if value.len() != G1_SIZE {
        return Err(SerdeError::DataLengthError);
    }
    match point_from_compressed(value) {
        Some(p) => Ok(p),
        None => Err(SerdeError::ParsingError),
    }
}

/// Reads byte-string input for a G1 point and converts it to affine form,
/// with the same length and validity checks for every input shape.
#[derive(Debug)]
pub struct G1AffineVisitor {}

impl G1AffineVisitor {
    /// Decodes from a borrowed byte slice.
    pub fn visit_bytes(&self, value: &[u8]) -> (r: Result<bls12_381::G1Affine, SerdeError>)
        ensures
            r == spec_decode(value@),
            r matches Ok(p) ==> point_in_group(p),
    {
        decode(value)
    }
}

/// Determinism: two encodings of one point are byte-identical, because each
/// equals the point's single compressed byte form.
pub proof fn lemma_encode_deterministic(
    p: bls12_381::G1Affine,
    r1: Seq<u8>,
    r2: Seq<u8>,
)
    requires
        r1 == point_bytes(p),
        r2 == point_bytes(p),
    ensures
        r1 == r2,
{
}

} // verus!
