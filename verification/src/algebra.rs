//! Trusted boundary to the algebra library. Each item below is believed, not
//! verified: it declares an outside type, names the result of an outside
//! conversion, or wraps a single outside call with the contract that the
//! algebra library's source and documentation state.

use vstd::prelude::*;

verus! {

// The algebra library's scalar field element, opaque to verification.
#[verifier::external_type_specification]
#[verifier::external_body]
pub struct ExScalar(bls12_381::Scalar);

// The algebra library's G1 curve point in affine form, opaque to verification.
#[verifier::external_type_specification]
#[verifier::external_body]
pub struct ExG1Affine(bls12_381::G1Affine);

// The canonical 32-byte little-endian encoding of a scalar: the result of
// bls12_381::Scalar::to_bytes, a function of the scalar alone.
pub uninterp spec fn scalar_bytes(s: bls12_381::Scalar) -> Seq<u8>;

// What bls12_381::Scalar::from_bytes yields on a 32-byte input: a function of
// the bytes alone, `Some` exactly on canonical encodings of field elements.
pub uninterp spec fn scalar_of_bytes(b: Seq<u8>) -> Option<bls12_381::Scalar>;

// The standard 48-byte compressed encoding of a G1 point: the result of
// bls12_381::G1Affine::to_compressed, a function of the point alone.
pub uninterp spec fn point_bytes(p: bls12_381::G1Affine) -> Seq<u8>;

// What bls12_381::G1Affine::from_compressed yields on a 48-byte input: a
// function of the bytes alone, `Some` exactly on well-formed encodings of
// points of the prime-order subgroup.
pub uninterp spec fn point_of_bytes(b: Seq<u8>) -> Option<bls12_381::G1Affine>;

// Whether a point lies in the prime-order subgroup: the result of
// bls12_381::G1Affine::is_torsion_free, a function of the point alone.
pub uninterp spec fn point_in_group(p: bls12_381::G1Affine) -> bool;

/// Relies on bls12_381::Scalar::to_bytes: it returns the canonical
/// little-endian 32-byte encoding of the scalar, and Scalar::from_bytes
/// accepts exactly the canonical encodings, recovering the scalar.
#[verifier::external_body]
pub(crate) fn scalar_to_bytes(s: &bls12_381::Scalar) -> (r: Vec<u8>)
    ensures
        r@ == scalar_bytes(*s),
        r@.len() == 32,
        scalar_of_bytes(r@) == Some(*s),
{
    bls12_381::Scalar::to_bytes(s).to_vec()
}

/// Relies on bls12_381::Scalar::from_bytes: it parses 32 little-endian
/// bytes, succeeding exactly when they hold a canonical field element
/// (a value below the field modulus).
#[verifier::external_body]
pub(crate) fn scalar_from_bytes(b: &[u8]) -> (r: Option<bls12_381::Scalar>)
    requires
        b@.len() == 32,
    ensures
        r == scalar_of_bytes(b@),
{
    let buf: [u8; 32] = b.try_into().unwrap();
    Option::from(bls12_381::Scalar::from_bytes(&buf))
}

/// Relies on bls12_381::G1Affine::to_compressed: it returns the standard
/// 48-byte compressed encoding of the point, and G1Affine::from_compressed
/// recovers from it every point of the prime-order subgroup.
#[verifier::external_body]
pub(crate) fn point_to_compressed(p: &bls12_381::G1Affine) -> (r: Vec<u8>)
    ensures
        r@ == point_bytes(*p),
        r@.len() == 48,
        point_in_group(*p) ==> point_of_bytes(r@) == Some(*p),
{
    bls12_381::G1Affine::to_compressed(p).to_vec()
}

/// Relies on bls12_381::G1Affine::from_compressed: it parses 48 compressed
/// bytes, succeeding exactly on well-formed encodings of on-curve points of
/// the prime-order subgroup, and every point it returns is in that subgroup.
#[verifier::external_body]
pub(crate) fn point_from_compressed(b: &[u8]) -> (r: Option<bls12_381::G1Affine>)
    requires
        b@.len() == 48,
    ensures
        r == point_of_bytes(b@),
        r matches Some(p) ==> point_in_group(p),
{
    let buf: [u8; 48] = b.try_into().unwrap();
    Option::from(bls12_381::G1Affine::from_compressed(&buf))
}

} // verus!
