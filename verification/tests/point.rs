use bls12_381::G1Affine;
use bls_codec::error::SerdeError;
use bls_codec::point_codec;
use bls_codec::point_codec::G1AffineVisitor;

// The standard compressed encoding of the BLS12-381 G1 generator.
fn generator_bytes() -> Vec<u8> {
    vec![
        0x97, 0xf1, 0xd3, 0xa7, 0x31, 0x97, 0xd7, 0x94, 0x26, 0x95, 0x63, 0x8c, 0x4f, 0xa9,
        0xac, 0x0f, 0xc3, 0x68, 0x8c, 0x4f, 0x97, 0x74, 0xb9, 0x05, 0xa1, 0x4e, 0x3a, 0x3f,
        0x17, 0x1b, 0xac, 0x58, 0x6c, 0x55, 0xe8, 0x3f, 0xf9, 0x7a, 0x1a, 0xef, 0xfb, 0x3a,
        0xf0, 0x0a, 0xdb, 0x22, 0xc6, 0xbb,
    ]
}

#[test]
fn point_round_trip_generator() {
    let p = G1Affine::generator();
    let enc = point_codec::encode(&p);
    assert_eq!(enc.len(), 48);
    let dec = point_codec::decode(&enc).unwrap();
    assert_eq!(dec, p);
}

#[test]
fn point_round_trip_identity() {
    let p = G1Affine::identity();
    let enc = point_codec::encode(&p);
    assert_eq!(enc.len(), 48);
    // The identity encodes as the two flag bits alone.
    assert_eq!(enc[0], 0xc0);
    assert!(enc[1..].iter().all(|&b| b == 0));
    let dec = point_codec::decode(&enc).unwrap();
    assert_eq!(dec, p);
}

#[test]
fn point_encode_generator_is_documented_form() {
    let enc = point_codec::encode(&G1Affine::generator());
    assert_eq!(enc, generator_bytes());
}

#[test]
fn point_decode_generator_bytes() {
    let dec = point_codec::decode(&generator_bytes()).unwrap();
    assert_eq!(dec, G1Affine::generator());
}

#[test]
fn point_encode_deterministic() {
    let p = G1Affine::generator();
    assert_eq!(point_codec::encode(&p), point_codec::encode(&p));
}

#[test]
fn point_length_rejection() {
    for len in [0usize, 1, 31, 32, 33, 47, 49, 4096] {
        let buf = vec![0u8; len];
        assert_eq!(
            point_codec::decode(&buf),
            Err(SerdeError::DataLengthError),
            "length {} must be rejected",
            len
        );
    }
}

#[test]
fn point_validity_rejection() {
    // All-zero bytes lack the compression flag bit: invalid flags.
    let no_flag = vec![0u8; 48];
    assert_eq!(point_codec::decode(&no_flag), Err(SerdeError::ParsingError));

    // All flag bits set with a maximal coordinate: not a valid encoding.
    let high = vec![0xffu8; 48];
    assert_eq!(point_codec::decode(&high), Err(SerdeError::ParsingError));

    // The generator's bytes with the infinity flag set: an infinity encoding
    // must carry a zero coordinate, so this is rejected.
    let mut flagged = generator_bytes();
    flagged[0] |= 0x40;
    assert_eq!(point_codec::decode(&flagged), Err(SerdeError::ParsingError));
}

#[test]
fn point_visitor_matches_decode() {
    let v = G1AffineVisitor {};
    let enc = generator_bytes();
    assert_eq!(v.visit_bytes(&enc), Ok(G1Affine::generator()));
    let short = vec![0u8; 47];
    assert_eq!(v.visit_bytes(&short), Err(SerdeError::DataLengthError));
    let bad = vec![0xffu8; 48];
    assert_eq!(v.visit_bytes(&bad), Err(SerdeError::ParsingError));
}
