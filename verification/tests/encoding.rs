use sapling_crypto::codec::to_bits;
use sapling_crypto::group::{Fr, Params, Point, BASE_FIELD_MODULUS};
use sapling_crypto::group_hash::group_hash;
use sapling_crypto::constants::key_diversification_personalization;

#[test]
fn point_encoding_layout() {
    let p = Point::from_u64(0x0102030405060708);
    let bytes = p.encode();
    assert_eq!(bytes.len(), 32);
    for i in 0..24 {
        assert_eq!(bytes[i], 0);
    }
    assert_eq!(&bytes[24..32], &[1, 2, 3, 4, 5, 6, 7, 8]);
}

#[test]
fn bits_are_most_significant_first() {
    let bits = to_bits(&vec![0b1000_0001, 0b0100_0000]);
    assert_eq!(
        bits,
        vec![
            true, false, false, false, false, false, false, true, false, true, false, false,
            false, false, false, false,
        ]
    );
}

#[test]
fn point_decode_roundtrip() {
    let p = Point::from_u64(4170930708002837227);
    assert_eq!(Point::decode(&p.encode()), Some(p));
}

#[test]
fn point_decode_rejects_malformed() {
    // wrong length
    assert_eq!(Point::decode(&vec![0; 31]), None);
    // nonzero padding
    let mut padded = vec![0u8; 32];
    padded[0] = 1;
    padded[31] = 1;
    assert_eq!(Point::decode(&padded), None);
    // residue out of canonical range
    let mut huge = vec![0u8; 32];
    for i in 24..32 {
        huge[i] = 0xff;
    }
    assert_eq!(Point::decode(&huge), None);
}

#[test]
fn x_coord_matches_residue() {
    let p = Point::from_u64(123456);
    assert_eq!(p.x_coord().as_u64(), 123456);
}

#[test]
fn base_field_reduces() {
    assert_eq!(Fr::from_u64(BASE_FIELD_MODULUS).as_u64(), 0);
    assert_eq!(Fr::from_u64(1).as_u64(), 1);
}

#[test]
fn group_hash_deterministic_and_in_subgroup() {
    let params = Params::new();
    let tag = key_diversification_personalization();
    let input = vec![7, 7, 7, 7, 7, 7, 7, 7, 7, 7, 2];
    let a = group_hash(&tag, &input, &params);
    let b = group_hash(&tag, &input, &params);
    assert_eq!(a, b);
    assert_eq!(a.unwrap().as_u64(), 4170930708002837227);
}

#[test]
fn group_hash_reports_absence() {
    let params = Params::new();
    let tag = key_diversification_personalization();
    let input = vec![7, 7, 7, 7, 7, 7, 7, 7, 7, 7, 0];
    assert!(group_hash(&tag, &input, &params).is_none());
}
