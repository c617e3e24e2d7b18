//! The multi-precision limb layer.

use suite_b::constant_time::verify_slices_are_equal;
use suite_b::limb::{
    AllowZero, LIMB_BYTES, LimbMask, big_endian_from_limbs_padded, limbs_are_zero_constant_time,
    limbs_less_than_limbs_consttime, limbs_less_than_limbs_vartime, limbs_reduce_once_constant_time,
    parse_big_endian_and_pad_consttime, parse_big_endian_in_range_and_pad_consttime,
    parse_big_endian_in_range_partially_reduced_and_pad_consttime,
};

#[test]
fn test_parse_big_endian_and_pad_consttime() {
    const LIMBS: usize = 4;

    {
        // Empty input.
        let inp: [u8; 0] = [];
        let mut result = [0; LIMBS];
        assert!(parse_big_endian_and_pad_consttime(&inp, &mut result).is_err());
    }

    // The input is longer than will fit in the given number of limbs.
    {
        let inp = [1, 2, 3, 4, 5, 6, 7, 8, 9];
        let mut result = [0; 8 / LIMB_BYTES];
        assert!(parse_big_endian_and_pad_consttime(&inp, &mut result[..]).is_err());
    }

    // Less than a full limb.
    {
        let inp = [0xfe];
        let mut result = [0; LIMBS];
        assert_eq!(Ok(()), parse_big_endian_and_pad_consttime(&inp, &mut result[..]));
        assert_eq!(&[0xfe, 0, 0, 0], &result);
    }

    // Half a limb.
    {
        let inp = [0xbe, 0xef, 0xf0, 0x0d];
        let mut result = [0; LIMBS];
        assert_eq!(Ok(()), parse_big_endian_and_pad_consttime(&inp, &mut result));
        assert_eq!(&[0xbeeff00d, 0, 0, 0], &result);
    }
}

#[test]
fn test_big_endian_from_limbs_padded_same_length() {
    let limbs = [
        0x89900aab_bccddeef,
        0x01122334_45566778,
        0x99aabbcc_ddeeff00,
        0x11223344_55667788,
    ];

    let expected = [
        0x11, 0x22, 0x33, 0x44, 0x55, 0x66, 0x77, 0x88, 0x99, 0xaa, 0xbb, 0xcc, 0xdd, 0xee, 0xff,
        0x00, 0x01, 0x12, 0x23, 0x34, 0x45, 0x56, 0x67, 0x78, 0x89, 0x90, 0x0a, 0xab, 0xbc, 0xcd,
        0xde, 0xef,
    ];

    let mut out = [0xabu8; 32];
    big_endian_from_limbs_padded(&limbs[..], &mut out);
    assert_eq!(&out[..], &expected[..]);
}

#[test]
fn test_big_endian_from_limbs_padded_fewer_limbs() {
    // One fewer limb.
    let limbs = [0x89900aab_bccddeef, 0x01122334_45566778, 0x99aabbcc_ddeeff00];

    let expected = [
        0x00, 0x00, 0x00, 0x00, 0x00, 0x00, 0x00, 0x00, 0x99, 0xaa, 0xbb, 0xcc, 0xdd, 0xee, 0xff,
        0x00, 0x01, 0x12, 0x23, 0x34, 0x45, 0x56, 0x67, 0x78, 0x89, 0x90, 0x0a, 0xab, 0xbc, 0xcd,
        0xde, 0xef,
    ];

    let mut out = [0xabu8; 32];

    big_endian_from_limbs_padded(&limbs[..], &mut out);
    assert_eq!(&out[..], &expected[..]);
}

#[test]
fn limbs_compare_and_zero_test() {
    assert_eq!(limbs_less_than_limbs_consttime(&[1, 2], &[2, 2]), LimbMask::True);
    assert_eq!(limbs_less_than_limbs_consttime(&[2, 2], &[2, 2]), LimbMask::False);
    // The high limb decides.
    assert_eq!(limbs_less_than_limbs_consttime(&[u64::MAX, 1], &[0, 2]), LimbMask::True);
    assert_eq!(limbs_less_than_limbs_consttime(&[0, 3], &[u64::MAX, 2]), LimbMask::False);
    assert!(limbs_less_than_limbs_vartime(&[5], &[6]));
    assert!(!limbs_less_than_limbs_vartime(&[6], &[6]));
    assert_eq!(limbs_are_zero_constant_time(&[0, 0, 0]), LimbMask::True);
    assert_eq!(limbs_are_zero_constant_time(&[0, 0, 1]), LimbMask::False);
    assert_eq!(limbs_are_zero_constant_time(&[]), LimbMask::True);
}

#[test]
fn limbs_reduce_once_test() {
    let m = [5, 1];
    let mut r = [7, 1];
    limbs_reduce_once_constant_time(&mut r, &m);
    assert_eq!(r, [2, 0]);
    let mut r = [4, 1];
    limbs_reduce_once_constant_time(&mut r, &m);
    assert_eq!(r, [4, 1]);
    // A borrow across limbs.
    let mut r = [3, 2];
    limbs_reduce_once_constant_time(&mut r, &m);
    assert_eq!(r, [u64::MAX - 1, 0]);
    let mut r = [5, 1];
    limbs_reduce_once_constant_time(&mut r, &m);
    assert_eq!(r, [0, 0]);
}

#[test]
fn parse_in_range_test() {
    let max = [0x100, 0];
    let mut r = [9, 9];
    assert_eq!(parse_big_endian_in_range_and_pad_consttime(&[0xff], AllowZero::No, &max, &mut r), Ok(()));
    assert_eq!(r, [0xff, 0]);
    assert!(parse_big_endian_in_range_and_pad_consttime(&[0x01, 0x00], AllowZero::No, &max, &mut r).is_err());
    // Zero, allowed or not.
    let zeros = [0u8; 16];
    assert!(parse_big_endian_in_range_and_pad_consttime(&zeros, AllowZero::No, &max, &mut r).is_err());
    assert_eq!(parse_big_endian_in_range_and_pad_consttime(&zeros, AllowZero::Yes, &max, &mut r), Ok(()));
    assert_eq!(r, [0, 0]);
    // Empty input, and input longer than the result.
    assert!(parse_big_endian_in_range_and_pad_consttime(&[], AllowZero::Yes, &max, &mut r).is_err());
    assert!(parse_big_endian_in_range_and_pad_consttime(&[0u8; 17], AllowZero::Yes, &max, &mut r).is_err());
}

#[test]
fn parse_partially_reduced_test() {
    let m = [0x100, 0];
    let mut r = [0, 0];
    assert_eq!(
        parse_big_endian_in_range_partially_reduced_and_pad_consttime(&[0x01, 0x05], AllowZero::No, &m, &mut r),
        Ok(())
    );
    assert_eq!(r, [5, 0]);
    assert!(parse_big_endian_in_range_partially_reduced_and_pad_consttime(&[0x01, 0x00], AllowZero::No, &m, &mut r).is_err());
    assert_eq!(
        parse_big_endian_in_range_partially_reduced_and_pad_consttime(&[0x01, 0x00], AllowZero::Yes, &m, &mut r),
        Ok(())
    );
    assert_eq!(r, [0, 0]);
    assert_eq!(
        parse_big_endian_in_range_partially_reduced_and_pad_consttime(&[0x7f], AllowZero::No, &m, &mut r),
        Ok(())
    );
    assert_eq!(r, [0x7f, 0]);
}

#[test]
fn round_trip_limbs_test() {
    let bytes: Vec<u8> = (1..=48).map(|i| (i * 37 % 251) as u8).collect();
    let mut limbs = [0u64; 6];
    parse_big_endian_and_pad_consttime(&bytes, &mut limbs).unwrap();
    let mut out = [0u8; 48];
    big_endian_from_limbs_padded(&limbs, &mut out);
    assert_eq!(&out[..], &bytes[..]);
}

#[test]
fn verify_slices_are_equal_test() {
    assert_eq!(verify_slices_are_equal(b"abc", b"abc"), Ok(()));
    assert!(verify_slices_are_equal(b"abc", b"abd").is_err());
    assert!(verify_slices_are_equal(b"abc", b"ab").is_err());
    assert_eq!(verify_slices_are_equal(b"", b""), Ok(()));
}

#[test]
fn limbs_as_bytes_test() {
    let b = suite_b::limb::limbs_as_bytes(&[0x0807060504030201, 0x100f0e0d0c0b0a09]);
    assert_eq!(b, (1..=16).collect::<Vec<u8>>());
    assert!(suite_b::limb::limbs_as_bytes(&[]).is_empty());
}
