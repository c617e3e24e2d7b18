//! Scenarios on P-384: curve membership, inversion, parsing, and the
//! generator.

use suite_b::curve::{
    parse_uncompressed_point, verify_affine_point_is_on_the_curve, verify_jacobian_point_is_on_the_curve,
};
use suite_b::limb::{AllowZero, big_endian_from_limbs_padded};
use suite_b::ops::{
    CommonOps, Elem, Q, R, Scalar, Unencoded, elem_parse_big_endian_fixed_consttime,
    scalar_parse_big_endian_fixed_consttime, scalar_parse_big_endian_partially_reduced_variable_consttime,
    scalar_parse_big_endian_variable,
};
use suite_b::p384;

fn from_hex(s: &str) -> Vec<u8> {
    let s = s.as_bytes();
    let mut r = Vec::new();
    let mut i = 0;
    while i + 1 < s.len() {
        let d = |c: u8| -> u8 {
            match c {
                b'0'..=b'9' => c - b'0',
                b'a'..=b'f' => c - b'a' + 10,
                _ => panic!("bad hex digit"),
            }
        };
        r.push(d(s[i]) * 16 + d(s[i + 1]));
        i += 2;
    }
    r
}

fn elem(ops: &CommonOps, hex: &str) -> Elem<Q, R> {
    let e: Elem<Q, Unencoded> = elem_parse_big_endian_fixed_consttime(ops, &from_hex(hex)).unwrap();
    Elem::from_limbs(e.limbs)
}

fn same(ops: &CommonOps, a: &[u64; 6], b: &[u64; 6]) -> bool {
    (0..ops.num_limbs).all(|i| a[i] == b[i])
}


#[test]
fn on_curve_generator_test() {
    let ops = p384::common_ops();
    let x = elem(&ops, "4d3aadc2299e1513812ff723614ede2b6454868459a30eff879c3afc541b4d6e20e378e2a0d6ce383dd0756649c0b528");
    let y = elem(&ops, "2b78abc25a15c5e9dd8002263969a840c6c3521968f4ffd98bade7562e83b050a1bfa8bf7bb4a9ac23043dad4b03a4fe");
    assert_eq!(verify_affine_point_is_on_the_curve(&ops, (&x, &y)), Ok(()));
    let y1 = elem(&ops, "2b78abc25a15c5e9dd8002263969a840c6c3521968f4ffd98bade7562e83b051a1bfa8c07bb4a9ac23043dac4b03a4ff");
    assert!(verify_affine_point_is_on_the_curve(&ops, (&x, &y1)).is_err());
    let x1 = elem(&ops, "4d3aadc2299e1513812ff723614ede2b6454868459a30eff879c3afc541b4d6f20e378e3a0d6ce383dd0756549c0b529");
    assert!(verify_affine_point_is_on_the_curve(&ops, (&x1, &y)).is_err());
    // The stored generator is the published one.
    let pops = p384::private_key_ops();
    assert!(same(&ops, &pops.generator.0.limbs, &x.limbs));
    assert!(same(&ops, &pops.generator.1.limbs, &y.limbs));
}


#[test]
fn jacobian_on_curve_test() {
    let ops = p384::common_ops();
    let x = elem(&ops, "9d562b4b4c89f0ad86be9160aa00c8cd5ce83936ba830308eae840f7cc30da9d95456797dbade58401229c7433a666a4");
    let y = elem(&ops, "11ab2d31b75f26d6017d87b1977111ab834ea41bfc4f140c49ad7355058abfb7b0a68619b3f71d9b316ede0611eec5a0");
    let z = elem(&ops, "930266b52a4f193dadd106e969f0ac29609c3cae19e0de5be7844afa73ba78ec3fd4e3f8b10f6fa009606bd35efd941a");
    let p = ops.point_from_coords(&x, &y, &z);
    let z2 = verify_jacobian_point_is_on_the_curve(&ops, &p).unwrap();
    assert!(same(&ops, &z2.limbs, &elem(&ops, "3edf681955d3fe0b47f34c27806f7b50d4921d2e8d6088cdeb80534c71e94500466b34cee8f1dd953c97ca9c91acc0a9").limbs));
    let bad_y = elem(&ops, "11ab2d31b75f26d6017d87b1977111ab834ea41bfc4f140c49ad7355058abfb7b0a68619b3f71d9b316ede0611eec5a1");
    let p = ops.point_from_coords(&x, &bad_y, &z);
    assert!(verify_jacobian_point_is_on_the_curve(&ops, &p).is_err());
    // The point at infinity is rejected.
    let zero: Elem<Q, R> = Elem::zero();
    let p = ops.point_from_coords(&x, &y, &zero);
    assert!(verify_jacobian_point_is_on_the_curve(&ops, &p).is_err());
}


#[test]
fn elem_inverse_squared_test() {
    let pops = p384::private_key_ops();
    let ops = &pops.common;
    for (a, r) in [("f2c7d71fb3ad9caab0be1648c66eab26c9ab22b5433c5e38705074af548e91296f1be758e87a490c6c71b435d145b85b", "96904e230bc9c31edcbffdea534ed743c497b2fd9e6a9877cea45b02eeb5976d0537fa298b53e6d9efa9af3979de98d2"), ("000000000000000000000000000000000000000000000000000000000000000100000000ffffffffffffffff00000001", "000000000000000000000000000000000000000000000000000000000000000100000000ffffffffffffffff00000001"), ("fffffffffffffffffffffffffffffffffffffffffffffffffffffffffffffffdfffffffe0000000000000001fffffffe", "000000000000000000000000000000000000000000000000000000000000000100000000ffffffffffffffff00000001")] {
        let a = elem(ops, a);
        let r = elem(ops, r);
        let actual = pops.elem_inverse_squared(&a);
        assert!(same(ops, &actual.limbs, &r.limbs));
        // a^2 * a^-2 is one.
        let sq = ops.elem_squared(&a);
        let one = ops.elem_product(&sq, &actual);
        assert!(same(ops, &one.limbs, &ops.elem_one().limbs));
    }
}


#[test]
fn scalar_inv_to_mont_test() {
    let sops = p384::scalar_ops();
    let cops = &sops.common;
    for (a, r) in [("0fd630f1f29d0da9953f48f1a09f76b5a170b33839263059f28c105d1fb17c2390c192cfd3ac94af0f21ddb66cad4a27", "50356607ac181bd12a2635cfc75a5bc0097b8c014f49c8ea3f6f093407321064004f3fdab5ad1a1638588bb4a89e1159"), ("000000000000000000000000000000000000000000000000000000000000000000000000000000000000000000000001", "000000000000000000000000000000000000000000000000389cb27e0bc8d220a7e5f24db74f58851313e695333ad68d"), ("ffffffffffffffffffffffffffffffffffffffffffffffffc7634d81f4372ddf581a0db248b0a77aecec196accc52972", "ffffffffffffffffffffffffffffffffffffffffffffffff8ec69b03e86e5bbeb0341b6491614ef5d9d832d5998a52e6")] {
        let a: Scalar = scalar_parse_big_endian_variable(cops, AllowZero::No, &from_hex(a)).unwrap();
        let r: Scalar = scalar_parse_big_endian_variable(cops, AllowZero::No, &from_hex(r)).unwrap();
        let inv = sops.scalar_inv_to_mont(&a);
        assert!(same(cops, &inv.limbs, &r.limbs));
        // a * a^-1 is one.
        let one = sops.scalar_product(&a, &inv);
        let mut expected = [0u64; 6];
        expected[0] = 1;
        assert!(same(cops, &one.limbs, &expected));
    }
}


#[test]
fn parse_fixed_test() {
    let ops = p384::common_ops();
    // Empty input.
    assert!(elem_parse_big_endian_fixed_consttime(&ops, &[]).is_err());
    assert!(scalar_parse_big_endian_fixed_consttime(&ops, &[]).is_err());
    assert!(scalar_parse_big_endian_variable(&ops, AllowZero::Yes, &[]).is_err());
    // All zero, of the right length: only where zero is allowed.
    let zeros = [0u8; 48];
    assert!(elem_parse_big_endian_fixed_consttime(&ops, &zeros).is_ok());
    assert!(scalar_parse_big_endian_fixed_consttime(&ops, &zeros).is_err());
    assert!(scalar_parse_big_endian_variable(&ops, AllowZero::No, &zeros).is_err());
    assert!(scalar_parse_big_endian_variable(&ops, AllowZero::Yes, &zeros).is_ok());
    // Wrong length.
    assert!(elem_parse_big_endian_fixed_consttime(&ops, &[1u8; 47]).is_err());
    assert!(elem_parse_big_endian_fixed_consttime(&ops, &[1u8; 49]).is_err());
    assert!(scalar_parse_big_endian_fixed_consttime(&ops, &[1u8; 47]).is_err());
    // Out of range: q and q - 1 for field elements, n and n - 1 for scalars.
    assert!(elem_parse_big_endian_fixed_consttime(&ops, &from_hex("fffffffffffffffffffffffffffffffffffffffffffffffffffffffffffffffeffffffff0000000000000000ffffffff")).is_err());
    assert!(elem_parse_big_endian_fixed_consttime(&ops, &from_hex("fffffffffffffffffffffffffffffffffffffffffffffffffffffffffffffffeffffffff0000000000000000fffffffe")).is_ok());
    assert!(scalar_parse_big_endian_fixed_consttime(&ops, &from_hex("ffffffffffffffffffffffffffffffffffffffffffffffffc7634d81f4372ddf581a0db248b0a77aecec196accc52973")).is_err());
    assert!(scalar_parse_big_endian_fixed_consttime(&ops, &from_hex("ffffffffffffffffffffffffffffffffffffffffffffffffc7634d81f4372ddf581a0db248b0a77aecec196accc52972")).is_ok());
    // Short scalars are accepted by the variable-length parser.
    let s = scalar_parse_big_endian_variable(&ops, AllowZero::No, &[0x01, 0x02]).unwrap();
    assert_eq!(s.limbs[0], 0x0102);
    // Partial reduction: n + 5 becomes 5, n becomes zero.
    let s = scalar_parse_big_endian_partially_reduced_variable_consttime(&ops, AllowZero::No, &from_hex("ffffffffffffffffffffffffffffffffffffffffffffffffc7634d81f4372ddf581a0db248b0a77aecec196accc52978")).unwrap();
    assert_eq!(s.limbs, [5, 0, 0, 0, 0, 0]);
    assert!(scalar_parse_big_endian_partially_reduced_variable_consttime(&ops, AllowZero::No, &from_hex("ffffffffffffffffffffffffffffffffffffffffffffffffc7634d81f4372ddf581a0db248b0a77aecec196accc52973")).is_err());
    assert!(scalar_parse_big_endian_partially_reduced_variable_consttime(&ops, AllowZero::Yes, &from_hex("ffffffffffffffffffffffffffffffffffffffffffffffffc7634d81f4372ddf581a0db248b0a77aecec196accc52973")).is_ok());
}


#[test]
fn parse_serialize_round_trip_test() {
    let ops = p384::common_ops();
    for hex in ["6b4cb2424a23d5962217beaddbc496cb8e81973e0becd7b03898d190f9ebdacc0cb1e29c658cda1495e60af593bd04cf", "fffffffffffffffffffffffffffffffffffffffffffffffffffffffffffffffeffffffff0000000000000000fffffffe", "000000000000000000000000000000000000000000000000000000000000000000000000000000000000000000000000", "000000000000000000000000000000000000000000000000000000000000000000000000000000000000000000000001"] {
        let bytes = from_hex(hex);
        let e = elem_parse_big_endian_fixed_consttime(&ops, &bytes).unwrap();
        let mut out = [0u8; 48];
        big_endian_from_limbs_padded(&e.limbs, &mut out);
        assert_eq!(&out[..], &bytes[..]);
    }
}


#[test]
fn parse_uncompressed_point_test() {
    let ops = p384::public_key_ops();
    let good = from_hex("04aa87ca22be8b05378eb1c71ef320ad746e1d3b628ba79b9859f741e082542a385502f25dbf55296c3a545e3872760ab73617de4a96262c6f5d9e98bf9292dc29f8f41dbd289a147ce9da3113b5f0b8c00a60b1ce1d7e819d7a431d7c90ea0e5f");
    let (x, y) = parse_uncompressed_point(&ops, &good).unwrap();
    assert!(same(&ops.common, &x.limbs, &elem(&ops.common, "4d3aadc2299e1513812ff723614ede2b6454868459a30eff879c3afc541b4d6e20e378e2a0d6ce383dd0756649c0b528").limbs));
    assert!(same(&ops.common, &y.limbs, &elem(&ops.common, "2b78abc25a15c5e9dd8002263969a840c6c3521968f4ffd98bade7562e83b050a1bfa8bf7bb4a9ac23043dad4b03a4fe").limbs));
    // Wrong tag.
    let mut bad = good.clone();
    bad[0] = 3;
    assert!(parse_uncompressed_point(&ops, &bad).is_err());
    // Wrong length.
    assert!(parse_uncompressed_point(&ops, &good[..good.len() - 1]).is_err());
    assert!(parse_uncompressed_point(&ops, &[]).is_err());
    // Not on the curve.
    let mut bad = good.clone();
    let last = bad.len() - 1;
    bad[last] ^= 1;
    assert!(parse_uncompressed_point(&ops, &bad).is_err());
    // A coordinate out of range.
    let bad = from_hex("04fffffffffffffffffffffffffffffffffffffffffffffffffffffffffffffffeffffffff0000000000000000ffffffff3617de4a96262c6f5d9e98bf9292dc29f8f41dbd289a147ce9da3113b5f0b8c00a60b1ce1d7e819d7a431d7c90ea0e5f");
    assert!(parse_uncompressed_point(&ops, &bad).is_err());
    // The parsed element decodes back to the input bytes.
    let x_plain = ops.common.elem_unencoded(&x);
    let mut out = [0u8; 48];
    big_endian_from_limbs_padded(&x_plain.limbs, &mut out);
    assert_eq!(&out[..], &good[1..49]);
}


#[test]
fn generator_scenario_test() {
    let pops = p384::private_key_ops();
    let cops = &pops.common;
    let mut one = [0u8; 48];
    one[47] = 1;
    let k1: Scalar = scalar_parse_big_endian_fixed_consttime(cops, &one).unwrap();
    let g = pops.point_mul_base(&k1);
    // In affine form the result is the generator.
    let z = cops.point_z(&g);
    let zz_inv = pops.elem_inverse_squared(&z);
    let x = cops.elem_product(&cops.point_x(&g), &zz_inv);
    let zzz_inv = cops.elem_product(&z, &cops.elem_squared(&zz_inv));
    let y = cops.elem_product(&cops.point_y(&g), &zzz_inv);
    assert!(same(cops, &x.limbs, &pops.generator.0.limbs));
    assert!(same(cops, &y.limbs, &pops.generator.1.limbs));
    // Zero times the generator is the point at infinity.
    let k0: Scalar = scalar_parse_big_endian_variable(cops, AllowZero::Yes, &[0u8; 48]).unwrap();
    let inf = pops.point_mul_base(&k0);
    assert!(cops.is_zero(&cops.point_z(&inf)));
    // Adding the point at infinity gives the generator back, on either side.
    let s = cops.point_sum(&g, &inf);
    assert_eq!(s.xyz, g.xyz);
    let s = cops.point_sum(&inf, &g);
    assert_eq!(s.xyz, g.xyz);
}


#[test]
fn public_scalar_ops_test() {
    let ops = p384::public_scalar_ops();
    let cops = &ops.public_key_ops.common;
    let a: Scalar = scalar_parse_big_endian_variable(cops, AllowZero::Yes, &from_hex("ffffffffffffffffffffffffffffffffffffffffffffffffc7634d81f4372ddf581a0db248b0a77aecec196accc52972")).unwrap();
    let ae = ops.scalar_as_elem(&a);
    assert_eq!(ae.limbs, a.limbs);
    let qmn = ops.q_minus_n;
    // (n - 1) + (q - n) == q - 1.
    let sum = ops.elem_sum(&ae, &qmn);
    let expected: Elem<Q, Unencoded> = elem_parse_big_endian_fixed_consttime(cops, &from_hex("fffffffffffffffffffffffffffffffffffffffffffffffffffffffffffffffeffffffff0000000000000000fffffffe")).unwrap();
    assert!(ops.elem_equals(&sum, &expected));
    assert!(!ops.elem_equals(&sum, &ae));
    assert!(ops.elem_less_than(&qmn, &ae));
    assert!(!ops.elem_less_than(&ae, &qmn));
    assert!(!ops.elem_less_than(&ae, &ae));
    // Sums wrap around q.
    let one: Elem<Q, Unencoded> = elem_parse_big_endian_fixed_consttime(cops, &from_hex("000000000000000000000000000000000000000000000000000000000000000000000000000000000000000000000001")).unwrap();
    let wrapped = ops.elem_sum(&expected, &one);
    assert!(cops.is_zero(&wrapped));
    assert_eq!(ops.scalar_ops.scalar_bytes_len(), 48);
}


#[test]
fn elem_helpers_test() {
    let ops = p384::common_ops();
    let zero: Elem<Q, R> = Elem::zero();
    assert!(ops.elem_verify_is_not_zero(&zero).is_err());
    let x = elem(&ops, "4d3aadc2299e1513812ff723614ede2b6454868459a30eff879c3afc541b4d6e20e378e2a0d6ce383dd0756649c0b528");
    assert_eq!(ops.elem_verify_is_not_zero(&x), Ok(()));
    assert!(ops.elems_are_equal(&x, &x));
    assert!(!ops.elems_are_equal(&x, &zero));
    let mut sq = x;
    ops.elem_square(&mut sq);
    assert!(same(&ops, &sq.limbs, &ops.elem_squared(&x).limbs));
    assert!(same(&ops, &sq.limbs, &elem(&ops, "c30b03c68b024677a5e767e01a10c2600d9653c8b913e1b048b83c07991c2b5eaf80670da959561e3e799d4a05225490").limbs));
    let plain = ops.elem_unencoded(&x);
    assert!(same(&ops, &plain.limbs, &elem(&ops, "aa87ca22be8b05378eb1c71ef320ad746e1d3b628ba79b9859f741e082542a385502f25dbf55296c3a545e3872760ab7").limbs));
}
