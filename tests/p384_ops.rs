//! Field, scalar and point arithmetic on P-384, against values computed
//! independently with plain integer arithmetic.

use suite_b::limb::AllowZero;
use suite_b::ops::{
    CommonOps, Elem, Point, PrivateKeyOps, Q, R, Scalar, Unencoded,
    elem_parse_big_endian_fixed_consttime, scalar_parse_big_endian_variable,
};
use suite_b::p384;

fn from_hex(s: &str) -> Vec<u8> {
    let s = s.as_bytes();
    let mut r = Vec::new();
    let mut i = 0;
    while i + 1 < s.len() {
        let d = |c: u8| -> u8 {
            match c {
                b'0'..=b'9' => c - b'0',
                b'a'..=b'f' => c - b'a' + 10,
                _ => panic!("bad hex digit"),
            }
        };
        r.push(d(s[i]) * 16 + d(s[i + 1]));
        i += 2;
    }
    r
}

/// A field element whose limbs hold the given value, taken as already
/// encoded.
fn elem(ops: &CommonOps, hex: &str) -> Elem<Q, R> {
    let e: Elem<Q, Unencoded> = elem_parse_big_endian_fixed_consttime(ops, &from_hex(hex)).unwrap();
    Elem::from_limbs(e.limbs)
}

fn scalar(ops: &CommonOps, hex: &str) -> Scalar {
    scalar_parse_big_endian_variable(ops, AllowZero::Yes, &from_hex(hex)).unwrap()
}

fn scalar_mont(ops: &CommonOps, hex: &str) -> Scalar<R> {
    Elem::from_limbs(scalar(ops, hex).limbs)
}

fn point(ops: &CommonOps, x: &str, y: &str, z: &str) -> Point {
    ops.point_from_coords(&elem(ops, x), &elem(ops, y), &elem(ops, z))
}

fn assert_limbs_eq(ops: &CommonOps, actual: &[u64; 6], expected: &[u64; 6]) {
    for i in 0..ops.num_limbs {
        assert_eq!(actual[i], expected[i], "limb {}", i);
    }
}

/// Compares a Jacobian point with an expected affine point (in Montgomery
/// form), or with infinity.
fn assert_point(ops: &PrivateKeyOps, actual: &Point, expected: Option<(&str, &str)>) {
    let cops = &ops.common;
    let x = cops.point_x(actual);
    let y = cops.point_y(actual);
    let z = cops.point_z(actual);
    match expected {
        None => assert!(cops.is_zero(&z)),
        Some((ex, ey)) => {
            let zz_inv = ops.elem_inverse_squared(&z);
            let x_aff = cops.elem_product(&x, &zz_inv);
            let zzzz_inv = cops.elem_squared(&zz_inv);
            let zzz_inv = cops.elem_product(&z, &zzzz_inv);
            let y_aff = cops.elem_product(&y, &zzz_inv);
            assert_limbs_eq(cops, &x_aff.limbs, &elem(cops, ex).limbs);
            assert_limbs_eq(cops, &y_aff.limbs, &elem(cops, ey).limbs);
        }
    }
}


fn add_case(ops: &CommonOps, a: &str, b: &str, r: &str) {
    let a = elem(ops, a);
    let b = elem(ops, b);
    let expected = elem(ops, r);
    let mut actual = a;
    ops.elem_add(&mut actual, &b);
    assert_limbs_eq(ops, &actual.limbs, &expected.limbs);
    let mut actual = b;
    ops.elem_add(&mut actual, &a);
    assert_limbs_eq(ops, &actual.limbs, &expected.limbs);
}

#[test]
fn p384_elem_add_test() {
    let ops = p384::common_ops();
    add_case(&ops, "a26a7bfcf51a7b45065ccd08ef9cfe25c46f8780bdb24532883f678ac85d3e870c4705de623958a8d7e77b64a4ff0d2e", "0e128a2948ab7279f209d61c612a948b3b9acd1c8eeed390b2edd3491fb3ce3a3f28b6f47068ce063e421b4c5fc36774", "b07d06263dc5edbef866a32550c792b1000a549d4ca118c33b2d3ad3e8110cc14b6fbcd2d2a226af162996b104c274a2");
    add_case(&ops, "94f7b3f7b62f1e12bada78d09420ddf2b93d6dfcace2007248f85dcbd4d9c5252eb1616a726c1f5464d4af1422db91d0", "913dff386f0ee379e7dccbeb67235e51e011b7627c43365b7e6c6b03dee43ed7651afd26eadeada66e7cdc0ca2446907", "2635b330253e018ca2b744bbfb443c44994f255f292536cdc764c8cfb3be03fd93cc5e925d4accfad3518b1fc51ffad8");
    add_case(&ops, "7ff52902fba8a814f0efbca52febd01bf0b991c8bb99f33d4b5009f5332ba39f40e17ad5477b446567baf4d09af211b3", "75c036c89d32fae05516fd2b3b016b21c2905f8fb0493662cca49f64e352aa3a71fb0c7372a559092d5e298ae1105f67", "f5b55fcb98dba2f54606b9d06aed3b3db349f1586be329a017f4a95a167e4dd9b2dc8748ba209d6e95191e5b7c02711a");
    add_case(&ops, "fffffffffffffffffffffffffffffffffffffffffffffffffffffffffffffffeffffffff0000000000000000fffffffe", "000000000000000000000000000000000000000000000000000000000000000000000000000000000000000000000001", "000000000000000000000000000000000000000000000000000000000000000000000000000000000000000000000000");
    add_case(&ops, "fffffffffffffffffffffffffffffffffffffffffffffffffffffffffffffffeffffffff0000000000000000fffffffe", "fffffffffffffffffffffffffffffffffffffffffffffffffffffffffffffffeffffffff0000000000000000fffffffe", "fffffffffffffffffffffffffffffffffffffffffffffffffffffffffffffffeffffffff0000000000000000fffffffd");
    add_case(&ops, "000000000000000000000000000000000000000000000000000000000000000000000000000000000000000000000000", "000000000000000000000000000000000000000000000000000000000000000000000000000000000000000000000000", "000000000000000000000000000000000000000000000000000000000000000000000000000000000000000000000000");
}


fn sub_case(ops: &CommonOps, a: &str, b: &str, r: &str) {
    let a = elem(ops, a);
    let b = elem(ops, b);
    let r = elem(ops, r);
    let d = ops.elem_difference(&r, &b);
    assert_limbs_eq(ops, &d.limbs, &a.limbs);
    let d = ops.elem_difference(&r, &a);
    assert_limbs_eq(ops, &d.limbs, &b.limbs);
}

#[test]
fn p384_elem_sub_test() {
    let ops = p384::common_ops();
    sub_case(&ops, "a26a7bfcf51a7b45065ccd08ef9cfe25c46f8780bdb24532883f678ac85d3e870c4705de623958a8d7e77b64a4ff0d2e", "0e128a2948ab7279f209d61c612a948b3b9acd1c8eeed390b2edd3491fb3ce3a3f28b6f47068ce063e421b4c5fc36774", "b07d06263dc5edbef866a32550c792b1000a549d4ca118c33b2d3ad3e8110cc14b6fbcd2d2a226af162996b104c274a2");
    sub_case(&ops, "94f7b3f7b62f1e12bada78d09420ddf2b93d6dfcace2007248f85dcbd4d9c5252eb1616a726c1f5464d4af1422db91d0", "913dff386f0ee379e7dccbeb67235e51e011b7627c43365b7e6c6b03dee43ed7651afd26eadeada66e7cdc0ca2446907", "2635b330253e018ca2b744bbfb443c44994f255f292536cdc764c8cfb3be03fd93cc5e925d4accfad3518b1fc51ffad8");
    sub_case(&ops, "7ff52902fba8a814f0efbca52febd01bf0b991c8bb99f33d4b5009f5332ba39f40e17ad5477b446567baf4d09af211b3", "75c036c89d32fae05516fd2b3b016b21c2905f8fb0493662cca49f64e352aa3a71fb0c7372a559092d5e298ae1105f67", "f5b55fcb98dba2f54606b9d06aed3b3db349f1586be329a017f4a95a167e4dd9b2dc8748ba209d6e95191e5b7c02711a");
    sub_case(&ops, "fffffffffffffffffffffffffffffffffffffffffffffffffffffffffffffffeffffffff0000000000000000fffffffe", "000000000000000000000000000000000000000000000000000000000000000000000000000000000000000000000001", "000000000000000000000000000000000000000000000000000000000000000000000000000000000000000000000000");
    sub_case(&ops, "fffffffffffffffffffffffffffffffffffffffffffffffffffffffffffffffeffffffff0000000000000000fffffffe", "fffffffffffffffffffffffffffffffffffffffffffffffffffffffffffffffeffffffff0000000000000000fffffffe", "fffffffffffffffffffffffffffffffffffffffffffffffffffffffffffffffeffffffff0000000000000000fffffffd");
    sub_case(&ops, "000000000000000000000000000000000000000000000000000000000000000000000000000000000000000000000000", "000000000000000000000000000000000000000000000000000000000000000000000000000000000000000000000000", "000000000000000000000000000000000000000000000000000000000000000000000000000000000000000000000000");
}


fn neg_case(ops: &CommonOps, a: &str, b: &str) {
    let zero: Elem<Q, R> = Elem::zero();
    let a = elem(ops, a);
    let b = elem(ops, b);
    let r = ops.elem_difference(&zero, &a);
    assert_limbs_eq(ops, &r.limbs, &b.limbs);
    let r = ops.elem_difference(&zero, &b);
    assert_limbs_eq(ops, &r.limbs, &a.limbs);
}

#[test]
fn p384_elem_neg_test() {
    let ops = p384::common_ops();
    neg_case(&ops, "06577990b4e9148598d8ce68df7bb3739d20dba64c059ae00cf80bb1bc8d2a944ebb6703455b14d9902214f6655e23ae", "f9a8866f4b16eb7a6727319720844c8c62df2459b3fa651ff307f44e4372d56ab14498fbbaa4eb266fddeb0a9aa1dc51");
    neg_case(&ops, "07407f1ae4abfa18a2fe068b3b133f2b3cf1db95283e7d89e859899053c54f0e41c688ccf897b86fe8ea44dc7690b758", "f8bf80e51b5405e75d01f974c4ecc0d4c30e246ad7c1827617a6766fac3ab0f0be397732076847901715bb24896f48a7");
    neg_case(&ops, "000000000000000000000000000000000000000000000000000000000000000000000000000000000000000000000001", "fffffffffffffffffffffffffffffffffffffffffffffffffffffffffffffffeffffffff0000000000000000fffffffe");
    neg_case(&ops, "fffffffffffffffffffffffffffffffffffffffffffffffffffffffffffffffeffffffff0000000000000000fffffffe", "000000000000000000000000000000000000000000000000000000000000000000000000000000000000000000000001");
    let zero: Elem<Q, R> = Elem::zero();
    let r = ops.elem_difference(&zero, &zero);
    assert!(ops.is_zero(&r));
}


fn mul_case(ops: &CommonOps, a: &str, b: &str, r: &str) {
    let mut a = elem(ops, a);
    let b = elem(ops, b);
    let r = elem(ops, r);
    let p = ops.elem_product(&a, &b);
    assert_limbs_eq(ops, &p.limbs, &r.limbs);
    ops.elem_mul(&mut a, &b);
    assert_limbs_eq(ops, &a.limbs, &r.limbs);
}

#[test]
fn p384_elem_mul_test() {
    let ops = p384::common_ops();
    mul_case(&ops, "2976c6a0652dca851ea4613ac501ccd6436b80bcd9221441a153f4ed00ae170e142445f16ee59270f03ae2e0850b1f26", "ba44b9a43439fcdfd7c7b9f74144ed4977be0b602b77858b5cccc8115db207834237ae39f2e7c6d946c48ba856ac5e36", "f3dc1eee4a01cf2a6830c348effc1b4c1301745b30ade300aa4a5bf141ac60af93b807756a96f768a690ca57056aff7c");
    mul_case(&ops, "33e8bea10fcf0cbe8371a17788eaff2b31ded8c3488ffa4bbc26299a03af42fc723a676cd2c4d2fb1cb71c653fa458e0", "531578bc6612ffe6651d4500b5a8c0c6d5fa99765355e69039978c5fdb551c12b8383c2c80dc152d1e90783a9628e38f", "0789f656b500ab10501a3766aa0cb5fa4bbbcdb4a0224a38ebc3ecb71250dd9a2e3afa373b7f548e08c77427f43412ab");
    mul_case(&ops, "bebe4c21d3420a2d200e50daa0316329dc9ed6ba5ce6e232fc7d126b8c3332b4cb5b8d3bf1b70cc812d10954e18d4373", "e9097daae1d3d3cd4bf32c7648a244a682a928d33c1bbbac08635acd4574860716ed1d74189bf4e7530f59400c206ffd", "1ee84186f638b877582b60a72006b6dd41ff95798b382dace7385bb7e1155d3ce5c0b89999d7868324d701c5a943804c");
    mul_case(&ops, "fffffffffffffffffffffffffffffffffffffffffffffffffffffffffffffffeffffffff0000000000000000fffffffe", "fffffffffffffffffffffffffffffffffffffffffffffffffffffffffffffffeffffffff0000000000000000fffffffe", "00000014000000140000000c00000002fffffffcfffffffafffffffbfffffffdffffffebffffffd8ffffffe100000006");
    mul_case(&ops, "000000000000000000000000000000000000000000000000000000000000000000000000000000000000000000000000", "e2b02076b1b431d1bd0b89e1a4a908f22701347590dbc59b2c85e81afe21a345414cad25dcacb78a1ac9224982d0229c", "000000000000000000000000000000000000000000000000000000000000000000000000000000000000000000000000");
    mul_case(&ops, "000000000000000000000000000000000000000000000000000000000000000000000000000000000000000000000001", "000000000000000000000000000000000000000000000000000000000000000000000000000000000000000000000001", "00000014000000140000000c00000002fffffffcfffffffafffffffbfffffffdffffffebffffffd8ffffffe100000006");
}


fn scalar_mul_case(ops: &suite_b::ops::ScalarOps, a: &str, b: &str, r: &str) {
    let a = scalar(&ops.common, a);
    let b = scalar_mont(&ops.common, b);
    let expected = scalar(&ops.common, r);
    let actual = ops.scalar_product(&a, &b);
    assert_limbs_eq(&ops.common, &actual.limbs, &expected.limbs);
}

#[test]
fn p384_scalar_mul_test() {
    let ops = p384::scalar_ops();
    scalar_mul_case(&ops, "7f4bdeea1ad823aba14af5a4872f349bd2863ad086808e69661a8e4d9702bff895aedb783665bfc85623bdba4c0f166e", "849a88249bc5cd2694fe855200e2a29d93011e5b78fd5188a65da55a7dfbfc209c9920543ac5a63558a2a8b0346b4db1", "b7fab7089b463fff9358b6c7f5fe8aa2508f7dae4366d538cecac1d2a04bfdae1329aed76590764a33cbbd96e01e16ac");
    scalar_mul_case(&ops, "18deb99b1cc456db1e1a9bedea3a3e45339c3aa17f06d90e1956e1d61f72e24750a34a34904b874c6dd92725a83b6dbb", "b19ad15e335129637f201621e71a4b02ec0174615c4db2b66b492a5a6806ab4241816bd42a06e7a6affe788b808f54a7", "cdb46c6a4f8fe51f1f606395bf132932e843345790997806065e69550a849910b6f2427748e9130f5218393421378923");
    scalar_mul_case(&ops, "db2d9fa39c5f68f74af5ac34c902d047b312331340866f1184565b04b78a9c0f22f2e84a84b78bdd1e18044fe5a72f87", "8c92830a4408d4dbf8a6262f9bfcda28fc8f5329b57bac1264d34ca6e275deb14747953ecbd20784f492e4f81938a5dd", "788473870456a56e68faab34732401acc4730d25e1874d6a45ed378dba47cb82b3acd540c03c77d84792d6144b52f72c");
    scalar_mul_case(&ops, "ffffffffffffffffffffffffffffffffffffffffffffffffc7634d81f4372ddf581a0db248b0a77aecec196accc52972", "ffffffffffffffffffffffffffffffffffffffffffffffffc7634d81f4372ddf581a0db248b0a77aecec196accc52972", "355ca87de39dbb1fa150206ce4f194ac78d4ba5866d61787e29f9fb70a9da219d26d4aeba664edb0610ae855f2c0d911");
    scalar_mul_case(&ops, "000000000000000000000000000000000000000000000000000000000000000000000000000000000000000000000001", "000000000000000000000000000000000000000000000000389cb27e0bc8d220a7e5f24db74f58851313e695333ad68d", "000000000000000000000000000000000000000000000000000000000000000000000000000000000000000000000001");
}


fn sum_case(ops: &PrivateKeyOps, a: (&str, &str, &str), b: (&str, &str, &str), r: Option<(&str, &str)>) {
    let a = point(&ops.common, a.0, a.1, a.2);
    let b = point(&ops.common, b.0, b.1, b.2);
    let actual = ops.common.point_sum(&a, &b);
    assert_point(ops, &actual, r);
}

#[test]
fn p384_point_sum_test() {
    let ops = p384::private_key_ops();
    sum_case(&ops, ("4d3aadc2299e1513812ff723614ede2b6454868459a30eff879c3afc541b4d6e20e378e2a0d6ce383dd0756649c0b528", "2b78abc25a15c5e9dd8002263969a840c6c3521968f4ffd98bade7562e83b050a1bfa8bf7bb4a9ac23043dad4b03a4fe", "000000000000000000000000000000000000000000000000000000000000000100000000ffffffffffffffff00000001"), ("db93b776427460c39c90a4fd2de4b506da821495f0687f503504e6f0ff9d48a18e6c8f2e022b53f0c8229e55783dde91", "e34947f7123df0c2070d430900b0e68409f1fe415172bad915e4f18bdc588258e8e8e4a8c2aaccd842ea84633140bfda", "000000000000000000000000000000000000000000000000000000000000000100000000ffffffffffffffff00000001"), Some(("d283fe68e7c1c3ace36f7e2d263aa4703a48d732d51c6c3e6b2034e9a170ccf0c54ea9fff04f779c05e4dbe6c1dc4073", "465465fc983292aff6db68b15102b33968012d5ad2e1d0b4132663c04ef6744692d789a77ae0e36d7e284821c04ee157")));
    sum_case(&ops, ("8c28e16709029efa9d760c1100f7fa08c398c1e17502eb15c82edc73b8834be8ab042bd8e00f375ebd5831d2fe93fe75", "fe69e386ed70ab16ef9eddbfc409edf81a6ebb15b780976646dafb4713b349cd20b7fa7f2f0e668604d2acf39ccaff96", "27f087fd70122d4537887ebf45ba0ed3a513570203d89105e53e2f07e97fa91ae6283e901006314911fcea3590b8c1d8"), ("1ecebcb6fdc771f8009e87daa9f021e64f78c685036f8a142ecf4cadcc7c277edd7574313150418a65b4bc5523ab99eb", "7586c77f8784e842134e4a6333c01e817e39bee017bc277e79cbe75ce3e02847994e2157d56b69730bc72d4e91a4235a", "8b40d5e11128f84805570519481607b501bb800b7fffe2f72d032c784f3ae462243d6c1995d3d34dc0e1231c6d40dd3c"), Some(("ed151579ab58886bf84760b1d067c1e4f068ad2c97589902b5ad4940d4025b7810d136b5d72959ea942b1b93c217b363", "26a75bcf42938efa82ce67770bd1003a6141b47ed0873015c780d7a176517f8e68915234000999f52f6cf70aef7cd6e7")));
    sum_case(&ops, ("9b812b2678c07583192d372b8ba38e00c46a8f2900200c5797c79f16d6357ffb0927299fbe8c78911e897f552bef5709", "25f979ebc9d305a2ea8c1f7537d4aee041e497fb124ee3be053b9ff5de287c8d5ef7851d2aba4f96c424beafce0333fa", "000000000000000000000000000000000000000000000000000000000000000500000004fffffffffffffffb00000005"), ("97305ed08646050b31589f55595f49869fb222d57b201830cd540edad70cb32a11f09943f05b00ca83885ff841a1e808", "b812f67cc367e88de3da9bf3d28b2fbb548de2923861b069ac0e1b488c9c26aa859cf46e7126262b03b09a9b0a4a533b", "000000000000000000000000000000000000000000000000000000000000000700000006fffffffffffffff900000007"), Some(("34393a53efe4774a55e2c7d906ef58f9f1c71d20831e5a84a37396a1e446b37bef950d58ac1298c20639f23500febc06", "ada545292020b1defd1d1023d1fdbf723738c3c478d7194e1f80d7e4adc39326c96949769f7cacb0e0902bd8628eee8f")));
    sum_case(&ops, ("9e61b35fc51215d30910470fad266652323ad760ae2004717414a9e98050b331034b89dcf2ad731585df943dc822f65f", "cccf7ca391fe7a0ca9723c0afbacea619772e98826c5439fd41305e123b2baa4efa61ab39caf69415560003b38c96556", "000000000000000000000000000000000000000000000000000000000000000300000002fffffffffffffffd00000003"), ("7f47ddf1aceb97ec04073c06f79f49eba48bedf2148001f988ecbd4b557933320176e7f032f7c15ee62a7ac658f3182a", "5189a22e597bb5e9490d8f650ac348c6a3b806a8405d414be716ced9bc88ac405a2d99457c3dcdd9add097a328102dd3", "000000000000000000000000000000000000000000000000000000000000000200000001fffffffffffffffe00000002"), None);
    sum_case(&ops, ("000000000000000000000000000000000000000000000000000000000000000000000000000000000000000000000000", "000000000000000000000000000000000000000000000000000000000000000000000000000000000000000000000000", "000000000000000000000000000000000000000000000000000000000000000000000000000000000000000000000000"), ("95e59087d229f0e434fde0da57145ea83a0256b1cfa77916cbaf803b4e6b84e073606ebb56ea70c4a9807af454dbf809", "6cf2a3a7f1cbf557ec64978fb2464c521c50f9a7f18df8552b9156e50fcfc9f04a752ac2db68e7b60ace9187b42c5243", "000000000000000000000000000000000000000000000000000000000000000900000008fffffffffffffff700000009"), Some(("249db2c5a09e8ae00d4bd35e5991a25a92195015287d53aaf2b650986f95dedfdea8b25aabbd5d0be8cf04add1a3e69e", "75ca40d6caf457131564ec310259feb335109daa31d8835357d9ec1a4ced5272b38c46a42747c8219c489fa17acdd814")));
    sum_case(&ops, ("4e897f68eaefa3e648d6e79855d5bccf0df6da00233c8bccb82c180cbdd657e13dbc4cec2c80faa109d93617167800bf", "6a8f1cc13460b8383bb802cf39e73dbce563bbe128b2ca51c2068cbdf5e3acbf825349dc3a3586bf8d95f22d7c3a7260", "000000000000000000000000000000000000000000000000000000000000000b0000000afffffffffffffff50000000b"), ("000000000000000000000000000000000000000000000000000000000000000000000000000000000000000000000000", "000000000000000000000000000000000000000000000000000000000000000000000000000000000000000000000000", "000000000000000000000000000000000000000000000000000000000000000000000000000000000000000000000000"), Some(("249db2c5a09e8ae00d4bd35e5991a25a92195015287d53aaf2b650986f95dedfdea8b25aabbd5d0be8cf04add1a3e69e", "75ca40d6caf457131564ec310259feb335109daa31d8835357d9ec1a4ced5272b38c46a42747c8219c489fa17acdd814")));
}


fn double_case(ops: &PrivateKeyOps, a: (&str, &str, &str), r: Option<(&str, &str)>) {
    let a = point(&ops.common, a.0, a.1, a.2);
    let actual = suite_b::jacobian::point_double(&ops.common, &a);
    assert_point(ops, &actual, r);
}

#[test]
fn p384_point_double_test() {
    let ops = p384::private_key_ops();
    double_case(&ops, ("4d3aadc2299e1513812ff723614ede2b6454868459a30eff879c3afc541b4d6e20e378e2a0d6ce383dd0756649c0b528", "2b78abc25a15c5e9dd8002263969a840c6c3521968f4ffd98bade7562e83b050a1bfa8bf7bb4a9ac23043dad4b03a4fe", "000000000000000000000000000000000000000000000000000000000000000100000000ffffffffffffffff00000001"), Some(("db93b776427460c39c90a4fd2de4b506da821495f0687f503504e6f0ff9d48a18e6c8f2e022b53f0c8229e55783dde91", "e34947f7123df0c2070d430900b0e68409f1fe415172bad915e4f18bdc588258e8e8e4a8c2aaccd842ea84633140bfda")));
    double_case(&ops, ("749e1769168d1680a820dc4cdaec3049cd4332847078599c4ad7226a4e4aeb0b84900fee1e048a6d28ee9e5ad43aa59b", "10880e469e5b14690169a19d63de9c6b2930f27fb77a9b4eba853e2ff4bb68c5f4cd607d99b93c59beb5ec1d9aab3bde", "8e45c80ea1641f8e37a0adf42f585b7db53bcf9cd1b8da359ebc0eba97192ac33fedabb596ecf1e5ebd6007e2ae98639"), Some(("34393a53efe4774a55e2c7d906ef58f9f1c71d20831e5a84a37396a1e446b37bef950d58ac1298c20639f23500febc06", "ada545292020b1defd1d1023d1fdbf723738c3c478d7194e1f80d7e4adc39326c96949769f7cacb0e0902bd8628eee8f")));
    double_case(&ops, ("9276cb16827a2b80352f4d796646896a48654054a1f54eabcad94261be577b7f7aa2c96aaef5742fa33c12b7468f9a78", "ae5206b657a2b898ab27618812cff599a884ed518ec41a9abecf60d2676a93989c6235243a3e410ce244fd08d66ec0a3", "000000000000000000000000000000000000000000000000000000000000000200000001fffffffffffffffe00000002"), Some(("f59656392679edfad0d92e135d12bca67f2cb2ba7c2cdf5b9b65ed1cb151d3febbf2940b2d0fdb0de9fe30400ac779a1", "8b55b38168e7b4dcb7f03be22526aa3c254cc39e98b6d2f6cd9cba48e0ef06eeabe30ada6aef6307081be309efa90082")));
    double_case(&ops, ("000000000000000000000000000000000000000000000000000000000000000000000000000000000000000000000000", "000000000000000000000000000000000000000000000000000000000000000000000000000000000000000000000000", "000000000000000000000000000000000000000000000000000000000000000000000000000000000000000000000000"), None);
}


fn mul_point_case(ops: &PrivateKeyOps, k: &str, p: (&str, &str), r: Option<(&str, &str)>) {
    let k = scalar(&ops.common, k);
    let p = (elem(&ops.common, p.0), elem(&ops.common, p.1));
    let actual = ops.point_mul(&k, &p);
    assert_point(ops, &actual, r);
}

#[test]
fn p384_point_mul_test() {
    let ops = p384::private_key_ops();
    mul_point_case(&ops, "c6bacfb2d54d359275c5f499949b8fee8ba5a8db8c57e4c02cd5ad2c6e2c6af5663a891b5a9591e6bcc2ef9ec7548461", ("9fd1f77c6b3ae5fb0101cf01bde7d27ae922fb7c8520007e623b2f52d55e4ccc005db9fb8cbdf057b98a9eb2163cc60a", "95cecbba34d08942d6de4e135ea796e72b88ff2af7f457d6831d2624c86eea7754ba4cd6b0784644ca45ed0c3afdfa45"), Some(("c9425a492cc823cd2b7d625dfb860cca67dfaea021c93ff7b8f601e9350bd7155b00e045ece4e234a4dd5b0157e2fa9b", "5b3f766ba2f20d198b6eca883dceaffceda2d21d15b22039131d028a433e04bea6a750dd3c8493099626db2e2c0cc0bf")));
    mul_point_case(&ops, "000000000000000000000000000000000000000000000000000000000000000000000000000000000000000000000001", ("249db2c5a09e8ae00d4bd35e5991a25a92195015287d53aaf2b650986f95dedfdea8b25aabbd5d0be8cf04add1a3e69e", "75ca40d6caf457131564ec310259feb335109daa31d8835357d9ec1a4ced5272b38c46a42747c8219c489fa17acdd814"), Some(("249db2c5a09e8ae00d4bd35e5991a25a92195015287d53aaf2b650986f95dedfdea8b25aabbd5d0be8cf04add1a3e69e", "75ca40d6caf457131564ec310259feb335109daa31d8835357d9ec1a4ced5272b38c46a42747c8219c489fa17acdd814")));
    mul_point_case(&ops, "ffffffffffffffffffffffffffffffffffffffffffffffffc7634d81f4372ddf581a0db248b0a77aecec196accc52972", ("9fd1f77c6b3ae5fb0101cf01bde7d27ae922fb7c8520007e623b2f52d55e4ccc005db9fb8cbdf057b98a9eb2163cc60a", "95cecbba34d08942d6de4e135ea796e72b88ff2af7f457d6831d2624c86eea7754ba4cd6b0784644ca45ed0c3afdfa45"), Some(("9fd1f77c6b3ae5fb0101cf01bde7d27ae922fb7c8520007e623b2f52d55e4ccc005db9fb8cbdf057b98a9eb2163cc60a", "6a313445cb2f76bd2921b1eca1586918d47700d5080ba8297ce2d9db37911587ab45b3284f87b9bb35ba12f4c50205ba")));
    mul_point_case(&ops, "000000000000000000000000000000000000000000000000000000000000000000000000000000000000000000000002", ("4d3aadc2299e1513812ff723614ede2b6454868459a30eff879c3afc541b4d6e20e378e2a0d6ce383dd0756649c0b528", "2b78abc25a15c5e9dd8002263969a840c6c3521968f4ffd98bade7562e83b050a1bfa8bf7bb4a9ac23043dad4b03a4fe"), Some(("db93b776427460c39c90a4fd2de4b506da821495f0687f503504e6f0ff9d48a18e6c8f2e022b53f0c8229e55783dde91", "e34947f7123df0c2070d430900b0e68409f1fe415172bad915e4f18bdc588258e8e8e4a8c2aaccd842ea84633140bfda")));
    mul_point_case(&ops, "000000000000000000000000000000000000000000000000000000000000000000000000000000000000000000000000", ("249db2c5a09e8ae00d4bd35e5991a25a92195015287d53aaf2b650986f95dedfdea8b25aabbd5d0be8cf04add1a3e69e", "75ca40d6caf457131564ec310259feb335109daa31d8835357d9ec1a4ced5272b38c46a42747c8219c489fa17acdd814"), None);
}


fn mul_base_case(ops: &PrivateKeyOps, k: &str, r: Option<(&str, &str)>) {
    let k = scalar(&ops.common, k);
    let actual = ops.point_mul_base(&k);
    assert_point(ops, &actual, r);
    let g = ops.generator;
    let other = ops.point_mul(&k, &g);
    assert_eq!(actual.xyz, other.xyz);
}

#[test]
fn p384_point_mul_base_test() {
    let ops = p384::private_key_ops();
    mul_base_case(&ops, "000000000000000000000000000000000000000000000000000000000000000000000000000000000000000000000001", Some(("4d3aadc2299e1513812ff723614ede2b6454868459a30eff879c3afc541b4d6e20e378e2a0d6ce383dd0756649c0b528", "2b78abc25a15c5e9dd8002263969a840c6c3521968f4ffd98bade7562e83b050a1bfa8bf7bb4a9ac23043dad4b03a4fe")));
    mul_base_case(&ops, "000000000000000000000000000000000000000000000000000000000000000000000000000000000000000000000002", Some(("db93b776427460c39c90a4fd2de4b506da821495f0687f503504e6f0ff9d48a18e6c8f2e022b53f0c8229e55783dde91", "e34947f7123df0c2070d430900b0e68409f1fe415172bad915e4f18bdc588258e8e8e4a8c2aaccd842ea84633140bfda")));
    mul_base_case(&ops, "000000000000000000000000000000000000000000000000000000000000000000000000000000000000000000000003", Some(("d283fe68e7c1c3ace36f7e2d263aa4703a48d732d51c6c3e6b2034e9a170ccf0c54ea9fff04f779c05e4dbe6c1dc4073", "465465fc983292aff6db68b15102b33968012d5ad2e1d0b4132663c04ef6744692d789a77ae0e36d7e284821c04ee157")));
    mul_base_case(&ops, "ffffffffffffffffffffffffffffffffffffffffffffffffc7634d81f4372ddf581a0db248b0a77aecec196accc52972", Some(("4d3aadc2299e1513812ff723614ede2b6454868459a30eff879c3afc541b4d6e20e378e2a0d6ce383dd0756649c0b528", "d487543da5ea3a16227ffdd9c69657bf393cade6970b0026745218a9d17c4fae5e40573f844b5653dcfbc253b4fc5b01")));
    mul_base_case(&ops, "93f234617073f41864099a9273b718518585add135dc2234abceaee648d699433f3f2cb35f4f63c50ecd371a9ef1123e", Some(("c4dee7b30fe567d7c89d54a89b3e060de05a86d98171f393edb8ec93c7ccd66cb5df3e5455450a43cff4366f1959d69b", "341446d09c8ff5f2628872454c761eee88b894ad22e5470f598dc2fe5fc13b08eaae48850752d9a00184c360526db8de")));
    mul_base_case(&ops, "000000000000000000000000000000000000000000000000000000000000000000000000000000000000000000000000", None);
}
