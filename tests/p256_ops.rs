//! Field, scalar and point arithmetic on P-256, against values computed
//! independently with plain integer arithmetic.

use suite_b::curve::{parse_uncompressed_point, verify_affine_point_is_on_the_curve, verify_jacobian_point_is_on_the_curve};
use suite_b::limb::AllowZero;
use suite_b::ops::{
    CommonOps, Elem, Point, PrivateKeyOps, Q, R, Scalar, Unencoded, elem_parse_big_endian_fixed_consttime,
    scalar_parse_big_endian_fixed_consttime, scalar_parse_big_endian_partially_reduced_variable_consttime,
    scalar_parse_big_endian_variable,
};
use suite_b::p256;

fn from_hex(s: &str) -> Vec<u8> {
    let s = s.as_bytes();
    let mut r = Vec::new();
    let mut i = 0;
    while i + 1 < s.len() {
        let d = |c: u8| -> u8 {
            match c {
                b'0'..=b'9' => c - b'0',
                b'a'..=b'f' => c - b'a' + 10,
                _ => panic!("bad hex digit"),
            }
        };
        r.push(d(s[i]) * 16 + d(s[i + 1]));
        i += 2;
    }
    r
}

/// A field element whose limbs hold the given value, taken as already
/// encoded.
fn elem(ops: &CommonOps, hex: &str) -> Elem<Q, R> {
    let e: Elem<Q, Unencoded> = elem_parse_big_endian_fixed_consttime(ops, &from_hex(hex)).unwrap();
    Elem::from_limbs(e.limbs)
}

fn scalar(ops: &CommonOps, hex: &str) -> Scalar {
    scalar_parse_big_endian_variable(ops, AllowZero::Yes, &from_hex(hex)).unwrap()
}

fn scalar_mont(ops: &CommonOps, hex: &str) -> Scalar<R> {
    Elem::from_limbs(scalar(ops, hex).limbs)
}

fn point(ops: &CommonOps, x: &str, y: &str, z: &str) -> Point {
    ops.point_from_coords(&elem(ops, x), &elem(ops, y), &elem(ops, z))
}

fn assert_limbs_eq(ops: &CommonOps, actual: &[u64; 6], expected: &[u64; 6]) {
    assert_eq!(ops.num_limbs, 4);
    for i in 0..ops.num_limbs {
        assert_eq!(actual[i], expected[i], "limb {}", i);
    }
}

/// Compares a Jacobian point with an expected affine point (in Montgomery
/// form), or with infinity.
fn assert_point(ops: &PrivateKeyOps, actual: &Point, expected: Option<(&str, &str)>) {
    let cops = &ops.common;
    let x = cops.point_x(actual);
    let y = cops.point_y(actual);
    let z = cops.point_z(actual);
    match expected {
        None => assert!(cops.is_zero(&z)),
        Some((ex, ey)) => {
            let zz_inv = ops.elem_inverse_squared(&z);
            let x_aff = cops.elem_product(&x, &zz_inv);
            let zzzz_inv = cops.elem_squared(&zz_inv);
            let zzz_inv = cops.elem_product(&z, &zzzz_inv);
            let y_aff = cops.elem_product(&y, &zzz_inv);
            assert_limbs_eq(cops, &x_aff.limbs, &elem(cops, ex).limbs);
            assert_limbs_eq(cops, &y_aff.limbs, &elem(cops, ey).limbs);
        }
    }
}


fn add_case(ops: &CommonOps, a: &str, b: &str, r: &str) {
    let a = elem(ops, a);
    let b = elem(ops, b);
    let expected = elem(ops, r);
    let mut actual = a;
    ops.elem_add(&mut actual, &b);
    assert_limbs_eq(ops, &actual.limbs, &expected.limbs);
    let mut actual = b;
    ops.elem_add(&mut actual, &a);
    assert_limbs_eq(ops, &actual.limbs, &expected.limbs);
}

#[test]
fn p256_elem_add_test() {
    let ops = p256::common_ops();
    add_case(&ops, "c46f8780bdb24532883f678ac85d3e870c4705de623958a8d7e77b64a4ff0d2e", "3f28b6f47068ce063e421b4c5fc36774a26a7bfcf51a7b45065ccd08ef9cfe25", "03983e762e1b1337c68182d72820a5fbaeb181da5753d3edde44486d949c0b54");
    add_case(&ops, "0e128a2948ab7279f209d61c612a948b3b9acd1c8eeed390b2edd3491fb3ce3a", "b93d6dfcace2007248f85dcbd4d9c5252eb1616a726c1f5464d4af1422db91d0", "c74ff825f58d72ec3b0233e8360459b06a4c2e87015af2e517c2825d428f600a");
    add_case(&ops, "651afd26eadeada66e7cdc0ca244690794f7b3f7b62f1e12bada78d09420ddf2", "913dff386f0ee379e7dccbeb67235e51e011b7627c43365b7e6c6b03dee43ed7", "f658fc5f59ed91205659a7f80967c75975096b5a3272546e3946e3d473051cc9");
    add_case(&ops, "ffffffff00000001000000000000000000000000fffffffffffffffffffffffe", "0000000000000000000000000000000000000000000000000000000000000001", "0000000000000000000000000000000000000000000000000000000000000000");
    add_case(&ops, "ffffffff00000001000000000000000000000000fffffffffffffffffffffffe", "ffffffff00000001000000000000000000000000fffffffffffffffffffffffe", "ffffffff00000001000000000000000000000000fffffffffffffffffffffffd");
    add_case(&ops, "0000000000000000000000000000000000000000000000000000000000000000", "0000000000000000000000000000000000000000000000000000000000000000", "0000000000000000000000000000000000000000000000000000000000000000");
}


fn sub_case(ops: &CommonOps, a: &str, b: &str, r: &str) {
    let a = elem(ops, a);
    let b = elem(ops, b);
    let r = elem(ops, r);
    let d = ops.elem_difference(&r, &b);
    assert_limbs_eq(ops, &d.limbs, &a.limbs);
    let d = ops.elem_difference(&r, &a);
    assert_limbs_eq(ops, &d.limbs, &b.limbs);
}

#[test]
fn p256_elem_difference_test() {
    let ops = p256::common_ops();
    sub_case(&ops, "c46f8780bdb24532883f678ac85d3e870c4705de623958a8d7e77b64a4ff0d2e", "3f28b6f47068ce063e421b4c5fc36774a26a7bfcf51a7b45065ccd08ef9cfe25", "03983e762e1b1337c68182d72820a5fbaeb181da5753d3edde44486d949c0b54");
    sub_case(&ops, "0e128a2948ab7279f209d61c612a948b3b9acd1c8eeed390b2edd3491fb3ce3a", "b93d6dfcace2007248f85dcbd4d9c5252eb1616a726c1f5464d4af1422db91d0", "c74ff825f58d72ec3b0233e8360459b06a4c2e87015af2e517c2825d428f600a");
    sub_case(&ops, "651afd26eadeada66e7cdc0ca244690794f7b3f7b62f1e12bada78d09420ddf2", "913dff386f0ee379e7dccbeb67235e51e011b7627c43365b7e6c6b03dee43ed7", "f658fc5f59ed91205659a7f80967c75975096b5a3272546e3946e3d473051cc9");
    sub_case(&ops, "ffffffff00000001000000000000000000000000fffffffffffffffffffffffe", "0000000000000000000000000000000000000000000000000000000000000001", "0000000000000000000000000000000000000000000000000000000000000000");
    sub_case(&ops, "ffffffff00000001000000000000000000000000fffffffffffffffffffffffe", "ffffffff00000001000000000000000000000000fffffffffffffffffffffffe", "ffffffff00000001000000000000000000000000fffffffffffffffffffffffd");
    sub_case(&ops, "0000000000000000000000000000000000000000000000000000000000000000", "0000000000000000000000000000000000000000000000000000000000000000", "0000000000000000000000000000000000000000000000000000000000000000");
}


fn neg_case(ops: &CommonOps, a: &str, b: &str) {
    let zero: Elem<Q, R> = Elem::zero();
    let a = elem(ops, a);
    let b = elem(ops, b);
    let r = ops.elem_difference(&zero, &a);
    assert_limbs_eq(ops, &r.limbs, &b.limbs);
    let r = ops.elem_difference(&zero, &b);
    assert_limbs_eq(ops, &r.limbs, &a.limbs);
}

#[test]
fn p256_elem_neg_test() {
    let ops = p256::common_ops();
    neg_case(&ops, "f0b991c8bb99f33d4b5009f5332ba39f40e17ad5477b446567baf4d09af211b4", "0f466e3644660cc3b4aff60accd45c60bf1e852bb884bb9a98450b2f650dee4b");
    neg_case(&ops, "71fb0c7372a559092d5e298ae1105f677ff52902fba8a814f0efbca52febd01c", "8e04f38b8d5aa6f7d2a1d6751eefa098800ad6fe045757eb0f10435ad0142fe3");
    neg_case(&ops, "0000000000000000000000000000000000000000000000000000000000000001", "ffffffff00000001000000000000000000000000fffffffffffffffffffffffe");
    neg_case(&ops, "ffffffff00000001000000000000000000000000fffffffffffffffffffffffe", "0000000000000000000000000000000000000000000000000000000000000001");
    let zero: Elem<Q, R> = Elem::zero();
    let r = ops.elem_difference(&zero, &zero);
    assert!(ops.is_zero(&r));
}


fn mul_case(ops: &CommonOps, a: &str, b: &str, r: &str) {
    let mut a = elem(ops, a);
    let b = elem(ops, b);
    let r = elem(ops, r);
    let p = ops.elem_product(&a, &b);
    assert_limbs_eq(ops, &p.limbs, &r.limbs);
    ops.elem_mul(&mut a, &b);
    assert_limbs_eq(ops, &a.limbs, &r.limbs);
}

#[test]
fn p256_elem_mul_test() {
    let ops = p256::common_ops();
    mul_case(&ops, "75c036c89d32fae05516fd2b3b016b21c2905f8fb0493662cca49f64e352aa3a", "9d20dba64c059ae00cf80bb1bc8d2a944ebb6703455b14d9902214f6655e23ad", "148417d394829ef453038f5e7971b821f6f02bbad9df0a264c0bfe270cbbb972");
    mul_case(&ops, "41c688ccf897b86fe8ea44dc7690b75706577990b4e9148598d8ce68df7bb373", "07407f1ae4abfa18a2fe068b3b133f2b3cf1db95283e7d89e859899053c54f0e", "61bb5fcfc8ab4f80b646bbe841a3e112d6a45b9707772eafb701c7a2db5f0631");
    mul_case(&ops, "436b80bcd9221441a153f4ed00ae170e142445f16ee59270f03ae2e0850b1f26", "4237ae39f2e7c6d946c48ba856ac5e362976c6a0652dca851ea4613ac501ccd6", "d237d0eb04859e83d89afd34029e91bbb166e704b16ecb67f14d8a4a76c7ee75");
    mul_case(&ops, "ffffffff00000001000000000000000000000000fffffffffffffffffffffffe", "ffffffff00000001000000000000000000000000fffffffffffffffffffffffe", "fffffffe00000003fffffffd0000000200000001fffffffe0000000300000000");
    mul_case(&ops, "0000000000000000000000000000000000000000000000000000000000000000", "ba44b9a43439fcdfd7c7b9f74144ed4977be0b602b77858b5cccc8115db20783", "0000000000000000000000000000000000000000000000000000000000000000");
    mul_case(&ops, "0000000000000000000000000000000000000000000000000000000000000001", "0000000000000000000000000000000000000000000000000000000000000001", "fffffffe00000003fffffffd0000000200000001fffffffe0000000300000000");
}


fn scalar_mul_case(ops: &suite_b::ops::ScalarOps, a: &str, b: &str, r: &str) {
    let a = scalar(&ops.common, a);
    let b = scalar_mont(&ops.common, b);
    let expected = scalar(&ops.common, r);
    let actual = ops.scalar_product(&a, &b);
    assert_limbs_eq(&ops.common, &actual.limbs, &expected.limbs);
}

#[test]
fn p256_scalar_mul_test() {
    let ops = p256::scalar_ops();
    scalar_mul_case(&ops, "31ded8c3488ffa4bbc26299a03af42fc723a676cd2c4d2fb1cb71c653fa458e0", "b8383c2c80dc152d1e90783a9628e38f33e8bea10fcf0cbe8371a17788eaff2b", "e2758d72e96593254bfca0d951a01e4046a9dd6cd3dcf4bab005c3998388ee97");
    scalar_mul_case(&ops, "531578bc6612ffe6651d4500b5a8c0c6d5fa99765355e69039978c5fdb551c12", "dc9ed6ba5ce6e232fc7d126b8c3332b4cb5b8d3bf1b70cc812d10954e18d4373", "5b5909f159519a4a004f0ee2e78411abe155dca759c694a1ffd04e94deb6c841");
    scalar_mul_case(&ops, "16ed1d74189bf4e7530f59400c206ffdbebe4c21d3420a2d200e50daa0316329", "e9097daae1d3d3cd4bf32c7648a244a682a928d33c1bbbac08635acd45748607", "5b767428d16e1710442aef759a5dd257c8e983b04cad2ed97160c8a3c8b5c865");
    scalar_mul_case(&ops, "ffffffff00000000ffffffffffffffffbce6faada7179e84f3b9cac2fc632550", "ffffffff00000000ffffffffffffffffbce6faada7179e84f3b9cac2fc632550", "60d066334905c1e907f8b6041e607725badef3e243566fafce1bc8f79c197c79");
    scalar_mul_case(&ops, "0000000000000000000000000000000000000000000000000000000000000001", "00000000ffffffff00000000000000004319055258e8617b0c46353d039cdaaf", "0000000000000000000000000000000000000000000000000000000000000001");
}


fn sum_case(ops: &PrivateKeyOps, a: (&str, &str, &str), b: (&str, &str, &str), r: Option<(&str, &str)>) {
    let a = point(&ops.common, a.0, a.1, a.2);
    let b = point(&ops.common, b.0, b.1, b.2);
    let actual = ops.common.point_sum(&a, &b);
    assert_point(ops, &actual, r);
}

#[test]
fn p256_point_sum_test() {
    let ops = p256::private_key_ops();
    sum_case(&ops, ("18905f76a53755c679fb732b7762251075ba95fc5fedb60179e730d418a9143c", "8571ff1825885d85d2e88688dd21f3258b4ab8e4ba19e45cddf25357ce95560a", "00000000fffffffeffffffffffffffffffffffff000000000000000000000001"), ("f6bb32e43dcf3a3b732205038d1490d9aa6ae3c1a433827d850046d410ddd64d", "78c577510a5b8a3b19a8fb0e92042dbe152cd7cbeb236ff82f3648d361bee1a5", "00000000fffffffeffffffffffffffffffffffff000000000000000000000001"), Some(("26936a3fb6ff747e66ad77dd87cbbc98b027f84a087d81fbffac3f904eebc127", "d5f06a29e587cc07788208311a2ee98e583e47ad0861fe1ab04c5c1fc983a7eb")));
    sum_case(&ops, ("ffa29dc6c6cff2d88b17a39851f455f68ef7db563d99647a1fdd6819bebd8160", "6eb71ca5514e241fab5e556897b1b22fa3c741956c21171e8540b955870d5456", "9365693ef34dd0349e8b48507f315b74d84ca74b1d97d0ff29fcefe0e744c58b"), ("a74e8bbc2d934e90a6e99c72a5f88dd04ec9e6d6902a94f4391cb1b0ea6b95e0", "032395ebc38f1e4d934d828f231362775da76007852b87f843b72f3814dd16db", "f1b640c1aa49e048fa5845982e484598bb78c9852502b14a63103d86531de30b"), Some(("0951c08b1323be3983799718aadd12c60a0b69e02bd043a8c9ece564a60d104c", "46c338be1f9691ced86f0d0756331f3c516f0b3ad8a4cb5334c35f55d3a6a8c9")));
    sum_case(&ops, ("e59e356e31241edeb72dda4c7cef358c69d9dbe940988df6deab90b2aca65e21", "227fb16efa0cb5ef61d355db63b381591a4ed0ff93775cfb93e697df6ad1c455", "00000004fffffffafffffffffffffffffffffffb000000000000000000000005"), ("a354cf20c6b76fb36707f38bad31028e1725e238b1ced8cf628377c49a12e175", "95f5f11ddf49ca454df820d6eec39a3a2146dd3c7e1e9299c0d900fea82f3768", "00000006fffffff8fffffffffffffffffffffff9000000000000000000000007"), Some(("e1b13b84bec59788670a6b6986641601a5087207464e96c67fc5a1add1875a08", "2a1a8342fc06e760ce5a8ae75c237cc08500a37e104325dc0d8b1b7ac44032a0")));
    sum_case(&ops, ("672479a278173e5041f1c977b218ace0a0fc825e4a745c113170f6a6b908b13f", "40cbb5af4c89e9dbddd5959dfae955487e83b65c4adc57ab13a89796a87b2237", "00000002fffffffcfffffffffffffffffffffffd000000000000000000000003"), ("9f9e6ef26e4338241d4f043532b5a22af23756633d890c796b4ea682fce76b38", "4b9db733fc48ea1e0a1f87d130ea458bb4969a8fb0ee1ee9c1494e5819ee7a9a", "00000001fffffffdfffffffffffffffffffffffe000000000000000000000002"), None);
    sum_case(&ops, ("0000000000000000000000000000000000000000000000000000000000000000", "0000000000000000000000000000000000000000000000000000000000000000", "0000000000000000000000000000000000000000000000000000000000000000"), ("20098d83e88acbb33777c0657e1511a00aa7d107368410aa658bd184e852e565", "a90459f35b5839f98ada3e452271af6f7b5aac4c16e29fe3a9b6f13c00f4f6c0", "00000008fffffff6fffffffffffffffffffffff7000000000000000000000009"), Some(("55ba9649fc8cc6777bf1ad0abc0694c2c41508e723703f6a6663b3930607582a", "946c8428d763da27e68e2ba147af6344fb40bd2a78d51e1184f93a45f6def9aa")));
    sum_case(&ops, ("853109205e89ce51953aca12df1c500eadf13517c00df94a651fe07dd978ac02", "b033235adc273a70b52cd787b4e11fa6519780cf3c0b55165bc9f9c2894c11e1", "0000000afffffff4fffffffffffffffffffffff500000000000000000000000b"), ("0000000000000000000000000000000000000000000000000000000000000000", "0000000000000000000000000000000000000000000000000000000000000000", "0000000000000000000000000000000000000000000000000000000000000000"), Some(("55ba9649fc8cc6777bf1ad0abc0694c2c41508e723703f6a6663b3930607582a", "946c8428d763da27e68e2ba147af6344fb40bd2a78d51e1184f93a45f6def9aa")));
}


fn double_case(ops: &PrivateKeyOps, a: (&str, &str, &str), r: Option<(&str, &str)>) {
    let a = point(&ops.common, a.0, a.1, a.2);
    let actual = suite_b::jacobian::point_double(&ops.common, &a);
    assert_point(ops, &actual, r);
}

#[test]
fn p256_point_double_test() {
    let ops = p256::private_key_ops();
    double_case(&ops, ("18905f76a53755c679fb732b7762251075ba95fc5fedb60179e730d418a9143c", "8571ff1825885d85d2e88688dd21f3258b4ab8e4ba19e45cddf25357ce95560a", "00000000fffffffeffffffffffffffffffffffff000000000000000000000001"), Some(("f6bb32e43dcf3a3b732205038d1490d9aa6ae3c1a433827d850046d410ddd64d", "78c577510a5b8a3b19a8fb0e92042dbe152cd7cbeb236ff82f3648d361bee1a5")));
    double_case(&ops, ("1cadd1560baabbac7b286b89c8d2c74fe7e21e19da046c123d582e1b5da8fb83", "a46d6d2523a719d35f6f16a315f1cadcd2e0201f1e7edde37af7a426eb7afdca", "bc5797102a2129842c8c51cd8bb05e95e100a0c0d1985ca439c0ec166ae6839e"), Some(("e1b13b84bec59788670a6b6986641601a5087207464e96c67fc5a1add1875a08", "2a1a8342fc06e760ce5a8ae75c237cc08500a37e104325dc0d8b1b7ac44032a0")));
    double_case(&ops, ("56ea5928f23319dcefc6b42af01a530b1054239b8dc0fda9998ece4c181d60a9", "a364214abb1ed13b34715d0a3d7b1a27da05e94fc6a8f08c27c9d22fb6f7cd54", "00000001fffffffdfffffffffffffffffffffffe000000000000000000000002"), Some(("3da8a7f366905fb04ea3cb34e5839e04aaab336e14c44c4f9212611ed635116a", "665952d52c2af8045c6e16a72bd96045b70949343af873ad0275800e796c4343")));
    double_case(&ops, ("0000000000000000000000000000000000000000000000000000000000000000", "0000000000000000000000000000000000000000000000000000000000000000", "0000000000000000000000000000000000000000000000000000000000000000"), None);
}


fn mul_point_case(ops: &PrivateKeyOps, k: &str, p: (&str, &str), r: Option<(&str, &str)>) {
    let k = scalar(&ops.common, k);
    let p = (elem(&ops.common, p.0), elem(&ops.common, p.1));
    let actual = ops.point_mul(&k, &p);
    assert_point(ops, &actual, r);
}

#[test]
fn p256_point_mul_test() {
    let ops = p256::private_key_ops();
    mul_point_case(&ops, "18deb99b1cc456db1e1a9bedea3a3e45339c3aa17f06d90e1956e1d61f72e247", ("27e79bbc9b90ce090753c10d4cad688abc8dd598cf62431e5ad3a9a0bf39dace", "b68c4918c076e2bcfebc0f05d9e2b74e896d2caec9e23c22c7d6d634fcc230ac"), Some(("1d79bee9531dc42887da4e5af83d6c0715a5cd351d863c28a6c3d8de1264bcf8", "12fe2e742e0b49c0d063c80c24a17b60da086ee838f3647d332cc5ae9ed64b15")));
    mul_point_case(&ops, "0000000000000000000000000000000000000000000000000000000000000001", ("55ba9649fc8cc6777bf1ad0abc0694c2c41508e723703f6a6663b3930607582a", "946c8428d763da27e68e2ba147af6344fb40bd2a78d51e1184f93a45f6def9aa"), Some(("55ba9649fc8cc6777bf1ad0abc0694c2c41508e723703f6a6663b3930607582a", "946c8428d763da27e68e2ba147af6344fb40bd2a78d51e1184f93a45f6def9aa")));
    mul_point_case(&ops, "ffffffff00000000ffffffffffffffffbce6faada7179e84f3b9cac2fc632550", ("27e79bbc9b90ce090753c10d4cad688abc8dd598cf62431e5ad3a9a0bf39dace", "b68c4918c076e2bcfebc0f05d9e2b74e896d2caec9e23c22c7d6d634fcc230ac"), Some(("27e79bbc9b90ce090753c10d4cad688abc8dd598cf62431e5ad3a9a0bf39dace", "4973b6e63f891d440143f0fa261d48b17692d352361dc3dd382929cb033dcf53")));
    mul_point_case(&ops, "0000000000000000000000000000000000000000000000000000000000000002", ("18905f76a53755c679fb732b7762251075ba95fc5fedb60179e730d418a9143c", "8571ff1825885d85d2e88688dd21f3258b4ab8e4ba19e45cddf25357ce95560a"), Some(("f6bb32e43dcf3a3b732205038d1490d9aa6ae3c1a433827d850046d410ddd64d", "78c577510a5b8a3b19a8fb0e92042dbe152cd7cbeb236ff82f3648d361bee1a5")));
    mul_point_case(&ops, "0000000000000000000000000000000000000000000000000000000000000000", ("55ba9649fc8cc6777bf1ad0abc0694c2c41508e723703f6a6663b3930607582a", "946c8428d763da27e68e2ba147af6344fb40bd2a78d51e1184f93a45f6def9aa"), None);
}


fn mul_base_case(ops: &PrivateKeyOps, k: &str, r: Option<(&str, &str)>) {
    let k = scalar(&ops.common, k);
    let actual = ops.point_mul_base(&k);
    assert_point(ops, &actual, r);
    let g = ops.generator;
    let other = ops.point_mul(&k, &g);
    assert_eq!(actual.xyz, other.xyz);
}

#[test]
fn p256_point_mul_base_test() {
    let ops = p256::private_key_ops();
    mul_base_case(&ops, "0000000000000000000000000000000000000000000000000000000000000001", Some(("18905f76a53755c679fb732b7762251075ba95fc5fedb60179e730d418a9143c", "8571ff1825885d85d2e88688dd21f3258b4ab8e4ba19e45cddf25357ce95560a")));
    mul_base_case(&ops, "0000000000000000000000000000000000000000000000000000000000000002", Some(("f6bb32e43dcf3a3b732205038d1490d9aa6ae3c1a433827d850046d410ddd64d", "78c577510a5b8a3b19a8fb0e92042dbe152cd7cbeb236ff82f3648d361bee1a5")));
    mul_base_case(&ops, "0000000000000000000000000000000000000000000000000000000000000003", Some(("26936a3fb6ff747e66ad77dd87cbbc98b027f84a087d81fbffac3f904eebc127", "d5f06a29e587cc07788208311a2ee98e583e47ad0861fe1ab04c5c1fc983a7eb")));
    mul_base_case(&ops, "ffffffff00000000ffffffffffffffffbce6faada7179e84f3b9cac2fc632550", Some(("18905f76a53755c679fb732b7762251075ba95fc5fedb60179e730d418a9143c", "7a8e00e6da77a27b2d17797722de0cda74b5471c45e61ba3220daca8316aa9f5")));
    mul_base_case(&ops, "ec0174615c4db2b66b492a5a6806ab4241816bd42a06e7a6affe788b808f54a7", Some(("66d44285511da1af2aec6664cdfec582687e967e62fdfe42825bda47e81332d5", "17b2cc08708372b4915ba013c9085a57dfdca4e0da2c1e000a8a7fa3e2b85951")));
    mul_base_case(&ops, "0000000000000000000000000000000000000000000000000000000000000000", None);
}

fn scalar_square_case(ops: &suite_b::ops::ScalarOps, a: &str, r: &str) {
    let a = scalar_mont(&ops.common, a);
    let expected = scalar(&ops.common, r);
    let actual = ops.scalar_product(&a, &a);
    assert_limbs_eq(&ops.common, &actual.limbs, &expected.limbs);
}

#[test]
fn p256_scalar_square_test() {
    let ops = p256::scalar_ops();
    scalar_square_case(&ops, "6a6e3295e9d237facfd7e76bc01756667e77106033281f3224ccdee5e8372141", "675ad4e1ff40d511008ee441f532a89b7b2349d42e6a189f7ed31555d38cab52");
    scalar_square_case(&ops, "d8cf351150a82ea4f2f28c47998303baac21c1677aa33bb033199ea2fec7982a", "bd91dfa19500b549ff4c02b80371bd6b90908781adc4e7a021212299f723239d");
    scalar_square_case(&ops, "a84138006b7514899a1dd214b4b395d0d79770bf4fd32d097016bea7101c6146", "9e7e06f32530d40705ac2e46195cd966020e92508d97e1d1f468283e3c5cfd10");
    scalar_square_case(&ops, "ffffffff00000000ffffffffffffffffbce6faada7179e84f3b9cac2fc632550", "60d066334905c1e907f8b6041e607725badef3e243566fafce1bc8f79c197c79");
    scalar_square_case(&ops, "0000000000000000000000000000000000000000000000000000000000000000", "0000000000000000000000000000000000000000000000000000000000000000");
}


fn sum_mixed_case(ops: &PrivateKeyOps, a: (&str, &str, &str), b: (&str, &str), r: Option<(&str, &str)>) {
    let a = point(&ops.common, a.0, a.1, a.2);
    let b = ops.common.point_from_affine(&(elem(&ops.common, b.0), elem(&ops.common, b.1)));
    let actual = ops.common.point_sum(&a, &b);
    assert_point(ops, &actual, r);
}

#[test]
fn p256_point_sum_mixed_test() {
    let ops = p256::private_key_ops();
    sum_mixed_case(&ops, ("e71901b0800f641ff6411b090da6d0e83e060e4c486ec231901156afa0156437", "d7633b4dbaf03e6c541a2867c54e92c50e97ff05e682fc3f897f67eb27583587", "8cef38d06332b9de6a30983c548d8bb7f2db455936f59c41fa1159c9caaa99df"), ("53f33f1d8528bd7e834ebb50077d529f256f8e26291b3c79a5c7aa29857a77f8", "141c53789073ce51822e6357d5a1dfb725a35640abff5f12524e48f26a6c554a"), Some(("4571e5f5a858cfb03d90d6ce947c7f48bccdbded7128960de2ae4c08e5f46d4f", "f89d6fc37dd56da1a72e5de3d9710c370f352b8bc70e5242fc50a314d0b65b24")));
    sum_mixed_case(&ops, ("dd135b2bcef203fa49d70c8732734d94238f45df5f5b660d4920b774ddf1b61c", "1305e799f561dd0f3e86306f5294a4f5b0e18011a0bb15cb688eca42c9c0131c", "00000002fffffffcfffffffffffffffffffffffd000000000000000000000003"), ("f6bb32e43dcf3a3b732205038d1490d9aa6ae3c1a433827d850046d410ddd64d", "78c577510a5b8a3b19a8fb0e92042dbe152cd7cbeb236ff82f3648d361bee1a5"), Some(("26936a3fb6ff747e66ad77dd87cbbc98b027f84a087d81fbffac3f904eebc127", "d5f06a29e587cc07788208311a2ee98e583e47ad0861fe1ab04c5c1fc983a7eb")));
    sum_mixed_case(&ops, ("941dc60f4f5c8a4e8e7e0a0ab96e21b62966de9f4db07c3052347d0803fce6f9", "b17faf58d8f653503853215475f95717aa0ec2f204058d944f2417032d182ff3", "00000004fffffffafffffffffffffffffffffffb000000000000000000000005"), ("6c531c669cc642f94d61339a076ace2601a7f46d2c114ca5c5d923b8a3ffe047", "8caf19fa05d4ea2400735a60ee8304caf0f9f95ea3df46c3bf18dd5e3bc0b49b"), Some(("a981cb60ccc33f24f95689e356e4d730aa9cb5ea1b3c424303b78d1cdfdaf3a9", "4dd531fd437ef91f314041621541168f6730475bcfa785f272ec5e05e3ace14f")));
    sum_mixed_case(&ops, ("0000000000000000000000000000000000000000000000000000000000000000", "0000000000000000000000000000000000000000000000000000000000000000", "0000000000000000000000000000000000000000000000000000000000000000"), ("53f33f1d8528bd7e834ebb50077d529f256f8e26291b3c79a5c7aa29857a77f8", "141c53789073ce51822e6357d5a1dfb725a35640abff5f12524e48f26a6c554a"), Some(("53f33f1d8528bd7e834ebb50077d529f256f8e26291b3c79a5c7aa29857a77f8", "141c53789073ce51822e6357d5a1dfb725a35640abff5f12524e48f26a6c554a")));
}


#[test]
fn p256_point_mul_serialized_test() {
    let priv_ops = p256::private_key_ops();
    let pub_ops = p256::public_key_ops();
    let cops = &pub_ops.common;
    let p_scalar = scalar(cops, "c137e1b853299d0a16d726d96811fd36936ffe2fcce4c7cf533b1839438e630f");
    let p = suite_b::curve::parse_uncompressed_point(&pub_ops, &from_hex("0421856e179407cd7d18622a4cb6684093aa0f011f4cfba13bdd23af62b538021223ee6fca67015f5bc72c630e84b23565964d454b67ce4bfbc14e6490f24b2dd4")).expect("valid point");
    let product = priv_ops.point_mul(&p_scalar, &p);
    // Affine coordinates, decoded, big-endian.
    let z = cops.point_z(&product);
    let zz_inv = priv_ops.elem_inverse_squared(&z);
    let x = cops.elem_unencoded(&cops.elem_product(&cops.point_x(&product), &zz_inv));
    let zzz_inv = cops.elem_product(&z, &cops.elem_squared(&zz_inv));
    let y = cops.elem_unencoded(&cops.elem_product(&cops.point_y(&product), &zzz_inv));
    let mut actual = vec![4u8];
    let mut xb = [0u8; 32];
    suite_b::limb::big_endian_from_limbs_padded(&x.limbs[..4], &mut xb);
    let mut yb = [0u8; 32];
    suite_b::limb::big_endian_from_limbs_padded(&y.limbs[..4], &mut yb);
    actual.extend_from_slice(&xb);
    actual.extend_from_slice(&yb);
    assert_eq!(actual, from_hex("041c74dbfb39f951fb8f075be51a21a16fa824f251e07f4dd9325ada339d42cf19545c4553d131a23cc902e51fce216aeba0186633b93e3efc21dc711b30359d1f"));
}


#[test]
fn p256_generator_scenario_test() {
    let pops = p256::private_key_ops();
    let cops = &pops.common;
    // The published generator is on the curve; with y + 1 it is not.
    let gx = elem(cops, "18905f76a53755c679fb732b7762251075ba95fc5fedb60179e730d418a9143c");
    let gy = elem(cops, "8571ff1825885d85d2e88688dd21f3258b4ab8e4ba19e45cddf25357ce95560a");
    assert_eq!(suite_b::curve::verify_affine_point_is_on_the_curve(cops, (&gx, &gy)), Ok(()));
    let gy1 = elem(cops, "8571ff1925885d84d2e88688dd21f3258b4ab8e3ba19e45cddf25357ce95560b");
    assert!(suite_b::curve::verify_affine_point_is_on_the_curve(cops, (&gx, &gy1)).is_err());
    assert_eq!(pops.generator.0.limbs, gx.limbs);
    assert_eq!(pops.generator.1.limbs, gy.limbs);
    // One times the generator is the generator, in affine form.
    let one = scalar(cops, "0000000000000000000000000000000000000000000000000000000000000001");
    let g = pops.point_mul_base(&one);
    assert_point(&pops, &g, Some(("18905f76a53755c679fb732b7762251075ba95fc5fedb60179e730d418a9143c", "8571ff1825885d85d2e88688dd21f3258b4ab8e4ba19e45cddf25357ce95560a")));
    // Zero times the generator is the point at infinity.
    let zero = scalar(cops, "0000000000000000000000000000000000000000000000000000000000000000");
    let inf = pops.point_mul_base(&zero);
    assert!(cops.is_zero(&cops.point_z(&inf)));
    // The point at infinity is an identity for addition.
    let s = cops.point_sum(&g, &inf);
    assert_eq!(s.xyz, g.xyz);
    assert_point(&pops, &s, Some(("18905f76a53755c679fb732b7762251075ba95fc5fedb60179e730d418a9143c", "8571ff1825885d85d2e88688dd21f3258b4ab8e4ba19e45cddf25357ce95560a")));
}


#[test]
fn p256_inversion_test() {
    let pops = p256::private_key_ops();
    let cops = &pops.common;
    let a = elem(cops, "301c0eeaf0169f94e0b37fb80deac76ea5777973fccc87d6f4e236793b48bc53");
    let r = pops.elem_inverse_squared(&a);
    assert_limbs_eq(cops, &r.limbs, &elem(cops, "07d7732fc3841ea7b5e640841c96069126306d86062e2ab1858f05f4b12c0c50").limbs);
    let one = cops.elem_product(&cops.elem_squared(&a), &r);
    assert_limbs_eq(cops, &one.limbs, &cops.elem_one().limbs);
    let sops = p256::scalar_ops();
    let s = scalar(&sops.common, "9dac66fdcd90034f4f458f090593e4c0b264e88d982755a6ff0bbe9ee39f7dc3");
    let inv = sops.scalar_inv_to_mont(&s);
    assert_limbs_eq(&sops.common, &inv.limbs, &scalar(&sops.common, "30ae08a1c53609d5ee497df144f114882aaba14ca4a99fe04899318af1df7c61").limbs);
    let p = sops.scalar_product(&s, &inv);
    assert_limbs_eq(&sops.common, &p.limbs, &[1, 0, 0, 0, 0, 0]);
}
