//! Key pairs on P-384.

use suite_b::keys::{key_pair_from_bytes, public_from_private};
use suite_b::limb::AllowZero;
use suite_b::ops::scalar_parse_big_endian_variable;
use suite_b::p384;

fn from_hex(s: &str) -> Vec<u8> {
    (0..s.len() / 2).map(|i| u8::from_str_radix(&s[2 * i..2 * i + 2], 16).unwrap()).collect()
}

#[test]
fn public_from_private_test() {
    let ops = p384::private_key_ops();
    let k = scalar_parse_big_endian_variable(&ops.common, AllowZero::No, &from_hex("baa1c6f1404b6eaf162a01dec28753f8221c4e003f9931ee3af27f802dc5fd3d9974d75b333824fe61790134676b1b6a")).unwrap();
    assert_eq!(public_from_private(&ops, &k).unwrap(), from_hex("04e656ffd455cb517d07e08ae15f3e613a88f9f12ecfaa53fc6fb10582dd643e935c39fd7a0847b69589641d9fd80e0e0592dfcab815f0752ab9098a7a3b10c479e6dffd54d3fe361968470ff3ee1c79536457b82394e9b879a2c6c6788a032b86"));
    let one = scalar_parse_big_endian_variable(&ops.common, AllowZero::No, &[1]).unwrap();
    assert_eq!(public_from_private(&ops, &one).unwrap(), from_hex("04aa87ca22be8b05378eb1c71ef320ad746e1d3b628ba79b9859f741e082542a385502f25dbf55296c3a545e3872760ab73617de4a96262c6f5d9e98bf9292dc29f8f41dbd289a147ce9da3113b5f0b8c00a60b1ce1d7e819d7a431d7c90ea0e5f"));
}

#[test]
fn key_pair_from_bytes_test() {
    let ops = p384::private_key_ops();
    let private_key = from_hex("baa1c6f1404b6eaf162a01dec28753f8221c4e003f9931ee3af27f802dc5fd3d9974d75b333824fe61790134676b1b6a");
    let public_key = from_hex("04e656ffd455cb517d07e08ae15f3e613a88f9f12ecfaa53fc6fb10582dd643e935c39fd7a0847b69589641d9fd80e0e0592dfcab815f0752ab9098a7a3b10c479e6dffd54d3fe361968470ff3ee1c79536457b82394e9b879a2c6c6788a032b86");
    let kp = key_pair_from_bytes(&ops, &private_key, &public_key).unwrap();
    assert_eq!(kp.public_key, public_key);
    assert_eq!(kp.private_key.limbs, scalar_parse_big_endian_variable(&ops.common, AllowZero::No, &private_key).unwrap().limbs);
    // The public key of another private key.
    assert!(key_pair_from_bytes(&ops, &private_key, &from_hex("049f3c3bdad49a2c6692f4eb8a84886ead8fca5c120775cd5fcf17c5fbd0ce6a8d6d0c6cacf8c9f8e034706296df8c2c814881cfe3cc7288f00bfd1e6207448941f466a7ae5548b07eaa48a0f9fa133162808dd824278b0e438398017e7a567a0d")).is_err());
    // A public key with one byte changed, or cut short.
    let mut bad = public_key.clone();
    bad[10] ^= 0x40;
    assert!(key_pair_from_bytes(&ops, &private_key, &bad).is_err());
    assert!(key_pair_from_bytes(&ops, &private_key, &public_key[..96]).is_err());
    // Private keys out of range or of the wrong length.
    assert!(key_pair_from_bytes(&ops, &[0u8; 48], &public_key).is_err());
    assert!(key_pair_from_bytes(&ops, &from_hex("ffffffffffffffffffffffffffffffffffffffffffffffffc7634d81f4372ddf581a0db248b0a77aecec196accc52973"), &public_key).is_err());
    assert!(key_pair_from_bytes(&ops, &private_key[1..], &public_key).is_err());
}
