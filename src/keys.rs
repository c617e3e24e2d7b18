//! Key pairs: the public key computed from a private key, and the check
//! that a given public key matches it.

use vstd::prelude::*;
use vstd::arithmetic::div_mod::{lemma_mul_mod_noop_left, lemma_mul_mod_noop_right, lemma_small_mod};
use vstd::arithmetic::power::pow;
use crate::arith::{is_mont_rinv, mont_rinv};
use crate::constant_time::verify_slices_are_equal;
use crate::curve::{on_curve, verify_affine_point_is_on_the_curve};
use crate::error::Unspecified;
use crate::jacobian::{Jac, mul_spec};
use crate::limb::{LIMB_BYTES, base_pow, be_val, big_endian_from_limbs_padded};
use crate::ops::{
    CommonOps, Elem, MAX_LIMBS, PrivateKeyOps, Q, Scalar, Unencoded, lemma_fe_mul_decode,
    limbs_prefix, scalar_parse_big_endian_fixed_consttime,
};

verus! {

/// A private scalar and the encoding of its public point.
pub struct KeyPair {
    pub private_key: Scalar,
    pub public_key: Vec<u8>,
}

/// `z^-2` as computed by the inversion chain, as a plain residue.
pub open spec fn zz_inv_spec(ops: CommonOps, z: nat) -> nat {
    (pow(ops.decode(z) as int, (ops.q_val() - 3) as nat) % (ops.q_val() as int)) as nat
}

/// The affine `x` of a Jacobian point, as a plain residue.
pub open spec fn affine_x(ops: CommonOps, p: Jac) -> nat {
    (ops.decode(p.0) * zz_inv_spec(ops, p.2)) % ops.q_val()
}

/// The affine `y` of a Jacobian point, as a plain residue.
pub open spec fn affine_y(ops: CommonOps, p: Jac) -> nat {
    let zz = zz_inv_spec(ops, p.2);
    let zzzz = (zz * zz) % ops.q_val();
    let zzz = (ops.decode(p.2) * zzzz) % ops.q_val();
    (ops.decode(p.1) * zzz) % ops.q_val()
}

/// A plain residue in Montgomery form.
pub open spec fn encode(ops: CommonOps, v: nat) -> nat {
    (v * base_pow(ops.nl())) % ops.q_val()
}

/// The public point of the private scalar `k`, in Jacobian coordinates.
pub open spec fn public_point(ops: PrivateKeyOps, k: Scalar) -> Jac {
    mul_spec(
        ops.common,
        k.limbs@,
        ops.nbits(),
        ops.nbits(),
        (ops.generator.0.val(ops.common.nl()), ops.generator.1.val(ops.common.nl()), ops.common.one_r()),
    )
}

/// `bytes` is the uncompressed encoding of the affine point `(x, y)`.
pub open spec fn is_uncompressed_encoding(ops: CommonOps, bytes: Seq<u8>, x: nat, y: nat) -> bool {
    let len = LIMB_BYTES * ops.num_limbs;
    &&& bytes.len() == 1 + 2 * len
    &&& bytes[0] == 4
    &&& be_val(bytes.subrange(1, 1 + len as int)) == x
    &&& be_val(bytes.subrange(1 + len as int, 1 + 2 * len as int)) == y
}

/// A reduced Montgomery value is the encoding of what it decodes to.
pub proof fn lemma_encode_decode(ops: CommonOps, v: nat)
    requires
        ops.wf(),
        v < ops.q_val(),
    ensures
        encode(ops, ops.decode(v)) == v,
{
    let q = ops.q_val() as int;
    let r = mont_rinv(ops.q_val(), ops.nl()) as int;
    let w = base_pow(ops.nl()) as int;
    let vi = v as int;
    let choice = choose|rinv: nat| is_mont_rinv(ops.q_val(), ops.nl(), rinv);
    assert(is_mont_rinv(ops.q_val(), ops.nl(), choice));
    assert((w * r) % q == 1);
    lemma_mul_mod_noop_left(vi * r, w, q);
    assert(vi * r * w == vi * (w * r)) by (nonlinear_arith);
    lemma_mul_mod_noop_right(vi, w * r, q);
    lemma_small_mod(v, ops.q_val());
}

/// The uncompressed encoding of a point is unique.
pub proof fn lemma_encoding_unique(ops: CommonOps, a: Seq<u8>, b: Seq<u8>, x: nat, y: nat)
    requires
        is_uncompressed_encoding(ops, a, x, y),
        is_uncompressed_encoding(ops, b, x, y),
    ensures
        a == b,
{
    let len = (LIMB_BYTES * ops.num_limbs) as int;
    crate::laws::lemma_be_val_inj(a.subrange(1, 1 + len), b.subrange(1, 1 + len));
    crate::laws::lemma_be_val_inj(a.subrange(1 + len, 1 + 2 * len), b.subrange(1 + len, 1 + 2 * len));
    assert forall|j: int| 0 <= j < a.len() implies a[j] == b[j] by {
        if 1 <= j < 1 + len {
            assert(a.subrange(1, 1 + len)[j - 1] == b.subrange(1, 1 + len)[j - 1]);
        } else if j >= 1 + len {
            assert(a.subrange(1 + len, 1 + 2 * len)[j - 1 - len] == b.subrange(1 + len, 1 + 2 * len)[j
                - 1 - len]);
        }
    }
    assert(a =~= b);
}

/// Appends the big-endian encoding of `e`, `num_limbs * LIMB_BYTES` bytes,
/// to `out`.
fn push_elem_bytes(ops: &CommonOps, e: &Elem<Q, Unencoded>, out: &mut Vec<u8>)
    requires
        1 <= ops.num_limbs <= MAX_LIMBS,
    ensures
        final(out)@.len() == old(out)@.len() + LIMB_BYTES * ops.num_limbs,
        final(out)@.subrange(0, old(out)@.len() as int) == old(out)@,
        be_val(final(out)@.subrange(old(out)@.len() as int, final(out)@.len() as int)) == e.val(
            ops.nl(),
        ),
{
    let limbs = limbs_prefix(&e.limbs, ops.num_limbs);
    let len = LIMB_BYTES * ops.num_limbs;
    let mut tmp: Vec<u8> = Vec::new();
    let mut i: usize = 0;
    while i < len
        invariant
            i <= len,
            tmp@.len() == i,
        decreases len - i,
    {
        tmp.push(0);
        i = i + 1;
    }
    big_endian_from_limbs_padded(limbs.as_slice(), tmp.as_mut_slice());
    let ghost start = out@.len() as int;
    let ghost o0 = out@;
    let mut j: usize = 0;
    while j < len
        invariant
            j <= len,
            tmp@.len() == len,
            0 <= start,
            o0.len() == start,
            out@.len() == start + j,
            out@.subrange(0, start) == o0,
            out@.subrange(start, start + j) == tmp@.subrange(0, j as int),
        decreases len - j,
    {
        let ghost before = out@;
        out.push(tmp[j]);
        proof {
            assert(out@ == before.push(tmp@[j as int]));
            assert(out@.subrange(0, start) =~= before.subrange(0, start));
            assert forall|t: int| 0 <= t < j + 1 implies #[trigger] out@.subrange(start, start + j + 1)[t]
                == tmp@.subrange(0, j + 1)[t] by {
                if t < j {
                    assert(before.subrange(start, start + j)[t] == tmp@.subrange(0, j as int)[t]);
                }
            }
            assert(out@.subrange(start, start + j + 1) =~= tmp@.subrange(0, j + 1));
        }
        j = j + 1;
    }
    proof {
        assert(tmp@.subrange(0, len as int) =~= tmp@);
    }
}

/// Computes the uncompressed encoding of the public point of the private
/// scalar `k`. The affine coordinates are checked to lie on the curve, as a
/// guard against faults in the computation.
#[verifier::spinoff_prover]
pub fn public_from_private(ops: &PrivateKeyOps, k: &Scalar) -> (r: Result<Vec<u8>, Unspecified>)
    requires
        ops.wf(),
    ensures
        ({
            let c = ops.common;
            let p = public_point(*ops, *k);
            let x = affine_x(c, p);
            let y = affine_y(c, p);
            &&& r.is_ok() == on_curve(c, encode(c, x), encode(c, y))
            &&& r.is_ok() ==> is_uncompressed_encoding(c, r.unwrap()@, x, y)
        }),
{
    let c = &ops.common;
    let p = ops.point_mul_base(k);
    let ghost pc = p.coords(c.nl());
    let x = c.point_x(&p);
    let y = c.point_y(&p);
    let z = c.point_z(&p);
    let zz_inv = ops.elem_inverse_squared(&z);
    let x_aff = c.elem_product(&x, &zz_inv);
    let zzzz_inv = c.elem_squared(&zz_inv);
    let zzz_inv = c.elem_product(&z, &zzzz_inv);
    let y_aff = c.elem_product(&y, &zzz_inv);
    proof {
        let n = c.nl();
        lemma_fe_mul_decode(c, x.val(n), zz_inv.val(n));
        lemma_fe_mul_decode(c, zz_inv.val(n), zz_inv.val(n));
        lemma_fe_mul_decode(c, z.val(n), zzzz_inv.val(n));
        lemma_fe_mul_decode(c, y.val(n), zzz_inv.val(n));
        assert(c.decode(x_aff.val(n)) == affine_x(*c, pc));
        assert(c.decode(y_aff.val(n)) == affine_y(*c, pc));
        lemma_encode_decode(*c, x_aff.val(n));
        lemma_encode_decode(*c, y_aff.val(n));
    }
    verify_affine_point_is_on_the_curve(c, (&x_aff, &y_aff))?;
    let x_plain = c.elem_unencoded(&x_aff);
    let y_plain = c.elem_unencoded(&y_aff);
    let mut out: Vec<u8> = Vec::new();
    out.push(4);
    let ghost first = out@;
    push_elem_bytes(c, &x_plain, &mut out);
    let ghost mid = out@;
    push_elem_bytes(c, &y_plain, &mut out);
    proof {
        let len = LIMB_BYTES * c.num_limbs;
        assert(first.len() == 1 && first[0] == 4);
        assert(mid.subrange(0, 1) == first);
        assert(mid[0] == mid.subrange(0, 1)[0]);
        assert(out@.subrange(0, mid.len() as int) == mid);
        assert(out@[0] == out@.subrange(0, mid.len() as int)[0]);
        assert(out@.subrange(1, 1 + len as int) =~= mid.subrange(1, 1 + len as int));
        assert(mid.len() == 1 + len);
        assert(be_val(out@.subrange(1, 1 + len as int)) == x_plain.val(c.nl()));
        assert(be_val(out@.subrange(1 + len as int, 1 + 2 * len as int)) == y_plain.val(c.nl()));
    }
    Ok(out)
}

/// Builds a key pair from a private key and a public key, both as bytes.
/// The private key must be a valid scalar in `[1, n)` of exactly
/// `num_limbs * LIMB_BYTES` bytes, and the public key must be exactly the
/// encoding of the public point computed from it.
#[verifier::spinoff_prover]
pub fn key_pair_from_bytes(
    ops: &PrivateKeyOps,
    private_key_bytes: &[u8],
    public_key_bytes: &[u8],
) -> (r: Result<KeyPair, Unspecified>)
    requires
        ops.wf(),
    ensures
        r.is_ok() ==> r.unwrap().public_key@ == public_key_bytes@,
        r.is_ok() ==> r.unwrap().private_key.val(ops.common.nl()) == be_val(private_key_bytes@),
        ({
            let c = ops.common;
            let valid_private = private_key_bytes@.len() == LIMB_BYTES * c.num_limbs && 0 < be_val(
                private_key_bytes@,
            ) < c.n.val(c.nl());
            r.is_ok() == (valid_private && exists|k: Scalar|
                #![trigger public_point(*ops, k)]
                k.val(c.nl()) == be_val(private_key_bytes@) && k.padded(c.nl()) && {
                    let p = public_point(*ops, k);
                    let x = affine_x(c, p);
                    let y = affine_y(c, p);
                    on_curve(c, encode(c, x), encode(c, y)) && is_uncompressed_encoding(
                        c,
                        public_key_bytes@,
                        x,
                        y,
                    )
                })
        }),
{
    let private_key = scalar_parse_big_endian_fixed_consttime(&ops.common, private_key_bytes)?;
    let ghost c = ops.common;
    let ghost n = c.nl();
    proof {
        // Every scalar with the parsed value and zero padding has the
        // parsed limbs.
        assert forall|k: Scalar| k.val(n) == be_val(private_key_bytes@) && k.padded(n) implies k.limbs@
            == private_key.limbs@ by {
            crate::limb::lemma_limbs_val_inj(k.limbs@.take(n as int), private_key.limbs@.take(n as int));
            assert forall|j: int| 0 <= j < MAX_LIMBS implies k.limbs@[j] == private_key.limbs@[j] by {
                if j < n {
                    assert(k.limbs@.take(n as int)[j] == private_key.limbs@.take(n as int)[j]);
                }
            }
            assert(k.limbs@ =~= private_key.limbs@);
        }
    }
    let public_key = public_from_private(ops, &private_key)?;
    let ghost p = public_point(*ops, private_key);
    let ghost x = affine_x(c, p);
    let ghost y = affine_y(c, p);
    let same = verify_slices_are_equal(public_key_bytes, public_key.as_slice());
    if same.is_err() {
        proof {
            assert forall|k: Scalar|
                k.val(n) == be_val(private_key_bytes@) && k.padded(n) implies !is_uncompressed_encoding(
                c,
                public_key_bytes@,
                affine_x(c, #[trigger] public_point(*ops, k)),
                affine_y(c, public_point(*ops, k)),
            ) by {
                assert(k.limbs@ == private_key.limbs@);
                assert(public_point(*ops, k) == p);
                if is_uncompressed_encoding(c, public_key_bytes@, x, y) {
                    lemma_encoding_unique(c, public_key_bytes@, public_key@, x, y);
                }
            }
        }
        return Err(Unspecified);
    }
    proof {
        assert(private_key.val(n) == be_val(private_key_bytes@) && private_key.padded(n) && {
            let p = public_point(*ops, private_key);
            let x = affine_x(c, p);
            let y = affine_y(c, p);
            on_curve(c, encode(c, x), encode(c, y)) && is_uncompressed_encoding(c, public_key_bytes@, x, y)
        });
    }
    Ok(KeyPair { private_key, public_key })
}

} // verus!
