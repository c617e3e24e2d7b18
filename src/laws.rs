//! Properties that relate several operations of the library.

use vstd::prelude::*;
use vstd::arithmetic::div_mod::{lemma_mul_mod_noop_left, lemma_mul_mod_noop_right};
use vstd::arithmetic::power::{lemma_pow_adds, pow};
use crate::arith::{is_mont_rinv, mont_product, mont_rinv};
use crate::jacobian::{Jac, add_spec, double_spec, fadd, fmul, fsub, limb_bit, mul_spec};
use crate::curve::on_curve;
use crate::keys::{affine_x, affine_y, encode, lemma_encode_decode, public_point, zz_inv_spec};
use crate::arith::lemma_mod_from_quotient;
use crate::p384::{b_p384, gx_p384, gy_p384, has_p384_generator, is_p384_table};
use crate::p256::{b_p256, gx_p256, gy_p256, has_p256_generator, is_p256_table};
use vstd::arithmetic::div_mod::lemma_small_mod;
use vstd::arithmetic::power::lemma1_pow;
use crate::limb::{Limb, base_pow, be_val, limbs_val};
use crate::ops::{
    CommonOps, MAX_LIMBS, PrivateKeyOps, Scalar, ScalarOps, lemma_fe_mul_decode,
    lemma_mont_decode_encoded, lemma_to_mont_decode,
};

verus! {

/// Field addition does not depend on the order of its operands.
pub proof fn law_elem_add_commutes(ops: CommonOps, a: nat, b: nat)
    ensures
        ops.fe_add(a, b) == ops.fe_add(b, a),
{
}

/// A Montgomery product of field elements, once decoded, is the product of
/// the decoded operands reduced modulo `q` as plain integers; and its value
/// times `R` is the product of the operands' values modulo `q`.
pub proof fn law_elem_mul_matches_integers(ops: CommonOps, a: nat, b: nat)
    requires
        ops.wf(),
    ensures
        ops.decode(ops.fe_mul(a, b)) == (ops.decode(a) * ops.decode(b)) % ops.q_val(),
        ((ops.fe_mul(a, b) * base_pow(ops.nl())) as int) % (ops.q_val() as int) == ((a * b) as int)
            % (ops.q_val() as int),
{
    lemma_fe_mul_decode(&ops, a, b);
    let q = ops.q_val() as int;
    let v = mont_rinv(ops.q_val(), ops.nl()) as int;
    let w = base_pow(ops.nl()) as int;
    let ab = (a * b) as int;
    let choice = choose|rinv: nat| is_mont_rinv(ops.q_val(), ops.nl(), rinv);
    assert(is_mont_rinv(ops.q_val(), ops.nl(), choice));
    assert((w * v) % q == 1);
    lemma_mul_mod_noop_left(ab * v, w, q);
    assert(ab * v * w == ab * (w * v)) by (nonlinear_arith);
    lemma_mul_mod_noop_right(ab, w * v, q);
}

/// The square of `a` times the value computed for its inverse square is
/// `a^(q - 1)`; by Fermat's little theorem, for a prime `q` and nonzero
/// `a`, that is one.
pub proof fn law_inverse_squared_times_square(ops: CommonOps, x: int, r: nat)
    requires
        ops.wf(),
        ops.q_val() >= 3,
        r as int == pow(x, (ops.q_val() - 3) as nat) % (ops.q_val() as int),
    ensures
        (x * x * r) % (ops.q_val() as int) == pow(x, (ops.q_val() - 1) as nat) % (ops.q_val() as int),
{
    let q = ops.q_val() as int;
    let e = (ops.q_val() - 3) as nat;
    lemma_mul_mod_noop_right(x * x, pow(x, e), q);
    vstd::arithmetic::power::lemma_square_is_pow2(x);
    lemma_pow_adds(x, 2, e);
    assert(2 + e == (ops.q_val() - 1) as nat);
}

/// The product of a scalar `s` with the Montgomery-form value computed for
/// its inverse is `s^(n - 1)` modulo `n`; by Fermat's little theorem, for a
/// prime `n` and nonzero `s`, that is one.
pub proof fn law_scalar_times_inverse(ops: ScalarOps, s: nat, inv: nat)
    requires
        ops.wf(),
        ops.n_val() >= 2,
        s < ops.n_val(),
        ops.decode(inv) as int == pow(s as int, (ops.n_val() - 2) as nat) % (ops.n_val() as int),
    ensures
        mont_product(s, inv, ops.n_val(), ops.common.nl()) as int == pow(
            s as int,
            (ops.n_val() - 1) as nat,
        ) % (ops.n_val() as int),
{
    let n = ops.n_val() as int;
    let v = mont_rinv(ops.n_val(), ops.common.nl()) as int;
    let si = s as int;
    let e = (ops.n_val() - 2) as nat;
    assert(si * inv * v == si * (inv * v)) by (nonlinear_arith);
    lemma_mul_mod_noop_right(si, inv * v, n);
    lemma_mul_mod_noop_right(si, pow(si, e), n);
    vstd::arithmetic::power::lemma_pow1(si);
    lemma_pow_adds(si, 1, e);
    assert(1 + e == (ops.n_val() - 1) as nat);
}

/// Two byte strings of one length with the same big-endian value are equal.
pub proof fn lemma_be_val_inj(a: Seq<u8>, b: Seq<u8>)
    requires
        a.len() == b.len(),
        be_val(a) == be_val(b),
    ensures
        a == b,
    decreases a.len(),
{
    if a.len() > 0 {
        let pa = a.drop_last();
        let pb = b.drop_last();
        let x = be_val(pa) as int;
        let y = be_val(pb) as int;
        let la = a.last() as int;
        let lb = b.last() as int;
        assert(la == lb && x == y) by (nonlinear_arith)
            requires
                x * 256 + la == y * 256 + lb,
                0 <= la < 256,
                0 <= lb < 256,
                x >= 0,
                y >= 0,
        ;
        lemma_be_val_inj(pa, pb);
        assert(a =~= pa.push(a.last()));
        assert(b =~= pb.push(b.last()));
    } else {
        assert(a =~= b);
    }
}

/// Parsing then serializing gives the input back: if `limbs` holds the
/// value that `input` encodes (what parsing promises) and `out`, as long as
/// `input`, encodes the value of `limbs` (what serializing promises), then
/// `out` is `input`.
pub proof fn law_parse_serialize_round_trip(input: Seq<u8>, limbs: Seq<Limb>, out: Seq<u8>)
    requires
        limbs_val(limbs) == be_val(input),
        out.len() == input.len(),
        be_val(out) == limbs_val(limbs),
    ensures
        out == input,
{
    lemma_be_val_inj(out, input);
}

/// Bits above bit 0 of a scalar whose limbs are `[1, 0, ...]` are zero.
proof fn lemma_one_high_bits(k: Seq<Limb>, i: nat)
    requires
        k.len() == MAX_LIMBS,
        k[0] == 1,
        forall|j: int| 1 <= j < MAX_LIMBS ==> k[j] == 0,
        1 <= i < 64 * MAX_LIMBS,
    ensures
        !limb_bit(k, i),
{
    let s: u64 = (i % 64) as u64;
    if i / 64 == 0 {
        assert(1 <= s < 64);
        assert(1 <= s < 64 ==> (1u64 >> s) & 1u64 == 0u64) by (bit_vector);
    } else {
        assert(k[(i / 64) as int] == 0);
        assert((0u64 >> s) & 1u64 == 0u64) by (bit_vector);
    }
}

/// While only zero bits have been read, double-and-add stays at infinity.
proof fn lemma_mul_spec_leading_zeros(ops: CommonOps, k: Seq<Limb>, nbits: nat, steps: nat, p: Jac)
    requires
        ops.wf(),
        steps <= nbits,
        forall|i: nat| nbits - steps <= i < nbits ==> !limb_bit(k, i),
    ensures
        mul_spec(ops, k, nbits, steps, p) == (0nat, 0nat, 0nat),
    decreases steps,
{
    if steps > 0 {
        lemma_mul_spec_leading_zeros(ops, k, nbits, (steps - 1) as nat, p);
        lemma_zero_ops(ops);
        assert(!limb_bit(k, (nbits - steps) as nat));
        assert(double_spec(ops, (0, 0, 0)) == (0nat, 0nat, 0nat));
    }
}

/// Multiplying the generator by one gives the generator: the result is
/// the Jacobian point `(Gx, Gy, 1)`, whose affine coordinates are those of
/// the table's generator.
pub proof fn law_point_mul_base_one(ops: PrivateKeyOps, k: Scalar)
    requires
        ops.wf(),
        k.limbs@[0] == 1,
        forall|j: int| 1 <= j < MAX_LIMBS ==> k.limbs@[j] == 0,
    ensures
        public_point(ops, k) == (
            ops.generator.0.val(ops.common.nl()),
            ops.generator.1.val(ops.common.nl()),
            ops.common.one_r(),
        ),
        ops.common.decode(public_point(ops, k).2) == 1,
        affine_x(ops.common, public_point(ops, k)) == ops.common.decode(
            ops.generator.0.val(ops.common.nl()),
        ),
        affine_y(ops.common, public_point(ops, k)) == ops.common.decode(
            ops.generator.1.val(ops.common.nl()),
        ),
{
    let c = ops.common;
    let n = c.nl();
    let nbits = ops.nbits();
    let g = (ops.generator.0.val(n), ops.generator.1.val(n), c.one_r());
    assert forall|i: nat| nbits - (nbits - 1) <= i < nbits implies !limb_bit(k.limbs@, i) by {
        lemma_one_high_bits(k.limbs@, i);
    }
    lemma_mul_spec_leading_zeros(c, k.limbs@, nbits, (nbits - 1) as nat, g);
    lemma_zero_ops(c);
    assert(double_spec(c, (0, 0, 0)) == (0nat, 0nat, 0nat));
    assert((1u64 >> 0u64) & 1u64 == 1u64) by (bit_vector);
    assert(limb_bit(k.limbs@, 0));
    assert(mul_spec(c, k.limbs@, nbits, nbits, g) == add_spec(c, (0nat, 0nat, 0nat), g));
    // The Z coordinate is one in Montgomery form.
    let q = c.q_val();
    lemma_to_mont_decode(&c.q, n, 1);
    lemma_small_mod(1, q);
    assert(c.decode(c.one_r()) == 1);
    lemma1_pow((q - 3) as nat);
    assert(zz_inv_spec(c, c.one_r()) == 1);
    let dx = c.decode(ops.generator.0.val(n));
    let dy = c.decode(ops.generator.1.val(n));
    lemma_mod_bound_nat(ops.generator.0.val(n) * mont_rinv(q, n), q);
    lemma_mod_bound_nat(ops.generator.1.val(n) * mont_rinv(q, n), q);
    lemma_small_mod(dx, q);
    lemma_small_mod(dy, q);
}

/// On P-256, one times the generator is, in affine form, the published
/// generator, and it is not the point at infinity.
pub proof fn law_p256_point_mul_base_one(ops: PrivateKeyOps, k: Scalar)
    requires
        ops.wf(),
        is_p256_table(ops.common),
        has_p256_generator(ops),
        k.limbs@[0] == 1,
        forall|j: int| 1 <= j < MAX_LIMBS ==> k.limbs@[j] == 0,
    ensures
        public_point(ops, k).2 != 0,
        affine_x(ops.common, public_point(ops, k)) == gx_p256(),
        affine_y(ops.common, public_point(ops, k)) == gy_p256(),
{
    law_point_mul_base_one(ops, k);
    let c = ops.common;
    let v = mont_rinv(c.q_val(), c.nl());
    assert(0 * v == 0);
    lemma_small_mod(0, c.q_val());
    assert(c.decode(0) == 0);
}

proof fn lemma_mod_bound_nat(x: nat, m: nat)
    requires
        m > 0,
    ensures
        x % m < m,
{
}

/// The point at infinity is an identity for point addition, on both sides.
pub proof fn law_point_sum_identity(ops: CommonOps, p: Jac, x: nat, y: nat)
    ensures
        add_spec(ops, (x, y, 0), p) == p,
        p.2 != 0 ==> add_spec(ops, p, (x, y, 0)) == p,
{
}

proof fn lemma_zero_ops(ops: CommonOps)
    requires
        ops.wf(),
    ensures
        fmul(ops, 0, 0) == 0,
        fadd(ops, 0, 0) == 0,
        fsub(ops, 0, 0) == 0,
{
    let q = ops.q_val();
    let v = mont_rinv(q, ops.nl());
    assert(0 * 0 * v == 0) by (nonlinear_arith);
    assert(ops.fe_mul(0, 0) == (0 * 0 * v) % q);
    lemma_small_mod(0, q);
}

/// Multiplying by a scalar whose bits are all zero gives the point at
/// infinity, with all coordinates zero.
pub proof fn law_point_mul_zero(ops: CommonOps, k: Seq<Limb>, nbits: nat, steps: nat, p: Jac)
    requires
        ops.wf(),
        steps <= nbits,
        nbits <= 64 * k.len(),
        forall|j: int| 0 <= j < k.len() ==> k[j] == 0,
    ensures
        mul_spec(ops, k, nbits, steps, p) == (0nat, 0nat, 0nat),
    decreases steps,
{
    if steps > 0 {
        law_point_mul_zero(ops, k, nbits, (steps - 1) as nat, p);
        lemma_zero_ops(ops);
        let i = (nbits - steps) as nat;
        let l = k[(i / 64) as int];
        assert(l == 0);
        let sh: u64 = (i % 64) as u64;
        assert((0u64 >> sh) & 1u64 == 0u64) by (bit_vector);
        assert(double_spec(ops, (0, 0, 0)) == (0nat, 0nat, 0nat));
    }
}

/// The curve equation on plain residues, with `a = -3` and the table's `b`,
/// reducing after each step as the Montgomery-form check does.
pub open spec fn plain_on_curve(c: CommonOps, x: nat, y: nat) -> bool {
    let q = c.q_val();
    let b = c.decode(c.b.val(c.nl()));
    (y * y) % q == (((((x * x) % q + (q - 3) as nat) % q) * x) % q + b) % q
}

/// `x` below `q`, encoded, decodes back to `x`.
pub proof fn lemma_decode_encode(c: CommonOps, x: nat)
    requires
        c.wf(),
        x < c.q_val(),
    ensures
        c.decode(encode(c, x)) == x,
        encode(c, x) < c.q_val(),
{
    lemma_mont_decode_encoded(&c.q, c.nl(), x, encode(c, x));
}

/// Decoding turns a modular sum into a sum of decoded values.
pub proof fn lemma_decode_add(c: CommonOps, u: nat, v: nat)
    requires
        c.wf(),
    ensures
        c.decode(c.fe_add(u, v)) == (c.decode(u) + c.decode(v)) % c.q_val(),
{
    let q = c.q_val() as int;
    let r = mont_rinv(c.q_val(), c.nl()) as int;
    let ui = u as int;
    let vi = v as int;
    lemma_mul_mod_noop_left(ui + vi, r, q);
    assert((ui + vi) * r == ui * r + vi * r) by (nonlinear_arith);
    vstd::arithmetic::div_mod::lemma_add_mod_noop(ui * r, vi * r, q);
}

/// Reduced values with the same decoding are equal.
pub proof fn lemma_decode_inj(c: CommonOps, u: nat, v: nat)
    requires
        c.wf(),
        u < c.q_val(),
        v < c.q_val(),
        c.decode(u) == c.decode(v),
    ensures
        u == v,
{
    lemma_encode_decode(c, u);
    lemma_encode_decode(c, v);
}

/// The on-curve check on Montgomery values is the curve equation on the
/// residues they stand for.
pub proof fn lemma_on_curve_decoded(c: CommonOps, x: nat, y: nat)
    requires
        c.wf(),
        x < c.q_val(),
        y < c.q_val(),
    ensures
        on_curve(c, x, y) == plain_on_curve(c, c.decode(x), c.decode(y)),
{
    let n = c.nl();
    let q = c.q_val();
    let a = c.a.val(n);
    let b = c.b.val(n);
    let xx = fmul(c, x, x);
    let t = fadd(c, xx, a);
    let t2 = fmul(c, t, x);
    let rhs = fadd(c, t2, b);
    let lhs = fmul(c, y, y);
    lemma_fe_mul_decode(&c, y, y);
    lemma_fe_mul_decode(&c, x, x);
    lemma_decode_add(c, xx, a);
    lemma_fe_mul_decode(&c, t, x);
    lemma_decode_add(c, t2, b);
    if c.decode(lhs) == c.decode(rhs) {
        lemma_decode_inj(c, lhs, rhs);
    }
}

/// The published P-384 generator passes the on-curve check, and
/// with one coordinate moved by one it fails it.
pub proof fn law_p384_generator_on_curve(c: CommonOps)
    requires
        is_p384_table(c),
    ensures
        on_curve(c, encode(c, gx_p384()), encode(c, gy_p384())),
        !on_curve(c, encode(c, gx_p384()), encode(c, (gy_p384() + 1) as nat)),
        !on_curve(c, encode(c, (gx_p384() + 1) as nat), encode(c, gy_p384())),
{
    let q = c.q_val();
    assert(q == (0xffffffff + 0x1_0000_0000_0000_0000int * (0xffffffff00000000 + 0x1_0000_0000_0000_0000int * (0xfffffffffffffffe + 0x1_0000_0000_0000_0000int * (0xffffffffffffffff + 0x1_0000_0000_0000_0000int * (0xffffffffffffffff + 0x1_0000_0000_0000_0000int * 0xffffffffffffffff))))));
    assert(gx_p384() == (0x3a545e3872760ab7 + 0x1_0000_0000_0000_0000int * (0x5502f25dbf55296c + 0x1_0000_0000_0000_0000int * (0x59f741e082542a38 + 0x1_0000_0000_0000_0000int * (0x6e1d3b628ba79b98 + 0x1_0000_0000_0000_0000int * (0x8eb1c71ef320ad74 + 0x1_0000_0000_0000_0000int * 0xaa87ca22be8b0537))))));
    assert(gy_p384() == (0x7a431d7c90ea0e5f + 0x1_0000_0000_0000_0000int * (0xa60b1ce1d7e819d + 0x1_0000_0000_0000_0000int * (0xe9da3113b5f0b8c0 + 0x1_0000_0000_0000_0000int * (0xf8f41dbd289a147c + 0x1_0000_0000_0000_0000int * (0x5d9e98bf9292dc29 + 0x1_0000_0000_0000_0000int * 0x3617de4a96262c6f))))));
    assert(b_p384() == (0x2a85c8edd3ec2aef + 0x1_0000_0000_0000_0000int * (0xc656398d8a2ed19d + 0x1_0000_0000_0000_0000int * (0x314088f5013875a + 0x1_0000_0000_0000_0000int * (0x181d9c6efe814112 + 0x1_0000_0000_0000_0000int * (0x988e056be3f82d19 + 0x1_0000_0000_0000_0000int * 0xb3312fa7e23ee7e4))))));
    {
        assert((0x7a431d7c90ea0e5f + 0x1_0000_0000_0000_0000int * (0xa60b1ce1d7e819d + 0x1_0000_0000_0000_0000int * (0xe9da3113b5f0b8c0 + 0x1_0000_0000_0000_0000int * (0xf8f41dbd289a147c + 0x1_0000_0000_0000_0000int * (0x5d9e98bf9292dc29 + 0x1_0000_0000_0000_0000int * 0x3617de4a96262c6f))))) * (0x7a431d7c90ea0e5f + 0x1_0000_0000_0000_0000int * (0xa60b1ce1d7e819d + 0x1_0000_0000_0000_0000int * (0xe9da3113b5f0b8c0 + 0x1_0000_0000_0000_0000int * (0xf8f41dbd289a147c + 0x1_0000_0000_0000_0000int * (0x5d9e98bf9292dc29 + 0x1_0000_0000_0000_0000int * 0x3617de4a96262c6f))))) == (0xffffffff + 0x1_0000_0000_0000_0000int * (0xffffffff00000000 + 0x1_0000_0000_0000_0000int * (0xfffffffffffffffe + 0x1_0000_0000_0000_0000int * (0xffffffffffffffff + 0x1_0000_0000_0000_0000int * (0xffffffffffffffff + 0x1_0000_0000_0000_0000int * 0xffffffffffffffff))))) * (0x823e5475fd92cecd + 0x1_0000_0000_0000_0000int * (0xf4e0bdfe11437eac + 0x1_0000_0000_0000_0000int * (0x1690de08a71a45d4 + 0x1_0000_0000_0000_0000int * (0x663c57ceb12c9410 + 0x1_0000_0000_0000_0000int * (0x52b553752f5afaf3 + 0x1_0000_0000_0000_0000int * 0xb6e140129c487c0))))) + (0x526d1dda240d560e + 0x1_0000_0000_0000_0000int * (0x8dff93308d2ee64 + 0x1_0000_0000_0000_0000int * (0xc2701ace3fc91bf7 + 0x1_0000_0000_0000_0000int * (0xbc27d9e01dd940b9 + 0x1_0000_0000_0000_0000int * (0xe1d86567d28802d3 + 0x1_0000_0000_0000_0000int * 0xdda3f84d36cf26f1)))))) by (nonlinear_arith);
        lemma_mod_from_quotient((0x7a431d7c90ea0e5f + 0x1_0000_0000_0000_0000int * (0xa60b1ce1d7e819d + 0x1_0000_0000_0000_0000int * (0xe9da3113b5f0b8c0 + 0x1_0000_0000_0000_0000int * (0xf8f41dbd289a147c + 0x1_0000_0000_0000_0000int * (0x5d9e98bf9292dc29 + 0x1_0000_0000_0000_0000int * 0x3617de4a96262c6f))))) * (0x7a431d7c90ea0e5f + 0x1_0000_0000_0000_0000int * (0xa60b1ce1d7e819d + 0x1_0000_0000_0000_0000int * (0xe9da3113b5f0b8c0 + 0x1_0000_0000_0000_0000int * (0xf8f41dbd289a147c + 0x1_0000_0000_0000_0000int * (0x5d9e98bf9292dc29 + 0x1_0000_0000_0000_0000int * 0x3617de4a96262c6f))))), (0xffffffff + 0x1_0000_0000_0000_0000int * (0xffffffff00000000 + 0x1_0000_0000_0000_0000int * (0xfffffffffffffffe + 0x1_0000_0000_0000_0000int * (0xffffffffffffffff + 0x1_0000_0000_0000_0000int * (0xffffffffffffffff + 0x1_0000_0000_0000_0000int * 0xffffffffffffffff))))), (0x823e5475fd92cecd + 0x1_0000_0000_0000_0000int * (0xf4e0bdfe11437eac + 0x1_0000_0000_0000_0000int * (0x1690de08a71a45d4 + 0x1_0000_0000_0000_0000int * (0x663c57ceb12c9410 + 0x1_0000_0000_0000_0000int * (0x52b553752f5afaf3 + 0x1_0000_0000_0000_0000int * 0xb6e140129c487c0))))), (0x526d1dda240d560e + 0x1_0000_0000_0000_0000int * (0x8dff93308d2ee64 + 0x1_0000_0000_0000_0000int * (0xc2701ace3fc91bf7 + 0x1_0000_0000_0000_0000int * (0xbc27d9e01dd940b9 + 0x1_0000_0000_0000_0000int * (0xe1d86567d28802d3 + 0x1_0000_0000_0000_0000int * 0xdda3f84d36cf26f1))))));
        assert((0x3a545e3872760ab7 + 0x1_0000_0000_0000_0000int * (0x5502f25dbf55296c + 0x1_0000_0000_0000_0000int * (0x59f741e082542a38 + 0x1_0000_0000_0000_0000int * (0x6e1d3b628ba79b98 + 0x1_0000_0000_0000_0000int * (0x8eb1c71ef320ad74 + 0x1_0000_0000_0000_0000int * 0xaa87ca22be8b0537))))) * (0x3a545e3872760ab7 + 0x1_0000_0000_0000_0000int * (0x5502f25dbf55296c + 0x1_0000_0000_0000_0000int * (0x59f741e082542a38 + 0x1_0000_0000_0000_0000int * (0x6e1d3b628ba79b98 + 0x1_0000_0000_0000_0000int * (0x8eb1c71ef320ad74 + 0x1_0000_0000_0000_0000int * 0xaa87ca22be8b0537))))) == (0xffffffff + 0x1_0000_0000_0000_0000int * (0xffffffff00000000 + 0x1_0000_0000_0000_0000int * (0xfffffffffffffffe + 0x1_0000_0000_0000_0000int * (0xffffffffffffffff + 0x1_0000_0000_0000_0000int * (0xffffffffffffffff + 0x1_0000_0000_0000_0000int * 0xffffffffffffffff))))) * (0xc6db9951cf81e148 + 0x1_0000_0000_0000_0000int * (0x3c85228796f0789f + 0x1_0000_0000_0000_0000int * (0xfad243bcfaa857d9 + 0x1_0000_0000_0000_0000int * (0x77a9c6831cfed18e + 0x1_0000_0000_0000_0000int * (0xd9185324b5419eff + 0x1_0000_0000_0000_0000int * 0x7198a07cf55072f7))))) + (0xe2222412aca8b019 + 0x1_0000_0000_0000_0000int * (0x92e8614fee38a288 + 0x1_0000_0000_0000_0000int * (0xffd8419fe7b13f6a + 0x1_0000_0000_0000_0000int * (0xc3353aca34a380e1 + 0x1_0000_0000_0000_0000int * (0x6728217df5bc7c1f + 0x1_0000_0000_0000_0000int * 0x46af925fa51ac49)))))) by (nonlinear_arith);
        lemma_mod_from_quotient((0x3a545e3872760ab7 + 0x1_0000_0000_0000_0000int * (0x5502f25dbf55296c + 0x1_0000_0000_0000_0000int * (0x59f741e082542a38 + 0x1_0000_0000_0000_0000int * (0x6e1d3b628ba79b98 + 0x1_0000_0000_0000_0000int * (0x8eb1c71ef320ad74 + 0x1_0000_0000_0000_0000int * 0xaa87ca22be8b0537))))) * (0x3a545e3872760ab7 + 0x1_0000_0000_0000_0000int * (0x5502f25dbf55296c + 0x1_0000_0000_0000_0000int * (0x59f741e082542a38 + 0x1_0000_0000_0000_0000int * (0x6e1d3b628ba79b98 + 0x1_0000_0000_0000_0000int * (0x8eb1c71ef320ad74 + 0x1_0000_0000_0000_0000int * 0xaa87ca22be8b0537))))), (0xffffffff + 0x1_0000_0000_0000_0000int * (0xffffffff00000000 + 0x1_0000_0000_0000_0000int * (0xfffffffffffffffe + 0x1_0000_0000_0000_0000int * (0xffffffffffffffff + 0x1_0000_0000_0000_0000int * (0xffffffffffffffff + 0x1_0000_0000_0000_0000int * 0xffffffffffffffff))))), (0xc6db9951cf81e148 + 0x1_0000_0000_0000_0000int * (0x3c85228796f0789f + 0x1_0000_0000_0000_0000int * (0xfad243bcfaa857d9 + 0x1_0000_0000_0000_0000int * (0x77a9c6831cfed18e + 0x1_0000_0000_0000_0000int * (0xd9185324b5419eff + 0x1_0000_0000_0000_0000int * 0x7198a07cf55072f7))))), (0xe2222412aca8b019 + 0x1_0000_0000_0000_0000int * (0x92e8614fee38a288 + 0x1_0000_0000_0000_0000int * (0xffd8419fe7b13f6a + 0x1_0000_0000_0000_0000int * (0xc3353aca34a380e1 + 0x1_0000_0000_0000_0000int * (0x6728217df5bc7c1f + 0x1_0000_0000_0000_0000int * 0x46af925fa51ac49))))));
        assert((0xe2222412aca8b019 + 0x1_0000_0000_0000_0000int * (0x92e8614fee38a288 + 0x1_0000_0000_0000_0000int * (0xffd8419fe7b13f6a + 0x1_0000_0000_0000_0000int * (0xc3353aca34a380e1 + 0x1_0000_0000_0000_0000int * (0x6728217df5bc7c1f + 0x1_0000_0000_0000_0000int * 0x46af925fa51ac49))))) + (0xfffffffc + 0x1_0000_0000_0000_0000int * (0xffffffff00000000 + 0x1_0000_0000_0000_0000int * (0xfffffffffffffffe + 0x1_0000_0000_0000_0000int * (0xffffffffffffffff + 0x1_0000_0000_0000_0000int * (0xffffffffffffffff + 0x1_0000_0000_0000_0000int * 0xffffffffffffffff))))) == (0xffffffff + 0x1_0000_0000_0000_0000int * (0xffffffff00000000 + 0x1_0000_0000_0000_0000int * (0xfffffffffffffffe + 0x1_0000_0000_0000_0000int * (0xffffffffffffffff + 0x1_0000_0000_0000_0000int * (0xffffffffffffffff + 0x1_0000_0000_0000_0000int * 0xffffffffffffffff))))) * 0x1 + (0xe2222412aca8b016 + 0x1_0000_0000_0000_0000int * (0x92e8614fee38a288 + 0x1_0000_0000_0000_0000int * (0xffd8419fe7b13f6a + 0x1_0000_0000_0000_0000int * (0xc3353aca34a380e1 + 0x1_0000_0000_0000_0000int * (0x6728217df5bc7c1f + 0x1_0000_0000_0000_0000int * 0x46af925fa51ac49)))))) by (nonlinear_arith);
        lemma_mod_from_quotient((0xe2222412aca8b019 + 0x1_0000_0000_0000_0000int * (0x92e8614fee38a288 + 0x1_0000_0000_0000_0000int * (0xffd8419fe7b13f6a + 0x1_0000_0000_0000_0000int * (0xc3353aca34a380e1 + 0x1_0000_0000_0000_0000int * (0x6728217df5bc7c1f + 0x1_0000_0000_0000_0000int * 0x46af925fa51ac49))))) + (0xfffffffc + 0x1_0000_0000_0000_0000int * (0xffffffff00000000 + 0x1_0000_0000_0000_0000int * (0xfffffffffffffffe + 0x1_0000_0000_0000_0000int * (0xffffffffffffffff + 0x1_0000_0000_0000_0000int * (0xffffffffffffffff + 0x1_0000_0000_0000_0000int * 0xffffffffffffffff))))), (0xffffffff + 0x1_0000_0000_0000_0000int * (0xffffffff00000000 + 0x1_0000_0000_0000_0000int * (0xfffffffffffffffe + 0x1_0000_0000_0000_0000int * (0xffffffffffffffff + 0x1_0000_0000_0000_0000int * (0xffffffffffffffff + 0x1_0000_0000_0000_0000int * 0xffffffffffffffff))))), 0x1, (0xe2222412aca8b016 + 0x1_0000_0000_0000_0000int * (0x92e8614fee38a288 + 0x1_0000_0000_0000_0000int * (0xffd8419fe7b13f6a + 0x1_0000_0000_0000_0000int * (0xc3353aca34a380e1 + 0x1_0000_0000_0000_0000int * (0x6728217df5bc7c1f + 0x1_0000_0000_0000_0000int * 0x46af925fa51ac49))))));
        assert((0xe2222412aca8b016 + 0x1_0000_0000_0000_0000int * (0x92e8614fee38a288 + 0x1_0000_0000_0000_0000int * (0xffd8419fe7b13f6a + 0x1_0000_0000_0000_0000int * (0xc3353aca34a380e1 + 0x1_0000_0000_0000_0000int * (0x6728217df5bc7c1f + 0x1_0000_0000_0000_0000int * 0x46af925fa51ac49))))) * (0x3a545e3872760ab7 + 0x1_0000_0000_0000_0000int * (0x5502f25dbf55296c + 0x1_0000_0000_0000_0000int * (0x59f741e082542a38 + 0x1_0000_0000_0000_0000int * (0x6e1d3b628ba79b98 + 0x1_0000_0000_0000_0000int * (0x8eb1c71ef320ad74 + 0x1_0000_0000_0000_0000int * 0xaa87ca22be8b0537))))) == (0xffffffff + 0x1_0000_0000_0000_0000int * (0xffffffff00000000 + 0x1_0000_0000_0000_0000int * (0xfffffffffffffffe + 0x1_0000_0000_0000_0000int * (0xffffffffffffffff + 0x1_0000_0000_0000_0000int * (0xffffffffffffffff + 0x1_0000_0000_0000_0000int * 0xffffffffffffffff))))) * (0x1857f33e56866f65 + 0x1_0000_0000_0000_0000int * (0xe3915a9767b9a987 + 0x1_0000_0000_0000_0000int * (0xa4c9f687afd7ee04 + 0x1_0000_0000_0000_0000int * (0xadf87d1db065fd5c + 0x1_0000_0000_0000_0000int * (0xcdb80e69173508d0 + 0x1_0000_0000_0000_0000int * 0x2f161599d581720))))) + (0x27e754ec50212b1f + 0x1_0000_0000_0000_0000int * (0x4289bfa57ea41cc7 + 0x1_0000_0000_0000_0000int * (0xbf5c123eefb5949c + 0x1_0000_0000_0000_0000int * (0xa40a3d711f57ffa7 + 0x1_0000_0000_0000_0000int * (0x494a5ffbee8fd5ba + 0x1_0000_0000_0000_0000int * 0x2a72c8a554903f0d)))))) by (nonlinear_arith);
        lemma_mod_from_quotient((0xe2222412aca8b016 + 0x1_0000_0000_0000_0000int * (0x92e8614fee38a288 + 0x1_0000_0000_0000_0000int * (0xffd8419fe7b13f6a + 0x1_0000_0000_0000_0000int * (0xc3353aca34a380e1 + 0x1_0000_0000_0000_0000int * (0x6728217df5bc7c1f + 0x1_0000_0000_0000_0000int * 0x46af925fa51ac49))))) * (0x3a545e3872760ab7 + 0x1_0000_0000_0000_0000int * (0x5502f25dbf55296c + 0x1_0000_0000_0000_0000int * (0x59f741e082542a38 + 0x1_0000_0000_0000_0000int * (0x6e1d3b628ba79b98 + 0x1_0000_0000_0000_0000int * (0x8eb1c71ef320ad74 + 0x1_0000_0000_0000_0000int * 0xaa87ca22be8b0537))))), (0xffffffff + 0x1_0000_0000_0000_0000int * (0xffffffff00000000 + 0x1_0000_0000_0000_0000int * (0xfffffffffffffffe + 0x1_0000_0000_0000_0000int * (0xffffffffffffffff + 0x1_0000_0000_0000_0000int * (0xffffffffffffffff + 0x1_0000_0000_0000_0000int * 0xffffffffffffffff))))), (0x1857f33e56866f65 + 0x1_0000_0000_0000_0000int * (0xe3915a9767b9a987 + 0x1_0000_0000_0000_0000int * (0xa4c9f687afd7ee04 + 0x1_0000_0000_0000_0000int * (0xadf87d1db065fd5c + 0x1_0000_0000_0000_0000int * (0xcdb80e69173508d0 + 0x1_0000_0000_0000_0000int * 0x2f161599d581720))))), (0x27e754ec50212b1f + 0x1_0000_0000_0000_0000int * (0x4289bfa57ea41cc7 + 0x1_0000_0000_0000_0000int * (0xbf5c123eefb5949c + 0x1_0000_0000_0000_0000int * (0xa40a3d711f57ffa7 + 0x1_0000_0000_0000_0000int * (0x494a5ffbee8fd5ba + 0x1_0000_0000_0000_0000int * 0x2a72c8a554903f0d))))));
        assert((0x27e754ec50212b1f + 0x1_0000_0000_0000_0000int * (0x4289bfa57ea41cc7 + 0x1_0000_0000_0000_0000int * (0xbf5c123eefb5949c + 0x1_0000_0000_0000_0000int * (0xa40a3d711f57ffa7 + 0x1_0000_0000_0000_0000int * (0x494a5ffbee8fd5ba + 0x1_0000_0000_0000_0000int * 0x2a72c8a554903f0d))))) + (0x2a85c8edd3ec2aef + 0x1_0000_0000_0000_0000int * (0xc656398d8a2ed19d + 0x1_0000_0000_0000_0000int * (0x314088f5013875a + 0x1_0000_0000_0000_0000int * (0x181d9c6efe814112 + 0x1_0000_0000_0000_0000int * (0x988e056be3f82d19 + 0x1_0000_0000_0000_0000int * 0xb3312fa7e23ee7e4))))) == (0xffffffff + 0x1_0000_0000_0000_0000int * (0xffffffff00000000 + 0x1_0000_0000_0000_0000int * (0xfffffffffffffffe + 0x1_0000_0000_0000_0000int * (0xffffffffffffffff + 0x1_0000_0000_0000_0000int * (0xffffffffffffffff + 0x1_0000_0000_0000_0000int * 0xffffffffffffffff))))) * 0x0 + (0x526d1dda240d560e + 0x1_0000_0000_0000_0000int * (0x8dff93308d2ee64 + 0x1_0000_0000_0000_0000int * (0xc2701ace3fc91bf7 + 0x1_0000_0000_0000_0000int * (0xbc27d9e01dd940b9 + 0x1_0000_0000_0000_0000int * (0xe1d86567d28802d3 + 0x1_0000_0000_0000_0000int * 0xdda3f84d36cf26f1)))))) by (nonlinear_arith);
        lemma_mod_from_quotient((0x27e754ec50212b1f + 0x1_0000_0000_0000_0000int * (0x4289bfa57ea41cc7 + 0x1_0000_0000_0000_0000int * (0xbf5c123eefb5949c + 0x1_0000_0000_0000_0000int * (0xa40a3d711f57ffa7 + 0x1_0000_0000_0000_0000int * (0x494a5ffbee8fd5ba + 0x1_0000_0000_0000_0000int * 0x2a72c8a554903f0d))))) + (0x2a85c8edd3ec2aef + 0x1_0000_0000_0000_0000int * (0xc656398d8a2ed19d + 0x1_0000_0000_0000_0000int * (0x314088f5013875a + 0x1_0000_0000_0000_0000int * (0x181d9c6efe814112 + 0x1_0000_0000_0000_0000int * (0x988e056be3f82d19 + 0x1_0000_0000_0000_0000int * 0xb3312fa7e23ee7e4))))), (0xffffffff + 0x1_0000_0000_0000_0000int * (0xffffffff00000000 + 0x1_0000_0000_0000_0000int * (0xfffffffffffffffe + 0x1_0000_0000_0000_0000int * (0xffffffffffffffff + 0x1_0000_0000_0000_0000int * (0xffffffffffffffff + 0x1_0000_0000_0000_0000int * 0xffffffffffffffff))))), 0x0, (0x526d1dda240d560e + 0x1_0000_0000_0000_0000int * (0x8dff93308d2ee64 + 0x1_0000_0000_0000_0000int * (0xc2701ace3fc91bf7 + 0x1_0000_0000_0000_0000int * (0xbc27d9e01dd940b9 + 0x1_0000_0000_0000_0000int * (0xe1d86567d28802d3 + 0x1_0000_0000_0000_0000int * 0xdda3f84d36cf26f1))))));
    }
    lemma_on_curve_decoded(c, encode(c, gx_p384()), encode(c, gy_p384()));
    lemma_decode_encode(c, gx_p384());
    lemma_decode_encode(c, gy_p384());
    {
        assert((0x7a431d7c90ea0e60 + 0x1_0000_0000_0000_0000int * (0xa60b1ce1d7e819d + 0x1_0000_0000_0000_0000int * (0xe9da3113b5f0b8c0 + 0x1_0000_0000_0000_0000int * (0xf8f41dbd289a147c + 0x1_0000_0000_0000_0000int * (0x5d9e98bf9292dc29 + 0x1_0000_0000_0000_0000int * 0x3617de4a96262c6f))))) * (0x7a431d7c90ea0e60 + 0x1_0000_0000_0000_0000int * (0xa60b1ce1d7e819d + 0x1_0000_0000_0000_0000int * (0xe9da3113b5f0b8c0 + 0x1_0000_0000_0000_0000int * (0xf8f41dbd289a147c + 0x1_0000_0000_0000_0000int * (0x5d9e98bf9292dc29 + 0x1_0000_0000_0000_0000int * 0x3617de4a96262c6f))))) == (0xffffffff + 0x1_0000_0000_0000_0000int * (0xffffffff00000000 + 0x1_0000_0000_0000_0000int * (0xfffffffffffffffe + 0x1_0000_0000_0000_0000int * (0xffffffffffffffff + 0x1_0000_0000_0000_0000int * (0xffffffffffffffff + 0x1_0000_0000_0000_0000int * 0xffffffffffffffff))))) * (0x823e5475fd92cece + 0x1_0000_0000_0000_0000int * (0xf4e0bdfe11437eac + 0x1_0000_0000_0000_0000int * (0x1690de08a71a45d4 + 0x1_0000_0000_0000_0000int * (0x663c57ceb12c9410 + 0x1_0000_0000_0000_0000int * (0x52b553752f5afaf3 + 0x1_0000_0000_0000_0000int * 0xb6e140129c487c0))))) + (0x46f358d245e172ce + 0x1_0000_0000_0000_0000int * (0x1da15cd043cff19f + 0x1_0000_0000_0000_0000int * (0x96247cf5abaa8d78 + 0x1_0000_0000_0000_0000int * (0xae10155a6f0d69b3 + 0x1_0000_0000_0000_0000int * (0x9d1596e6f7adbb27 + 0x1_0000_0000_0000_0000int * 0x49d3b4e2631b7fd0)))))) by (nonlinear_arith);
        lemma_mod_from_quotient((0x7a431d7c90ea0e60 + 0x1_0000_0000_0000_0000int * (0xa60b1ce1d7e819d + 0x1_0000_0000_0000_0000int * (0xe9da3113b5f0b8c0 + 0x1_0000_0000_0000_0000int * (0xf8f41dbd289a147c + 0x1_0000_0000_0000_0000int * (0x5d9e98bf9292dc29 + 0x1_0000_0000_0000_0000int * 0x3617de4a96262c6f))))) * (0x7a431d7c90ea0e60 + 0x1_0000_0000_0000_0000int * (0xa60b1ce1d7e819d + 0x1_0000_0000_0000_0000int * (0xe9da3113b5f0b8c0 + 0x1_0000_0000_0000_0000int * (0xf8f41dbd289a147c + 0x1_0000_0000_0000_0000int * (0x5d9e98bf9292dc29 + 0x1_0000_0000_0000_0000int * 0x3617de4a96262c6f))))), (0xffffffff + 0x1_0000_0000_0000_0000int * (0xffffffff00000000 + 0x1_0000_0000_0000_0000int * (0xfffffffffffffffe + 0x1_0000_0000_0000_0000int * (0xffffffffffffffff + 0x1_0000_0000_0000_0000int * (0xffffffffffffffff + 0x1_0000_0000_0000_0000int * 0xffffffffffffffff))))), (0x823e5475fd92cece + 0x1_0000_0000_0000_0000int * (0xf4e0bdfe11437eac + 0x1_0000_0000_0000_0000int * (0x1690de08a71a45d4 + 0x1_0000_0000_0000_0000int * (0x663c57ceb12c9410 + 0x1_0000_0000_0000_0000int * (0x52b553752f5afaf3 + 0x1_0000_0000_0000_0000int * 0xb6e140129c487c0))))), (0x46f358d245e172ce + 0x1_0000_0000_0000_0000int * (0x1da15cd043cff19f + 0x1_0000_0000_0000_0000int * (0x96247cf5abaa8d78 + 0x1_0000_0000_0000_0000int * (0xae10155a6f0d69b3 + 0x1_0000_0000_0000_0000int * (0x9d1596e6f7adbb27 + 0x1_0000_0000_0000_0000int * 0x49d3b4e2631b7fd0))))));
        assert((0x3a545e3872760ab7 + 0x1_0000_0000_0000_0000int * (0x5502f25dbf55296c + 0x1_0000_0000_0000_0000int * (0x59f741e082542a38 + 0x1_0000_0000_0000_0000int * (0x6e1d3b628ba79b98 + 0x1_0000_0000_0000_0000int * (0x8eb1c71ef320ad74 + 0x1_0000_0000_0000_0000int * 0xaa87ca22be8b0537))))) * (0x3a545e3872760ab7 + 0x1_0000_0000_0000_0000int * (0x5502f25dbf55296c + 0x1_0000_0000_0000_0000int * (0x59f741e082542a38 + 0x1_0000_0000_0000_0000int * (0x6e1d3b628ba79b98 + 0x1_0000_0000_0000_0000int * (0x8eb1c71ef320ad74 + 0x1_0000_0000_0000_0000int * 0xaa87ca22be8b0537))))) == (0xffffffff + 0x1_0000_0000_0000_0000int * (0xffffffff00000000 + 0x1_0000_0000_0000_0000int * (0xfffffffffffffffe + 0x1_0000_0000_0000_0000int * (0xffffffffffffffff + 0x1_0000_0000_0000_0000int * (0xffffffffffffffff + 0x1_0000_0000_0000_0000int * 0xffffffffffffffff))))) * (0xc6db9951cf81e148 + 0x1_0000_0000_0000_0000int * (0x3c85228796f0789f + 0x1_0000_0000_0000_0000int * (0xfad243bcfaa857d9 + 0x1_0000_0000_0000_0000int * (0x77a9c6831cfed18e + 0x1_0000_0000_0000_0000int * (0xd9185324b5419eff + 0x1_0000_0000_0000_0000int * 0x7198a07cf55072f7))))) + (0xe2222412aca8b019 + 0x1_0000_0000_0000_0000int * (0x92e8614fee38a288 + 0x1_0000_0000_0000_0000int * (0xffd8419fe7b13f6a + 0x1_0000_0000_0000_0000int * (0xc3353aca34a380e1 + 0x1_0000_0000_0000_0000int * (0x6728217df5bc7c1f + 0x1_0000_0000_0000_0000int * 0x46af925fa51ac49)))))) by (nonlinear_arith);
        lemma_mod_from_quotient((0x3a545e3872760ab7 + 0x1_0000_0000_0000_0000int * (0x5502f25dbf55296c + 0x1_0000_0000_0000_0000int * (0x59f741e082542a38 + 0x1_0000_0000_0000_0000int * (0x6e1d3b628ba79b98 + 0x1_0000_0000_0000_0000int * (0x8eb1c71ef320ad74 + 0x1_0000_0000_0000_0000int * 0xaa87ca22be8b0537))))) * (0x3a545e3872760ab7 + 0x1_0000_0000_0000_0000int * (0x5502f25dbf55296c + 0x1_0000_0000_0000_0000int * (0x59f741e082542a38 + 0x1_0000_0000_0000_0000int * (0x6e1d3b628ba79b98 + 0x1_0000_0000_0000_0000int * (0x8eb1c71ef320ad74 + 0x1_0000_0000_0000_0000int * 0xaa87ca22be8b0537))))), (0xffffffff + 0x1_0000_0000_0000_0000int * (0xffffffff00000000 + 0x1_0000_0000_0000_0000int * (0xfffffffffffffffe + 0x1_0000_0000_0000_0000int * (0xffffffffffffffff + 0x1_0000_0000_0000_0000int * (0xffffffffffffffff + 0x1_0000_0000_0000_0000int * 0xffffffffffffffff))))), (0xc6db9951cf81e148 + 0x1_0000_0000_0000_0000int * (0x3c85228796f0789f + 0x1_0000_0000_0000_0000int * (0xfad243bcfaa857d9 + 0x1_0000_0000_0000_0000int * (0x77a9c6831cfed18e + 0x1_0000_0000_0000_0000int * (0xd9185324b5419eff + 0x1_0000_0000_0000_0000int * 0x7198a07cf55072f7))))), (0xe2222412aca8b019 + 0x1_0000_0000_0000_0000int * (0x92e8614fee38a288 + 0x1_0000_0000_0000_0000int * (0xffd8419fe7b13f6a + 0x1_0000_0000_0000_0000int * (0xc3353aca34a380e1 + 0x1_0000_0000_0000_0000int * (0x6728217df5bc7c1f + 0x1_0000_0000_0000_0000int * 0x46af925fa51ac49))))));
        assert((0xe2222412aca8b019 + 0x1_0000_0000_0000_0000int * (0x92e8614fee38a288 + 0x1_0000_0000_0000_0000int * (0xffd8419fe7b13f6a + 0x1_0000_0000_0000_0000int * (0xc3353aca34a380e1 + 0x1_0000_0000_0000_0000int * (0x6728217df5bc7c1f + 0x1_0000_0000_0000_0000int * 0x46af925fa51ac49))))) + (0xfffffffc + 0x1_0000_0000_0000_0000int * (0xffffffff00000000 + 0x1_0000_0000_0000_0000int * (0xfffffffffffffffe + 0x1_0000_0000_0000_0000int * (0xffffffffffffffff + 0x1_0000_0000_0000_0000int * (0xffffffffffffffff + 0x1_0000_0000_0000_0000int * 0xffffffffffffffff))))) == (0xffffffff + 0x1_0000_0000_0000_0000int * (0xffffffff00000000 + 0x1_0000_0000_0000_0000int * (0xfffffffffffffffe + 0x1_0000_0000_0000_0000int * (0xffffffffffffffff + 0x1_0000_0000_0000_0000int * (0xffffffffffffffff + 0x1_0000_0000_0000_0000int * 0xffffffffffffffff))))) * 0x1 + (0xe2222412aca8b016 + 0x1_0000_0000_0000_0000int * (0x92e8614fee38a288 + 0x1_0000_0000_0000_0000int * (0xffd8419fe7b13f6a + 0x1_0000_0000_0000_0000int * (0xc3353aca34a380e1 + 0x1_0000_0000_0000_0000int * (0x6728217df5bc7c1f + 0x1_0000_0000_0000_0000int * 0x46af925fa51ac49)))))) by (nonlinear_arith);
        lemma_mod_from_quotient((0xe2222412aca8b019 + 0x1_0000_0000_0000_0000int * (0x92e8614fee38a288 + 0x1_0000_0000_0000_0000int * (0xffd8419fe7b13f6a + 0x1_0000_0000_0000_0000int * (0xc3353aca34a380e1 + 0x1_0000_0000_0000_0000int * (0x6728217df5bc7c1f + 0x1_0000_0000_0000_0000int * 0x46af925fa51ac49))))) + (0xfffffffc + 0x1_0000_0000_0000_0000int * (0xffffffff00000000 + 0x1_0000_0000_0000_0000int * (0xfffffffffffffffe + 0x1_0000_0000_0000_0000int * (0xffffffffffffffff + 0x1_0000_0000_0000_0000int * (0xffffffffffffffff + 0x1_0000_0000_0000_0000int * 0xffffffffffffffff))))), (0xffffffff + 0x1_0000_0000_0000_0000int * (0xffffffff00000000 + 0x1_0000_0000_0000_0000int * (0xfffffffffffffffe + 0x1_0000_0000_0000_0000int * (0xffffffffffffffff + 0x1_0000_0000_0000_0000int * (0xffffffffffffffff + 0x1_0000_0000_0000_0000int * 0xffffffffffffffff))))), 0x1, (0xe2222412aca8b016 + 0x1_0000_0000_0000_0000int * (0x92e8614fee38a288 + 0x1_0000_0000_0000_0000int * (0xffd8419fe7b13f6a + 0x1_0000_0000_0000_0000int * (0xc3353aca34a380e1 + 0x1_0000_0000_0000_0000int * (0x6728217df5bc7c1f + 0x1_0000_0000_0000_0000int * 0x46af925fa51ac49))))));
        assert((0xe2222412aca8b016 + 0x1_0000_0000_0000_0000int * (0x92e8614fee38a288 + 0x1_0000_0000_0000_0000int * (0xffd8419fe7b13f6a + 0x1_0000_0000_0000_0000int * (0xc3353aca34a380e1 + 0x1_0000_0000_0000_0000int * (0x6728217df5bc7c1f + 0x1_0000_0000_0000_0000int * 0x46af925fa51ac49))))) * (0x3a545e3872760ab7 + 0x1_0000_0000_0000_0000int * (0x5502f25dbf55296c + 0x1_0000_0000_0000_0000int * (0x59f741e082542a38 + 0x1_0000_0000_0000_0000int * (0x6e1d3b628ba79b98 + 0x1_0000_0000_0000_0000int * (0x8eb1c71ef320ad74 + 0x1_0000_0000_0000_0000int * 0xaa87ca22be8b0537))))) == (0xffffffff + 0x1_0000_0000_0000_0000int * (0xffffffff00000000 + 0x1_0000_0000_0000_0000int * (0xfffffffffffffffe + 0x1_0000_0000_0000_0000int * (0xffffffffffffffff + 0x1_0000_0000_0000_0000int * (0xffffffffffffffff + 0x1_0000_0000_0000_0000int * 0xffffffffffffffff))))) * (0x1857f33e56866f65 + 0x1_0000_0000_0000_0000int * (0xe3915a9767b9a987 + 0x1_0000_0000_0000_0000int * (0xa4c9f687afd7ee04 + 0x1_0000_0000_0000_0000int * (0xadf87d1db065fd5c + 0x1_0000_0000_0000_0000int * (0xcdb80e69173508d0 + 0x1_0000_0000_0000_0000int * 0x2f161599d581720))))) + (0x27e754ec50212b1f + 0x1_0000_0000_0000_0000int * (0x4289bfa57ea41cc7 + 0x1_0000_0000_0000_0000int * (0xbf5c123eefb5949c + 0x1_0000_0000_0000_0000int * (0xa40a3d711f57ffa7 + 0x1_0000_0000_0000_0000int * (0x494a5ffbee8fd5ba + 0x1_0000_0000_0000_0000int * 0x2a72c8a554903f0d)))))) by (nonlinear_arith);
        lemma_mod_from_quotient((0xe2222412aca8b016 + 0x1_0000_0000_0000_0000int * (0x92e8614fee38a288 + 0x1_0000_0000_0000_0000int * (0xffd8419fe7b13f6a + 0x1_0000_0000_0000_0000int * (0xc3353aca34a380e1 + 0x1_0000_0000_0000_0000int * (0x6728217df5bc7c1f + 0x1_0000_0000_0000_0000int * 0x46af925fa51ac49))))) * (0x3a545e3872760ab7 + 0x1_0000_0000_0000_0000int * (0x5502f25dbf55296c + 0x1_0000_0000_0000_0000int * (0x59f741e082542a38 + 0x1_0000_0000_0000_0000int * (0x6e1d3b628ba79b98 + 0x1_0000_0000_0000_0000int * (0x8eb1c71ef320ad74 + 0x1_0000_0000_0000_0000int * 0xaa87ca22be8b0537))))), (0xffffffff + 0x1_0000_0000_0000_0000int * (0xffffffff00000000 + 0x1_0000_0000_0000_0000int * (0xfffffffffffffffe + 0x1_0000_0000_0000_0000int * (0xffffffffffffffff + 0x1_0000_0000_0000_0000int * (0xffffffffffffffff + 0x1_0000_0000_0000_0000int * 0xffffffffffffffff))))), (0x1857f33e56866f65 + 0x1_0000_0000_0000_0000int * (0xe3915a9767b9a987 + 0x1_0000_0000_0000_0000int * (0xa4c9f687afd7ee04 + 0x1_0000_0000_0000_0000int * (0xadf87d1db065fd5c + 0x1_0000_0000_0000_0000int * (0xcdb80e69173508d0 + 0x1_0000_0000_0000_0000int * 0x2f161599d581720))))), (0x27e754ec50212b1f + 0x1_0000_0000_0000_0000int * (0x4289bfa57ea41cc7 + 0x1_0000_0000_0000_0000int * (0xbf5c123eefb5949c + 0x1_0000_0000_0000_0000int * (0xa40a3d711f57ffa7 + 0x1_0000_0000_0000_0000int * (0x494a5ffbee8fd5ba + 0x1_0000_0000_0000_0000int * 0x2a72c8a554903f0d))))));
        assert((0x27e754ec50212b1f + 0x1_0000_0000_0000_0000int * (0x4289bfa57ea41cc7 + 0x1_0000_0000_0000_0000int * (0xbf5c123eefb5949c + 0x1_0000_0000_0000_0000int * (0xa40a3d711f57ffa7 + 0x1_0000_0000_0000_0000int * (0x494a5ffbee8fd5ba + 0x1_0000_0000_0000_0000int * 0x2a72c8a554903f0d))))) + (0x2a85c8edd3ec2aef + 0x1_0000_0000_0000_0000int * (0xc656398d8a2ed19d + 0x1_0000_0000_0000_0000int * (0x314088f5013875a + 0x1_0000_0000_0000_0000int * (0x181d9c6efe814112 + 0x1_0000_0000_0000_0000int * (0x988e056be3f82d19 + 0x1_0000_0000_0000_0000int * 0xb3312fa7e23ee7e4))))) == (0xffffffff + 0x1_0000_0000_0000_0000int * (0xffffffff00000000 + 0x1_0000_0000_0000_0000int * (0xfffffffffffffffe + 0x1_0000_0000_0000_0000int * (0xffffffffffffffff + 0x1_0000_0000_0000_0000int * (0xffffffffffffffff + 0x1_0000_0000_0000_0000int * 0xffffffffffffffff))))) * 0x0 + (0x526d1dda240d560e + 0x1_0000_0000_0000_0000int * (0x8dff93308d2ee64 + 0x1_0000_0000_0000_0000int * (0xc2701ace3fc91bf7 + 0x1_0000_0000_0000_0000int * (0xbc27d9e01dd940b9 + 0x1_0000_0000_0000_0000int * (0xe1d86567d28802d3 + 0x1_0000_0000_0000_0000int * 0xdda3f84d36cf26f1)))))) by (nonlinear_arith);
        lemma_mod_from_quotient((0x27e754ec50212b1f + 0x1_0000_0000_0000_0000int * (0x4289bfa57ea41cc7 + 0x1_0000_0000_0000_0000int * (0xbf5c123eefb5949c + 0x1_0000_0000_0000_0000int * (0xa40a3d711f57ffa7 + 0x1_0000_0000_0000_0000int * (0x494a5ffbee8fd5ba + 0x1_0000_0000_0000_0000int * 0x2a72c8a554903f0d))))) + (0x2a85c8edd3ec2aef + 0x1_0000_0000_0000_0000int * (0xc656398d8a2ed19d + 0x1_0000_0000_0000_0000int * (0x314088f5013875a + 0x1_0000_0000_0000_0000int * (0x181d9c6efe814112 + 0x1_0000_0000_0000_0000int * (0x988e056be3f82d19 + 0x1_0000_0000_0000_0000int * 0xb3312fa7e23ee7e4))))), (0xffffffff + 0x1_0000_0000_0000_0000int * (0xffffffff00000000 + 0x1_0000_0000_0000_0000int * (0xfffffffffffffffe + 0x1_0000_0000_0000_0000int * (0xffffffffffffffff + 0x1_0000_0000_0000_0000int * (0xffffffffffffffff + 0x1_0000_0000_0000_0000int * 0xffffffffffffffff))))), 0x0, (0x526d1dda240d560e + 0x1_0000_0000_0000_0000int * (0x8dff93308d2ee64 + 0x1_0000_0000_0000_0000int * (0xc2701ace3fc91bf7 + 0x1_0000_0000_0000_0000int * (0xbc27d9e01dd940b9 + 0x1_0000_0000_0000_0000int * (0xe1d86567d28802d3 + 0x1_0000_0000_0000_0000int * 0xdda3f84d36cf26f1))))));
    }
    lemma_on_curve_decoded(c, encode(c, gx_p384()), encode(c, (gy_p384() + 1) as nat));
    lemma_decode_encode(c, (gy_p384() + 1) as nat);
    {
        assert((0x7a431d7c90ea0e5f + 0x1_0000_0000_0000_0000int * (0xa60b1ce1d7e819d + 0x1_0000_0000_0000_0000int * (0xe9da3113b5f0b8c0 + 0x1_0000_0000_0000_0000int * (0xf8f41dbd289a147c + 0x1_0000_0000_0000_0000int * (0x5d9e98bf9292dc29 + 0x1_0000_0000_0000_0000int * 0x3617de4a96262c6f))))) * (0x7a431d7c90ea0e5f + 0x1_0000_0000_0000_0000int * (0xa60b1ce1d7e819d + 0x1_0000_0000_0000_0000int * (0xe9da3113b5f0b8c0 + 0x1_0000_0000_0000_0000int * (0xf8f41dbd289a147c + 0x1_0000_0000_0000_0000int * (0x5d9e98bf9292dc29 + 0x1_0000_0000_0000_0000int * 0x3617de4a96262c6f))))) == (0xffffffff + 0x1_0000_0000_0000_0000int * (0xffffffff00000000 + 0x1_0000_0000_0000_0000int * (0xfffffffffffffffe + 0x1_0000_0000_0000_0000int * (0xffffffffffffffff + 0x1_0000_0000_0000_0000int * (0xffffffffffffffff + 0x1_0000_0000_0000_0000int * 0xffffffffffffffff))))) * (0x823e5475fd92cecd + 0x1_0000_0000_0000_0000int * (0xf4e0bdfe11437eac + 0x1_0000_0000_0000_0000int * (0x1690de08a71a45d4 + 0x1_0000_0000_0000_0000int * (0x663c57ceb12c9410 + 0x1_0000_0000_0000_0000int * (0x52b553752f5afaf3 + 0x1_0000_0000_0000_0000int * 0xb6e140129c487c0))))) + (0x526d1dda240d560e + 0x1_0000_0000_0000_0000int * (0x8dff93308d2ee64 + 0x1_0000_0000_0000_0000int * (0xc2701ace3fc91bf7 + 0x1_0000_0000_0000_0000int * (0xbc27d9e01dd940b9 + 0x1_0000_0000_0000_0000int * (0xe1d86567d28802d3 + 0x1_0000_0000_0000_0000int * 0xdda3f84d36cf26f1)))))) by (nonlinear_arith);
        lemma_mod_from_quotient((0x7a431d7c90ea0e5f + 0x1_0000_0000_0000_0000int * (0xa60b1ce1d7e819d + 0x1_0000_0000_0000_0000int * (0xe9da3113b5f0b8c0 + 0x1_0000_0000_0000_0000int * (0xf8f41dbd289a147c + 0x1_0000_0000_0000_0000int * (0x5d9e98bf9292dc29 + 0x1_0000_0000_0000_0000int * 0x3617de4a96262c6f))))) * (0x7a431d7c90ea0e5f + 0x1_0000_0000_0000_0000int * (0xa60b1ce1d7e819d + 0x1_0000_0000_0000_0000int * (0xe9da3113b5f0b8c0 + 0x1_0000_0000_0000_0000int * (0xf8f41dbd289a147c + 0x1_0000_0000_0000_0000int * (0x5d9e98bf9292dc29 + 0x1_0000_0000_0000_0000int * 0x3617de4a96262c6f))))), (0xffffffff + 0x1_0000_0000_0000_0000int * (0xffffffff00000000 + 0x1_0000_0000_0000_0000int * (0xfffffffffffffffe + 0x1_0000_0000_0000_0000int * (0xffffffffffffffff + 0x1_0000_0000_0000_0000int * (0xffffffffffffffff + 0x1_0000_0000_0000_0000int * 0xffffffffffffffff))))), (0x823e5475fd92cecd + 0x1_0000_0000_0000_0000int * (0xf4e0bdfe11437eac + 0x1_0000_0000_0000_0000int * (0x1690de08a71a45d4 + 0x1_0000_0000_0000_0000int * (0x663c57ceb12c9410 + 0x1_0000_0000_0000_0000int * (0x52b553752f5afaf3 + 0x1_0000_0000_0000_0000int * 0xb6e140129c487c0))))), (0x526d1dda240d560e + 0x1_0000_0000_0000_0000int * (0x8dff93308d2ee64 + 0x1_0000_0000_0000_0000int * (0xc2701ace3fc91bf7 + 0x1_0000_0000_0000_0000int * (0xbc27d9e01dd940b9 + 0x1_0000_0000_0000_0000int * (0xe1d86567d28802d3 + 0x1_0000_0000_0000_0000int * 0xdda3f84d36cf26f1))))));
        assert((0x3a545e3872760ab8 + 0x1_0000_0000_0000_0000int * (0x5502f25dbf55296c + 0x1_0000_0000_0000_0000int * (0x59f741e082542a38 + 0x1_0000_0000_0000_0000int * (0x6e1d3b628ba79b98 + 0x1_0000_0000_0000_0000int * (0x8eb1c71ef320ad74 + 0x1_0000_0000_0000_0000int * 0xaa87ca22be8b0537))))) * (0x3a545e3872760ab8 + 0x1_0000_0000_0000_0000int * (0x5502f25dbf55296c + 0x1_0000_0000_0000_0000int * (0x59f741e082542a38 + 0x1_0000_0000_0000_0000int * (0x6e1d3b628ba79b98 + 0x1_0000_0000_0000_0000int * (0x8eb1c71ef320ad74 + 0x1_0000_0000_0000_0000int * 0xaa87ca22be8b0537))))) == (0xffffffff + 0x1_0000_0000_0000_0000int * (0xffffffff00000000 + 0x1_0000_0000_0000_0000int * (0xfffffffffffffffe + 0x1_0000_0000_0000_0000int * (0xffffffffffffffff + 0x1_0000_0000_0000_0000int * (0xffffffffffffffff + 0x1_0000_0000_0000_0000int * 0xffffffffffffffff))))) * (0xc6db9951cf81e149 + 0x1_0000_0000_0000_0000int * (0x3c85228796f0789f + 0x1_0000_0000_0000_0000int * (0xfad243bcfaa857d9 + 0x1_0000_0000_0000_0000int * (0x77a9c6831cfed18e + 0x1_0000_0000_0000_0000int * (0xd9185324b5419eff + 0x1_0000_0000_0000_0000int * 0x7198a07cf55072f7))))) + (0x56cae0829194c589 + 0x1_0000_0000_0000_0000int * (0x3cee460c6ce2f561 + 0x1_0000_0000_0000_0000int * (0xb3c6c560ec5993dc + 0x1_0000_0000_0000_0000int * (0x9f6fb18f4bf2b812 + 0x1_0000_0000_0000_0000int * (0x848bafbbdbfdd708 + 0x1_0000_0000_0000_0000int * 0x597a8d6b7767b6b8)))))) by (nonlinear_arith);
        lemma_mod_from_quotient((0x3a545e3872760ab8 + 0x1_0000_0000_0000_0000int * (0x5502f25dbf55296c + 0x1_0000_0000_0000_0000int * (0x59f741e082542a38 + 0x1_0000_0000_0000_0000int * (0x6e1d3b628ba79b98 + 0x1_0000_0000_0000_0000int * (0x8eb1c71ef320ad74 + 0x1_0000_0000_0000_0000int * 0xaa87ca22be8b0537))))) * (0x3a545e3872760ab8 + 0x1_0000_0000_0000_0000int * (0x5502f25dbf55296c + 0x1_0000_0000_0000_0000int * (0x59f741e082542a38 + 0x1_0000_0000_0000_0000int * (0x6e1d3b628ba79b98 + 0x1_0000_0000_0000_0000int * (0x8eb1c71ef320ad74 + 0x1_0000_0000_0000_0000int * 0xaa87ca22be8b0537))))), (0xffffffff + 0x1_0000_0000_0000_0000int * (0xffffffff00000000 + 0x1_0000_0000_0000_0000int * (0xfffffffffffffffe + 0x1_0000_0000_0000_0000int * (0xffffffffffffffff + 0x1_0000_0000_0000_0000int * (0xffffffffffffffff + 0x1_0000_0000_0000_0000int * 0xffffffffffffffff))))), (0xc6db9951cf81e149 + 0x1_0000_0000_0000_0000int * (0x3c85228796f0789f + 0x1_0000_0000_0000_0000int * (0xfad243bcfaa857d9 + 0x1_0000_0000_0000_0000int * (0x77a9c6831cfed18e + 0x1_0000_0000_0000_0000int * (0xd9185324b5419eff + 0x1_0000_0000_0000_0000int * 0x7198a07cf55072f7))))), (0x56cae0829194c589 + 0x1_0000_0000_0000_0000int * (0x3cee460c6ce2f561 + 0x1_0000_0000_0000_0000int * (0xb3c6c560ec5993dc + 0x1_0000_0000_0000_0000int * (0x9f6fb18f4bf2b812 + 0x1_0000_0000_0000_0000int * (0x848bafbbdbfdd708 + 0x1_0000_0000_0000_0000int * 0x597a8d6b7767b6b8))))));
        assert((0x56cae0829194c589 + 0x1_0000_0000_0000_0000int * (0x3cee460c6ce2f561 + 0x1_0000_0000_0000_0000int * (0xb3c6c560ec5993dc + 0x1_0000_0000_0000_0000int * (0x9f6fb18f4bf2b812 + 0x1_0000_0000_0000_0000int * (0x848bafbbdbfdd708 + 0x1_0000_0000_0000_0000int * 0x597a8d6b7767b6b8))))) + (0xfffffffc + 0x1_0000_0000_0000_0000int * (0xffffffff00000000 + 0x1_0000_0000_0000_0000int * (0xfffffffffffffffe + 0x1_0000_0000_0000_0000int * (0xffffffffffffffff + 0x1_0000_0000_0000_0000int * (0xffffffffffffffff + 0x1_0000_0000_0000_0000int * 0xffffffffffffffff))))) == (0xffffffff + 0x1_0000_0000_0000_0000int * (0xffffffff00000000 + 0x1_0000_0000_0000_0000int * (0xfffffffffffffffe + 0x1_0000_0000_0000_0000int * (0xffffffffffffffff + 0x1_0000_0000_0000_0000int * (0xffffffffffffffff + 0x1_0000_0000_0000_0000int * 0xffffffffffffffff))))) * 0x1 + (0x56cae0829194c586 + 0x1_0000_0000_0000_0000int * (0x3cee460c6ce2f561 + 0x1_0000_0000_0000_0000int * (0xb3c6c560ec5993dc + 0x1_0000_0000_0000_0000int * (0x9f6fb18f4bf2b812 + 0x1_0000_0000_0000_0000int * (0x848bafbbdbfdd708 + 0x1_0000_0000_0000_0000int * 0x597a8d6b7767b6b8)))))) by (nonlinear_arith);
        lemma_mod_from_quotient((0x56cae0829194c589 + 0x1_0000_0000_0000_0000int * (0x3cee460c6ce2f561 + 0x1_0000_0000_0000_0000int * (0xb3c6c560ec5993dc + 0x1_0000_0000_0000_0000int * (0x9f6fb18f4bf2b812 + 0x1_0000_0000_0000_0000int * (0x848bafbbdbfdd708 + 0x1_0000_0000_0000_0000int * 0x597a8d6b7767b6b8))))) + (0xfffffffc + 0x1_0000_0000_0000_0000int * (0xffffffff00000000 + 0x1_0000_0000_0000_0000int * (0xfffffffffffffffe + 0x1_0000_0000_0000_0000int * (0xffffffffffffffff + 0x1_0000_0000_0000_0000int * (0xffffffffffffffff + 0x1_0000_0000_0000_0000int * 0xffffffffffffffff))))), (0xffffffff + 0x1_0000_0000_0000_0000int * (0xffffffff00000000 + 0x1_0000_0000_0000_0000int * (0xfffffffffffffffe + 0x1_0000_0000_0000_0000int * (0xffffffffffffffff + 0x1_0000_0000_0000_0000int * (0xffffffffffffffff + 0x1_0000_0000_0000_0000int * 0xffffffffffffffff))))), 0x1, (0x56cae0829194c586 + 0x1_0000_0000_0000_0000int * (0x3cee460c6ce2f561 + 0x1_0000_0000_0000_0000int * (0xb3c6c560ec5993dc + 0x1_0000_0000_0000_0000int * (0x9f6fb18f4bf2b812 + 0x1_0000_0000_0000_0000int * (0x848bafbbdbfdd708 + 0x1_0000_0000_0000_0000int * 0x597a8d6b7767b6b8))))));
        assert((0x56cae0829194c586 + 0x1_0000_0000_0000_0000int * (0x3cee460c6ce2f561 + 0x1_0000_0000_0000_0000int * (0xb3c6c560ec5993dc + 0x1_0000_0000_0000_0000int * (0x9f6fb18f4bf2b812 + 0x1_0000_0000_0000_0000int * (0x848bafbbdbfdd708 + 0x1_0000_0000_0000_0000int * 0x597a8d6b7767b6b8))))) * (0x3a545e3872760ab8 + 0x1_0000_0000_0000_0000int * (0x5502f25dbf55296c + 0x1_0000_0000_0000_0000int * (0x59f741e082542a38 + 0x1_0000_0000_0000_0000int * (0x6e1d3b628ba79b98 + 0x1_0000_0000_0000_0000int * (0x8eb1c71ef320ad74 + 0x1_0000_0000_0000_0000int * 0xaa87ca22be8b0537))))) == (0xffffffff + 0x1_0000_0000_0000_0000int * (0xffffffff00000000 + 0x1_0000_0000_0000_0000int * (0xfffffffffffffffe + 0x1_0000_0000_0000_0000int * (0xffffffffffffffff + 0x1_0000_0000_0000_0000int * (0xffffffffffffffff + 0x1_0000_0000_0000_0000int * 0xffffffffffffffff))))) * (0x6bbac7a98314273f + 0x1_0000_0000_0000_0000int * (0x798ad48d645715a + 0x1_0000_0000_0000_0000int * (0x40773c2122d4737f + 0x1_0000_0000_0000_0000int * (0x2f2ecec15ebc04e2 + 0x1_0000_0000_0000_0000int * (0xf136ed938e97995b + 0x1_0000_0000_0000_0000int * 0x3b9ad830c96df7d8))))) + (0x7d4adbcbad7d5b8f + 0x1_0000_0000_0000_0000int * (0xfa4bbab0874d80a6 + 0x1_0000_0000_0000_0000int * (0xccca9cc02dc5d186 + 0x1_0000_0000_0000_0000int * (0x38019ff760395516 + 0x1_0000_0000_0000_0000int * (0x2ad819d2a9275277 + 0x1_0000_0000_0000_0000int * 0x374b127f7f265390)))))) by (nonlinear_arith);
        lemma_mod_from_quotient((0x56cae0829194c586 + 0x1_0000_0000_0000_0000int * (0x3cee460c6ce2f561 + 0x1_0000_0000_0000_0000int * (0xb3c6c560ec5993dc + 0x1_0000_0000_0000_0000int * (0x9f6fb18f4bf2b812 + 0x1_0000_0000_0000_0000int * (0x848bafbbdbfdd708 + 0x1_0000_0000_0000_0000int * 0x597a8d6b7767b6b8))))) * (0x3a545e3872760ab8 + 0x1_0000_0000_0000_0000int * (0x5502f25dbf55296c + 0x1_0000_0000_0000_0000int * (0x59f741e082542a38 + 0x1_0000_0000_0000_0000int * (0x6e1d3b628ba79b98 + 0x1_0000_0000_0000_0000int * (0x8eb1c71ef320ad74 + 0x1_0000_0000_0000_0000int * 0xaa87ca22be8b0537))))), (0xffffffff + 0x1_0000_0000_0000_0000int * (0xffffffff00000000 + 0x1_0000_0000_0000_0000int * (0xfffffffffffffffe + 0x1_0000_0000_0000_0000int * (0xffffffffffffffff + 0x1_0000_0000_0000_0000int * (0xffffffffffffffff + 0x1_0000_0000_0000_0000int * 0xffffffffffffffff))))), (0x6bbac7a98314273f + 0x1_0000_0000_0000_0000int * (0x798ad48d645715a + 0x1_0000_0000_0000_0000int * (0x40773c2122d4737f + 0x1_0000_0000_0000_0000int * (0x2f2ecec15ebc04e2 + 0x1_0000_0000_0000_0000int * (0xf136ed938e97995b + 0x1_0000_0000_0000_0000int * 0x3b9ad830c96df7d8))))), (0x7d4adbcbad7d5b8f + 0x1_0000_0000_0000_0000int * (0xfa4bbab0874d80a6 + 0x1_0000_0000_0000_0000int * (0xccca9cc02dc5d186 + 0x1_0000_0000_0000_0000int * (0x38019ff760395516 + 0x1_0000_0000_0000_0000int * (0x2ad819d2a9275277 + 0x1_0000_0000_0000_0000int * 0x374b127f7f265390))))));
        assert((0x7d4adbcbad7d5b8f + 0x1_0000_0000_0000_0000int * (0xfa4bbab0874d80a6 + 0x1_0000_0000_0000_0000int * (0xccca9cc02dc5d186 + 0x1_0000_0000_0000_0000int * (0x38019ff760395516 + 0x1_0000_0000_0000_0000int * (0x2ad819d2a9275277 + 0x1_0000_0000_0000_0000int * 0x374b127f7f265390))))) + (0x2a85c8edd3ec2aef + 0x1_0000_0000_0000_0000int * (0xc656398d8a2ed19d + 0x1_0000_0000_0000_0000int * (0x314088f5013875a + 0x1_0000_0000_0000_0000int * (0x181d9c6efe814112 + 0x1_0000_0000_0000_0000int * (0x988e056be3f82d19 + 0x1_0000_0000_0000_0000int * 0xb3312fa7e23ee7e4))))) == (0xffffffff + 0x1_0000_0000_0000_0000int * (0xffffffff00000000 + 0x1_0000_0000_0000_0000int * (0xfffffffffffffffe + 0x1_0000_0000_0000_0000int * (0xffffffffffffffff + 0x1_0000_0000_0000_0000int * (0xffffffffffffffff + 0x1_0000_0000_0000_0000int * 0xffffffffffffffff))))) * 0x0 + (0xa7d0a4b98169867e + 0x1_0000_0000_0000_0000int * (0xc0a1f43e117c5243 + 0x1_0000_0000_0000_0000int * (0xcfdea54f7dd958e1 + 0x1_0000_0000_0000_0000int * (0x501f3c665eba9628 + 0x1_0000_0000_0000_0000int * (0xc3661f3e8d1f7f90 + 0x1_0000_0000_0000_0000int * 0xea7c422761653b74)))))) by (nonlinear_arith);
        lemma_mod_from_quotient((0x7d4adbcbad7d5b8f + 0x1_0000_0000_0000_0000int * (0xfa4bbab0874d80a6 + 0x1_0000_0000_0000_0000int * (0xccca9cc02dc5d186 + 0x1_0000_0000_0000_0000int * (0x38019ff760395516 + 0x1_0000_0000_0000_0000int * (0x2ad819d2a9275277 + 0x1_0000_0000_0000_0000int * 0x374b127f7f265390))))) + (0x2a85c8edd3ec2aef + 0x1_0000_0000_0000_0000int * (0xc656398d8a2ed19d + 0x1_0000_0000_0000_0000int * (0x314088f5013875a + 0x1_0000_0000_0000_0000int * (0x181d9c6efe814112 + 0x1_0000_0000_0000_0000int * (0x988e056be3f82d19 + 0x1_0000_0000_0000_0000int * 0xb3312fa7e23ee7e4))))), (0xffffffff + 0x1_0000_0000_0000_0000int * (0xffffffff00000000 + 0x1_0000_0000_0000_0000int * (0xfffffffffffffffe + 0x1_0000_0000_0000_0000int * (0xffffffffffffffff + 0x1_0000_0000_0000_0000int * (0xffffffffffffffff + 0x1_0000_0000_0000_0000int * 0xffffffffffffffff))))), 0x0, (0xa7d0a4b98169867e + 0x1_0000_0000_0000_0000int * (0xc0a1f43e117c5243 + 0x1_0000_0000_0000_0000int * (0xcfdea54f7dd958e1 + 0x1_0000_0000_0000_0000int * (0x501f3c665eba9628 + 0x1_0000_0000_0000_0000int * (0xc3661f3e8d1f7f90 + 0x1_0000_0000_0000_0000int * 0xea7c422761653b74))))));
    }
    lemma_on_curve_decoded(c, encode(c, (gx_p384() + 1) as nat), encode(c, gy_p384()));
    lemma_decode_encode(c, (gx_p384() + 1) as nat);
}

/// The published P-256 generator passes the on-curve check, and
/// with one coordinate moved by one it fails it.
pub proof fn law_p256_generator_on_curve(c: CommonOps)
    requires
        is_p256_table(c),
    ensures
        on_curve(c, encode(c, gx_p256()), encode(c, gy_p256())),
        !on_curve(c, encode(c, gx_p256()), encode(c, (gy_p256() + 1) as nat)),
        !on_curve(c, encode(c, (gx_p256() + 1) as nat), encode(c, gy_p256())),
{
    let q = c.q_val();
    assert(q == (0xffffffffffffffff + 0x1_0000_0000_0000_0000int * (0xffffffff + 0x1_0000_0000_0000_0000int * (0x0 + 0x1_0000_0000_0000_0000int * 0xffffffff00000001))));
    assert(gx_p256() == (0xf4a13945d898c296 + 0x1_0000_0000_0000_0000int * (0x77037d812deb33a0 + 0x1_0000_0000_0000_0000int * (0xf8bce6e563a440f2 + 0x1_0000_0000_0000_0000int * 0x6b17d1f2e12c4247))));
    assert(gy_p256() == (0xcbb6406837bf51f5 + 0x1_0000_0000_0000_0000int * (0x2bce33576b315ece + 0x1_0000_0000_0000_0000int * (0x8ee7eb4a7c0f9e16 + 0x1_0000_0000_0000_0000int * 0x4fe342e2fe1a7f9b))));
    assert(b_p256() == (0x3bce3c3e27d2604b + 0x1_0000_0000_0000_0000int * (0x651d06b0cc53b0f6 + 0x1_0000_0000_0000_0000int * (0xb3ebbd55769886bc + 0x1_0000_0000_0000_0000int * 0x5ac635d8aa3a93e7))));
    {
        assert((0xcbb6406837bf51f5 + 0x1_0000_0000_0000_0000int * (0x2bce33576b315ece + 0x1_0000_0000_0000_0000int * (0x8ee7eb4a7c0f9e16 + 0x1_0000_0000_0000_0000int * 0x4fe342e2fe1a7f9b))) * (0xcbb6406837bf51f5 + 0x1_0000_0000_0000_0000int * (0x2bce33576b315ece + 0x1_0000_0000_0000_0000int * (0x8ee7eb4a7c0f9e16 + 0x1_0000_0000_0000_0000int * 0x4fe342e2fe1a7f9b))) == (0xffffffffffffffff + 0x1_0000_0000_0000_0000int * (0xffffffff + 0x1_0000_0000_0000_0000int * (0x0 + 0x1_0000_0000_0000_0000int * 0xffffffff00000001))) * (0xa7f051b975f0f918 + 0x1_0000_0000_0000_0000int * (0x534834655163ed44 + 0x1_0000_0000_0000_0000int * (0x65bd80dd843314dd + 0x1_0000_0000_0000_0000int * 0x18ee0d07e1cadf13))) + (0xbedd2cfc21c3ed91 + 0x1_0000_0000_0000_0000int * (0x498a9022a412b5e0 + 0x1_0000_0000_0000_0000int * (0x82149139979369fe + 0x1_0000_0000_0000_0000int * 0x55df5d5850f47bad)))) by (nonlinear_arith);
        lemma_mod_from_quotient((0xcbb6406837bf51f5 + 0x1_0000_0000_0000_0000int * (0x2bce33576b315ece + 0x1_0000_0000_0000_0000int * (0x8ee7eb4a7c0f9e16 + 0x1_0000_0000_0000_0000int * 0x4fe342e2fe1a7f9b))) * (0xcbb6406837bf51f5 + 0x1_0000_0000_0000_0000int * (0x2bce33576b315ece + 0x1_0000_0000_0000_0000int * (0x8ee7eb4a7c0f9e16 + 0x1_0000_0000_0000_0000int * 0x4fe342e2fe1a7f9b))), (0xffffffffffffffff + 0x1_0000_0000_0000_0000int * (0xffffffff + 0x1_0000_0000_0000_0000int * (0x0 + 0x1_0000_0000_0000_0000int * 0xffffffff00000001))), (0xa7f051b975f0f918 + 0x1_0000_0000_0000_0000int * (0x534834655163ed44 + 0x1_0000_0000_0000_0000int * (0x65bd80dd843314dd + 0x1_0000_0000_0000_0000int * 0x18ee0d07e1cadf13))), (0xbedd2cfc21c3ed91 + 0x1_0000_0000_0000_0000int * (0x498a9022a412b5e0 + 0x1_0000_0000_0000_0000int * (0x82149139979369fe + 0x1_0000_0000_0000_0000int * 0x55df5d5850f47bad))));
        assert((0xf4a13945d898c296 + 0x1_0000_0000_0000_0000int * (0x77037d812deb33a0 + 0x1_0000_0000_0000_0000int * (0xf8bce6e563a440f2 + 0x1_0000_0000_0000_0000int * 0x6b17d1f2e12c4247))) * (0xf4a13945d898c296 + 0x1_0000_0000_0000_0000int * (0x77037d812deb33a0 + 0x1_0000_0000_0000_0000int * (0xf8bce6e563a440f2 + 0x1_0000_0000_0000_0000int * 0x6b17d1f2e12c4247))) == (0xffffffffffffffff + 0x1_0000_0000_0000_0000int * (0xffffffff + 0x1_0000_0000_0000_0000int * (0x0 + 0x1_0000_0000_0000_0000int * 0xffffffff00000001))) * (0xcf3d110b7c638fa8 + 0x1_0000_0000_0000_0000int * (0x901d0e9589fc7dbb + 0x1_0000_0000_0000_0000int * (0x42e032c9f9d26319 + 0x1_0000_0000_0000_0000int * 0x2cccebb89adadb2d))) + (0x2ae56c426b3f8c + 0x1_0000_0000_0000_0000int * (0x33b699495d694dd1 + 0x1_0000_0000_0000_0000int * (0x81819a5e0e3690d8 + 0x1_0000_0000_0000_0000int * 0x98f6b84d29bef2b2)))) by (nonlinear_arith);
        lemma_mod_from_quotient((0xf4a13945d898c296 + 0x1_0000_0000_0000_0000int * (0x77037d812deb33a0 + 0x1_0000_0000_0000_0000int * (0xf8bce6e563a440f2 + 0x1_0000_0000_0000_0000int * 0x6b17d1f2e12c4247))) * (0xf4a13945d898c296 + 0x1_0000_0000_0000_0000int * (0x77037d812deb33a0 + 0x1_0000_0000_0000_0000int * (0xf8bce6e563a440f2 + 0x1_0000_0000_0000_0000int * 0x6b17d1f2e12c4247))), (0xffffffffffffffff + 0x1_0000_0000_0000_0000int * (0xffffffff + 0x1_0000_0000_0000_0000int * (0x0 + 0x1_0000_0000_0000_0000int * 0xffffffff00000001))), (0xcf3d110b7c638fa8 + 0x1_0000_0000_0000_0000int * (0x901d0e9589fc7dbb + 0x1_0000_0000_0000_0000int * (0x42e032c9f9d26319 + 0x1_0000_0000_0000_0000int * 0x2cccebb89adadb2d))), (0x2ae56c426b3f8c + 0x1_0000_0000_0000_0000int * (0x33b699495d694dd1 + 0x1_0000_0000_0000_0000int * (0x81819a5e0e3690d8 + 0x1_0000_0000_0000_0000int * 0x98f6b84d29bef2b2))));
        assert((0x2ae56c426b3f8c + 0x1_0000_0000_0000_0000int * (0x33b699495d694dd1 + 0x1_0000_0000_0000_0000int * (0x81819a5e0e3690d8 + 0x1_0000_0000_0000_0000int * 0x98f6b84d29bef2b2))) + (0xfffffffffffffffc + 0x1_0000_0000_0000_0000int * (0xffffffff + 0x1_0000_0000_0000_0000int * (0x0 + 0x1_0000_0000_0000_0000int * 0xffffffff00000001))) == (0xffffffffffffffff + 0x1_0000_0000_0000_0000int * (0xffffffff + 0x1_0000_0000_0000_0000int * (0x0 + 0x1_0000_0000_0000_0000int * 0xffffffff00000001))) * 0x1 + (0x2ae56c426b3f89 + 0x1_0000_0000_0000_0000int * (0x33b699495d694dd1 + 0x1_0000_0000_0000_0000int * (0x81819a5e0e3690d8 + 0x1_0000_0000_0000_0000int * 0x98f6b84d29bef2b2)))) by (nonlinear_arith);
        lemma_mod_from_quotient((0x2ae56c426b3f8c + 0x1_0000_0000_0000_0000int * (0x33b699495d694dd1 + 0x1_0000_0000_0000_0000int * (0x81819a5e0e3690d8 + 0x1_0000_0000_0000_0000int * 0x98f6b84d29bef2b2))) + (0xfffffffffffffffc + 0x1_0000_0000_0000_0000int * (0xffffffff + 0x1_0000_0000_0000_0000int * (0x0 + 0x1_0000_0000_0000_0000int * 0xffffffff00000001))), (0xffffffffffffffff + 0x1_0000_0000_0000_0000int * (0xffffffff + 0x1_0000_0000_0000_0000int * (0x0 + 0x1_0000_0000_0000_0000int * 0xffffffff00000001))), 0x1, (0x2ae56c426b3f89 + 0x1_0000_0000_0000_0000int * (0x33b699495d694dd1 + 0x1_0000_0000_0000_0000int * (0x81819a5e0e3690d8 + 0x1_0000_0000_0000_0000int * 0x98f6b84d29bef2b2))));
        assert((0x2ae56c426b3f89 + 0x1_0000_0000_0000_0000int * (0x33b699495d694dd1 + 0x1_0000_0000_0000_0000int * (0x81819a5e0e3690d8 + 0x1_0000_0000_0000_0000int * 0x98f6b84d29bef2b2))) * (0xf4a13945d898c296 + 0x1_0000_0000_0000_0000int * (0x77037d812deb33a0 + 0x1_0000_0000_0000_0000int * (0xf8bce6e563a440f2 + 0x1_0000_0000_0000_0000int * 0x6b17d1f2e12c4247))) == (0xffffffffffffffff + 0x1_0000_0000_0000_0000int * (0xffffffff + 0x1_0000_0000_0000_0000int * (0x0 + 0x1_0000_0000_0000_0000int * 0xffffffff00000001))) * (0x687eac3779c80ff + 0x1_0000_0000_0000_0000int * (0x73f51fec695acfaf + 0x1_0000_0000_0000_0000int * (0x3bf2ec3b463c2dc8 + 0x1_0000_0000_0000_0000int * 0x3ffd5aa59b9b6c42))) + (0x830ef0bdf9f18d45 + 0x1_0000_0000_0000_0000int * (0xe46d8972d7bf04ea + 0x1_0000_0000_0000_0000int * (0xce28d3e420fae341 + 0x1_0000_0000_0000_0000int * 0xfb19277ea6b9e7c6)))) by (nonlinear_arith);
        lemma_mod_from_quotient((0x2ae56c426b3f89 + 0x1_0000_0000_0000_0000int * (0x33b699495d694dd1 + 0x1_0000_0000_0000_0000int * (0x81819a5e0e3690d8 + 0x1_0000_0000_0000_0000int * 0x98f6b84d29bef2b2))) * (0xf4a13945d898c296 + 0x1_0000_0000_0000_0000int * (0x77037d812deb33a0 + 0x1_0000_0000_0000_0000int * (0xf8bce6e563a440f2 + 0x1_0000_0000_0000_0000int * 0x6b17d1f2e12c4247))), (0xffffffffffffffff + 0x1_0000_0000_0000_0000int * (0xffffffff + 0x1_0000_0000_0000_0000int * (0x0 + 0x1_0000_0000_0000_0000int * 0xffffffff00000001))), (0x687eac3779c80ff + 0x1_0000_0000_0000_0000int * (0x73f51fec695acfaf + 0x1_0000_0000_0000_0000int * (0x3bf2ec3b463c2dc8 + 0x1_0000_0000_0000_0000int * 0x3ffd5aa59b9b6c42))), (0x830ef0bdf9f18d45 + 0x1_0000_0000_0000_0000int * (0xe46d8972d7bf04ea + 0x1_0000_0000_0000_0000int * (0xce28d3e420fae341 + 0x1_0000_0000_0000_0000int * 0xfb19277ea6b9e7c6))));
        assert((0x830ef0bdf9f18d45 + 0x1_0000_0000_0000_0000int * (0xe46d8972d7bf04ea + 0x1_0000_0000_0000_0000int * (0xce28d3e420fae341 + 0x1_0000_0000_0000_0000int * 0xfb19277ea6b9e7c6))) + (0x3bce3c3e27d2604b + 0x1_0000_0000_0000_0000int * (0x651d06b0cc53b0f6 + 0x1_0000_0000_0000_0000int * (0xb3ebbd55769886bc + 0x1_0000_0000_0000_0000int * 0x5ac635d8aa3a93e7))) == (0xffffffffffffffff + 0x1_0000_0000_0000_0000int * (0xffffffff + 0x1_0000_0000_0000_0000int * (0x0 + 0x1_0000_0000_0000_0000int * 0xffffffff00000001))) * 0x1 + (0xbedd2cfc21c3ed91 + 0x1_0000_0000_0000_0000int * (0x498a9022a412b5e0 + 0x1_0000_0000_0000_0000int * (0x82149139979369fe + 0x1_0000_0000_0000_0000int * 0x55df5d5850f47bad)))) by (nonlinear_arith);
        lemma_mod_from_quotient((0x830ef0bdf9f18d45 + 0x1_0000_0000_0000_0000int * (0xe46d8972d7bf04ea + 0x1_0000_0000_0000_0000int * (0xce28d3e420fae341 + 0x1_0000_0000_0000_0000int * 0xfb19277ea6b9e7c6))) + (0x3bce3c3e27d2604b + 0x1_0000_0000_0000_0000int * (0x651d06b0cc53b0f6 + 0x1_0000_0000_0000_0000int * (0xb3ebbd55769886bc + 0x1_0000_0000_0000_0000int * 0x5ac635d8aa3a93e7))), (0xffffffffffffffff + 0x1_0000_0000_0000_0000int * (0xffffffff + 0x1_0000_0000_0000_0000int * (0x0 + 0x1_0000_0000_0000_0000int * 0xffffffff00000001))), 0x1, (0xbedd2cfc21c3ed91 + 0x1_0000_0000_0000_0000int * (0x498a9022a412b5e0 + 0x1_0000_0000_0000_0000int * (0x82149139979369fe + 0x1_0000_0000_0000_0000int * 0x55df5d5850f47bad))));
    }
    lemma_on_curve_decoded(c, encode(c, gx_p256()), encode(c, gy_p256()));
    lemma_decode_encode(c, gx_p256());
    lemma_decode_encode(c, gy_p256());
    {
        assert((0xcbb6406837bf51f6 + 0x1_0000_0000_0000_0000int * (0x2bce33576b315ece + 0x1_0000_0000_0000_0000int * (0x8ee7eb4a7c0f9e16 + 0x1_0000_0000_0000_0000int * 0x4fe342e2fe1a7f9b))) * (0xcbb6406837bf51f6 + 0x1_0000_0000_0000_0000int * (0x2bce33576b315ece + 0x1_0000_0000_0000_0000int * (0x8ee7eb4a7c0f9e16 + 0x1_0000_0000_0000_0000int * 0x4fe342e2fe1a7f9b))) == (0xffffffffffffffff + 0x1_0000_0000_0000_0000int * (0xffffffff + 0x1_0000_0000_0000_0000int * (0x0 + 0x1_0000_0000_0000_0000int * 0xffffffff00000001))) * (0xa7f051b975f0f918 + 0x1_0000_0000_0000_0000int * (0x534834655163ed44 + 0x1_0000_0000_0000_0000int * (0x65bd80dd843314dd + 0x1_0000_0000_0000_0000int * 0x18ee0d07e1cadf13))) + (0x5649adcc9142917c + 0x1_0000_0000_0000_0000int * (0xa126f6d17a75737e + 0x1_0000_0000_0000_0000int * (0x9fe467ce8fb2a62a + 0x1_0000_0000_0000_0000int * 0xf5a5e31e4d297ae4)))) by (nonlinear_arith);
        lemma_mod_from_quotient((0xcbb6406837bf51f6 + 0x1_0000_0000_0000_0000int * (0x2bce33576b315ece + 0x1_0000_0000_0000_0000int * (0x8ee7eb4a7c0f9e16 + 0x1_0000_0000_0000_0000int * 0x4fe342e2fe1a7f9b))) * (0xcbb6406837bf51f6 + 0x1_0000_0000_0000_0000int * (0x2bce33576b315ece + 0x1_0000_0000_0000_0000int * (0x8ee7eb4a7c0f9e16 + 0x1_0000_0000_0000_0000int * 0x4fe342e2fe1a7f9b))), (0xffffffffffffffff + 0x1_0000_0000_0000_0000int * (0xffffffff + 0x1_0000_0000_0000_0000int * (0x0 + 0x1_0000_0000_0000_0000int * 0xffffffff00000001))), (0xa7f051b975f0f918 + 0x1_0000_0000_0000_0000int * (0x534834655163ed44 + 0x1_0000_0000_0000_0000int * (0x65bd80dd843314dd + 0x1_0000_0000_0000_0000int * 0x18ee0d07e1cadf13))), (0x5649adcc9142917c + 0x1_0000_0000_0000_0000int * (0xa126f6d17a75737e + 0x1_0000_0000_0000_0000int * (0x9fe467ce8fb2a62a + 0x1_0000_0000_0000_0000int * 0xf5a5e31e4d297ae4))));
        assert((0xf4a13945d898c296 + 0x1_0000_0000_0000_0000int * (0x77037d812deb33a0 + 0x1_0000_0000_0000_0000int * (0xf8bce6e563a440f2 + 0x1_0000_0000_0000_0000int * 0x6b17d1f2e12c4247))) * (0xf4a13945d898c296 + 0x1_0000_0000_0000_0000int * (0x77037d812deb33a0 + 0x1_0000_0000_0000_0000int * (0xf8bce6e563a440f2 + 0x1_0000_0000_0000_0000int * 0x6b17d1f2e12c4247))) == (0xffffffffffffffff + 0x1_0000_0000_0000_0000int * (0xffffffff + 0x1_0000_0000_0000_0000int * (0x0 + 0x1_0000_0000_0000_0000int * 0xffffffff00000001))) * (0xcf3d110b7c638fa8 + 0x1_0000_0000_0000_0000int * (0x901d0e9589fc7dbb + 0x1_0000_0000_0000_0000int * (0x42e032c9f9d26319 + 0x1_0000_0000_0000_0000int * 0x2cccebb89adadb2d))) + (0x2ae56c426b3f8c + 0x1_0000_0000_0000_0000int * (0x33b699495d694dd1 + 0x1_0000_0000_0000_0000int * (0x81819a5e0e3690d8 + 0x1_0000_0000_0000_0000int * 0x98f6b84d29bef2b2)))) by (nonlinear_arith);
        lemma_mod_from_quotient((0xf4a13945d898c296 + 0x1_0000_0000_0000_0000int * (0x77037d812deb33a0 + 0x1_0000_0000_0000_0000int * (0xf8bce6e563a440f2 + 0x1_0000_0000_0000_0000int * 0x6b17d1f2e12c4247))) * (0xf4a13945d898c296 + 0x1_0000_0000_0000_0000int * (0x77037d812deb33a0 + 0x1_0000_0000_0000_0000int * (0xf8bce6e563a440f2 + 0x1_0000_0000_0000_0000int * 0x6b17d1f2e12c4247))), (0xffffffffffffffff + 0x1_0000_0000_0000_0000int * (0xffffffff + 0x1_0000_0000_0000_0000int * (0x0 + 0x1_0000_0000_0000_0000int * 0xffffffff00000001))), (0xcf3d110b7c638fa8 + 0x1_0000_0000_0000_0000int * (0x901d0e9589fc7dbb + 0x1_0000_0000_0000_0000int * (0x42e032c9f9d26319 + 0x1_0000_0000_0000_0000int * 0x2cccebb89adadb2d))), (0x2ae56c426b3f8c + 0x1_0000_0000_0000_0000int * (0x33b699495d694dd1 + 0x1_0000_0000_0000_0000int * (0x81819a5e0e3690d8 + 0x1_0000_0000_0000_0000int * 0x98f6b84d29bef2b2))));
        assert((0x2ae56c426b3f8c + 0x1_0000_0000_0000_0000int * (0x33b699495d694dd1 + 0x1_0000_0000_0000_0000int * (0x81819a5e0e3690d8 + 0x1_0000_0000_0000_0000int * 0x98f6b84d29bef2b2))) + (0xfffffffffffffffc + 0x1_0000_0000_0000_0000int * (0xffffffff + 0x1_0000_0000_0000_0000int * (0x0 + 0x1_0000_0000_0000_0000int * 0xffffffff00000001))) == (0xffffffffffffffff + 0x1_0000_0000_0000_0000int * (0xffffffff + 0x1_0000_0000_0000_0000int * (0x0 + 0x1_0000_0000_0000_0000int * 0xffffffff00000001))) * 0x1 + (0x2ae56c426b3f89 + 0x1_0000_0000_0000_0000int * (0x33b699495d694dd1 + 0x1_0000_0000_0000_0000int * (0x81819a5e0e3690d8 + 0x1_0000_0000_0000_0000int * 0x98f6b84d29bef2b2)))) by (nonlinear_arith);
        lemma_mod_from_quotient((0x2ae56c426b3f8c + 0x1_0000_0000_0000_0000int * (0x33b699495d694dd1 + 0x1_0000_0000_0000_0000int * (0x81819a5e0e3690d8 + 0x1_0000_0000_0000_0000int * 0x98f6b84d29bef2b2))) + (0xfffffffffffffffc + 0x1_0000_0000_0000_0000int * (0xffffffff + 0x1_0000_0000_0000_0000int * (0x0 + 0x1_0000_0000_0000_0000int * 0xffffffff00000001))), (0xffffffffffffffff + 0x1_0000_0000_0000_0000int * (0xffffffff + 0x1_0000_0000_0000_0000int * (0x0 + 0x1_0000_0000_0000_0000int * 0xffffffff00000001))), 0x1, (0x2ae56c426b3f89 + 0x1_0000_0000_0000_0000int * (0x33b699495d694dd1 + 0x1_0000_0000_0000_0000int * (0x81819a5e0e3690d8 + 0x1_0000_0000_0000_0000int * 0x98f6b84d29bef2b2))));
        assert((0x2ae56c426b3f89 + 0x1_0000_0000_0000_0000int * (0x33b699495d694dd1 + 0x1_0000_0000_0000_0000int * (0x81819a5e0e3690d8 + 0x1_0000_0000_0000_0000int * 0x98f6b84d29bef2b2))) * (0xf4a13945d898c296 + 0x1_0000_0000_0000_0000int * (0x77037d812deb33a0 + 0x1_0000_0000_0000_0000int * (0xf8bce6e563a440f2 + 0x1_0000_0000_0000_0000int * 0x6b17d1f2e12c4247))) == (0xffffffffffffffff + 0x1_0000_0000_0000_0000int * (0xffffffff + 0x1_0000_0000_0000_0000int * (0x0 + 0x1_0000_0000_0000_0000int * 0xffffffff00000001))) * (0x687eac3779c80ff + 0x1_0000_0000_0000_0000int * (0x73f51fec695acfaf + 0x1_0000_0000_0000_0000int * (0x3bf2ec3b463c2dc8 + 0x1_0000_0000_0000_0000int * 0x3ffd5aa59b9b6c42))) + (0x830ef0bdf9f18d45 + 0x1_0000_0000_0000_0000int * (0xe46d8972d7bf04ea + 0x1_0000_0000_0000_0000int * (0xce28d3e420fae341 + 0x1_0000_0000_0000_0000int * 0xfb19277ea6b9e7c6)))) by (nonlinear_arith);
        lemma_mod_from_quotient((0x2ae56c426b3f89 + 0x1_0000_0000_0000_0000int * (0x33b699495d694dd1 + 0x1_0000_0000_0000_0000int * (0x81819a5e0e3690d8 + 0x1_0000_0000_0000_0000int * 0x98f6b84d29bef2b2))) * (0xf4a13945d898c296 + 0x1_0000_0000_0000_0000int * (0x77037d812deb33a0 + 0x1_0000_0000_0000_0000int * (0xf8bce6e563a440f2 + 0x1_0000_0000_0000_0000int * 0x6b17d1f2e12c4247))), (0xffffffffffffffff + 0x1_0000_0000_0000_0000int * (0xffffffff + 0x1_0000_0000_0000_0000int * (0x0 + 0x1_0000_0000_0000_0000int * 0xffffffff00000001))), (0x687eac3779c80ff + 0x1_0000_0000_0000_0000int * (0x73f51fec695acfaf + 0x1_0000_0000_0000_0000int * (0x3bf2ec3b463c2dc8 + 0x1_0000_0000_0000_0000int * 0x3ffd5aa59b9b6c42))), (0x830ef0bdf9f18d45 + 0x1_0000_0000_0000_0000int * (0xe46d8972d7bf04ea + 0x1_0000_0000_0000_0000int * (0xce28d3e420fae341 + 0x1_0000_0000_0000_0000int * 0xfb19277ea6b9e7c6))));
        assert((0x830ef0bdf9f18d45 + 0x1_0000_0000_0000_0000int * (0xe46d8972d7bf04ea + 0x1_0000_0000_0000_0000int * (0xce28d3e420fae341 + 0x1_0000_0000_0000_0000int * 0xfb19277ea6b9e7c6))) + (0x3bce3c3e27d2604b + 0x1_0000_0000_0000_0000int * (0x651d06b0cc53b0f6 + 0x1_0000_0000_0000_0000int * (0xb3ebbd55769886bc + 0x1_0000_0000_0000_0000int * 0x5ac635d8aa3a93e7))) == (0xffffffffffffffff + 0x1_0000_0000_0000_0000int * (0xffffffff + 0x1_0000_0000_0000_0000int * (0x0 + 0x1_0000_0000_0000_0000int * 0xffffffff00000001))) * 0x1 + (0xbedd2cfc21c3ed91 + 0x1_0000_0000_0000_0000int * (0x498a9022a412b5e0 + 0x1_0000_0000_0000_0000int * (0x82149139979369fe + 0x1_0000_0000_0000_0000int * 0x55df5d5850f47bad)))) by (nonlinear_arith);
        lemma_mod_from_quotient((0x830ef0bdf9f18d45 + 0x1_0000_0000_0000_0000int * (0xe46d8972d7bf04ea + 0x1_0000_0000_0000_0000int * (0xce28d3e420fae341 + 0x1_0000_0000_0000_0000int * 0xfb19277ea6b9e7c6))) + (0x3bce3c3e27d2604b + 0x1_0000_0000_0000_0000int * (0x651d06b0cc53b0f6 + 0x1_0000_0000_0000_0000int * (0xb3ebbd55769886bc + 0x1_0000_0000_0000_0000int * 0x5ac635d8aa3a93e7))), (0xffffffffffffffff + 0x1_0000_0000_0000_0000int * (0xffffffff + 0x1_0000_0000_0000_0000int * (0x0 + 0x1_0000_0000_0000_0000int * 0xffffffff00000001))), 0x1, (0xbedd2cfc21c3ed91 + 0x1_0000_0000_0000_0000int * (0x498a9022a412b5e0 + 0x1_0000_0000_0000_0000int * (0x82149139979369fe + 0x1_0000_0000_0000_0000int * 0x55df5d5850f47bad))));
    }
    lemma_on_curve_decoded(c, encode(c, gx_p256()), encode(c, (gy_p256() + 1) as nat));
    lemma_decode_encode(c, (gy_p256() + 1) as nat);
    {
        assert((0xcbb6406837bf51f5 + 0x1_0000_0000_0000_0000int * (0x2bce33576b315ece + 0x1_0000_0000_0000_0000int * (0x8ee7eb4a7c0f9e16 + 0x1_0000_0000_0000_0000int * 0x4fe342e2fe1a7f9b))) * (0xcbb6406837bf51f5 + 0x1_0000_0000_0000_0000int * (0x2bce33576b315ece + 0x1_0000_0000_0000_0000int * (0x8ee7eb4a7c0f9e16 + 0x1_0000_0000_0000_0000int * 0x4fe342e2fe1a7f9b))) == (0xffffffffffffffff + 0x1_0000_0000_0000_0000int * (0xffffffff + 0x1_0000_0000_0000_0000int * (0x0 + 0x1_0000_0000_0000_0000int * 0xffffffff00000001))) * (0xa7f051b975f0f918 + 0x1_0000_0000_0000_0000int * (0x534834655163ed44 + 0x1_0000_0000_0000_0000int * (0x65bd80dd843314dd + 0x1_0000_0000_0000_0000int * 0x18ee0d07e1cadf13))) + (0xbedd2cfc21c3ed91 + 0x1_0000_0000_0000_0000int * (0x498a9022a412b5e0 + 0x1_0000_0000_0000_0000int * (0x82149139979369fe + 0x1_0000_0000_0000_0000int * 0x55df5d5850f47bad)))) by (nonlinear_arith);
        lemma_mod_from_quotient((0xcbb6406837bf51f5 + 0x1_0000_0000_0000_0000int * (0x2bce33576b315ece + 0x1_0000_0000_0000_0000int * (0x8ee7eb4a7c0f9e16 + 0x1_0000_0000_0000_0000int * 0x4fe342e2fe1a7f9b))) * (0xcbb6406837bf51f5 + 0x1_0000_0000_0000_0000int * (0x2bce33576b315ece + 0x1_0000_0000_0000_0000int * (0x8ee7eb4a7c0f9e16 + 0x1_0000_0000_0000_0000int * 0x4fe342e2fe1a7f9b))), (0xffffffffffffffff + 0x1_0000_0000_0000_0000int * (0xffffffff + 0x1_0000_0000_0000_0000int * (0x0 + 0x1_0000_0000_0000_0000int * 0xffffffff00000001))), (0xa7f051b975f0f918 + 0x1_0000_0000_0000_0000int * (0x534834655163ed44 + 0x1_0000_0000_0000_0000int * (0x65bd80dd843314dd + 0x1_0000_0000_0000_0000int * 0x18ee0d07e1cadf13))), (0xbedd2cfc21c3ed91 + 0x1_0000_0000_0000_0000int * (0x498a9022a412b5e0 + 0x1_0000_0000_0000_0000int * (0x82149139979369fe + 0x1_0000_0000_0000_0000int * 0x55df5d5850f47bad))));
        assert((0xf4a13945d898c297 + 0x1_0000_0000_0000_0000int * (0x77037d812deb33a0 + 0x1_0000_0000_0000_0000int * (0xf8bce6e563a440f2 + 0x1_0000_0000_0000_0000int * 0x6b17d1f2e12c4247))) * (0xf4a13945d898c297 + 0x1_0000_0000_0000_0000int * (0x77037d812deb33a0 + 0x1_0000_0000_0000_0000int * (0xf8bce6e563a440f2 + 0x1_0000_0000_0000_0000int * 0x6b17d1f2e12c4247))) == (0xffffffffffffffff + 0x1_0000_0000_0000_0000int * (0xffffffff + 0x1_0000_0000_0000_0000int * (0x0 + 0x1_0000_0000_0000_0000int * 0xffffffff00000001))) * (0xcf3d110b7c638fa9 + 0x1_0000_0000_0000_0000int * (0x901d0e9589fc7dbb + 0x1_0000_0000_0000_0000int * (0x42e032c9f9d26319 + 0x1_0000_0000_0000_0000int * 0x2cccebb89adadb2d))) + (0xe96d57f7f39cc4ba + 0x1_0000_0000_0000_0000int * (0x21bd944ab93fb512 + 0x1_0000_0000_0000_0000int * (0x72fb6828d57f12bd + 0x1_0000_0000_0000_0000int * 0x6f265c33ec177741)))) by (nonlinear_arith);
        lemma_mod_from_quotient((0xf4a13945d898c297 + 0x1_0000_0000_0000_0000int * (0x77037d812deb33a0 + 0x1_0000_0000_0000_0000int * (0xf8bce6e563a440f2 + 0x1_0000_0000_0000_0000int * 0x6b17d1f2e12c4247))) * (0xf4a13945d898c297 + 0x1_0000_0000_0000_0000int * (0x77037d812deb33a0 + 0x1_0000_0000_0000_0000int * (0xf8bce6e563a440f2 + 0x1_0000_0000_0000_0000int * 0x6b17d1f2e12c4247))), (0xffffffffffffffff + 0x1_0000_0000_0000_0000int * (0xffffffff + 0x1_0000_0000_0000_0000int * (0x0 + 0x1_0000_0000_0000_0000int * 0xffffffff00000001))), (0xcf3d110b7c638fa9 + 0x1_0000_0000_0000_0000int * (0x901d0e9589fc7dbb + 0x1_0000_0000_0000_0000int * (0x42e032c9f9d26319 + 0x1_0000_0000_0000_0000int * 0x2cccebb89adadb2d))), (0xe96d57f7f39cc4ba + 0x1_0000_0000_0000_0000int * (0x21bd944ab93fb512 + 0x1_0000_0000_0000_0000int * (0x72fb6828d57f12bd + 0x1_0000_0000_0000_0000int * 0x6f265c33ec177741))));
        assert((0xe96d57f7f39cc4ba + 0x1_0000_0000_0000_0000int * (0x21bd944ab93fb512 + 0x1_0000_0000_0000_0000int * (0x72fb6828d57f12bd + 0x1_0000_0000_0000_0000int * 0x6f265c33ec177741))) + (0xfffffffffffffffc + 0x1_0000_0000_0000_0000int * (0xffffffff + 0x1_0000_0000_0000_0000int * (0x0 + 0x1_0000_0000_0000_0000int * 0xffffffff00000001))) == (0xffffffffffffffff + 0x1_0000_0000_0000_0000int * (0xffffffff + 0x1_0000_0000_0000_0000int * (0x0 + 0x1_0000_0000_0000_0000int * 0xffffffff00000001))) * 0x1 + (0xe96d57f7f39cc4b7 + 0x1_0000_0000_0000_0000int * (0x21bd944ab93fb512 + 0x1_0000_0000_0000_0000int * (0x72fb6828d57f12bd + 0x1_0000_0000_0000_0000int * 0x6f265c33ec177741)))) by (nonlinear_arith);
        lemma_mod_from_quotient((0xe96d57f7f39cc4ba + 0x1_0000_0000_0000_0000int * (0x21bd944ab93fb512 + 0x1_0000_0000_0000_0000int * (0x72fb6828d57f12bd + 0x1_0000_0000_0000_0000int * 0x6f265c33ec177741))) + (0xfffffffffffffffc + 0x1_0000_0000_0000_0000int * (0xffffffff + 0x1_0000_0000_0000_0000int * (0x0 + 0x1_0000_0000_0000_0000int * 0xffffffff00000001))), (0xffffffffffffffff + 0x1_0000_0000_0000_0000int * (0xffffffff + 0x1_0000_0000_0000_0000int * (0x0 + 0x1_0000_0000_0000_0000int * 0xffffffff00000001))), 0x1, (0xe96d57f7f39cc4b7 + 0x1_0000_0000_0000_0000int * (0x21bd944ab93fb512 + 0x1_0000_0000_0000_0000int * (0x72fb6828d57f12bd + 0x1_0000_0000_0000_0000int * 0x6f265c33ec177741))));
        assert((0xe96d57f7f39cc4b7 + 0x1_0000_0000_0000_0000int * (0x21bd944ab93fb512 + 0x1_0000_0000_0000_0000int * (0x72fb6828d57f12bd + 0x1_0000_0000_0000_0000int * 0x6f265c33ec177741))) * (0xf4a13945d898c297 + 0x1_0000_0000_0000_0000int * (0x77037d812deb33a0 + 0x1_0000_0000_0000_0000int * (0xf8bce6e563a440f2 + 0x1_0000_0000_0000_0000int * 0x6b17d1f2e12c4247))) == (0xffffffffffffffff + 0x1_0000_0000_0000_0000int * (0xffffffff + 0x1_0000_0000_0000_0000int * (0x0 + 0x1_0000_0000_0000_0000int * 0xffffffff00000001))) * (0xb060d39497caddbc + 0x1_0000_0000_0000_0000int * (0x1d2bbf964f689785 + 0x1_0000_0000_0000_0000int * (0xc8f66ae9d63cb309 + 0x1_0000_0000_0000_0000int * 0x2e7f6023f024e054))) + (0x61734cd44afd93ad + 0x1_0000_0000_0000_0000int * (0xe49bcdce79bc8940 + 0x1_0000_0000_0000_0000int * (0x3ce457ae768b58a1 + 0x1_0000_0000_0000_0000int * 0x744c642c77b86b2)))) by (nonlinear_arith);
        lemma_mod_from_quotient((0xe96d57f7f39cc4b7 + 0x1_0000_0000_0000_0000int * (0x21bd944ab93fb512 + 0x1_0000_0000_0000_0000int * (0x72fb6828d57f12bd + 0x1_0000_0000_0000_0000int * 0x6f265c33ec177741))) * (0xf4a13945d898c297 + 0x1_0000_0000_0000_0000int * (0x77037d812deb33a0 + 0x1_0000_0000_0000_0000int * (0xf8bce6e563a440f2 + 0x1_0000_0000_0000_0000int * 0x6b17d1f2e12c4247))), (0xffffffffffffffff + 0x1_0000_0000_0000_0000int * (0xffffffff + 0x1_0000_0000_0000_0000int * (0x0 + 0x1_0000_0000_0000_0000int * 0xffffffff00000001))), (0xb060d39497caddbc + 0x1_0000_0000_0000_0000int * (0x1d2bbf964f689785 + 0x1_0000_0000_0000_0000int * (0xc8f66ae9d63cb309 + 0x1_0000_0000_0000_0000int * 0x2e7f6023f024e054))), (0x61734cd44afd93ad + 0x1_0000_0000_0000_0000int * (0xe49bcdce79bc8940 + 0x1_0000_0000_0000_0000int * (0x3ce457ae768b58a1 + 0x1_0000_0000_0000_0000int * 0x744c642c77b86b2))));
        assert((0x61734cd44afd93ad + 0x1_0000_0000_0000_0000int * (0xe49bcdce79bc8940 + 0x1_0000_0000_0000_0000int * (0x3ce457ae768b58a1 + 0x1_0000_0000_0000_0000int * 0x744c642c77b86b2))) + (0x3bce3c3e27d2604b + 0x1_0000_0000_0000_0000int * (0x651d06b0cc53b0f6 + 0x1_0000_0000_0000_0000int * (0xb3ebbd55769886bc + 0x1_0000_0000_0000_0000int * 0x5ac635d8aa3a93e7))) == (0xffffffffffffffff + 0x1_0000_0000_0000_0000int * (0xffffffff + 0x1_0000_0000_0000_0000int * (0x0 + 0x1_0000_0000_0000_0000int * 0xffffffff00000001))) * 0x0 + (0x9d41891272cff3f8 + 0x1_0000_0000_0000_0000int * (0x49b8d47f46103a36 + 0x1_0000_0000_0000_0000int * (0xf0d01503ed23df5e + 0x1_0000_0000_0000_0000int * 0x620afc1b71b61a99)))) by (nonlinear_arith);
        lemma_mod_from_quotient((0x61734cd44afd93ad + 0x1_0000_0000_0000_0000int * (0xe49bcdce79bc8940 + 0x1_0000_0000_0000_0000int * (0x3ce457ae768b58a1 + 0x1_0000_0000_0000_0000int * 0x744c642c77b86b2))) + (0x3bce3c3e27d2604b + 0x1_0000_0000_0000_0000int * (0x651d06b0cc53b0f6 + 0x1_0000_0000_0000_0000int * (0xb3ebbd55769886bc + 0x1_0000_0000_0000_0000int * 0x5ac635d8aa3a93e7))), (0xffffffffffffffff + 0x1_0000_0000_0000_0000int * (0xffffffff + 0x1_0000_0000_0000_0000int * (0x0 + 0x1_0000_0000_0000_0000int * 0xffffffff00000001))), 0x0, (0x9d41891272cff3f8 + 0x1_0000_0000_0000_0000int * (0x49b8d47f46103a36 + 0x1_0000_0000_0000_0000int * (0xf0d01503ed23df5e + 0x1_0000_0000_0000_0000int * 0x620afc1b71b61a99))));
    }
    lemma_on_curve_decoded(c, encode(c, (gx_p256() + 1) as nat), encode(c, gy_p256()));
    lemma_decode_encode(c, (gx_p256() + 1) as nat);
}

/// The generator held in a P-384 private-key table passes the on-curve
/// check.
pub proof fn law_p384_table_generator_on_curve(ops: PrivateKeyOps)
    requires
        ops.wf(),
        is_p384_table(ops.common),
        has_p384_generator(ops),
    ensures
        on_curve(ops.common, ops.generator.0.val(6), ops.generator.1.val(6)),
{
    let c = ops.common;
    lemma_encode_decode(c, ops.generator.0.val(6));
    lemma_encode_decode(c, ops.generator.1.val(6));
    law_p384_generator_on_curve(c);
}

/// The generator held in a P-256 private-key table passes the on-curve
/// check.
pub proof fn law_p256_table_generator_on_curve(ops: PrivateKeyOps)
    requires
        ops.wf(),
        is_p256_table(ops.common),
        has_p256_generator(ops),
    ensures
        on_curve(ops.common, ops.generator.0.val(4), ops.generator.1.val(4)),
{
    let c = ops.common;
    lemma_encode_decode(c, ops.generator.0.val(4));
    lemma_encode_decode(c, ops.generator.1.val(4));
    law_p256_generator_on_curve(c);
}

} // verus!
