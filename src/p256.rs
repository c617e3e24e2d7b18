//! The curve P-256: its constants, its addition chains and its operation
//! tables.

use vstd::prelude::*;
use crate::arith::{is_mont_rinv, lemma_limbs_val_mod_base, lemma_mod_from_quotient, mont_n0_ok};
use crate::limb::{Limb, base_pow, limb_base, limbs_val};
use crate::ops::{
    CommonOps, Elem, Mont, PrivateKeyOps, PublicKeyOps, PublicScalarOps, Q, R, RR, Scalar,
    ScalarOps, Unencoded, elem_sqr_mul, elem_sqr_mul_acc, lemma_chain_step, lemma_fe_mul_decode,
    lemma_mont_chain_step, lemma_mont_decode_encoded, lemma_mont_decode_mul, lemma_pow2_values,
    lemma_pow_mod_mul,
    lemma_to_mont_decode, scalar_sqr_mul_acc,
};
use vstd::arithmetic::div_mod::lemma_small_mod;
use vstd::arithmetic::power::{lemma_pow1, pow};
use vstd::arithmetic::power2::{lemma2_to64, lemma2_to64_rest};

verus! {

/// The field modulus, `2^256 - 2^224 + 2^192 + 2^96 - 1`.
pub open spec fn q_p256() -> nat {
    val4(0xffffffffffffffff, 0xffffffff, 0x0, 0xffffffff00000001) as nat
}

/// The group order.
pub open spec fn n_p256() -> nat {
    val4(0xf3b9cac2fc632551, 0xbce6faada7179e84, 0xffffffffffffffff, 0xffffffff00000000) as nat
}

/// The value of four limbs, least significant first.
pub open spec fn val4(l0: int, l1: int, l2: int, l3: int) -> int {
    let b: int = 0x1_0000_0000_0000_0000;
    l0 + b * (l1 + b * (l2 + b * l3))
}

pub proof fn lemma_val4(l: Seq<Limb>)
    requires
        l.len() == 4,
    ensures
        limbs_val(l) == val4(l[0] as int, l[1] as int, l[2] as int, l[3] as int),
{
    lemma_limbs_val_mod_base(l);
    lemma_limbs_val_mod_base(l.skip(1));
    lemma_limbs_val_mod_base(l.skip(2));
    lemma_limbs_val_mod_base(l.skip(3));
    assert(l.skip(1).skip(1) =~= l.skip(2));
    assert(l.skip(2).skip(1) =~= l.skip(3));
    assert(l.skip(3).skip(1) =~= Seq::<Limb>::empty());
    assert(limbs_val(Seq::<Limb>::empty()) == 0);
}

fn q_mont() -> (r: Mont)
    ensures
        r.wf(4),
        r.modulus(4) == q_p256(),
{
    let r = Mont {
        p: [
            0xffffffffffffffff,
            0x00000000ffffffff,
            0x0000000000000000,
            0xffffffff00000001,
            0x0000000000000000,
            0x0000000000000000,
        ],
        rr: [
            0x0000000000000003,
            0xfffffffbffffffff,
            0xfffffffffffffffe,
            0x00000004fffffffd,
            0x0000000000000000,
            0x0000000000000000,
        ],
        n0: 0x1,
    };
    proof {
        lemma_val4(r.p@.take(4));
        lemma_val4(r.rr@.take(4));
        assert(base_pow(4) == limb_base() * (limb_base() * (limb_base() * limb_base()))) by {
            reveal_with_fuel(base_pow, 5);
        }
        assert(q_p256() == (0xffffffffffffffff + 0x1_0000_0000_0000_0000int * (0xffffffff + 0x1_0000_0000_0000_0000int * (0x0 + 0x1_0000_0000_0000_0000int * 0xffffffff00000001))));
        assert((0x1_0000_0000_0000_0000int*0x1_0000_0000_0000_0000int*0x1_0000_0000_0000_0000int*0x1_0000_0000_0000_0000int) * (0x300000000 + 0x1_0000_0000_0000_0000int * (0x1fffffffe + 0x1_0000_0000_0000_0000int * (0xfffffffd00000002 + 0x1_0000_0000_0000_0000int * 0xfffffffe00000003))) == (0xffffffffffffffff + 0x1_0000_0000_0000_0000int * (0xffffffff + 0x1_0000_0000_0000_0000int * (0x0 + 0x1_0000_0000_0000_0000int * 0xffffffff00000001))) * (0x1 + 0x1_0000_0000_0000_0000int * (0x100000000 + 0x1_0000_0000_0000_0000int * (0x0 + 0x1_0000_0000_0000_0000int * 0xffffffff00000002))) + 1) by (nonlinear_arith);
        lemma_mod_from_quotient((0x1_0000_0000_0000_0000int*0x1_0000_0000_0000_0000int*0x1_0000_0000_0000_0000int*0x1_0000_0000_0000_0000int) * (0x300000000 + 0x1_0000_0000_0000_0000int * (0x1fffffffe + 0x1_0000_0000_0000_0000int * (0xfffffffd00000002 + 0x1_0000_0000_0000_0000int * 0xfffffffe00000003))), (0xffffffffffffffff + 0x1_0000_0000_0000_0000int * (0xffffffff + 0x1_0000_0000_0000_0000int * (0x0 + 0x1_0000_0000_0000_0000int * 0xffffffff00000001))), (0x1 + 0x1_0000_0000_0000_0000int * (0x100000000 + 0x1_0000_0000_0000_0000int * (0x0 + 0x1_0000_0000_0000_0000int * 0xffffffff00000002))), 1);
        assert(is_mont_rinv(q_p256(), 4, (0x300000000 + 0x1_0000_0000_0000_0000int * (0x1fffffffe + 0x1_0000_0000_0000_0000int * (0xfffffffd00000002 + 0x1_0000_0000_0000_0000int * 0xfffffffe00000003))) as nat));
        assert((0x1_0000_0000_0000_0000int*0x1_0000_0000_0000_0000int*0x1_0000_0000_0000_0000int*0x1_0000_0000_0000_0000int) * (0x1_0000_0000_0000_0000int*0x1_0000_0000_0000_0000int*0x1_0000_0000_0000_0000int*0x1_0000_0000_0000_0000int) == (0xffffffffffffffff + 0x1_0000_0000_0000_0000int * (0xffffffff + 0x1_0000_0000_0000_0000int * (0x0 + 0x1_0000_0000_0000_0000int * 0xffffffff00000001))) * (0x3 + 0x1_0000_0000_0000_0000int * (0xfffffffeffffffff + 0x1_0000_0000_0000_0000int * (0xfffffffefffffffe + 0x1_0000_0000_0000_0000int * (0xffffffff + 0x1_0000_0000_0000_0000int * 0x1)))) + (0x3 + 0x1_0000_0000_0000_0000int * (0xfffffffbffffffff + 0x1_0000_0000_0000_0000int * (0xfffffffffffffffe + 0x1_0000_0000_0000_0000int * 0x4fffffffd)))) by (nonlinear_arith);
        lemma_mod_from_quotient((0x1_0000_0000_0000_0000int*0x1_0000_0000_0000_0000int*0x1_0000_0000_0000_0000int*0x1_0000_0000_0000_0000int) * (0x1_0000_0000_0000_0000int*0x1_0000_0000_0000_0000int*0x1_0000_0000_0000_0000int*0x1_0000_0000_0000_0000int), (0xffffffffffffffff + 0x1_0000_0000_0000_0000int * (0xffffffff + 0x1_0000_0000_0000_0000int * (0x0 + 0x1_0000_0000_0000_0000int * 0xffffffff00000001))), (0x3 + 0x1_0000_0000_0000_0000int * (0xfffffffeffffffff + 0x1_0000_0000_0000_0000int * (0xfffffffefffffffe + 0x1_0000_0000_0000_0000int * (0xffffffff + 0x1_0000_0000_0000_0000int * 0x1)))), (0x3 + 0x1_0000_0000_0000_0000int * (0xfffffffbffffffff + 0x1_0000_0000_0000_0000int * (0xfffffffffffffffe + 0x1_0000_0000_0000_0000int * 0x4fffffffd))));
        assert(0xffffffffffffffffint * 0x1int == 0x1_0000_0000_0000_0000int * 0x0int + (0x1_0000_0000_0000_0000int - 1)) by (nonlinear_arith);
        lemma_mod_from_quotient(0xffffffffffffffffint * 0x1int, 0x1_0000_0000_0000_0000int, 0x0int, 0x1_0000_0000_0000_0000int - 1);
        assert(r.p@.take(4)[0] == r.p@[0]);
        assert(mont_n0_ok(r.p@.take(4), r.n0));
        assert(r.modulus(4) == q_p256());
        assert(r.modulus(4) > 1);
        assert(exists|rinv: nat| is_mont_rinv(r.modulus(4), 4, rinv));
        assert(limbs_val(r.rr@.take(4)) == (base_pow(4) * base_pow(4)) % r.modulus(4));
    }
    r
}


fn n_mont() -> (r: Mont)
    ensures
        r.wf(4),
        r.modulus(4) == n_p256(),
{
    let r = Mont {
        p: [
            0xf3b9cac2fc632551,
            0xbce6faada7179e84,
            0xffffffffffffffff,
            0xffffffff00000000,
            0x0000000000000000,
            0x0000000000000000,
        ],
        rr: [
            0x83244c95be79eea2,
            0x4699799c49bd6fa6,
            0x2845b2392b6bec59,
            0x66e12d94f3d95620,
            0x0000000000000000,
            0x0000000000000000,
        ],
        n0: 0xccd1c8aaee00bc4f,
    };
    proof {
        lemma_val4(r.p@.take(4));
        lemma_val4(r.rr@.take(4));
        assert(base_pow(4) == limb_base() * (limb_base() * (limb_base() * limb_base()))) by {
            reveal_with_fuel(base_pow, 5);
        }
        assert(n_p256() == (0xf3b9cac2fc632551 + 0x1_0000_0000_0000_0000int * (0xbce6faada7179e84 + 0x1_0000_0000_0000_0000int * (0xffffffffffffffff + 0x1_0000_0000_0000_0000int * 0xffffffff00000000))));
        assert((0x1_0000_0000_0000_0000int*0x1_0000_0000_0000_0000int*0x1_0000_0000_0000_0000int*0x1_0000_0000_0000_0000int) * (0xce1bc8f79c197c79 + 0x1_0000_0000_0000_0000int * (0xbadef3e243566faf + 0x1_0000_0000_0000_0000int * (0x7f8b6041e607725 + 0x1_0000_0000_0000_0000int * 0x60d066334905c1e9))) == (0xf3b9cac2fc632551 + 0x1_0000_0000_0000_0000int * (0xbce6faada7179e84 + 0x1_0000_0000_0000_0000int * (0xffffffffffffffff + 0x1_0000_0000_0000_0000int * 0xffffffff00000000))) * (0xccd1c8aaee00bc4f + 0x1_0000_0000_0000_0000int * (0x48c944087d74d2e4 + 0x1_0000_0000_0000_0000int * (0x50fe77ecc588c6f6 + 0x1_0000_0000_0000_0000int * 0x60d06633a9d6281c))) + 1) by (nonlinear_arith);
        lemma_mod_from_quotient((0x1_0000_0000_0000_0000int*0x1_0000_0000_0000_0000int*0x1_0000_0000_0000_0000int*0x1_0000_0000_0000_0000int) * (0xce1bc8f79c197c79 + 0x1_0000_0000_0000_0000int * (0xbadef3e243566faf + 0x1_0000_0000_0000_0000int * (0x7f8b6041e607725 + 0x1_0000_0000_0000_0000int * 0x60d066334905c1e9))), (0xf3b9cac2fc632551 + 0x1_0000_0000_0000_0000int * (0xbce6faada7179e84 + 0x1_0000_0000_0000_0000int * (0xffffffffffffffff + 0x1_0000_0000_0000_0000int * 0xffffffff00000000))), (0xccd1c8aaee00bc4f + 0x1_0000_0000_0000_0000int * (0x48c944087d74d2e4 + 0x1_0000_0000_0000_0000int * (0x50fe77ecc588c6f6 + 0x1_0000_0000_0000_0000int * 0x60d06633a9d6281c))), 1);
        assert(is_mont_rinv(n_p256(), 4, (0xce1bc8f79c197c79 + 0x1_0000_0000_0000_0000int * (0xbadef3e243566faf + 0x1_0000_0000_0000_0000int * (0x7f8b6041e607725 + 0x1_0000_0000_0000_0000int * 0x60d066334905c1e9))) as nat));
        assert((0x1_0000_0000_0000_0000int*0x1_0000_0000_0000_0000int*0x1_0000_0000_0000_0000int*0x1_0000_0000_0000_0000int) * (0x1_0000_0000_0000_0000int*0x1_0000_0000_0000_0000int*0x1_0000_0000_0000_0000int*0x1_0000_0000_0000_0000int) == (0xf3b9cac2fc632551 + 0x1_0000_0000_0000_0000int * (0xbce6faada7179e84 + 0x1_0000_0000_0000_0000int * (0xffffffffffffffff + 0x1_0000_0000_0000_0000int * 0xffffffff00000000))) * (0x12ffd85eedf9bfe + 0x1_0000_0000_0000_0000int * (0x43190552df1a6c21 + 0x1_0000_0000_0000_0000int * (0xfffffffeffffffff + 0x1_0000_0000_0000_0000int * (0xffffffff + 0x1_0000_0000_0000_0000int * 0x1)))) + (0x83244c95be79eea2 + 0x1_0000_0000_0000_0000int * (0x4699799c49bd6fa6 + 0x1_0000_0000_0000_0000int * (0x2845b2392b6bec59 + 0x1_0000_0000_0000_0000int * 0x66e12d94f3d95620)))) by (nonlinear_arith);
        lemma_mod_from_quotient((0x1_0000_0000_0000_0000int*0x1_0000_0000_0000_0000int*0x1_0000_0000_0000_0000int*0x1_0000_0000_0000_0000int) * (0x1_0000_0000_0000_0000int*0x1_0000_0000_0000_0000int*0x1_0000_0000_0000_0000int*0x1_0000_0000_0000_0000int), (0xf3b9cac2fc632551 + 0x1_0000_0000_0000_0000int * (0xbce6faada7179e84 + 0x1_0000_0000_0000_0000int * (0xffffffffffffffff + 0x1_0000_0000_0000_0000int * 0xffffffff00000000))), (0x12ffd85eedf9bfe + 0x1_0000_0000_0000_0000int * (0x43190552df1a6c21 + 0x1_0000_0000_0000_0000int * (0xfffffffeffffffff + 0x1_0000_0000_0000_0000int * (0xffffffff + 0x1_0000_0000_0000_0000int * 0x1)))), (0x83244c95be79eea2 + 0x1_0000_0000_0000_0000int * (0x4699799c49bd6fa6 + 0x1_0000_0000_0000_0000int * (0x2845b2392b6bec59 + 0x1_0000_0000_0000_0000int * 0x66e12d94f3d95620))));
        assert(0xf3b9cac2fc632551int * 0xccd1c8aaee00bc4fint == 0x1_0000_0000_0000_0000int * 0xc2ffc74dccaf771fint + (0x1_0000_0000_0000_0000int - 1)) by (nonlinear_arith);
        lemma_mod_from_quotient(0xf3b9cac2fc632551int * 0xccd1c8aaee00bc4fint, 0x1_0000_0000_0000_0000int, 0xc2ffc74dccaf771fint, 0x1_0000_0000_0000_0000int - 1);
        assert(r.p@.take(4)[0] == r.p@[0]);
        assert(mont_n0_ok(r.p@.take(4), r.n0));
        assert(r.modulus(4) == n_p256());
        assert(r.modulus(4) > 1);
        assert(exists|rinv: nat| is_mont_rinv(r.modulus(4), 4, rinv));
        assert(limbs_val(r.rr@.take(4)) == (base_pow(4) * base_pow(4)) % r.modulus(4));
    }
    r
}


/// Returns `a^-2` in the field, as `a^(q - 3)` by a fixed addition chain:
/// the same squarings and multiplications whatever `a` is. The exponent is
/// `ffffffff00000001000000000000000000000000fffffffffffffffffffffffc`.
#[verifier::spinoff_prover]
pub fn p256_elem_inv_squared(ops: &CommonOps, a: &Elem<Q, R>) -> (r: Elem<Q, R>)
    requires
        ops.wf(),
        ops.q_val() == q_p256(),
        ops.reduced(a),
    ensures
        ops.reduced(&r),
        ops.decode(r.val(ops.nl())) as int == pow(ops.decode(a.val(ops.nl())) as int, (q_p256() - 3) as nat)
            % (ops.q_val() as int),
{
    let ghost x = ops.decode(a.val(ops.nl())) as int;
    proof {
        lemma2_to64();
        lemma2_to64_rest();
        lemma_pow2_values();
        lemma_pow1(x);
        lemma_small_mod(x as nat, ops.q_val());
    }
    let b_11 = elem_sqr_mul(ops, a, 1, a);
    proof {
        assert(0x1 * 0x2 + 0x1 == 0x3) by (nonlinear_arith);
        lemma_chain_step(ops, x, a.val(ops.nl()), a.val(ops.nl()), b_11.val(ops.nl()), 0x1, 1, 0x1, 0x2, 0x3);
    }
    let b_111 = elem_sqr_mul(ops, &b_11, 1, a);
    proof {
        assert(0x3 * 0x2 + 0x1 == 0x7) by (nonlinear_arith);
        lemma_chain_step(ops, x, b_11.val(ops.nl()), a.val(ops.nl()), b_111.val(ops.nl()), 0x3, 1, 0x1, 0x2, 0x7);
    }
    let f_11 = elem_sqr_mul(ops, &b_111, 3, &b_111);
    proof {
        assert(0x7 * 0x8 + 0x7 == 0x3f) by (nonlinear_arith);
        lemma_chain_step(ops, x, b_111.val(ops.nl()), b_111.val(ops.nl()), f_11.val(ops.nl()), 0x7, 3, 0x7, 0x8, 0x3f);
    }
    let fff = elem_sqr_mul(ops, &f_11, 6, &f_11);
    proof {
        assert(0x3f * 0x40 + 0x3f == 0xfff) by (nonlinear_arith);
        lemma_chain_step(ops, x, f_11.val(ops.nl()), f_11.val(ops.nl()), fff.val(ops.nl()), 0x3f, 6, 0x3f, 0x40, 0xfff);
    }
    let fff_111 = elem_sqr_mul(ops, &fff, 3, &b_111);
    proof {
        assert(0xfff * 0x8 + 0x7 == 0x7fff) by (nonlinear_arith);
        lemma_chain_step(ops, x, fff.val(ops.nl()), b_111.val(ops.nl()), fff_111.val(ops.nl()), 0xfff, 3, 0x7, 0x8, 0x7fff);
    }
    let fffffff_11 = elem_sqr_mul(ops, &fff_111, 15, &fff_111);
    proof {
        assert(0x7fff * 0x8000 + 0x7fff == 0x3fffffff) by (nonlinear_arith);
        lemma_chain_step(ops, x, fff_111.val(ops.nl()), fff_111.val(ops.nl()), fffffff_11.val(ops.nl()), 0x7fff, 15, 0x7fff, 0x8000, 0x3fffffff);
    }
    let ffffffff = elem_sqr_mul(ops, &fffffff_11, 2, &b_11);
    proof {
        assert(0x3fffffff * 0x4 + 0x3 == 0xffffffff) by (nonlinear_arith);
        lemma_chain_step(ops, x, fffffff_11.val(ops.nl()), b_11.val(ops.nl()), ffffffff.val(ops.nl()), 0x3fffffff, 2, 0x3, 0x4, 0xffffffff);
    }
    let mut acc = elem_sqr_mul(ops, &ffffffff, 32, a);
    proof {
        assert(0xffffffff * 0x100000000 + 0x1 == 0xffffffff00000001) by (nonlinear_arith);
        lemma_chain_step(ops, x, ffffffff.val(ops.nl()), a.val(ops.nl()), acc.val(ops.nl()), 0xffffffff, 32, 0x1, 0x100000000, 0xffffffff00000001);
    }
    let ghost old_acc = acc.val(ops.nl());
    elem_sqr_mul_acc(ops, &mut acc, 128, &ffffffff);
    proof {
        assert(0xffffffff00000001 * (0x0 + 0x1_0000_0000_0000_0000 * (0x0 + 0x1_0000_0000_0000_0000 * 0x1)) + 0xffffffff == (0xffffffff + 0x1_0000_0000_0000_0000 * (0x0 + 0x1_0000_0000_0000_0000 * 0xffffffff00000001))) by (nonlinear_arith);
        lemma_chain_step(ops, x, old_acc, ffffffff.val(ops.nl()), acc.val(ops.nl()), 0xffffffff00000001, 128, 0xffffffff, (0x0 + 0x1_0000_0000_0000_0000 * (0x0 + 0x1_0000_0000_0000_0000 * 0x1)), (0xffffffff + 0x1_0000_0000_0000_0000 * (0x0 + 0x1_0000_0000_0000_0000 * 0xffffffff00000001)));
    }
    let ghost old_acc = acc.val(ops.nl());
    elem_sqr_mul_acc(ops, &mut acc, 32, &ffffffff);
    proof {
        assert((0xffffffff + 0x1_0000_0000_0000_0000 * (0x0 + 0x1_0000_0000_0000_0000 * 0xffffffff00000001)) * 0x100000000 + 0xffffffff == (0xffffffffffffffff + 0x1_0000_0000_0000_0000 * (0x0 + 0x1_0000_0000_0000_0000 * (0x100000000 + 0x1_0000_0000_0000_0000 * 0xffffffff)))) by (nonlinear_arith);
        lemma_chain_step(ops, x, old_acc, ffffffff.val(ops.nl()), acc.val(ops.nl()), (0xffffffff + 0x1_0000_0000_0000_0000 * (0x0 + 0x1_0000_0000_0000_0000 * 0xffffffff00000001)), 32, 0xffffffff, 0x100000000, (0xffffffffffffffff + 0x1_0000_0000_0000_0000 * (0x0 + 0x1_0000_0000_0000_0000 * (0x100000000 + 0x1_0000_0000_0000_0000 * 0xffffffff))));
    }
    let ghost old_acc = acc.val(ops.nl());
    elem_sqr_mul_acc(ops, &mut acc, 30, &fffffff_11);
    proof {
        assert((0xffffffffffffffff + 0x1_0000_0000_0000_0000 * (0x0 + 0x1_0000_0000_0000_0000 * (0x100000000 + 0x1_0000_0000_0000_0000 * 0xffffffff))) * 0x40000000 + 0x3fffffff == (0xffffffffffffffff + 0x1_0000_0000_0000_0000 * (0x3fffffff + 0x1_0000_0000_0000_0000 * (0x4000000000000000 + 0x1_0000_0000_0000_0000 * 0x3fffffffc0000000)))) by (nonlinear_arith);
        lemma_chain_step(ops, x, old_acc, fffffff_11.val(ops.nl()), acc.val(ops.nl()), (0xffffffffffffffff + 0x1_0000_0000_0000_0000 * (0x0 + 0x1_0000_0000_0000_0000 * (0x100000000 + 0x1_0000_0000_0000_0000 * 0xffffffff))), 30, 0x3fffffff, 0x40000000, (0xffffffffffffffff + 0x1_0000_0000_0000_0000 * (0x3fffffff + 0x1_0000_0000_0000_0000 * (0x4000000000000000 + 0x1_0000_0000_0000_0000 * 0x3fffffffc0000000))));
    }
    let ghost e0 = acc.val(ops.nl());
    ops.elem_square(&mut acc);
    proof {
        lemma_fe_mul_decode(ops, e0, e0);
        lemma_pow_mod_mul(x, (0xffffffffffffffff + 0x1_0000_0000_0000_0000 * (0x3fffffff + 0x1_0000_0000_0000_0000 * (0x4000000000000000 + 0x1_0000_0000_0000_0000 * 0x3fffffffc0000000))), (0xffffffffffffffff + 0x1_0000_0000_0000_0000 * (0x3fffffff + 0x1_0000_0000_0000_0000 * (0x4000000000000000 + 0x1_0000_0000_0000_0000 * 0x3fffffffc0000000))), ops.q_val() as int);
    }
    let ghost e1 = acc.val(ops.nl());
    ops.elem_square(&mut acc);
    proof {
        lemma_fe_mul_decode(ops, e1, e1);
        lemma_pow_mod_mul(x, (0xfffffffffffffffe + 0x1_0000_0000_0000_0000 * (0x7fffffff + 0x1_0000_0000_0000_0000 * (0x8000000000000000 + 0x1_0000_0000_0000_0000 * 0x7fffffff80000000))), (0xfffffffffffffffe + 0x1_0000_0000_0000_0000 * (0x7fffffff + 0x1_0000_0000_0000_0000 * (0x8000000000000000 + 0x1_0000_0000_0000_0000 * 0x7fffffff80000000))), ops.q_val() as int);
        assert((0xffffffffffffffff + 0x1_0000_0000_0000_0000 * (0x3fffffff + 0x1_0000_0000_0000_0000 * (0x4000000000000000 + 0x1_0000_0000_0000_0000 * 0x3fffffffc0000000))) + (0xffffffffffffffff + 0x1_0000_0000_0000_0000 * (0x3fffffff + 0x1_0000_0000_0000_0000 * (0x4000000000000000 + 0x1_0000_0000_0000_0000 * 0x3fffffffc0000000))) == (0xfffffffffffffffe + 0x1_0000_0000_0000_0000 * (0x7fffffff + 0x1_0000_0000_0000_0000 * (0x8000000000000000 + 0x1_0000_0000_0000_0000 * 0x7fffffff80000000))));
        assert((0xfffffffffffffffe + 0x1_0000_0000_0000_0000 * (0x7fffffff + 0x1_0000_0000_0000_0000 * (0x8000000000000000 + 0x1_0000_0000_0000_0000 * 0x7fffffff80000000))) + (0xfffffffffffffffe + 0x1_0000_0000_0000_0000 * (0x7fffffff + 0x1_0000_0000_0000_0000 * (0x8000000000000000 + 0x1_0000_0000_0000_0000 * 0x7fffffff80000000))) == (0xfffffffffffffffc + 0x1_0000_0000_0000_0000 * (0xffffffff + 0x1_0000_0000_0000_0000 * (0x0 + 0x1_0000_0000_0000_0000 * 0xffffffff00000001))));
        assert(q_p256() == (0xffffffffffffffff + 0x1_0000_0000_0000_0000 * (0xffffffff + 0x1_0000_0000_0000_0000 * (0x0 + 0x1_0000_0000_0000_0000 * 0xffffffff00000001))));
    }
    acc
}


/// Returns the inverse of the scalar `a` in Montgomery form, as `a^(n - 2)`
/// by a fixed addition chain: the digits `a^1, a^3, ..., a^15` first, then
/// the exponent in windows of at most four bits, each ending in a one.
#[verifier::spinoff_prover]
pub fn p256_scalar_inv_to_mont(ops: &ScalarOps, a: &Scalar<Unencoded>) -> (r: Scalar<R>)
    requires
        ops.wf(),
        ops.n_val() == n_p256(),
        a.val(ops.common.nl()) < ops.n_val(),
    ensures
        r.val(ops.common.nl()) < ops.n_val(),
        ops.decode(r.val(ops.common.nl())) as int == pow(a.val(ops.common.nl()) as int, (n_p256() - 2) as nat)
            % (ops.n_val() as int),
{
    let ghost x = a.val(ops.common.nl()) as int;
    let ghost nl = ops.common.nl();
    let n_rr: Scalar<RR> = Elem::from_limbs(ops.n_mont.rr);
    let d_1: Scalar<R> = ops.scalar_product(a, &n_rr);
    proof {
        lemma2_to64();
        lemma2_to64_rest();
        lemma_pow2_values();
        lemma_to_mont_decode(&ops.n_mont, nl, a.val(nl));
        lemma_pow1(x);
        lemma_small_mod(x as nat, ops.n_val());
    }
    let b_10 = ops.scalar_product(&d_1, &d_1);
    proof {
        lemma_mont_decode_mul(&ops.n_mont, nl, d_1.val(nl), d_1.val(nl));
        lemma_pow_mod_mul(x, 1, 1, ops.n_val() as int);
    }
    let d_11 = ops.scalar_product(&d_1, &b_10);
    proof {
        lemma_mont_decode_mul(&ops.n_mont, nl, d_1.val(nl), b_10.val(nl));
        lemma_pow_mod_mul(x, 1, 2, ops.n_val() as int);
    }
    let d_101 = ops.scalar_product(&d_11, &b_10);
    proof {
        lemma_mont_decode_mul(&ops.n_mont, nl, d_11.val(nl), b_10.val(nl));
        lemma_pow_mod_mul(x, 3, 2, ops.n_val() as int);
    }
    let d_111 = ops.scalar_product(&d_101, &b_10);
    proof {
        lemma_mont_decode_mul(&ops.n_mont, nl, d_101.val(nl), b_10.val(nl));
        lemma_pow_mod_mul(x, 5, 2, ops.n_val() as int);
    }
    let d_1001 = ops.scalar_product(&d_111, &b_10);
    proof {
        lemma_mont_decode_mul(&ops.n_mont, nl, d_111.val(nl), b_10.val(nl));
        lemma_pow_mod_mul(x, 7, 2, ops.n_val() as int);
    }
    let d_1011 = ops.scalar_product(&d_1001, &b_10);
    proof {
        lemma_mont_decode_mul(&ops.n_mont, nl, d_1001.val(nl), b_10.val(nl));
        lemma_pow_mod_mul(x, 9, 2, ops.n_val() as int);
    }
    let d_1101 = ops.scalar_product(&d_1011, &b_10);
    proof {
        lemma_mont_decode_mul(&ops.n_mont, nl, d_1011.val(nl), b_10.val(nl));
        lemma_pow_mod_mul(x, 11, 2, ops.n_val() as int);
    }
    let d_1111 = ops.scalar_product(&d_1101, &b_10);
    proof {
        lemma_mont_decode_mul(&ops.n_mont, nl, d_1101.val(nl), b_10.val(nl));
        lemma_pow_mod_mul(x, 13, 2, ops.n_val() as int);
    }
    let mut acc = d_1111;
    let ghost old_acc = acc.val(nl);
    scalar_sqr_mul_acc(ops, &mut acc, 4, &d_1111);
    proof {
        assert(0xf * 0x10 + 0xf == 0xff) by (nonlinear_arith);
        lemma_mont_chain_step(&ops.n_mont, nl, x, old_acc, d_1111.val(nl), acc.val(nl), 0xf, 4, 0xf, 0x10, 0xff);
    }
    let ghost old_acc = acc.val(nl);
    scalar_sqr_mul_acc(ops, &mut acc, 4, &d_1111);
    proof {
        assert(0xff * 0x10 + 0xf == 0xfff) by (nonlinear_arith);
        lemma_mont_chain_step(&ops.n_mont, nl, x, old_acc, d_1111.val(nl), acc.val(nl), 0xff, 4, 0xf, 0x10, 0xfff);
    }
    let ghost old_acc = acc.val(nl);
    scalar_sqr_mul_acc(ops, &mut acc, 4, &d_1111);
    proof {
        assert(0xfff * 0x10 + 0xf == 0xffff) by (nonlinear_arith);
        lemma_mont_chain_step(&ops.n_mont, nl, x, old_acc, d_1111.val(nl), acc.val(nl), 0xfff, 4, 0xf, 0x10, 0xffff);
    }
    let ghost old_acc = acc.val(nl);
    scalar_sqr_mul_acc(ops, &mut acc, 4, &d_1111);
    proof {
        assert(0xffff * 0x10 + 0xf == 0xfffff) by (nonlinear_arith);
        lemma_mont_chain_step(&ops.n_mont, nl, x, old_acc, d_1111.val(nl), acc.val(nl), 0xffff, 4, 0xf, 0x10, 0xfffff);
    }
    let ghost old_acc = acc.val(nl);
    scalar_sqr_mul_acc(ops, &mut acc, 4, &d_1111);
    proof {
        assert(0xfffff * 0x10 + 0xf == 0xffffff) by (nonlinear_arith);
        lemma_mont_chain_step(&ops.n_mont, nl, x, old_acc, d_1111.val(nl), acc.val(nl), 0xfffff, 4, 0xf, 0x10, 0xffffff);
    }
    let ghost old_acc = acc.val(nl);
    scalar_sqr_mul_acc(ops, &mut acc, 4, &d_1111);
    proof {
        assert(0xffffff * 0x10 + 0xf == 0xfffffff) by (nonlinear_arith);
        lemma_mont_chain_step(&ops.n_mont, nl, x, old_acc, d_1111.val(nl), acc.val(nl), 0xffffff, 4, 0xf, 0x10, 0xfffffff);
    }
    let ghost old_acc = acc.val(nl);
    scalar_sqr_mul_acc(ops, &mut acc, 4, &d_1111);
    proof {
        assert(0xfffffff * 0x10 + 0xf == 0xffffffff) by (nonlinear_arith);
        lemma_mont_chain_step(&ops.n_mont, nl, x, old_acc, d_1111.val(nl), acc.val(nl), 0xfffffff, 4, 0xf, 0x10, 0xffffffff);
    }
    let ghost old_acc = acc.val(nl);
    scalar_sqr_mul_acc(ops, &mut acc, 36, &d_1111);
    proof {
        assert(0xffffffff * 0x1000000000 + 0xf == 0xffffffff00000000f) by (nonlinear_arith);
        lemma_mont_chain_step(&ops.n_mont, nl, x, old_acc, d_1111.val(nl), acc.val(nl), 0xffffffff, 36, 0xf, 0x1000000000, 0xffffffff00000000f);
    }
    let ghost old_acc = acc.val(nl);
    scalar_sqr_mul_acc(ops, &mut acc, 4, &d_1111);
    proof {
        assert(0xffffffff00000000f * 0x10 + 0xf == 0xffffffff00000000ff) by (nonlinear_arith);
        lemma_mont_chain_step(&ops.n_mont, nl, x, old_acc, d_1111.val(nl), acc.val(nl), 0xffffffff00000000f, 4, 0xf, 0x10, 0xffffffff00000000ff);
    }
    let ghost old_acc = acc.val(nl);
    scalar_sqr_mul_acc(ops, &mut acc, 4, &d_1111);
    proof {
        assert(0xffffffff00000000ff * 0x10 + 0xf == 0xffffffff00000000fff) by (nonlinear_arith);
        lemma_mont_chain_step(&ops.n_mont, nl, x, old_acc, d_1111.val(nl), acc.val(nl), 0xffffffff00000000ff, 4, 0xf, 0x10, 0xffffffff00000000fff);
    }
    let ghost old_acc = acc.val(nl);
    scalar_sqr_mul_acc(ops, &mut acc, 4, &d_1111);
    proof {
        assert(0xffffffff00000000fff * 0x10 + 0xf == 0xffffffff00000000ffff) by (nonlinear_arith);
        lemma_mont_chain_step(&ops.n_mont, nl, x, old_acc, d_1111.val(nl), acc.val(nl), 0xffffffff00000000fff, 4, 0xf, 0x10, 0xffffffff00000000ffff);
    }
    let ghost old_acc = acc.val(nl);
    scalar_sqr_mul_acc(ops, &mut acc, 4, &d_1111);
    proof {
        assert(0xffffffff00000000ffff * 0x10 + 0xf == 0xffffffff00000000fffff) by (nonlinear_arith);
        lemma_mont_chain_step(&ops.n_mont, nl, x, old_acc, d_1111.val(nl), acc.val(nl), 0xffffffff00000000ffff, 4, 0xf, 0x10, 0xffffffff00000000fffff);
    }
    let ghost old_acc = acc.val(nl);
    scalar_sqr_mul_acc(ops, &mut acc, 4, &d_1111);
    proof {
        assert(0xffffffff00000000fffff * 0x10 + 0xf == 0xffffffff00000000ffffff) by (nonlinear_arith);
        lemma_mont_chain_step(&ops.n_mont, nl, x, old_acc, d_1111.val(nl), acc.val(nl), 0xffffffff00000000fffff, 4, 0xf, 0x10, 0xffffffff00000000ffffff);
    }
    let ghost old_acc = acc.val(nl);
    scalar_sqr_mul_acc(ops, &mut acc, 4, &d_1111);
    proof {
        assert(0xffffffff00000000ffffff * 0x10 + 0xf == 0xffffffff00000000fffffff) by (nonlinear_arith);
        lemma_mont_chain_step(&ops.n_mont, nl, x, old_acc, d_1111.val(nl), acc.val(nl), 0xffffffff00000000ffffff, 4, 0xf, 0x10, 0xffffffff00000000fffffff);
    }
    let ghost old_acc = acc.val(nl);
    scalar_sqr_mul_acc(ops, &mut acc, 4, &d_1111);
    proof {
        assert(0xffffffff00000000fffffff * 0x10 + 0xf == 0xffffffff00000000ffffffff) by (nonlinear_arith);
        lemma_mont_chain_step(&ops.n_mont, nl, x, old_acc, d_1111.val(nl), acc.val(nl), 0xffffffff00000000fffffff, 4, 0xf, 0x10, 0xffffffff00000000ffffffff);
    }
    let ghost old_acc = acc.val(nl);
    scalar_sqr_mul_acc(ops, &mut acc, 4, &d_1111);
    proof {
        assert(0xffffffff00000000ffffffff * 0x10 + 0xf == 0xffffffff00000000fffffffff) by (nonlinear_arith);
        lemma_mont_chain_step(&ops.n_mont, nl, x, old_acc, d_1111.val(nl), acc.val(nl), 0xffffffff00000000ffffffff, 4, 0xf, 0x10, 0xffffffff00000000fffffffff);
    }
    let ghost old_acc = acc.val(nl);
    scalar_sqr_mul_acc(ops, &mut acc, 4, &d_1111);
    proof {
        assert(0xffffffff00000000fffffffff * 0x10 + 0xf == 0xffffffff00000000ffffffffff) by (nonlinear_arith);
        lemma_mont_chain_step(&ops.n_mont, nl, x, old_acc, d_1111.val(nl), acc.val(nl), 0xffffffff00000000fffffffff, 4, 0xf, 0x10, 0xffffffff00000000ffffffffff);
    }
    let ghost old_acc = acc.val(nl);
    scalar_sqr_mul_acc(ops, &mut acc, 4, &d_1111);
    proof {
        assert(0xffffffff00000000ffffffffff * 0x10 + 0xf == 0xffffffff00000000fffffffffff) by (nonlinear_arith);
        lemma_mont_chain_step(&ops.n_mont, nl, x, old_acc, d_1111.val(nl), acc.val(nl), 0xffffffff00000000ffffffffff, 4, 0xf, 0x10, 0xffffffff00000000fffffffffff);
    }
    let ghost old_acc = acc.val(nl);
    scalar_sqr_mul_acc(ops, &mut acc, 4, &d_1111);
    proof {
        assert(0xffffffff00000000fffffffffff * 0x10 + 0xf == 0xffffffff00000000ffffffffffff) by (nonlinear_arith);
        lemma_mont_chain_step(&ops.n_mont, nl, x, old_acc, d_1111.val(nl), acc.val(nl), 0xffffffff00000000fffffffffff, 4, 0xf, 0x10, 0xffffffff00000000ffffffffffff);
    }
    let ghost old_acc = acc.val(nl);
    scalar_sqr_mul_acc(ops, &mut acc, 4, &d_1111);
    proof {
        assert(0xffffffff00000000ffffffffffff * 0x10 + 0xf == 0xffffffff00000000fffffffffffff) by (nonlinear_arith);
        lemma_mont_chain_step(&ops.n_mont, nl, x, old_acc, d_1111.val(nl), acc.val(nl), 0xffffffff00000000ffffffffffff, 4, 0xf, 0x10, 0xffffffff00000000fffffffffffff);
    }
    let ghost old_acc = acc.val(nl);
    scalar_sqr_mul_acc(ops, &mut acc, 4, &d_1111);
    proof {
        assert(0xffffffff00000000fffffffffffff * 0x10 + 0xf == 0xffffffff00000000ffffffffffffff) by (nonlinear_arith);
        lemma_mont_chain_step(&ops.n_mont, nl, x, old_acc, d_1111.val(nl), acc.val(nl), 0xffffffff00000000fffffffffffff, 4, 0xf, 0x10, 0xffffffff00000000ffffffffffffff);
    }
    let ghost old_acc = acc.val(nl);
    scalar_sqr_mul_acc(ops, &mut acc, 4, &d_1111);
    proof {
        assert(0xffffffff00000000ffffffffffffff * 0x10 + 0xf == 0xffffffff00000000fffffffffffffff) by (nonlinear_arith);
        lemma_mont_chain_step(&ops.n_mont, nl, x, old_acc, d_1111.val(nl), acc.val(nl), 0xffffffff00000000ffffffffffffff, 4, 0xf, 0x10, 0xffffffff00000000fffffffffffffff);
    }
    let ghost old_acc = acc.val(nl);
    scalar_sqr_mul_acc(ops, &mut acc, 4, &d_1111);
    proof {
        assert(0xffffffff00000000fffffffffffffff * 0x10 + 0xf == (0xffffffffffffffff + 0x1_0000_0000_0000_0000 * 0xffffffff00000000)) by (nonlinear_arith);
        lemma_mont_chain_step(&ops.n_mont, nl, x, old_acc, d_1111.val(nl), acc.val(nl), 0xffffffff00000000fffffffffffffff, 4, 0xf, 0x10, (0xffffffffffffffff + 0x1_0000_0000_0000_0000 * 0xffffffff00000000));
    }
    let ghost old_acc = acc.val(nl);
    scalar_sqr_mul_acc(ops, &mut acc, 4, &d_1011);
    proof {
        assert((0xffffffffffffffff + 0x1_0000_0000_0000_0000 * 0xffffffff00000000) * 0x10 + 0xb == (0xfffffffffffffffb + 0x1_0000_0000_0000_0000 * (0xfffffff00000000f + 0x1_0000_0000_0000_0000 * 0xf))) by (nonlinear_arith);
        lemma_mont_chain_step(&ops.n_mont, nl, x, old_acc, d_1011.val(nl), acc.val(nl), (0xffffffffffffffff + 0x1_0000_0000_0000_0000 * 0xffffffff00000000), 4, 0xb, 0x10, (0xfffffffffffffffb + 0x1_0000_0000_0000_0000 * (0xfffffff00000000f + 0x1_0000_0000_0000_0000 * 0xf)));
    }
    let ghost old_acc = acc.val(nl);
    scalar_sqr_mul_acc(ops, &mut acc, 2, &d_11);
    proof {
        assert((0xfffffffffffffffb + 0x1_0000_0000_0000_0000 * (0xfffffff00000000f + 0x1_0000_0000_0000_0000 * 0xf)) * 0x4 + 0x3 == (0xffffffffffffffef + 0x1_0000_0000_0000_0000 * (0xffffffc00000003f + 0x1_0000_0000_0000_0000 * 0x3f))) by (nonlinear_arith);
        lemma_mont_chain_step(&ops.n_mont, nl, x, old_acc, d_11.val(nl), acc.val(nl), (0xfffffffffffffffb + 0x1_0000_0000_0000_0000 * (0xfffffff00000000f + 0x1_0000_0000_0000_0000 * 0xf)), 2, 0x3, 0x4, (0xffffffffffffffef + 0x1_0000_0000_0000_0000 * (0xffffffc00000003f + 0x1_0000_0000_0000_0000 * 0x3f)));
    }
    let ghost old_acc = acc.val(nl);
    scalar_sqr_mul_acc(ops, &mut acc, 5, &d_111);
    proof {
        assert((0xffffffffffffffef + 0x1_0000_0000_0000_0000 * (0xffffffc00000003f + 0x1_0000_0000_0000_0000 * 0x3f)) * 0x20 + 0x7 == (0xfffffffffffffde7 + 0x1_0000_0000_0000_0000 * (0xfffff800000007ff + 0x1_0000_0000_0000_0000 * 0x7ff))) by (nonlinear_arith);
        lemma_mont_chain_step(&ops.n_mont, nl, x, old_acc, d_111.val(nl), acc.val(nl), (0xffffffffffffffef + 0x1_0000_0000_0000_0000 * (0xffffffc00000003f + 0x1_0000_0000_0000_0000 * 0x3f)), 5, 0x7, 0x20, (0xfffffffffffffde7 + 0x1_0000_0000_0000_0000 * (0xfffff800000007ff + 0x1_0000_0000_0000_0000 * 0x7ff)));
    }
    let ghost old_acc = acc.val(nl);
    scalar_sqr_mul_acc(ops, &mut acc, 6, &d_1101);
    proof {
        assert((0xfffffffffffffde7 + 0x1_0000_0000_0000_0000 * (0xfffff800000007ff + 0x1_0000_0000_0000_0000 * 0x7ff)) * 0x40 + 0xd == (0xffffffffffff79cd + 0x1_0000_0000_0000_0000 * (0xfffe00000001ffff + 0x1_0000_0000_0000_0000 * 0x1ffff))) by (nonlinear_arith);
        lemma_mont_chain_step(&ops.n_mont, nl, x, old_acc, d_1101.val(nl), acc.val(nl), (0xfffffffffffffde7 + 0x1_0000_0000_0000_0000 * (0xfffff800000007ff + 0x1_0000_0000_0000_0000 * 0x7ff)), 6, 0xd, 0x40, (0xffffffffffff79cd + 0x1_0000_0000_0000_0000 * (0xfffe00000001ffff + 0x1_0000_0000_0000_0000 * 0x1ffff)));
    }
    let ghost old_acc = acc.val(nl);
    scalar_sqr_mul_acc(ops, &mut acc, 4, &d_1111);
    proof {
        assert((0xffffffffffff79cd + 0x1_0000_0000_0000_0000 * (0xfffe00000001ffff + 0x1_0000_0000_0000_0000 * 0x1ffff)) * 0x10 + 0xf == (0xfffffffffff79cdf + 0x1_0000_0000_0000_0000 * (0xffe00000001fffff + 0x1_0000_0000_0000_0000 * 0x1fffff))) by (nonlinear_arith);
        lemma_mont_chain_step(&ops.n_mont, nl, x, old_acc, d_1111.val(nl), acc.val(nl), (0xffffffffffff79cd + 0x1_0000_0000_0000_0000 * (0xfffe00000001ffff + 0x1_0000_0000_0000_0000 * 0x1ffff)), 4, 0xf, 0x10, (0xfffffffffff79cdf + 0x1_0000_0000_0000_0000 * (0xffe00000001fffff + 0x1_0000_0000_0000_0000 * 0x1fffff)));
    }
    let ghost old_acc = acc.val(nl);
    scalar_sqr_mul_acc(ops, &mut acc, 4, &d_101);
    proof {
        assert((0xfffffffffff79cdf + 0x1_0000_0000_0000_0000 * (0xffe00000001fffff + 0x1_0000_0000_0000_0000 * 0x1fffff)) * 0x10 + 0x5 == (0xffffffffff79cdf5 + 0x1_0000_0000_0000_0000 * (0xfe00000001ffffff + 0x1_0000_0000_0000_0000 * 0x1ffffff))) by (nonlinear_arith);
        lemma_mont_chain_step(&ops.n_mont, nl, x, old_acc, d_101.val(nl), acc.val(nl), (0xfffffffffff79cdf + 0x1_0000_0000_0000_0000 * (0xffe00000001fffff + 0x1_0000_0000_0000_0000 * 0x1fffff)), 4, 0x5, 0x10, (0xffffffffff79cdf5 + 0x1_0000_0000_0000_0000 * (0xfe00000001ffffff + 0x1_0000_0000_0000_0000 * 0x1ffffff)));
    }
    let ghost old_acc = acc.val(nl);
    scalar_sqr_mul_acc(ops, &mut acc, 5, &d_1011);
    proof {
        assert((0xffffffffff79cdf5 + 0x1_0000_0000_0000_0000 * (0xfe00000001ffffff + 0x1_0000_0000_0000_0000 * 0x1ffffff)) * 0x20 + 0xb == (0xffffffffef39beab + 0x1_0000_0000_0000_0000 * (0xc00000003fffffff + 0x1_0000_0000_0000_0000 * 0x3fffffff))) by (nonlinear_arith);
        lemma_mont_chain_step(&ops.n_mont, nl, x, old_acc, d_1011.val(nl), acc.val(nl), (0xffffffffff79cdf5 + 0x1_0000_0000_0000_0000 * (0xfe00000001ffffff + 0x1_0000_0000_0000_0000 * 0x1ffffff)), 5, 0xb, 0x20, (0xffffffffef39beab + 0x1_0000_0000_0000_0000 * (0xc00000003fffffff + 0x1_0000_0000_0000_0000 * 0x3fffffff)));
    }
    let ghost old_acc = acc.val(nl);
    scalar_sqr_mul_acc(ops, &mut acc, 5, &d_1101);
    proof {
        assert((0xffffffffef39beab + 0x1_0000_0000_0000_0000 * (0xc00000003fffffff + 0x1_0000_0000_0000_0000 * 0x3fffffff)) * 0x20 + 0xd == (0xfffffffde737d56d + 0x1_0000_0000_0000_0000 * (0x7ffffffff + 0x1_0000_0000_0000_0000 * 0x7fffffff8))) by (nonlinear_arith);
        lemma_mont_chain_step(&ops.n_mont, nl, x, old_acc, d_1101.val(nl), acc.val(nl), (0xffffffffef39beab + 0x1_0000_0000_0000_0000 * (0xc00000003fffffff + 0x1_0000_0000_0000_0000 * 0x3fffffff)), 5, 0xd, 0x20, (0xfffffffde737d56d + 0x1_0000_0000_0000_0000 * (0x7ffffffff + 0x1_0000_0000_0000_0000 * 0x7fffffff8)));
    }
    let ghost old_acc = acc.val(nl);
    scalar_sqr_mul_acc(ops, &mut acc, 5, &d_111);
    proof {
        assert((0xfffffffde737d56d + 0x1_0000_0000_0000_0000 * (0x7ffffffff + 0x1_0000_0000_0000_0000 * 0x7fffffff8)) * 0x20 + 0x7 == (0xffffffbce6faada7 + 0x1_0000_0000_0000_0000 * (0xffffffffff + 0x1_0000_0000_0000_0000 * 0xffffffff00))) by (nonlinear_arith);
        lemma_mont_chain_step(&ops.n_mont, nl, x, old_acc, d_111.val(nl), acc.val(nl), (0xfffffffde737d56d + 0x1_0000_0000_0000_0000 * (0x7ffffffff + 0x1_0000_0000_0000_0000 * 0x7fffffff8)), 5, 0x7, 0x20, (0xffffffbce6faada7 + 0x1_0000_0000_0000_0000 * (0xffffffffff + 0x1_0000_0000_0000_0000 * 0xffffffff00)));
    }
    let ghost old_acc = acc.val(nl);
    scalar_sqr_mul_acc(ops, &mut acc, 7, &d_1011);
    proof {
        assert((0xffffffbce6faada7 + 0x1_0000_0000_0000_0000 * (0xffffffffff + 0x1_0000_0000_0000_0000 * 0xffffffff00)) * 0x80 + 0xb == (0xffffde737d56d38b + 0x1_0000_0000_0000_0000 * (0x7fffffffffff + 0x1_0000_0000_0000_0000 * 0x7fffffff8000))) by (nonlinear_arith);
        lemma_mont_chain_step(&ops.n_mont, nl, x, old_acc, d_1011.val(nl), acc.val(nl), (0xffffffbce6faada7 + 0x1_0000_0000_0000_0000 * (0xffffffffff + 0x1_0000_0000_0000_0000 * 0xffffffff00)), 7, 0xb, 0x80, (0xffffde737d56d38b + 0x1_0000_0000_0000_0000 * (0x7fffffffffff + 0x1_0000_0000_0000_0000 * 0x7fffffff8000)));
    }
    let ghost old_acc = acc.val(nl);
    scalar_sqr_mul_acc(ops, &mut acc, 2, &d_11);
    proof {
        assert((0xffffde737d56d38b + 0x1_0000_0000_0000_0000 * (0x7fffffffffff + 0x1_0000_0000_0000_0000 * 0x7fffffff8000)) * 0x4 + 0x3 == (0xffff79cdf55b4e2f + 0x1_0000_0000_0000_0000 * (0x1ffffffffffff + 0x1_0000_0000_0000_0000 * 0x1fffffffe0000))) by (nonlinear_arith);
        lemma_mont_chain_step(&ops.n_mont, nl, x, old_acc, d_11.val(nl), acc.val(nl), (0xffffde737d56d38b + 0x1_0000_0000_0000_0000 * (0x7fffffffffff + 0x1_0000_0000_0000_0000 * 0x7fffffff8000)), 2, 0x3, 0x4, (0xffff79cdf55b4e2f + 0x1_0000_0000_0000_0000 * (0x1ffffffffffff + 0x1_0000_0000_0000_0000 * 0x1fffffffe0000)));
    }
    let ghost old_acc = acc.val(nl);
    scalar_sqr_mul_acc(ops, &mut acc, 6, &d_1111);
    proof {
        assert((0xffff79cdf55b4e2f + 0x1_0000_0000_0000_0000 * (0x1ffffffffffff + 0x1_0000_0000_0000_0000 * 0x1fffffffe0000)) * 0x40 + 0xf == (0xffde737d56d38bcf + 0x1_0000_0000_0000_0000 * (0x7fffffffffffff + 0x1_0000_0000_0000_0000 * 0x7fffffff800000))) by (nonlinear_arith);
        lemma_mont_chain_step(&ops.n_mont, nl, x, old_acc, d_1111.val(nl), acc.val(nl), (0xffff79cdf55b4e2f + 0x1_0000_0000_0000_0000 * (0x1ffffffffffff + 0x1_0000_0000_0000_0000 * 0x1fffffffe0000)), 6, 0xf, 0x40, (0xffde737d56d38bcf + 0x1_0000_0000_0000_0000 * (0x7fffffffffffff + 0x1_0000_0000_0000_0000 * 0x7fffffff800000)));
    }
    let ghost old_acc = acc.val(nl);
    scalar_sqr_mul_acc(ops, &mut acc, 2, &d_1);
    proof {
        assert((0xffde737d56d38bcf + 0x1_0000_0000_0000_0000 * (0x7fffffffffffff + 0x1_0000_0000_0000_0000 * 0x7fffffff800000)) * 0x4 + 0x1 == (0xff79cdf55b4e2f3d + 0x1_0000_0000_0000_0000 * (0x1ffffffffffffff + 0x1_0000_0000_0000_0000 * 0x1fffffffe000000))) by (nonlinear_arith);
        lemma_mont_chain_step(&ops.n_mont, nl, x, old_acc, d_1.val(nl), acc.val(nl), (0xffde737d56d38bcf + 0x1_0000_0000_0000_0000 * (0x7fffffffffffff + 0x1_0000_0000_0000_0000 * 0x7fffffff800000)), 2, 0x1, 0x4, (0xff79cdf55b4e2f3d + 0x1_0000_0000_0000_0000 * (0x1ffffffffffffff + 0x1_0000_0000_0000_0000 * 0x1fffffffe000000)));
    }
    let ghost old_acc = acc.val(nl);
    scalar_sqr_mul_acc(ops, &mut acc, 8, &d_1001);
    proof {
        assert((0xff79cdf55b4e2f3d + 0x1_0000_0000_0000_0000 * (0x1ffffffffffffff + 0x1_0000_0000_0000_0000 * 0x1fffffffe000000)) * 0x100 + 0x9 == (0x79cdf55b4e2f3d09 + 0x1_0000_0000_0000_0000 * (0xffffffffffffffff + 0x1_0000_0000_0000_0000 * (0xfffffffe00000001 + 0x1_0000_0000_0000_0000 * 0x1)))) by (nonlinear_arith);
        lemma_mont_chain_step(&ops.n_mont, nl, x, old_acc, d_1001.val(nl), acc.val(nl), (0xff79cdf55b4e2f3d + 0x1_0000_0000_0000_0000 * (0x1ffffffffffffff + 0x1_0000_0000_0000_0000 * 0x1fffffffe000000)), 8, 0x9, 0x100, (0x79cdf55b4e2f3d09 + 0x1_0000_0000_0000_0000 * (0xffffffffffffffff + 0x1_0000_0000_0000_0000 * (0xfffffffe00000001 + 0x1_0000_0000_0000_0000 * 0x1))));
    }
    let ghost old_acc = acc.val(nl);
    scalar_sqr_mul_acc(ops, &mut acc, 3, &d_111);
    proof {
        assert((0x79cdf55b4e2f3d09 + 0x1_0000_0000_0000_0000 * (0xffffffffffffffff + 0x1_0000_0000_0000_0000 * (0xfffffffe00000001 + 0x1_0000_0000_0000_0000 * 0x1))) * 0x8 + 0x7 == (0xce6faada7179e84f + 0x1_0000_0000_0000_0000 * (0xfffffffffffffffb + 0x1_0000_0000_0000_0000 * (0xfffffff00000000f + 0x1_0000_0000_0000_0000 * 0xf)))) by (nonlinear_arith);
        lemma_mont_chain_step(&ops.n_mont, nl, x, old_acc, d_111.val(nl), acc.val(nl), (0x79cdf55b4e2f3d09 + 0x1_0000_0000_0000_0000 * (0xffffffffffffffff + 0x1_0000_0000_0000_0000 * (0xfffffffe00000001 + 0x1_0000_0000_0000_0000 * 0x1))), 3, 0x7, 0x8, (0xce6faada7179e84f + 0x1_0000_0000_0000_0000 * (0xfffffffffffffffb + 0x1_0000_0000_0000_0000 * (0xfffffff00000000f + 0x1_0000_0000_0000_0000 * 0xf))));
    }
    let ghost old_acc = acc.val(nl);
    scalar_sqr_mul_acc(ops, &mut acc, 5, &d_111);
    proof {
        assert((0xce6faada7179e84f + 0x1_0000_0000_0000_0000 * (0xfffffffffffffffb + 0x1_0000_0000_0000_0000 * (0xfffffff00000000f + 0x1_0000_0000_0000_0000 * 0xf))) * 0x20 + 0x7 == (0xcdf55b4e2f3d09e7 + 0x1_0000_0000_0000_0000 * (0xffffffffffffff79 + 0x1_0000_0000_0000_0000 * (0xfffffe00000001ff + 0x1_0000_0000_0000_0000 * 0x1ff)))) by (nonlinear_arith);
        lemma_mont_chain_step(&ops.n_mont, nl, x, old_acc, d_111.val(nl), acc.val(nl), (0xce6faada7179e84f + 0x1_0000_0000_0000_0000 * (0xfffffffffffffffb + 0x1_0000_0000_0000_0000 * (0xfffffff00000000f + 0x1_0000_0000_0000_0000 * 0xf))), 5, 0x7, 0x20, (0xcdf55b4e2f3d09e7 + 0x1_0000_0000_0000_0000 * (0xffffffffffffff79 + 0x1_0000_0000_0000_0000 * (0xfffffe00000001ff + 0x1_0000_0000_0000_0000 * 0x1ff))));
    }
    let ghost old_acc = acc.val(nl);
    scalar_sqr_mul_acc(ops, &mut acc, 4, &d_111);
    proof {
        assert((0xcdf55b4e2f3d09e7 + 0x1_0000_0000_0000_0000 * (0xffffffffffffff79 + 0x1_0000_0000_0000_0000 * (0xfffffe00000001ff + 0x1_0000_0000_0000_0000 * 0x1ff))) * 0x10 + 0x7 == (0xdf55b4e2f3d09e77 + 0x1_0000_0000_0000_0000 * (0xfffffffffffff79c + 0x1_0000_0000_0000_0000 * (0xffffe00000001fff + 0x1_0000_0000_0000_0000 * 0x1fff)))) by (nonlinear_arith);
        lemma_mont_chain_step(&ops.n_mont, nl, x, old_acc, d_111.val(nl), acc.val(nl), (0xcdf55b4e2f3d09e7 + 0x1_0000_0000_0000_0000 * (0xffffffffffffff79 + 0x1_0000_0000_0000_0000 * (0xfffffe00000001ff + 0x1_0000_0000_0000_0000 * 0x1ff))), 4, 0x7, 0x10, (0xdf55b4e2f3d09e77 + 0x1_0000_0000_0000_0000 * (0xfffffffffffff79c + 0x1_0000_0000_0000_0000 * (0xffffe00000001fff + 0x1_0000_0000_0000_0000 * 0x1fff))));
    }
    let ghost old_acc = acc.val(nl);
    scalar_sqr_mul_acc(ops, &mut acc, 5, &d_111);
    proof {
        assert((0xdf55b4e2f3d09e77 + 0x1_0000_0000_0000_0000 * (0xfffffffffffff79c + 0x1_0000_0000_0000_0000 * (0xffffe00000001fff + 0x1_0000_0000_0000_0000 * 0x1fff))) * 0x20 + 0x7 == (0xeab69c5e7a13cee7 + 0x1_0000_0000_0000_0000 * (0xfffffffffffef39b + 0x1_0000_0000_0000_0000 * (0xfffc00000003ffff + 0x1_0000_0000_0000_0000 * 0x3ffff)))) by (nonlinear_arith);
        lemma_mont_chain_step(&ops.n_mont, nl, x, old_acc, d_111.val(nl), acc.val(nl), (0xdf55b4e2f3d09e77 + 0x1_0000_0000_0000_0000 * (0xfffffffffffff79c + 0x1_0000_0000_0000_0000 * (0xffffe00000001fff + 0x1_0000_0000_0000_0000 * 0x1fff))), 5, 0x7, 0x20, (0xeab69c5e7a13cee7 + 0x1_0000_0000_0000_0000 * (0xfffffffffffef39b + 0x1_0000_0000_0000_0000 * (0xfffc00000003ffff + 0x1_0000_0000_0000_0000 * 0x3ffff))));
    }
    let ghost old_acc = acc.val(nl);
    scalar_sqr_mul_acc(ops, &mut acc, 5, &d_101);
    proof {
        assert((0xeab69c5e7a13cee7 + 0x1_0000_0000_0000_0000 * (0xfffffffffffef39b + 0x1_0000_0000_0000_0000 * (0xfffc00000003ffff + 0x1_0000_0000_0000_0000 * 0x3ffff))) * 0x20 + 0x5 == (0x56d38bcf4279dce5 + 0x1_0000_0000_0000_0000 * (0xffffffffffde737d + 0x1_0000_0000_0000_0000 * (0xff800000007fffff + 0x1_0000_0000_0000_0000 * 0x7fffff)))) by (nonlinear_arith);
        lemma_mont_chain_step(&ops.n_mont, nl, x, old_acc, d_101.val(nl), acc.val(nl), (0xeab69c5e7a13cee7 + 0x1_0000_0000_0000_0000 * (0xfffffffffffef39b + 0x1_0000_0000_0000_0000 * (0xfffc00000003ffff + 0x1_0000_0000_0000_0000 * 0x3ffff))), 5, 0x5, 0x20, (0x56d38bcf4279dce5 + 0x1_0000_0000_0000_0000 * (0xffffffffffde737d + 0x1_0000_0000_0000_0000 * (0xff800000007fffff + 0x1_0000_0000_0000_0000 * 0x7fffff))));
    }
    let ghost old_acc = acc.val(nl);
    scalar_sqr_mul_acc(ops, &mut acc, 3, &d_11);
    proof {
        assert((0x56d38bcf4279dce5 + 0x1_0000_0000_0000_0000 * (0xffffffffffde737d + 0x1_0000_0000_0000_0000 * (0xff800000007fffff + 0x1_0000_0000_0000_0000 * 0x7fffff))) * 0x8 + 0x3 == (0xb69c5e7a13cee72b + 0x1_0000_0000_0000_0000 * (0xfffffffffef39bea + 0x1_0000_0000_0000_0000 * (0xfc00000003ffffff + 0x1_0000_0000_0000_0000 * 0x3ffffff)))) by (nonlinear_arith);
        lemma_mont_chain_step(&ops.n_mont, nl, x, old_acc, d_11.val(nl), acc.val(nl), (0x56d38bcf4279dce5 + 0x1_0000_0000_0000_0000 * (0xffffffffffde737d + 0x1_0000_0000_0000_0000 * (0xff800000007fffff + 0x1_0000_0000_0000_0000 * 0x7fffff))), 3, 0x3, 0x8, (0xb69c5e7a13cee72b + 0x1_0000_0000_0000_0000 * (0xfffffffffef39bea + 0x1_0000_0000_0000_0000 * (0xfc00000003ffffff + 0x1_0000_0000_0000_0000 * 0x3ffffff))));
    }
    let ghost old_acc = acc.val(nl);
    scalar_sqr_mul_acc(ops, &mut acc, 8, &d_1011);
    proof {
        assert((0xb69c5e7a13cee72b + 0x1_0000_0000_0000_0000 * (0xfffffffffef39bea + 0x1_0000_0000_0000_0000 * (0xfc00000003ffffff + 0x1_0000_0000_0000_0000 * 0x3ffffff))) * 0x100 + 0xb == (0x9c5e7a13cee72b0b + 0x1_0000_0000_0000_0000 * (0xfffffffef39beab6 + 0x1_0000_0000_0000_0000 * (0x3ffffffff + 0x1_0000_0000_0000_0000 * 0x3fffffffc)))) by (nonlinear_arith);
        lemma_mont_chain_step(&ops.n_mont, nl, x, old_acc, d_1011.val(nl), acc.val(nl), (0xb69c5e7a13cee72b + 0x1_0000_0000_0000_0000 * (0xfffffffffef39bea + 0x1_0000_0000_0000_0000 * (0xfc00000003ffffff + 0x1_0000_0000_0000_0000 * 0x3ffffff))), 8, 0xb, 0x100, (0x9c5e7a13cee72b0b + 0x1_0000_0000_0000_0000 * (0xfffffffef39beab6 + 0x1_0000_0000_0000_0000 * (0x3ffffffff + 0x1_0000_0000_0000_0000 * 0x3fffffffc))));
    }
    let ghost old_acc = acc.val(nl);
    scalar_sqr_mul_acc(ops, &mut acc, 4, &d_1111);
    proof {
        assert((0x9c5e7a13cee72b0b + 0x1_0000_0000_0000_0000 * (0xfffffffef39beab6 + 0x1_0000_0000_0000_0000 * (0x3ffffffff + 0x1_0000_0000_0000_0000 * 0x3fffffffc))) * 0x10 + 0xf == (0xc5e7a13cee72b0bf + 0x1_0000_0000_0000_0000 * (0xffffffef39beab69 + 0x1_0000_0000_0000_0000 * (0x3fffffffff + 0x1_0000_0000_0000_0000 * 0x3fffffffc0)))) by (nonlinear_arith);
        lemma_mont_chain_step(&ops.n_mont, nl, x, old_acc, d_1111.val(nl), acc.val(nl), (0x9c5e7a13cee72b0b + 0x1_0000_0000_0000_0000 * (0xfffffffef39beab6 + 0x1_0000_0000_0000_0000 * (0x3ffffffff + 0x1_0000_0000_0000_0000 * 0x3fffffffc))), 4, 0xf, 0x10, (0xc5e7a13cee72b0bf + 0x1_0000_0000_0000_0000 * (0xffffffef39beab69 + 0x1_0000_0000_0000_0000 * (0x3fffffffff + 0x1_0000_0000_0000_0000 * 0x3fffffffc0))));
    }
    let ghost old_acc = acc.val(nl);
    scalar_sqr_mul_acc(ops, &mut acc, 5, &d_11);
    proof {
        assert((0xc5e7a13cee72b0bf + 0x1_0000_0000_0000_0000 * (0xffffffef39beab69 + 0x1_0000_0000_0000_0000 * (0x3fffffffff + 0x1_0000_0000_0000_0000 * 0x3fffffffc0))) * 0x20 + 0x3 == (0xbcf4279dce5617e3 + 0x1_0000_0000_0000_0000 * (0xfffffde737d56d38 + 0x1_0000_0000_0000_0000 * (0x7ffffffffff + 0x1_0000_0000_0000_0000 * 0x7fffffff800)))) by (nonlinear_arith);
        lemma_mont_chain_step(&ops.n_mont, nl, x, old_acc, d_11.val(nl), acc.val(nl), (0xc5e7a13cee72b0bf + 0x1_0000_0000_0000_0000 * (0xffffffef39beab69 + 0x1_0000_0000_0000_0000 * (0x3fffffffff + 0x1_0000_0000_0000_0000 * 0x3fffffffc0))), 5, 0x3, 0x20, (0xbcf4279dce5617e3 + 0x1_0000_0000_0000_0000 * (0xfffffde737d56d38 + 0x1_0000_0000_0000_0000 * (0x7ffffffffff + 0x1_0000_0000_0000_0000 * 0x7fffffff800))));
    }
    let ghost old_acc = acc.val(nl);
    scalar_sqr_mul_acc(ops, &mut acc, 5, &d_11);
    proof {
        assert((0xbcf4279dce5617e3 + 0x1_0000_0000_0000_0000 * (0xfffffde737d56d38 + 0x1_0000_0000_0000_0000 * (0x7ffffffffff + 0x1_0000_0000_0000_0000 * 0x7fffffff800))) * 0x20 + 0x3 == (0x9e84f3b9cac2fc63 + 0x1_0000_0000_0000_0000 * (0xffffbce6faada717 + 0x1_0000_0000_0000_0000 * (0xffffffffffff + 0x1_0000_0000_0000_0000 * 0xffffffff0000)))) by (nonlinear_arith);
        lemma_mont_chain_step(&ops.n_mont, nl, x, old_acc, d_11.val(nl), acc.val(nl), (0xbcf4279dce5617e3 + 0x1_0000_0000_0000_0000 * (0xfffffde737d56d38 + 0x1_0000_0000_0000_0000 * (0x7ffffffffff + 0x1_0000_0000_0000_0000 * 0x7fffffff800))), 5, 0x3, 0x20, (0x9e84f3b9cac2fc63 + 0x1_0000_0000_0000_0000 * (0xffffbce6faada717 + 0x1_0000_0000_0000_0000 * (0xffffffffffff + 0x1_0000_0000_0000_0000 * 0xffffffff0000))));
    }
    let ghost old_acc = acc.val(nl);
    scalar_sqr_mul_acc(ops, &mut acc, 6, &d_1001);
    proof {
        assert((0x9e84f3b9cac2fc63 + 0x1_0000_0000_0000_0000 * (0xffffbce6faada717 + 0x1_0000_0000_0000_0000 * (0xffffffffffff + 0x1_0000_0000_0000_0000 * 0xffffffff0000))) * 0x40 + 0x9 == (0xa13cee72b0bf18c9 + 0x1_0000_0000_0000_0000 * (0xffef39beab69c5e7 + 0x1_0000_0000_0000_0000 * (0x3fffffffffffff + 0x1_0000_0000_0000_0000 * 0x3fffffffc00000)))) by (nonlinear_arith);
        lemma_mont_chain_step(&ops.n_mont, nl, x, old_acc, d_1001.val(nl), acc.val(nl), (0x9e84f3b9cac2fc63 + 0x1_0000_0000_0000_0000 * (0xffffbce6faada717 + 0x1_0000_0000_0000_0000 * (0xffffffffffff + 0x1_0000_0000_0000_0000 * 0xffffffff0000))), 6, 0x9, 0x40, (0xa13cee72b0bf18c9 + 0x1_0000_0000_0000_0000 * (0xffef39beab69c5e7 + 0x1_0000_0000_0000_0000 * (0x3fffffffffffff + 0x1_0000_0000_0000_0000 * 0x3fffffffc00000))));
    }
    let ghost old_acc = acc.val(nl);
    scalar_sqr_mul_acc(ops, &mut acc, 4, &d_101);
    proof {
        assert((0xa13cee72b0bf18c9 + 0x1_0000_0000_0000_0000 * (0xffef39beab69c5e7 + 0x1_0000_0000_0000_0000 * (0x3fffffffffffff + 0x1_0000_0000_0000_0000 * 0x3fffffffc00000))) * 0x10 + 0x5 == (0x13cee72b0bf18c95 + 0x1_0000_0000_0000_0000 * (0xfef39beab69c5e7a + 0x1_0000_0000_0000_0000 * (0x3ffffffffffffff + 0x1_0000_0000_0000_0000 * 0x3fffffffc000000)))) by (nonlinear_arith);
        lemma_mont_chain_step(&ops.n_mont, nl, x, old_acc, d_101.val(nl), acc.val(nl), (0xa13cee72b0bf18c9 + 0x1_0000_0000_0000_0000 * (0xffef39beab69c5e7 + 0x1_0000_0000_0000_0000 * (0x3fffffffffffff + 0x1_0000_0000_0000_0000 * 0x3fffffffc00000))), 4, 0x5, 0x10, (0x13cee72b0bf18c95 + 0x1_0000_0000_0000_0000 * (0xfef39beab69c5e7a + 0x1_0000_0000_0000_0000 * (0x3ffffffffffffff + 0x1_0000_0000_0000_0000 * 0x3fffffffc000000))));
    }
    let ghost old_acc = acc.val(nl);
    scalar_sqr_mul_acc(ops, &mut acc, 6, &d_1111);
    proof {
        assert((0x13cee72b0bf18c95 + 0x1_0000_0000_0000_0000 * (0xfef39beab69c5e7a + 0x1_0000_0000_0000_0000 * (0x3ffffffffffffff + 0x1_0000_0000_0000_0000 * 0x3fffffffc000000))) * 0x40 + 0xf == (0xf3b9cac2fc63254f + 0x1_0000_0000_0000_0000 * (0xbce6faada7179e84 + 0x1_0000_0000_0000_0000 * (0xffffffffffffffff + 0x1_0000_0000_0000_0000 * 0xffffffff00000000)))) by (nonlinear_arith);
        lemma_mont_chain_step(&ops.n_mont, nl, x, old_acc, d_1111.val(nl), acc.val(nl), (0x13cee72b0bf18c95 + 0x1_0000_0000_0000_0000 * (0xfef39beab69c5e7a + 0x1_0000_0000_0000_0000 * (0x3ffffffffffffff + 0x1_0000_0000_0000_0000 * 0x3fffffffc000000))), 6, 0xf, 0x40, (0xf3b9cac2fc63254f + 0x1_0000_0000_0000_0000 * (0xbce6faada7179e84 + 0x1_0000_0000_0000_0000 * (0xffffffffffffffff + 0x1_0000_0000_0000_0000 * 0xffffffff00000000))));
    }
    proof {
        assert(n_p256() == (0xf3b9cac2fc632551 + 0x1_0000_0000_0000_0000 * (0xbce6faada7179e84 + 0x1_0000_0000_0000_0000 * (0xffffffffffffffff + 0x1_0000_0000_0000_0000 * 0xffffffff00000000))));
        assert((0xf3b9cac2fc63254f + 0x1_0000_0000_0000_0000 * (0xbce6faada7179e84 + 0x1_0000_0000_0000_0000 * (0xffffffffffffffff + 0x1_0000_0000_0000_0000 * 0xffffffff00000000))) == n_p256() - 2);
    }
    acc
}


/// The coefficient `b`.
pub open spec fn b_p256() -> nat {
    val4(0x3bce3c3e27d2604b, 0x651d06b0cc53b0f6, 0xb3ebbd55769886bc, 0x5ac635d8aa3a93e7) as nat
}

/// The `x` coordinate of the published generator.
pub open spec fn gx_p256() -> nat {
    val4(0xf4a13945d898c296, 0x77037d812deb33a0, 0xf8bce6e563a440f2, 0x6b17d1f2e12c4247) as nat
}

/// The `y` coordinate of the published generator.
pub open spec fn gy_p256() -> nat {
    val4(0xcbb6406837bf51f5, 0x2bce33576b315ece, 0x8ee7eb4a7c0f9e16, 0x4fe342e2fe1a7f9b) as nat
}


/// `c` is the P-256 table: its modulus, its order and its coefficients
/// `a = -3` and `b`.
pub open spec fn is_p256_table(c: CommonOps) -> bool {
    &&& c.wf()
    &&& c.num_limbs == 4
    &&& c.q_val() == q_p256()
    &&& c.n.val(4) == n_p256()
    &&& c.decode(c.a.val(4)) == (q_p256() - 3) as nat
    &&& c.decode(c.b.val(4)) == b_p256()
}

/// The generator of `ops` is the published one of P-256.
pub open spec fn has_p256_generator(ops: PrivateKeyOps) -> bool {
    &&& ops.common.decode(ops.generator.0.val(4)) == gx_p256()
    &&& ops.common.decode(ops.generator.1.val(4)) == gy_p256()
}


/// The coefficient `a = -3`, in Montgomery form.
fn coefficient_a() -> (r: Elem<Q, R>)
    ensures
        r.val(4) < q_p256(),
        r.val(4) == ((q_p256() - 3) as nat * base_pow(4)) % q_p256(),
        r.padded(4),
{
    let r: Elem<Q, R> = Elem::from_limbs([
            0xfffffffffffffffc,
            0x00000003ffffffff,
            0x0000000000000000,
            0xfffffffc00000004,
            0x0000000000000000,
            0x0000000000000000,
        ]);
    proof {
        lemma_val4(r.limbs@.take(4));
        assert((q_p256() - 3) as nat == (0xfffffffffffffffc + 0x1_0000_0000_0000_0000int * (0xffffffff + 0x1_0000_0000_0000_0000int * (0x0 + 0x1_0000_0000_0000_0000int * 0xffffffff00000001))));
        assert(q_p256() == (0xffffffffffffffff + 0x1_0000_0000_0000_0000int * (0xffffffff + 0x1_0000_0000_0000_0000int * (0x0 + 0x1_0000_0000_0000_0000int * 0xffffffff00000001))));
        assert(base_pow(4) == (0x1_0000_0000_0000_0000int * 0x1_0000_0000_0000_0000int * 0x1_0000_0000_0000_0000int * 0x1_0000_0000_0000_0000int)) by {
            reveal_with_fuel(base_pow, 5);
        }
        assert((0xfffffffffffffffc + 0x1_0000_0000_0000_0000int * (0xffffffff + 0x1_0000_0000_0000_0000int * (0x0 + 0x1_0000_0000_0000_0000int * 0xffffffff00000001))) * (0x1_0000_0000_0000_0000int * 0x1_0000_0000_0000_0000int * 0x1_0000_0000_0000_0000int * 0x1_0000_0000_0000_0000int) == (0xffffffffffffffff + 0x1_0000_0000_0000_0000int * (0xffffffff + 0x1_0000_0000_0000_0000int * (0x0 + 0x1_0000_0000_0000_0000int * 0xffffffff00000001))) * (0xfffffffffffffffc + 0x1_0000_0000_0000_0000int * (0xffffffffffffffff + 0x1_0000_0000_0000_0000int * (0xffffffffffffffff + 0x1_0000_0000_0000_0000int * 0xffffffffffffffff))) + (0xfffffffffffffffc + 0x1_0000_0000_0000_0000int * (0x3ffffffff + 0x1_0000_0000_0000_0000int * (0x0 + 0x1_0000_0000_0000_0000int * 0xfffffffc00000004)))) by (nonlinear_arith);
        lemma_mod_from_quotient((0xfffffffffffffffc + 0x1_0000_0000_0000_0000int * (0xffffffff + 0x1_0000_0000_0000_0000int * (0x0 + 0x1_0000_0000_0000_0000int * 0xffffffff00000001))) * (0x1_0000_0000_0000_0000int * 0x1_0000_0000_0000_0000int * 0x1_0000_0000_0000_0000int * 0x1_0000_0000_0000_0000int), (0xffffffffffffffff + 0x1_0000_0000_0000_0000int * (0xffffffff + 0x1_0000_0000_0000_0000int * (0x0 + 0x1_0000_0000_0000_0000int * 0xffffffff00000001))), (0xfffffffffffffffc + 0x1_0000_0000_0000_0000int * (0xffffffffffffffff + 0x1_0000_0000_0000_0000int * (0xffffffffffffffff + 0x1_0000_0000_0000_0000int * 0xffffffffffffffff))), (0xfffffffffffffffc + 0x1_0000_0000_0000_0000int * (0x3ffffffff + 0x1_0000_0000_0000_0000int * (0x0 + 0x1_0000_0000_0000_0000int * 0xfffffffc00000004))));
    }
    r
}


/// The coefficient `b`, in Montgomery form.
fn coefficient_b() -> (r: Elem<Q, R>)
    ensures
        r.val(4) < q_p256(),
        r.val(4) == (b_p256() * base_pow(4)) % q_p256(),
        r.padded(4),
{
    let r: Elem<Q, R> = Elem::from_limbs([
            0xd89cdf6229c4bddf,
            0xacf005cd78843090,
            0xe5a220abf7212ed6,
            0xdc30061d04874834,
            0x0000000000000000,
            0x0000000000000000,
        ]);
    proof {
        lemma_val4(r.limbs@.take(4));
        assert(b_p256() == (0x3bce3c3e27d2604b + 0x1_0000_0000_0000_0000int * (0x651d06b0cc53b0f6 + 0x1_0000_0000_0000_0000int * (0xb3ebbd55769886bc + 0x1_0000_0000_0000_0000int * 0x5ac635d8aa3a93e7))));
        assert(q_p256() == (0xffffffffffffffff + 0x1_0000_0000_0000_0000int * (0xffffffff + 0x1_0000_0000_0000_0000int * (0x0 + 0x1_0000_0000_0000_0000int * 0xffffffff00000001))));
        assert(base_pow(4) == (0x1_0000_0000_0000_0000int * 0x1_0000_0000_0000_0000int * 0x1_0000_0000_0000_0000int * 0x1_0000_0000_0000_0000int)) by {
            reveal_with_fuel(base_pow, 5);
        }
        assert((0x3bce3c3e27d2604b + 0x1_0000_0000_0000_0000int * (0x651d06b0cc53b0f6 + 0x1_0000_0000_0000_0000int * (0xb3ebbd55769886bc + 0x1_0000_0000_0000_0000int * 0x5ac635d8aa3a93e7))) * (0x1_0000_0000_0000_0000int * 0x1_0000_0000_0000_0000int * 0x1_0000_0000_0000_0000int * 0x1_0000_0000_0000_0000int) == (0xffffffffffffffff + 0x1_0000_0000_0000_0000int * (0xffffffff + 0x1_0000_0000_0000_0000int * (0x0 + 0x1_0000_0000_0000_0000int * 0xffffffff00000001))) * (0xd89cdf6229c4bddf + 0x1_0000_0000_0000_0000int * (0xd6b4c3ac78843090 + 0x1_0000_0000_0000_0000int * (0x5e26513ccfbe0e38 + 0x1_0000_0000_0000_0000int * 0x5ac635d90500c9c0))) + (0xd89cdf6229c4bddf + 0x1_0000_0000_0000_0000int * (0xacf005cd78843090 + 0x1_0000_0000_0000_0000int * (0xe5a220abf7212ed6 + 0x1_0000_0000_0000_0000int * 0xdc30061d04874834)))) by (nonlinear_arith);
        lemma_mod_from_quotient((0x3bce3c3e27d2604b + 0x1_0000_0000_0000_0000int * (0x651d06b0cc53b0f6 + 0x1_0000_0000_0000_0000int * (0xb3ebbd55769886bc + 0x1_0000_0000_0000_0000int * 0x5ac635d8aa3a93e7))) * (0x1_0000_0000_0000_0000int * 0x1_0000_0000_0000_0000int * 0x1_0000_0000_0000_0000int * 0x1_0000_0000_0000_0000int), (0xffffffffffffffff + 0x1_0000_0000_0000_0000int * (0xffffffff + 0x1_0000_0000_0000_0000int * (0x0 + 0x1_0000_0000_0000_0000int * 0xffffffff00000001))), (0xd89cdf6229c4bddf + 0x1_0000_0000_0000_0000int * (0xd6b4c3ac78843090 + 0x1_0000_0000_0000_0000int * (0x5e26513ccfbe0e38 + 0x1_0000_0000_0000_0000int * 0x5ac635d90500c9c0))), (0xd89cdf6229c4bddf + 0x1_0000_0000_0000_0000int * (0xacf005cd78843090 + 0x1_0000_0000_0000_0000int * (0xe5a220abf7212ed6 + 0x1_0000_0000_0000_0000int * 0xdc30061d04874834))));
    }
    r
}


/// The group order `n`.
fn group_order() -> (r: Elem<Q, Unencoded>)
    ensures
        r.val(4) == n_p256(),
        r.padded(4),
{
    let r: Elem<Q, Unencoded> = Elem::from_limbs([
            0xf3b9cac2fc632551,
            0xbce6faada7179e84,
            0xffffffffffffffff,
            0xffffffff00000000,
            0x0000000000000000,
            0x0000000000000000,
        ]);
    proof {
        lemma_val4(r.limbs@.take(4));
        assert(n_p256() == (0xf3b9cac2fc632551 + 0x1_0000_0000_0000_0000int * (0xbce6faada7179e84 + 0x1_0000_0000_0000_0000int * (0xffffffffffffffff + 0x1_0000_0000_0000_0000int * 0xffffffff00000000))));
    }
    r
}


/// The generator's `x`, in Montgomery form.
fn generator_x() -> (r: Elem<Q, R>)
    ensures
        r.val(4) < q_p256(),
        r.val(4) == (gx_p256() * base_pow(4)) % q_p256(),
        r.padded(4),
{
    let r: Elem<Q, R> = Elem::from_limbs([
            0x79e730d418a9143c,
            0x75ba95fc5fedb601,
            0x79fb732b77622510,
            0x18905f76a53755c6,
            0x0000000000000000,
            0x0000000000000000,
        ]);
    proof {
        lemma_val4(r.limbs@.take(4));
        assert(gx_p256() == (0xf4a13945d898c296 + 0x1_0000_0000_0000_0000int * (0x77037d812deb33a0 + 0x1_0000_0000_0000_0000int * (0xf8bce6e563a440f2 + 0x1_0000_0000_0000_0000int * 0x6b17d1f2e12c4247))));
        assert(q_p256() == (0xffffffffffffffff + 0x1_0000_0000_0000_0000int * (0xffffffff + 0x1_0000_0000_0000_0000int * (0x0 + 0x1_0000_0000_0000_0000int * 0xffffffff00000001))));
        assert(base_pow(4) == (0x1_0000_0000_0000_0000int * 0x1_0000_0000_0000_0000int * 0x1_0000_0000_0000_0000int * 0x1_0000_0000_0000_0000int)) by {
            reveal_with_fuel(base_pow, 5);
        }
        assert((0xf4a13945d898c296 + 0x1_0000_0000_0000_0000int * (0x77037d812deb33a0 + 0x1_0000_0000_0000_0000int * (0xf8bce6e563a440f2 + 0x1_0000_0000_0000_0000int * 0x6b17d1f2e12c4247))) * (0x1_0000_0000_0000_0000int * 0x1_0000_0000_0000_0000int * 0x1_0000_0000_0000_0000int * 0x1_0000_0000_0000_0000int) == (0xffffffffffffffff + 0x1_0000_0000_0000_0000int * (0xffffffff + 0x1_0000_0000_0000_0000int * (0x0 + 0x1_0000_0000_0000_0000int * 0xffffffff00000001))) * (0x79e730d418a9143c + 0x1_0000_0000_0000_0000int * (0x8e63aa385fedb601 + 0x1_0000_0000_0000_0000int * (0xd9e9292cf14955e4 + 0x1_0000_0000_0000_0000int * 0x6b17d1f34c44143a))) + (0x79e730d418a9143c + 0x1_0000_0000_0000_0000int * (0x75ba95fc5fedb601 + 0x1_0000_0000_0000_0000int * (0x79fb732b77622510 + 0x1_0000_0000_0000_0000int * 0x18905f76a53755c6)))) by (nonlinear_arith);
        lemma_mod_from_quotient((0xf4a13945d898c296 + 0x1_0000_0000_0000_0000int * (0x77037d812deb33a0 + 0x1_0000_0000_0000_0000int * (0xf8bce6e563a440f2 + 0x1_0000_0000_0000_0000int * 0x6b17d1f2e12c4247))) * (0x1_0000_0000_0000_0000int * 0x1_0000_0000_0000_0000int * 0x1_0000_0000_0000_0000int * 0x1_0000_0000_0000_0000int), (0xffffffffffffffff + 0x1_0000_0000_0000_0000int * (0xffffffff + 0x1_0000_0000_0000_0000int * (0x0 + 0x1_0000_0000_0000_0000int * 0xffffffff00000001))), (0x79e730d418a9143c + 0x1_0000_0000_0000_0000int * (0x8e63aa385fedb601 + 0x1_0000_0000_0000_0000int * (0xd9e9292cf14955e4 + 0x1_0000_0000_0000_0000int * 0x6b17d1f34c44143a))), (0x79e730d418a9143c + 0x1_0000_0000_0000_0000int * (0x75ba95fc5fedb601 + 0x1_0000_0000_0000_0000int * (0x79fb732b77622510 + 0x1_0000_0000_0000_0000int * 0x18905f76a53755c6))));
    }
    r
}


/// The generator's `y`, in Montgomery form.
fn generator_y() -> (r: Elem<Q, R>)
    ensures
        r.val(4) < q_p256(),
        r.val(4) == (gy_p256() * base_pow(4)) % q_p256(),
        r.padded(4),
{
    let r: Elem<Q, R> = Elem::from_limbs([
            0xddf25357ce95560a,
            0x8b4ab8e4ba19e45c,
            0xd2e88688dd21f325,
            0x8571ff1825885d85,
            0x0000000000000000,
            0x0000000000000000,
        ]);
    proof {
        lemma_val4(r.limbs@.take(4));
        assert(gy_p256() == (0xcbb6406837bf51f5 + 0x1_0000_0000_0000_0000int * (0x2bce33576b315ece + 0x1_0000_0000_0000_0000int * (0x8ee7eb4a7c0f9e16 + 0x1_0000_0000_0000_0000int * 0x4fe342e2fe1a7f9b))));
        assert(q_p256() == (0xffffffffffffffff + 0x1_0000_0000_0000_0000int * (0xffffffff + 0x1_0000_0000_0000_0000int * (0x0 + 0x1_0000_0000_0000_0000int * 0xffffffff00000001))));
        assert(base_pow(4) == (0x1_0000_0000_0000_0000int * 0x1_0000_0000_0000_0000int * 0x1_0000_0000_0000_0000int * 0x1_0000_0000_0000_0000int)) by {
            reveal_with_fuel(base_pow, 5);
        }
        assert((0xcbb6406837bf51f5 + 0x1_0000_0000_0000_0000int * (0x2bce33576b315ece + 0x1_0000_0000_0000_0000int * (0x8ee7eb4a7c0f9e16 + 0x1_0000_0000_0000_0000int * 0x4fe342e2fe1a7f9b))) * (0x1_0000_0000_0000_0000int * 0x1_0000_0000_0000_0000int * 0x1_0000_0000_0000_0000int * 0x1_0000_0000_0000_0000int) == (0xffffffffffffffff + 0x1_0000_0000_0000_0000int * (0xffffffff + 0x1_0000_0000_0000_0000int * (0x0 + 0x1_0000_0000_0000_0000int * 0xffffffff00000001))) * (0xddf25357ce95560a + 0x1_0000_0000_0000_0000int * (0x59e00eeeba19e45c + 0x1_0000_0000_0000_0000int * (0x8d026ae5bb14467d + 0x1_0000_0000_0000_0000int * 0x4fe342e34dfdc27e))) + (0xddf25357ce95560a + 0x1_0000_0000_0000_0000int * (0x8b4ab8e4ba19e45c + 0x1_0000_0000_0000_0000int * (0xd2e88688dd21f325 + 0x1_0000_0000_0000_0000int * 0x8571ff1825885d85)))) by (nonlinear_arith);
        lemma_mod_from_quotient((0xcbb6406837bf51f5 + 0x1_0000_0000_0000_0000int * (0x2bce33576b315ece + 0x1_0000_0000_0000_0000int * (0x8ee7eb4a7c0f9e16 + 0x1_0000_0000_0000_0000int * 0x4fe342e2fe1a7f9b))) * (0x1_0000_0000_0000_0000int * 0x1_0000_0000_0000_0000int * 0x1_0000_0000_0000_0000int * 0x1_0000_0000_0000_0000int), (0xffffffffffffffff + 0x1_0000_0000_0000_0000int * (0xffffffff + 0x1_0000_0000_0000_0000int * (0x0 + 0x1_0000_0000_0000_0000int * 0xffffffff00000001))), (0xddf25357ce95560a + 0x1_0000_0000_0000_0000int * (0x59e00eeeba19e45c + 0x1_0000_0000_0000_0000int * (0x8d026ae5bb14467d + 0x1_0000_0000_0000_0000int * 0x4fe342e34dfdc27e))), (0xddf25357ce95560a + 0x1_0000_0000_0000_0000int * (0x8b4ab8e4ba19e45c + 0x1_0000_0000_0000_0000int * (0xd2e88688dd21f325 + 0x1_0000_0000_0000_0000int * 0x8571ff1825885d85))));
    }
    r
}


/// `q - n`.
fn q_minus_n() -> (r: Elem<Q, Unencoded>)
    ensures
        r.val(4) == (q_p256() - n_p256()) as nat,
        r.padded(4),
{
    let r: Elem<Q, Unencoded> = Elem::from_limbs([
            0x0c46353d039cdaae,
            0x4319055358e8617b,
            0x0000000000000000,
            0x0000000000000000,
            0x0000000000000000,
            0x0000000000000000,
        ]);
    proof {
        lemma_val4(r.limbs@.take(4));
        assert((q_p256() - n_p256()) as nat == (0xc46353d039cdaae + 0x1_0000_0000_0000_0000int * 0x4319055358e8617b));
    }
    r
}


/// The operations and values needed by all curve operations on P-256.
pub fn common_ops() -> (r: CommonOps)
    ensures
        is_p256_table(r),
{
    let q = q_mont();
    let a = coefficient_a();
    let b = coefficient_b();
    let r = CommonOps { num_limbs: 4, q, n: group_order(), a, b };
    proof {
        assert(q_p256() == (0xffffffffffffffff + 0x1_0000_0000_0000_0000int * (0xffffffff + 0x1_0000_0000_0000_0000int * (0x0 + 0x1_0000_0000_0000_0000int * 0xffffffff00000001))));
        assert(n_p256() == (0xf3b9cac2fc632551 + 0x1_0000_0000_0000_0000int * (0xbce6faada7179e84 + 0x1_0000_0000_0000_0000int * (0xffffffffffffffff + 0x1_0000_0000_0000_0000int * 0xffffffff00000000))));
        assert(b_p256() == (0x3bce3c3e27d2604b + 0x1_0000_0000_0000_0000int * (0x651d06b0cc53b0f6 + 0x1_0000_0000_0000_0000int * (0xb3ebbd55769886bc + 0x1_0000_0000_0000_0000int * 0x5ac635d8aa3a93e7))));
        lemma_mont_decode_encoded(&q, 4, (q_p256() - 3) as nat, a.val(4));
        lemma_mont_decode_encoded(&q, 4, b_p256(), b.val(4));
    }
    r
}

/// The generator, in Montgomery form.
fn generator(common: &CommonOps) -> (r: (Elem<Q, R>, Elem<Q, R>))
    requires
        is_p256_table(*common),
    ensures
        common.reduced(&r.0),
        common.reduced(&r.1),
        common.decode(r.0.val(4)) == gx_p256(),
        common.decode(r.1.val(4)) == gy_p256(),
{
    let x = generator_x();
    let y = generator_y();
    proof {
        assert(gx_p256() == (0xf4a13945d898c296 + 0x1_0000_0000_0000_0000int * (0x77037d812deb33a0 + 0x1_0000_0000_0000_0000int * (0xf8bce6e563a440f2 + 0x1_0000_0000_0000_0000int * 0x6b17d1f2e12c4247))));
        assert(gy_p256() == (0xcbb6406837bf51f5 + 0x1_0000_0000_0000_0000int * (0x2bce33576b315ece + 0x1_0000_0000_0000_0000int * (0x8ee7eb4a7c0f9e16 + 0x1_0000_0000_0000_0000int * 0x4fe342e2fe1a7f9b))));
        assert(q_p256() == (0xffffffffffffffff + 0x1_0000_0000_0000_0000int * (0xffffffff + 0x1_0000_0000_0000_0000int * (0x0 + 0x1_0000_0000_0000_0000int * 0xffffffff00000001))));
        lemma_mont_decode_encoded(&common.q, 4, gx_p256(), x.val(4));
        lemma_mont_decode_encoded(&common.q, 4, gy_p256(), y.val(4));
    }
    (x, y)
}

/// The operations on private keys for P-256.
pub fn private_key_ops() -> (r: PrivateKeyOps)
    ensures
        r.wf(),
        is_p256_table(r.common),
        has_p256_generator(r),
{
    let common = common_ops();
    PrivateKeyOps { common, generator: generator(&common) }
}

/// The operations on public keys for P-256.
pub fn public_key_ops() -> (r: PublicKeyOps)
    ensures
        is_p256_table(r.common),
{
    PublicKeyOps { common: common_ops() }
}

/// The operations on scalars for P-256.
pub fn scalar_ops() -> (r: ScalarOps)
    ensures
        r.wf(),
        is_p256_table(r.common),
        r.n_val() == n_p256(),
{
    ScalarOps { common: common_ops(), n_mont: n_mont() }
}

/// The operations on public scalars for P-256.
pub fn public_scalar_ops() -> (r: PublicScalarOps)
    ensures
        r.wf(),
        is_p256_table(r.cops()),
        r.scalar_ops.common == r.cops(),
        r.private_key_ops.common == r.cops(),
        has_p256_generator(r.private_key_ops),
        r.scalar_ops.n_val() == n_p256(),
        r.q_minus_n.val(4) == q_p256() - n_p256(),
{
    let common = common_ops();
    let r = PublicScalarOps {
        scalar_ops: ScalarOps { common, n_mont: n_mont() },
        public_key_ops: PublicKeyOps { common },
        private_key_ops: PrivateKeyOps { common, generator: generator(&common) },
        q_minus_n: q_minus_n(),
    };
    proof {
        assert(q_p256() == (0xffffffffffffffff + 0x1_0000_0000_0000_0000int * (0xffffffff + 0x1_0000_0000_0000_0000int * (0x0 + 0x1_0000_0000_0000_0000int * 0xffffffff00000001))));
        assert(n_p256() == (0xf3b9cac2fc632551 + 0x1_0000_0000_0000_0000int * (0xbce6faada7179e84 + 0x1_0000_0000_0000_0000int * (0xffffffffffffffff + 0x1_0000_0000_0000_0000int * 0xffffffff00000000))));
    }
    r
}

} // verus!
