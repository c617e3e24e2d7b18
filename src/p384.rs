//! The curve P-384: its constants and its operation tables.

use vstd::prelude::*;
use crate::arith::{is_mont_rinv, lemma_limbs_val_mod_base, lemma_mod_from_quotient, mont_n0_ok};
use crate::limb::{Limb, base_pow, limb_base, limbs_val};
use crate::ops::{
    CommonOps, Elem, Mont, PrivateKeyOps, PublicKeyOps, PublicScalarOps, Q, R, RR, Scalar,
    ScalarOps, Unencoded, elem_sqr_mul, elem_sqr_mul_acc, lemma_chain_step, lemma_fe_mul_decode,
    lemma_mont_chain_step, lemma_mont_decode_encoded, lemma_mont_decode_mul, lemma_pow2_values,
    lemma_pow_mod_mul,
    lemma_to_mont_decode, scalar_sqr_mul, scalar_sqr_mul_acc,
};
use vstd::arithmetic::div_mod::lemma_small_mod;
use vstd::arithmetic::power::{lemma_pow1, pow};
use vstd::arithmetic::power2::{lemma2_to64, lemma2_to64_rest};

verus! {

/// The field modulus, `2^384 - 2^128 - 2^96 + 2^32 - 1`.
pub open spec fn q_p384() -> nat {
    val6(0xffffffff, 0xffffffff00000000, 0xfffffffffffffffe, 0xffffffffffffffff, 0xffffffffffffffff, 0xffffffffffffffff) as nat
}

/// The group order.
pub open spec fn n_p384() -> nat {
    val6(0xecec196accc52973, 0x581a0db248b0a77a, 0xc7634d81f4372ddf, 0xffffffffffffffff, 0xffffffffffffffff, 0xffffffffffffffff) as nat
}

/// The value of six limbs, least significant first.
pub open spec fn val6(l0: int, l1: int, l2: int, l3: int, l4: int, l5: int) -> int {
    let b: int = 0x1_0000_0000_0000_0000;
    l0 + b * (l1 + b * (l2 + b * (l3 + b * (l4 + b * l5))))
}

pub proof fn lemma_val6(l: Seq<Limb>)
    requires
        l.len() == 6,
    ensures
        limbs_val(l) == val6(l[0] as int, l[1] as int, l[2] as int, l[3] as int, l[4] as int, l[5] as int),
{
    lemma_limbs_val_mod_base(l);
    lemma_limbs_val_mod_base(l.skip(1));
    lemma_limbs_val_mod_base(l.skip(2));
    lemma_limbs_val_mod_base(l.skip(3));
    lemma_limbs_val_mod_base(l.skip(4));
    lemma_limbs_val_mod_base(l.skip(5));
    assert(l.skip(1).skip(1) =~= l.skip(2));
    assert(l.skip(2).skip(1) =~= l.skip(3));
    assert(l.skip(3).skip(1) =~= l.skip(4));
    assert(l.skip(4).skip(1) =~= l.skip(5));
    assert(l.skip(5).skip(1) =~= Seq::<Limb>::empty());
    assert(limbs_val(Seq::<Limb>::empty()) == 0);
}

fn q_mont() -> (r: Mont)
    ensures
        r.wf(6),
        r.modulus(6) == q_p384(),
{
    let r = Mont {
        p: [
            0x00000000ffffffff,
            0xffffffff00000000,
            0xfffffffffffffffe,
            0xffffffffffffffff,
            0xffffffffffffffff,
            0xffffffffffffffff,
        ],
        rr: [
            0xfffffffe00000001,
            0x0000000200000000,
            0xfffffffe00000000,
            0x0000000200000000,
            0x0000000000000001,
            0x0000000000000000,
        ],
        n0: 0x100000001,
    };
    proof {
        assert(r.p@.take(6) =~= r.p@);
        assert(r.rr@.take(6) =~= r.rr@);
        lemma_val6(r.p@);
        lemma_val6(r.rr@);
        assert(base_pow(6) == limb_base() * (limb_base() * (limb_base() * (limb_base() * (limb_base()
            * limb_base()))))) by {
            reveal_with_fuel(base_pow, 7);
        }
        assert(q_p384() == (0xffffffff + 0x1_0000_0000_0000_0000int * (0xffffffff00000000 + 0x1_0000_0000_0000_0000int * (0xfffffffffffffffe + 0x1_0000_0000_0000_0000int * (0xffffffffffffffff + 0x1_0000_0000_0000_0000int * (0xffffffffffffffff + 0x1_0000_0000_0000_0000int * (0xffffffffffffffff + 0x1_0000_0000_0000_0000int * 0x0)))))));
        assert((0x1_0000_0000_0000_0000int*0x1_0000_0000_0000_0000int*0x1_0000_0000_0000_0000int*0x1_0000_0000_0000_0000int*0x1_0000_0000_0000_0000int*0x1_0000_0000_0000_0000int) * (0xffffffe100000006 + 0x1_0000_0000_0000_0000int * (0xffffffebffffffd8 + 0x1_0000_0000_0000_0000int * (0xfffffffbfffffffd + 0x1_0000_0000_0000_0000int * (0xfffffffcfffffffa + 0x1_0000_0000_0000_0000int * (0xc00000002 + 0x1_0000_0000_0000_0000int * (0x1400000014 + 0x1_0000_0000_0000_0000int * 0x0)))))) == (0xffffffff + 0x1_0000_0000_0000_0000int * (0xffffffff00000000 + 0x1_0000_0000_0000_0000int * (0xfffffffffffffffe + 0x1_0000_0000_0000_0000int * (0xffffffffffffffff + 0x1_0000_0000_0000_0000int * (0xffffffffffffffff + 0x1_0000_0000_0000_0000int * (0xffffffffffffffff + 0x1_0000_0000_0000_0000int * 0x0)))))) * (0x100000001 + 0x1_0000_0000_0000_0000int * (0x1 + 0x1_0000_0000_0000_0000int * (0xfffffffbfffffffe + 0x1_0000_0000_0000_0000int * (0xfffffffcfffffffa + 0x1_0000_0000_0000_0000int * (0xc00000002 + 0x1_0000_0000_0000_0000int * (0x1400000014 + 0x1_0000_0000_0000_0000int * 0x0)))))) + 1) by (nonlinear_arith);
        lemma_mod_from_quotient((0x1_0000_0000_0000_0000int*0x1_0000_0000_0000_0000int*0x1_0000_0000_0000_0000int*0x1_0000_0000_0000_0000int*0x1_0000_0000_0000_0000int*0x1_0000_0000_0000_0000int) * (0xffffffe100000006 + 0x1_0000_0000_0000_0000int * (0xffffffebffffffd8 + 0x1_0000_0000_0000_0000int * (0xfffffffbfffffffd + 0x1_0000_0000_0000_0000int * (0xfffffffcfffffffa + 0x1_0000_0000_0000_0000int * (0xc00000002 + 0x1_0000_0000_0000_0000int * (0x1400000014 + 0x1_0000_0000_0000_0000int * 0x0)))))), (0xffffffff + 0x1_0000_0000_0000_0000int * (0xffffffff00000000 + 0x1_0000_0000_0000_0000int * (0xfffffffffffffffe + 0x1_0000_0000_0000_0000int * (0xffffffffffffffff + 0x1_0000_0000_0000_0000int * (0xffffffffffffffff + 0x1_0000_0000_0000_0000int * (0xffffffffffffffff + 0x1_0000_0000_0000_0000int * 0x0)))))), (0x100000001 + 0x1_0000_0000_0000_0000int * (0x1 + 0x1_0000_0000_0000_0000int * (0xfffffffbfffffffe + 0x1_0000_0000_0000_0000int * (0xfffffffcfffffffa + 0x1_0000_0000_0000_0000int * (0xc00000002 + 0x1_0000_0000_0000_0000int * (0x1400000014 + 0x1_0000_0000_0000_0000int * 0x0)))))), 1);
        assert(is_mont_rinv(q_p384(), 6, (0xffffffe100000006 + 0x1_0000_0000_0000_0000int * (0xffffffebffffffd8 + 0x1_0000_0000_0000_0000int * (0xfffffffbfffffffd + 0x1_0000_0000_0000_0000int * (0xfffffffcfffffffa + 0x1_0000_0000_0000_0000int * (0xc00000002 + 0x1_0000_0000_0000_0000int * (0x1400000014 + 0x1_0000_0000_0000_0000int * 0x0)))))) as nat));
        assert((0x1_0000_0000_0000_0000int*0x1_0000_0000_0000_0000int*0x1_0000_0000_0000_0000int*0x1_0000_0000_0000_0000int*0x1_0000_0000_0000_0000int*0x1_0000_0000_0000_0000int) * (0x1_0000_0000_0000_0000int*0x1_0000_0000_0000_0000int*0x1_0000_0000_0000_0000int*0x1_0000_0000_0000_0000int*0x1_0000_0000_0000_0000int*0x1_0000_0000_0000_0000int) == (0xffffffff + 0x1_0000_0000_0000_0000int * (0xffffffff00000000 + 0x1_0000_0000_0000_0000int * (0xfffffffffffffffe + 0x1_0000_0000_0000_0000int * (0xffffffffffffffff + 0x1_0000_0000_0000_0000int * (0xffffffffffffffff + 0x1_0000_0000_0000_0000int * (0xffffffffffffffff + 0x1_0000_0000_0000_0000int * 0x0)))))) * (0xffffffff00000001 + 0x1_0000_0000_0000_0000int * (0xffffffff + 0x1_0000_0000_0000_0000int * (0x1 + 0x1_0000_0000_0000_0000int * (0x0 + 0x1_0000_0000_0000_0000int * (0x0 + 0x1_0000_0000_0000_0000int * (0x0 + 0x1_0000_0000_0000_0000int * 0x1)))))) + (0xfffffffe00000001 + 0x1_0000_0000_0000_0000int * (0x200000000 + 0x1_0000_0000_0000_0000int * (0xfffffffe00000000 + 0x1_0000_0000_0000_0000int * (0x200000000 + 0x1_0000_0000_0000_0000int * (0x1 + 0x1_0000_0000_0000_0000int * (0x0 + 0x1_0000_0000_0000_0000int * 0x0))))))) by (nonlinear_arith);
        lemma_mod_from_quotient((0x1_0000_0000_0000_0000int*0x1_0000_0000_0000_0000int*0x1_0000_0000_0000_0000int*0x1_0000_0000_0000_0000int*0x1_0000_0000_0000_0000int*0x1_0000_0000_0000_0000int) * (0x1_0000_0000_0000_0000int*0x1_0000_0000_0000_0000int*0x1_0000_0000_0000_0000int*0x1_0000_0000_0000_0000int*0x1_0000_0000_0000_0000int*0x1_0000_0000_0000_0000int), (0xffffffff + 0x1_0000_0000_0000_0000int * (0xffffffff00000000 + 0x1_0000_0000_0000_0000int * (0xfffffffffffffffe + 0x1_0000_0000_0000_0000int * (0xffffffffffffffff + 0x1_0000_0000_0000_0000int * (0xffffffffffffffff + 0x1_0000_0000_0000_0000int * (0xffffffffffffffff + 0x1_0000_0000_0000_0000int * 0x0)))))), (0xffffffff00000001 + 0x1_0000_0000_0000_0000int * (0xffffffff + 0x1_0000_0000_0000_0000int * (0x1 + 0x1_0000_0000_0000_0000int * (0x0 + 0x1_0000_0000_0000_0000int * (0x0 + 0x1_0000_0000_0000_0000int * (0x0 + 0x1_0000_0000_0000_0000int * 0x1)))))), (0xfffffffe00000001 + 0x1_0000_0000_0000_0000int * (0x200000000 + 0x1_0000_0000_0000_0000int * (0xfffffffe00000000 + 0x1_0000_0000_0000_0000int * (0x200000000 + 0x1_0000_0000_0000_0000int * (0x1 + 0x1_0000_0000_0000_0000int * (0x0 + 0x1_0000_0000_0000_0000int * 0x0)))))));
        assert(0xffffffffint * 0x100000001int == 0x1_0000_0000_0000_0000int * 0x0int + (0x1_0000_0000_0000_0000int - 1)) by (nonlinear_arith);
        lemma_mod_from_quotient(0xffffffffint * 0x100000001int, 0x1_0000_0000_0000_0000int, 0x0int, 0x1_0000_0000_0000_0000int - 1);
        assert(mont_n0_ok(r.p@.take(6), r.n0));
        assert(r.modulus(6) == q_p384());
        assert(r.modulus(6) > 1);
        assert(exists|rinv: nat| is_mont_rinv(r.modulus(6), 6, rinv));
        assert(limbs_val(r.rr@.take(6)) == (base_pow(6) * base_pow(6)) % r.modulus(6));
    }
    r
}

fn n_mont() -> (r: Mont)
    ensures
        r.wf(6),
        r.modulus(6) == n_p384(),
{
    let r = Mont {
        p: [
            0xecec196accc52973,
            0x581a0db248b0a77a,
            0xc7634d81f4372ddf,
            0xffffffffffffffff,
            0xffffffffffffffff,
            0xffffffffffffffff,
        ],
        rr: [
            0x2d319b2419b409a9,
            0xff3d81e5df1aa419,
            0xbc3e483afcb82947,
            0xd40d49174aab1cc5,
            0x3fb05b7a28266895,
            0x0c84ee012b39bf21,
        ],
        n0: 0x6ed46089e88fdc45,
    };
    proof {
        assert(r.p@.take(6) =~= r.p@);
        assert(r.rr@.take(6) =~= r.rr@);
        lemma_val6(r.p@);
        lemma_val6(r.rr@);
        assert(base_pow(6) == limb_base() * (limb_base() * (limb_base() * (limb_base() * (limb_base()
            * limb_base()))))) by {
            reveal_with_fuel(base_pow, 7);
        }
        assert(n_p384() == (0xecec196accc52973 + 0x1_0000_0000_0000_0000int * (0x581a0db248b0a77a + 0x1_0000_0000_0000_0000int * (0xc7634d81f4372ddf + 0x1_0000_0000_0000_0000int * (0xffffffffffffffff + 0x1_0000_0000_0000_0000int * (0xffffffffffffffff + 0x1_0000_0000_0000_0000int * (0xffffffffffffffff + 0x1_0000_0000_0000_0000int * 0x0)))))));
        assert((0x1_0000_0000_0000_0000int*0x1_0000_0000_0000_0000int*0x1_0000_0000_0000_0000int*0x1_0000_0000_0000_0000int*0x1_0000_0000_0000_0000int*0x1_0000_0000_0000_0000int) * (0x610ae855f2c0d911 + 0x1_0000_0000_0000_0000int * (0xd26d4aeba664edb0 + 0x1_0000_0000_0000_0000int * (0xe29f9fb70a9da219 + 0x1_0000_0000_0000_0000int * (0x78d4ba5866d61787 + 0x1_0000_0000_0000_0000int * (0xa150206ce4f194ac + 0x1_0000_0000_0000_0000int * (0x355ca87de39dbb1f + 0x1_0000_0000_0000_0000int * 0x0)))))) == (0xecec196accc52973 + 0x1_0000_0000_0000_0000int * (0x581a0db248b0a77a + 0x1_0000_0000_0000_0000int * (0xc7634d81f4372ddf + 0x1_0000_0000_0000_0000int * (0xffffffffffffffff + 0x1_0000_0000_0000_0000int * (0xffffffffffffffff + 0x1_0000_0000_0000_0000int * (0xffffffffffffffff + 0x1_0000_0000_0000_0000int * 0x0)))))) * (0x6ed46089e88fdc45 + 0x1_0000_0000_0000_0000int * (0x54a885995d20bb2b + 0x1_0000_0000_0000_0000int * (0xee6c8e3df45624ce + 0x1_0000_0000_0000_0000int * (0x78d4ba5866d61787 + 0x1_0000_0000_0000_0000int * (0xa150206ce4f194ac + 0x1_0000_0000_0000_0000int * (0x355ca87de39dbb1f + 0x1_0000_0000_0000_0000int * 0x0)))))) + 1) by (nonlinear_arith);
        lemma_mod_from_quotient((0x1_0000_0000_0000_0000int*0x1_0000_0000_0000_0000int*0x1_0000_0000_0000_0000int*0x1_0000_0000_0000_0000int*0x1_0000_0000_0000_0000int*0x1_0000_0000_0000_0000int) * (0x610ae855f2c0d911 + 0x1_0000_0000_0000_0000int * (0xd26d4aeba664edb0 + 0x1_0000_0000_0000_0000int * (0xe29f9fb70a9da219 + 0x1_0000_0000_0000_0000int * (0x78d4ba5866d61787 + 0x1_0000_0000_0000_0000int * (0xa150206ce4f194ac + 0x1_0000_0000_0000_0000int * (0x355ca87de39dbb1f + 0x1_0000_0000_0000_0000int * 0x0)))))), (0xecec196accc52973 + 0x1_0000_0000_0000_0000int * (0x581a0db248b0a77a + 0x1_0000_0000_0000_0000int * (0xc7634d81f4372ddf + 0x1_0000_0000_0000_0000int * (0xffffffffffffffff + 0x1_0000_0000_0000_0000int * (0xffffffffffffffff + 0x1_0000_0000_0000_0000int * (0xffffffffffffffff + 0x1_0000_0000_0000_0000int * 0x0)))))), (0x6ed46089e88fdc45 + 0x1_0000_0000_0000_0000int * (0x54a885995d20bb2b + 0x1_0000_0000_0000_0000int * (0xee6c8e3df45624ce + 0x1_0000_0000_0000_0000int * (0x78d4ba5866d61787 + 0x1_0000_0000_0000_0000int * (0xa150206ce4f194ac + 0x1_0000_0000_0000_0000int * (0x355ca87de39dbb1f + 0x1_0000_0000_0000_0000int * 0x0)))))), 1);
        assert(is_mont_rinv(n_p384(), 6, (0x610ae855f2c0d911 + 0x1_0000_0000_0000_0000int * (0xd26d4aeba664edb0 + 0x1_0000_0000_0000_0000int * (0xe29f9fb70a9da219 + 0x1_0000_0000_0000_0000int * (0x78d4ba5866d61787 + 0x1_0000_0000_0000_0000int * (0xa150206ce4f194ac + 0x1_0000_0000_0000_0000int * (0x355ca87de39dbb1f + 0x1_0000_0000_0000_0000int * 0x0)))))) as nat));
        assert((0x1_0000_0000_0000_0000int*0x1_0000_0000_0000_0000int*0x1_0000_0000_0000_0000int*0x1_0000_0000_0000_0000int*0x1_0000_0000_0000_0000int*0x1_0000_0000_0000_0000int) * (0x1_0000_0000_0000_0000int*0x1_0000_0000_0000_0000int*0x1_0000_0000_0000_0000int*0x1_0000_0000_0000_0000int*0x1_0000_0000_0000_0000int*0x1_0000_0000_0000_0000int) == (0xecec196accc52973 + 0x1_0000_0000_0000_0000int * (0x581a0db248b0a77a + 0x1_0000_0000_0000_0000int * (0xc7634d81f4372ddf + 0x1_0000_0000_0000_0000int * (0xffffffffffffffff + 0x1_0000_0000_0000_0000int * (0xffffffffffffffff + 0x1_0000_0000_0000_0000int * (0xffffffffffffffff + 0x1_0000_0000_0000_0000int * 0x0)))))) * (0x1313e695333ad68d + 0x1_0000_0000_0000_0000int * (0xa7e5f24db74f5885 + 0x1_0000_0000_0000_0000int * (0x389cb27e0bc8d220 + 0x1_0000_0000_0000_0000int * (0x0 + 0x1_0000_0000_0000_0000int * (0x0 + 0x1_0000_0000_0000_0000int * (0x0 + 0x1_0000_0000_0000_0000int * 0x1)))))) + (0x2d319b2419b409a9 + 0x1_0000_0000_0000_0000int * (0xff3d81e5df1aa419 + 0x1_0000_0000_0000_0000int * (0xbc3e483afcb82947 + 0x1_0000_0000_0000_0000int * (0xd40d49174aab1cc5 + 0x1_0000_0000_0000_0000int * (0x3fb05b7a28266895 + 0x1_0000_0000_0000_0000int * (0xc84ee012b39bf21 + 0x1_0000_0000_0000_0000int * 0x0))))))) by (nonlinear_arith);
        lemma_mod_from_quotient((0x1_0000_0000_0000_0000int*0x1_0000_0000_0000_0000int*0x1_0000_0000_0000_0000int*0x1_0000_0000_0000_0000int*0x1_0000_0000_0000_0000int*0x1_0000_0000_0000_0000int) * (0x1_0000_0000_0000_0000int*0x1_0000_0000_0000_0000int*0x1_0000_0000_0000_0000int*0x1_0000_0000_0000_0000int*0x1_0000_0000_0000_0000int*0x1_0000_0000_0000_0000int), (0xecec196accc52973 + 0x1_0000_0000_0000_0000int * (0x581a0db248b0a77a + 0x1_0000_0000_0000_0000int * (0xc7634d81f4372ddf + 0x1_0000_0000_0000_0000int * (0xffffffffffffffff + 0x1_0000_0000_0000_0000int * (0xffffffffffffffff + 0x1_0000_0000_0000_0000int * (0xffffffffffffffff + 0x1_0000_0000_0000_0000int * 0x0)))))), (0x1313e695333ad68d + 0x1_0000_0000_0000_0000int * (0xa7e5f24db74f5885 + 0x1_0000_0000_0000_0000int * (0x389cb27e0bc8d220 + 0x1_0000_0000_0000_0000int * (0x0 + 0x1_0000_0000_0000_0000int * (0x0 + 0x1_0000_0000_0000_0000int * (0x0 + 0x1_0000_0000_0000_0000int * 0x1)))))), (0x2d319b2419b409a9 + 0x1_0000_0000_0000_0000int * (0xff3d81e5df1aa419 + 0x1_0000_0000_0000_0000int * (0xbc3e483afcb82947 + 0x1_0000_0000_0000_0000int * (0xd40d49174aab1cc5 + 0x1_0000_0000_0000_0000int * (0x3fb05b7a28266895 + 0x1_0000_0000_0000_0000int * (0xc84ee012b39bf21 + 0x1_0000_0000_0000_0000int * 0x0)))))));
        assert(0xecec196accc52973int * 0x6ed46089e88fdc45int == 0x1_0000_0000_0000_0000int * 0x6691ffc91b8b0cccint + (0x1_0000_0000_0000_0000int - 1)) by (nonlinear_arith);
        lemma_mod_from_quotient(0xecec196accc52973int * 0x6ed46089e88fdc45int, 0x1_0000_0000_0000_0000int, 0x6691ffc91b8b0cccint, 0x1_0000_0000_0000_0000int - 1);
        assert(mont_n0_ok(r.p@.take(6), r.n0));
        assert(r.modulus(6) == n_p384());
        assert(r.modulus(6) > 1);
        assert(exists|rinv: nat| is_mont_rinv(r.modulus(6), 6, rinv));
        assert(limbs_val(r.rr@.take(6)) == (base_pow(6) * base_pow(6)) % r.modulus(6));
    }
    r
}

/// Returns `a^-2` in the field, as `a^(q - 3)` by a fixed addition chain:
/// the same squarings and multiplications whatever `a` is.
#[verifier::spinoff_prover]
pub fn p384_elem_inv_squared(ops: &CommonOps, a: &Elem<Q, R>) -> (r: Elem<Q, R>)
    requires
        ops.wf(),
        ops.q_val() == q_p384(),
        ops.reduced(a),
    ensures
        ops.reduced(&r),
        ops.decode(r.val(ops.nl())) as int == pow(ops.decode(a.val(ops.nl())) as int, (q_p384() - 3) as nat)
            % (ops.q_val() as int),
{
    let ghost x = ops.decode(a.val(ops.nl())) as int;
    proof {
        lemma2_to64();
        lemma2_to64_rest();
        lemma_pow2_values();
        lemma_pow1(x);
        lemma_small_mod(x as nat, ops.q_val());
    }
    let b_11 = elem_sqr_mul(ops, a, 1, a);
    proof {
        assert(0x1 * 0x2 + 0x1 == 0x3) by (nonlinear_arith);
        lemma_chain_step(ops, x, a.val(ops.nl()), a.val(ops.nl()), b_11.val(ops.nl()), 0x1, 1, 0x1, 0x2, 0x3);
    }
    let b_111 = elem_sqr_mul(ops, &b_11, 1, a);
    proof {
        assert(0x3 * 0x2 + 0x1 == 0x7) by (nonlinear_arith);
        lemma_chain_step(ops, x, b_11.val(ops.nl()), a.val(ops.nl()), b_111.val(ops.nl()), 0x3, 1, 0x1, 0x2, 0x7);
    }
    let f_11 = elem_sqr_mul(ops, &b_111, 3, &b_111);
    proof {
        assert(0x7 * 0x8 + 0x7 == 0x3f) by (nonlinear_arith);
        lemma_chain_step(ops, x, b_111.val(ops.nl()), b_111.val(ops.nl()), f_11.val(ops.nl()), 0x7, 3, 0x7, 0x8, 0x3f);
    }
    let fff = elem_sqr_mul(ops, &f_11, 6, &f_11);
    proof {
        assert(0x3f * 0x40 + 0x3f == 0xfff) by (nonlinear_arith);
        lemma_chain_step(ops, x, f_11.val(ops.nl()), f_11.val(ops.nl()), fff.val(ops.nl()), 0x3f, 6, 0x3f, 0x40, 0xfff);
    }
    let fff_111 = elem_sqr_mul(ops, &fff, 3, &b_111);
    proof {
        assert(0xfff * 0x8 + 0x7 == 0x7fff) by (nonlinear_arith);
        lemma_chain_step(ops, x, fff.val(ops.nl()), b_111.val(ops.nl()), fff_111.val(ops.nl()), 0xfff, 3, 0x7, 0x8, 0x7fff);
    }
    let fffffff_11 = elem_sqr_mul(ops, &fff_111, 15, &fff_111);
    proof {
        assert(0x7fff * 0x8000 + 0x7fff == 0x3fffffff) by (nonlinear_arith);
        lemma_chain_step(ops, x, fff_111.val(ops.nl()), fff_111.val(ops.nl()), fffffff_11.val(ops.nl()), 0x7fff, 15, 0x7fff, 0x8000, 0x3fffffff);
    }
    let ones_60 = elem_sqr_mul(ops, &fffffff_11, 30, &fffffff_11);
    proof {
        assert(0x3fffffff * 0x40000000 + 0x3fffffff == 0xfffffffffffffff) by (nonlinear_arith);
        lemma_chain_step(ops, x, fffffff_11.val(ops.nl()), fffffff_11.val(ops.nl()), ones_60.val(ops.nl()), 0x3fffffff, 30, 0x3fffffff, 0x40000000, 0xfffffffffffffff);
    }
    let ones_120 = elem_sqr_mul(ops, &ones_60, 60, &ones_60);
    proof {
        assert(0xfffffffffffffff * 0x1000000000000000 + 0xfffffffffffffff == 0xffffffffffffffffffffffffffffff) by (nonlinear_arith);
        lemma_chain_step(ops, x, ones_60.val(ops.nl()), ones_60.val(ops.nl()), ones_120.val(ops.nl()), 0xfffffffffffffff, 60, 0xfffffffffffffff, 0x1000000000000000, 0xffffffffffffffffffffffffffffff);
    }
    let mut acc = elem_sqr_mul(ops, &ones_120, 120, &ones_120);
    proof {
        assert(0xffffffffffffffffffffffffffffff * 0x1000000000000000000000000000000 + 0xffffffffffffffffffffffffffffff == (0xffffffffffffffff + 0x1_0000_0000_0000_0000 * (0xffffffffffffffff + 0x1_0000_0000_0000_0000 * (0xffffffffffffffff + 0x1_0000_0000_0000_0000 * 0xffffffffffff)))) by (nonlinear_arith);
        lemma_chain_step(ops, x, ones_120.val(ops.nl()), ones_120.val(ops.nl()), acc.val(ops.nl()), 0xffffffffffffffffffffffffffffff, 120, 0xffffffffffffffffffffffffffffff, 0x1000000000000000000000000000000, (0xffffffffffffffff + 0x1_0000_0000_0000_0000 * (0xffffffffffffffff + 0x1_0000_0000_0000_0000 * (0xffffffffffffffff + 0x1_0000_0000_0000_0000 * 0xffffffffffff))));
    }
    let ghost old_acc = acc.val(ops.nl());
    elem_sqr_mul_acc(ops, &mut acc, 15, &fff_111);
    proof {
        assert((0xffffffffffffffff + 0x1_0000_0000_0000_0000 * (0xffffffffffffffff + 0x1_0000_0000_0000_0000 * (0xffffffffffffffff + 0x1_0000_0000_0000_0000 * 0xffffffffffff))) * 0x8000 + 0x7fff == (0xffffffffffffffff + 0x1_0000_0000_0000_0000 * (0xffffffffffffffff + 0x1_0000_0000_0000_0000 * (0xffffffffffffffff + 0x1_0000_0000_0000_0000 * 0x7fffffffffffffff)))) by (nonlinear_arith);
        lemma_chain_step(ops, x, old_acc, fff_111.val(ops.nl()), acc.val(ops.nl()), (0xffffffffffffffff + 0x1_0000_0000_0000_0000 * (0xffffffffffffffff + 0x1_0000_0000_0000_0000 * (0xffffffffffffffff + 0x1_0000_0000_0000_0000 * 0xffffffffffff))), 15, 0x7fff, 0x8000, (0xffffffffffffffff + 0x1_0000_0000_0000_0000 * (0xffffffffffffffff + 0x1_0000_0000_0000_0000 * (0xffffffffffffffff + 0x1_0000_0000_0000_0000 * 0x7fffffffffffffff))));
    }
    let ghost old_acc = acc.val(ops.nl());
    elem_sqr_mul_acc(ops, &mut acc, 31, &fffffff_11);
    proof {
        assert((0xffffffffffffffff + 0x1_0000_0000_0000_0000 * (0xffffffffffffffff + 0x1_0000_0000_0000_0000 * (0xffffffffffffffff + 0x1_0000_0000_0000_0000 * 0x7fffffffffffffff))) * 0x80000000 + 0x3fffffff == (0xffffffffbfffffff + 0x1_0000_0000_0000_0000 * (0xffffffffffffffff + 0x1_0000_0000_0000_0000 * (0xffffffffffffffff + 0x1_0000_0000_0000_0000 * (0xffffffffffffffff + 0x1_0000_0000_0000_0000 * 0x3fffffff))))) by (nonlinear_arith);
        lemma_chain_step(ops, x, old_acc, fffffff_11.val(ops.nl()), acc.val(ops.nl()), (0xffffffffffffffff + 0x1_0000_0000_0000_0000 * (0xffffffffffffffff + 0x1_0000_0000_0000_0000 * (0xffffffffffffffff + 0x1_0000_0000_0000_0000 * 0x7fffffffffffffff))), 31, 0x3fffffff, 0x80000000, (0xffffffffbfffffff + 0x1_0000_0000_0000_0000 * (0xffffffffffffffff + 0x1_0000_0000_0000_0000 * (0xffffffffffffffff + 0x1_0000_0000_0000_0000 * (0xffffffffffffffff + 0x1_0000_0000_0000_0000 * 0x3fffffff)))));
    }
    let ghost old_acc = acc.val(ops.nl());
    elem_sqr_mul_acc(ops, &mut acc, 2, &b_11);
    proof {
        assert((0xffffffffbfffffff + 0x1_0000_0000_0000_0000 * (0xffffffffffffffff + 0x1_0000_0000_0000_0000 * (0xffffffffffffffff + 0x1_0000_0000_0000_0000 * (0xffffffffffffffff + 0x1_0000_0000_0000_0000 * 0x3fffffff)))) * 0x4 + 0x3 == (0xfffffffeffffffff + 0x1_0000_0000_0000_0000 * (0xffffffffffffffff + 0x1_0000_0000_0000_0000 * (0xffffffffffffffff + 0x1_0000_0000_0000_0000 * (0xffffffffffffffff + 0x1_0000_0000_0000_0000 * 0xffffffff))))) by (nonlinear_arith);
        lemma_chain_step(ops, x, old_acc, b_11.val(ops.nl()), acc.val(ops.nl()), (0xffffffffbfffffff + 0x1_0000_0000_0000_0000 * (0xffffffffffffffff + 0x1_0000_0000_0000_0000 * (0xffffffffffffffff + 0x1_0000_0000_0000_0000 * (0xffffffffffffffff + 0x1_0000_0000_0000_0000 * 0x3fffffff)))), 2, 0x3, 0x4, (0xfffffffeffffffff + 0x1_0000_0000_0000_0000 * (0xffffffffffffffff + 0x1_0000_0000_0000_0000 * (0xffffffffffffffff + 0x1_0000_0000_0000_0000 * (0xffffffffffffffff + 0x1_0000_0000_0000_0000 * 0xffffffff)))));
    }
    let ghost old_acc = acc.val(ops.nl());
    elem_sqr_mul_acc(ops, &mut acc, 94, &fffffff_11);
    proof {
        assert((0xfffffffeffffffff + 0x1_0000_0000_0000_0000 * (0xffffffffffffffff + 0x1_0000_0000_0000_0000 * (0xffffffffffffffff + 0x1_0000_0000_0000_0000 * (0xffffffffffffffff + 0x1_0000_0000_0000_0000 * 0xffffffff)))) * 0x400000000000000000000000 + 0x3fffffff == (0x3fffffff + 0x1_0000_0000_0000_0000 * (0xbfffffffc0000000 + 0x1_0000_0000_0000_0000 * (0xffffffffffffffff + 0x1_0000_0000_0000_0000 * (0xffffffffffffffff + 0x1_0000_0000_0000_0000 * (0xffffffffffffffff + 0x1_0000_0000_0000_0000 * 0x3fffffffffffffff)))))) by (nonlinear_arith);
        lemma_chain_step(ops, x, old_acc, fffffff_11.val(ops.nl()), acc.val(ops.nl()), (0xfffffffeffffffff + 0x1_0000_0000_0000_0000 * (0xffffffffffffffff + 0x1_0000_0000_0000_0000 * (0xffffffffffffffff + 0x1_0000_0000_0000_0000 * (0xffffffffffffffff + 0x1_0000_0000_0000_0000 * 0xffffffff)))), 94, 0x3fffffff, 0x400000000000000000000000, (0x3fffffff + 0x1_0000_0000_0000_0000 * (0xbfffffffc0000000 + 0x1_0000_0000_0000_0000 * (0xffffffffffffffff + 0x1_0000_0000_0000_0000 * (0xffffffffffffffff + 0x1_0000_0000_0000_0000 * (0xffffffffffffffff + 0x1_0000_0000_0000_0000 * 0x3fffffffffffffff))))));
    }
    let ghost e0 = acc.val(ops.nl());
    ops.elem_square(&mut acc);
    proof {
        lemma_fe_mul_decode(ops, e0, e0);
        lemma_pow_mod_mul(x, (0x3fffffff + 0x1_0000_0000_0000_0000 * (0xbfffffffc0000000 + 0x1_0000_0000_0000_0000 * (0xffffffffffffffff + 0x1_0000_0000_0000_0000 * (0xffffffffffffffff + 0x1_0000_0000_0000_0000 * (0xffffffffffffffff + 0x1_0000_0000_0000_0000 * 0x3fffffffffffffff))))), (0x3fffffff + 0x1_0000_0000_0000_0000 * (0xbfffffffc0000000 + 0x1_0000_0000_0000_0000 * (0xffffffffffffffff + 0x1_0000_0000_0000_0000 * (0xffffffffffffffff + 0x1_0000_0000_0000_0000 * (0xffffffffffffffff + 0x1_0000_0000_0000_0000 * 0x3fffffffffffffff))))), ops.q_val() as int);
    }
    let ghost e1 = acc.val(ops.nl());
    ops.elem_square(&mut acc);
    proof {
        lemma_fe_mul_decode(ops, e1, e1);
        lemma_pow_mod_mul(x, (0x7ffffffe + 0x1_0000_0000_0000_0000 * (0x7fffffff80000000 + 0x1_0000_0000_0000_0000 * (0xffffffffffffffff + 0x1_0000_0000_0000_0000 * (0xffffffffffffffff + 0x1_0000_0000_0000_0000 * (0xffffffffffffffff + 0x1_0000_0000_0000_0000 * 0x7fffffffffffffff))))), (0x7ffffffe + 0x1_0000_0000_0000_0000 * (0x7fffffff80000000 + 0x1_0000_0000_0000_0000 * (0xffffffffffffffff + 0x1_0000_0000_0000_0000 * (0xffffffffffffffff + 0x1_0000_0000_0000_0000 * (0xffffffffffffffff + 0x1_0000_0000_0000_0000 * 0x7fffffffffffffff))))), ops.q_val() as int);
        assert((0x3fffffff + 0x1_0000_0000_0000_0000 * (0xbfffffffc0000000 + 0x1_0000_0000_0000_0000 * (0xffffffffffffffff + 0x1_0000_0000_0000_0000 * (0xffffffffffffffff + 0x1_0000_0000_0000_0000 * (0xffffffffffffffff + 0x1_0000_0000_0000_0000 * 0x3fffffffffffffff))))) + (0x3fffffff + 0x1_0000_0000_0000_0000 * (0xbfffffffc0000000 + 0x1_0000_0000_0000_0000 * (0xffffffffffffffff + 0x1_0000_0000_0000_0000 * (0xffffffffffffffff + 0x1_0000_0000_0000_0000 * (0xffffffffffffffff + 0x1_0000_0000_0000_0000 * 0x3fffffffffffffff))))) == (0x7ffffffe + 0x1_0000_0000_0000_0000 * (0x7fffffff80000000 + 0x1_0000_0000_0000_0000 * (0xffffffffffffffff + 0x1_0000_0000_0000_0000 * (0xffffffffffffffff + 0x1_0000_0000_0000_0000 * (0xffffffffffffffff + 0x1_0000_0000_0000_0000 * 0x7fffffffffffffff))))));
        assert((0x7ffffffe + 0x1_0000_0000_0000_0000 * (0x7fffffff80000000 + 0x1_0000_0000_0000_0000 * (0xffffffffffffffff + 0x1_0000_0000_0000_0000 * (0xffffffffffffffff + 0x1_0000_0000_0000_0000 * (0xffffffffffffffff + 0x1_0000_0000_0000_0000 * 0x7fffffffffffffff))))) + (0x7ffffffe + 0x1_0000_0000_0000_0000 * (0x7fffffff80000000 + 0x1_0000_0000_0000_0000 * (0xffffffffffffffff + 0x1_0000_0000_0000_0000 * (0xffffffffffffffff + 0x1_0000_0000_0000_0000 * (0xffffffffffffffff + 0x1_0000_0000_0000_0000 * 0x7fffffffffffffff))))) == (0xfffffffc + 0x1_0000_0000_0000_0000 * (0xffffffff00000000 + 0x1_0000_0000_0000_0000 * (0xfffffffffffffffe + 0x1_0000_0000_0000_0000 * (0xffffffffffffffff + 0x1_0000_0000_0000_0000 * (0xffffffffffffffff + 0x1_0000_0000_0000_0000 * 0xffffffffffffffff))))));
        assert(q_p384() == (0xffffffff + 0x1_0000_0000_0000_0000 * (0xffffffff00000000 + 0x1_0000_0000_0000_0000 * (0xfffffffffffffffe + 0x1_0000_0000_0000_0000 * (0xffffffffffffffff + 0x1_0000_0000_0000_0000 * (0xffffffffffffffff + 0x1_0000_0000_0000_0000 * 0xffffffffffffffff))))));
    }
    acc
}

/// Returns the inverse of the scalar `a` in Montgomery form, as `a^(n - 2)`
/// by a fixed addition chain: the same squarings and multiplications
/// whatever `a` is. The first digits are `a^1, a^3, ..., a^15`; the rest of
/// the exponent is consumed in windows of a few bits.
#[verifier::spinoff_prover]
pub fn p384_scalar_inv_to_mont(ops: &ScalarOps, a: &Scalar<Unencoded>) -> (r: Scalar<R>)
    requires
        ops.wf(),
        ops.n_val() == n_p384(),
        a.val(ops.common.nl()) < ops.n_val(),
    ensures
        r.val(ops.common.nl()) < ops.n_val(),
        ops.decode(r.val(ops.common.nl())) as int == pow(a.val(ops.common.nl()) as int, (n_p384() - 2) as nat)
            % (ops.n_val() as int),
{
    let ghost x = a.val(ops.common.nl()) as int;
    let nn = ops.common.num_limbs;
    let ghost nl = ops.common.nl();
    let n_rr: Scalar<RR> = Elem::from_limbs(ops.n_mont.rr);
    let d_1: Scalar<R> = ops.scalar_product(a, &n_rr);
    proof {
        lemma2_to64();
        lemma2_to64_rest();
        lemma_pow2_values();
        lemma_to_mont_decode(&ops.n_mont, nl, a.val(nl));
        lemma_pow1(x);
        lemma_small_mod(x as nat, ops.n_val());
    }
    let b_10 = ops.scalar_product(&d_1, &d_1);
    proof {
        lemma_mont_decode_mul(&ops.n_mont, nl, d_1.val(nl), d_1.val(nl));
        lemma_pow_mod_mul(x, 1, 1, ops.n_val() as int);
    }
    let d_11 = ops.scalar_product(&d_1, &b_10);
    proof {
        lemma_mont_decode_mul(&ops.n_mont, nl, d_1.val(nl), b_10.val(nl));
        lemma_pow_mod_mul(x, 1, 2, ops.n_val() as int);
    }
    let d_101 = ops.scalar_product(&d_11, &b_10);
    proof {
        lemma_mont_decode_mul(&ops.n_mont, nl, d_11.val(nl), b_10.val(nl));
        lemma_pow_mod_mul(x, 3, 2, ops.n_val() as int);
    }
    let d_111 = ops.scalar_product(&d_101, &b_10);
    proof {
        lemma_mont_decode_mul(&ops.n_mont, nl, d_101.val(nl), b_10.val(nl));
        lemma_pow_mod_mul(x, 5, 2, ops.n_val() as int);
    }
    let d_1001 = ops.scalar_product(&d_111, &b_10);
    proof {
        lemma_mont_decode_mul(&ops.n_mont, nl, d_111.val(nl), b_10.val(nl));
        lemma_pow_mod_mul(x, 7, 2, ops.n_val() as int);
    }
    let d_1011 = ops.scalar_product(&d_1001, &b_10);
    proof {
        lemma_mont_decode_mul(&ops.n_mont, nl, d_1001.val(nl), b_10.val(nl));
        lemma_pow_mod_mul(x, 9, 2, ops.n_val() as int);
    }
    let d_1101 = ops.scalar_product(&d_1011, &b_10);
    proof {
        lemma_mont_decode_mul(&ops.n_mont, nl, d_1011.val(nl), b_10.val(nl));
        lemma_pow_mod_mul(x, 11, 2, ops.n_val() as int);
    }
    let d_1111 = ops.scalar_product(&d_1101, &b_10);
    proof {
        lemma_mont_decode_mul(&ops.n_mont, nl, d_1101.val(nl), b_10.val(nl));
        lemma_pow_mod_mul(x, 13, 2, ops.n_val() as int);
    }
    let ff = scalar_sqr_mul(ops, &d_1111, 4, &d_1111);
    proof {
        assert(0xf * 0x10 + 0xf == 0xff) by (nonlinear_arith);
        lemma_mont_chain_step(&ops.n_mont, nl, x, d_1111.val(nl), d_1111.val(nl), ff.val(nl), 0xf, 4, 0xf, 0x10, 0xff);
    }
    let ffff = scalar_sqr_mul(ops, &ff, 8, &ff);
    proof {
        assert(0xff * 0x100 + 0xff == 0xffff) by (nonlinear_arith);
        lemma_mont_chain_step(&ops.n_mont, nl, x, ff.val(nl), ff.val(nl), ffff.val(nl), 0xff, 8, 0xff, 0x100, 0xffff);
    }
    let ffffffff = scalar_sqr_mul(ops, &ffff, 16, &ffff);
    proof {
        assert(0xffff * 0x10000 + 0xffff == 0xffffffff) by (nonlinear_arith);
        lemma_mont_chain_step(&ops.n_mont, nl, x, ffff.val(nl), ffff.val(nl), ffffffff.val(nl), 0xffff, 16, 0xffff, 0x10000, 0xffffffff);
    }
    let ones_64 = scalar_sqr_mul(ops, &ffffffff, 32, &ffffffff);
    proof {
        assert(0xffffffff * 0x100000000 + 0xffffffff == 0xffffffffffffffff) by (nonlinear_arith);
        lemma_mont_chain_step(&ops.n_mont, nl, x, ffffffff.val(nl), ffffffff.val(nl), ones_64.val(nl), 0xffffffff, 32, 0xffffffff, 0x100000000, 0xffffffffffffffff);
    }
    let ones_96 = scalar_sqr_mul(ops, &ones_64, 32, &ffffffff);
    proof {
        assert(0xffffffffffffffff * 0x100000000 + 0xffffffff == 0xffffffffffffffffffffffff) by (nonlinear_arith);
        lemma_mont_chain_step(&ops.n_mont, nl, x, ones_64.val(nl), ffffffff.val(nl), ones_96.val(nl), 0xffffffffffffffff, 32, 0xffffffff, 0x100000000, 0xffffffffffffffffffffffff);
    }
    let mut acc = scalar_sqr_mul(ops, &ones_96, 96, &ones_96);
    proof {
        assert(0xffffffffffffffffffffffff * 0x1000000000000000000000000 + 0xffffffffffffffffffffffff == (0xffffffffffffffff + 0x1_0000_0000_0000_0000 * (0xffffffffffffffff + 0x1_0000_0000_0000_0000 * 0xffffffffffffffff))) by (nonlinear_arith);
        lemma_mont_chain_step(&ops.n_mont, nl, x, ones_96.val(nl), ones_96.val(nl), acc.val(nl), 0xffffffffffffffffffffffff, 96, 0xffffffffffffffffffffffff, 0x1000000000000000000000000, (0xffffffffffffffff + 0x1_0000_0000_0000_0000 * (0xffffffffffffffff + 0x1_0000_0000_0000_0000 * 0xffffffffffffffff)));
    }
    let ghost old_acc = acc.val(nl);
    scalar_sqr_mul_acc(ops, &mut acc, 2, &d_11);
    proof {
        assert((0xffffffffffffffff + 0x1_0000_0000_0000_0000 * (0xffffffffffffffff + 0x1_0000_0000_0000_0000 * 0xffffffffffffffff)) * 0x4 + 0x3 == (0xffffffffffffffff + 0x1_0000_0000_0000_0000 * (0xffffffffffffffff + 0x1_0000_0000_0000_0000 * (0xffffffffffffffff + 0x1_0000_0000_0000_0000 * 0x3)))) by (nonlinear_arith);
        lemma_mont_chain_step(&ops.n_mont, nl, x, old_acc, d_11.val(nl), acc.val(nl), (0xffffffffffffffff + 0x1_0000_0000_0000_0000 * (0xffffffffffffffff + 0x1_0000_0000_0000_0000 * 0xffffffffffffffff)), 2, 0x3, 0x4, (0xffffffffffffffff + 0x1_0000_0000_0000_0000 * (0xffffffffffffffff + 0x1_0000_0000_0000_0000 * (0xffffffffffffffff + 0x1_0000_0000_0000_0000 * 0x3))));
    }
    let ghost old_acc = acc.val(nl);
    scalar_sqr_mul_acc(ops, &mut acc, 6, &d_111);
    proof {
        assert((0xffffffffffffffff + 0x1_0000_0000_0000_0000 * (0xffffffffffffffff + 0x1_0000_0000_0000_0000 * (0xffffffffffffffff + 0x1_0000_0000_0000_0000 * 0x3))) * 0x40 + 0x7 == (0xffffffffffffffc7 + 0x1_0000_0000_0000_0000 * (0xffffffffffffffff + 0x1_0000_0000_0000_0000 * (0xffffffffffffffff + 0x1_0000_0000_0000_0000 * 0xff)))) by (nonlinear_arith);
        lemma_mont_chain_step(&ops.n_mont, nl, x, old_acc, d_111.val(nl), acc.val(nl), (0xffffffffffffffff + 0x1_0000_0000_0000_0000 * (0xffffffffffffffff + 0x1_0000_0000_0000_0000 * (0xffffffffffffffff + 0x1_0000_0000_0000_0000 * 0x3))), 6, 0x7, 0x40, (0xffffffffffffffc7 + 0x1_0000_0000_0000_0000 * (0xffffffffffffffff + 0x1_0000_0000_0000_0000 * (0xffffffffffffffff + 0x1_0000_0000_0000_0000 * 0xff))));
    }
    let ghost old_acc = acc.val(nl);
    scalar_sqr_mul_acc(ops, &mut acc, 3, &d_11);
    proof {
        assert((0xffffffffffffffc7 + 0x1_0000_0000_0000_0000 * (0xffffffffffffffff + 0x1_0000_0000_0000_0000 * (0xffffffffffffffff + 0x1_0000_0000_0000_0000 * 0xff))) * 0x8 + 0x3 == (0xfffffffffffffe3b + 0x1_0000_0000_0000_0000 * (0xffffffffffffffff + 0x1_0000_0000_0000_0000 * (0xffffffffffffffff + 0x1_0000_0000_0000_0000 * 0x7ff)))) by (nonlinear_arith);
        lemma_mont_chain_step(&ops.n_mont, nl, x, old_acc, d_11.val(nl), acc.val(nl), (0xffffffffffffffc7 + 0x1_0000_0000_0000_0000 * (0xffffffffffffffff + 0x1_0000_0000_0000_0000 * (0xffffffffffffffff + 0x1_0000_0000_0000_0000 * 0xff))), 3, 0x3, 0x8, (0xfffffffffffffe3b + 0x1_0000_0000_0000_0000 * (0xffffffffffffffff + 0x1_0000_0000_0000_0000 * (0xffffffffffffffff + 0x1_0000_0000_0000_0000 * 0x7ff))));
    }
    let ghost old_acc = acc.val(nl);
    scalar_sqr_mul_acc(ops, &mut acc, 5, &d_11);
    proof {
        assert((0xfffffffffffffe3b + 0x1_0000_0000_0000_0000 * (0xffffffffffffffff + 0x1_0000_0000_0000_0000 * (0xffffffffffffffff + 0x1_0000_0000_0000_0000 * 0x7ff))) * 0x20 + 0x3 == (0xffffffffffffc763 + 0x1_0000_0000_0000_0000 * (0xffffffffffffffff + 0x1_0000_0000_0000_0000 * (0xffffffffffffffff + 0x1_0000_0000_0000_0000 * 0xffff)))) by (nonlinear_arith);
        lemma_mont_chain_step(&ops.n_mont, nl, x, old_acc, d_11.val(nl), acc.val(nl), (0xfffffffffffffe3b + 0x1_0000_0000_0000_0000 * (0xffffffffffffffff + 0x1_0000_0000_0000_0000 * (0xffffffffffffffff + 0x1_0000_0000_0000_0000 * 0x7ff))), 5, 0x3, 0x20, (0xffffffffffffc763 + 0x1_0000_0000_0000_0000 * (0xffffffffffffffff + 0x1_0000_0000_0000_0000 * (0xffffffffffffffff + 0x1_0000_0000_0000_0000 * 0xffff))));
    }
    let ghost old_acc = acc.val(nl);
    scalar_sqr_mul_acc(ops, &mut acc, 5, &d_1001);
    proof {
        assert((0xffffffffffffc763 + 0x1_0000_0000_0000_0000 * (0xffffffffffffffff + 0x1_0000_0000_0000_0000 * (0xffffffffffffffff + 0x1_0000_0000_0000_0000 * 0xffff))) * 0x20 + 0x9 == (0xfffffffffff8ec69 + 0x1_0000_0000_0000_0000 * (0xffffffffffffffff + 0x1_0000_0000_0000_0000 * (0xffffffffffffffff + 0x1_0000_0000_0000_0000 * 0x1fffff)))) by (nonlinear_arith);
        lemma_mont_chain_step(&ops.n_mont, nl, x, old_acc, d_1001.val(nl), acc.val(nl), (0xffffffffffffc763 + 0x1_0000_0000_0000_0000 * (0xffffffffffffffff + 0x1_0000_0000_0000_0000 * (0xffffffffffffffff + 0x1_0000_0000_0000_0000 * 0xffff))), 5, 0x9, 0x20, (0xfffffffffff8ec69 + 0x1_0000_0000_0000_0000 * (0xffffffffffffffff + 0x1_0000_0000_0000_0000 * (0xffffffffffffffff + 0x1_0000_0000_0000_0000 * 0x1fffff))));
    }
    let ghost old_acc = acc.val(nl);
    scalar_sqr_mul_acc(ops, &mut acc, 4, &d_1011);
    proof {
        assert((0xfffffffffff8ec69 + 0x1_0000_0000_0000_0000 * (0xffffffffffffffff + 0x1_0000_0000_0000_0000 * (0xffffffffffffffff + 0x1_0000_0000_0000_0000 * 0x1fffff))) * 0x10 + 0xb == (0xffffffffff8ec69b + 0x1_0000_0000_0000_0000 * (0xffffffffffffffff + 0x1_0000_0000_0000_0000 * (0xffffffffffffffff + 0x1_0000_0000_0000_0000 * 0x1ffffff)))) by (nonlinear_arith);
        lemma_mont_chain_step(&ops.n_mont, nl, x, old_acc, d_1011.val(nl), acc.val(nl), (0xfffffffffff8ec69 + 0x1_0000_0000_0000_0000 * (0xffffffffffffffff + 0x1_0000_0000_0000_0000 * (0xffffffffffffffff + 0x1_0000_0000_0000_0000 * 0x1fffff))), 4, 0xb, 0x10, (0xffffffffff8ec69b + 0x1_0000_0000_0000_0000 * (0xffffffffffffffff + 0x1_0000_0000_0000_0000 * (0xffffffffffffffff + 0x1_0000_0000_0000_0000 * 0x1ffffff))));
    }
    let ghost old_acc = acc.val(nl);
    scalar_sqr_mul_acc(ops, &mut acc, 10, &d_1111);
    proof {
        assert((0xffffffffff8ec69b + 0x1_0000_0000_0000_0000 * (0xffffffffffffffff + 0x1_0000_0000_0000_0000 * (0xffffffffffffffff + 0x1_0000_0000_0000_0000 * 0x1ffffff))) * 0x400 + 0xf == (0xfffffffe3b1a6c0f + 0x1_0000_0000_0000_0000 * (0xffffffffffffffff + 0x1_0000_0000_0000_0000 * (0xffffffffffffffff + 0x1_0000_0000_0000_0000 * 0x7ffffffff)))) by (nonlinear_arith);
        lemma_mont_chain_step(&ops.n_mont, nl, x, old_acc, d_1111.val(nl), acc.val(nl), (0xffffffffff8ec69b + 0x1_0000_0000_0000_0000 * (0xffffffffffffffff + 0x1_0000_0000_0000_0000 * (0xffffffffffffffff + 0x1_0000_0000_0000_0000 * 0x1ffffff))), 10, 0xf, 0x400, (0xfffffffe3b1a6c0f + 0x1_0000_0000_0000_0000 * (0xffffffffffffffff + 0x1_0000_0000_0000_0000 * (0xffffffffffffffff + 0x1_0000_0000_0000_0000 * 0x7ffffffff))));
    }
    let ghost old_acc = acc.val(nl);
    scalar_sqr_mul_acc(ops, &mut acc, 3, &d_101);
    proof {
        assert((0xfffffffe3b1a6c0f + 0x1_0000_0000_0000_0000 * (0xffffffffffffffff + 0x1_0000_0000_0000_0000 * (0xffffffffffffffff + 0x1_0000_0000_0000_0000 * 0x7ffffffff))) * 0x8 + 0x5 == (0xfffffff1d8d3607d + 0x1_0000_0000_0000_0000 * (0xffffffffffffffff + 0x1_0000_0000_0000_0000 * (0xffffffffffffffff + 0x1_0000_0000_0000_0000 * 0x3fffffffff)))) by (nonlinear_arith);
        lemma_mont_chain_step(&ops.n_mont, nl, x, old_acc, d_101.val(nl), acc.val(nl), (0xfffffffe3b1a6c0f + 0x1_0000_0000_0000_0000 * (0xffffffffffffffff + 0x1_0000_0000_0000_0000 * (0xffffffffffffffff + 0x1_0000_0000_0000_0000 * 0x7ffffffff))), 3, 0x5, 0x8, (0xfffffff1d8d3607d + 0x1_0000_0000_0000_0000 * (0xffffffffffffffff + 0x1_0000_0000_0000_0000 * (0xffffffffffffffff + 0x1_0000_0000_0000_0000 * 0x3fffffffff))));
    }
    let ghost old_acc = acc.val(nl);
    scalar_sqr_mul_acc(ops, &mut acc, 5, &d_1);
    proof {
        assert((0xfffffff1d8d3607d + 0x1_0000_0000_0000_0000 * (0xffffffffffffffff + 0x1_0000_0000_0000_0000 * (0xffffffffffffffff + 0x1_0000_0000_0000_0000 * 0x3fffffffff))) * 0x20 + 0x1 == (0xfffffe3b1a6c0fa1 + 0x1_0000_0000_0000_0000 * (0xffffffffffffffff + 0x1_0000_0000_0000_0000 * (0xffffffffffffffff + 0x1_0000_0000_0000_0000 * 0x7ffffffffff)))) by (nonlinear_arith);
        lemma_mont_chain_step(&ops.n_mont, nl, x, old_acc, d_1.val(nl), acc.val(nl), (0xfffffff1d8d3607d + 0x1_0000_0000_0000_0000 * (0xffffffffffffffff + 0x1_0000_0000_0000_0000 * (0xffffffffffffffff + 0x1_0000_0000_0000_0000 * 0x3fffffffff))), 5, 0x1, 0x20, (0xfffffe3b1a6c0fa1 + 0x1_0000_0000_0000_0000 * (0xffffffffffffffff + 0x1_0000_0000_0000_0000 * (0xffffffffffffffff + 0x1_0000_0000_0000_0000 * 0x7ffffffffff))));
    }
    let ghost old_acc = acc.val(nl);
    scalar_sqr_mul_acc(ops, &mut acc, 4, &d_1011);
    proof {
        assert((0xfffffe3b1a6c0fa1 + 0x1_0000_0000_0000_0000 * (0xffffffffffffffff + 0x1_0000_0000_0000_0000 * (0xffffffffffffffff + 0x1_0000_0000_0000_0000 * 0x7ffffffffff))) * 0x10 + 0xb == (0xffffe3b1a6c0fa1b + 0x1_0000_0000_0000_0000 * (0xffffffffffffffff + 0x1_0000_0000_0000_0000 * (0xffffffffffffffff + 0x1_0000_0000_0000_0000 * 0x7fffffffffff)))) by (nonlinear_arith);
        lemma_mont_chain_step(&ops.n_mont, nl, x, old_acc, d_1011.val(nl), acc.val(nl), (0xfffffe3b1a6c0fa1 + 0x1_0000_0000_0000_0000 * (0xffffffffffffffff + 0x1_0000_0000_0000_0000 * (0xffffffffffffffff + 0x1_0000_0000_0000_0000 * 0x7ffffffffff))), 4, 0xb, 0x10, (0xffffe3b1a6c0fa1b + 0x1_0000_0000_0000_0000 * (0xffffffffffffffff + 0x1_0000_0000_0000_0000 * (0xffffffffffffffff + 0x1_0000_0000_0000_0000 * 0x7fffffffffff))));
    }
    let ghost old_acc = acc.val(nl);
    scalar_sqr_mul_acc(ops, &mut acc, 4, &d_1001);
    proof {
        assert((0xffffe3b1a6c0fa1b + 0x1_0000_0000_0000_0000 * (0xffffffffffffffff + 0x1_0000_0000_0000_0000 * (0xffffffffffffffff + 0x1_0000_0000_0000_0000 * 0x7fffffffffff))) * 0x10 + 0x9 == (0xfffe3b1a6c0fa1b9 + 0x1_0000_0000_0000_0000 * (0xffffffffffffffff + 0x1_0000_0000_0000_0000 * (0xffffffffffffffff + 0x1_0000_0000_0000_0000 * 0x7ffffffffffff)))) by (nonlinear_arith);
        lemma_mont_chain_step(&ops.n_mont, nl, x, old_acc, d_1001.val(nl), acc.val(nl), (0xffffe3b1a6c0fa1b + 0x1_0000_0000_0000_0000 * (0xffffffffffffffff + 0x1_0000_0000_0000_0000 * (0xffffffffffffffff + 0x1_0000_0000_0000_0000 * 0x7fffffffffff))), 4, 0x9, 0x10, (0xfffe3b1a6c0fa1b9 + 0x1_0000_0000_0000_0000 * (0xffffffffffffffff + 0x1_0000_0000_0000_0000 * (0xffffffffffffffff + 0x1_0000_0000_0000_0000 * 0x7ffffffffffff))));
    }
    let ghost old_acc = acc.val(nl);
    scalar_sqr_mul_acc(ops, &mut acc, 5, &d_1101);
    proof {
        assert((0xfffe3b1a6c0fa1b9 + 0x1_0000_0000_0000_0000 * (0xffffffffffffffff + 0x1_0000_0000_0000_0000 * (0xffffffffffffffff + 0x1_0000_0000_0000_0000 * 0x7ffffffffffff))) * 0x20 + 0xd == (0xffc7634d81f4372d + 0x1_0000_0000_0000_0000 * (0xffffffffffffffff + 0x1_0000_0000_0000_0000 * (0xffffffffffffffff + 0x1_0000_0000_0000_0000 * 0xffffffffffffff)))) by (nonlinear_arith);
        lemma_mont_chain_step(&ops.n_mont, nl, x, old_acc, d_1101.val(nl), acc.val(nl), (0xfffe3b1a6c0fa1b9 + 0x1_0000_0000_0000_0000 * (0xffffffffffffffff + 0x1_0000_0000_0000_0000 * (0xffffffffffffffff + 0x1_0000_0000_0000_0000 * 0x7ffffffffffff))), 5, 0xd, 0x20, (0xffc7634d81f4372d + 0x1_0000_0000_0000_0000 * (0xffffffffffffffff + 0x1_0000_0000_0000_0000 * (0xffffffffffffffff + 0x1_0000_0000_0000_0000 * 0xffffffffffffff))));
    }
    let ghost old_acc = acc.val(nl);
    scalar_sqr_mul_acc(ops, &mut acc, 4, &d_1101);
    proof {
        assert((0xffc7634d81f4372d + 0x1_0000_0000_0000_0000 * (0xffffffffffffffff + 0x1_0000_0000_0000_0000 * (0xffffffffffffffff + 0x1_0000_0000_0000_0000 * 0xffffffffffffff))) * 0x10 + 0xd == (0xfc7634d81f4372dd + 0x1_0000_0000_0000_0000 * (0xffffffffffffffff + 0x1_0000_0000_0000_0000 * (0xffffffffffffffff + 0x1_0000_0000_0000_0000 * 0xfffffffffffffff)))) by (nonlinear_arith);
        lemma_mont_chain_step(&ops.n_mont, nl, x, old_acc, d_1101.val(nl), acc.val(nl), (0xffc7634d81f4372d + 0x1_0000_0000_0000_0000 * (0xffffffffffffffff + 0x1_0000_0000_0000_0000 * (0xffffffffffffffff + 0x1_0000_0000_0000_0000 * 0xffffffffffffff))), 4, 0xd, 0x10, (0xfc7634d81f4372dd + 0x1_0000_0000_0000_0000 * (0xffffffffffffffff + 0x1_0000_0000_0000_0000 * (0xffffffffffffffff + 0x1_0000_0000_0000_0000 * 0xfffffffffffffff))));
    }
    let ghost old_acc = acc.val(nl);
    scalar_sqr_mul_acc(ops, &mut acc, 4, &d_1111);
    proof {
        assert((0xfc7634d81f4372dd + 0x1_0000_0000_0000_0000 * (0xffffffffffffffff + 0x1_0000_0000_0000_0000 * (0xffffffffffffffff + 0x1_0000_0000_0000_0000 * 0xfffffffffffffff))) * 0x10 + 0xf == (0xc7634d81f4372ddf + 0x1_0000_0000_0000_0000 * (0xffffffffffffffff + 0x1_0000_0000_0000_0000 * (0xffffffffffffffff + 0x1_0000_0000_0000_0000 * 0xffffffffffffffff)))) by (nonlinear_arith);
        lemma_mont_chain_step(&ops.n_mont, nl, x, old_acc, d_1111.val(nl), acc.val(nl), (0xfc7634d81f4372dd + 0x1_0000_0000_0000_0000 * (0xffffffffffffffff + 0x1_0000_0000_0000_0000 * (0xffffffffffffffff + 0x1_0000_0000_0000_0000 * 0xfffffffffffffff))), 4, 0xf, 0x10, (0xc7634d81f4372ddf + 0x1_0000_0000_0000_0000 * (0xffffffffffffffff + 0x1_0000_0000_0000_0000 * (0xffffffffffffffff + 0x1_0000_0000_0000_0000 * 0xffffffffffffffff))));
    }
    let ghost old_acc = acc.val(nl);
    scalar_sqr_mul_acc(ops, &mut acc, 5, &d_1011);
    proof {
        assert((0xc7634d81f4372ddf + 0x1_0000_0000_0000_0000 * (0xffffffffffffffff + 0x1_0000_0000_0000_0000 * (0xffffffffffffffff + 0x1_0000_0000_0000_0000 * 0xffffffffffffffff))) * 0x20 + 0xb == (0xec69b03e86e5bbeb + 0x1_0000_0000_0000_0000 * (0xfffffffffffffff8 + 0x1_0000_0000_0000_0000 * (0xffffffffffffffff + 0x1_0000_0000_0000_0000 * (0xffffffffffffffff + 0x1_0000_0000_0000_0000 * 0x1f))))) by (nonlinear_arith);
        lemma_mont_chain_step(&ops.n_mont, nl, x, old_acc, d_1011.val(nl), acc.val(nl), (0xc7634d81f4372ddf + 0x1_0000_0000_0000_0000 * (0xffffffffffffffff + 0x1_0000_0000_0000_0000 * (0xffffffffffffffff + 0x1_0000_0000_0000_0000 * 0xffffffffffffffff))), 5, 0xb, 0x20, (0xec69b03e86e5bbeb + 0x1_0000_0000_0000_0000 * (0xfffffffffffffff8 + 0x1_0000_0000_0000_0000 * (0xffffffffffffffff + 0x1_0000_0000_0000_0000 * (0xffffffffffffffff + 0x1_0000_0000_0000_0000 * 0x1f)))));
    }
    let ghost old_acc = acc.val(nl);
    scalar_sqr_mul_acc(ops, &mut acc, 10, &d_1101);
    proof {
        assert((0xec69b03e86e5bbeb + 0x1_0000_0000_0000_0000 * (0xfffffffffffffff8 + 0x1_0000_0000_0000_0000 * (0xffffffffffffffff + 0x1_0000_0000_0000_0000 * (0xffffffffffffffff + 0x1_0000_0000_0000_0000 * 0x1f)))) * 0x400 + 0xd == (0xa6c0fa1b96efac0d + 0x1_0000_0000_0000_0000 * (0xffffffffffffe3b1 + 0x1_0000_0000_0000_0000 * (0xffffffffffffffff + 0x1_0000_0000_0000_0000 * (0xffffffffffffffff + 0x1_0000_0000_0000_0000 * 0x7fff))))) by (nonlinear_arith);
        lemma_mont_chain_step(&ops.n_mont, nl, x, old_acc, d_1101.val(nl), acc.val(nl), (0xec69b03e86e5bbeb + 0x1_0000_0000_0000_0000 * (0xfffffffffffffff8 + 0x1_0000_0000_0000_0000 * (0xffffffffffffffff + 0x1_0000_0000_0000_0000 * (0xffffffffffffffff + 0x1_0000_0000_0000_0000 * 0x1f)))), 10, 0xd, 0x400, (0xa6c0fa1b96efac0d + 0x1_0000_0000_0000_0000 * (0xffffffffffffe3b1 + 0x1_0000_0000_0000_0000 * (0xffffffffffffffff + 0x1_0000_0000_0000_0000 * (0xffffffffffffffff + 0x1_0000_0000_0000_0000 * 0x7fff)))));
    }
    let ghost old_acc = acc.val(nl);
    scalar_sqr_mul_acc(ops, &mut acc, 9, &d_1101);
    proof {
        assert((0xa6c0fa1b96efac0d + 0x1_0000_0000_0000_0000 * (0xffffffffffffe3b1 + 0x1_0000_0000_0000_0000 * (0xffffffffffffffff + 0x1_0000_0000_0000_0000 * (0xffffffffffffffff + 0x1_0000_0000_0000_0000 * 0x7fff)))) * 0x200 + 0xd == (0x81f4372ddf581a0d + 0x1_0000_0000_0000_0000 * (0xffffffffffc7634d + 0x1_0000_0000_0000_0000 * (0xffffffffffffffff + 0x1_0000_0000_0000_0000 * (0xffffffffffffffff + 0x1_0000_0000_0000_0000 * 0xffffff))))) by (nonlinear_arith);
        lemma_mont_chain_step(&ops.n_mont, nl, x, old_acc, d_1101.val(nl), acc.val(nl), (0xa6c0fa1b96efac0d + 0x1_0000_0000_0000_0000 * (0xffffffffffffe3b1 + 0x1_0000_0000_0000_0000 * (0xffffffffffffffff + 0x1_0000_0000_0000_0000 * (0xffffffffffffffff + 0x1_0000_0000_0000_0000 * 0x7fff)))), 9, 0xd, 0x200, (0x81f4372ddf581a0d + 0x1_0000_0000_0000_0000 * (0xffffffffffc7634d + 0x1_0000_0000_0000_0000 * (0xffffffffffffffff + 0x1_0000_0000_0000_0000 * (0xffffffffffffffff + 0x1_0000_0000_0000_0000 * 0xffffff)))));
    }
    let ghost old_acc = acc.val(nl);
    scalar_sqr_mul_acc(ops, &mut acc, 4, &d_1011);
    proof {
        assert((0x81f4372ddf581a0d + 0x1_0000_0000_0000_0000 * (0xffffffffffc7634d + 0x1_0000_0000_0000_0000 * (0xffffffffffffffff + 0x1_0000_0000_0000_0000 * (0xffffffffffffffff + 0x1_0000_0000_0000_0000 * 0xffffff)))) * 0x10 + 0xb == (0x1f4372ddf581a0db + 0x1_0000_0000_0000_0000 * (0xfffffffffc7634d8 + 0x1_0000_0000_0000_0000 * (0xffffffffffffffff + 0x1_0000_0000_0000_0000 * (0xffffffffffffffff + 0x1_0000_0000_0000_0000 * 0xfffffff))))) by (nonlinear_arith);
        lemma_mont_chain_step(&ops.n_mont, nl, x, old_acc, d_1011.val(nl), acc.val(nl), (0x81f4372ddf581a0d + 0x1_0000_0000_0000_0000 * (0xffffffffffc7634d + 0x1_0000_0000_0000_0000 * (0xffffffffffffffff + 0x1_0000_0000_0000_0000 * (0xffffffffffffffff + 0x1_0000_0000_0000_0000 * 0xffffff)))), 4, 0xb, 0x10, (0x1f4372ddf581a0db + 0x1_0000_0000_0000_0000 * (0xfffffffffc7634d8 + 0x1_0000_0000_0000_0000 * (0xffffffffffffffff + 0x1_0000_0000_0000_0000 * (0xffffffffffffffff + 0x1_0000_0000_0000_0000 * 0xfffffff)))));
    }
    let ghost old_acc = acc.val(nl);
    scalar_sqr_mul_acc(ops, &mut acc, 6, &d_1001);
    proof {
        assert((0x1f4372ddf581a0db + 0x1_0000_0000_0000_0000 * (0xfffffffffc7634d8 + 0x1_0000_0000_0000_0000 * (0xffffffffffffffff + 0x1_0000_0000_0000_0000 * (0xffffffffffffffff + 0x1_0000_0000_0000_0000 * 0xfffffff)))) * 0x40 + 0x9 == (0xd0dcb77d606836c9 + 0x1_0000_0000_0000_0000 * (0xffffffff1d8d3607 + 0x1_0000_0000_0000_0000 * (0xffffffffffffffff + 0x1_0000_0000_0000_0000 * (0xffffffffffffffff + 0x1_0000_0000_0000_0000 * 0x3ffffffff))))) by (nonlinear_arith);
        lemma_mont_chain_step(&ops.n_mont, nl, x, old_acc, d_1001.val(nl), acc.val(nl), (0x1f4372ddf581a0db + 0x1_0000_0000_0000_0000 * (0xfffffffffc7634d8 + 0x1_0000_0000_0000_0000 * (0xffffffffffffffff + 0x1_0000_0000_0000_0000 * (0xffffffffffffffff + 0x1_0000_0000_0000_0000 * 0xfffffff)))), 6, 0x9, 0x40, (0xd0dcb77d606836c9 + 0x1_0000_0000_0000_0000 * (0xffffffff1d8d3607 + 0x1_0000_0000_0000_0000 * (0xffffffffffffffff + 0x1_0000_0000_0000_0000 * (0xffffffffffffffff + 0x1_0000_0000_0000_0000 * 0x3ffffffff)))));
    }
    let ghost old_acc = acc.val(nl);
    scalar_sqr_mul_acc(ops, &mut acc, 3, &d_1);
    proof {
        assert((0xd0dcb77d606836c9 + 0x1_0000_0000_0000_0000 * (0xffffffff1d8d3607 + 0x1_0000_0000_0000_0000 * (0xffffffffffffffff + 0x1_0000_0000_0000_0000 * (0xffffffffffffffff + 0x1_0000_0000_0000_0000 * 0x3ffffffff)))) * 0x8 + 0x1 == (0x86e5bbeb0341b649 + 0x1_0000_0000_0000_0000 * (0xfffffff8ec69b03e + 0x1_0000_0000_0000_0000 * (0xffffffffffffffff + 0x1_0000_0000_0000_0000 * (0xffffffffffffffff + 0x1_0000_0000_0000_0000 * 0x1fffffffff))))) by (nonlinear_arith);
        lemma_mont_chain_step(&ops.n_mont, nl, x, old_acc, d_1.val(nl), acc.val(nl), (0xd0dcb77d606836c9 + 0x1_0000_0000_0000_0000 * (0xffffffff1d8d3607 + 0x1_0000_0000_0000_0000 * (0xffffffffffffffff + 0x1_0000_0000_0000_0000 * (0xffffffffffffffff + 0x1_0000_0000_0000_0000 * 0x3ffffffff)))), 3, 0x1, 0x8, (0x86e5bbeb0341b649 + 0x1_0000_0000_0000_0000 * (0xfffffff8ec69b03e + 0x1_0000_0000_0000_0000 * (0xffffffffffffffff + 0x1_0000_0000_0000_0000 * (0xffffffffffffffff + 0x1_0000_0000_0000_0000 * 0x1fffffffff)))));
    }
    let ghost old_acc = acc.val(nl);
    scalar_sqr_mul_acc(ops, &mut acc, 7, &d_1011);
    proof {
        assert((0x86e5bbeb0341b649 + 0x1_0000_0000_0000_0000 * (0xfffffff8ec69b03e + 0x1_0000_0000_0000_0000 * (0xffffffffffffffff + 0x1_0000_0000_0000_0000 * (0xffffffffffffffff + 0x1_0000_0000_0000_0000 * 0x1fffffffff)))) * 0x80 + 0xb == (0x72ddf581a0db248b + 0x1_0000_0000_0000_0000 * (0xfffffc7634d81f43 + 0x1_0000_0000_0000_0000 * (0xffffffffffffffff + 0x1_0000_0000_0000_0000 * (0xffffffffffffffff + 0x1_0000_0000_0000_0000 * 0xfffffffffff))))) by (nonlinear_arith);
        lemma_mont_chain_step(&ops.n_mont, nl, x, old_acc, d_1011.val(nl), acc.val(nl), (0x86e5bbeb0341b649 + 0x1_0000_0000_0000_0000 * (0xfffffff8ec69b03e + 0x1_0000_0000_0000_0000 * (0xffffffffffffffff + 0x1_0000_0000_0000_0000 * (0xffffffffffffffff + 0x1_0000_0000_0000_0000 * 0x1fffffffff)))), 7, 0xb, 0x80, (0x72ddf581a0db248b + 0x1_0000_0000_0000_0000 * (0xfffffc7634d81f43 + 0x1_0000_0000_0000_0000 * (0xffffffffffffffff + 0x1_0000_0000_0000_0000 * (0xffffffffffffffff + 0x1_0000_0000_0000_0000 * 0xfffffffffff)))));
    }
    let ghost old_acc = acc.val(nl);
    scalar_sqr_mul_acc(ops, &mut acc, 7, &d_101);
    proof {
        assert((0x72ddf581a0db248b + 0x1_0000_0000_0000_0000 * (0xfffffc7634d81f43 + 0x1_0000_0000_0000_0000 * (0xffffffffffffffff + 0x1_0000_0000_0000_0000 * (0xffffffffffffffff + 0x1_0000_0000_0000_0000 * 0xfffffffffff)))) * 0x80 + 0x5 == (0x6efac0d06d924585 + 0x1_0000_0000_0000_0000 * (0xfffe3b1a6c0fa1b9 + 0x1_0000_0000_0000_0000 * (0xffffffffffffffff + 0x1_0000_0000_0000_0000 * (0xffffffffffffffff + 0x1_0000_0000_0000_0000 * 0x7ffffffffffff))))) by (nonlinear_arith);
        lemma_mont_chain_step(&ops.n_mont, nl, x, old_acc, d_101.val(nl), acc.val(nl), (0x72ddf581a0db248b + 0x1_0000_0000_0000_0000 * (0xfffffc7634d81f43 + 0x1_0000_0000_0000_0000 * (0xffffffffffffffff + 0x1_0000_0000_0000_0000 * (0xffffffffffffffff + 0x1_0000_0000_0000_0000 * 0xfffffffffff)))), 7, 0x5, 0x80, (0x6efac0d06d924585 + 0x1_0000_0000_0000_0000 * (0xfffe3b1a6c0fa1b9 + 0x1_0000_0000_0000_0000 * (0xffffffffffffffff + 0x1_0000_0000_0000_0000 * (0xffffffffffffffff + 0x1_0000_0000_0000_0000 * 0x7ffffffffffff)))));
    }
    let ghost old_acc = acc.val(nl);
    scalar_sqr_mul_acc(ops, &mut acc, 5, &d_111);
    proof {
        assert((0x6efac0d06d924585 + 0x1_0000_0000_0000_0000 * (0xfffe3b1a6c0fa1b9 + 0x1_0000_0000_0000_0000 * (0xffffffffffffffff + 0x1_0000_0000_0000_0000 * (0xffffffffffffffff + 0x1_0000_0000_0000_0000 * 0x7ffffffffffff)))) * 0x20 + 0x7 == (0xdf581a0db248b0a7 + 0x1_0000_0000_0000_0000 * (0xffc7634d81f4372d + 0x1_0000_0000_0000_0000 * (0xffffffffffffffff + 0x1_0000_0000_0000_0000 * (0xffffffffffffffff + 0x1_0000_0000_0000_0000 * 0xffffffffffffff))))) by (nonlinear_arith);
        lemma_mont_chain_step(&ops.n_mont, nl, x, old_acc, d_111.val(nl), acc.val(nl), (0x6efac0d06d924585 + 0x1_0000_0000_0000_0000 * (0xfffe3b1a6c0fa1b9 + 0x1_0000_0000_0000_0000 * (0xffffffffffffffff + 0x1_0000_0000_0000_0000 * (0xffffffffffffffff + 0x1_0000_0000_0000_0000 * 0x7ffffffffffff)))), 5, 0x7, 0x20, (0xdf581a0db248b0a7 + 0x1_0000_0000_0000_0000 * (0xffc7634d81f4372d + 0x1_0000_0000_0000_0000 * (0xffffffffffffffff + 0x1_0000_0000_0000_0000 * (0xffffffffffffffff + 0x1_0000_0000_0000_0000 * 0xffffffffffffff)))));
    }
    let ghost old_acc = acc.val(nl);
    scalar_sqr_mul_acc(ops, &mut acc, 5, &d_1111);
    proof {
        assert((0xdf581a0db248b0a7 + 0x1_0000_0000_0000_0000 * (0xffc7634d81f4372d + 0x1_0000_0000_0000_0000 * (0xffffffffffffffff + 0x1_0000_0000_0000_0000 * (0xffffffffffffffff + 0x1_0000_0000_0000_0000 * 0xffffffffffffff)))) * 0x20 + 0xf == (0xeb0341b6491614ef + 0x1_0000_0000_0000_0000 * (0xf8ec69b03e86e5bb + 0x1_0000_0000_0000_0000 * (0xffffffffffffffff + 0x1_0000_0000_0000_0000 * (0xffffffffffffffff + 0x1_0000_0000_0000_0000 * 0x1fffffffffffffff))))) by (nonlinear_arith);
        lemma_mont_chain_step(&ops.n_mont, nl, x, old_acc, d_1111.val(nl), acc.val(nl), (0xdf581a0db248b0a7 + 0x1_0000_0000_0000_0000 * (0xffc7634d81f4372d + 0x1_0000_0000_0000_0000 * (0xffffffffffffffff + 0x1_0000_0000_0000_0000 * (0xffffffffffffffff + 0x1_0000_0000_0000_0000 * 0xffffffffffffff)))), 5, 0xf, 0x20, (0xeb0341b6491614ef + 0x1_0000_0000_0000_0000 * (0xf8ec69b03e86e5bb + 0x1_0000_0000_0000_0000 * (0xffffffffffffffff + 0x1_0000_0000_0000_0000 * (0xffffffffffffffff + 0x1_0000_0000_0000_0000 * 0x1fffffffffffffff)))));
    }
    let ghost old_acc = acc.val(nl);
    scalar_sqr_mul_acc(ops, &mut acc, 5, &d_1011);
    proof {
        assert((0xeb0341b6491614ef + 0x1_0000_0000_0000_0000 * (0xf8ec69b03e86e5bb + 0x1_0000_0000_0000_0000 * (0xffffffffffffffff + 0x1_0000_0000_0000_0000 * (0xffffffffffffffff + 0x1_0000_0000_0000_0000 * 0x1fffffffffffffff)))) * 0x20 + 0xb == (0x606836c922c29deb + 0x1_0000_0000_0000_0000 * (0x1d8d3607d0dcb77d + 0x1_0000_0000_0000_0000 * (0xffffffffffffffff + 0x1_0000_0000_0000_0000 * (0xffffffffffffffff + 0x1_0000_0000_0000_0000 * (0xffffffffffffffff + 0x1_0000_0000_0000_0000 * 0x3)))))) by (nonlinear_arith);
        lemma_mont_chain_step(&ops.n_mont, nl, x, old_acc, d_1011.val(nl), acc.val(nl), (0xeb0341b6491614ef + 0x1_0000_0000_0000_0000 * (0xf8ec69b03e86e5bb + 0x1_0000_0000_0000_0000 * (0xffffffffffffffff + 0x1_0000_0000_0000_0000 * (0xffffffffffffffff + 0x1_0000_0000_0000_0000 * 0x1fffffffffffffff)))), 5, 0xb, 0x20, (0x606836c922c29deb + 0x1_0000_0000_0000_0000 * (0x1d8d3607d0dcb77d + 0x1_0000_0000_0000_0000 * (0xffffffffffffffff + 0x1_0000_0000_0000_0000 * (0xffffffffffffffff + 0x1_0000_0000_0000_0000 * (0xffffffffffffffff + 0x1_0000_0000_0000_0000 * 0x3))))));
    }
    let ghost old_acc = acc.val(nl);
    scalar_sqr_mul_acc(ops, &mut acc, 4, &d_1011);
    proof {
        assert((0x606836c922c29deb + 0x1_0000_0000_0000_0000 * (0x1d8d3607d0dcb77d + 0x1_0000_0000_0000_0000 * (0xffffffffffffffff + 0x1_0000_0000_0000_0000 * (0xffffffffffffffff + 0x1_0000_0000_0000_0000 * (0xffffffffffffffff + 0x1_0000_0000_0000_0000 * 0x3))))) * 0x10 + 0xb == (0x6836c922c29debb + 0x1_0000_0000_0000_0000 * (0xd8d3607d0dcb77d6 + 0x1_0000_0000_0000_0000 * (0xfffffffffffffff1 + 0x1_0000_0000_0000_0000 * (0xffffffffffffffff + 0x1_0000_0000_0000_0000 * (0xffffffffffffffff + 0x1_0000_0000_0000_0000 * 0x3f)))))) by (nonlinear_arith);
        lemma_mont_chain_step(&ops.n_mont, nl, x, old_acc, d_1011.val(nl), acc.val(nl), (0x606836c922c29deb + 0x1_0000_0000_0000_0000 * (0x1d8d3607d0dcb77d + 0x1_0000_0000_0000_0000 * (0xffffffffffffffff + 0x1_0000_0000_0000_0000 * (0xffffffffffffffff + 0x1_0000_0000_0000_0000 * (0xffffffffffffffff + 0x1_0000_0000_0000_0000 * 0x3))))), 4, 0xb, 0x10, (0x6836c922c29debb + 0x1_0000_0000_0000_0000 * (0xd8d3607d0dcb77d6 + 0x1_0000_0000_0000_0000 * (0xfffffffffffffff1 + 0x1_0000_0000_0000_0000 * (0xffffffffffffffff + 0x1_0000_0000_0000_0000 * (0xffffffffffffffff + 0x1_0000_0000_0000_0000 * 0x3f))))));
    }
    let ghost old_acc = acc.val(nl);
    scalar_sqr_mul_acc(ops, &mut acc, 5, &d_111);
    proof {
        assert((0x6836c922c29debb + 0x1_0000_0000_0000_0000 * (0xd8d3607d0dcb77d6 + 0x1_0000_0000_0000_0000 * (0xfffffffffffffff1 + 0x1_0000_0000_0000_0000 * (0xffffffffffffffff + 0x1_0000_0000_0000_0000 * (0xffffffffffffffff + 0x1_0000_0000_0000_0000 * 0x3f))))) * 0x20 + 0x7 == (0xd06d9245853bd767 + 0x1_0000_0000_0000_0000 * (0x1a6c0fa1b96efac0 + 0x1_0000_0000_0000_0000 * (0xfffffffffffffe3b + 0x1_0000_0000_0000_0000 * (0xffffffffffffffff + 0x1_0000_0000_0000_0000 * (0xffffffffffffffff + 0x1_0000_0000_0000_0000 * 0x7ff)))))) by (nonlinear_arith);
        lemma_mont_chain_step(&ops.n_mont, nl, x, old_acc, d_111.val(nl), acc.val(nl), (0x6836c922c29debb + 0x1_0000_0000_0000_0000 * (0xd8d3607d0dcb77d6 + 0x1_0000_0000_0000_0000 * (0xfffffffffffffff1 + 0x1_0000_0000_0000_0000 * (0xffffffffffffffff + 0x1_0000_0000_0000_0000 * (0xffffffffffffffff + 0x1_0000_0000_0000_0000 * 0x3f))))), 5, 0x7, 0x20, (0xd06d9245853bd767 + 0x1_0000_0000_0000_0000 * (0x1a6c0fa1b96efac0 + 0x1_0000_0000_0000_0000 * (0xfffffffffffffe3b + 0x1_0000_0000_0000_0000 * (0xffffffffffffffff + 0x1_0000_0000_0000_0000 * (0xffffffffffffffff + 0x1_0000_0000_0000_0000 * 0x7ff))))));
    }
    let ghost old_acc = acc.val(nl);
    scalar_sqr_mul_acc(ops, &mut acc, 3, &d_11);
    proof {
        assert((0xd06d9245853bd767 + 0x1_0000_0000_0000_0000 * (0x1a6c0fa1b96efac0 + 0x1_0000_0000_0000_0000 * (0xfffffffffffffe3b + 0x1_0000_0000_0000_0000 * (0xffffffffffffffff + 0x1_0000_0000_0000_0000 * (0xffffffffffffffff + 0x1_0000_0000_0000_0000 * 0x7ff))))) * 0x8 + 0x3 == (0x836c922c29debb3b + 0x1_0000_0000_0000_0000 * (0xd3607d0dcb77d606 + 0x1_0000_0000_0000_0000 * (0xfffffffffffff1d8 + 0x1_0000_0000_0000_0000 * (0xffffffffffffffff + 0x1_0000_0000_0000_0000 * (0xffffffffffffffff + 0x1_0000_0000_0000_0000 * 0x3fff)))))) by (nonlinear_arith);
        lemma_mont_chain_step(&ops.n_mont, nl, x, old_acc, d_11.val(nl), acc.val(nl), (0xd06d9245853bd767 + 0x1_0000_0000_0000_0000 * (0x1a6c0fa1b96efac0 + 0x1_0000_0000_0000_0000 * (0xfffffffffffffe3b + 0x1_0000_0000_0000_0000 * (0xffffffffffffffff + 0x1_0000_0000_0000_0000 * (0xffffffffffffffff + 0x1_0000_0000_0000_0000 * 0x7ff))))), 3, 0x3, 0x8, (0x836c922c29debb3b + 0x1_0000_0000_0000_0000 * (0xd3607d0dcb77d606 + 0x1_0000_0000_0000_0000 * (0xfffffffffffff1d8 + 0x1_0000_0000_0000_0000 * (0xffffffffffffffff + 0x1_0000_0000_0000_0000 * (0xffffffffffffffff + 0x1_0000_0000_0000_0000 * 0x3fff))))));
    }
    let ghost old_acc = acc.val(nl);
    scalar_sqr_mul_acc(ops, &mut acc, 7, &d_11);
    proof {
        assert((0x836c922c29debb3b + 0x1_0000_0000_0000_0000 * (0xd3607d0dcb77d606 + 0x1_0000_0000_0000_0000 * (0xfffffffffffff1d8 + 0x1_0000_0000_0000_0000 * (0xffffffffffffffff + 0x1_0000_0000_0000_0000 * (0xffffffffffffffff + 0x1_0000_0000_0000_0000 * 0x3fff))))) * 0x80 + 0x3 == (0xb6491614ef5d9d83 + 0x1_0000_0000_0000_0000 * (0xb03e86e5bbeb0341 + 0x1_0000_0000_0000_0000 * (0xfffffffffff8ec69 + 0x1_0000_0000_0000_0000 * (0xffffffffffffffff + 0x1_0000_0000_0000_0000 * (0xffffffffffffffff + 0x1_0000_0000_0000_0000 * 0x1fffff)))))) by (nonlinear_arith);
        lemma_mont_chain_step(&ops.n_mont, nl, x, old_acc, d_11.val(nl), acc.val(nl), (0x836c922c29debb3b + 0x1_0000_0000_0000_0000 * (0xd3607d0dcb77d606 + 0x1_0000_0000_0000_0000 * (0xfffffffffffff1d8 + 0x1_0000_0000_0000_0000 * (0xffffffffffffffff + 0x1_0000_0000_0000_0000 * (0xffffffffffffffff + 0x1_0000_0000_0000_0000 * 0x3fff))))), 7, 0x3, 0x80, (0xb6491614ef5d9d83 + 0x1_0000_0000_0000_0000 * (0xb03e86e5bbeb0341 + 0x1_0000_0000_0000_0000 * (0xfffffffffff8ec69 + 0x1_0000_0000_0000_0000 * (0xffffffffffffffff + 0x1_0000_0000_0000_0000 * (0xffffffffffffffff + 0x1_0000_0000_0000_0000 * 0x1fffff))))));
    }
    let ghost old_acc = acc.val(nl);
    scalar_sqr_mul_acc(ops, &mut acc, 6, &d_1011);
    proof {
        assert((0xb6491614ef5d9d83 + 0x1_0000_0000_0000_0000 * (0xb03e86e5bbeb0341 + 0x1_0000_0000_0000_0000 * (0xfffffffffff8ec69 + 0x1_0000_0000_0000_0000 * (0xffffffffffffffff + 0x1_0000_0000_0000_0000 * (0xffffffffffffffff + 0x1_0000_0000_0000_0000 * 0x1fffff))))) * 0x40 + 0xb == (0x9245853bd76760cb + 0x1_0000_0000_0000_0000 * (0xfa1b96efac0d06d + 0x1_0000_0000_0000_0000 * (0xfffffffffe3b1a6c + 0x1_0000_0000_0000_0000 * (0xffffffffffffffff + 0x1_0000_0000_0000_0000 * (0xffffffffffffffff + 0x1_0000_0000_0000_0000 * 0x7ffffff)))))) by (nonlinear_arith);
        lemma_mont_chain_step(&ops.n_mont, nl, x, old_acc, d_1011.val(nl), acc.val(nl), (0xb6491614ef5d9d83 + 0x1_0000_0000_0000_0000 * (0xb03e86e5bbeb0341 + 0x1_0000_0000_0000_0000 * (0xfffffffffff8ec69 + 0x1_0000_0000_0000_0000 * (0xffffffffffffffff + 0x1_0000_0000_0000_0000 * (0xffffffffffffffff + 0x1_0000_0000_0000_0000 * 0x1fffff))))), 6, 0xb, 0x40, (0x9245853bd76760cb + 0x1_0000_0000_0000_0000 * (0xfa1b96efac0d06d + 0x1_0000_0000_0000_0000 * (0xfffffffffe3b1a6c + 0x1_0000_0000_0000_0000 * (0xffffffffffffffff + 0x1_0000_0000_0000_0000 * (0xffffffffffffffff + 0x1_0000_0000_0000_0000 * 0x7ffffff))))));
    }
    let ghost old_acc = acc.val(nl);
    scalar_sqr_mul_acc(ops, &mut acc, 4, &d_101);
    proof {
        assert((0x9245853bd76760cb + 0x1_0000_0000_0000_0000 * (0xfa1b96efac0d06d + 0x1_0000_0000_0000_0000 * (0xfffffffffe3b1a6c + 0x1_0000_0000_0000_0000 * (0xffffffffffffffff + 0x1_0000_0000_0000_0000 * (0xffffffffffffffff + 0x1_0000_0000_0000_0000 * 0x7ffffff))))) * 0x10 + 0x5 == (0x245853bd76760cb5 + 0x1_0000_0000_0000_0000 * (0xfa1b96efac0d06d9 + 0x1_0000_0000_0000_0000 * (0xffffffffe3b1a6c0 + 0x1_0000_0000_0000_0000 * (0xffffffffffffffff + 0x1_0000_0000_0000_0000 * (0xffffffffffffffff + 0x1_0000_0000_0000_0000 * 0x7fffffff)))))) by (nonlinear_arith);
        lemma_mont_chain_step(&ops.n_mont, nl, x, old_acc, d_101.val(nl), acc.val(nl), (0x9245853bd76760cb + 0x1_0000_0000_0000_0000 * (0xfa1b96efac0d06d + 0x1_0000_0000_0000_0000 * (0xfffffffffe3b1a6c + 0x1_0000_0000_0000_0000 * (0xffffffffffffffff + 0x1_0000_0000_0000_0000 * (0xffffffffffffffff + 0x1_0000_0000_0000_0000 * 0x7ffffff))))), 4, 0x5, 0x10, (0x245853bd76760cb5 + 0x1_0000_0000_0000_0000 * (0xfa1b96efac0d06d9 + 0x1_0000_0000_0000_0000 * (0xffffffffe3b1a6c0 + 0x1_0000_0000_0000_0000 * (0xffffffffffffffff + 0x1_0000_0000_0000_0000 * (0xffffffffffffffff + 0x1_0000_0000_0000_0000 * 0x7fffffff))))));
    }
    let ghost old_acc = acc.val(nl);
    scalar_sqr_mul_acc(ops, &mut acc, 3, &d_11);
    proof {
        assert((0x245853bd76760cb5 + 0x1_0000_0000_0000_0000 * (0xfa1b96efac0d06d9 + 0x1_0000_0000_0000_0000 * (0xffffffffe3b1a6c0 + 0x1_0000_0000_0000_0000 * (0xffffffffffffffff + 0x1_0000_0000_0000_0000 * (0xffffffffffffffff + 0x1_0000_0000_0000_0000 * 0x7fffffff))))) * 0x8 + 0x3 == (0x22c29debb3b065ab + 0x1_0000_0000_0000_0000 * (0xd0dcb77d606836c9 + 0x1_0000_0000_0000_0000 * (0xffffffff1d8d3607 + 0x1_0000_0000_0000_0000 * (0xffffffffffffffff + 0x1_0000_0000_0000_0000 * (0xffffffffffffffff + 0x1_0000_0000_0000_0000 * 0x3ffffffff)))))) by (nonlinear_arith);
        lemma_mont_chain_step(&ops.n_mont, nl, x, old_acc, d_11.val(nl), acc.val(nl), (0x245853bd76760cb5 + 0x1_0000_0000_0000_0000 * (0xfa1b96efac0d06d9 + 0x1_0000_0000_0000_0000 * (0xffffffffe3b1a6c0 + 0x1_0000_0000_0000_0000 * (0xffffffffffffffff + 0x1_0000_0000_0000_0000 * (0xffffffffffffffff + 0x1_0000_0000_0000_0000 * 0x7fffffff))))), 3, 0x3, 0x8, (0x22c29debb3b065ab + 0x1_0000_0000_0000_0000 * (0xd0dcb77d606836c9 + 0x1_0000_0000_0000_0000 * (0xffffffff1d8d3607 + 0x1_0000_0000_0000_0000 * (0xffffffffffffffff + 0x1_0000_0000_0000_0000 * (0xffffffffffffffff + 0x1_0000_0000_0000_0000 * 0x3ffffffff))))));
    }
    let ghost old_acc = acc.val(nl);
    scalar_sqr_mul_acc(ops, &mut acc, 4, &d_11);
    proof {
        assert((0x22c29debb3b065ab + 0x1_0000_0000_0000_0000 * (0xd0dcb77d606836c9 + 0x1_0000_0000_0000_0000 * (0xffffffff1d8d3607 + 0x1_0000_0000_0000_0000 * (0xffffffffffffffff + 0x1_0000_0000_0000_0000 * (0xffffffffffffffff + 0x1_0000_0000_0000_0000 * 0x3ffffffff))))) * 0x10 + 0x3 == (0x2c29debb3b065ab3 + 0x1_0000_0000_0000_0000 * (0xdcb77d606836c92 + 0x1_0000_0000_0000_0000 * (0xfffffff1d8d3607d + 0x1_0000_0000_0000_0000 * (0xffffffffffffffff + 0x1_0000_0000_0000_0000 * (0xffffffffffffffff + 0x1_0000_0000_0000_0000 * 0x3fffffffff)))))) by (nonlinear_arith);
        lemma_mont_chain_step(&ops.n_mont, nl, x, old_acc, d_11.val(nl), acc.val(nl), (0x22c29debb3b065ab + 0x1_0000_0000_0000_0000 * (0xd0dcb77d606836c9 + 0x1_0000_0000_0000_0000 * (0xffffffff1d8d3607 + 0x1_0000_0000_0000_0000 * (0xffffffffffffffff + 0x1_0000_0000_0000_0000 * (0xffffffffffffffff + 0x1_0000_0000_0000_0000 * 0x3ffffffff))))), 4, 0x3, 0x10, (0x2c29debb3b065ab3 + 0x1_0000_0000_0000_0000 * (0xdcb77d606836c92 + 0x1_0000_0000_0000_0000 * (0xfffffff1d8d3607d + 0x1_0000_0000_0000_0000 * (0xffffffffffffffff + 0x1_0000_0000_0000_0000 * (0xffffffffffffffff + 0x1_0000_0000_0000_0000 * 0x3fffffffff))))));
    }
    let ghost old_acc = acc.val(nl);
    scalar_sqr_mul_acc(ops, &mut acc, 4, &d_11);
    proof {
        assert((0x2c29debb3b065ab3 + 0x1_0000_0000_0000_0000 * (0xdcb77d606836c92 + 0x1_0000_0000_0000_0000 * (0xfffffff1d8d3607d + 0x1_0000_0000_0000_0000 * (0xffffffffffffffff + 0x1_0000_0000_0000_0000 * (0xffffffffffffffff + 0x1_0000_0000_0000_0000 * 0x3fffffffff))))) * 0x10 + 0x3 == (0xc29debb3b065ab33 + 0x1_0000_0000_0000_0000 * (0xdcb77d606836c922 + 0x1_0000_0000_0000_0000 * (0xffffff1d8d3607d0 + 0x1_0000_0000_0000_0000 * (0xffffffffffffffff + 0x1_0000_0000_0000_0000 * (0xffffffffffffffff + 0x1_0000_0000_0000_0000 * 0x3ffffffffff)))))) by (nonlinear_arith);
        lemma_mont_chain_step(&ops.n_mont, nl, x, old_acc, d_11.val(nl), acc.val(nl), (0x2c29debb3b065ab3 + 0x1_0000_0000_0000_0000 * (0xdcb77d606836c92 + 0x1_0000_0000_0000_0000 * (0xfffffff1d8d3607d + 0x1_0000_0000_0000_0000 * (0xffffffffffffffff + 0x1_0000_0000_0000_0000 * (0xffffffffffffffff + 0x1_0000_0000_0000_0000 * 0x3fffffffff))))), 4, 0x3, 0x10, (0xc29debb3b065ab33 + 0x1_0000_0000_0000_0000 * (0xdcb77d606836c922 + 0x1_0000_0000_0000_0000 * (0xffffff1d8d3607d0 + 0x1_0000_0000_0000_0000 * (0xffffffffffffffff + 0x1_0000_0000_0000_0000 * (0xffffffffffffffff + 0x1_0000_0000_0000_0000 * 0x3ffffffffff))))));
    }
    let ghost old_acc = acc.val(nl);
    scalar_sqr_mul_acc(ops, &mut acc, 6, &d_101);
    proof {
        assert((0xc29debb3b065ab33 + 0x1_0000_0000_0000_0000 * (0xdcb77d606836c922 + 0x1_0000_0000_0000_0000 * (0xffffff1d8d3607d0 + 0x1_0000_0000_0000_0000 * (0xffffffffffffffff + 0x1_0000_0000_0000_0000 * (0xffffffffffffffff + 0x1_0000_0000_0000_0000 * 0x3ffffffffff))))) * 0x40 + 0x5 == (0xa77aecec196accc5 + 0x1_0000_0000_0000_0000 * (0x2ddf581a0db248b0 + 0x1_0000_0000_0000_0000 * (0xffffc7634d81f437 + 0x1_0000_0000_0000_0000 * (0xffffffffffffffff + 0x1_0000_0000_0000_0000 * (0xffffffffffffffff + 0x1_0000_0000_0000_0000 * 0xffffffffffff)))))) by (nonlinear_arith);
        lemma_mont_chain_step(&ops.n_mont, nl, x, old_acc, d_101.val(nl), acc.val(nl), (0xc29debb3b065ab33 + 0x1_0000_0000_0000_0000 * (0xdcb77d606836c922 + 0x1_0000_0000_0000_0000 * (0xffffff1d8d3607d0 + 0x1_0000_0000_0000_0000 * (0xffffffffffffffff + 0x1_0000_0000_0000_0000 * (0xffffffffffffffff + 0x1_0000_0000_0000_0000 * 0x3ffffffffff))))), 6, 0x5, 0x40, (0xa77aecec196accc5 + 0x1_0000_0000_0000_0000 * (0x2ddf581a0db248b0 + 0x1_0000_0000_0000_0000 * (0xffffc7634d81f437 + 0x1_0000_0000_0000_0000 * (0xffffffffffffffff + 0x1_0000_0000_0000_0000 * (0xffffffffffffffff + 0x1_0000_0000_0000_0000 * 0xffffffffffff))))));
    }
    let ghost old_acc = acc.val(nl);
    scalar_sqr_mul_acc(ops, &mut acc, 5, &d_101);
    proof {
        assert((0xa77aecec196accc5 + 0x1_0000_0000_0000_0000 * (0x2ddf581a0db248b0 + 0x1_0000_0000_0000_0000 * (0xffffc7634d81f437 + 0x1_0000_0000_0000_0000 * (0xffffffffffffffff + 0x1_0000_0000_0000_0000 * (0xffffffffffffffff + 0x1_0000_0000_0000_0000 * 0xffffffffffff))))) * 0x20 + 0x5 == (0xef5d9d832d5998a5 + 0x1_0000_0000_0000_0000 * (0xbbeb0341b6491614 + 0x1_0000_0000_0000_0000 * (0xfff8ec69b03e86e5 + 0x1_0000_0000_0000_0000 * (0xffffffffffffffff + 0x1_0000_0000_0000_0000 * (0xffffffffffffffff + 0x1_0000_0000_0000_0000 * 0x1fffffffffffff)))))) by (nonlinear_arith);
        lemma_mont_chain_step(&ops.n_mont, nl, x, old_acc, d_101.val(nl), acc.val(nl), (0xa77aecec196accc5 + 0x1_0000_0000_0000_0000 * (0x2ddf581a0db248b0 + 0x1_0000_0000_0000_0000 * (0xffffc7634d81f437 + 0x1_0000_0000_0000_0000 * (0xffffffffffffffff + 0x1_0000_0000_0000_0000 * (0xffffffffffffffff + 0x1_0000_0000_0000_0000 * 0xffffffffffff))))), 5, 0x5, 0x20, (0xef5d9d832d5998a5 + 0x1_0000_0000_0000_0000 * (0xbbeb0341b6491614 + 0x1_0000_0000_0000_0000 * (0xfff8ec69b03e86e5 + 0x1_0000_0000_0000_0000 * (0xffffffffffffffff + 0x1_0000_0000_0000_0000 * (0xffffffffffffffff + 0x1_0000_0000_0000_0000 * 0x1fffffffffffff))))));
    }
    let ghost old_acc = acc.val(nl);
    scalar_sqr_mul_acc(ops, &mut acc, 5, &d_101);
    proof {
        assert((0xef5d9d832d5998a5 + 0x1_0000_0000_0000_0000 * (0xbbeb0341b6491614 + 0x1_0000_0000_0000_0000 * (0xfff8ec69b03e86e5 + 0x1_0000_0000_0000_0000 * (0xffffffffffffffff + 0x1_0000_0000_0000_0000 * (0xffffffffffffffff + 0x1_0000_0000_0000_0000 * 0x1fffffffffffff))))) * 0x20 + 0x5 == (0xebb3b065ab3314a5 + 0x1_0000_0000_0000_0000 * (0x7d606836c922c29d + 0x1_0000_0000_0000_0000 * (0xff1d8d3607d0dcb7 + 0x1_0000_0000_0000_0000 * (0xffffffffffffffff + 0x1_0000_0000_0000_0000 * (0xffffffffffffffff + 0x1_0000_0000_0000_0000 * 0x3ffffffffffffff)))))) by (nonlinear_arith);
        lemma_mont_chain_step(&ops.n_mont, nl, x, old_acc, d_101.val(nl), acc.val(nl), (0xef5d9d832d5998a5 + 0x1_0000_0000_0000_0000 * (0xbbeb0341b6491614 + 0x1_0000_0000_0000_0000 * (0xfff8ec69b03e86e5 + 0x1_0000_0000_0000_0000 * (0xffffffffffffffff + 0x1_0000_0000_0000_0000 * (0xffffffffffffffff + 0x1_0000_0000_0000_0000 * 0x1fffffffffffff))))), 5, 0x5, 0x20, (0xebb3b065ab3314a5 + 0x1_0000_0000_0000_0000 * (0x7d606836c922c29d + 0x1_0000_0000_0000_0000 * (0xff1d8d3607d0dcb7 + 0x1_0000_0000_0000_0000 * (0xffffffffffffffff + 0x1_0000_0000_0000_0000 * (0xffffffffffffffff + 0x1_0000_0000_0000_0000 * 0x3ffffffffffffff))))));
    }
    let ghost old_acc = acc.val(nl);
    scalar_sqr_mul_acc(ops, &mut acc, 2, &d_11);
    proof {
        assert((0xebb3b065ab3314a5 + 0x1_0000_0000_0000_0000 * (0x7d606836c922c29d + 0x1_0000_0000_0000_0000 * (0xff1d8d3607d0dcb7 + 0x1_0000_0000_0000_0000 * (0xffffffffffffffff + 0x1_0000_0000_0000_0000 * (0xffffffffffffffff + 0x1_0000_0000_0000_0000 * 0x3ffffffffffffff))))) * 0x4 + 0x3 == (0xaecec196accc5297 + 0x1_0000_0000_0000_0000 * (0xf581a0db248b0a77 + 0x1_0000_0000_0000_0000 * (0xfc7634d81f4372dd + 0x1_0000_0000_0000_0000 * (0xffffffffffffffff + 0x1_0000_0000_0000_0000 * (0xffffffffffffffff + 0x1_0000_0000_0000_0000 * 0xfffffffffffffff)))))) by (nonlinear_arith);
        lemma_mont_chain_step(&ops.n_mont, nl, x, old_acc, d_11.val(nl), acc.val(nl), (0xebb3b065ab3314a5 + 0x1_0000_0000_0000_0000 * (0x7d606836c922c29d + 0x1_0000_0000_0000_0000 * (0xff1d8d3607d0dcb7 + 0x1_0000_0000_0000_0000 * (0xffffffffffffffff + 0x1_0000_0000_0000_0000 * (0xffffffffffffffff + 0x1_0000_0000_0000_0000 * 0x3ffffffffffffff))))), 2, 0x3, 0x4, (0xaecec196accc5297 + 0x1_0000_0000_0000_0000 * (0xf581a0db248b0a77 + 0x1_0000_0000_0000_0000 * (0xfc7634d81f4372dd + 0x1_0000_0000_0000_0000 * (0xffffffffffffffff + 0x1_0000_0000_0000_0000 * (0xffffffffffffffff + 0x1_0000_0000_0000_0000 * 0xfffffffffffffff))))));
    }
    let ghost old_acc = acc.val(nl);
    scalar_sqr_mul_acc(ops, &mut acc, 4, &d_1);
    proof {
        assert((0xaecec196accc5297 + 0x1_0000_0000_0000_0000 * (0xf581a0db248b0a77 + 0x1_0000_0000_0000_0000 * (0xfc7634d81f4372dd + 0x1_0000_0000_0000_0000 * (0xffffffffffffffff + 0x1_0000_0000_0000_0000 * (0xffffffffffffffff + 0x1_0000_0000_0000_0000 * 0xfffffffffffffff))))) * 0x10 + 0x1 == (0xecec196accc52971 + 0x1_0000_0000_0000_0000 * (0x581a0db248b0a77a + 0x1_0000_0000_0000_0000 * (0xc7634d81f4372ddf + 0x1_0000_0000_0000_0000 * (0xffffffffffffffff + 0x1_0000_0000_0000_0000 * (0xffffffffffffffff + 0x1_0000_0000_0000_0000 * 0xffffffffffffffff)))))) by (nonlinear_arith);
        lemma_mont_chain_step(&ops.n_mont, nl, x, old_acc, d_1.val(nl), acc.val(nl), (0xaecec196accc5297 + 0x1_0000_0000_0000_0000 * (0xf581a0db248b0a77 + 0x1_0000_0000_0000_0000 * (0xfc7634d81f4372dd + 0x1_0000_0000_0000_0000 * (0xffffffffffffffff + 0x1_0000_0000_0000_0000 * (0xffffffffffffffff + 0x1_0000_0000_0000_0000 * 0xfffffffffffffff))))), 4, 0x1, 0x10, (0xecec196accc52971 + 0x1_0000_0000_0000_0000 * (0x581a0db248b0a77a + 0x1_0000_0000_0000_0000 * (0xc7634d81f4372ddf + 0x1_0000_0000_0000_0000 * (0xffffffffffffffff + 0x1_0000_0000_0000_0000 * (0xffffffffffffffff + 0x1_0000_0000_0000_0000 * 0xffffffffffffffff))))));
    }
    proof {
        assert(n_p384() == (0xecec196accc52973 + 0x1_0000_0000_0000_0000 * (0x581a0db248b0a77a + 0x1_0000_0000_0000_0000 * (0xc7634d81f4372ddf + 0x1_0000_0000_0000_0000 * (0xffffffffffffffff + 0x1_0000_0000_0000_0000 * (0xffffffffffffffff + 0x1_0000_0000_0000_0000 * 0xffffffffffffffff))))));
        assert((0xecec196accc52971 + 0x1_0000_0000_0000_0000 * (0x581a0db248b0a77a + 0x1_0000_0000_0000_0000 * (0xc7634d81f4372ddf + 0x1_0000_0000_0000_0000 * (0xffffffffffffffff + 0x1_0000_0000_0000_0000 * (0xffffffffffffffff + 0x1_0000_0000_0000_0000 * 0xffffffffffffffff))))) == n_p384() - 2);
    }
    acc
}

/// The coefficient `b`.
pub open spec fn b_p384() -> nat {
    val6(0x2a85c8edd3ec2aef, 0xc656398d8a2ed19d, 0x314088f5013875a, 0x181d9c6efe814112, 0x988e056be3f82d19, 0xb3312fa7e23ee7e4) as nat
}

/// The `x` coordinate of the published generator.
pub open spec fn gx_p384() -> nat {
    val6(0x3a545e3872760ab7, 0x5502f25dbf55296c, 0x59f741e082542a38, 0x6e1d3b628ba79b98, 0x8eb1c71ef320ad74, 0xaa87ca22be8b0537) as nat
}

/// The `y` coordinate of the published generator.
pub open spec fn gy_p384() -> nat {
    val6(0x7a431d7c90ea0e5f, 0xa60b1ce1d7e819d, 0xe9da3113b5f0b8c0, 0xf8f41dbd289a147c, 0x5d9e98bf9292dc29, 0x3617de4a96262c6f) as nat
}


/// `c` is the P-384 table: its modulus, its order and its coefficients
/// `a = -3` and `b`.
pub open spec fn is_p384_table(c: CommonOps) -> bool {
    &&& c.wf()
    &&& c.num_limbs == 6
    &&& c.q_val() == q_p384()
    &&& c.n.val(6) == n_p384()
    &&& c.decode(c.a.val(6)) == (q_p384() - 3) as nat
    &&& c.decode(c.b.val(6)) == b_p384()
}

/// The generator of `ops` is the published one of P-384.
pub open spec fn has_p384_generator(ops: PrivateKeyOps) -> bool {
    &&& ops.common.decode(ops.generator.0.val(6)) == gx_p384()
    &&& ops.common.decode(ops.generator.1.val(6)) == gy_p384()
}


/// The coefficient `a = -3`, in Montgomery form.
fn coefficient_a() -> (r: Elem<Q, R>)
    ensures
        r.val(6) < q_p384(),
        r.val(6) == ((q_p384() - 3) as nat * base_pow(6)) % q_p384(),
        r.padded(6),
{
    let r: Elem<Q, R> = Elem::from_limbs([
            0x00000003fffffffc,
            0xfffffffc00000000,
            0xfffffffffffffffb,
            0xffffffffffffffff,
            0xffffffffffffffff,
            0xffffffffffffffff,
        ]);
    proof {
        assert(r.limbs@.take(6) =~= r.limbs@);
        lemma_val6(r.limbs@);
        assert((q_p384() - 3) as nat == (0xfffffffc + 0x1_0000_0000_0000_0000int * (0xffffffff00000000 + 0x1_0000_0000_0000_0000int * (0xfffffffffffffffe + 0x1_0000_0000_0000_0000int * (0xffffffffffffffff + 0x1_0000_0000_0000_0000int * (0xffffffffffffffff + 0x1_0000_0000_0000_0000int * 0xffffffffffffffff))))));
        assert(q_p384() == (0xffffffff + 0x1_0000_0000_0000_0000int * (0xffffffff00000000 + 0x1_0000_0000_0000_0000int * (0xfffffffffffffffe + 0x1_0000_0000_0000_0000int * (0xffffffffffffffff + 0x1_0000_0000_0000_0000int * (0xffffffffffffffff + 0x1_0000_0000_0000_0000int * 0xffffffffffffffff))))));
        assert(base_pow(6) == (0x1_0000_0000_0000_0000int * 0x1_0000_0000_0000_0000int * 0x1_0000_0000_0000_0000int * 0x1_0000_0000_0000_0000int * 0x1_0000_0000_0000_0000int * 0x1_0000_0000_0000_0000int)) by {
            reveal_with_fuel(base_pow, 7);
        }
        assert((0xfffffffc + 0x1_0000_0000_0000_0000int * (0xffffffff00000000 + 0x1_0000_0000_0000_0000int * (0xfffffffffffffffe + 0x1_0000_0000_0000_0000int * (0xffffffffffffffff + 0x1_0000_0000_0000_0000int * (0xffffffffffffffff + 0x1_0000_0000_0000_0000int * 0xffffffffffffffff))))) * (0x1_0000_0000_0000_0000int * 0x1_0000_0000_0000_0000int * 0x1_0000_0000_0000_0000int * 0x1_0000_0000_0000_0000int * 0x1_0000_0000_0000_0000int * 0x1_0000_0000_0000_0000int) == (0xffffffff + 0x1_0000_0000_0000_0000int * (0xffffffff00000000 + 0x1_0000_0000_0000_0000int * (0xfffffffffffffffe + 0x1_0000_0000_0000_0000int * (0xffffffffffffffff + 0x1_0000_0000_0000_0000int * (0xffffffffffffffff + 0x1_0000_0000_0000_0000int * 0xffffffffffffffff))))) * (0xfffffffffffffffc + 0x1_0000_0000_0000_0000int * (0xffffffffffffffff + 0x1_0000_0000_0000_0000int * (0xffffffffffffffff + 0x1_0000_0000_0000_0000int * (0xffffffffffffffff + 0x1_0000_0000_0000_0000int * (0xffffffffffffffff + 0x1_0000_0000_0000_0000int * 0xffffffffffffffff))))) + (0x3fffffffc + 0x1_0000_0000_0000_0000int * (0xfffffffc00000000 + 0x1_0000_0000_0000_0000int * (0xfffffffffffffffb + 0x1_0000_0000_0000_0000int * (0xffffffffffffffff + 0x1_0000_0000_0000_0000int * (0xffffffffffffffff + 0x1_0000_0000_0000_0000int * 0xffffffffffffffff)))))) by (nonlinear_arith);
        lemma_mod_from_quotient((0xfffffffc + 0x1_0000_0000_0000_0000int * (0xffffffff00000000 + 0x1_0000_0000_0000_0000int * (0xfffffffffffffffe + 0x1_0000_0000_0000_0000int * (0xffffffffffffffff + 0x1_0000_0000_0000_0000int * (0xffffffffffffffff + 0x1_0000_0000_0000_0000int * 0xffffffffffffffff))))) * (0x1_0000_0000_0000_0000int * 0x1_0000_0000_0000_0000int * 0x1_0000_0000_0000_0000int * 0x1_0000_0000_0000_0000int * 0x1_0000_0000_0000_0000int * 0x1_0000_0000_0000_0000int), (0xffffffff + 0x1_0000_0000_0000_0000int * (0xffffffff00000000 + 0x1_0000_0000_0000_0000int * (0xfffffffffffffffe + 0x1_0000_0000_0000_0000int * (0xffffffffffffffff + 0x1_0000_0000_0000_0000int * (0xffffffffffffffff + 0x1_0000_0000_0000_0000int * 0xffffffffffffffff))))), (0xfffffffffffffffc + 0x1_0000_0000_0000_0000int * (0xffffffffffffffff + 0x1_0000_0000_0000_0000int * (0xffffffffffffffff + 0x1_0000_0000_0000_0000int * (0xffffffffffffffff + 0x1_0000_0000_0000_0000int * (0xffffffffffffffff + 0x1_0000_0000_0000_0000int * 0xffffffffffffffff))))), (0x3fffffffc + 0x1_0000_0000_0000_0000int * (0xfffffffc00000000 + 0x1_0000_0000_0000_0000int * (0xfffffffffffffffb + 0x1_0000_0000_0000_0000int * (0xffffffffffffffff + 0x1_0000_0000_0000_0000int * (0xffffffffffffffff + 0x1_0000_0000_0000_0000int * 0xffffffffffffffff))))));
    }
    r
}


/// The coefficient `b`, in Montgomery form.
fn coefficient_b() -> (r: Elem<Q, R>)
    ensures
        r.val(6) < q_p384(),
        r.val(6) == (b_p384() * base_pow(6)) % q_p384(),
        r.padded(6),
{
    let r: Elem<Q, R> = Elem::from_limbs([
            0x081188719d412dcc,
            0xf729add87a4c32ec,
            0x77f2209b1920022e,
            0xe3374bee94938ae2,
            0xb62b21f41f022094,
            0xcd08114b604fbff9,
        ]);
    proof {
        assert(r.limbs@.take(6) =~= r.limbs@);
        lemma_val6(r.limbs@);
        assert(b_p384() == (0x2a85c8edd3ec2aef + 0x1_0000_0000_0000_0000int * (0xc656398d8a2ed19d + 0x1_0000_0000_0000_0000int * (0x314088f5013875a + 0x1_0000_0000_0000_0000int * (0x181d9c6efe814112 + 0x1_0000_0000_0000_0000int * (0x988e056be3f82d19 + 0x1_0000_0000_0000_0000int * 0xb3312fa7e23ee7e4))))));
        assert(q_p384() == (0xffffffff + 0x1_0000_0000_0000_0000int * (0xffffffff00000000 + 0x1_0000_0000_0000_0000int * (0xfffffffffffffffe + 0x1_0000_0000_0000_0000int * (0xffffffffffffffff + 0x1_0000_0000_0000_0000int * (0xffffffffffffffff + 0x1_0000_0000_0000_0000int * 0xffffffffffffffff))))));
        assert(base_pow(6) == (0x1_0000_0000_0000_0000int * 0x1_0000_0000_0000_0000int * 0x1_0000_0000_0000_0000int * 0x1_0000_0000_0000_0000int * 0x1_0000_0000_0000_0000int * 0x1_0000_0000_0000_0000int)) by {
            reveal_with_fuel(base_pow, 7);
        }
        assert((0x2a85c8edd3ec2aef + 0x1_0000_0000_0000_0000int * (0xc656398d8a2ed19d + 0x1_0000_0000_0000_0000int * (0x314088f5013875a + 0x1_0000_0000_0000_0000int * (0x181d9c6efe814112 + 0x1_0000_0000_0000_0000int * (0x988e056be3f82d19 + 0x1_0000_0000_0000_0000int * 0xb3312fa7e23ee7e4))))) * (0x1_0000_0000_0000_0000int * 0x1_0000_0000_0000_0000int * 0x1_0000_0000_0000_0000int * 0x1_0000_0000_0000_0000int * 0x1_0000_0000_0000_0000int * 0x1_0000_0000_0000_0000int) == (0xffffffff + 0x1_0000_0000_0000_0000int * (0xffffffff00000000 + 0x1_0000_0000_0000_0000int * (0xfffffffffffffffe + 0x1_0000_0000_0000_0000int * (0xffffffffffffffff + 0x1_0000_0000_0000_0000int * (0xffffffffffffffff + 0x1_0000_0000_0000_0000int * 0xffffffffffffffff))))) * (0xa552b63d9d412dcc + 0x1_0000_0000_0000_0000int * (0x798769361f9ee929 + 0x1_0000_0000_0000_0000int * (0x314088f5013875b + 0x1_0000_0000_0000_0000int * (0x181d9c6efe814112 + 0x1_0000_0000_0000_0000int * (0x988e056be3f82d19 + 0x1_0000_0000_0000_0000int * 0xb3312fa7e23ee7e4))))) + (0x81188719d412dcc + 0x1_0000_0000_0000_0000int * (0xf729add87a4c32ec + 0x1_0000_0000_0000_0000int * (0x77f2209b1920022e + 0x1_0000_0000_0000_0000int * (0xe3374bee94938ae2 + 0x1_0000_0000_0000_0000int * (0xb62b21f41f022094 + 0x1_0000_0000_0000_0000int * 0xcd08114b604fbff9)))))) by (nonlinear_arith);
        lemma_mod_from_quotient((0x2a85c8edd3ec2aef + 0x1_0000_0000_0000_0000int * (0xc656398d8a2ed19d + 0x1_0000_0000_0000_0000int * (0x314088f5013875a + 0x1_0000_0000_0000_0000int * (0x181d9c6efe814112 + 0x1_0000_0000_0000_0000int * (0x988e056be3f82d19 + 0x1_0000_0000_0000_0000int * 0xb3312fa7e23ee7e4))))) * (0x1_0000_0000_0000_0000int * 0x1_0000_0000_0000_0000int * 0x1_0000_0000_0000_0000int * 0x1_0000_0000_0000_0000int * 0x1_0000_0000_0000_0000int * 0x1_0000_0000_0000_0000int), (0xffffffff + 0x1_0000_0000_0000_0000int * (0xffffffff00000000 + 0x1_0000_0000_0000_0000int * (0xfffffffffffffffe + 0x1_0000_0000_0000_0000int * (0xffffffffffffffff + 0x1_0000_0000_0000_0000int * (0xffffffffffffffff + 0x1_0000_0000_0000_0000int * 0xffffffffffffffff))))), (0xa552b63d9d412dcc + 0x1_0000_0000_0000_0000int * (0x798769361f9ee929 + 0x1_0000_0000_0000_0000int * (0x314088f5013875b + 0x1_0000_0000_0000_0000int * (0x181d9c6efe814112 + 0x1_0000_0000_0000_0000int * (0x988e056be3f82d19 + 0x1_0000_0000_0000_0000int * 0xb3312fa7e23ee7e4))))), (0x81188719d412dcc + 0x1_0000_0000_0000_0000int * (0xf729add87a4c32ec + 0x1_0000_0000_0000_0000int * (0x77f2209b1920022e + 0x1_0000_0000_0000_0000int * (0xe3374bee94938ae2 + 0x1_0000_0000_0000_0000int * (0xb62b21f41f022094 + 0x1_0000_0000_0000_0000int * 0xcd08114b604fbff9))))));
    }
    r
}


/// The group order `n`.
fn group_order() -> (r: Elem<Q, Unencoded>)
    ensures
        r.val(6) == n_p384(),
        r.padded(6),
{
    let r: Elem<Q, Unencoded> = Elem::from_limbs([
            0xecec196accc52973,
            0x581a0db248b0a77a,
            0xc7634d81f4372ddf,
            0xffffffffffffffff,
            0xffffffffffffffff,
            0xffffffffffffffff,
        ]);
    proof {
        assert(r.limbs@.take(6) =~= r.limbs@);
        lemma_val6(r.limbs@);
        assert(n_p384() == (0xecec196accc52973 + 0x1_0000_0000_0000_0000int * (0x581a0db248b0a77a + 0x1_0000_0000_0000_0000int * (0xc7634d81f4372ddf + 0x1_0000_0000_0000_0000int * (0xffffffffffffffff + 0x1_0000_0000_0000_0000int * (0xffffffffffffffff + 0x1_0000_0000_0000_0000int * 0xffffffffffffffff))))));
    }
    r
}


/// The generator's `x`, in Montgomery form.
fn generator_x() -> (r: Elem<Q, R>)
    ensures
        r.val(6) < q_p384(),
        r.val(6) == (gx_p384() * base_pow(6)) % q_p384(),
        r.padded(6),
{
    let r: Elem<Q, R> = Elem::from_limbs([
            0x3dd0756649c0b528,
            0x20e378e2a0d6ce38,
            0x879c3afc541b4d6e,
            0x6454868459a30eff,
            0x812ff723614ede2b,
            0x4d3aadc2299e1513,
        ]);
    proof {
        assert(r.limbs@.take(6) =~= r.limbs@);
        lemma_val6(r.limbs@);
        assert(gx_p384() == (0x3a545e3872760ab7 + 0x1_0000_0000_0000_0000int * (0x5502f25dbf55296c + 0x1_0000_0000_0000_0000int * (0x59f741e082542a38 + 0x1_0000_0000_0000_0000int * (0x6e1d3b628ba79b98 + 0x1_0000_0000_0000_0000int * (0x8eb1c71ef320ad74 + 0x1_0000_0000_0000_0000int * 0xaa87ca22be8b0537))))));
        assert(q_p384() == (0xffffffff + 0x1_0000_0000_0000_0000int * (0xffffffff00000000 + 0x1_0000_0000_0000_0000int * (0xfffffffffffffffe + 0x1_0000_0000_0000_0000int * (0xffffffffffffffff + 0x1_0000_0000_0000_0000int * (0xffffffffffffffff + 0x1_0000_0000_0000_0000int * 0xffffffffffffffff))))));
        assert(base_pow(6) == (0x1_0000_0000_0000_0000int * 0x1_0000_0000_0000_0000int * 0x1_0000_0000_0000_0000int * 0x1_0000_0000_0000_0000int * 0x1_0000_0000_0000_0000int * 0x1_0000_0000_0000_0000int)) by {
            reveal_with_fuel(base_pow, 7);
        }
        assert((0x3a545e3872760ab7 + 0x1_0000_0000_0000_0000int * (0x5502f25dbf55296c + 0x1_0000_0000_0000_0000int * (0x59f741e082542a38 + 0x1_0000_0000_0000_0000int * (0x6e1d3b628ba79b98 + 0x1_0000_0000_0000_0000int * (0x8eb1c71ef320ad74 + 0x1_0000_0000_0000_0000int * 0xaa87ca22be8b0537))))) * (0x1_0000_0000_0000_0000int * 0x1_0000_0000_0000_0000int * 0x1_0000_0000_0000_0000int * 0x1_0000_0000_0000_0000int * 0x1_0000_0000_0000_0000int * 0x1_0000_0000_0000_0000int) == (0xffffffff + 0x1_0000_0000_0000_0000int * (0xffffffff00000000 + 0x1_0000_0000_0000_0000int * (0xfffffffffffffffe + 0x1_0000_0000_0000_0000int * (0xffffffffffffffff + 0x1_0000_0000_0000_0000int * (0xffffffffffffffff + 0x1_0000_0000_0000_0000int * 0xffffffffffffffff))))) * (0x87912a8e49c0b528 + 0x1_0000_0000_0000_0000int * (0xff8abc812867f8c6 + 0x1_0000_0000_0000_0000int * (0x59f741e082542a38 + 0x1_0000_0000_0000_0000int * (0x6e1d3b628ba79b98 + 0x1_0000_0000_0000_0000int * (0x8eb1c71ef320ad74 + 0x1_0000_0000_0000_0000int * 0xaa87ca22be8b0537))))) + (0x3dd0756649c0b528 + 0x1_0000_0000_0000_0000int * (0x20e378e2a0d6ce38 + 0x1_0000_0000_0000_0000int * (0x879c3afc541b4d6e + 0x1_0000_0000_0000_0000int * (0x6454868459a30eff + 0x1_0000_0000_0000_0000int * (0x812ff723614ede2b + 0x1_0000_0000_0000_0000int * 0x4d3aadc2299e1513)))))) by (nonlinear_arith);
        lemma_mod_from_quotient((0x3a545e3872760ab7 + 0x1_0000_0000_0000_0000int * (0x5502f25dbf55296c + 0x1_0000_0000_0000_0000int * (0x59f741e082542a38 + 0x1_0000_0000_0000_0000int * (0x6e1d3b628ba79b98 + 0x1_0000_0000_0000_0000int * (0x8eb1c71ef320ad74 + 0x1_0000_0000_0000_0000int * 0xaa87ca22be8b0537))))) * (0x1_0000_0000_0000_0000int * 0x1_0000_0000_0000_0000int * 0x1_0000_0000_0000_0000int * 0x1_0000_0000_0000_0000int * 0x1_0000_0000_0000_0000int * 0x1_0000_0000_0000_0000int), (0xffffffff + 0x1_0000_0000_0000_0000int * (0xffffffff00000000 + 0x1_0000_0000_0000_0000int * (0xfffffffffffffffe + 0x1_0000_0000_0000_0000int * (0xffffffffffffffff + 0x1_0000_0000_0000_0000int * (0xffffffffffffffff + 0x1_0000_0000_0000_0000int * 0xffffffffffffffff))))), (0x87912a8e49c0b528 + 0x1_0000_0000_0000_0000int * (0xff8abc812867f8c6 + 0x1_0000_0000_0000_0000int * (0x59f741e082542a38 + 0x1_0000_0000_0000_0000int * (0x6e1d3b628ba79b98 + 0x1_0000_0000_0000_0000int * (0x8eb1c71ef320ad74 + 0x1_0000_0000_0000_0000int * 0xaa87ca22be8b0537))))), (0x3dd0756649c0b528 + 0x1_0000_0000_0000_0000int * (0x20e378e2a0d6ce38 + 0x1_0000_0000_0000_0000int * (0x879c3afc541b4d6e + 0x1_0000_0000_0000_0000int * (0x6454868459a30eff + 0x1_0000_0000_0000_0000int * (0x812ff723614ede2b + 0x1_0000_0000_0000_0000int * 0x4d3aadc2299e1513))))));
    }
    r
}


/// The generator's `y`, in Montgomery form.
fn generator_y() -> (r: Elem<Q, R>)
    ensures
        r.val(6) < q_p384(),
        r.val(6) == (gy_p384() * base_pow(6)) % q_p384(),
        r.padded(6),
{
    let r: Elem<Q, R> = Elem::from_limbs([
            0x23043dad4b03a4fe,
            0xa1bfa8bf7bb4a9ac,
            0x8bade7562e83b050,
            0xc6c3521968f4ffd9,
            0xdd8002263969a840,
            0x2b78abc25a15c5e9,
        ]);
    proof {
        assert(r.limbs@.take(6) =~= r.limbs@);
        lemma_val6(r.limbs@);
        assert(gy_p384() == (0x7a431d7c90ea0e5f + 0x1_0000_0000_0000_0000int * (0xa60b1ce1d7e819d + 0x1_0000_0000_0000_0000int * (0xe9da3113b5f0b8c0 + 0x1_0000_0000_0000_0000int * (0xf8f41dbd289a147c + 0x1_0000_0000_0000_0000int * (0x5d9e98bf9292dc29 + 0x1_0000_0000_0000_0000int * 0x3617de4a96262c6f))))));
        assert(q_p384() == (0xffffffff + 0x1_0000_0000_0000_0000int * (0xffffffff00000000 + 0x1_0000_0000_0000_0000int * (0xfffffffffffffffe + 0x1_0000_0000_0000_0000int * (0xffffffffffffffff + 0x1_0000_0000_0000_0000int * (0xffffffffffffffff + 0x1_0000_0000_0000_0000int * 0xffffffffffffffff))))));
        assert(base_pow(6) == (0x1_0000_0000_0000_0000int * 0x1_0000_0000_0000_0000int * 0x1_0000_0000_0000_0000int * 0x1_0000_0000_0000_0000int * 0x1_0000_0000_0000_0000int * 0x1_0000_0000_0000_0000int)) by {
            reveal_with_fuel(base_pow, 7);
        }
        assert((0x7a431d7c90ea0e5f + 0x1_0000_0000_0000_0000int * (0xa60b1ce1d7e819d + 0x1_0000_0000_0000_0000int * (0xe9da3113b5f0b8c0 + 0x1_0000_0000_0000_0000int * (0xf8f41dbd289a147c + 0x1_0000_0000_0000_0000int * (0x5d9e98bf9292dc29 + 0x1_0000_0000_0000_0000int * 0x3617de4a96262c6f))))) * (0x1_0000_0000_0000_0000int * 0x1_0000_0000_0000_0000int * 0x1_0000_0000_0000_0000int * 0x1_0000_0000_0000_0000int * 0x1_0000_0000_0000_0000int * 0x1_0000_0000_0000_0000int) == (0xffffffff + 0x1_0000_0000_0000_0000int * (0xffffffff00000000 + 0x1_0000_0000_0000_0000int * (0xfffffffffffffffe + 0x1_0000_0000_0000_0000int * (0xffffffffffffffff + 0x1_0000_0000_0000_0000int * (0xffffffffffffffff + 0x1_0000_0000_0000_0000int * 0xffffffffffffffff))))) * (0x6e07e2ab4b03a4fe + 0x1_0000_0000_0000_0000int * (0x40789018e9bc8c57 + 0x1_0000_0000_0000_0000int * (0xe9da3113b5f0b8c0 + 0x1_0000_0000_0000_0000int * (0xf8f41dbd289a147c + 0x1_0000_0000_0000_0000int * (0x5d9e98bf9292dc29 + 0x1_0000_0000_0000_0000int * 0x3617de4a96262c6f))))) + (0x23043dad4b03a4fe + 0x1_0000_0000_0000_0000int * (0xa1bfa8bf7bb4a9ac + 0x1_0000_0000_0000_0000int * (0x8bade7562e83b050 + 0x1_0000_0000_0000_0000int * (0xc6c3521968f4ffd9 + 0x1_0000_0000_0000_0000int * (0xdd8002263969a840 + 0x1_0000_0000_0000_0000int * 0x2b78abc25a15c5e9)))))) by (nonlinear_arith);
        lemma_mod_from_quotient((0x7a431d7c90ea0e5f + 0x1_0000_0000_0000_0000int * (0xa60b1ce1d7e819d + 0x1_0000_0000_0000_0000int * (0xe9da3113b5f0b8c0 + 0x1_0000_0000_0000_0000int * (0xf8f41dbd289a147c + 0x1_0000_0000_0000_0000int * (0x5d9e98bf9292dc29 + 0x1_0000_0000_0000_0000int * 0x3617de4a96262c6f))))) * (0x1_0000_0000_0000_0000int * 0x1_0000_0000_0000_0000int * 0x1_0000_0000_0000_0000int * 0x1_0000_0000_0000_0000int * 0x1_0000_0000_0000_0000int * 0x1_0000_0000_0000_0000int), (0xffffffff + 0x1_0000_0000_0000_0000int * (0xffffffff00000000 + 0x1_0000_0000_0000_0000int * (0xfffffffffffffffe + 0x1_0000_0000_0000_0000int * (0xffffffffffffffff + 0x1_0000_0000_0000_0000int * (0xffffffffffffffff + 0x1_0000_0000_0000_0000int * 0xffffffffffffffff))))), (0x6e07e2ab4b03a4fe + 0x1_0000_0000_0000_0000int * (0x40789018e9bc8c57 + 0x1_0000_0000_0000_0000int * (0xe9da3113b5f0b8c0 + 0x1_0000_0000_0000_0000int * (0xf8f41dbd289a147c + 0x1_0000_0000_0000_0000int * (0x5d9e98bf9292dc29 + 0x1_0000_0000_0000_0000int * 0x3617de4a96262c6f))))), (0x23043dad4b03a4fe + 0x1_0000_0000_0000_0000int * (0xa1bfa8bf7bb4a9ac + 0x1_0000_0000_0000_0000int * (0x8bade7562e83b050 + 0x1_0000_0000_0000_0000int * (0xc6c3521968f4ffd9 + 0x1_0000_0000_0000_0000int * (0xdd8002263969a840 + 0x1_0000_0000_0000_0000int * 0x2b78abc25a15c5e9))))));
    }
    r
}


/// `q - n`.
fn q_minus_n() -> (r: Elem<Q, Unencoded>)
    ensures
        r.val(6) == (q_p384() - n_p384()) as nat,
        r.padded(6),
{
    let r: Elem<Q, Unencoded> = Elem::from_limbs([
            0x1313e696333ad68c,
            0xa7e5f24cb74f5885,
            0x389cb27e0bc8d21f,
            0x0000000000000000,
            0x0000000000000000,
            0x0000000000000000,
        ]);
    proof {
        assert(r.limbs@.take(6) =~= r.limbs@);
        lemma_val6(r.limbs@);
        assert((q_p384() - n_p384()) as nat == (0x1313e696333ad68c + 0x1_0000_0000_0000_0000int * (0xa7e5f24cb74f5885 + 0x1_0000_0000_0000_0000int * 0x389cb27e0bc8d21f)));
    }
    r
}


/// The operations and values needed by all curve operations on P-384.
pub fn common_ops() -> (r: CommonOps)
    ensures
        is_p384_table(r),
{
    let q = q_mont();
    let a = coefficient_a();
    let b = coefficient_b();
    let r = CommonOps { num_limbs: 6, q, n: group_order(), a, b };
    proof {
        assert(q_p384() == (0xffffffff + 0x1_0000_0000_0000_0000int * (0xffffffff00000000 + 0x1_0000_0000_0000_0000int * (0xfffffffffffffffe + 0x1_0000_0000_0000_0000int * (0xffffffffffffffff + 0x1_0000_0000_0000_0000int * (0xffffffffffffffff + 0x1_0000_0000_0000_0000int * 0xffffffffffffffff))))));
        assert(n_p384() == (0xecec196accc52973 + 0x1_0000_0000_0000_0000int * (0x581a0db248b0a77a + 0x1_0000_0000_0000_0000int * (0xc7634d81f4372ddf + 0x1_0000_0000_0000_0000int * (0xffffffffffffffff + 0x1_0000_0000_0000_0000int * (0xffffffffffffffff + 0x1_0000_0000_0000_0000int * 0xffffffffffffffff))))));
        assert(b_p384() == (0x2a85c8edd3ec2aef + 0x1_0000_0000_0000_0000int * (0xc656398d8a2ed19d + 0x1_0000_0000_0000_0000int * (0x314088f5013875a + 0x1_0000_0000_0000_0000int * (0x181d9c6efe814112 + 0x1_0000_0000_0000_0000int * (0x988e056be3f82d19 + 0x1_0000_0000_0000_0000int * 0xb3312fa7e23ee7e4))))));
        lemma_mont_decode_encoded(&q, 6, (q_p384() - 3) as nat, a.val(6));
        lemma_mont_decode_encoded(&q, 6, b_p384(), b.val(6));
    }
    r
}

/// The generator, in Montgomery form.
fn generator(common: &CommonOps) -> (r: (Elem<Q, R>, Elem<Q, R>))
    requires
        is_p384_table(*common),
    ensures
        common.reduced(&r.0),
        common.reduced(&r.1),
        common.decode(r.0.val(6)) == gx_p384(),
        common.decode(r.1.val(6)) == gy_p384(),
{
    let x = generator_x();
    let y = generator_y();
    proof {
        assert(gx_p384() == (0x3a545e3872760ab7 + 0x1_0000_0000_0000_0000int * (0x5502f25dbf55296c + 0x1_0000_0000_0000_0000int * (0x59f741e082542a38 + 0x1_0000_0000_0000_0000int * (0x6e1d3b628ba79b98 + 0x1_0000_0000_0000_0000int * (0x8eb1c71ef320ad74 + 0x1_0000_0000_0000_0000int * 0xaa87ca22be8b0537))))));
        assert(gy_p384() == (0x7a431d7c90ea0e5f + 0x1_0000_0000_0000_0000int * (0xa60b1ce1d7e819d + 0x1_0000_0000_0000_0000int * (0xe9da3113b5f0b8c0 + 0x1_0000_0000_0000_0000int * (0xf8f41dbd289a147c + 0x1_0000_0000_0000_0000int * (0x5d9e98bf9292dc29 + 0x1_0000_0000_0000_0000int * 0x3617de4a96262c6f))))));
        assert(q_p384() == (0xffffffff + 0x1_0000_0000_0000_0000int * (0xffffffff00000000 + 0x1_0000_0000_0000_0000int * (0xfffffffffffffffe + 0x1_0000_0000_0000_0000int * (0xffffffffffffffff + 0x1_0000_0000_0000_0000int * (0xffffffffffffffff + 0x1_0000_0000_0000_0000int * 0xffffffffffffffff))))));
        lemma_mont_decode_encoded(&common.q, 6, gx_p384(), x.val(6));
        lemma_mont_decode_encoded(&common.q, 6, gy_p384(), y.val(6));
    }
    (x, y)
}

/// The operations on private keys for P-384.
pub fn private_key_ops() -> (r: PrivateKeyOps)
    ensures
        r.wf(),
        is_p384_table(r.common),
        has_p384_generator(r),
{
    let common = common_ops();
    PrivateKeyOps { common, generator: generator(&common) }
}

/// The operations on public keys for P-384.
pub fn public_key_ops() -> (r: PublicKeyOps)
    ensures
        is_p384_table(r.common),
{
    PublicKeyOps { common: common_ops() }
}

/// The operations on scalars for P-384.
pub fn scalar_ops() -> (r: ScalarOps)
    ensures
        r.wf(),
        is_p384_table(r.common),
        r.n_val() == n_p384(),
{
    ScalarOps { common: common_ops(), n_mont: n_mont() }
}

/// The operations on public scalars for P-384.
pub fn public_scalar_ops() -> (r: PublicScalarOps)
    ensures
        r.wf(),
        is_p384_table(r.cops()),
        r.scalar_ops.common == r.cops(),
        r.private_key_ops.common == r.cops(),
        has_p384_generator(r.private_key_ops),
        r.scalar_ops.n_val() == n_p384(),
        r.q_minus_n.val(6) == q_p384() - n_p384(),
{
    let common = common_ops();
    let r = PublicScalarOps {
        scalar_ops: ScalarOps { common, n_mont: n_mont() },
        public_key_ops: PublicKeyOps { common },
        private_key_ops: PrivateKeyOps { common, generator: generator(&common) },
        q_minus_n: q_minus_n(),
    };
    proof {
        assert(q_p384() == (0xffffffff + 0x1_0000_0000_0000_0000int * (0xffffffff00000000 + 0x1_0000_0000_0000_0000int * (0xfffffffffffffffe + 0x1_0000_0000_0000_0000int * (0xffffffffffffffff + 0x1_0000_0000_0000_0000int * (0xffffffffffffffff + 0x1_0000_0000_0000_0000int * 0xffffffffffffffff))))));
        assert(n_p384() == (0xecec196accc52973 + 0x1_0000_0000_0000_0000int * (0x581a0db248b0a77a + 0x1_0000_0000_0000_0000int * (0xc7634d81f4372ddf + 0x1_0000_0000_0000_0000int * (0xffffffffffffffff + 0x1_0000_0000_0000_0000int * (0xffffffffffffffff + 0x1_0000_0000_0000_0000int * 0xffffffffffffffff))))));
    }
    r
}

} // verus!
