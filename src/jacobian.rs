//! Point doubling, addition and scalar multiplication in Jacobian
//! coordinates, for curves whose coefficient `a` is `-3`.
//!
//! Each result is specified as the exact formula over field values in
//! Montgomery form. Special cases (the point at infinity, doubling through
//! addition) are chosen with masks rather than branches.

use vstd::prelude::*;
use crate::limb::{Limb, select_limb};
use crate::ops::{CommonOps, Elem, MAX_LIMBS, POINT_LIMBS, Point, Q, R};

verus! {

/// Jacobian coordinates as field values in Montgomery form.
pub type Jac = (nat, nat, nat);

pub open spec fn fmul(ops: CommonOps, a: nat, b: nat) -> nat {
    ops.fe_mul(a, b)
}

pub open spec fn fadd(ops: CommonOps, a: nat, b: nat) -> nat {
    ops.fe_add(a, b)
}

pub open spec fn fsub(ops: CommonOps, a: nat, b: nat) -> nat {
    ops.fe_sub(a, b)
}

/// Doubling for `a = -3` ("dbl-2001-b"). The point at infinity stays at
/// infinity, as its `Z` stays zero.
pub open spec fn double_spec(ops: CommonOps, p: Jac) -> Jac {
    let (x, y, z) = p;
    let delta = fmul(ops, z, z);
    let gamma = fmul(ops, y, y);
    let beta = fmul(ops, x, gamma);
    let t = fmul(ops, fsub(ops, x, delta), fadd(ops, x, delta));
    let alpha = fadd(ops, fadd(ops, t, t), t);
    let beta2 = fadd(ops, beta, beta);
    let beta4 = fadd(ops, beta2, beta2);
    let beta8 = fadd(ops, beta4, beta4);
    let x3 = fsub(ops, fmul(ops, alpha, alpha), beta8);
    let s = fadd(ops, y, z);
    let z3 = fsub(ops, fsub(ops, fmul(ops, s, s), gamma), delta);
    let g2 = fmul(ops, gamma, gamma);
    let g4 = fadd(ops, g2, g2);
    let g8 = fadd(ops, g4, g4);
    let g16 = fadd(ops, g8, g8);
    let y3 = fsub(ops, fmul(ops, alpha, fsub(ops, beta4, x3)), g16);
    (x3, y3, z3)
}

/// The general addition formula ("add-1998-cmo-2"), without special cases.
pub open spec fn add_generic_spec(ops: CommonOps, p: Jac, q: Jac) -> Jac {
    let (x1, y1, z1) = p;
    let (x2, y2, z2) = q;
    let z1z1 = fmul(ops, z1, z1);
    let z2z2 = fmul(ops, z2, z2);
    let u1 = fmul(ops, x1, z2z2);
    let u2 = fmul(ops, x2, z1z1);
    let s1 = fmul(ops, y1, fmul(ops, z2, z2z2));
    let s2 = fmul(ops, y2, fmul(ops, z1, z1z1));
    let h = fsub(ops, u2, u1);
    let r = fsub(ops, s2, s1);
    let hh = fmul(ops, h, h);
    let hhh = fmul(ops, h, hh);
    let v = fmul(ops, u1, hh);
    let x3 = fsub(ops, fsub(ops, fmul(ops, r, r), hhh), fadd(ops, v, v));
    let y3 = fsub(ops, fmul(ops, r, fsub(ops, v, x3)), fmul(ops, s1, hhh));
    let z3 = fmul(ops, fmul(ops, z1, z2), h);
    (x3, y3, z3)
}

/// Whether the general formula meets equal points: then it gives zero for
/// both `H` and `R`, and doubling is used instead.
pub open spec fn add_needs_double(ops: CommonOps, p: Jac, q: Jac) -> bool {
    let (x1, y1, z1) = p;
    let (x2, y2, z2) = q;
    let z1z1 = fmul(ops, z1, z1);
    let z2z2 = fmul(ops, z2, z2);
    let h = fsub(ops, fmul(ops, x2, z1z1), fmul(ops, x1, z2z2));
    let r = fsub(ops, fmul(ops, y2, fmul(ops, z1, z1z1)), fmul(ops, y1, fmul(ops, z2, z2z2)));
    h == 0 && r == 0
}

/// Point addition: infinity is the identity, equal points are doubled,
/// and otherwise the general formula applies (which gives `Z = 0` for
/// opposite points).
pub open spec fn add_spec(ops: CommonOps, p: Jac, q: Jac) -> Jac {
    if p.2 == 0 {
        q
    } else if q.2 == 0 {
        p
    } else if add_needs_double(ops, p, q) {
        double_spec(ops, p)
    } else {
        add_generic_spec(ops, p, q)
    }
}

fn fe_mul(ops: &CommonOps, a: &Elem<Q, R>, b: &Elem<Q, R>) -> (r: Elem<Q, R>)
    requires
        ops.wf(),
        ops.reduced(a),
        ops.reduced(b),
    ensures
        ops.reduced(&r),
        r.val(ops.nl()) == fmul(*ops, a.val(ops.nl()), b.val(ops.nl())),
{
    ops.elem_product(a, b)
}

fn fe_add(ops: &CommonOps, a: &Elem<Q, R>, b: &Elem<Q, R>) -> (r: Elem<Q, R>)
    requires
        ops.wf(),
        ops.reduced(a),
        ops.reduced(b),
    ensures
        ops.reduced(&r),
        r.val(ops.nl()) == fadd(*ops, a.val(ops.nl()), b.val(ops.nl())),
{
    let mut r = *a;
    ops.elem_add(&mut r, b);
    r
}

fn fe_sub(ops: &CommonOps, a: &Elem<Q, R>, b: &Elem<Q, R>) -> (r: Elem<Q, R>)
    requires
        ops.wf(),
        ops.reduced(a),
        ops.reduced(b),
    ensures
        ops.reduced(&r),
        r.val(ops.nl()) == fsub(*ops, a.val(ops.nl()), b.val(ops.nl())),
{
    ops.elem_difference(a, b)
}

/// The doubling of `p`.
pub fn point_double(ops: &CommonOps, p: &Point) -> (r: Point)
    requires
        ops.wf(),
        ops.point_reduced(p),
    ensures
        ops.point_reduced(&r),
        r.coords(ops.nl()) == double_spec(*ops, p.coords(ops.nl())),
{
    let x = ops.point_x(p);
    let y = ops.point_y(p);
    let z = ops.point_z(p);
    let delta = fe_mul(ops, &z, &z);
    let gamma = fe_mul(ops, &y, &y);
    let beta = fe_mul(ops, &x, &gamma);
    let t = fe_mul(ops, &fe_sub(ops, &x, &delta), &fe_add(ops, &x, &delta));
    let alpha = fe_add(ops, &fe_add(ops, &t, &t), &t);
    let beta2 = fe_add(ops, &beta, &beta);
    let beta4 = fe_add(ops, &beta2, &beta2);
    let beta8 = fe_add(ops, &beta4, &beta4);
    let x3 = fe_sub(ops, &fe_mul(ops, &alpha, &alpha), &beta8);
    let s = fe_add(ops, &y, &z);
    let z3 = fe_sub(ops, &fe_sub(ops, &fe_mul(ops, &s, &s), &gamma), &delta);
    let g2 = fe_mul(ops, &gamma, &gamma);
    let g4 = fe_add(ops, &g2, &g2);
    let g8 = fe_add(ops, &g4, &g4);
    let g16 = fe_add(ops, &g8, &g8);
    let y3 = fe_sub(ops, &fe_mul(ops, &alpha, &fe_sub(ops, &beta4, &x3)), &g16);
    ops.point_from_coords(&x3, &y3, &z3)
}

/// Chooses `a` when `mask` is zero and `b` when it is all ones, limb by
/// limb.
pub fn point_select(mask: Limb, a: &Point, b: &Point) -> (r: Point)
    requires
        mask == 0 || mask == 0xffff_ffff_ffff_ffff,
    ensures
        r == (if mask == 0 {
            *a
        } else {
            *b
        }),
{
    let mut r = Point::new_at_infinity();
    let mut j: usize = 0;
    while j < POINT_LIMBS
        invariant
            j <= POINT_LIMBS,
            mask == 0 || mask == 0xffff_ffff_ffff_ffff,
            forall|k: int| 0 <= k < j ==> r.xyz@[k] == (if mask == 0 { a.xyz@[k] } else { b.xyz@[k] }),
        decreases POINT_LIMBS - j,
    {
        r.xyz[j] = select_limb(mask, a.xyz[j], b.xyz[j]);
        j = j + 1;
    }
    proof {
        if mask == 0 {
            assert(r.xyz =~= a.xyz);
        } else {
            assert(r.xyz =~= b.xyz);
        }
    }
    r
}

/// An all-ones mask for `true`, zero for `false`.
fn mask_of(b: bool) -> (r: Limb)
    ensures
        r == (if b {
            0xffff_ffff_ffff_ffffu64
        } else {
            0u64
        }),
{
    0u64.wrapping_sub(b as u64)
}

/// The sum of `a` and `b`.
#[verifier::spinoff_prover]
pub fn point_add(ops: &CommonOps, a: &Point, b: &Point) -> (r: Point)
    requires
        ops.wf(),
        ops.point_reduced(a),
        ops.point_reduced(b),
    ensures
        ops.point_reduced(&r),
        r.coords(ops.nl()) == add_spec(*ops, a.coords(ops.nl()), b.coords(ops.nl())),
{
    let x1 = ops.point_x(a);
    let y1 = ops.point_y(a);
    let z1 = ops.point_z(a);
    let x2 = ops.point_x(b);
    let y2 = ops.point_y(b);
    let z2 = ops.point_z(b);
    let z1z1 = fe_mul(ops, &z1, &z1);
    let z2z2 = fe_mul(ops, &z2, &z2);
    let u1 = fe_mul(ops, &x1, &z2z2);
    let u2 = fe_mul(ops, &x2, &z1z1);
    let s1 = fe_mul(ops, &y1, &fe_mul(ops, &z2, &z2z2));
    let s2 = fe_mul(ops, &y2, &fe_mul(ops, &z1, &z1z1));
    let h = fe_sub(ops, &u2, &u1);
    let rr = fe_sub(ops, &s2, &s1);
    let hh = fe_mul(ops, &h, &h);
    let hhh = fe_mul(ops, &h, &hh);
    let v = fe_mul(ops, &u1, &hh);
    let x3 = fe_sub(ops, &fe_sub(ops, &fe_mul(ops, &rr, &rr), &hhh), &fe_add(ops, &v, &v));
    let y3 = fe_sub(ops, &fe_mul(ops, &rr, &fe_sub(ops, &v, &x3)), &fe_mul(ops, &s1, &hhh));
    let z3 = fe_mul(ops, &fe_mul(ops, &z1, &z2), &h);
    let generic = ops.point_from_coords(&x3, &y3, &z3);
    let doubled = point_double(ops, a);
    let both_zero = mask_of(ops.is_zero(&h)) & mask_of(ops.is_zero(&rr));
    proof {
        assert(0xffff_ffff_ffff_ffffu64 & 0xffff_ffff_ffff_ffffu64 == 0xffff_ffff_ffff_ffffu64)
            by (bit_vector);
        assert(0xffff_ffff_ffff_ffffu64 & 0u64 == 0u64) by (bit_vector);
        assert(0u64 & 0xffff_ffff_ffff_ffffu64 == 0u64) by (bit_vector);
        assert(0u64 & 0u64 == 0u64) by (bit_vector);
    }
    let r1 = point_select(both_zero, &generic, &doubled);
    let r2 = point_select(mask_of(ops.is_zero(&z2)), &r1, a);
    let r3 = point_select(mask_of(ops.is_zero(&z1)), &r2, b);
    r3
}

/// Bit `i` of a little-endian limb sequence.
pub open spec fn limb_bit(s: Seq<Limb>, i: nat) -> bool {
    (s[(i / 64) as int] >> ((i % 64) as u64)) & 1u64 == 1u64
}

/// Left-to-right double-and-add over the top `k` of `nbits` bits of
/// `limbs`, starting from the point at infinity.
pub open spec fn mul_spec(ops: CommonOps, limbs: Seq<Limb>, nbits: nat, k: nat, p: Jac) -> Jac
    decreases k,
{
    if k == 0 {
        (0, 0, 0)
    } else {
        let d = double_spec(ops, mul_spec(ops, limbs, nbits, (k - 1) as nat, p));
        if limb_bit(limbs, (nbits - k) as nat) {
            add_spec(ops, d, p)
        } else {
            d
        }
    }
}

/// Multiplies the point `p` by the scalar whose limbs are `scalar`: one
/// doubling and one addition for every bit, whatever its value.
#[verifier::spinoff_prover]
pub fn point_mul_jacobian(ops: &CommonOps, scalar: &[Limb; MAX_LIMBS], p: &Point) -> (r: Point)
    requires
        ops.wf(),
        ops.point_reduced(p),
    ensures
        ops.point_reduced(&r),
        r.coords(ops.nl()) == mul_spec(*ops, scalar@, ops.nl() * 64, ops.nl() * 64, p.coords(ops.nl())),
{
    let nbits = ops.num_limbs * 64;
    let mut acc = Point::new_at_infinity();
    proof {
        let n = ops.nl();
        assert forall|i: nat| i < 3 implies acc.coord(i, n) == 0 by {
            assert(i * n + n <= 18) by (nonlinear_arith)
                requires
                    i < 3,
                    n <= 6,
            ;
            crate::limb::lemma_limbs_val_zero(acc.xyz@.subrange((i * n) as int, (i * n + n) as int));
        }
        assert(acc.coord(0, n) == 0);
        assert(acc.coord(1, n) == 0);
        assert(acc.coord(2, n) == 0);
    }
    let mut k: usize = 0;
    while k < nbits
        invariant
            ops.wf(),
            ops.point_reduced(p),
            nbits == ops.nl() * 64,
            k <= nbits,
            ops.point_reduced(&acc),
            acc.coords(ops.nl()) == mul_spec(*ops, scalar@, nbits as nat, k as nat, p.coords(ops.nl())),
        decreases nbits - k,
    {
        let i = nbits - k - 1;
        let d = point_double(ops, &acc);
        let t = point_add(ops, &d, p);
        let bit = (scalar[i / 64] >> ((i % 64) as u64)) & 1u64;
        acc = point_select(mask_of(bit == 1u64), &d, &t);
        proof {
            assert((nbits - (k + 1)) as nat == i);
        }
        k = k + 1;
    }
    acc
}

} // verus!
