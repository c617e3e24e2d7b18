//! Checks that points lie on the curve, and decoding of uncompressed
//! points.
//!
//! A point `(x, y)` is on the curve when `y^2 == (x^2 + a) * x + b` modulo
//! `q`. For Jacobian coordinates `(X, Y, Z)` the same comparison is made
//! with `a` and `b` scaled by `Z^4` and `Z^6`, which avoids an inversion.

use vstd::prelude::*;
use crate::error::Unspecified;
use crate::jacobian::{fadd, fmul};
use crate::limb::{LIMB_BYTES, be_val};
use crate::ops::{CommonOps, Elem, Point, PublicKeyOps, Q, R};

verus! {

/// The curve equation with coefficients `a` and `b`, in Montgomery form.
pub open spec fn on_curve_scaled(ops: CommonOps, x: nat, y: nat, a: nat, b: nat) -> bool {
    fmul(ops, y, y) == fadd(ops, fmul(ops, fadd(ops, fmul(ops, x, x), a), x), b)
}

/// The affine point `(x, y)` satisfies the curve equation.
pub open spec fn on_curve(ops: CommonOps, x: nat, y: nat) -> bool {
    on_curve_scaled(ops, x, y, ops.a.val(ops.nl()), ops.b.val(ops.nl()))
}

/// `Z^4 * a` and `Z^6 * b` for the Jacobian check.
pub open spec fn z4_a(ops: CommonOps, z: nat) -> nat {
    let z2 = fmul(ops, z, z);
    fmul(ops, fmul(ops, z2, z2), ops.a.val(ops.nl()))
}

pub open spec fn z6_b(ops: CommonOps, z: nat) -> nat {
    let z2 = fmul(ops, z, z);
    fmul(ops, fmul(ops, fmul(ops, z2, z2), z2), ops.b.val(ops.nl()))
}

/// The Jacobian point `p` is not at infinity and satisfies the curve
/// equation.
pub open spec fn jacobian_on_curve(ops: CommonOps, p: (nat, nat, nat)) -> bool {
    p.2 != 0 && on_curve_scaled(ops, p.0, p.1, z4_a(ops, p.2), z6_b(ops, p.2))
}

/// Fails unless `y^2 == (x^2 + a_scaled) * x + b_scaled`.
pub fn verify_affine_point_is_on_the_curve_scaled(
    ops: &CommonOps,
    xy: (&Elem<Q, R>, &Elem<Q, R>),
    a_scaled: &Elem<Q, R>,
    b_scaled: &Elem<Q, R>,
) -> (r: Result<(), Unspecified>)
    requires
        ops.wf(),
        ops.reduced(xy.0),
        ops.reduced(xy.1),
        ops.reduced(a_scaled),
        ops.reduced(b_scaled),
    ensures
        r.is_ok() == on_curve_scaled(
            *ops,
            xy.0.val(ops.nl()),
            xy.1.val(ops.nl()),
            a_scaled.val(ops.nl()),
            b_scaled.val(ops.nl()),
        ),
{
    let (x, y) = xy;
    let lhs = ops.elem_squared(y);
    let mut rhs = ops.elem_squared(x);
    ops.elem_add(&mut rhs, a_scaled);
    ops.elem_mul(&mut rhs, x);
    ops.elem_add(&mut rhs, b_scaled);
    if !ops.elems_are_equal(&lhs, &rhs) {
        return Err(Unspecified);
    }
    Ok(())
}

/// Fails unless the affine point `(x, y)` is on the curve.
pub fn verify_affine_point_is_on_the_curve(ops: &CommonOps, xy: (&Elem<Q, R>, &Elem<Q, R>)) -> (r:
    Result<(), Unspecified>)
    requires
        ops.wf(),
        ops.reduced(xy.0),
        ops.reduced(xy.1),
    ensures
        r.is_ok() == on_curve(*ops, xy.0.val(ops.nl()), xy.1.val(ops.nl())),
{
    verify_affine_point_is_on_the_curve_scaled(ops, xy, &ops.a, &ops.b)
}

/// Fails unless the Jacobian point `p` is not at infinity and is on the
/// curve. On success returns `Z^2`.
pub fn verify_jacobian_point_is_on_the_curve(ops: &CommonOps, p: &Point) -> (r: Result<
    Elem<Q, R>,
    Unspecified,
>)
    requires
        ops.wf(),
        ops.point_reduced(p),
    ensures
        r.is_ok() == jacobian_on_curve(*ops, p.coords(ops.nl())),
        r.is_ok() ==> r.unwrap().val(ops.nl()) == fmul(*ops, p.coord(2, ops.nl()), p.coord(2, ops.nl())),
{
    let z = ops.point_z(p);
    ops.elem_verify_is_not_zero(&z)?;
    let x = ops.point_x(p);
    let y = ops.point_y(p);
    let z2 = ops.elem_squared(&z);
    let z4 = ops.elem_squared(&z2);
    let z4_a = ops.elem_product(&z4, &ops.a);
    let z6 = ops.elem_product(&z4, &z2);
    let z6_b = ops.elem_product(&z6, &ops.b);
    verify_affine_point_is_on_the_curve_scaled(ops, (&x, &y), &z4_a, &z6_b)?;
    Ok(z2)
}

/// Decodes an uncompressed point: the byte `4`, then `x` and `y` as
/// big-endian field elements of `num_limbs * LIMB_BYTES` bytes each, below
/// `q`, and on the curve. Every failure is the same error.
pub fn parse_uncompressed_point(ops: &PublicKeyOps, input: &[u8]) -> (r: Result<
    (Elem<Q, R>, Elem<Q, R>),
    Unspecified,
>)
    requires
        ops.common.wf(),
    ensures
        ({
            let len = LIMB_BYTES * ops.common.num_limbs;
            let xb = input@.subrange(1, 1 + len as int);
            let yb = input@.subrange(1 + len as int, 1 + 2 * len as int);
            r.is_ok() == (input@.len() == 1 + 2 * len && input@[0] == 4 && be_val(xb)
                < ops.common.q_val() && be_val(yb) < ops.common.q_val() && on_curve(
                ops.common,
                ops.common.fe_mul(be_val(xb), ops.common.rr_val()),
                ops.common.fe_mul(be_val(yb), ops.common.rr_val()),
            )) && (r.is_ok() ==> {
                &&& ops.common.decode(r.unwrap().0.val(ops.common.nl())) == be_val(xb)
                &&& ops.common.decode(r.unwrap().1.val(ops.common.nl())) == be_val(yb)
                &&& ops.common.reduced(&r.unwrap().0)
                &&& ops.common.reduced(&r.unwrap().1)
            })
        }),
{
    let len = LIMB_BYTES * ops.common.num_limbs;
    if input.len() != 1 + 2 * len {
        return Err(Unspecified);
    }
    if input[0] != 4 {
        return Err(Unspecified);
    }
    let xb = vstd::slice::slice_subrange(input, 1, 1 + len);
    let yb = vstd::slice::slice_subrange(input, 1 + len, 1 + 2 * len);
    let x = ops.elem_parse(xb)?;
    let y = ops.elem_parse(yb)?;
    verify_affine_point_is_on_the_curve(&ops.common, (&x, &y))?;
    Ok((x, y))
}

} // verus!
