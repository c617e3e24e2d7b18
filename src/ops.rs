//! Encoded field elements and scalars, points, and the operation tables of a
//! curve.
//!
//! An `Elem<M, E>` carries two tags: `M` names the modulus it is reduced by
//! (`Q` for the field, `N` for the group order) and `E` its encoding
//! (`Unencoded`, or `R` for Montgomery form). Products are only defined for
//! encodings that combine soundly, and the encoding of the result follows
//! from those of the factors.

use core::marker::PhantomData;
use vstd::prelude::*;
use vstd::arithmetic::div_mod::{
    lemma_mul_mod_noop, lemma_mul_mod_noop_left, lemma_mul_mod_noop_right, lemma_small_mod,
};
use vstd::arithmetic::power::{lemma_pow1, lemma_pow_adds, lemma_pow_mod_noop, lemma_pow_multiplies, pow};
use vstd::arithmetic::power2::{lemma2_to64, lemma2_to64_rest, lemma_pow2_adds, lemma_pow2_unfold, pow2};
use crate::arith::{
    add_mod, is_mont_rinv, lemma_mont_product_unique, limbs_truncate, limbs_zero, mont_decode,
    mont_mul, mont_n0_ok, mont_product, mont_rinv, sub_mod,
};
use crate::error::Unspecified;
use crate::jacobian::{add_spec, mul_spec, point_add, point_mul_jacobian};
use crate::p256::{n_p256, p256_elem_inv_squared, p256_scalar_inv_to_mont, q_p256};
use crate::p384::{n_p384, p384_elem_inv_squared, p384_scalar_inv_to_mont, q_p384};
use crate::limb::{
    AllowZero, LIMB_BYTES, Limb, LimbMask, base_pow, be_val, limbs_are_zero_constant_time,
    limbs_less_than_limbs_vartime, limbs_val, parse_big_endian_in_range_and_pad_consttime,
    parse_big_endian_in_range_partially_reduced_and_pad_consttime, reduced_once,
};

verus! {

/// The number of limbs of the largest supported curve.
pub const MAX_LIMBS: usize = 6;

/// The limbs of a point: three coordinates.
pub const POINT_LIMBS: usize = 3 * MAX_LIMBS;

/// The field modulus `q` of a curve.
#[derive(Clone, Copy)]
pub struct Q;

/// The group order `n` of a curve.
#[derive(Clone, Copy)]
pub struct N;

/// A plain residue.
#[derive(Clone, Copy)]
pub struct Unencoded;

/// A residue multiplied by `R`, the weight of one limb past the top one.
#[derive(Clone, Copy)]
pub struct R;

/// A residue multiplied by `R * R`.
#[derive(Clone, Copy)]
pub struct RR;

/// An encoding of residues.
pub trait Encoding {}

impl Encoding for Unencoded {}

impl Encoding for R {}

impl Encoding for RR {}

/// The encoding of a Montgomery product of factors with encodings `A` and
/// `B`: the product carries one factor of `R` less than the two together.
pub trait ProductEncoding {
    type Output: Encoding;
}

impl ProductEncoding for (Unencoded, R) {
    type Output = Unencoded;
}

impl ProductEncoding for (R, Unencoded) {
    type Output = Unencoded;
}

impl ProductEncoding for (R, R) {
    type Output = R;
}

impl ProductEncoding for (RR, Unencoded) {
    type Output = R;
}

impl ProductEncoding for (Unencoded, RR) {
    type Output = R;
}

/// An element reduced by the modulus `M`, in encoding `E`. Only the first
/// `num_limbs` limbs of the curve are used; the rest are padding.
pub struct Elem<M, E> {
    pub limbs: [Limb; MAX_LIMBS],
    pub m: PhantomData<M>,
    pub encoding: PhantomData<E>,
}

impl<M, E> Clone for Elem<M, E> {
    fn clone(&self) -> (r: Self)
        ensures
            r == *self,
    {
        Elem { limbs: self.limbs, m: PhantomData, encoding: PhantomData }
    }
}

impl<M, E> Copy for Elem<M, E> {

}

/// A field element.
pub type FieldElem<E> = Elem<Q, E>;

/// A scalar, reduced by the group order.
pub type Scalar<E = Unencoded> = Elem<N, E>;

impl<M, E> Elem<M, E> {
    /// The value of the first `n` limbs.
    pub open spec fn val(&self, n: nat) -> nat {
        limbs_val(self.limbs@.take(n as int))
    }

    /// The limbs from `n` on are zero.
    pub open spec fn padded(&self, n: nat) -> bool {
        forall|j: int| n <= j < MAX_LIMBS ==> self.limbs@[j] == 0
    }

    /// The element with all limbs zero.
    pub fn zero() -> (r: Elem<M, E>)
        ensures
            forall|j: int| 0 <= j < MAX_LIMBS ==> r.limbs@[j] == 0,
    {
        Elem { limbs: [0; MAX_LIMBS], m: PhantomData, encoding: PhantomData }
    }

    /// An element with the given limbs.
    pub fn from_limbs(limbs: [Limb; MAX_LIMBS]) -> (r: Elem<M, E>)
        ensures
            r.limbs == limbs,
    {
        Elem { limbs, m: PhantomData, encoding: PhantomData }
    }
}

/// The first `n` limbs of an array.
pub fn limbs_prefix(a: &[Limb; MAX_LIMBS], n: usize) -> (r: Vec<Limb>)
    requires
        n <= MAX_LIMBS,
    ensures
        r@ == a@.take(n as int),
{
    limbs_truncate(a.as_slice(), n)
}

/// An array holding `v` in its first limbs and zeros after.
pub fn limbs_to_array(v: &Vec<Limb>) -> (r: [Limb; MAX_LIMBS])
    requires
        v@.len() <= MAX_LIMBS,
    ensures
        r@.take(v@.len() as int) == v@,
        forall|j: int| v@.len() <= j < MAX_LIMBS ==> r@[j] == 0,
{
    let mut r: [Limb; MAX_LIMBS] = [0; MAX_LIMBS];
    let mut i: usize = 0;
    while i < v.len()
        invariant
            v@.len() <= MAX_LIMBS,
            i <= v@.len(),
            forall|j: int| 0 <= j < i ==> r@[j] == v@[j],
            forall|j: int| v@.len() <= j < MAX_LIMBS ==> r@[j] == 0,
        decreases v@.len() - i,
    {
        r[i] = v[i];
        i = i + 1;
    }
    proof {
        assert(r@.take(v@.len() as int) =~= v@);
    }
    r
}

/// A modulus and its Montgomery constants.
#[derive(Clone, Copy)]
pub struct Mont {
    /// The modulus.
    pub p: [Limb; MAX_LIMBS],
    /// `R * R` modulo the modulus.
    pub rr: [Limb; MAX_LIMBS],
    /// `-1 / p` modulo `limb_base()`.
    pub n0: Limb,
}

impl Mont {
    /// The modulus as a number of `n` limbs.
    pub open spec fn modulus(&self, n: nat) -> nat {
        limbs_val(self.p@.take(n as int))
    }

    /// The constants are consistent for `n` limbs.
    pub open spec fn wf(&self, n: nat) -> bool {
        1 <= n <= MAX_LIMBS && self.modulus(n) > 1 && mont_n0_ok(self.p@.take(n as int), self.n0)
            && (exists|rinv: nat| is_mont_rinv(self.modulus(n), n, rinv)) && limbs_val(
            self.rr@.take(n as int),
        ) == (base_pow(n) * base_pow(n)) % self.modulus(n)
    }

    /// The Montgomery product of two values below the modulus.
    pub fn mul(&self, n: usize, a: &[Limb; MAX_LIMBS], b: &[Limb; MAX_LIMBS]) -> (r: [Limb; MAX_LIMBS])
        requires
            self.wf(n as nat),
            limbs_val(a@.take(n as int)) < self.modulus(n as nat),
            limbs_val(b@.take(n as int)) < self.modulus(n as nat),
        ensures
            limbs_val(r@.take(n as int)) == mont_product(
                limbs_val(a@.take(n as int)),
                limbs_val(b@.take(n as int)),
                self.modulus(n as nat),
                n as nat,
            ),
            limbs_val(r@.take(n as int)) < self.modulus(n as nat),
            forall|j: int| n <= j < MAX_LIMBS ==> r@[j] == 0,
    {
        let av = limbs_prefix(a, n);
        let bv = limbs_prefix(b, n);
        let mv = limbs_prefix(&self.p, n);
        let rv = mont_mul(av.as_slice(), bv.as_slice(), mv.as_slice(), self.n0);
        proof {
            lemma_mont_product_unique(
                limbs_val(rv@),
                limbs_val(av@),
                limbs_val(bv@),
                limbs_val(mv@),
                n as nat,
            );
        }
        limbs_to_array(&rv)
    }

    /// The sum of two values below the modulus, reduced.
    pub fn add(&self, n: usize, a: &[Limb; MAX_LIMBS], b: &[Limb; MAX_LIMBS]) -> (r: [Limb; MAX_LIMBS])
        requires
            self.wf(n as nat),
            limbs_val(a@.take(n as int)) < self.modulus(n as nat),
            limbs_val(b@.take(n as int)) < self.modulus(n as nat),
        ensures
            limbs_val(r@.take(n as int)) == (limbs_val(a@.take(n as int)) + limbs_val(
                b@.take(n as int),
            )) % self.modulus(n as nat),
            forall|j: int| n <= j < MAX_LIMBS ==> r@[j] == 0,
    {
        let av = limbs_prefix(a, n);
        let bv = limbs_prefix(b, n);
        let mv = limbs_prefix(&self.p, n);
        let rv = add_mod(av.as_slice(), bv.as_slice(), mv.as_slice());
        limbs_to_array(&rv)
    }

    /// The difference of two values below the modulus, reduced.
    pub fn sub(&self, n: usize, a: &[Limb; MAX_LIMBS], b: &[Limb; MAX_LIMBS]) -> (r: [Limb; MAX_LIMBS])
        requires
            self.wf(n as nat),
            limbs_val(a@.take(n as int)) < self.modulus(n as nat),
            limbs_val(b@.take(n as int)) < self.modulus(n as nat),
        ensures
            limbs_val(r@.take(n as int)) as int == (limbs_val(a@.take(n as int)) as int - limbs_val(
                b@.take(n as int),
            ) as int) % (self.modulus(n as nat) as int),
            forall|j: int| n <= j < MAX_LIMBS ==> r@[j] == 0,
    {
        let av = limbs_prefix(a, n);
        let bv = limbs_prefix(b, n);
        let mv = limbs_prefix(&self.p, n);
        let rv = sub_mod(av.as_slice(), bv.as_slice(), mv.as_slice());
        limbs_to_array(&rv)
    }
}

/// The element one, unencoded.
pub fn one<M>() -> (r: Elem<M, Unencoded>)
    ensures
        forall|n: nat| 1 <= n <= MAX_LIMBS ==> #[trigger] r.val(n) == 1,
{
    let mut limbs: [Limb; MAX_LIMBS] = [0; MAX_LIMBS];
    limbs[0] = 1;
    let r: Elem<M, Unencoded> = Elem::from_limbs(limbs);
    proof {
        assert(r.limbs@ =~= seq![1u64, 0, 0, 0, 0, 0]);
        assert(seq![1u64].drop_last() =~= Seq::<Limb>::empty());
        assert(limbs_val(Seq::<Limb>::empty()) == 0);
        assert(base_pow(0) == 1);
        assert(seq![1u64].len() == 1);
        assert(seq![1u64].last() == 1);
        assert(limbs_val(seq![1u64]) == limbs_val(seq![1u64].drop_last()) + 1 * base_pow(0));
        assert(limbs_val(seq![1u64]) == 1);
        assert forall|n: nat| 1 <= n <= MAX_LIMBS implies #[trigger] r.val(n) == 1 by {
            let s = r.limbs@.take(n as int);
            assert forall|j: int| 1 <= j < s.len() implies s[j] == 0 by {}
            crate::limb::lemma_limbs_val_high_zero(s, 1);
            assert(s.take(1) =~= seq![1u64]);
        }
    }
    r
}

/// Operations and values needed by all curve operations.
#[derive(Clone, Copy)]
pub struct CommonOps {
    /// The number of limbs of an element.
    pub num_limbs: usize,
    /// The field modulus `q`.
    pub q: Mont,
    /// The group order `n`.
    pub n: Elem<Q, Unencoded>,
    /// The curve coefficient `a`, which is `-3` modulo `q`.
    pub a: Elem<Q, R>,
    /// The curve coefficient `b`.
    pub b: Elem<Q, R>,
}

impl CommonOps {
    /// `num_limbs` as a number.
    pub open spec fn nl(&self) -> nat {
        self.num_limbs as nat
    }

    /// The field modulus.
    pub open spec fn q_val(&self) -> nat {
        self.q.modulus(self.nl())
    }

    /// The table is consistent.
    pub open spec fn wf(&self) -> bool {
        &&& self.q.wf(self.nl())
        &&& self.q_val() > 3
        &&& self.a.val(self.nl()) < self.q_val()
        &&& self.decode(self.a.val(self.nl())) == (self.q_val() - 3) as nat
        &&& self.b.val(self.nl()) < self.q_val()
        &&& self.n.val(self.nl()) > 1
    }

    /// `e` is a reduced field element.
    pub open spec fn reduced<E>(&self, e: &Elem<Q, E>) -> bool {
        e.val(self.nl()) < self.q_val()
    }

    /// The table is that of P-384 or of P-256, whose addition chains this
    /// library holds.
    pub open spec fn is_known_curve(&self) -> bool {
        (self.num_limbs == 6 && self.q_val() == q_p384()) || (self.num_limbs == 4 && self.q_val()
            == q_p256())
    }

    /// The Montgomery product of two field values.
    pub open spec fn fe_mul(&self, a: nat, b: nat) -> nat {
        mont_product(a, b, self.q_val(), self.nl())
    }

    /// The sum of two field values.
    pub open spec fn fe_add(&self, a: nat, b: nat) -> nat {
        (a + b) % self.q_val()
    }

    /// The difference of two field values.
    pub open spec fn fe_sub(&self, a: nat, b: nat) -> nat {
        ((a as int - b as int) % (self.q_val() as int)) as nat
    }

    /// Sets `a` to `a + b` modulo `q`.
    pub fn elem_add(&self, a: &mut Elem<Q, R>, b: &Elem<Q, R>)
        requires
            self.wf(),
            self.reduced(old(a)),
            self.reduced(b),
        ensures
            final(a).val(self.nl()) == self.fe_add(old(a).val(self.nl()), b.val(self.nl())),
            self.reduced(final(a)),
    {
        let r = self.q.add(self.num_limbs, &a.limbs, &b.limbs);
        a.limbs = r;
    }

    /// Returns `a - b` modulo `q`.
    pub fn elem_difference(&self, a: &Elem<Q, R>, b: &Elem<Q, R>) -> (r: Elem<Q, R>)
        requires
            self.wf(),
            self.reduced(a),
            self.reduced(b),
        ensures
            r.val(self.nl()) == self.fe_sub(a.val(self.nl()), b.val(self.nl())),
            self.reduced(&r),
    {
        Elem::from_limbs(self.q.sub(self.num_limbs, &a.limbs, &b.limbs))
    }

    /// Returns whether `a` and `b` have the same value.
    pub fn elems_are_equal(&self, a: &Elem<Q, R>, b: &Elem<Q, R>) -> (r: bool)
        requires
            self.wf(),
        ensures
            r == (a.val(self.nl()) == b.val(self.nl())),
    {
        let n = self.num_limbs;
        let mut i: usize = 0;
        while i < n
            invariant
                n == self.num_limbs <= MAX_LIMBS,
                i <= n,
                forall|j: int| 0 <= j < i ==> a.limbs@[j] == b.limbs@[j],
            decreases n - i,
        {
            if a.limbs[i] != b.limbs[i] {
                proof {
                    crate::limb::lemma_limbs_val_inj(a.limbs@.take(n as int), b.limbs@.take(n as int));
                    assert(a.limbs@.take(n as int)[i as int] != b.limbs@.take(n as int)[i as int]);
                }
                return false;
            }
            i = i + 1;
        }
        proof {
            assert(a.limbs@.take(n as int) =~= b.limbs@.take(n as int));
        }
        true
    }

    /// Returns `a` decoded from Montgomery form.
    pub fn elem_unencoded(&self, a: &Elem<Q, R>) -> (r: Elem<Q, Unencoded>)
        requires
            self.wf(),
            self.reduced(a),
        ensures
            r.val(self.nl()) == self.fe_mul(a.val(self.nl()), 1),
            r.val(self.nl()) == self.decode(a.val(self.nl())),
            self.reduced(&r),
    {
        let o: Elem<Q, Unencoded> = one();
        proof {
            assert(a.val(self.nl()) * 1 == a.val(self.nl()));
        }
        self.elem_product(a, &o)
    }

    /// Sets `a` to the Montgomery product `a * b`.
    pub fn elem_mul(&self, a: &mut Elem<Q, R>, b: &Elem<Q, R>)
        requires
            self.wf(),
            self.reduced(old(a)),
            self.reduced(b),
        ensures
            final(a).val(self.nl()) == self.fe_mul(old(a).val(self.nl()), b.val(self.nl())),
            self.reduced(final(a)),
    {
        let r = self.q.mul(self.num_limbs, &a.limbs, &b.limbs);
        a.limbs = r;
    }

    /// The Montgomery product `a * b`, in the encoding that the factors'
    /// encodings give.
    pub fn elem_product<EA: Encoding, EB: Encoding>(&self, a: &Elem<Q, EA>, b: &Elem<Q, EB>) -> (r:
        Elem<Q, <(EA, EB) as ProductEncoding>::Output>) where (EA, EB): ProductEncoding
        requires
            self.wf(),
            self.reduced(a),
            self.reduced(b),
        ensures
            r.val(self.nl()) == self.fe_mul(a.val(self.nl()), b.val(self.nl())),
            self.reduced(&r),
    {
        Elem::from_limbs(self.q.mul(self.num_limbs, &a.limbs, &b.limbs))
    }

    /// Sets `a` to its Montgomery square.
    pub fn elem_square(&self, a: &mut Elem<Q, R>)
        requires
            self.wf(),
            self.reduced(old(a)),
        ensures
            final(a).val(self.nl()) == self.fe_mul(old(a).val(self.nl()), old(a).val(self.nl())),
            self.reduced(final(a)),
    {
        let r = self.q.mul(self.num_limbs, &a.limbs, &a.limbs);
        a.limbs = r;
    }

    /// The Montgomery square of `a`.
    pub fn elem_squared(&self, a: &Elem<Q, R>) -> (r: Elem<Q, R>)
        requires
            self.wf(),
            self.reduced(a),
        ensures
            r.val(self.nl()) == self.fe_mul(a.val(self.nl()), a.val(self.nl())),
            self.reduced(&r),
    {
        Elem::from_limbs(self.q.mul(self.num_limbs, &a.limbs, &a.limbs))
    }

    /// Returns whether the value of `a` is zero.
    pub fn is_zero<M, E>(&self, a: &Elem<M, E>) -> (r: bool)
        requires
            1 <= self.num_limbs <= MAX_LIMBS,
        ensures
            r == (a.val(self.nl()) == 0),
    {
        let limbs = limbs_prefix(&a.limbs, self.num_limbs);
        limbs_are_zero_constant_time(limbs.as_slice()) == LimbMask::True
    }

    /// Fails when the value of `a` is zero.
    pub fn elem_verify_is_not_zero(&self, a: &Elem<Q, R>) -> (r: Result<(), Unspecified>)
        requires
            1 <= self.num_limbs <= MAX_LIMBS,
        ensures
            r.is_ok() == (a.val(self.nl()) != 0),
    {
        if self.is_zero(a) {
            Err(Unspecified)
        } else {
            Ok(())
        }
    }
}

/// Parses `bytes` into an element of `num_limbs` limbs whose value is below
/// `max_exclusive` (and not zero unless `allow_zero` says so).
fn parse_big_endian_in_range<M>(
    num_limbs: usize,
    bytes: &[u8],
    allow_zero: AllowZero,
    max_exclusive: &[Limb; MAX_LIMBS],
) -> (r: Result<Elem<M, Unencoded>, Unspecified>)
    requires
        1 <= num_limbs <= MAX_LIMBS,
    ensures
        r.is_ok() == (0 < bytes@.len() <= LIMB_BYTES * num_limbs && be_val(bytes@) < limbs_val(
            max_exclusive@.take(num_limbs as int),
        ) && (allow_zero == AllowZero::Yes || be_val(bytes@) != 0)),
        r.is_ok() ==> r.unwrap().val(num_limbs as nat) == be_val(bytes@),
        r.is_ok() ==> r.unwrap().padded(num_limbs as nat),
{
    let bound = limbs_prefix(max_exclusive, num_limbs);
    let mut v = limbs_zero(num_limbs);
    let res = parse_big_endian_in_range_and_pad_consttime(
        bytes,
        allow_zero,
        bound.as_slice(),
        v.as_mut_slice(),
    );
    match res {
        Ok(()) => {
            let limbs = limbs_to_array(&v);
            Ok(Elem::from_limbs(limbs))
        },
        Err(e) => Err(e),
    }
}

/// Parses exactly `num_limbs * LIMB_BYTES` bytes into an element below
/// `max_exclusive`.
fn parse_big_endian_fixed_consttime<M>(
    ops: &CommonOps,
    bytes: &[u8],
    allow_zero: AllowZero,
    max_exclusive: &[Limb; MAX_LIMBS],
) -> (r: Result<Elem<M, Unencoded>, Unspecified>)
    requires
        1 <= ops.num_limbs <= MAX_LIMBS,
    ensures
        r.is_ok() == (bytes@.len() == LIMB_BYTES * ops.num_limbs && be_val(bytes@) < limbs_val(
            max_exclusive@.take(ops.num_limbs as int),
        ) && (allow_zero == AllowZero::Yes || be_val(bytes@) != 0)),
        r.is_ok() ==> r.unwrap().val(ops.nl()) == be_val(bytes@),
        r.is_ok() ==> r.unwrap().padded(ops.nl()),
{
    if bytes.len() != ops.num_limbs * LIMB_BYTES {
        return Err(Unspecified);
    }
    parse_big_endian_in_range(ops.num_limbs, bytes, allow_zero, max_exclusive)
}

/// Parses a field element: exactly `num_limbs * LIMB_BYTES` big-endian
/// bytes, below `q`. Zero is allowed.
pub fn elem_parse_big_endian_fixed_consttime(ops: &CommonOps, bytes: &[u8]) -> (r: Result<
    Elem<Q, Unencoded>,
    Unspecified,
>)
    requires
        1 <= ops.num_limbs <= MAX_LIMBS,
    ensures
        r.is_ok() == (bytes@.len() == LIMB_BYTES * ops.num_limbs && be_val(bytes@) < ops.q_val()),
        r.is_ok() ==> r.unwrap().val(ops.nl()) == be_val(bytes@),
        r.is_ok() ==> r.unwrap().padded(ops.nl()),
{
    parse_big_endian_fixed_consttime(ops, bytes, AllowZero::Yes, &ops.q.p)
}

/// Parses a scalar: exactly `num_limbs * LIMB_BYTES` big-endian bytes, in
/// `[1, n)`.
pub fn scalar_parse_big_endian_fixed_consttime(ops: &CommonOps, bytes: &[u8]) -> (r: Result<
    Scalar,
    Unspecified,
>)
    requires
        1 <= ops.num_limbs <= MAX_LIMBS,
    ensures
        r.is_ok() == (bytes@.len() == LIMB_BYTES * ops.num_limbs && 0 < be_val(bytes@) < ops.n.val(
            ops.nl(),
        )),
        r.is_ok() ==> r.unwrap().val(ops.nl()) == be_val(bytes@),
        r.is_ok() ==> r.unwrap().padded(ops.nl()),
{
    parse_big_endian_fixed_consttime(ops, bytes, AllowZero::No, &ops.n.limbs)
}

/// Parses a scalar of at most `num_limbs * LIMB_BYTES` big-endian bytes,
/// below `n`; zero only where `allow_zero` says so.
pub fn scalar_parse_big_endian_variable(ops: &CommonOps, allow_zero: AllowZero, bytes: &[u8]) -> (r:
    Result<Scalar, Unspecified>)
    requires
        1 <= ops.num_limbs <= MAX_LIMBS,
    ensures
        r.is_ok() == (0 < bytes@.len() <= LIMB_BYTES * ops.num_limbs && be_val(bytes@) < ops.n.val(
            ops.nl(),
        ) && (allow_zero == AllowZero::Yes || be_val(bytes@) != 0)),
        r.is_ok() ==> r.unwrap().val(ops.nl()) == be_val(bytes@),
        r.is_ok() ==> r.unwrap().padded(ops.nl()),
{
    parse_big_endian_in_range(ops.num_limbs, bytes, allow_zero, &ops.n.limbs)
}

/// Parses a scalar of at most `num_limbs * LIMB_BYTES` big-endian bytes and
/// subtracts `n` once if it is at least `n`; zero only where `allow_zero`
/// says so. For values below `2 * n` this is the value modulo `n`.
pub fn scalar_parse_big_endian_partially_reduced_variable_consttime(
    ops: &CommonOps,
    allow_zero: AllowZero,
    bytes: &[u8],
) -> (r: Result<Scalar, Unspecified>)
    requires
        1 <= ops.num_limbs <= MAX_LIMBS,
    ensures
        r.is_ok() == (0 < bytes@.len() <= LIMB_BYTES * ops.num_limbs && (allow_zero
            == AllowZero::Yes || reduced_once(be_val(bytes@), ops.n.val(ops.nl())) != 0)),
        r.is_ok() ==> r.unwrap().val(ops.nl()) == reduced_once(be_val(bytes@), ops.n.val(ops.nl())),
        r.is_ok() ==> r.unwrap().padded(ops.nl()),
{
    let bound = limbs_prefix(&ops.n.limbs, ops.num_limbs);
    let mut v = limbs_zero(ops.num_limbs);
    let res = parse_big_endian_in_range_partially_reduced_and_pad_consttime(
        bytes,
        allow_zero,
        bound.as_slice(),
        v.as_mut_slice(),
    );
    match res {
        Ok(()) => {
            let limbs = limbs_to_array(&v);
            Ok(Elem::from_limbs(limbs))
        },
        Err(e) => Err(e),
    }
}

impl CommonOps {
    /// The field residue that a Montgomery-encoded value stands for.
    pub open spec fn decode(&self, v: nat) -> nat {
        self.q.decode(self.nl(), v)
    }
}

/// A Montgomery product decodes to the product of the decoded factors.
pub proof fn lemma_fe_mul_decode(ops: &CommonOps, a: nat, b: nat)
    requires
        ops.wf(),
    ensures
        ops.decode(ops.fe_mul(a, b)) == (ops.decode(a) * ops.decode(b)) % ops.q_val(),
{
    lemma_mont_decode_mul(&ops.q, ops.nl(), a, b);
}

/// Residues of powers of one base multiply by adding exponents.
pub proof fn lemma_pow_mod_mul(x: int, e: nat, f: nat, m: int)
    requires
        m > 0,
    ensures
        ((pow(x, e) % m) * (pow(x, f) % m)) % m == pow(x, e + f) % m,
{
    lemma_mul_mod_noop(pow(x, e), pow(x, f), m);
    lemma_pow_adds(x, e, f);
}

/// Squaring `k` times and multiplying, on residues of powers of one base.
pub proof fn lemma_pow_sqr_mul(x: int, e: nat, k: nat, f: nat, m: int)
    requires
        m > 0,
    ensures
        (pow(pow(x, e) % m, pow2(k)) * (pow(x, f) % m)) % m == pow(x, e * pow2(k) + f) % m,
{
    lemma_pow_mod_noop(pow(x, e), pow2(k), m);
    lemma_pow_multiplies(x, e, pow2(k));
    lemma_mul_mod_noop(pow(pow(x, e) % m, pow2(k)), pow(x, f) % m, m);
    vstd::arithmetic::div_mod::lemma_mod_twice(pow(x, f), m);
    lemma_mul_mod_noop(pow(x, e * pow2(k)), pow(x, f), m);
    lemma_pow_adds(x, e * pow2(k), f);
}

/// One more squaring of a residue of `x^(2^i)`.
proof fn lemma_pow_square_step(x: int, i: nat, m: int)
    requires
        m > 0,
    ensures
        ((pow(x, pow2(i)) % m) * (pow(x, pow2(i)) % m)) % m == pow(x, pow2(i + 1)) % m,
{
    lemma_pow_mod_mul(x, pow2(i), pow2(i), m);
    lemma_pow2_unfold(i + 1);
}

/// Returns (`a` squared `squarings` times) times `b`.
pub fn elem_sqr_mul(ops: &CommonOps, a: &Elem<Q, R>, squarings: usize, b: &Elem<Q, R>) -> (r: Elem<
    Q,
    R,
>)
    requires
        ops.wf(),
        ops.reduced(a),
        ops.reduced(b),
        squarings >= 1,
    ensures
        ops.reduced(&r),
        ops.decode(r.val(ops.nl())) as int == (pow(
            ops.decode(a.val(ops.nl())) as int,
            pow2(squarings as nat),
        ) * ops.decode(b.val(ops.nl())) as int) % (ops.q_val() as int),
{
    let ghost x = ops.decode(a.val(ops.nl())) as int;
    let ghost q = ops.q_val() as int;
    let mut tmp = ops.elem_squared(a);
    proof {
        lemma_fe_mul_decode(ops, a.val(ops.nl()), a.val(ops.nl()));
        vstd::arithmetic::power::lemma_pow1(x);
        vstd::arithmetic::div_mod::lemma_small_mod(x as nat, q as nat);
        lemma_pow_square_step(x, 0, q);
        vstd::arithmetic::power2::lemma2_to64();
    }
    let mut i: usize = 1;
    while i < squarings
        invariant
            ops.wf(),
            ops.reduced(&tmp),
            x == ops.decode(a.val(ops.nl())),
            q == ops.q_val(),
            1 <= i <= squarings,
            ops.decode(tmp.val(ops.nl())) as int == pow(x, pow2(i as nat)) % q,
        decreases squarings - i,
    {
        let ghost t0 = tmp.val(ops.nl());
        ops.elem_square(&mut tmp);
        proof {
            lemma_fe_mul_decode(ops, t0, t0);
            lemma_pow_square_step(x, i as nat, q);
        }
        i = i + 1;
    }
    let r = ops.elem_product(&tmp, b);
    proof {
        lemma_fe_mul_decode(ops, tmp.val(ops.nl()), b.val(ops.nl()));
        lemma_mul_mod_noop_left(pow(x, pow2(squarings as nat)), ops.decode(b.val(ops.nl())) as int, q);
    }
    r
}

/// Sets `acc` to (`acc` squared `squarings` times) times `b`.
pub fn elem_sqr_mul_acc(ops: &CommonOps, acc: &mut Elem<Q, R>, squarings: usize, b: &Elem<Q, R>)
    requires
        ops.wf(),
        ops.reduced(old(acc)),
        ops.reduced(b),
        squarings >= 1,
    ensures
        ops.reduced(final(acc)),
        ops.decode(final(acc).val(ops.nl())) as int == (pow(
            ops.decode(old(acc).val(ops.nl())) as int,
            pow2(squarings as nat),
        ) * ops.decode(b.val(ops.nl())) as int) % (ops.q_val() as int),
{
    let r = elem_sqr_mul(ops, acc, squarings, b);
    *acc = r;
}

/// One step of an addition chain: squaring `u` (a residue of `x^e`) `k`
/// times and multiplying by `w` (a residue of `x^f`) gives a residue of
/// `x^(e * 2^k + f)`.
pub proof fn lemma_chain_step(
    ops: &CommonOps,
    x: int,
    u: nat,
    w: nat,
    r: nat,
    e: nat,
    k: nat,
    f: nat,
    pw: nat,
    g: nat,
)
    requires
        ops.wf(),
        pow2(k) == pw,
        e * pw + f == g,
        ops.decode(u) as int == pow(x, e) % (ops.q_val() as int),
        ops.decode(w) as int == pow(x, f) % (ops.q_val() as int),
        ops.decode(r) as int == (pow(ops.decode(u) as int, pow2(k)) * ops.decode(w) as int) % (
        ops.q_val() as int),
    ensures
        ops.decode(r) as int == pow(x, g) % (ops.q_val() as int),
{
    lemma_mont_chain_step(&ops.q, ops.nl(), x, u, w, r, e, k, f, pw, g);
}

impl Mont {
    /// The residue that a Montgomery-encoded value `v` of `n` limbs stands
    /// for.
    pub open spec fn decode(&self, n: nat, v: nat) -> nat {
        mont_decode(v, self.modulus(n), mont_rinv(self.modulus(n), n))
    }
}

/// A value given as `x * R` modulo the modulus decodes to `x`.
pub proof fn lemma_mont_decode_encoded(m: &Mont, n: nat, x: nat, v: nat)
    requires
        m.wf(n),
        x < m.modulus(n),
        v == (x * base_pow(n)) % m.modulus(n),
    ensures
        m.decode(n, v) == x,
{
    let q = m.modulus(n) as int;
    let r = mont_rinv(m.modulus(n), n) as int;
    let w = base_pow(n) as int;
    let xi = x as int;
    let choice = choose|rinv: nat| is_mont_rinv(m.modulus(n), n, rinv);
    assert(is_mont_rinv(m.modulus(n), n, choice));
    assert((w * r) % q == 1);
    lemma_mul_mod_noop_left(xi * w, r, q);
    assert(xi * w * r == xi * (w * r)) by (nonlinear_arith);
    lemma_mul_mod_noop_right(xi, w * r, q);
    lemma_small_mod(x, m.modulus(n));
}

/// A Montgomery product decodes to the product of the decoded factors.
pub proof fn lemma_mont_decode_mul(m: &Mont, n: nat, a: nat, b: nat)
    requires
        m.wf(n),
    ensures
        m.decode(n, mont_product(a, b, m.modulus(n), n)) == (m.decode(n, a) * m.decode(n, b))
            % m.modulus(n),
{
    let q = m.modulus(n) as int;
    let v = mont_rinv(m.modulus(n), n) as int;
    let ai = a as int;
    let bi = b as int;
    lemma_mul_mod_noop_left(ai * bi * v, v, q);
    assert(ai * bi * v * v == (ai * v) * (bi * v)) by (nonlinear_arith);
    lemma_mul_mod_noop(ai * v, bi * v, q);
}

/// One step of an addition chain modulo `m`: see `lemma_chain_step`.
pub proof fn lemma_mont_chain_step(
    m: &Mont,
    n: nat,
    x: int,
    u: nat,
    w: nat,
    r: nat,
    e: nat,
    k: nat,
    f: nat,
    pw: nat,
    g: nat,
)
    requires
        m.wf(n),
        pow2(k) == pw,
        e * pw + f == g,
        m.decode(n, u) as int == pow(x, e) % (m.modulus(n) as int),
        m.decode(n, w) as int == pow(x, f) % (m.modulus(n) as int),
        m.decode(n, r) as int == (pow(m.decode(n, u) as int, pow2(k)) * m.decode(n, w) as int) % (
        m.modulus(n) as int),
    ensures
        m.decode(n, r) as int == pow(x, g) % (m.modulus(n) as int),
{
    lemma_pow_sqr_mul(x, e, k, f, m.modulus(n) as int);
}

/// Operations on scalars, used by signing and verification alike.
#[derive(Clone, Copy)]
pub struct ScalarOps {
    pub common: CommonOps,
    /// The group order with its Montgomery constants.
    pub n_mont: Mont,
}

impl ScalarOps {
    /// The group order.
    pub open spec fn n_val(&self) -> nat {
        self.common.n.val(self.common.nl())
    }

    pub open spec fn wf(&self) -> bool {
        &&& self.common.wf()
        &&& self.n_mont.wf(self.common.nl())
        &&& self.n_mont.modulus(self.common.nl()) == self.n_val()
    }

    /// The residue that a Montgomery-encoded scalar value stands for.
    pub open spec fn decode(&self, v: nat) -> nat {
        self.n_mont.decode(self.common.nl(), v)
    }

    /// The length of a scalar in bytes, without padding.
    pub fn scalar_bytes_len(&self) -> (r: usize)
        requires
            self.common.num_limbs <= MAX_LIMBS,
        ensures
            r == self.common.num_limbs * LIMB_BYTES,
    {
        self.common.num_limbs * LIMB_BYTES
    }

    /// The Montgomery product `a * b` modulo `n`, in the encoding that the
    /// factors' encodings give.
    pub fn scalar_product<EA: Encoding, EB: Encoding>(&self, a: &Scalar<EA>, b: &Scalar<EB>) -> (r:
        Scalar<<(EA, EB) as ProductEncoding>::Output>) where (EA, EB): ProductEncoding
        requires
            self.wf(),
            a.val(self.common.nl()) < self.n_val(),
            b.val(self.common.nl()) < self.n_val(),
        ensures
            r.val(self.common.nl()) == mont_product(
                a.val(self.common.nl()),
                b.val(self.common.nl()),
                self.n_val(),
                self.common.nl(),
            ),
            r.val(self.common.nl()) < self.n_val(),
    {
        Elem::from_limbs(self.n_mont.mul(self.common.num_limbs, &a.limbs, &b.limbs))
    }
}

/// A point in Jacobian coordinates `(X, Y, Z)`, standing for the affine
/// point `(X / Z^2, Y / Z^3)`; `Z == 0` is the point at infinity. The
/// coordinates lie one after the other, `num_limbs` limbs each.
#[derive(Clone, Copy)]
pub struct Point {
    pub xyz: [Limb; POINT_LIMBS],
}

impl Point {
    /// The point at infinity: all coordinates zero.
    pub fn new_at_infinity() -> (r: Point)
        ensures
            forall|j: int| 0 <= j < POINT_LIMBS ==> r.xyz@[j] == 0,
    {
        Point { xyz: [0; POINT_LIMBS] }
    }

    /// The value of coordinate `i` (0 for X, 1 for Y, 2 for Z), with `n`
    /// limbs per coordinate.
    pub open spec fn coord(&self, i: nat, n: nat) -> nat {
        limbs_val(self.xyz@.subrange((i * n) as int, (i * n + n) as int))
    }

    /// The three coordinate values.
    pub open spec fn coords(&self, n: nat) -> (nat, nat, nat) {
        (self.coord(0, n), self.coord(1, n), self.coord(2, n))
    }
}

impl CommonOps {
    /// Each coordinate of `p` is a reduced field value.
    pub open spec fn point_reduced(&self, p: &Point) -> bool {
        &&& p.coord(0, self.nl()) < self.q_val()
        &&& p.coord(1, self.nl()) < self.q_val()
        &&& p.coord(2, self.nl()) < self.q_val()
    }

    /// Copies coordinate `i` of `p` into a field element.
    fn point_coord(&self, p: &Point, i: usize) -> (r: Elem<Q, R>)
        requires
            1 <= self.num_limbs <= MAX_LIMBS,
            i < 3,
        ensures
            r.val(self.nl()) == p.coord(i as nat, self.nl()),
    {
        let n = self.num_limbs;
        let mut r: Elem<Q, R> = Elem::zero();
        let mut j: usize = 0;
        assert(i * n + n <= 18) by (nonlinear_arith)
            requires
                i < 3,
                n <= 6,
        ;
        while j < n
            invariant
                n == self.num_limbs <= MAX_LIMBS,
                i < 3,
                i * n + n <= 18,
                j <= n,
                forall|k: int| 0 <= k < j ==> r.limbs@[k] == p.xyz@[i * n + k],
            decreases n - j,
        {
            r.limbs[j] = p.xyz[i * n + j];
            j = j + 1;
        }
        proof {
            assert(r.limbs@.take(n as int) =~= p.xyz@.subrange((i * n) as int, (i * n + n) as int));
        }
        r
    }

    /// The X coordinate of `p`.
    pub fn point_x(&self, p: &Point) -> (r: Elem<Q, R>)
        requires
            1 <= self.num_limbs <= MAX_LIMBS,
        ensures
            r.val(self.nl()) == p.coord(0, self.nl()),
    {
        self.point_coord(p, 0)
    }

    /// The Y coordinate of `p`.
    pub fn point_y(&self, p: &Point) -> (r: Elem<Q, R>)
        requires
            1 <= self.num_limbs <= MAX_LIMBS,
        ensures
            r.val(self.nl()) == p.coord(1, self.nl()),
    {
        self.point_coord(p, 1)
    }

    /// The Z coordinate of `p`.
    pub fn point_z(&self, p: &Point) -> (r: Elem<Q, R>)
        requires
            1 <= self.num_limbs <= MAX_LIMBS,
        ensures
            r.val(self.nl()) == p.coord(2, self.nl()),
    {
        self.point_coord(p, 2)
    }

    /// The point with the given coordinates.
    pub fn point_from_coords(&self, x: &Elem<Q, R>, y: &Elem<Q, R>, z: &Elem<Q, R>) -> (r: Point)
        requires
            1 <= self.num_limbs <= MAX_LIMBS,
        ensures
            r.coords(self.nl()) == (x.val(self.nl()), y.val(self.nl()), z.val(self.nl())),
    {
        let n = self.num_limbs;
        let mut r = Point::new_at_infinity();
        let mut j: usize = 0;
        while j < n
            invariant
                n == self.num_limbs <= MAX_LIMBS,
                j <= n,
                forall|k: int| 0 <= k < j ==> r.xyz@[k] == x.limbs@[k],
                forall|k: int| 0 <= k < j ==> r.xyz@[n + k] == y.limbs@[k],
                forall|k: int| 0 <= k < j ==> r.xyz@[2 * n + k] == z.limbs@[k],
            decreases n - j,
        {
            r.xyz[j] = x.limbs[j];
            r.xyz[n + j] = y.limbs[j];
            r.xyz[2 * n + j] = z.limbs[j];
            j = j + 1;
        }
        proof {
            assert(r.xyz@.subrange(0, n as int) =~= x.limbs@.take(n as int));
            assert(r.xyz@.subrange(n as int, 2 * n) =~= y.limbs@.take(n as int));
            assert(r.xyz@.subrange(2 * n, 3 * n) =~= z.limbs@.take(n as int));
        }
        r
    }
}

/// A value encoded by one Montgomery multiplication with `R * R` decodes to
/// itself.
pub proof fn lemma_to_mont_decode(m: &Mont, n: nat, a: nat)
    requires
        m.wf(n),
    ensures
        m.decode(n, mont_product(a, limbs_val(m.rr@.take(n as int)), m.modulus(n), n)) == a % m.modulus(n),
{
    let q = m.modulus(n) as int;
    let v = mont_rinv(m.modulus(n), n);
    let w = base_pow(n) as int;
    let vi = v as int;
    let ai = a as int;
    let rr = limbs_val(m.rr@.take(n as int)) as int;
    let choice = choose|rinv: nat| is_mont_rinv(m.modulus(n), n, rinv);
    assert(is_mont_rinv(m.modulus(n), n, choice));
    assert(choice == v);
    assert((w * vi) % q == 1);
    assert(rr == (w * w) % q);
    let mp = (ai * rr * vi) % q;
    assert(mont_product(a, rr as nat, q as nat, n) == mp);
    // decode(mp) == a * rr * v * v
    lemma_mul_mod_noop_left(ai * rr * vi, vi, q);
    assert((mp * vi) % q == (ai * rr * vi * vi) % q);
    let x = ai * vi * vi;
    assert(ai * rr * vi * vi == x * rr) by (nonlinear_arith)
        requires
            x == ai * vi * vi,
    ;
    lemma_mul_mod_noop_right(x, w * w, q);
    assert((x * rr) % q == (x * (w * w)) % q);
    assert(x * (w * w) == ai * ((w * vi) * (w * vi))) by (nonlinear_arith)
        requires
            x == ai * vi * vi,
    ;
    lemma_mul_mod_noop(w * vi, w * vi, q);
    lemma_small_mod(1, q as nat);
    assert(((w * vi) * (w * vi)) % q == 1);
    lemma_mul_mod_noop_right(ai, (w * vi) * (w * vi), q);
    assert((ai * ((w * vi) * (w * vi))) % q == (ai * 1) % q);
}


/// Whether the first `n` limbs of `a` and `b` agree.
fn limbs_equal_prefix(a: &[Limb; MAX_LIMBS], b: &[Limb; MAX_LIMBS], n: usize) -> (r: bool)
    requires
        n <= MAX_LIMBS,
    ensures
        r == (limbs_val(a@.take(n as int)) == limbs_val(b@.take(n as int))),
{
    let mut i: usize = 0;
    while i < n
        invariant
            n <= MAX_LIMBS,
            i <= n,
            forall|j: int| 0 <= j < i ==> a@[j] == b@[j],
        decreases n - i,
    {
        if a[i] != b[i] {
            proof {
                crate::limb::lemma_limbs_val_inj(a@.take(n as int), b@.take(n as int));
                assert(a@.take(n as int)[i as int] != b@.take(n as int)[i as int]);
            }
            return false;
        }
        i = i + 1;
    }
    proof {
        assert(a@.take(n as int) =~= b@.take(n as int));
    }
    true
}

impl CommonOps {
    /// `R * R` modulo `q`.
    pub open spec fn rr_val(&self) -> nat {
        limbs_val(self.q.rr@.take(self.nl() as int))
    }

    /// One in Montgomery form.
    pub open spec fn one_r(&self) -> nat {
        self.fe_mul(1, self.rr_val())
    }

    /// The sum of the points `a` and `b`.
    pub fn point_sum(&self, a: &Point, b: &Point) -> (r: Point)
        requires
            self.wf(),
            self.point_reduced(a),
            self.point_reduced(b),
        ensures
            self.point_reduced(&r),
            r.coords(self.nl()) == add_spec(*self, a.coords(self.nl()), b.coords(self.nl())),
    {
        point_add(self, a, b)
    }

    /// One in Montgomery form.
    pub fn elem_one(&self) -> (r: Elem<Q, R>)
        requires
            self.wf(),
        ensures
            self.reduced(&r),
            r.val(self.nl()) == self.one_r(),
    {
        let o: Elem<Q, Unencoded> = one();
        let rr: Elem<Q, RR> = Elem::from_limbs(self.q.rr);
        proof {
            vstd::arithmetic::div_mod::lemma_mod_bound(
                (base_pow(self.nl()) * base_pow(self.nl())) as int,
                self.q_val() as int,
            );
        }
        self.elem_product(&o, &rr)
    }

    /// The Jacobian point `(x, y, 1)` for the affine point `(x, y)`.
    pub fn point_from_affine(&self, p: &(Elem<Q, R>, Elem<Q, R>)) -> (r: Point)
        requires
            self.wf(),
            self.reduced(&p.0),
            self.reduced(&p.1),
        ensures
            self.point_reduced(&r),
            r.coords(self.nl()) == (p.0.val(self.nl()), p.1.val(self.nl()), self.one_r()),
    {
        let z = self.elem_one();
        self.point_from_coords(&p.0, &p.1, &z)
    }
}

/// Operations on private keys, for key agreement and signing.
#[derive(Clone, Copy)]
pub struct PrivateKeyOps {
    pub common: CommonOps,
    /// The affine coordinates of the generator, in Montgomery form.
    pub generator: (Elem<Q, R>, Elem<Q, R>),
}

impl PrivateKeyOps {
    pub open spec fn wf(&self) -> bool {
        &&& self.common.wf()
        &&& self.common.is_known_curve()
        &&& self.common.reduced(&self.generator.0)
        &&& self.common.reduced(&self.generator.1)
    }

    /// The number of bits that scalar multiplication runs over.
    pub open spec fn nbits(&self) -> nat {
        self.common.nl() * 64
    }

    /// Multiplies the generator by `a`.
    pub fn point_mul_base(&self, a: &Scalar) -> (r: Point)
        requires
            self.wf(),
        ensures
            self.common.point_reduced(&r),
            r.coords(self.common.nl()) == mul_spec(
                self.common,
                a.limbs@,
                self.nbits(),
                self.nbits(),
                (
                    self.generator.0.val(self.common.nl()),
                    self.generator.1.val(self.common.nl()),
                    self.common.one_r(),
                ),
            ),
    {
        self.point_mul(a, &self.generator)
    }

    /// Multiplies the affine point `p` by `p_scalar`, in time that does not
    /// depend on the scalar.
    pub fn point_mul(&self, p_scalar: &Scalar, p: &(Elem<Q, R>, Elem<Q, R>)) -> (r: Point)
        requires
            self.wf(),
            self.common.reduced(&p.0),
            self.common.reduced(&p.1),
        ensures
            self.common.point_reduced(&r),
            r.coords(self.common.nl()) == mul_spec(
                self.common,
                p_scalar.limbs@,
                self.nbits(),
                self.nbits(),
                (p.0.val(self.common.nl()), p.1.val(self.common.nl()), self.common.one_r()),
            ),
    {
        let base = self.common.point_from_affine(p);
        point_mul_jacobian(&self.common, &p_scalar.limbs, &base)
    }

    /// Returns `a^-2` in the field, as `a^(q - 3)` by a fixed addition chain.
    pub fn elem_inverse_squared(&self, a: &Elem<Q, R>) -> (r: Elem<Q, R>)
        requires
            self.wf(),
            self.common.reduced(a),
        ensures
            self.common.reduced(&r),
            self.common.decode(r.val(self.common.nl())) as int == pow(
                self.common.decode(a.val(self.common.nl())) as int,
                (self.common.q_val() - 3) as nat,
            ) % (self.common.q_val() as int),
    {
        if self.common.num_limbs == 4 {
            p256_elem_inv_squared(&self.common, a)
        } else {
            p384_elem_inv_squared(&self.common, a)
        }
    }
}

/// Operations on public keys, for key agreement and verification.
#[derive(Clone, Copy)]
pub struct PublicKeyOps {
    pub common: CommonOps,
}

impl PublicKeyOps {
    /// Parses a field element of exactly `num_limbs * LIMB_BYTES` big-endian
    /// bytes, below `q`, into Montgomery form.
    pub fn elem_parse(&self, input: &[u8]) -> (r: Result<Elem<Q, R>, Unspecified>)
        requires
            self.common.wf(),
        ensures
            r.is_ok() == (input@.len() == LIMB_BYTES * self.common.num_limbs && be_val(input@)
                < self.common.q_val()),
            r.is_ok() ==> self.common.reduced(&r.unwrap()),
            r.is_ok() ==> r.unwrap().val(self.common.nl()) == self.common.fe_mul(
                be_val(input@),
                self.common.rr_val(),
            ),
            r.is_ok() ==> self.common.decode(r.unwrap().val(self.common.nl())) == be_val(input@),
    {
        let parsed = elem_parse_big_endian_fixed_consttime(&self.common, input)?;
        let rr: Elem<Q, RR> = Elem::from_limbs(self.common.q.rr);
        proof {
            vstd::arithmetic::div_mod::lemma_mod_bound(
                (base_pow(self.common.nl()) * base_pow(self.common.nl())) as int,
                self.common.q_val() as int,
            );
            lemma_to_mont_decode(&self.common.q, self.common.nl(), parsed.val(self.common.nl()));
            lemma_small_mod(parsed.val(self.common.nl()), self.common.q_val());
        }
        Ok(self.common.elem_product(&parsed, &rr))
    }
}

impl ScalarOps {
    /// Returns the inverse of `a` modulo `n` in Montgomery form, as
    /// `a^(n - 2)` by a fixed addition chain. `a` must not be zero.
    pub fn scalar_inv_to_mont(&self, a: &Scalar) -> (r: Scalar<R>)
        requires
            self.wf(),
            (self.common.num_limbs == 6 && self.n_val() == n_p384()) || (self.common.num_limbs == 4
                && self.n_val() == n_p256()),
            a.val(self.common.nl()) < self.n_val(),
            a.val(self.common.nl()) != 0,
        ensures
            r.val(self.common.nl()) < self.n_val(),
            self.decode(r.val(self.common.nl())) as int == pow(
                a.val(self.common.nl()) as int,
                (self.n_val() - 2) as nat,
            ) % (self.n_val() as int),
    {
        if self.common.num_limbs == 4 {
            p256_scalar_inv_to_mont(self, a)
        } else {
            p384_scalar_inv_to_mont(self, a)
        }
    }
}

/// Operations on public scalars needed by signature verification.
#[derive(Clone, Copy)]
pub struct PublicScalarOps {
    pub scalar_ops: ScalarOps,
    pub public_key_ops: PublicKeyOps,
    pub private_key_ops: PrivateKeyOps,
    /// `q - n`.
    pub q_minus_n: Elem<Q, Unencoded>,
}

impl PublicScalarOps {
    pub open spec fn wf(&self) -> bool {
        &&& self.scalar_ops.wf()
        &&& self.private_key_ops.wf()
        &&& self.public_key_ops.common == self.scalar_ops.common
        &&& self.private_key_ops.common == self.scalar_ops.common
    }

    /// The common table.
    pub open spec fn cops(&self) -> CommonOps {
        self.public_key_ops.common
    }

    /// The scalar `a` as a field element with the same limbs.
    pub fn scalar_as_elem(&self, a: &Scalar) -> (r: Elem<Q, Unencoded>)
        ensures
            r.limbs == a.limbs,
    {
        Elem::from_limbs(a.limbs)
    }

    /// Whether `a` and `b` have the same value.
    pub fn elem_equals(&self, a: &Elem<Q, Unencoded>, b: &Elem<Q, Unencoded>) -> (r: bool)
        requires
            self.cops().num_limbs <= MAX_LIMBS,
        ensures
            r == (a.val(self.cops().nl()) == b.val(self.cops().nl())),
    {
        limbs_equal_prefix(&a.limbs, &b.limbs, self.public_key_ops.common.num_limbs)
    }

    /// Whether `a < b`.
    pub fn elem_less_than(&self, a: &Elem<Q, Unencoded>, b: &Elem<Q, Unencoded>) -> (r: bool)
        requires
            self.cops().num_limbs <= MAX_LIMBS,
        ensures
            r == (a.val(self.cops().nl()) < b.val(self.cops().nl())),
    {
        let num_limbs = self.public_key_ops.common.num_limbs;
        let av = limbs_prefix(&a.limbs, num_limbs);
        let bv = limbs_prefix(&b.limbs, num_limbs);
        limbs_less_than_limbs_vartime(av.as_slice(), bv.as_slice())
    }

    /// `a + b` modulo `q`.
    pub fn elem_sum(&self, a: &Elem<Q, Unencoded>, b: &Elem<Q, Unencoded>) -> (r: Elem<Q, Unencoded>)
        requires
            self.cops().wf(),
            self.cops().reduced(a),
            self.cops().reduced(b),
        ensures
            self.cops().reduced(&r),
            r.val(self.cops().nl()) == (a.val(self.cops().nl()) + b.val(self.cops().nl()))
                % self.cops().q_val(),
    {
        let c = &self.public_key_ops.common;
        Elem::from_limbs(c.q.add(c.num_limbs, &a.limbs, &b.limbs))
    }
}

/// Values of `pow2` used by the addition chains.
pub proof fn lemma_pow2_values()
    ensures
        pow2(128) == 0x100000000000000000000000000000000,
        pow2(94) == 0x400000000000000000000000,
        pow2(120) == 0x1000000000000000000000000000000,
        pow2(96) == 0x1000000000000000000000000,
{
    lemma2_to64();
    lemma2_to64_rest();
    lemma_pow2_adds(64, 64);
    assert(pow2(64) * pow2(64) == 0x100000000000000000000000000000000) by (nonlinear_arith)
        requires
            pow2(64) == 0x10000000000000000,
    ;
    lemma_pow2_adds(64, 30);
    lemma_pow2_adds(60, 60);
    lemma_pow2_adds(64, 32);
    assert(pow2(64) * pow2(32) == 0x1000000000000000000000000) by (nonlinear_arith)
        requires
            pow2(64) == 0x10000000000000000,
            pow2(32) == 0x100000000,
    ;
    assert(pow2(64) * pow2(30) == 0x400000000000000000000000) by (nonlinear_arith)
        requires
            pow2(64) == 0x10000000000000000,
            pow2(30) == 0x40000000,
    ;
    assert(pow2(60) * pow2(60) == 0x1000000000000000000000000000000) by (nonlinear_arith)
        requires
            pow2(60) == 0x1000000000000000,
    ;
}

/// Returns (`a` squared `squarings` times) times `b`, modulo `n`.
pub fn scalar_sqr_mul(ops: &ScalarOps, a: &Scalar<R>, squarings: usize, b: &Scalar<R>) -> (r: Scalar<R>)
    requires
        ops.wf(),
        a.val(ops.common.nl()) < ops.n_val(),
        b.val(ops.common.nl()) < ops.n_val(),
        squarings >= 1,
    ensures
        r.val(ops.common.nl()) < ops.n_val(),
        ops.decode(r.val(ops.common.nl())) as int == (pow(
            ops.decode(a.val(ops.common.nl())) as int,
            pow2(squarings as nat),
        ) * ops.decode(b.val(ops.common.nl())) as int) % (ops.n_val() as int),
{
    let ghost nl = ops.common.nl();
    let ghost x = ops.decode(a.val(nl)) as int;
    let ghost q = ops.n_val() as int;
    let mut tmp = ops.scalar_product(a, a);
    proof {
        lemma_mont_decode_mul(&ops.n_mont, nl, a.val(nl), a.val(nl));
        lemma_pow1(x);
        lemma_small_mod(x as nat, q as nat);
        lemma_pow_mod_mul(x, 1, 1, q);
        lemma2_to64();
    }
    let mut i: usize = 1;
    while i < squarings
        invariant
            ops.wf(),
            nl == ops.common.nl(),
            tmp.val(nl) < ops.n_val(),
            x == ops.decode(a.val(nl)),
            q == ops.n_val(),
            1 <= i <= squarings,
            ops.decode(tmp.val(nl)) as int == pow(x, pow2(i as nat)) % q,
        decreases squarings - i,
    {
        let t0 = tmp;
        tmp = ops.scalar_product(&t0, &t0);
        proof {
            lemma_mont_decode_mul(&ops.n_mont, nl, t0.val(nl), t0.val(nl));
            lemma_pow_mod_mul(x, pow2(i as nat), pow2(i as nat), q);
            lemma_pow2_unfold((i + 1) as nat);
        }
        i = i + 1;
    }
    let r = ops.scalar_product(&tmp, b);
    proof {
        lemma_mont_decode_mul(&ops.n_mont, nl, tmp.val(nl), b.val(nl));
        lemma_mul_mod_noop_left(
            pow(x, pow2(squarings as nat)),
            ops.decode(b.val(nl)) as int,
            q,
        );
    }
    r
}

/// Sets `acc` to (`acc` squared `squarings` times) times `b`, modulo `n`.
pub fn scalar_sqr_mul_acc(ops: &ScalarOps, acc: &mut Scalar<R>, squarings: usize, b: &Scalar<R>)
    requires
        ops.wf(),
        old(acc).val(ops.common.nl()) < ops.n_val(),
        b.val(ops.common.nl()) < ops.n_val(),
        squarings >= 1,
    ensures
        final(acc).val(ops.common.nl()) < ops.n_val(),
        ops.decode(final(acc).val(ops.common.nl())) as int == (pow(
            ops.decode(old(acc).val(ops.common.nl())) as int,
            pow2(squarings as nat),
        ) * ops.decode(b.val(ops.common.nl())) as int) % (ops.n_val() as int),
{
    let r = scalar_sqr_mul(ops, acc, squarings, b);
    *acc = r;
}

} // verus!
