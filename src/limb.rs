//! Unsigned multi-precision integers as little-endian arrays of limbs.

use vstd::prelude::*;
use crate::error::Unspecified;

verus! {

/// One machine word of a multi-precision integer.
pub type Limb = u64;

pub const LIMB_BITS: usize = 64;

pub const LIMB_BYTES: usize = 8;

/// The weight of one limb position.
pub open spec fn limb_base() -> nat {
    0x1_0000_0000_0000_0000
}

/// `limb_base()` raised to the power `i`.
pub open spec fn base_pow(i: nat) -> nat
    decreases i,
{
    if i == 0 {
        1
    } else {
        limb_base() * base_pow((i - 1) as nat)
    }
}

/// The value of limbs stored least significant first.
pub open spec fn limbs_val(s: Seq<Limb>) -> nat
    decreases s.len(),
{
    if s.len() == 0 {
        0
    } else {
        limbs_val(s.drop_last()) + s.last() as nat * base_pow((s.len() - 1) as nat)
    }
}

/// A constant-time boolean: all bits set, or all bits clear.
#[derive(Debug, PartialEq, Eq, Structural)]
pub enum LimbMask {
    True,
    False,
}

/// Whether a parsed value may be zero.
#[derive(Clone, Copy, Debug, PartialEq, Eq, Structural)]
pub enum AllowZero {
    No,
    Yes,
}

pub proof fn lemma_base_pow_pos(i: nat)
    ensures
        base_pow(i) > 0,
    decreases i,
{
    if i > 0 {
        lemma_base_pow_pos((i - 1) as nat);
        assert(limb_base() * base_pow((i - 1) as nat) > 0) by (nonlinear_arith)
            requires
                base_pow((i - 1) as nat) > 0,
        ;
    }
}

/// A value of `s.len()` limbs is below `base_pow(s.len())`.
pub proof fn lemma_limbs_val_bound(s: Seq<Limb>)
    ensures
        limbs_val(s) < base_pow(s.len()),
    decreases s.len(),
{
    if s.len() > 0 {
        let p = s.drop_last();
        lemma_limbs_val_bound(p);
        let b = base_pow(p.len());
        assert(limbs_val(p) + s.last() as nat * b < limb_base() * b) by (nonlinear_arith)
            requires
                limbs_val(p) < b,
                s.last() < limb_base(),
        ;
    }
}

/// The value of the first `i + 1` limbs extends that of the first `i`.
pub proof fn lemma_limbs_val_take(s: Seq<Limb>, i: int)
    requires
        0 <= i < s.len(),
    ensures
        limbs_val(s.take(i + 1)) == limbs_val(s.take(i)) + s[i] as nat * base_pow(i as nat),
{
    assert(s.take(i + 1).drop_last() =~= s.take(i));
}

pub proof fn lemma_limbs_val_zero(s: Seq<Limb>)
    ensures
        (limbs_val(s) == 0) == (forall|j: int| 0 <= j < s.len() ==> s[j] == 0),
    decreases s.len(),
{
    if s.len() > 0 {
        let p = s.drop_last();
        lemma_limbs_val_zero(p);
        lemma_base_pow_pos(p.len());
        if s.last() != 0 {
            assert(s.last() as nat * base_pow(p.len()) > 0) by (nonlinear_arith)
                requires
                    s.last() as nat > 0,
                    base_pow(p.len()) > 0,
            ;
        }
        if limbs_val(s) == 0 {
            assert forall|j: int| 0 <= j < s.len() implies s[j] == 0 by {
                if j < p.len() {
                    assert(p[j] == s[j]);
                }
            }
        } else {
            if s.last() == 0 {
                assert(limbs_val(p) != 0);
                let j = choose|j: int| 0 <= j < p.len() && p[j] != 0;
                assert(s[j] == p[j]);
            }
        }
    }
}

/// Comparing the first `i + 1` limbs: the top limb decides, and on a tie the
/// lower limbs do.
proof fn lemma_less_than_step(a: Seq<Limb>, b: Seq<Limb>, i: int)
    requires
        0 <= i < a.len(),
        a.len() == b.len(),
    ensures
        (limbs_val(a.take(i + 1)) < limbs_val(b.take(i + 1))) == (a[i] < b[i] || (a[i] == b[i]
            && limbs_val(a.take(i)) < limbs_val(b.take(i)))),
{
    lemma_limbs_val_take(a, i);
    lemma_limbs_val_take(b, i);
    lemma_limbs_val_bound(a.take(i));
    lemma_limbs_val_bound(b.take(i));
    let w = base_pow(i as nat);
    let x = limbs_val(a.take(i));
    let y = limbs_val(b.take(i));
    let ai = a[i] as nat;
    let bi = b[i] as nat;
    if ai < bi {
        assert(x + ai * w < y + bi * w) by (nonlinear_arith)
            requires
                x < w,
                ai + 1 <= bi,
        ;
    } else if ai > bi {
        assert(y + bi * w < x + ai * w) by (nonlinear_arith)
            requires
                y < w,
                bi + 1 <= ai,
        ;
    }
}

/// One step of a subtraction with borrow: `x - y - borrow`, as a limb and
/// the borrow out.
pub fn sub_borrow(x: Limb, y: Limb, borrow: Limb) -> (r: (Limb, Limb))
    requires
        borrow <= 1,
    ensures
        r.1 <= 1,
        r.0 as int - r.1 as int * limb_base() == x as int - y as int - borrow as int,
{
    let t: u128 = (x as u128 + 0x1_0000_0000_0000_0000u128) - y as u128 - borrow as u128;
    let hi: u128 = t / 0x1_0000_0000_0000_0000u128;
    let lo: u128 = t % 0x1_0000_0000_0000_0000u128;
    ((lo as u64), (1 - hi) as u64)
}

/// One step of an addition with carry: `x + y + carry`, as a limb and the
/// carry out.
pub fn add_carry(x: Limb, y: Limb, carry: Limb) -> (r: (Limb, Limb))
    requires
        carry <= 1,
    ensures
        r.1 <= 1,
        r.0 as int + r.1 as int * limb_base() == x as int + y as int + carry as int,
{
    let t: u128 = x as u128 + y as u128 + carry as u128;
    let hi: u128 = t / 0x1_0000_0000_0000_0000u128;
    let lo: u128 = t % 0x1_0000_0000_0000_0000u128;
    ((lo as u64), hi as u64)
}

/// Returns `LimbMask::True` exactly when `a < b`. The limbs are combined by
/// arithmetic alone, without a branch on their values.
pub fn limbs_less_than_limbs_consttime(a: &[Limb], b: &[Limb]) -> (r: LimbMask)
    requires
        a@.len() == b@.len(),
    ensures
        (r == LimbMask::True) == (limbs_val(a@) < limbs_val(b@)),
{
    let n = b.len();
    let mut borrow: Limb = 0;
    let mut i: usize = 0;
    while i < n
        invariant
            n == a@.len() == b@.len(),
            i <= n,
            borrow <= 1,
            (borrow == 1) == (limbs_val(a@.take(i as int)) < limbs_val(b@.take(i as int))),
        decreases n - i,
    {
        let (_d, br) = sub_borrow(a[i], b[i], borrow);
        proof {
            lemma_less_than_step(a@, b@, i as int);
        }
        borrow = br;
        i = i + 1;
    }
    proof {
        assert(a@.take(n as int) =~= a@);
        assert(b@.take(n as int) =~= b@);
    }
    if borrow == 1 {
        LimbMask::True
    } else {
        LimbMask::False
    }
}

/// Returns whether `a < b`.
pub fn limbs_less_than_limbs_vartime(a: &[Limb], b: &[Limb]) -> (r: bool)
    requires
        a@.len() == b@.len(),
    ensures
        r == (limbs_val(a@) < limbs_val(b@)),
{
    limbs_less_than_limbs_consttime(a, b) == LimbMask::True
}

/// Returns `LimbMask::True` exactly when the value of `limbs` is zero.
pub fn limbs_are_zero_constant_time(limbs: &[Limb]) -> (r: LimbMask)
    ensures
        (r == LimbMask::True) == (limbs_val(limbs@) == 0),
{
    let n = limbs.len();
    let mut acc: Limb = 0;
    let mut i: usize = 0;
    while i < n
        invariant
            n == limbs@.len(),
            i <= n,
            (acc == 0) == (forall|j: int| 0 <= j < i ==> limbs@[j] == 0),
        decreases n - i,
    {
        let x = limbs[i];
        let old_acc = acc;
        acc = acc | x;
        proof {
            assert((old_acc | x) == 0 <==> (old_acc == 0 && x == 0)) by (bit_vector);
            if acc == 0 {
                assert forall|j: int| 0 <= j < i + 1 implies limbs@[j] == 0 by {}
            }
        }
        i = i + 1;
    }
    proof {
        lemma_limbs_val_zero(limbs@);
    }
    if acc == 0 {
        LimbMask::True
    } else {
        LimbMask::False
    }
}

pub proof fn lemma_limbs_val_push(s: Seq<Limb>, x: Limb)
    ensures
        limbs_val(s.push(x)) == limbs_val(s) + x as nat * base_pow(s.len()),
{
    assert(s.push(x).drop_last() =~= s);
}

/// Picks `if mask == 0 { x } else { y }` for a mask of all bits clear or
/// all bits set, without a branch.
pub fn select_limb(mask: Limb, x: Limb, y: Limb) -> (r: Limb)
    requires
        mask == 0 || mask == 0xffff_ffff_ffff_ffff,
    ensures
        r == (if mask == 0 {
            x
        } else {
            y
        }),
{
    let r = (x & !mask) | (y & mask);
    proof {
        assert(mask == 0 ==> (x & !mask) | (y & mask) == x) by (bit_vector);
        assert(mask == 0xffff_ffff_ffff_ffff ==> (x & !mask) | (y & mask) == y) by (bit_vector);
    }
    r
}

/// Subtracts `b` from `a` limb by limb. Returns the difference modulo
/// `base_pow(n)` and the borrow out of the top limb.
pub fn limbs_sub(a: &[Limb], b: &[Limb]) -> (r: (Vec<Limb>, Limb))
    requires
        a@.len() == b@.len(),
    ensures
        r.0@.len() == a@.len(),
        r.1 <= 1,
        limbs_val(r.0@) as int - r.1 as int * base_pow(a@.len()) == limbs_val(a@) as int
            - limbs_val(b@) as int,
{
    let n = a.len();
    let mut d: Vec<Limb> = Vec::new();
    let mut borrow: Limb = 0;
    let mut i: usize = 0;
    while i < n
        invariant
            n == a@.len() == b@.len(),
            i <= n,
            d@.len() == i,
            borrow <= 1,
            limbs_val(d@) as int - borrow as int * base_pow(i as nat) == limbs_val(
                a@.take(i as int),
            ) as int - limbs_val(b@.take(i as int)) as int,
        decreases n - i,
    {
        let (x, br) = sub_borrow(a[i], b[i], borrow);
        proof {
            lemma_limbs_val_push(d@, x);
            lemma_limbs_val_take(a@, i as int);
            lemma_limbs_val_take(b@, i as int);
            let w = base_pow(i as nat);
            assert(base_pow((i + 1) as nat) == limb_base() * w);
            assert((x as int - br as int * limb_base()) * w == x as int * w - br as int * (
            limb_base() * w)) by (nonlinear_arith);
            assert((x as int - br as int * limb_base()) * w == (a[i as int] as int - b[i as int] as int
                - borrow as int) * w);
            assert((a[i as int] as int - b[i as int] as int - borrow as int) * w == a[i as int] as int
                * w - b[i as int] as int * w - borrow as int * w) by (nonlinear_arith);
        }
        d.push(x);
        borrow = br;
        i = i + 1;
    }
    proof {
        assert(a@.take(n as int) =~= a@);
        assert(b@.take(n as int) =~= b@);
    }
    (d, borrow)
}

/// Subtracts `m` from `r` in place when `r >= m`; the choice is made with a
/// mask rather than a branch.
pub fn limbs_reduce_once_constant_time(r: &mut [Limb], m: &[Limb])
    requires
        old(r)@.len() == m@.len(),
    ensures
        final(r)@.len() == old(r)@.len(),
        limbs_val(final(r)@) == if limbs_val(old(r)@) >= limbs_val(m@) {
            limbs_val(old(r)@) - limbs_val(m@)
        } else {
            limbs_val(old(r)@) as int
        },
{
    let n = m.len();
    let ghost r0 = r@;
    let (d, borrow) = limbs_sub(r, m);
    proof {
        lemma_limbs_val_bound(d@);
    }
    let ghost below = limbs_val(r0) < limbs_val(m@);
    assert(borrow == 0 ==> !below && limbs_val(d@) == limbs_val(r0) - limbs_val(m@));
    assert(borrow == 1 ==> below);
    let mask: Limb = 0u64.wrapping_sub(borrow);
    let mut i: usize = 0;
    while i < n
        invariant
            n == m@.len() == r0.len() == d@.len() == r@.len(),
            i <= n,
            mask == 0 || mask == 0xffff_ffff_ffff_ffff,
            mask == 0 ==> !below && limbs_val(d@) == limbs_val(r0) - limbs_val(m@),
            mask != 0 ==> below,
            below == (limbs_val(r0) < limbs_val(m@)),
            forall|j: int| 0 <= j < i ==> r@[j] == (if mask == 0 { d@[j] } else { r0[j] }),
            forall|j: int| i <= j < n ==> r@[j] == r0[j],
        decreases n - i,
    {
        let x = select_limb(mask, d[i], r[i]);
        r[i] = x;
        i = i + 1;
    }
    proof {
        if mask == 0 {
            assert(r@ =~= d@);
        } else {
            assert(r@ =~= r0);
        }
    }
}

/// `256` raised to the power `k`.
pub open spec fn pow256(k: nat) -> nat
    decreases k,
{
    if k == 0 {
        1
    } else {
        256 * pow256((k - 1) as nat)
    }
}

/// The value of bytes read as a big-endian number.
pub open spec fn be_val(b: Seq<u8>) -> nat
    decreases b.len(),
{
    if b.len() == 0 {
        0
    } else {
        be_val(b.drop_last()) * 256 + b.last() as nat
    }
}

pub proof fn lemma_pow256_limb()
    ensures
        pow256(8) == limb_base(),
{
    reveal_with_fuel(pow256, 9);
}

pub proof fn lemma_pow256_pos(k: nat)
    ensures
        pow256(k) > 0,
    decreases k,
{
    if k > 0 {
        lemma_pow256_pos((k - 1) as nat);
    }
}

/// The value of `a + b` read big-endian.
pub proof fn lemma_be_val_concat(a: Seq<u8>, b: Seq<u8>)
    ensures
        be_val(a + b) == be_val(a) * pow256(b.len()) + be_val(b),
    decreases b.len(),
{
    if b.len() == 0 {
        assert(a + b =~= a);
        assert(pow256(0) == 1);
        assert(be_val(b) == 0);
    } else {
        let b0 = b.drop_last();
        lemma_be_val_concat(a, b0);
        let ab = a + b;
        assert(ab.drop_last() =~= a + b0);
        assert(ab.last() == b.last());
        assert(be_val(ab) == be_val(ab.drop_last()) * 256 + ab.last() as nat);
        assert(be_val(b) == be_val(b0) * 256 + b.last() as nat);
        assert(pow256(b.len()) == 256 * pow256(b0.len()));
        let x = be_val(a);
        let p = pow256(b0.len());
        assert((x * p + be_val(b0)) * 256 + b.last() as nat == x * (256 * p) + (be_val(b0) * 256
            + b.last() as nat)) by (nonlinear_arith);
    }
}

/// A limb put below other limbs.
pub proof fn lemma_limbs_val_prepend(l: Limb, s: Seq<Limb>)
    ensures
        limbs_val(seq![l] + s) == l as nat + limb_base() * limbs_val(s),
    decreases s.len(),
{
    let ls = seq![l] + s;
    if s.len() == 0 {
        assert(ls.drop_last() =~= Seq::<Limb>::empty());
        assert(ls.last() == l);
        assert(limbs_val(Seq::<Limb>::empty()) == 0);
        assert(base_pow(0) == 1);
        assert(limbs_val(ls) == limbs_val(ls.drop_last()) + ls.last() as nat * base_pow(0));
    } else {
        let s0 = s.drop_last();
        lemma_limbs_val_prepend(l, s0);
        assert(ls.drop_last() =~= seq![l] + s0);
        assert(ls.last() == s.last());
        let w = base_pow((s.len() - 1) as nat);
        assert(base_pow(s.len() as nat) == limb_base() * w);
        assert(limbs_val(ls) == limbs_val(ls.drop_last()) + ls.last() as nat * base_pow(s.len() as nat));
        assert(limbs_val(s) == limbs_val(s0) + s.last() as nat * w);
        assert(limb_base() * (limbs_val(s0) + s.last() as nat * w) == limb_base() * limbs_val(s0)
            + s.last() as nat * (limb_base() * w)) by (nonlinear_arith);
    }
}

/// Zero limbs above the first `k` add nothing.
pub proof fn lemma_limbs_val_high_zero(s: Seq<Limb>, k: int)
    requires
        0 <= k <= s.len(),
        forall|j: int| k <= j < s.len() ==> s[j] == 0,
    ensures
        limbs_val(s) == limbs_val(s.take(k)),
    decreases s.len(),
{
    if s.len() > k {
        let p = s.drop_last();
        assert(p.take(k) =~= s.take(k));
        lemma_limbs_val_high_zero(p, k);
    } else {
        assert(s.take(k) =~= s);
    }
}

/// Reads `input` as a big-endian number into `result`, with zero limbs
/// above it. Fails when `input` is empty or needs more limbs than `result`
/// has; `result` is then left as it was. The time taken depends on the
/// lengths only.
#[verifier::spinoff_prover]
pub fn parse_big_endian_and_pad_consttime(input: &[u8], result: &mut [Limb]) -> (r: Result<
    (),
    Unspecified,
>)
    ensures
        final(result)@.len() == old(result)@.len(),
        r.is_ok() == (0 < input@.len() <= LIMB_BYTES * old(result)@.len()),
        r.is_ok() ==> limbs_val(final(result)@) == be_val(input@),
        r.is_err() ==> final(result)@ == old(result)@,
{
    let len = input.len();
    if len == 0 {
        return Err(Unspecified);
    }
    let mut bytes_in_current_limb = len % LIMB_BYTES;
    if bytes_in_current_limb == 0 {
        bytes_in_current_limb = LIMB_BYTES;
    }
    let num_encoded_limbs = (len / LIMB_BYTES) + (if bytes_in_current_limb == LIMB_BYTES {
        0
    } else {
        1
    });
    if num_encoded_limbs > result.len() {
        return Err(Unspecified);
    }
    let rl = result.len();
    let ghost first = bytes_in_current_limb;
    let ghost ne = num_encoded_limbs as int;
    assert(len == first + 8 * (ne - 1));
    let mut k: usize = 0;
    while k < rl
        invariant
            rl == result@.len(),
            k <= rl,
            forall|j: int| 0 <= j < k ==> result@[j] == 0,
        decreases rl - k,
    {
        result[k] = 0;
        k = k + 1;
    }
    let mut pos: usize = 0;
    let mut i: usize = 0;
    while i < num_encoded_limbs
        invariant
            len == input@.len(),
            rl == result@.len(),
            ne == num_encoded_limbs,
            num_encoded_limbs <= rl,
            1 <= first <= 8,
            len == first + 8 * (ne - 1),
            i <= num_encoded_limbs,
            bytes_in_current_limb == (if i == 0 { first } else { 8 }),
            pos == (if i == 0 { 0 } else { first + 8 * (i - 1) }),
            be_val(input@.take(pos as int)) == limbs_val(result@.subrange(ne - i, ne)),
            forall|j: int| 0 <= j < ne - i ==> result@[j] == 0,
            forall|j: int| ne <= j < rl ==> result@[j] == 0,
        decreases num_encoded_limbs - i,
    {
        let start = pos;
        let mut limb: Limb = 0;
        let mut t: usize = 0;
        while t < bytes_in_current_limb
            invariant
                len == input@.len(),
                1 <= bytes_in_current_limb <= 8,
                start + bytes_in_current_limb <= len,
                rl == result@.len(),
                ne == num_encoded_limbs,
                i < num_encoded_limbs <= rl,
                bytes_in_current_limb == (if i == 0 { first } else { 8 }),
                start == (if i == 0 { 0 } else { first + 8 * (i - 1) }),
                be_val(input@.take(start as int)) == limbs_val(result@.subrange(ne - i, ne)),
                forall|j: int| 0 <= j < ne - i ==> result@[j] == 0,
                forall|j: int| ne <= j < rl ==> result@[j] == 0,
                t <= bytes_in_current_limb,
                pos == start + t,
                limb as nat == be_val(input@.subrange(start as int, pos as int)),
                limb < pow256(t as nat),
            decreases bytes_in_current_limb - t,
        {
            let b: u64 = input[pos] as u64;
            let old_limb = limb;
            proof {
                assert(input@.subrange(start as int, pos + 1).drop_last() =~= input@.subrange(
                    start as int,
                    pos as int,
                ));
                lemma_pow256_limb();
                if t < 7 {
                    assert(pow256(t as nat) <= pow256(7)) by {
                        reveal_with_fuel(pow256, 8);
                        lemma_pow256_mono(t as nat, 7);
                    }
                    reveal_with_fuel(pow256, 8);
                }
                assert(old_limb < 0x100_0000_0000_0000);
                assert(b < 256);
                assert(old_limb < 0x100_0000_0000_0000 && b < 256 ==> (old_limb << 8u64) | b
                    == old_limb * 256 + b) by (bit_vector);
            }
            limb = (limb << 8u64) | b;
            pos = pos + 1;
            t = t + 1;
        }
        let idx = num_encoded_limbs - i - 1;
        let ghost before = result@;
        result[idx] = limb;
        proof {
            let top = before.subrange(ne - i, ne);
            let k = bytes_in_current_limb as nat;
            assert(input@.take(pos as int) =~= input@.take(start as int) + input@.subrange(
                start as int,
                pos as int,
            ));
            lemma_be_val_concat(input@.take(start as int), input@.subrange(start as int, pos as int));
            assert(be_val(input@.take(pos as int)) == be_val(input@.take(start as int)) * pow256(k)
                + limb as nat);
            lemma_limbs_val_prepend(limb, top);
            assert(result@.subrange(ne - i - 1, ne) =~= seq![limb] + top);
            if i == 0 {
                assert(top.len() == 0);
                assert(limbs_val(top) == 0);
                assert(input@.take(0).len() == 0);
                assert(be_val(input@.take(start as int)) == 0);
            } else {
                lemma_pow256_limb();
                assert(k == 8);
                assert(be_val(input@.take(start as int)) == limbs_val(top));
                assert(pow256(k) == limb_base());
                assert(limbs_val(top) * pow256(k) == limb_base() * limbs_val(top)) by (nonlinear_arith)
                    requires
                        pow256(k) == limb_base(),
                ;
            }
            assert(be_val(input@.take(pos as int)) == limbs_val(result@.subrange(ne - i - 1, ne)));
        }
        bytes_in_current_limb = LIMB_BYTES;
        i = i + 1;
    }
    proof {
        assert(pos == len);
        assert(input@.take(len as int) =~= input@);
        assert(result@.subrange(0, ne) =~= result@.take(ne));
        lemma_limbs_val_high_zero(result@, ne);
    }
    Ok(())
}

pub proof fn lemma_pow256_mono(a: nat, b: nat)
    requires
        a <= b,
    ensures
        pow256(a) <= pow256(b),
    decreases b - a,
{
    if a < b {
        lemma_pow256_mono(a, (b - 1) as nat);
        lemma_pow256_pos((b - 1) as nat);
    }
}

/// Parses `input` into `result`, checks that the value is below
/// `max_exclusive` and, unless `allow_zero` is `AllowZero::Yes`, that it is
/// not zero. `result` is padded with zero limbs.
pub fn parse_big_endian_in_range_and_pad_consttime(
    input: &[u8],
    allow_zero: AllowZero,
    max_exclusive: &[Limb],
    result: &mut [Limb],
) -> (r: Result<(), Unspecified>)
    requires
        old(result)@.len() == max_exclusive@.len(),
    ensures
        final(result)@.len() == old(result)@.len(),
        r.is_ok() == (0 < input@.len() <= LIMB_BYTES * old(result)@.len() && be_val(input@)
            < limbs_val(max_exclusive@) && (allow_zero == AllowZero::Yes || be_val(input@) != 0)),
        r.is_ok() ==> limbs_val(final(result)@) == be_val(input@),
{
    parse_big_endian_and_pad_consttime(input, result)?;
    if limbs_less_than_limbs_consttime(result, max_exclusive) != LimbMask::True {
        return Err(Unspecified);
    }
    if allow_zero != AllowZero::Yes {
        if limbs_are_zero_constant_time(result) != LimbMask::False {
            return Err(Unspecified);
        }
    }
    Ok(())
}

/// The value `v` reduced by at most one subtraction of `m`.
pub open spec fn reduced_once(v: nat, m: nat) -> nat {
    if v >= m {
        (v - m) as nat
    } else {
        v
    }
}

/// Parses `input` into `result` and subtracts `m` once if the value is at
/// least `m`. Unless `allow_zero` is `AllowZero::Yes`, a result of zero is
/// rejected. For inputs below `2 * m` the result is the value modulo `m`.
pub fn parse_big_endian_in_range_partially_reduced_and_pad_consttime(
    input: &[u8],
    allow_zero: AllowZero,
    m: &[Limb],
    result: &mut [Limb],
) -> (r: Result<(), Unspecified>)
    requires
        old(result)@.len() == m@.len(),
    ensures
        final(result)@.len() == old(result)@.len(),
        r.is_ok() == (0 < input@.len() <= LIMB_BYTES * old(result)@.len() && (allow_zero
            == AllowZero::Yes || reduced_once(be_val(input@), limbs_val(m@)) != 0)),
        r.is_ok() ==> limbs_val(final(result)@) == reduced_once(be_val(input@), limbs_val(m@)),
{
    parse_big_endian_and_pad_consttime(input, result)?;
    limbs_reduce_once_constant_time(result, m);
    if allow_zero != AllowZero::Yes {
        if limbs_are_zero_constant_time(result) != LimbMask::False {
            return Err(Unspecified);
        }
    }
    Ok(())
}

pub proof fn lemma_pow256_adds(a: nat, b: nat)
    ensures
        pow256(a + b) == pow256(a) * pow256(b),
    decreases b,
{
    if b == 0 {
        assert(a + b == a);
        assert(pow256(b) == 1);
    } else {
        let b1 = (b - 1) as nat;
        lemma_pow256_adds(a, b1);
        let c = (a + b) as nat;
        assert((c - 1) as nat == a + b1);
        assert(pow256(c) == 256 * pow256((c - 1) as nat));
        assert(pow256(b) == 256 * pow256(b1));
        let x = pow256(a);
        let y = pow256(b1);
        assert(256 * (x * y) == x * (256 * y)) by (nonlinear_arith);
    }
}

/// Eight bytes per limb.
pub proof fn lemma_pow256_base_pow(i: nat)
    ensures
        pow256(8 * i) == base_pow(i),
    decreases i,
{
    if i > 0 {
        let i1 = (i - 1) as nat;
        lemma_pow256_base_pow(i1);
        lemma_pow256_adds(8 * i1, 8);
        lemma_pow256_limb();
        assert(8 * i == 8 * i1 + 8);
        assert(base_pow(i) == limb_base() * base_pow(i1));
        let x = pow256(8 * i1);
        assert(x * pow256(8) == limb_base() * x) by (nonlinear_arith)
            requires
                pow256(8) == limb_base(),
        ;
    }
}

pub proof fn lemma_be_val_zeros(b: Seq<u8>)
    requires
        forall|j: int| 0 <= j < b.len() ==> b[j] == 0,
    ensures
        be_val(b) == 0,
    decreases b.len(),
{
    if b.len() > 0 {
        lemma_be_val_zeros(b.drop_last());
    }
}

pub proof fn lemma_be_val_bound(b: Seq<u8>)
    ensures
        be_val(b) < pow256(b.len()),
    decreases b.len(),
{
    if b.len() > 0 {
        let p = b.drop_last();
        lemma_be_val_bound(p);
        assert(be_val(p) * 256 + (b.last() as nat) < 256 * pow256(p.len())) by (nonlinear_arith)
            requires
                be_val(p) < pow256(p.len()),
                b.last() < 256,
        ;
    }
}

/// Writes the value of `limbs` into `out` as a big-endian number of
/// `out.len()` bytes, with zero bytes in front.
#[verifier::spinoff_prover]
#[verifier::rlimit(30)]
pub fn big_endian_from_limbs_padded(limbs: &[Limb], out: &mut [u8])
    requires
        LIMB_BYTES * limbs@.len() <= old(out)@.len(),
    ensures
        final(out)@.len() == old(out)@.len(),
        be_val(final(out)@) == limbs_val(limbs@),
{
    let num_limbs = limbs.len();
    let out_len = out.len();
    let off = out_len - num_limbs * LIMB_BYTES;
    let ghost e = out_len as int;
    let mut i: usize = 0;
    while i < num_limbs
        invariant
            num_limbs == limbs@.len(),
            out_len == out@.len(),
            off + num_limbs * 8 == out_len,
            e == out_len,
            i <= num_limbs,
            be_val(out@.subrange(off + (num_limbs - i) * 8, e)) == limbs_val(limbs@.take(i as int)),
        decreases num_limbs - i,
    {
        let p: usize = off + (num_limbs - i - 1) * LIMB_BYTES;
        let ghost snap = out@;
        let ghost orig = limbs[i as int];
        let mut limb = limbs[i];
        let mut j: usize = 0;
        proof {
            assert(out@.subrange(p + 8, p + 8).len() == 0);
            assert(be_val(out@.subrange(p + 8, p + 8)) == 0);
            assert(pow256(0) == 1);
        }
        while j < LIMB_BYTES
            invariant
                out_len == out@.len(),
                p + 8 <= out_len,
                snap.len() == out_len,
                j <= 8,
                forall|k: int| 0 <= k < out_len && !(p + 8 - j <= k < p + 8) ==> out@[k] == snap[k],
                orig == limb as nat * pow256(j as nat) + be_val(out@.subrange(p + 8 - j, p + 8)),
            decreases 8 - j,
        {
            let x = limb;
            let byte: u8 = (x & 0xff) as u8;
            proof {
                assert(x & 0xff == x % 256) by (bit_vector);
                assert(x >> 8u64 == x / 256) by (bit_vector);
                let rest = out@.subrange(p + 8 - j, p + 8);
                let q = x as nat / 256;
                let r = x as nat % 256;
                lemma_be_val_concat(seq![byte], rest);
                assert(seq![byte].drop_last() =~= Seq::<u8>::empty());
                assert(be_val(Seq::<u8>::empty()) == 0);
                assert(seq![byte].last() == byte);
                assert(be_val(seq![byte]) == be_val(seq![byte].drop_last()) * 256 + byte as nat);
                assert(byte as nat == r);
                assert(x as nat * pow256(j as nat) == q * (256 * pow256(j as nat)) + r * pow256(
                    j as nat,
                )) by (nonlinear_arith)
                    requires
                        x as nat == 256 * q + r,
                ;
            }
            let ghost pre = out@;
            out[p + 8 - j - 1] = byte;
            proof {
                assert(out@.subrange(p + 8 - j - 1, p + 8) =~= seq![byte] + pre.subrange(
                    p + 8 - j,
                    p + 8,
                ));
            }
            limb = x >> 8u64;
            j = j + 1;
        }
        proof {
            let bytes = out@.subrange(p as int, p + 8);
            lemma_be_val_bound(bytes);
            lemma_pow256_limb();
            assert(limb == 0) by (nonlinear_arith)
                requires
                    orig == limb as nat * pow256(8) + be_val(bytes),
                    orig < pow256(8),
                    be_val(bytes) >= 0,
            ;
            let tail = out@.subrange(p + 8, e);
            assert(tail =~= snap.subrange(p + 8, e));
            assert(out@.subrange(p as int, e) =~= bytes + tail);
            lemma_be_val_concat(bytes, tail);
            lemma_pow256_base_pow(i as nat);
            lemma_limbs_val_take(limbs@, i as int);
            assert(tail.len() == 8 * i);
            assert(off + (num_limbs - i) * 8 == p + 8);
        }
        i = i + 1;
    }
    proof {
        assert(limbs@.take(num_limbs as int) =~= limbs@);
    }
    let mut k: usize = 0;
    while k < off
        invariant
            out_len == out@.len(),
            off + num_limbs * 8 == out_len,
            e == out_len,
            k <= off,
            forall|t: int| 0 <= t < k ==> out@[t] == 0,
            be_val(out@.subrange(off as int, e)) == limbs_val(limbs@),
        decreases off - k,
    {
        let ghost before = out@;
        out[k] = 0;
        assert(out@.subrange(off as int, e) =~= before.subrange(off as int, e));
        k = k + 1;
    }
    proof {
        assert(out@ =~= out@.subrange(0, off as int) + out@.subrange(off as int, e));
        lemma_be_val_zeros(out@.subrange(0, off as int));
        lemma_be_val_concat(out@.subrange(0, off as int), out@.subrange(off as int, e));
    }
}

/// Two limb sequences of one length with the same value are equal.
pub proof fn lemma_limbs_val_inj(a: Seq<Limb>, b: Seq<Limb>)
    requires
        a.len() == b.len(),
    ensures
        (limbs_val(a) == limbs_val(b)) == (a == b),
    decreases a.len(),
{
    if a.len() > 0 && limbs_val(a) == limbs_val(b) {
        let pa = a.drop_last();
        let pb = b.drop_last();
        let w = base_pow(pa.len());
        lemma_base_pow_pos(pa.len());
        lemma_limbs_val_bound(pa);
        lemma_limbs_val_bound(pb);
        let x = limbs_val(pa) as int;
        let y = limbs_val(pb) as int;
        let la = a.last() as int;
        let lb = b.last() as int;
        assert((la - lb) * w == y - x) by (nonlinear_arith)
            requires
                x + la * w == y + lb * w,
        ;
        if la > lb {
            assert((la - lb) * w >= w) by (nonlinear_arith)
                requires
                    la - lb >= 1,
                    w > 0,
            ;
        } else if la < lb {
            assert((lb - la) * w >= w) by (nonlinear_arith)
                requires
                    lb - la >= 1,
                    w > 0,
            ;
            assert((la - lb) * w == -((lb - la) * w)) by (nonlinear_arith);
        }
        assert(la == lb);
        assert(x == y);
        lemma_limbs_val_inj(pa, pb);
        assert(a =~= pa.push(a.last()));
        assert(b =~= pb.push(b.last()));
    } else if a.len() == 0 {
        assert(a =~= b);
    }
}

/// Byte `i` of the limbs in memory order: limbs least significant first,
/// each limb's bytes least significant first.
pub open spec fn limb_byte(limbs: Seq<Limb>, i: int) -> u8 {
    ((limbs[i / 8] >> (8 * (i % 8)) as u64) & 0xff) as u8
}

/// The bytes of `src` in memory order on a little-endian machine.
pub fn limbs_as_bytes(src: &[Limb]) -> (r: Vec<u8>)
    requires
        src@.len() * LIMB_BYTES <= usize::MAX,
    ensures
        r@.len() == src@.len() * LIMB_BYTES,
        forall|i: int| 0 <= i < r@.len() ==> r@[i] == limb_byte(src@, i),
{
    let n = src.len();
    let mut r: Vec<u8> = Vec::new();
    let mut i: usize = 0;
    while i < n
        invariant
            n == src@.len(),
            n * 8 <= usize::MAX,
            i <= n,
            r@.len() == i * 8,
            forall|k: int| 0 <= k < r@.len() ==> r@[k] == limb_byte(src@, k),
        decreases n - i,
    {
        let limb = src[i];
        let mut j: usize = 0;
        while j < 8
            invariant
                n == src@.len(),
                i < n,
                limb == src@[i as int],
                j <= 8,
                r@.len() == i * 8 + j,
                forall|k: int| 0 <= k < r@.len() ==> r@[k] == limb_byte(src@, k),
            decreases 8 - j,
        {
            let b = ((limb >> (8 * j) as u64) & 0xff) as u8;
            proof {
                let k = (i * 8 + j) as int;
                assert(k / 8 == i as int && k % 8 == j as int) by (nonlinear_arith)
                    requires
                        k == i * 8 + j,
                        0 <= j < 8,
                ;
            }
            r.push(b);
            j = j + 1;
        }
        assert(r@.len() == (i + 1) * 8);
        i = i + 1;
    }
    assert(r@.len() == n * LIMB_BYTES);
    r
}

} // verus!
