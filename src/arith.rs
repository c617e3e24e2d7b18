//! Modular addition, subtraction and Montgomery multiplication on limbs.
//!
//! Each kernel works on `n`-limb values below an `n`-limb modulus `m` and
//! runs through the same sequence of limb operations whatever the values.

use vstd::prelude::*;
use vstd::arithmetic::div_mod::*;
use crate::limb::{
    Limb, base_pow, lemma_base_pow_pos, lemma_limbs_val_bound, lemma_limbs_val_high_zero,
    lemma_limbs_val_prepend, lemma_limbs_val_push, lemma_limbs_val_take, lemma_limbs_val_zero,
    add_carry, limb_base, limbs_sub, limbs_val, select_limb,
};

verus! {

/// A vector of `n` zero limbs.
pub fn limbs_zero(n: usize) -> (r: Vec<Limb>)
    ensures
        r@.len() == n,
        forall|j: int| 0 <= j < n ==> r@[j] == 0,
{
    let mut r: Vec<Limb> = Vec::new();
    let mut i: usize = 0;
    while i < n
        invariant
            i <= n,
            r@.len() == i,
            forall|j: int| 0 <= j < i ==> r@[j] == 0,
        decreases n - i,
    {
        r.push(0);
        i = i + 1;
    }
    r
}

/// `a` followed by `extra` zero limbs; the value is unchanged.
pub fn limbs_extend(a: &[Limb], extra: usize) -> (r: Vec<Limb>)
    requires
        a@.len() + extra <= usize::MAX,
    ensures
        r@.len() == a@.len() + extra,
        r@.take(a@.len() as int) == a@,
        forall|j: int| a@.len() <= j < r@.len() ==> r@[j] == 0,
        limbs_val(r@) == limbs_val(a@),
{
    let n = a.len();
    let mut r: Vec<Limb> = Vec::new();
    let mut i: usize = 0;
    while i < n + extra
        invariant
            n == a@.len(),
            n + extra <= usize::MAX,
            i <= n + extra,
            r@.len() == i,
            forall|j: int| 0 <= j < i && j < n ==> r@[j] == a@[j],
            forall|j: int| n <= j < i ==> r@[j] == 0,
        decreases n + extra - i,
    {
        if i < n {
            r.push(a[i]);
        } else {
            r.push(0);
        }
        i = i + 1;
    }
    proof {
        assert(r@.take(n as int) =~= a@);
        lemma_limbs_val_high_zero(r@, n as int);
    }
    r
}

/// The first `n` limbs of `a`.
pub fn limbs_truncate(a: &[Limb], n: usize) -> (r: Vec<Limb>)
    requires
        n <= a@.len(),
    ensures
        r@ == a@.take(n as int),
{
    let mut r: Vec<Limb> = Vec::new();
    let mut i: usize = 0;
    while i < n
        invariant
            n <= a@.len(),
            i <= n,
            r@ == a@.take(i as int),
        decreases n - i,
    {
        r.push(a[i]);
        proof {
            assert(a@.take(i + 1) =~= a@.take(i as int).push(a@[i as int]));
        }
        i = i + 1;
    }
    r
}

pub proof fn lemma_base_pow_mono(i: nat, j: nat)
    requires
        i <= j,
    ensures
        base_pow(i) <= base_pow(j),
    decreases j - i,
{
    if i < j {
        lemma_base_pow_mono(i, (j - 1) as nat);
        lemma_base_pow_pos((j - 1) as nat);
    }
}

/// Limbs above position `k` are zero when the value is below
/// `base_pow(k)`.
pub proof fn lemma_limbs_val_fits(s: Seq<Limb>, k: int)
    requires
        0 <= k <= s.len(),
        limbs_val(s) < base_pow(k as nat),
    ensures
        limbs_val(s.take(k)) == limbs_val(s),
    decreases s.len(),
{
    if s.len() > k {
        let p = s.drop_last();
        let w = base_pow((s.len() - 1) as nat);
        lemma_base_pow_mono(k as nat, (s.len() - 1) as nat);
        if s.last() > 0 {
            assert(s.last() as nat * w >= w) by (nonlinear_arith)
                requires
                    s.last() as nat >= 1,
            ;
        }
        assert(s.last() == 0);
        assert(p.take(k) =~= s.take(k));
        lemma_limbs_val_fits(p, k);
    } else {
        assert(s.take(k) =~= s);
    }
}

/// The lowest limb is the value modulo `limb_base()`.
pub proof fn lemma_limbs_val_mod_base(s: Seq<Limb>)
    requires
        s.len() >= 1,
    ensures
        (limbs_val(s) as int) % (limb_base() as int) == s[0] as int,
        limbs_val(s) == s[0] as nat + limb_base() * limbs_val(s.skip(1)),
{
    assert(s =~= seq![s[0]] + s.skip(1));
    lemma_limbs_val_prepend(s[0], s.skip(1));
    let v = limbs_val(s.skip(1)) as int;
    lemma_mod_multiples_vanish(v, s[0] as int, limb_base() as int);
    lemma_small_mod(s[0] as nat, limb_base());
}

/// Adds `a * w` to `t`. `a` is as long as `t`, and the sum fits.
fn limbs_mul_add_word(t: &mut Vec<Limb>, a: &Vec<Limb>, w: Limb)
    requires
        old(t)@.len() == a@.len(),
        limbs_val(old(t)@) + limbs_val(a@) * w < base_pow(a@.len()),
    ensures
        final(t)@.len() == old(t)@.len(),
        limbs_val(final(t)@) == limbs_val(old(t)@) + limbs_val(a@) * w,
{
    let len = t.len();
    let ghost t0 = t@;
    let mut carry: Limb = 0;
    let mut j: usize = 0;
    proof {
        assert(t@.take(0) =~= Seq::<Limb>::empty());
        assert(t0.take(0) =~= Seq::<Limb>::empty());
        assert(a@.take(0) =~= Seq::<Limb>::empty());
        assert(limbs_val(Seq::<Limb>::empty()) == 0);
    }
    while j < len
        invariant
            len == t@.len() == a@.len() == t0.len(),
            j <= len,
            forall|k: int| j <= k < len ==> t@[k] == t0[k],
            limbs_val(t@.take(j as int)) + carry as nat * base_pow(j as nat) == limbs_val(
                t0.take(j as int),
            ) + limbs_val(a@.take(j as int)) * w,
        decreases len - j,
    {
        let tj = t[j];
        let aj = a[j];
        proof {
            assert((aj as nat) * (w as nat) <= 0xffff_ffff_ffff_fffe_0000_0000_0000_0001)
                by (nonlinear_arith)
                requires
                    aj < 0x1_0000_0000_0000_0000,
                    w < 0x1_0000_0000_0000_0000,
            ;
        }
        let x: u128 = tj as u128 + (aj as u128) * (w as u128) + carry as u128;
        let lo: u64 = (x % 0x1_0000_0000_0000_0000u128) as u64;
        let hi: u64 = (x / 0x1_0000_0000_0000_0000u128) as u64;
        let ghost before = t@;
        t.set(j, lo);
        proof {
            assert(t@.take(j as int) =~= before.take(j as int));
            lemma_limbs_val_take(t@, j as int);
            lemma_limbs_val_take(t0, j as int);
            lemma_limbs_val_take(a@, j as int);
            let ww = base_pow(j as nat);
            assert(base_pow((j + 1) as nat) == limb_base() * ww);
            let vt = limbs_val(before.take(j as int));
            let v0 = limbs_val(t0.take(j as int));
            let va = limbs_val(a@.take(j as int));
            assert(vt + lo as nat * ww + hi as nat * (limb_base() * ww) == v0 + tj as nat * ww + (
            va + aj as nat * ww) * w) by (nonlinear_arith)
                requires
                    vt + carry as nat * ww == v0 + va * w,
                    lo as nat + hi as nat * limb_base() == tj as nat + aj as nat * w as nat
                        + carry as nat,
            ;
        }
        carry = hi;
        j = j + 1;
    }
    proof {
        assert(t@.take(len as int) =~= t@);
        assert(t0.take(len as int) =~= t0);
        assert(a@.take(len as int) =~= a@);
        lemma_limbs_val_bound(t@);
        let bl = base_pow(len as nat);
        assert(carry == 0) by (nonlinear_arith)
            requires
                limbs_val(t@) + carry as nat * bl < bl,
        ;
    }
}

/// Drops the lowest limb, which is zero, and adds a zero limb on top: the
/// value is divided by `limb_base()`.
fn limbs_shift_down(t: &mut Vec<Limb>)
    requires
        old(t)@.len() >= 1,
        (limbs_val(old(t)@) as int) % (limb_base() as int) == 0,
    ensures
        final(t)@.len() == old(t)@.len(),
        limbs_val(final(t)@) * limb_base() == limbs_val(old(t)@),
{
    let ghost t0 = t@;
    proof {
        lemma_limbs_val_mod_base(t0);
    }
    t.remove(0);
    proof {
        assert(t@ =~= t0.skip(1));
        lemma_limbs_val_push(t@, 0);
    }
    t.push(0);
}

/// The conditions under which `n0` is the Montgomery constant of `m`:
/// `m * n0 == -1` modulo `limb_base()`.
pub open spec fn mont_n0_ok(m: Seq<Limb>, n0: Limb) -> bool {
    m.len() >= 1 && (m[0] as nat * n0 as nat) % limb_base() == (limb_base() - 1) as nat
}

proof fn lemma_redc_step_divisible(t1: Seq<Limb>, m: Seq<Limb>, n0: Limb, mi: nat)
    requires
        t1.len() >= 1,
        mont_n0_ok(m, n0),
        mi == (t1[0] as nat * n0 as nat) % limb_base(),
    ensures
        ((limbs_val(t1) + limbs_val(m) * mi) as int) % (limb_base() as int) == 0,
{
    let bb = limb_base() as int;
    lemma_limbs_val_mod_base(t1);
    lemma_limbs_val_mod_base(m);
    let x = limbs_val(t1) as int;
    let y = limbs_val(m) as int;
    let t0 = t1[0] as int;
    let m0 = m[0] as int;
    let n = n0 as int;
    lemma_add_mod_noop(x, y * mi, bb);
    lemma_mul_mod_noop_left(y, mi as int, bb);
    lemma_mul_mod_noop_right(m0, t0 * n, bb);
    assert(m0 * (t0 * n) == t0 * (m0 * n)) by (nonlinear_arith);
    lemma_mul_mod_noop_right(t0, m0 * n, bb);
    assert(t0 + t0 * (m0 * n) == t0 * (1 + m0 * n)) by (nonlinear_arith);
    lemma_add_mod_noop(t0, t0 * (m0 * n), bb);
    lemma_add_mod_noop(1, m0 * n, bb);
    lemma_mod_self_0(bb);
    lemma_mul_mod_noop_right(t0, 1 + m0 * n, bb);
    lemma_small_mod(1, limb_base());
    lemma_add_mod_noop(t0 % bb, (y % bb) * mi % bb, bb);
    lemma_mod_twice(x + y * mi, bb);
    lemma_mul_mod_noop_right(y % bb, mi as int, bb);
    assert((t0 + m0 * mi) % bb == (t0 + t0 * (m0 * n)) % bb) by {
        lemma_add_mod_noop(t0, m0 * mi, bb);
        lemma_add_mod_noop(t0, m0 * (t0 * n), bb);
        lemma_mul_mod_noop_right(m0, t0 * n, bb);
    }
    assert((x + y * mi) % bb == (t0 + m0 * mi) % bb) by {
        lemma_add_mod_noop(x, y * mi, bb);
        lemma_add_mod_noop(t0, m0 * mi, bb);
        lemma_mul_mod_noop_left(y, mi as int, bb);
        lemma_mul_mod_noop_left(m0, mi as int, bb);
        lemma_small_mod(m0 as nat, limb_base());
        lemma_small_mod(t0 as nat, limb_base());
    }
}

/// One round of the Montgomery loop keeps `t * base_pow(i)` congruent to
/// `a * (the first i limbs of b)`.
proof fn lemma_mont_round(t: int, a: int, bi: int, p: int, w: int, mi: int, mm: int, t3: int)
    requires
        mm > 0,
        (t * w) % mm == (a * p) % mm,
        t3 * limb_base() == t + a * bi + mm * mi,
    ensures
        (t3 * (limb_base() * w)) % mm == (a * (p + bi * w)) % mm,
{
    let bb = limb_base() as int;
    assert(t3 * (bb * w) == mm * (mi * w) + (t * w + a * bi * w)) by (nonlinear_arith)
        requires
            t3 * bb == t + a * bi + mm * mi,
    ;
    lemma_mod_multiples_vanish(mi * w, t * w + a * bi * w, mm);
    lemma_add_mod_noop(t * w, a * bi * w, mm);
    lemma_add_mod_noop(a * p, a * bi * w, mm);
    assert(a * (p + bi * w) == a * p + a * bi * w) by (nonlinear_arith);
}

/// Montgomery multiplication: the `r < m` with `r * base_pow(n) == a * b`
/// modulo `m`, where `n` is the number of limbs.
#[verifier::spinoff_prover]
pub fn mont_mul(a: &[Limb], b: &[Limb], m: &[Limb], n0: Limb) -> (r: Vec<Limb>)
    requires
        1 <= m@.len() <= 64,
        a@.len() == m@.len(),
        b@.len() == m@.len(),
        limbs_val(a@) < limbs_val(m@),
        limbs_val(b@) < limbs_val(m@),
        mont_n0_ok(m@, n0),
    ensures
        r@.len() == m@.len(),
        limbs_val(r@) < limbs_val(m@),
        ((limbs_val(r@) * base_pow(m@.len())) as int) % (limbs_val(m@) as int) == ((limbs_val(a@)
            * limbs_val(b@)) as int) % (limbs_val(m@) as int),
{
    let n = m.len();
    let a_ext = limbs_extend(a, 2);
    let m_ext = limbs_extend(m, 2);
    let mut t = limbs_zero(n + 2);
    let ghost mm = limbs_val(m@) as int;
    let ghost av = limbs_val(a@) as int;
    let ghost bb = limb_base() as int;
    proof {
        lemma_limbs_val_zero(t@);
        lemma_limbs_val_bound(m@);
        assert(base_pow((n + 2) as nat) == limb_base() * (limb_base() * base_pow(n as nat))) by {
            assert(base_pow((n + 2) as nat) == limb_base() * base_pow((n + 1) as nat));
            assert(base_pow((n + 1) as nat) == limb_base() * base_pow(n as nat));
        }
        assert(b@.take(0) =~= Seq::<Limb>::empty());
        assert(limbs_val(Seq::<Limb>::empty()) == 0);
        assert(limbs_val(t@) == 0);
        assert(base_pow(0) == 1);
        assert(av * limbs_val(b@.take(0)) == 0);
    }
    let mut i: usize = 0;
    while i < n
        invariant
            n == m@.len() == a@.len() == b@.len(),
            1 <= n <= 64,
            a_ext@.len() == n + 2,
            m_ext@.len() == n + 2,
            limbs_val(a_ext@) == av,
            limbs_val(m_ext@) == mm,
            m_ext@[0] == m@[0],
            mm == limbs_val(m@),
            av == limbs_val(a@),
            0 <= av < mm,
            mm < base_pow(n as nat),
            bb == limb_base(),
            base_pow((n + 2) as nat) == bb * (bb * base_pow(n as nat)),
            mont_n0_ok(m@, n0),
            i <= n,
            t@.len() == n + 2,
            limbs_val(t@) < 2 * mm,
            ((limbs_val(t@) * base_pow(i as nat)) as int) % mm == (av * limbs_val(b@.take(i as int))) % mm,
        decreases n - i,
    {
        let ghost tv = limbs_val(t@) as int;
        let bi = b[i];
        proof {
            assert(av * bi <= mm * (bb - 1)) by (nonlinear_arith)
                requires
                    0 <= av < mm,
                    0 <= bi < bb,
            ;
            assert(mm * (bb + 1) <= bb * (bb * base_pow(n as nat))) by (nonlinear_arith)
                requires
                    mm < base_pow(n as nat),
                    bb == limb_base(),
            ;
        }
        limbs_mul_add_word(&mut t, &a_ext, bi);
        let ghost t1 = t@;
        let mi = t[0].wrapping_mul(n0);
        proof {
            assert(mi as nat == (t1[0] as nat * n0 as nat) % limb_base());
            lemma_redc_step_divisible(t1, m_ext@, n0, mi as nat);
            assert(mm * mi <= mm * (bb - 1)) by (nonlinear_arith)
                requires
                    mi < bb,
                    mm > 0,
            ;
            assert(mm * (2 * bb) <= bb * (bb * base_pow(n as nat))) by (nonlinear_arith)
                requires
                    mm < base_pow(n as nat),
                    bb == limb_base(),
            ;
        }
        limbs_mul_add_word(&mut t, &m_ext, mi);
        let ghost t2v = limbs_val(t@) as int;
        limbs_shift_down(&mut t);
        proof {
            let t3 = limbs_val(t@) as int;
            assert(t3 < 2 * mm) by (nonlinear_arith)
                requires
                    t3 * bb == t2v,
                    t2v < 2 * mm * bb,
                    bb > 0,
            ;
            lemma_limbs_val_take(b@, i as int);
            lemma_mont_round(
                tv,
                av,
                bi as int,
                limbs_val(b@.take(i as int)) as int,
                base_pow(i as nat) as int,
                mi as int,
                mm,
                t3,
            );
            assert(base_pow((i + 1) as nat) == limb_base() * base_pow(i as nat));
        }
        i = i + 1;
    }
    proof {
        assert(b@.take(n as int) =~= b@);
    }
    let (d, borrow) = limbs_sub(t.as_slice(), m_ext.as_slice());
    proof {
        lemma_limbs_val_bound(d@);
        assert(limbs_val(d@) < base_pow((n + 2) as nat));
        assert(limbs_val(d@) as int - borrow as int * base_pow((n + 2) as nat) == limbs_val(t@) as int
            - limbs_val(m_ext@) as int);
    }
    let mask: Limb = 0u64.wrapping_sub(borrow);
    let ghost tv = limbs_val(t@) as int;
    let ghost rv = if tv >= mm { tv - mm } else { tv };
    assert(borrow == 0 ==> tv >= mm && limbs_val(d@) == tv - mm);
    proof {
        if borrow == 1 {
            let w2 = base_pow((n + 2) as nat) as int;
            assert(borrow as int * w2 == w2);
            assert(tv < mm);
        }
    }
    let mut sel: Vec<Limb> = Vec::new();
    let mut k: usize = 0;
    while k < n + 2
        invariant
            n + 2 == t@.len() == d@.len(),
            k <= n + 2,
            sel@.len() == k,
            mask == 0 || mask == 0xffff_ffff_ffff_ffff,
            mask == 0 ==> limbs_val(d@) == rv,
            mask != 0 ==> limbs_val(t@) == rv,
            forall|j: int| 0 <= j < k ==> sel@[j] == (if mask == 0 { d@[j] } else { t@[j] }),
        decreases n + 2 - k,
    {
        sel.push(select_limb(mask, d[k], t[k]));
        k = k + 1;
    }
    proof {
        if mask == 0 {
            assert(sel@ =~= d@);
        } else {
            assert(sel@ =~= t@);
        }
        assert(limbs_val(sel@) == rv);
        assert(0 <= rv < mm);
        lemma_limbs_val_fits(sel@, n as int);
        let w = base_pow(n as nat) as int;
        if tv >= mm {
            assert(tv * w == mm * w + rv * w) by (nonlinear_arith)
                requires
                    rv == tv - mm,
            ;
            lemma_mod_multiples_vanish(w, rv * w, mm);
        }
    }
    limbs_truncate(sel.as_slice(), n)
}

/// Adds `b` to `a` limb by limb. Returns the sum modulo `base_pow(n)` and
/// the carry out of the top limb.
pub fn limbs_add(a: &[Limb], b: &[Limb]) -> (r: (Vec<Limb>, Limb))
    requires
        a@.len() == b@.len(),
    ensures
        r.0@.len() == a@.len(),
        r.1 <= 1,
        limbs_val(r.0@) + r.1 as nat * base_pow(a@.len()) == limbs_val(a@) + limbs_val(b@),
{
    let n = a.len();
    let mut s: Vec<Limb> = Vec::new();
    let mut carry: Limb = 0;
    let mut i: usize = 0;
    proof {
        assert(a@.take(0) =~= Seq::<Limb>::empty());
        assert(b@.take(0) =~= Seq::<Limb>::empty());
        assert(limbs_val(Seq::<Limb>::empty()) == 0);
    }
    while i < n
        invariant
            n == a@.len() == b@.len(),
            i <= n,
            s@.len() == i,
            carry <= 1,
            limbs_val(s@) + carry as nat * base_pow(i as nat) == limbs_val(a@.take(i as int))
                + limbs_val(b@.take(i as int)),
        decreases n - i,
    {
        let (x, c) = add_carry(a[i], b[i], carry);
        proof {
            lemma_limbs_val_push(s@, x);
            lemma_limbs_val_take(a@, i as int);
            lemma_limbs_val_take(b@, i as int);
            let w = base_pow(i as nat);
            assert(base_pow((i + 1) as nat) == limb_base() * w);
            assert(x as nat * w + c as nat * (limb_base() * w) == (a[i as int] as nat + b[i as int] as nat
                + carry as nat) * w) by (nonlinear_arith)
                requires
                    x as nat + c as nat * limb_base() == a[i as int] as nat + b[i as int] as nat
                        + carry as nat,
            ;
            assert((a[i as int] as nat + b[i as int] as nat + carry as nat) * w == a[i as int] as nat
                * w + b[i as int] as nat * w + carry as nat * w) by (nonlinear_arith);
        }
        s.push(x);
        carry = c;
        i = i + 1;
    }
    proof {
        assert(a@.take(n as int) =~= a@);
        assert(b@.take(n as int) =~= b@);
    }
    (s, carry)
}

/// Chooses `x` when `mask` is zero and `y` when it is all ones, limb by limb.
pub fn limbs_select(mask: Limb, x: &Vec<Limb>, y: &Vec<Limb>) -> (r: Vec<Limb>)
    requires
        mask == 0 || mask == 0xffff_ffff_ffff_ffff,
        x@.len() == y@.len(),
    ensures
        r@ == (if mask == 0 {
            x@
        } else {
            y@
        }),
{
    let n = x.len();
    let mut r: Vec<Limb> = Vec::new();
    let mut k: usize = 0;
    while k < n
        invariant
            n == x@.len() == y@.len(),
            k <= n,
            r@.len() == k,
            mask == 0 || mask == 0xffff_ffff_ffff_ffff,
            forall|j: int| 0 <= j < k ==> r@[j] == (if mask == 0 { x@[j] } else { y@[j] }),
        decreases n - k,
    {
        r.push(select_limb(mask, x[k], y[k]));
        k = k + 1;
    }
    proof {
        if mask == 0 {
            assert(r@ =~= x@);
        } else {
            assert(r@ =~= y@);
        }
    }
    r
}

/// `(a + b) mod m` for `a, b < m`.
pub fn add_mod(a: &[Limb], b: &[Limb], m: &[Limb]) -> (r: Vec<Limb>)
    requires
        a@.len() == m@.len(),
        b@.len() == m@.len(),
        limbs_val(a@) < limbs_val(m@),
        limbs_val(b@) < limbs_val(m@),
    ensures
        r@.len() == m@.len(),
        limbs_val(r@) == (limbs_val(a@) + limbs_val(b@)) % limbs_val(m@),
{
    let ghost av = limbs_val(a@) as int;
    let ghost bv = limbs_val(b@) as int;
    let ghost mm = limbs_val(m@) as int;
    let (s, c) = limbs_add(a, b);
    let (d, br) = limbs_sub(s.as_slice(), m);
    proof {
        let w = base_pow(m@.len()) as int;
        lemma_limbs_val_bound(s@);
        lemma_limbs_val_bound(d@);
        lemma_limbs_val_bound(m@);
        if c == 1 {
            assert(c as int * w == w);
        }
        if br == 1 {
            assert(br as int * w == w);
        }
    }
    let keep: Limb = (1 - c) * br;
    let mask: Limb = 0u64.wrapping_sub(keep);
    let r = limbs_select(mask, &d, &s);
    proof {
        let sum = av + bv;
        if sum >= mm {
            lemma_fundamental_div_mod(sum, mm);
            assert(sum / mm == 1) by {
                lemma_div_is_ordered(sum, 2 * mm, mm);
                lemma_div_multiples_vanish(2, mm);
                lemma_div_is_ordered(mm, sum, mm);
                lemma_div_by_self(mm);
            }
        } else {
            lemma_small_mod(sum as nat, mm as nat);
        }
    }
    r
}

/// `(a - b) mod m` for `a, b < m`.
pub fn sub_mod(a: &[Limb], b: &[Limb], m: &[Limb]) -> (r: Vec<Limb>)
    requires
        a@.len() == m@.len(),
        b@.len() == m@.len(),
        limbs_val(a@) < limbs_val(m@),
        limbs_val(b@) < limbs_val(m@),
    ensures
        r@.len() == m@.len(),
        limbs_val(r@) as int == (limbs_val(a@) as int - limbs_val(b@) as int) % (limbs_val(m@) as int),
{
    let ghost av = limbs_val(a@) as int;
    let ghost bv = limbs_val(b@) as int;
    let ghost mm = limbs_val(m@) as int;
    let (d, br) = limbs_sub(a, b);
    let (e, _c) = limbs_add(d.as_slice(), m);
    proof {
        let w = base_pow(m@.len()) as int;
        lemma_limbs_val_bound(d@);
        lemma_limbs_val_bound(e@);
        if br == 1 {
            assert(br as int * w == w);
            if _c == 0 {
                assert(_c as int * w == 0);
            } else {
                assert(_c as int * w == w);
            }
        }
    }
    let mask: Limb = 0u64.wrapping_sub(br);
    let r = limbs_select(mask, &d, &e);
    proof {
        let diff = av - bv;
        if diff >= 0 {
            lemma_small_mod(diff as nat, mm as nat);
        } else {
            lemma_mod_multiples_vanish(1, diff, mm);
            lemma_small_mod((diff + mm) as nat, mm as nat);
            assert(mm * 1 + diff == diff + mm);
        }
    }
    r
}

/// `rinv` is the inverse of `base_pow(n)` modulo `m`.
pub open spec fn is_mont_rinv(m: nat, n: nat, rinv: nat) -> bool {
    m > 1 && (base_pow(n) * rinv) % m == 1
}

/// The residue that a Montgomery-encoded value `v` stands for.
pub open spec fn mont_decode(v: nat, m: nat, rinv: nat) -> nat {
    (v * rinv) % m
}


/// A Montgomery product is congruent to `a * b * rinv`.
proof fn lemma_mont_congruent(r: nat, a: nat, b: nat, m: nat, n: nat, rinv: nat)
    requires
        is_mont_rinv(m, n, rinv),
        ((r * base_pow(n)) as int) % (m as int) == ((a * b) as int) % (m as int),
    ensures
        (r as int) % (m as int) == ((a * b * rinv) as int) % (m as int),
{
    let mi = m as int;
    let ri = r as int;
    let w = base_pow(n) as int;
    let v = rinv as int;
    let ab = (a * b) as int;
    assert((w * v) % mi == 1);
    lemma_mul_mod_noop_right(ri, w * v, mi);
    assert(ri * 1 == ri);
    assert(ri % mi == (ri * (w * v)) % mi);
    assert(ri * (w * v) == (ri * w) * v) by (nonlinear_arith);
    lemma_mul_mod_noop_left(ri * w, v, mi);
    lemma_mul_mod_noop_left(ab, v, mi);
    assert((ri * w) % mi == ab % mi);
    assert(((ri * w) % mi) * v == (ab % mi) * v);
    assert(ab * v == ((a * b * rinv) as int));
}

/// Some inverse of `base_pow(n)` modulo `m`, where one exists.
pub open spec fn mont_rinv(m: nat, n: nat) -> nat {
    choose|rinv: nat| is_mont_rinv(m, n, rinv)
}

/// The Montgomery product of `a` and `b`: `a * b / base_pow(n)` modulo `m`.
pub open spec fn mont_product(a: nat, b: nat, m: nat, n: nat) -> nat {
    (a * b * mont_rinv(m, n)) % m
}

/// What `mont_mul` promises of its result.
pub open spec fn is_mont_product(r: nat, a: nat, b: nat, m: nat, n: nat) -> bool {
    r < m && ((r * base_pow(n)) as int) % (m as int) == ((a * b) as int) % (m as int)
}

/// Where `base_pow(n)` is invertible modulo `m`, the Montgomery product is
/// unique.
pub proof fn lemma_mont_product_unique(r: nat, a: nat, b: nat, m: nat, n: nat)
    requires
        exists|rinv: nat| is_mont_rinv(m, n, rinv),
        is_mont_product(r, a, b, m, n),
    ensures
        r == mont_product(a, b, m, n),
{
    let v = choose|rinv: nat| is_mont_rinv(m, n, rinv);
    assert(v == mont_rinv(m, n));
    lemma_mont_congruent(r, a, b, m, n, v);
    lemma_small_mod(r, m);
}

/// `x % m` from a quotient and remainder.
pub proof fn lemma_mod_from_quotient(x: int, m: int, k: int, r: int)
    requires
        x == m * k + r,
        0 <= r < m,
    ensures
        x % m == r,
{
    lemma_mod_multiples_vanish(k, r, m);
    lemma_small_mod(r as nat, m as nat);
}

} // verus!
