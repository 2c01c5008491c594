//! Natural numbers wider than 128 bits, as little-endian vectors of 64-bit limbs: just the
//! multiplication by a limb, the addition and the comparison that the exact ring test of the
//! logo needs for images of any size.

use vstd::prelude::*;

verus! {

/// The base of a limb.
pub open spec fn limb_base() -> nat {
    0x1_0000_0000_0000_0000
}

/// `limb_base()` to the power `n`.
pub open spec fn limb_pow(n: nat) -> nat
    decreases n,
{
    if n == 0 {
        1
    } else {
        limb_base() * limb_pow((n - 1) as nat)
    }
}

/// The number the limbs stand for, least significant limb first.
pub open spec fn wide_value(s: Seq<u64>) -> nat
    decreases s.len(),
{
    if s.len() == 0 {
        0
    } else {
        wide_value(s.drop_last()) + (s.last() as nat) * limb_pow((s.len() - 1) as nat)
    }
}

proof fn lemma_limb_pow_positive(n: nat)
    ensures
        limb_pow(n) > 0,
    decreases n,
{
    if n > 0 {
        lemma_limb_pow_positive((n - 1) as nat);
        assert(limb_base() * limb_pow((n - 1) as nat) > 0) by (nonlinear_arith)
            requires
                limb_pow((n - 1) as nat) > 0,
        ;
    }
}

proof fn lemma_value_push(s: Seq<u64>, x: u64)
    ensures
        wide_value(s.push(x)) == wide_value(s) + (x as nat) * limb_pow(s.len()),
{
    assert(s.push(x).drop_last() =~= s);
}

proof fn lemma_value_take_step(s: Seq<u64>, i: int)
    requires
        0 <= i < s.len(),
    ensures
        wide_value(s.take(i + 1)) == wide_value(s.take(i)) + (s[i] as nat) * limb_pow(i as nat),
{
    assert(s.take(i + 1) =~= s.take(i).push(s[i]));
    lemma_value_push(s.take(i), s[i]);
}

/// A number of `n` limbs is below `limb_base()` to the power `n`.
proof fn lemma_value_bound(s: Seq<u64>)
    ensures
        wide_value(s) < limb_pow(s.len()),
    decreases s.len(),
{
    if s.len() > 0 {
        let n = (s.len() - 1) as nat;
        lemma_value_bound(s.drop_last());
        let v = wide_value(s.drop_last());
        let p = limb_pow(n);
        let x = s.last() as nat;
        assert(v + x * p < limb_base() * p) by (nonlinear_arith)
            requires
                v < p,
                x < limb_base(),
        ;
    }
}

/// A zero limb in front multiplies by the base.
proof fn lemma_value_shift(s: Seq<u64>)
    ensures
        wide_value(seq![0u64] + s) == wide_value(s) * limb_base(),
    decreases s.len(),
{
    if s.len() == 0 {
        assert(seq![0u64] + s =~= seq![0u64]);
        assert(seq![0u64].drop_last() =~= Seq::<u64>::empty());
        assert(wide_value(Seq::<u64>::empty()) == 0);
        assert(wide_value(seq![0u64]) == wide_value(Seq::<u64>::empty()) + 0 * limb_pow(0));
    } else {
        let t = seq![0u64] + s;
        assert(t.drop_last() =~= seq![0u64] + s.drop_last());
        lemma_value_shift(s.drop_last());
        let n = (s.len() - 1) as nat;
        let x = s.last() as nat;
        assert(t.last() == s.last());
        assert(t.len() == n + 2);
        assert(limb_pow(n + 1) == limb_base() * limb_pow(n));
        assert(wide_value(t) == wide_value(t.drop_last()) + x * limb_pow(n + 1));
        assert(wide_value(s) == wide_value(s.drop_last()) + x * limb_pow(n));
        assert(wide_value(s.drop_last()) * limb_base() + x * (limb_base() * limb_pow(n)) == (wide_value(
            s.drop_last(),
        ) + x * limb_pow(n)) * limb_base()) by (nonlinear_arith);
    }
}

proof fn lemma_value_take_all(s: Seq<u64>)
    ensures
        wide_value(s.take(s.len() as int)) == wide_value(s),
{
    assert(s.take(s.len() as int) =~= s);
}

/// `value` in two limbs.
pub fn wide_from(value: u128) -> (r: Vec<u64>)
    ensures
        wide_value(r@) == value,
{
    let lo = (value % 0x1_0000_0000_0000_0000) as u64;
    let hi = (value / 0x1_0000_0000_0000_0000) as u64;
    let mut r: Vec<u64> = Vec::new();
    r.push(lo);
    r.push(hi);
    proof {
        assert(wide_value(Seq::<u64>::empty()) == 0);
        assert(limb_pow(0) == 1);
        assert(lo + hi * limb_base() == value);
        lemma_value_push(Seq::<u64>::empty(), lo);
        assert(seq![lo] =~= Seq::<u64>::empty().push(lo));
        lemma_value_push(seq![lo], hi);
        assert(r@ =~= seq![lo].push(hi));
        assert(limb_pow(1) == limb_base() * limb_pow(0));
    }
    r
}

proof fn lemma_mul_step(vr: int, c: int, va: int, ai: int, m: int, lo: int, hi: int, p: int)
    requires
        vr + c * p == va * m,
        lo + 0x1_0000_0000_0000_0000 * hi == ai * m + c,
    ensures
        vr + lo * p + hi * (0x1_0000_0000_0000_0000 * p) == (va + ai * p) * m,
{
    assert(vr + lo * p + hi * (0x1_0000_0000_0000_0000 * p) == vr + (lo + 0x1_0000_0000_0000_0000 * hi) * p)
        by (nonlinear_arith);
    assert((ai * m + c) * p == ai * p * m + c * p) by (nonlinear_arith);
    assert((va + ai * p) * m == va * m + ai * p * m) by (nonlinear_arith);
}

/// `a` times the limb `m`.
pub fn wide_mul_limb(a: &Vec<u64>, m: u64) -> (r: Vec<u64>)
    ensures
        wide_value(r@) == wide_value(a@) * m,
{
    let mut r: Vec<u64> = Vec::new();
    let mut carry: u64 = 0;
    let mut i: usize = 0;
    assert(a@.take(0) =~= Seq::<u64>::empty());
    assert(wide_value(Seq::<u64>::empty()) == 0);
    while i < a.len()
        invariant
            i <= a.len(),
            r.len() == i,
            wide_value(r@) + (carry as nat) * limb_pow(i as nat) == wide_value(a@.take(i as int)) * m,
        decreases a.len() - i,
    {
        let ai = a[i];
        assert((ai as int) * (m as int) + (carry as int) < 0x1_0000_0000_0000_0000_0000_0000_0000_0000int)
            by (nonlinear_arith)
            requires
                ai < 0x1_0000_0000_0000_0000int,
                m < 0x1_0000_0000_0000_0000int,
                carry < 0x1_0000_0000_0000_0000int,
        ;
        let t: u128 = (ai as u128) * (m as u128) + (carry as u128);
        let lo = (t % 0x1_0000_0000_0000_0000) as u64;
        let hi = (t / 0x1_0000_0000_0000_0000) as u64;
        proof {
            lemma_value_push(r@, lo);
            lemma_value_take_step(a@, i as int);
            assert(limb_pow((i + 1) as nat) == limb_base() * limb_pow(i as nat));
            lemma_mul_step(
                wide_value(r@) as int,
                carry as int,
                wide_value(a@.take(i as int)) as int,
                ai as int,
                m as int,
                lo as int,
                hi as int,
                limb_pow(i as nat) as int,
            );
        }
        r.push(lo);
        carry = hi;
        i = i + 1;
    }
    proof {
        lemma_value_push(r@, carry);
        lemma_value_take_all(a@);
    }
    r.push(carry);
    r
}

/// `a` times `m`, a number of at most two limbs.
pub fn wide_mul(a: &Vec<u64>, m: u128) -> (r: Vec<u64>)
    ensures
        wide_value(r@) == wide_value(a@) * m,
{
    let lo = (m % 0x1_0000_0000_0000_0000) as u64;
    let hi = (m / 0x1_0000_0000_0000_0000) as u64;
    let low_part = wide_mul_limb(a, lo);
    let high = wide_mul_limb(a, hi);
    let mut shifted: Vec<u64> = Vec::new();
    shifted.push(0);
    let mut i: usize = 0;
    while i < high.len()
        invariant
            i <= high.len(),
            shifted@ =~= seq![0u64] + high@.take(i as int),
        decreases high.len() - i,
    {
        shifted.push(high[i]);
        i = i + 1;
        assert(shifted@ =~= seq![0u64] + high@.take(i as int));
    }
    proof {
        assert(high@.take(high.len() as int) =~= high@);
        lemma_value_shift(high@);
        assert(wide_value(a@) * lo + wide_value(a@) * hi * limb_base() == wide_value(a@) * m) by (nonlinear_arith)
            requires
                lo + hi * limb_base() == m,
        ;
    }
    wide_add(&low_part, &shifted)
}

/// `a` with zero limbs added on top up to `n` limbs; the same number.
fn wide_pad(a: &Vec<u64>, n: usize) -> (r: Vec<u64>)
    ensures
        r.len() == (if a.len() >= n { a.len() as int } else { n as int }),
        wide_value(r@) == wide_value(a@),
{
    let mut r: Vec<u64> = Vec::new();
    let mut i: usize = 0;
    while i < a.len()
        invariant
            i <= a.len(),
            r@ =~= a@.take(i as int),
        decreases a.len() - i,
    {
        r.push(a[i]);
        i = i + 1;
        assert(r@ =~= a@.take(i as int));
    }
    assert(a@.take(a.len() as int) =~= a@);
    while r.len() < n
        invariant
            r.len() >= a.len(),
            r.len() == a.len() || r.len() <= n,
            wide_value(r@) == wide_value(a@),
        decreases n - r.len(),
    {
        proof {
            lemma_value_push(r@, 0);
        }
        r.push(0);
    }
    r
}

proof fn lemma_add_step(vr: int, c: int, va: int, vb: int, ai: int, bi: int, lo: int, c2: int, p: int)
    requires
        vr + c * p == va + vb,
        lo + 0x1_0000_0000_0000_0000 * c2 == ai + bi + c,
    ensures
        vr + lo * p + c2 * (0x1_0000_0000_0000_0000 * p) == (va + ai * p) + (vb + bi * p),
{
    assert(vr + lo * p + c2 * (0x1_0000_0000_0000_0000 * p) == vr + (lo + 0x1_0000_0000_0000_0000 * c2) * p)
        by (nonlinear_arith);
    assert((ai + bi + c) * p == ai * p + bi * p + c * p) by (nonlinear_arith);
}

/// The sum of `a` and `b`.
pub fn wide_add(a: &Vec<u64>, b: &Vec<u64>) -> (r: Vec<u64>)
    ensures
        wide_value(r@) == wide_value(a@) + wide_value(b@),
{
    let n = if a.len() >= b.len() {
        a.len()
    } else {
        b.len()
    };
    let a = wide_pad(a, n);
    let b = wide_pad(b, n);
    let mut r: Vec<u64> = Vec::new();
    let mut carry: u64 = 0;
    let mut i: usize = 0;
    assert(a@.take(0) =~= Seq::<u64>::empty());
    assert(b@.take(0) =~= Seq::<u64>::empty());
    assert(wide_value(Seq::<u64>::empty()) == 0);
    while i < n
        invariant
            a.len() == n,
            b.len() == n,
            i <= n,
            r.len() == i,
            carry <= 1,
            wide_value(r@) + (carry as nat) * limb_pow(i as nat) == wide_value(a@.take(i as int))
                + wide_value(b@.take(i as int)),
        decreases n - i,
    {
        let t: u128 = (a[i] as u128) + (b[i] as u128) + (carry as u128);
        let (lo, next) = if t >= 0x1_0000_0000_0000_0000 {
            ((t - 0x1_0000_0000_0000_0000) as u64, 1u64)
        } else {
            (t as u64, 0u64)
        };
        proof {
            lemma_value_push(r@, lo);
            lemma_value_take_step(a@, i as int);
            lemma_value_take_step(b@, i as int);
            assert(limb_pow((i + 1) as nat) == limb_base() * limb_pow(i as nat));
            lemma_add_step(
                wide_value(r@) as int,
                carry as int,
                wide_value(a@.take(i as int)) as int,
                wide_value(b@.take(i as int)) as int,
                a[i as int] as int,
                b[i as int] as int,
                lo as int,
                next as int,
                limb_pow(i as nat) as int,
            );
        }
        r.push(lo);
        carry = next;
        i = i + 1;
    }
    proof {
        lemma_value_push(r@, carry);
        lemma_value_take_all(a@);
        lemma_value_take_all(b@);
    }
    r.push(carry);
    r
}

proof fn lemma_sub_step(vr: int, w: int, va: int, vb: int, ai: int, bi: int, lo: int, w2: int, p: int)
    requires
        vr - w * p == va - vb,
        lo - 0x1_0000_0000_0000_0000 * w2 == ai - bi - w,
    ensures
        vr + lo * p - w2 * (0x1_0000_0000_0000_0000 * p) == (va + ai * p) - (vb + bi * p),
{
    assert(vr + lo * p - w2 * (0x1_0000_0000_0000_0000 * p) == vr + (lo - 0x1_0000_0000_0000_0000 * w2) * p)
        by (nonlinear_arith);
    assert((ai - bi - w) * p == ai * p - bi * p - w * p) by (nonlinear_arith);
}

/// Whether `a` is at most `b`.
pub fn wide_le(a: &Vec<u64>, b: &Vec<u64>) -> (r: bool)
    ensures
        r == (wide_value(a@) <= wide_value(b@)),
{
    let n = if a.len() >= b.len() {
        a.len()
    } else {
        b.len()
    };
    let a = wide_pad(a, n);
    let b = wide_pad(b, n);
    let mut r: Vec<u64> = Vec::new();
    let mut borrow: u64 = 0;
    let mut i: usize = 0;
    assert(a@.take(0) =~= Seq::<u64>::empty());
    assert(b@.take(0) =~= Seq::<u64>::empty());
    assert(wide_value(Seq::<u64>::empty()) == 0);
    while i < n
        invariant
            a.len() == n,
            b.len() == n,
            i <= n,
            r.len() == i,
            borrow <= 1,
            wide_value(r@) - (borrow as int) * limb_pow(i as nat) == wide_value(b@.take(i as int))
                - wide_value(a@.take(i as int)),
        decreases n - i,
    {
        let top = b[i] as u128;
        let sub = (a[i] as u128) + (borrow as u128);
        let (lo, next) = if top >= sub {
            ((top - sub) as u64, 0u64)
        } else {
            ((top + 0x1_0000_0000_0000_0000 - sub) as u64, 1u64)
        };
        proof {
            lemma_value_push(r@, lo);
            lemma_value_take_step(a@, i as int);
            lemma_value_take_step(b@, i as int);
            assert(limb_pow((i + 1) as nat) == limb_base() * limb_pow(i as nat));
            lemma_sub_step(
                wide_value(r@) as int,
                borrow as int,
                wide_value(b@.take(i as int)) as int,
                wide_value(a@.take(i as int)) as int,
                b[i as int] as int,
                a[i as int] as int,
                lo as int,
                next as int,
                limb_pow(i as nat) as int,
            );
        }
        r.push(lo);
        borrow = next;
        i = i + 1;
    }
    proof {
        lemma_value_take_all(a@);
        lemma_value_take_all(b@);
        lemma_value_bound(r@);
    }
    borrow == 0
}

} // verus!
