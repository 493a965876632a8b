//! Elementwise operations on flat parameter vectors.
//!
//! A parameter vector is an ordered sequence of fixed-point `i64` scalars.
//! Accumulation adds an incoming vector into an accumulator over the shorter
//! of the two lengths and leaves any excess elements of the longer vector
//! untouched; averaging divides every element by the number of contributions,
//! rounding toward zero. A write from a vector into a longer destination
//! rewrites only the prefix the vector covers.

use vstd::arithmetic::div_mod::{lemma_div_nonincreasing, lemma_div_pos_is_pos};
use vstd::prelude::*;

verus! {

/// Division truncating toward zero, as `/` on machine integers rounds.
pub open spec fn div_to_zero(x: int, n: int) -> int
    recommends
        n > 0,
{
    if x >= 0 {
        x / n
    } else {
        -((-x) / n)
    }
}

/// The elementwise sum of `a` and `b` over the shorter of the two lengths;
/// elements of `a` beyond `b`'s length are kept unchanged.
pub open spec fn add_trunc(a: Seq<i64>, b: Seq<i64>) -> Seq<i64> {
    Seq::new(a.len(), |i: int| if i < b.len() { (a[i] + b[i]) as i64 } else { a[i] })
}

/// Every elementwise sum over the common prefix of `a` and `b` fits in `i64`.
pub open spec fn elementwise_sum_fits(a: Seq<i64>, b: Seq<i64>) -> bool {
    forall|i: int|
        0 <= i < a.len() && i < b.len() ==> i64::MIN <= #[trigger] (a[i] + b[i]) <= i64::MAX
}

/// Every element of `a` divided by `n`, rounding toward zero.
pub open spec fn avg_seq(a: Seq<i64>, n: int) -> Seq<i64>
    recommends
        n > 0,
{
    Seq::new(a.len(), |i: int| div_to_zero(a[i] as int, n) as i64)
}

/// `base` with its first `v.len()` elements replaced by `v`; where `v` is
/// longer than `base`, the excess of `v` has no effect.
pub open spec fn overwrite_prefix(base: Seq<i64>, v: Seq<i64>) -> Seq<i64> {
    Seq::new(base.len(), |i: int| if i < v.len() { v[i] } else { base[i] })
}

/// Truncating division never moves a value further from zero.
pub proof fn lemma_div_to_zero_bounds(x: int, n: int)
    requires
        n >= 1,
    ensures
        x >= 0 ==> 0 <= div_to_zero(x, n) <= x,
        x < 0 ==> x <= div_to_zero(x, n) <= 0,
{
    if x >= 0 {
        lemma_div_pos_is_pos(x, n);
        lemma_div_nonincreasing(x, n);
    } else {
        lemma_div_pos_is_pos(-x, n);
        lemma_div_nonincreasing(-x, n);
    }
}

/// Divides one scalar by the contribution count, rounding toward zero.
pub fn avg_elem(x: i64, n: u64) -> (r: i64)
    requires
        n >= 1,
    ensures
        r as int == div_to_zero(x as int, n as int),
{
    proof {
        lemma_div_to_zero_bounds(x as int, n as int);
    }
    if x >= 0 {
        let q: u64 = (x as u64) / n;
        q as i64
    } else {
        let m: u64 = (-(x as i128)) as u64;
        let q: u64 = m / n;
        (-(q as i128)) as i64
    }
}

/// An element-for-element copy of `v`.
pub fn copy_vec(v: &Vec<i64>) -> (r: Vec<i64>)
    ensures
        r@ == v@,
{
    let mut r: Vec<i64> = Vec::new();
    let mut i: usize = 0;
    while i < v.len()
        invariant
            i <= v.len(),
            r@ == v@.take(i as int),
        decreases v.len() - i,
    {
        r.push(v[i]);
        proof {
            assert(r@ =~= v@.take(i + 1 as int));
        }
        i = i + 1;
    }
    proof {
        assert(v@.take(v@.len() as int) =~= v@);
    }
    r
}

/// Adds `v` into `acc` elementwise over the shorter of the two lengths;
/// any excess elements of the longer vector stay as they were.
pub fn accumulate(acc: &mut Vec<i64>, v: &Vec<i64>)
    requires
        elementwise_sum_fits(old(acc)@, v@),
    ensures
        final(acc)@ == add_trunc(old(acc)@, v@),
{
    let n: usize = if acc.len() < v.len() {
        acc.len()
    } else {
        v.len()
    };
    let mut i: usize = 0;
    while i < n
        invariant
            n <= acc.len(),
            n <= v.len(),
            i <= n,
            acc@.len() == old(acc)@.len(),
            elementwise_sum_fits(old(acc)@, v@),
            forall|j: int| 0 <= j < i ==> acc@[j] == add_trunc(old(acc)@, v@)[j],
            forall|j: int| i <= j < acc@.len() ==> acc@[j] == old(acc)@[j],
        decreases n - i,
    {
        let sum: i64 = acc[i] + v[i];
        acc.set(i, sum);
        i = i + 1;
    }
    assert(acc@ =~= add_trunc(old(acc)@, v@));
}

/// Divides every element of `acc` by `n`, rounding toward zero.
pub fn average_in_place(acc: &mut Vec<i64>, n: u64)
    requires
        n >= 1,
    ensures
        final(acc)@ == avg_seq(old(acc)@, n as int),
{
    let len: usize = acc.len();
    let mut i: usize = 0;
    while i < len
        invariant
            n >= 1,
            len == acc@.len(),
            len == old(acc)@.len(),
            i <= len,
            forall|j: int| 0 <= j < i ==> acc@[j] == avg_seq(old(acc)@, n as int)[j],
            forall|j: int| i <= j < len ==> acc@[j] == old(acc)@[j],
        decreases len - i,
    {
        let q: i64 = avg_elem(acc[i], n);
        proof {
            lemma_div_to_zero_bounds(old(acc)@[i as int] as int, n as int);
        }
        acc.set(i, q);
        i = i + 1;
    }
    assert(acc@ =~= avg_seq(old(acc)@, n as int));
}

} // verus!
