use vstd::prelude::*;
use itertools::Itertools;

verus! {

/// Every pair of an element of `a` with an element of `b`, row by row: the
/// pair `(a[i], b[j])` stands at position `i * |b| + j`.
pub open spec fn spec_cartesian<A, B>(a: Seq<A>, b: Seq<B>) -> Seq<(A, B)> {
    Seq::new(a.len() * b.len(), |k: int| (a[k / (b.len() as int)], b[k % (b.len() as int)]))
}

/// Each sequence of `rests` with `x` in front.
pub open spec fn prefix_all<T>(x: T, rests: Seq<Seq<T>>) -> Seq<Seq<T>> {
    rests.map_values(|r: Seq<T>| seq![x] + r)
}

/// The sequences that pick one element from each of `lists`, in lexicographic
/// order of the positions picked (the last list varies fastest). With no list
/// at all there is no sequence.
pub open spec fn spec_multi_product<T>(lists: Seq<Seq<T>>) -> Seq<Seq<T>>
    decreases lists.len(), 0nat,
{
    if lists.len() == 0 {
        Seq::empty()
    } else if lists.len() == 1 {
        lists[0].map_values(|x: T| seq![x])
    } else {
        spec_product_with(lists[0], spec_multi_product(lists.drop_first()))
    }
}

/// For each element `x` of `xs` in turn, every sequence of `rests` with `x` in
/// front.
pub open spec fn spec_product_with<T>(xs: Seq<T>, rests: Seq<Seq<T>>) -> Seq<Seq<T>>
    decreases xs.len(),
{
    if xs.len() == 0 {
        Seq::empty()
    } else {
        prefix_all(xs[0], rests) + spec_product_with(xs.drop_first(), rests)
    }
}

/// The cartesian product of `a` and `b`, computed by
/// `itertools::Itertools::cartesian_product`.
///
/// Trusted: that adaptor holds the current element of `a` and runs through a
/// fresh copy of `b` for each one, so it yields every pair row by row, and
/// nothing when either side is empty.
#[verifier::external_body]
pub(crate) fn cartesian_product<A: Copy, B: Copy>(a: &Vec<A>, b: &Vec<B>) -> (r: Vec<(A, B)>)
    ensures
        r@ == spec_cartesian(a@, b@),
{
    a.iter().copied().cartesian_product(b.iter().copied()).collect()
}

/// The cartesian product of all of `lists`, computed by
/// `itertools::Itertools::multi_cartesian_product`.
///
/// Trusted: that adaptor advances the last iterator first and resets it when
/// it runs out, so it yields the picks in lexicographic order; with no
/// iterator at all, or with an empty one, it yields nothing.
#[verifier::external_body]
pub(crate) fn multi_cartesian_product<T: Copy>(lists: &Vec<Vec<T>>) -> (r: Vec<Vec<T>>)
    ensures
        r@.len() == spec_multi_product(lists@.map_values(|l: Vec<T>| l@)).len(),
        forall|i: int| 0 <= i < r@.len() ==> (#[trigger] r@[i])@ == spec_multi_product(lists@.map_values(|l: Vec<T>| l@))[i],
{
    lists.iter().map(|l| l.iter().copied()).multi_cartesian_product().collect()
}

} // verus!

verus! {

/// A copy of `v`.
pub(crate) fn copy_vec<T: Copy>(v: &Vec<T>) -> (r: Vec<T>)
    ensures
        r@ == v@,
{
    let mut r: Vec<T> = Vec::new();
    let mut i: usize = 0;
    while i < v.len()
        invariant
            i <= v@.len(),
            r@ == v@.take(i as int),
        decreases v.len() - i,
    {
        r.push(v[i]);
        proof {
            assert(v@.take(i as int + 1) == v@.take(i as int).push(v@[i as int]));
        }
        i = i + 1;
    }
    proof {
        assert(v@.take(i as int) == v@);
    }
    r
}

/// The positions `0, 1, ..., n - 1`.
pub(crate) fn positions(n: usize) -> (r: Vec<usize>)
    ensures
        r@.len() == n,
        forall|i: int| 0 <= i < n ==> #[trigger] r@[i] == i,
{
    let mut r: Vec<usize> = Vec::new();
    let mut i: usize = 0;
    while i < n
        invariant
            i <= n,
            r@.len() == i,
            forall|j: int| 0 <= j < i ==> #[trigger] r@[j] == j,
        decreases n - i,
    {
        r.push(i);
        i = i + 1;
    }
    r
}

} // verus!
