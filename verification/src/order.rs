//! A stable sort with the order given by the element type.
use vstd::prelude::*;

verus! {

/// A total preorder on values: `le(a, b)` when `a` may stand before `b`.
pub trait Ordered: Sized {
    spec fn le(a: Self, b: Self) -> bool;

    proof fn total(a: Self, b: Self)
        ensures
            Self::le(a, b) || Self::le(b, a),
    ;

    proof fn transitive(a: Self, b: Self, c: Self)
        requires
            Self::le(a, b),
            Self::le(b, c),
        ensures
            Self::le(a, c),
    ;

    fn not_after(&self, other: &Self) -> (r: bool)
        ensures
            r == Self::le(*self, *other),
    ;
}

/// `s` with `x` put behind every element that may stand before it.
pub open spec fn inserted<T: Ordered>(s: Seq<T>, x: T) -> Seq<T>
    decreases s.len(),
{
    if s.len() == 0 || T::le(s.last(), x) {
        s.push(x)
    } else {
        inserted(s.drop_last(), x).push(s.last())
    }
}

/// `s` in order, equal elements in the order in which they came.
pub open spec fn sorted<T: Ordered>(s: Seq<T>) -> Seq<T>
    decreases s.len(),
{
    if s.len() == 0 {
        s
    } else {
        inserted(sorted(s.drop_last()), s.last())
    }
}

pub open spec fn in_order<T: Ordered>(s: Seq<T>) -> bool {
    forall|i: int, j: int| 0 <= i < j < s.len() ==> #[trigger] T::le(s[i], s[j])
}

proof fn lemma_inserted_at<T: Ordered>(s: Seq<T>, x: T, at: int)
    requires
        0 <= at <= s.len(),
        at == 0 || T::le(s[at - 1], x),
        forall|i: int| at <= i < s.len() ==> !T::le(#[trigger] s[i], x),
    ensures
        inserted(s, x) == s.insert(at, x),
    decreases s.len(),
{
    if s.len() == at {
        assert(s.insert(at, x) =~= s.push(x));
    } else {
        lemma_inserted_at(s.drop_last(), x, at);
        assert(s.drop_last().insert(at, x).push(s.last()) =~= s.insert(at, x));
    }
}

/// The elements of `v` in order; equal ones keep their places.
pub fn sort<T: Ordered>(v: Vec<T>) -> (r: Vec<T>)
    ensures
        r@ == sorted(v@),
{
    let ghost all = v@;
    let mut out: Vec<T> = Vec::new();
    assert(all.take(0) =~= Seq::empty());
    for x in it: v
        invariant
            it.seq() == all,
            out@ == sorted(all.take(it.index() as int)),
    {
        let ghost i = it.index() as int;
        let mut at: usize = out.len();
        while at > 0 && !out[at - 1].not_after(&x)
            invariant
                at <= out@.len(),
                forall|k: int| at <= k < out@.len() ==> !T::le(#[trigger] out@[k], x),
            decreases at,
        {
            at = at - 1;
        }
        proof {
            lemma_inserted_at(out@, x, at as int);
            assert(all.take(i + 1).drop_last() =~= all.take(i));
            assert(all.take(i + 1).last() == x);
        }
        out.insert(at, x);
    }
    assert(all.take(all.len() as int) =~= all);
    out
}

proof fn lemma_inserted_order<T: Ordered>(s: Seq<T>, x: T)
    requires
        in_order(s),
    ensures
        in_order(inserted(s, x)),
        inserted(s, x).len() == s.len() + 1,
        inserted(s, x).to_multiset() == s.to_multiset().insert(x),
        s.len() > 0 && !T::le(s.last(), x) ==> inserted(s, x).last() == s.last(),
    decreases s.len(),
{
    broadcast use vstd::seq_lib::group_to_multiset_ensures;

    if s.len() == 0 {
    } else if T::le(s.last(), x) {
        assert forall|i: int, j: int| 0 <= i < j < s.push(x).len() implies #[trigger] T::le(
            s.push(x)[i],
            s.push(x)[j],
        ) by {
            if j == s.len() && i < s.len() - 1 {
                assert(T::le(s[i], s[s.len() - 1]));
                T::transitive(s[i], s.last(), x);
            } else if j < s.len() {
                assert(T::le(s[i], s[j]));
            }
        }
    } else {
        let t = s.drop_last();
        assert forall|i: int, j: int| 0 <= i < j < t.len() implies #[trigger] T::le(t[i], t[j]) by {
            assert(T::le(s[i], s[j]));
        }
        lemma_inserted_order(t, x);
        let r = inserted(t, x).push(s.last());
        T::total(s.last(), x);
        assert(s =~= t.push(s.last()));
        assert(r.to_multiset() =~= s.to_multiset().insert(x));
        assert forall|i: int| 0 <= i < inserted(t, x).len() implies #[trigger] T::le(
            inserted(t, x)[i],
            s.last(),
        ) by {
            let e = inserted(t, x)[i];
            assert(inserted(t, x).to_multiset().count(e) > 0);
            if e != x {
                assert(t.to_multiset().count(e) > 0);
                let k = choose|k: int| 0 <= k < t.len() && t[k] == e;
                assert(T::le(s[k], s[s.len() - 1]));
            }
        }
        assert forall|i: int, j: int| 0 <= i < j < r.len() implies #[trigger] T::le(r[i], r[j]) by {
            if j < r.len() - 1 {
                assert(T::le(inserted(t, x)[i], inserted(t, x)[j]));
            } else {
                assert(T::le(inserted(t, x)[i], s.last()));
            }
        }
    }
}

/// Sorting puts the elements in order and neither adds nor loses one.
pub proof fn law_sorted<T: Ordered>(s: Seq<T>)
    ensures
        in_order(sorted(s)),
        sorted(s).len() == s.len(),
        sorted(s).to_multiset() == s.to_multiset(),
    decreases s.len(),
{
    broadcast use vstd::seq_lib::group_to_multiset_ensures;

    if s.len() > 0 {
        law_sorted(s.drop_last());
        lemma_inserted_order(sorted(s.drop_last()), s.last());
        assert(s =~= s.drop_last().push(s.last()));
    }
}

} // verus!
