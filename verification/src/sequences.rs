//! Searching and ordering sequences of records.
//!
//! The definitions speak of mathematical sequences; the executable functions
//! work on vectors and are specified through the views of their elements.

use vstd::prelude::*;

verus! {

/// The views of a sequence of values, element by element.
pub open spec fn views<T: View>(s: Seq<T>) -> Seq<T::V> {
    s.map_values(|x: T| x@)
}

/// The index of the first element that satisfies `p`, if any does.
pub open spec fn first_where<A>(s: Seq<A>, p: spec_fn(A) -> bool) -> Option<int>
    decreases s.len(),
{
    if s.len() == 0 {
        None
    } else if p(s.first()) {
        Some(0)
    } else {
        match first_where(s.drop_first(), p) {
            Some(i) => Some(i + 1),
            None => None,
        }
    }
}

/// Whether `i` is the index of the first element of `s` that satisfies `p`.
pub open spec fn is_first_where<A>(s: Seq<A>, p: spec_fn(A) -> bool, i: int) -> bool {
    &&& 0 <= i < s.len()
    &&& p(s[i])
    &&& forall|j: int| 0 <= j < i ==> !p(#[trigger] s[j])
}

/// `first_where` finds the first element that satisfies `p`, and finds none
/// exactly when no element does.
pub proof fn lemma_first_where<A>(s: Seq<A>, p: spec_fn(A) -> bool)
    ensures
        match first_where(s, p) {
            Some(i) => is_first_where(s, p, i),
            None => forall|j: int| 0 <= j < s.len() ==> !p(#[trigger] s[j]),
        },
    decreases s.len(),
{
    if s.len() > 0 && !p(s.first()) {
        let rest = s.drop_first();
        lemma_first_where(rest, p);
        match first_where(rest, p) {
            Some(i) => {
                assert forall|j: int| 0 <= j < i + 1 implies !p(#[trigger] s[j]) by {
                    if j > 0 {
                        assert(rest[j - 1] == s[j]);
                    }
                }
            },
            None => {
                assert forall|j: int| 0 <= j < s.len() implies !p(#[trigger] s[j]) by {
                    if j > 0 {
                        assert(rest[j - 1] == s[j]);
                    }
                }
            },
        }
    }
}

/// An index that is the first to satisfy `p` is what `first_where` gives.
pub proof fn lemma_first_where_is<A>(s: Seq<A>, p: spec_fn(A) -> bool, i: int)
    requires
        is_first_where(s, p, i),
    ensures
        first_where(s, p) == Some(i),
{
    lemma_first_where(s, p);
}

/// Where no element satisfies `p`, `first_where` gives nothing.
pub proof fn lemma_first_where_none<A>(s: Seq<A>, p: spec_fn(A) -> bool)
    requires
        forall|j: int| 0 <= j < s.len() ==> !p(#[trigger] s[j]),
    ensures
        first_where(s, p) is None,
{
    lemma_first_where(s, p);
}

/// Where no element satisfies `p`, filtering by `p` leaves nothing.
pub proof fn lemma_filter_none<A>(s: Seq<A>, p: spec_fn(A) -> bool)
    requires
        forall|j: int| 0 <= j < s.len() ==> !p(#[trigger] s[j]),
    ensures
        s.filter(p) == Seq::<A>::empty(),
    decreases s.len(),
{
    reveal(Seq::filter);
    if s.len() > 0 {
        lemma_filter_none(s.drop_last(), p);
    }
}

/// Where every element satisfies `p`, filtering by `p` changes nothing.
pub proof fn lemma_filter_all<A>(s: Seq<A>, p: spec_fn(A) -> bool)
    requires
        forall|j: int| 0 <= j < s.len() ==> p(#[trigger] s[j]),
    ensures
        s.filter(p) == s,
    decreases s.len(),
{
    reveal(Seq::filter);
    if s.len() > 0 {
        lemma_filter_all(s.drop_last(), p);
    }
}

/// Every element that a filter keeps satisfies its predicate, and filtering
/// a second time changes nothing.
pub proof fn lemma_filter_idempotent<A>(s: Seq<A>, p: spec_fn(A) -> bool)
    ensures
        forall|j: int| 0 <= j < s.filter(p).len() ==> p(#[trigger] s.filter(p)[j]),
        s.filter(p).filter(p) == s.filter(p),
{
    lemma_filter_all(s.filter(p), p);
}

/// A filter and its opposite part a sequence: the two parts together hold
/// what the sequence holds.
pub proof fn lemma_filter_parts<A>(s: Seq<A>, p: spec_fn(A) -> bool, q: spec_fn(A) -> bool)
    requires
        forall|x: A| #[trigger] q(x) == !p(x),
    ensures
        s.filter(p).to_multiset().add(s.filter(q).to_multiset()) == s.to_multiset(),
        s.filter(p).len() + s.filter(q).len() == s.len(),
    decreases s.len(),
{
    broadcast use vstd::seq_lib::group_to_multiset_ensures;

    reveal(Seq::filter);
    if s.len() > 0 {
        let rest = s.drop_last();
        let x = s.last();
        lemma_filter_parts(rest, p, q);
        assert(rest.push(x) =~= s);
    }
}

/// Sequences that hold the same elements, in whatever order, keep equally
/// many of them under any filter.
pub proof fn lemma_filter_len_of_same_contents<A>(a: Seq<A>, b: Seq<A>, p: spec_fn(A) -> bool)
    requires
        a.to_multiset() == b.to_multiset(),
    ensures
        a.filter(p).len() == b.filter(p).len(),
    decreases a.len(),
{
    broadcast use vstd::seq_lib::group_to_multiset_ensures;

    reveal(Seq::filter);
    if a.len() == 0 {
        vstd::seq_lib::to_multiset_len(a);
    } else {
        let x = a.last();
        assert(b.to_multiset().count(x) > 0);
        let i = choose|i: int| 0 <= i < b.len() && b[i] == x;
        let rest_a = a.drop_last();
        let rest_b = b.remove(i);
        assert(rest_a =~= a.remove(a.len() - 1));
        lemma_filter_len_of_same_contents(rest_a, rest_b, p);
        let head = b.take(i);
        let tail = b.skip(i + 1);
        assert(b =~= head + seq![x] + tail);
        assert(seq![x].filter(p).len() == if p(x) { 1int } else { 0int }) by {
            assert(seq![x].drop_last() =~= Seq::<A>::empty());
            assert(Seq::<A>::empty().filter(p) =~= Seq::<A>::empty());
        }
    }
}

/// Whether every element of `s` may stand before each one that follows it.
pub open spec fn ordered<A>(s: Seq<A>, le: spec_fn(A, A) -> bool) -> bool {
    forall|i: int, j: int| 0 <= i < j < s.len() ==> le(#[trigger] s[i], #[trigger] s[j])
}

/// The elements that `le` ranks equal to `k`.
pub open spec fn tied_with<A>(le: spec_fn(A, A) -> bool, k: A) -> spec_fn(A) -> bool {
    |x: A| le(x, k) && le(k, x)
}

/// Whether `le` compares any two values and is transitive.
pub open spec fn is_total_preorder<A>(le: spec_fn(A, A) -> bool) -> bool {
    &&& forall|a: A, b: A| #[trigger] le(a, b) || #[trigger] le(b, a)
    &&& forall|a: A, b: A, c: A| #[trigger] le(a, b) && #[trigger] le(b, c) ==> le(a, c)
}

/// Whether `r` is `s` sorted by `le` with ties left in their order: `r` is
/// ordered, holds what `s` holds, and the elements of each rank stand in `r`
/// as they stood in `s`.
pub open spec fn stable_sorted<A>(r: Seq<A>, s: Seq<A>, le: spec_fn(A, A) -> bool) -> bool {
    &&& ordered(r, le)
    &&& r.to_multiset() == s.to_multiset()
    &&& forall|k: A| #[trigger] r.filter(tied_with(le, k)) == s.filter(tied_with(le, k))
}

/// Putting `x` behind the last element that may stand before it keeps a
/// sequence ordered, and changes no more than pushing `x` at its end as far
/// as the contents and the order within each rank go.
pub proof fn lemma_insert_keeps_order<A>(p: Seq<A>, j: int, x: A, le: spec_fn(A, A) -> bool)
    requires
        is_total_preorder(le),
        ordered(p, le),
        0 <= j <= p.len(),
        j > 0 ==> le(p[j - 1], x),
        forall|t: int| j <= t < p.len() ==> !le(#[trigger] p[t], x),
    ensures
        ordered(p.insert(j, x), le),
        p.insert(j, x).to_multiset() == p.push(x).to_multiset(),
        forall|k: A| #[trigger]
            p.insert(j, x).filter(tied_with(le, k)) == p.push(x).filter(tied_with(le, k)),
{
    broadcast use vstd::seq_lib::group_to_multiset_ensures;

    let q = p.insert(j, x);
    assert forall|k: A| #[trigger]
        q.filter(tied_with(le, k)) == p.push(x).filter(tied_with(le, k)) by {
        let f = tied_with(le, k);
        let head = p.take(j);
        let tail = p.skip(j);
        assert(p =~= head + tail);
        head.lemma_filter_push(x, f);
        p.lemma_filter_push(x, f);
        if f(x) {
            lemma_filter_none(tail, f);
        }
    }
}

/// Whether two sequences agree in what matters to a stable sort: both are
/// ordered, they hold the same elements, and the elements of each rank
/// stand in the one as they stand in the other.
pub open spec fn sorted_alike<A>(a: Seq<A>, b: Seq<A>, le: spec_fn(A, A) -> bool) -> bool {
    &&& ordered(a, le)
    &&& ordered(b, le)
    &&& a.to_multiset() == b.to_multiset()
    &&& forall|k: A| #[trigger] a.filter(tied_with(le, k)) == b.filter(tied_with(le, k))
}

/// Filtering a sequence that is not empty takes its first element to the
/// front of the result, or leaves it out.
pub proof fn lemma_filter_first<A>(s: Seq<A>, p: spec_fn(A) -> bool)
    requires
        s.len() > 0,
    ensures
        s.filter(p) == if p(s.first()) {
            seq![s.first()] + s.drop_first().filter(p)
        } else {
            s.drop_first().filter(p)
        },
{
    assert(s =~= seq![s.first()] + s.drop_first());
    reveal(Seq::filter);
    assert(seq![s.first()].drop_last() =~= Seq::<A>::empty());
    assert(Seq::<A>::empty().filter(p) =~= Seq::<A>::empty());
}

/// Sequences that are sorted alike are equal.
pub proof fn lemma_sorted_alike_are_equal<A>(a: Seq<A>, b: Seq<A>, le: spec_fn(A, A) -> bool)
    requires
        is_total_preorder(le),
        sorted_alike(a, b, le),
    ensures
        a == b,
    decreases a.len(),
{
    broadcast use vstd::seq_lib::group_to_multiset_ensures;

    vstd::seq_lib::to_multiset_len(a);
    if a.len() > 0 {
        let x = a.first();
        let y = b.first();
        assert(b.contains(x)) by {
            vstd::seq_lib::to_multiset_contains(a, x);
        }
        assert(a.contains(y)) by {
            vstd::seq_lib::to_multiset_contains(a, y);
        }
        let f = tied_with(le, x);
        lemma_filter_first(a, f);
        lemma_filter_first(b, f);
        assert((seq![x] + a.drop_first().filter(f))[0] == x);
        let ra = a.drop_first();
        let rb = b.drop_first();
        assert(ra =~= a.remove(0));
        assert(rb =~= b.remove(0));
        assert forall|k: A| #[trigger] ra.filter(tied_with(le, k)) == rb.filter(
            tied_with(le, k),
        ) by {
            let g = tied_with(le, k);
            lemma_filter_first(a, g);
            lemma_filter_first(b, g);
            if g(x) {
                assert((seq![x] + ra.filter(g)).drop_first() =~= ra.filter(g));
            }
        }
        lemma_sorted_alike_are_equal(ra, rb, le);
        assert(a =~= seq![x] + ra);
    }
}

/// A stable sort has one result: two sequences that are both a stable sort
/// of one sequence are equal.
pub proof fn lemma_stable_sort_is_unique<A>(
    first: Seq<A>,
    second: Seq<A>,
    s: Seq<A>,
    le: spec_fn(A, A) -> bool,
)
    requires
        is_total_preorder(le),
        stable_sorted(first, s, le),
        stable_sorted(second, s, le),
    ensures
        first == second,
{
    lemma_sorted_alike_are_equal(first, second, le);
}

/// An order in which values of `T` can be sorted.
pub trait Precedence<T: View> {
    /// Whether a value with view `a` may stand before one with view `b`.
    spec fn before(a: T::V, b: T::V) -> bool;

    /// Any two values can be compared.
    proof fn before_is_total(a: T::V, b: T::V)
        ensures
            Self::before(a, b) || Self::before(b, a),
    ;

    /// What stands before a value stands before all that the value stands before.
    proof fn before_is_transitive(a: T::V, b: T::V, c: T::V)
        requires
            Self::before(a, b),
            Self::before(b, c),
        ensures
            Self::before(a, c),
    ;

    /// Decides `before` on two values.
    fn stands_before(a: &T, b: &T) -> (r: bool)
        ensures
            r == Self::before(a@, b@),
    ;
}

/// The relation of an order, as a function on views.
pub open spec fn relation<T: View, P: Precedence<T>>() -> spec_fn(T::V, T::V) -> bool {
    |a: T::V, b: T::V| P::before(a, b)
}

/// The relation of every order is a total preorder.
pub proof fn lemma_relation_is_total_preorder<T: View, P: Precedence<T>>()
    ensures
        is_total_preorder(relation::<T, P>()),
{
    let le = relation::<T, P>();
    assert forall|a: T::V, b: T::V| #[trigger] le(a, b) || #[trigger] le(b, a) by {
        P::before_is_total(a, b);
    }
    assert forall|a: T::V, b: T::V, c: T::V| #[trigger] le(a, b) && #[trigger] le(b, c) implies le(
        a,
        c,
    ) by {
        P::before_is_transitive(a, b, c);
    }
}

/// Sorts `v` by the order `P`. Elements that the order ranks equal keep
/// their relative order.
pub fn stable_sort<T: View, P: Precedence<T>>(v: &mut Vec<T>)
    ensures
        stable_sorted(views(final(v)@), views(old(v)@), relation::<T, P>()),
{
    let ghost le = relation::<T, P>();
    let ghost origin = views(v@);
    let n = v.len();
    let mut i: usize = 0;
    proof {
        lemma_relation_is_total_preorder::<T, P>();
    }
    while i < n
        invariant
            i <= n,
            n == v.len(),
            origin.len() == n,
            le == relation::<T, P>(),
            is_total_preorder(le),
            ordered(views(v@).take(i as int), le),
            views(v@).take(i as int).to_multiset() == origin.take(i as int).to_multiset(),
            forall|k: T::V| #[trigger]
                views(v@).take(i as int).filter(tied_with(le, k)) == origin.take(i as int).filter(
                    tied_with(le, k),
                ),
            views(v@).skip(i as int) == origin.skip(i as int),
        decreases n - i,
    {
        let ghost before_step = views(v@);
        let ghost sorted = before_step.take(i as int);
        let x = v.remove(i);
        proof {
            assert(before_step[i as int] == before_step.skip(i as int)[0]);
        }
        let mut j: usize = i;
        while j > 0 && !P::stands_before(&v[j - 1], &x)
            invariant
                j <= i,
                i < n,
                v.len() == n - 1,
                views(v@).take(i as int) == sorted,
                forall|t: int| j <= t < i ==> !le(#[trigger] sorted[t], x@),
                le == relation::<T, P>(),
            decreases j,
        {
            j -= 1;
        }
        proof {
            lemma_insert_keeps_order(sorted, j as int, x@, le);
        }
        v.insert(j, x);
        proof {
            let now = views(v@);
            assert(now.take(i + 1) =~= sorted.insert(j as int, x@));
            assert(origin.take(i + 1) =~= origin.take(i as int).push(x@));
            assert(now.skip(i + 1) =~= origin.skip(i + 1)) by {
                assert forall|t: int| 0 <= t < now.skip(i + 1).len() implies #[trigger] now.skip(
                    i + 1,
                )[t] == origin.skip(i + 1)[t] by {
                    assert(before_step[i + 1 + t] == before_step.skip(i as int)[t + 1]);
                }
            }
            broadcast use vstd::seq_lib::group_to_multiset_ensures;

            assert forall|k: T::V| #[trigger]
                now.take(i + 1).filter(tied_with(le, k)) == origin.take(i + 1).filter(
                    tied_with(le, k),
                ) by {
                sorted.lemma_filter_push(x@, tied_with(le, k));
                origin.take(i as int).lemma_filter_push(x@, tied_with(le, k));
            }
        }
        i += 1;
    }
    proof {
        assert(views(v@).take(n as int) =~= views(v@));
        assert(origin.take(n as int) =~= origin);
    }
}

} // verus!
