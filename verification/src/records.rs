//! What feedback items and issues have in common, and the operations on a
//! document's records that both share.

use vstd::prelude::*;
use crate::sequences::{
    first_where, lemma_filter_none, lemma_first_where_is, lemma_first_where_none, views, Precedence,
};

verus! {

/// A stored record: it has an id and a priority, and it is completed or not.
pub trait Record: View + Sized {
    /// The id of a record, on its view.
    spec fn id_of(v: Self::V) -> Seq<char>;

    /// The priority of a record, on its view.
    spec fn priority_of(v: Self::V) -> u8;

    /// Whether a record is completed, on its view.
    spec fn is_done(v: Self::V) -> bool;

    /// The id of the record.
    fn id(&self) -> (r: &String)
        ensures
            r@ == Self::id_of(self@),
    ;

    /// The priority of the record.
    fn priority(&self) -> (r: u8)
        ensures
            r == Self::priority_of(self@),
    ;

    /// Whether the record is completed.
    fn done(&self) -> (r: bool)
        ensures
            r == Self::is_done(self@),
    ;
}

/// The records with the given id.
pub open spec fn with_id<T: Record>(id: Seq<char>) -> spec_fn(T::V) -> bool {
    |v: T::V| T::id_of(v) == id
}

/// The records with another id than the given one.
pub open spec fn without_id<T: Record>(id: Seq<char>) -> spec_fn(T::V) -> bool {
    |v: T::V| T::id_of(v) != id
}

/// The records that are completed.
pub open spec fn completed<T: Record>() -> spec_fn(T::V) -> bool {
    |v: T::V| T::is_done(v)
}

/// The records that are not completed.
pub open spec fn unfinished<T: Record>() -> spec_fn(T::V) -> bool {
    |v: T::V| !T::is_done(v)
}

/// Pushing a value and taking views can be done in either order.
pub proof fn lemma_views_push<T: View>(s: Seq<T>, x: T)
    ensures
        views(s.push(x)) == views(s).push(x@),
{
}

/// Joining two sequences and taking views can be done in either order.
pub proof fn lemma_views_add<T: View>(a: Seq<T>, b: Seq<T>)
    ensures
        views(a + b) == views(a) + views(b),
{
}

/// Removing an element and taking views can be done in either order.
pub proof fn lemma_views_remove<T: View>(s: Seq<T>, i: int)
    requires
        0 <= i < s.len(),
    ensures
        views(s.remove(i)) == views(s).remove(i),
{
}

/// Removing an element that a filter drops does not change what the filter
/// keeps.
pub proof fn lemma_filter_dropped_removal<A>(s: Seq<A>, i: int, p: spec_fn(A) -> bool)
    requires
        0 <= i < s.len(),
        !p(s[i]),
    ensures
        s.remove(i).filter(p) == s.filter(p),
{
    let head = s.take(i);
    let tail = s.skip(i + 1);
    assert(s =~= head + seq![s[i]] + tail);
    lemma_filter_none(seq![s[i]], p);
}

/// The index of the first record with the given id, if there is one.
pub fn find<T: Record>(v: &Vec<T>, id: &String) -> (r: Option<usize>)
    ensures
        match r {
            Some(i) => {
                &&& i < v.len()
                &&& first_where(views(v@), with_id::<T>(id@)) == Some(i as int)
                &&& T::id_of(views(v@)[i as int]) == id@
            },
            None => first_where(views(v@), with_id::<T>(id@)) is None,
        },
{
    let mut i: usize = 0;
    while i < v.len()
        invariant
            i <= v.len(),
            forall|j: int| 0 <= j < i ==> !with_id::<T>(id@)(#[trigger] views(v@)[j]),
        decreases v.len() - i,
    {
        if *v[i].id() == *id {
            proof {
                lemma_first_where_is(views(v@), with_id::<T>(id@), i as int);
            }
            return Some(i);
        }
        i += 1;
    }
    proof {
        lemma_first_where_none(views(v@), with_id::<T>(id@));
    }
    None
}

/// Removes every record with the given id. The others keep their order.
pub fn discard<T: Record>(v: &mut Vec<T>, id: &String)
    ensures
        views(final(v)@) == views(old(v)@).filter(without_id::<T>(id@)),
{
    let ghost origin = views(v@);
    let ghost keep = without_id::<T>(id@);
    let mut all: Vec<T> = Vec::new();
    core::mem::swap(v, &mut all);
    for item in it: all
        invariant
            origin == views(it.seq()),
            keep == without_id::<T>(id@),
            views(v@) == origin.take(it.index()).filter(keep),
    {
        proof {
            let n = it.index();
            assert(origin.take(n + 1) =~= origin.take(n).push(item@));
            origin.take(n).lemma_filter_push(item@, keep);
        }
        if *item.id() != *id {
            v.push(item);
        }
    }
    proof {
        assert(origin.take(origin.len() as int) =~= origin);
    }
}

/// Whether any record is completed.
pub fn any_done<T: Record>(v: &Vec<T>) -> (r: bool)
    ensures
        r == exists|j: int| 0 <= j < v.len() && T::is_done(#[trigger] views(v@)[j]),
{
    let mut i: usize = 0;
    while i < v.len()
        invariant
            i <= v.len(),
            forall|j: int| 0 <= j < i ==> !T::is_done(#[trigger] views(v@)[j]),
        decreases v.len() - i,
    {
        if v[i].done() {
            assert(T::is_done(views(v@)[i as int]));
            return true;
        }
        i += 1;
    }
    false
}

/// Parts the records into those that are not completed and those that are.
/// Each part keeps the order of the whole.
pub fn split_done<T: Record>(v: Vec<T>) -> (r: (Vec<T>, Vec<T>))
    ensures
        views(r.0@) == views(v@).filter(unfinished::<T>()),
        views(r.1@) == views(v@).filter(completed::<T>()),
{
    let ghost origin = views(v@);
    let mut open: Vec<T> = Vec::new();
    let mut closed: Vec<T> = Vec::new();
    for item in it: v
        invariant
            origin == views(it.seq()),
            views(open@) == origin.take(it.index()).filter(unfinished::<T>()),
            views(closed@) == origin.take(it.index()).filter(completed::<T>()),
    {
        proof {
            let n = it.index();
            assert(origin.take(n + 1) =~= origin.take(n).push(item@));
            origin.take(n).lemma_filter_push(item@, unfinished::<T>());
            origin.take(n).lemma_filter_push(item@, completed::<T>());
        }
        if item.done() {
            closed.push(item);
        } else {
            open.push(item);
        }
    }
    proof {
        assert(origin.take(origin.len() as int) =~= origin);
    }
    (open, closed)
}

/// Sorting by priority: a record may stand before another whose priority
/// number is not smaller, so the most urgent records, those of priority 1,
/// come first.
pub struct ByPriority;

impl<T: Record> Precedence<T> for ByPriority {
    open spec fn before(a: T::V, b: T::V) -> bool {
        T::priority_of(a) <= T::priority_of(b)
    }

    proof fn before_is_total(a: T::V, b: T::V) {
    }

    proof fn before_is_transitive(a: T::V, b: T::V, c: T::V) {
    }

    fn stands_before(a: &T, b: &T) -> (r: bool) {
        a.priority() <= b.priority()
    }
}

} // verus!
