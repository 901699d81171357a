//! Helpers for owned text and its mathematical view, a sequence of characters.

use vstd::prelude::*;
use vstd::string::{StringExecFns, StringSliceAdditionalSpecFns};
use vstd::utf8::encode_utf8;
use crate::sequences::{first_where, lemma_first_where_is, lemma_first_where_none};

verus! {

/// The view of an optional text.
pub open spec fn opt_text(o: Option<String>) -> Option<Seq<char>> {
    match o {
        Some(s) => Some(s@),
        None => None,
    }
}

/// The views of a sequence of texts, element by element.
pub open spec fn texts(v: Seq<String>) -> Seq<Seq<char>> {
    v.map_values(|s: String| s@)
}

/// The view of an optional list of texts.
pub open spec fn opt_texts(o: Option<Vec<String>>) -> Option<Seq<Seq<char>>> {
    match o {
        Some(v) => Some(texts(v@)),
        None => None,
    }
}

/// Copies an optional text.
pub fn clone_opt_text(o: &Option<String>) -> (r: Option<String>)
    ensures
        opt_text(r) == opt_text(*o),
{
    match o {
        Some(s) => Some(s.clone()),
        None => None,
    }
}

/// Copies a list of texts.
pub fn clone_texts(v: &Vec<String>) -> (r: Vec<String>)
    ensures
        texts(r@) == texts(v@),
{
    let mut out: Vec<String> = Vec::new();
    let mut i: usize = 0;
    while i < v.len()
        invariant
            i <= v.len(),
            out@.len() == i,
            forall|j: int| 0 <= j < i ==> out@[j]@ == v@[j]@,
        decreases v.len() - i,
    {
        out.push(v[i].clone());
        i += 1;
    }
    out
}

/// Copies an optional list of texts.
pub fn clone_opt_texts(o: &Option<Vec<String>>) -> (r: Option<Vec<String>>)
    ensures
        opt_texts(r) == opt_texts(*o),
{
    match o {
        Some(v) => Some(clone_texts(v)),
        None => None,
    }
}

/// The one of `new` and `old` that a patch leaves in a field: the new value
/// where the patch holds one.
pub open spec fn replaced<A>(new: Option<A>, old: A) -> A {
    match new {
        Some(v) => v,
        None => old,
    }
}

/// The one of `new` and `old` that a patch leaves in an optional field: the
/// new value where the patch holds one. A patch cannot empty such a field.
pub open spec fn replaced_opt<A>(new: Option<A>, old: Option<A>) -> Option<A> {
    match new {
        Some(v) => Some(v),
        None => old,
    }
}

/// Puts `new` into `field` where there is one.
pub fn replace_value<A>(field: &mut A, new: Option<A>)
    ensures
        *final(field) == replaced(new, *old(field)),
{
    if let Some(v) = new {
        *field = v;
    }
}

/// Puts `new` into `field` where there is one.
pub fn replace_opt_value<A>(field: &mut Option<A>, new: Option<A>)
    ensures
        *final(field) == replaced_opt(new, *old(field)),
{
    if let Some(v) = new {
        *field = Some(v);
    }
}

/// Puts `new` into `field` where there is one.
pub fn replace_text(field: &mut String, new: Option<String>)
    ensures
        final(field)@ == replaced(opt_text(new), old(field)@),
{
    if let Some(v) = new {
        *field = v;
    }
}

/// Puts `new` into `field` where there is one.
pub fn replace_opt_text(field: &mut Option<String>, new: Option<String>)
    ensures
        opt_text(*final(field)) == replaced_opt(opt_text(new), opt_text(*old(field))),
{
    if let Some(v) = new {
        *field = Some(v);
    }
}

/// Puts `new` into `field` where there is one.
pub fn replace_texts(field: &mut Vec<String>, new: Option<Vec<String>>)
    ensures
        texts(final(field)@) == replaced(opt_texts(new), texts(old(field)@)),
{
    if let Some(v) = new {
        *field = v;
    }
}

/// Puts `new` into `field` where there is one.
pub fn replace_opt_texts(field: &mut Option<Vec<String>>, new: Option<Vec<String>>)
    ensures
        opt_texts(*final(field)) == replaced_opt(opt_texts(new), opt_texts(*old(field))),
{
    if let Some(v) = new {
        *field = Some(v);
    }
}

/// The texts other than `t`.
pub open spec fn other_than(t: Seq<char>) -> spec_fn(Seq<char>) -> bool {
    |x: Seq<char>| x != t
}

/// Removes every text equal to `t`. The others keep their order.
pub fn discard_text(v: &mut Vec<String>, t: &String)
    ensures
        texts(final(v)@) == texts(old(v)@).filter(other_than(t@)),
{
    let ghost origin = texts(v@);
    let mut all: Vec<String> = Vec::new();
    core::mem::swap(v, &mut all);
    for item in it: all
        invariant
            origin == texts(it.seq()),
            texts(v@) == origin.take(it.index()).filter(other_than(t@)),
    {
        proof {
            let n = it.index();
            assert(origin.take(n + 1) =~= origin.take(n).push(item@));
            origin.take(n).lemma_filter_push(item@, other_than(t@));
        }
        if item != *t {
            v.push(item);
        }
    }
    proof {
        assert(origin.take(origin.len() as int) =~= origin);
    }
}

/// Whether `a` stands before `b`, or equals it, in the order of a
/// dictionary over bytes: the first byte in which the two differ decides,
/// and a sequence stands before every longer one that starts with it.
pub open spec fn lex_le(a: Seq<u8>, b: Seq<u8>) -> bool
    decreases a.len(),
{
    if a.len() == 0 {
        true
    } else if b.len() == 0 {
        false
    } else if a.first() != b.first() {
        a.first() < b.first()
    } else {
        lex_le(a.drop_first(), b.drop_first())
    }
}

/// Of two byte sequences, one stands before the other or equals it.
pub proof fn lemma_lex_le_total(a: Seq<u8>, b: Seq<u8>)
    ensures
        lex_le(a, b) || lex_le(b, a),
    decreases a.len(),
{
    if a.len() > 0 && b.len() > 0 && a.first() == b.first() {
        lemma_lex_le_total(a.drop_first(), b.drop_first());
    }
}

/// The order of byte sequences is transitive.
pub proof fn lemma_lex_le_transitive(a: Seq<u8>, b: Seq<u8>, c: Seq<u8>)
    requires
        lex_le(a, b),
        lex_le(b, c),
    ensures
        lex_le(a, c),
    decreases a.len(),
{
    if a.len() > 0 && b.len() > 0 && c.len() > 0 && a.first() == b.first() && b.first()
        == c.first() {
        lemma_lex_le_transitive(a.drop_first(), b.drop_first(), c.drop_first());
    }
}

/// Bytes in which two sequences agree at their start do not decide their
/// order: what follows them does.
pub proof fn lemma_lex_le_skip(a: Seq<u8>, b: Seq<u8>, n: int)
    requires
        0 <= n <= a.len(),
        n <= b.len(),
        forall|j: int| 0 <= j < n ==> a[j] == b[j],
    ensures
        lex_le(a, b) == lex_le(a.skip(n), b.skip(n)),
    decreases n,
{
    if n == 0 {
        assert(a.skip(0) =~= a);
        assert(b.skip(0) =~= b);
    } else {
        lemma_lex_le_skip(a.drop_first(), b.drop_first(), n - 1);
        assert(a.drop_first().skip(n - 1) =~= a.skip(n));
        assert(b.drop_first().skip(n - 1) =~= b.skip(n));
    }
}

/// Whether the text `a` stands before the text `b`, or equals it, in the
/// order of their UTF-8 bytes. This is the order of the code points, and the
/// order in which the standard library compares strings.
pub open spec fn text_le(a: Seq<char>, b: Seq<char>) -> bool {
    lex_le(encode_utf8(a), encode_utf8(b))
}

/// Decides whether `a` stands before `b` or equals it.
pub fn text_before_eq(a: &str, b: &str) -> (r: bool)
    ensures
        r == text_le(a@, b@),
{
    let x = a.as_bytes();
    let y = b.as_bytes();
    let mut i: usize = 0;
    while i < x.len() && i < y.len()
        invariant
            i <= x.len(),
            i <= y.len(),
            x@ == encode_utf8(a@),
            y@ == encode_utf8(b@),
            forall|j: int| 0 <= j < i ==> x@[j] == y@[j],
        decreases x.len() - i,
    {
        if x[i] != y[i] {
            proof {
                lemma_lex_le_skip(x@, y@, i as int);
            }
            return x[i] < y[i];
        }
        i += 1;
    }
    proof {
        lemma_lex_le_skip(x@, y@, i as int);
    }
    i == x.len()
}

/// The views of a list of pairs of a name and a value.
pub open spec fn pair_views(pairs: Seq<(String, String)>) -> Seq<(Seq<char>, Seq<char>)> {
    pairs.map_values(|p: (String, String)| (p.0@, p.1@))
}

/// The pairs with the given name.
pub open spec fn named(name: Seq<char>) -> spec_fn((Seq<char>, Seq<char>)) -> bool {
    |p: (Seq<char>, Seq<char>)| p.0 == name
}

/// The value of the first pair with the given name, if there is one.
pub open spec fn value_of(pairs: Seq<(Seq<char>, Seq<char>)>, name: Seq<char>) -> Option<Seq<char>> {
    match first_where(pairs, named(name)) {
        Some(i) => Some(pairs[i].1),
        None => None,
    }
}

/// Looks up the value of a name in a list of pairs.
pub fn lookup(pairs: &Vec<(String, String)>, name: &str) -> (r: Option<String>)
    ensures
        opt_text(r) == value_of(pair_views(pairs@), name@),
{
    let wanted = String::from_str(name);
    let mut i: usize = 0;
    while i < pairs.len()
        invariant
            i <= pairs.len(),
            wanted@ == name@,
            forall|j: int| 0 <= j < i ==> !named(name@)(#[trigger] pair_views(pairs@)[j]),
        decreases pairs.len() - i,
    {
        if pairs[i].0 == wanted {
            proof {
                lemma_first_where_is(pair_views(pairs@), named(name@), i as int);
            }
            return Some(pairs[i].1.clone());
        }
        i += 1;
    }
    proof {
        lemma_first_where_none(pair_views(pairs@), named(name@));
    }
    None
}

} // verus!
