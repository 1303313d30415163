//! Facts about `filter_map` and `flat_map` that the walks and the laws share.

use vstd::prelude::*;

verus! {

/// The first item of a sequence, if it has one.
pub open spec fn first_of<T>(s: Seq<T>) -> Option<T> {
    if s.len() > 0 {
        Some(s[0])
    } else {
        None
    }
}

/// `filter_map` of a concatenation is the concatenation of the two results.
pub proof fn lemma_filter_map_concat<A, B>(a: Seq<A>, b: Seq<A>, f: spec_fn(A) -> Option<B>)
    ensures
        (a + b).filter_map(f) == a.filter_map(f) + b.filter_map(f),
    decreases b.len(),
{
    if b.len() > 0 {
        assert((a + b).drop_last() =~= a + b.drop_last());
        lemma_filter_map_concat(a, b.drop_last(), f);
        if let Some(x) = f(b.last()) {
            assert(a.filter_map(f) + (b.drop_last().filter_map(f) + seq![x]) =~= (a.filter_map(f)
                + b.drop_last().filter_map(f)) + seq![x]);
        }
    }
}

/// Where nothing before position `i` is kept and the item at `i` is, that
/// item comes first in the result.
pub proof fn lemma_filter_map_first<A, B>(s: Seq<A>, f: spec_fn(A) -> Option<B>, i: int)
    requires
        0 <= i < s.len(),
        s.take(i).filter_map(f).len() == 0,
        f(s[i]) is Some,
    ensures
        first_of(s.filter_map(f)) == f(s[i]),
{
    s.lemma_filter_map_take_succ(f, i);
    lemma_filter_map_concat(s.take(i + 1), s.skip(i + 1), f);
    assert(s.take(i + 1) + s.skip(i + 1) =~= s);
}

/// An item that is not kept can be put in anywhere without changing the
/// result.
pub proof fn lemma_filter_map_insert_dropped<A, B>(
    s: Seq<A>,
    f: spec_fn(A) -> Option<B>,
    i: int,
    x: A,
)
    requires
        0 <= i <= s.len(),
        f(x) is None,
    ensures
        s.insert(i, x).filter_map(f) == s.filter_map(f),
{
    let head = s.take(i);
    let tail = s.skip(i);
    assert(s.insert(i, x) =~= (head + seq![x]) + tail);
    assert(s =~= head + tail);
    Seq::lemma_filter_map_singleton(x, f);
    lemma_filter_map_concat(head, seq![x], f);
    lemma_filter_map_concat(head + seq![x], tail, f);
    lemma_filter_map_concat(head, tail, f);
}

/// An item that is kept shows at the place that the kept items before it
/// leave.
pub proof fn lemma_filter_map_push_kept<A, B>(s: Seq<A>, f: spec_fn(A) -> Option<B>, x: A)
    ensures
        s.push(x).filter_map(f) == match f(x) {
            Some(y) => s.filter_map(f).push(y),
            None => s.filter_map(f),
        },
{
    assert(s.push(x).drop_last() =~= s);
}

/// Where an item is kept, the result is not empty.
pub proof fn lemma_filter_map_kept<A, B>(s: Seq<A>, f: spec_fn(A) -> Option<B>, i: int)
    requires
        0 <= i < s.len(),
        f(s[i]) is Some,
    ensures
        s.filter_map(f).len() > 0,
{
    s.lemma_filter_map_take_succ(f, i);
    lemma_filter_map_concat(s.take(i + 1), s.skip(i + 1), f);
    assert(s.take(i + 1) + s.skip(i + 1) =~= s);
}

/// `flat_map` of a concatenation is the concatenation of the two results.
pub proof fn lemma_flat_map_concat<A, B>(a: Seq<A>, b: Seq<A>, f: spec_fn(A) -> Seq<B>)
    ensures
        (a + b).flat_map(f) == a.flat_map(f) + b.flat_map(f),
{
    assert((a + b).map_values(f) =~= a.map_values(f) + b.map_values(f));
    vstd::seq_lib::lemma_flatten_concat(a.map_values(f), b.map_values(f));
}

/// An item that gives nothing can be put in anywhere without changing the
/// result.
pub proof fn lemma_flat_map_insert_empty<A, B>(s: Seq<A>, f: spec_fn(A) -> Seq<B>, i: int, x: A)
    requires
        0 <= i <= s.len(),
        f(x).len() == 0,
    ensures
        s.insert(i, x).flat_map(f) == s.flat_map(f),
{
    let head = s.take(i);
    let tail = s.skip(i);
    assert(s.insert(i, x) =~= (head + seq![x]) + tail);
    assert(s =~= head + tail);
    seq![x].lemma_flat_map_singleton(f);
    lemma_flat_map_concat(head, seq![x], f);
    lemma_flat_map_concat(head + seq![x], tail, f);
    lemma_flat_map_concat(head, tail, f);
}

} // verus!
