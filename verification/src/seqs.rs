//! Facts about filtering and mapping sequences that the laws of the store
//! rest on.

use vstd::prelude::*;

verus! {

/// Filtering the first `i + 1` elements is filtering the first `i` and then
/// deciding on element `i`.
pub proof fn lemma_filter_step<A>(s: Seq<A>, p: spec_fn(A) -> bool, i: int)
    requires
        0 <= i < s.len(),
    ensures
        s.take(i + 1).filter(p) == if p(s[i]) {
            s.take(i).filter(p).push(s[i])
        } else {
            s.take(i).filter(p)
        },
        s.take(i).filter(p).len() <= i,
{
    assert(s.take(i + 1) =~= s.take(i).push(s[i]));
    s.take(i).lemma_filter_push(s[i], p);
    s.take(i).lemma_filter_len(p);
}

/// Filtering no elements gives none; taking all elements gives the sequence.
pub proof fn lemma_filter_ends<A>(s: Seq<A>, p: spec_fn(A) -> bool)
    ensures
        s.take(0).filter(p) == Seq::<A>::empty(),
        s.take(s.len() as int) == s,
{
    reveal(Seq::filter);
    assert(s.take(0) =~= Seq::<A>::empty());
    assert(s.take(s.len() as int) =~= s);
}

/// Filtering commutes with a map that does not change what the predicate
/// says of an element.
pub proof fn lemma_filter_of_mapped<A>(s: Seq<A>, f: spec_fn(A) -> A, p: spec_fn(A) -> bool)
    requires
        forall|x: A| p(#[trigger] f(x)) == p(x),
    ensures
        s.map_values(f).filter(p) == s.filter(p).map_values(f),
        s.map_values(f).filter(p).len() == s.filter(p).len(),
    decreases s.len(),
{
    reveal(Seq::filter);
    if s.len() == 0 {
        assert(s.map_values(f) =~= Seq::<A>::empty());
        assert(s.filter(p).map_values(f) =~= Seq::<A>::empty());
    } else {
        let rest = s.drop_last();
        let x = s.last();
        lemma_filter_of_mapped(rest, f, p);
        assert(s =~= rest.push(x));
        assert(s.map_values(f) =~= rest.map_values(f).push(f(x)));
        rest.map_values(f).lemma_filter_push(f(x), p);
        rest.lemma_filter_push(x, p);
        assert(rest.filter(p).push(x).map_values(f) =~= rest.filter(p).map_values(f).push(f(x)));
    }
}

/// A filter that no element passes keeps nothing.
pub proof fn lemma_filter_nothing<A>(s: Seq<A>, p: spec_fn(A) -> bool)
    requires
        forall|i: int| 0 <= i < s.len() ==> !p(#[trigger] s[i]),
    ensures
        s.filter(p) == Seq::<A>::empty(),
    decreases s.len(),
{
    reveal(Seq::filter);
    if s.len() > 0 {
        let rest = s.drop_last();
        assert forall|i: int| 0 <= i < rest.len() implies !p(#[trigger] rest[i]) by {
            assert(rest[i] == s[i]);
        }
        lemma_filter_nothing(rest, p);
    }
}

/// Every element of a filtered sequence passes the filter.
pub proof fn lemma_filter_passes<A>(s: Seq<A>, p: spec_fn(A) -> bool)
    ensures
        forall|i: int| 0 <= i < s.filter(p).len() ==> p(#[trigger] s.filter(p)[i]),
{
    assert forall|i: int| 0 <= i < s.filter(p).len() implies p(#[trigger] s.filter(p)[i]) by {
        s.lemma_filter_pred(p, i);
    }
}

/// Filtering twice keeps no more than the second filter alone; it keeps the
/// same where the second filter implies the first.
pub proof fn lemma_filter_of_filtered<A>(s: Seq<A>, q: spec_fn(A) -> bool, p: spec_fn(A) -> bool)
    ensures
        s.filter(q).filter(p).len() <= s.filter(p).len(),
        (forall|x: A| #[trigger] p(x) ==> q(x)) ==> s.filter(q).filter(p) == s.filter(p),
    decreases s.len(),
{
    reveal(Seq::filter);
    if s.len() > 0 {
        let rest = s.drop_last();
        let x = s.last();
        lemma_filter_of_filtered(rest, q, p);
        assert(s =~= rest.push(x));
        rest.lemma_filter_push(x, q);
        rest.lemma_filter_push(x, p);
        rest.filter(q).lemma_filter_push(x, p);
    }
}

} // verus!
