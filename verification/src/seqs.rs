//! Facts about sequences used by the list proofs.

use vstd::prelude::*;

verus! {

/// The items that a sequence of references points to.
pub open spec fn derefs<A>(s: Seq<&A>) -> Seq<A> {
    s.map_values(|p: &A| *p)
}

/// Pushing a reference pushes the item it points to.
pub proof fn lemma_derefs_push<A>(s: Seq<&A>, x: &A)
    ensures
        derefs(s.push(x)) == derefs(s).push(*x),
{
    assert(derefs(s.push(x)) =~= derefs(s).push(*x));
}

/// Filtering one more item of a prefix keeps the earlier result and adds the item when it
/// passes.
pub proof fn lemma_filter_step<A>(s: Seq<A>, pred: spec_fn(A) -> bool, i: int)
    requires
        0 <= i < s.len(),
    ensures
        s.take(i + 1).filter(pred) == (if pred(s[i]) {
            s.take(i).filter(pred).push(s[i])
        } else {
            s.take(i).filter(pred)
        }),
{
    reveal(Seq::filter);
    assert(s.take(i + 1).drop_last() =~= s.take(i));
    assert(s.take(i + 1).last() == s[i]);
}

/// Filtering an appended sequence filters each part.
pub proof fn lemma_filter_append<A>(a: Seq<A>, b: Seq<A>, pred: spec_fn(A) -> bool)
    ensures
        (a + b).filter(pred) == a.filter(pred) + b.filter(pred),
    decreases b.len(),
{
    reveal(Seq::filter);
    if b.len() == 0 {
        assert(a + b =~= a);
        assert(a.filter(pred) + b.filter(pred) =~= a.filter(pred));
    } else {
        lemma_filter_append(a, b.drop_last(), pred);
        assert((a + b).drop_last() =~= a + b.drop_last());
        assert((a + b).last() == b.last());
        if pred(b.last()) {
            assert(a.filter(pred) + b.drop_last().filter(pred).push(b.last()) =~= (a.filter(pred)
                + b.drop_last().filter(pred)).push(b.last()));
        }
    }
}

/// Filtering keeps everything when every item passes.
pub proof fn lemma_filter_all<A>(s: Seq<A>, pred: spec_fn(A) -> bool)
    requires
        forall|i: int| 0 <= i < s.len() ==> pred(#[trigger] s[i]),
    ensures
        s.filter(pred) == s,
    decreases s.len(),
{
    reveal(Seq::filter);
    if s.len() > 0 {
        lemma_filter_all(s.drop_last(), pred);
        assert(s.drop_last().push(s.last()) =~= s);
    }
}

/// The whole of a sequence is its longest prefix.
pub proof fn lemma_take_all<A>(s: Seq<A>)
    ensures
        s.take(s.len() as int) == s,
{
    assert(s.take(s.len() as int) =~= s);
}

} // verus!
