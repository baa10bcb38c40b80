//! Stable insertion sort for the lists the collectors order (services by name, sockets by
//! priority, processes by load).

use vstd::prelude::*;

verus! {

/// An order in which items may be listed: `goes_before(a, b)` says that `a` may stand before
/// `b`. It is total and transitive; items for which it holds both ways keep their input order.
pub trait SortKey: Sized {
    spec fn goes_before(a: Self, b: Self) -> bool;

    proof fn goes_before_total(a: Self, b: Self)
        ensures
            Self::goes_before(a, b) || Self::goes_before(b, a),
    ;

    proof fn goes_before_transitive(a: Self, b: Self, c: Self)
        requires
            Self::goes_before(a, b),
            Self::goes_before(b, c),
        ensures
            Self::goes_before(a, c),
    ;

    fn sorts_before(&self, other: &Self) -> (r: bool)
        ensures
            r == Self::goes_before(*self, *other),
    ;
}

/// Where `x` is inserted into the sorted `s`: after the last item that may stand before it.
pub open spec fn insert_position<T: SortKey>(s: Seq<T>, x: T) -> nat
    decreases s.len(),
{
    if s.len() == 0 {
        0
    } else if T::goes_before(s.last(), x) {
        s.len()
    } else {
        insert_position(s.drop_last(), x)
    }
}

/// `s` in order, equal items keeping their input order: each item in turn is inserted after
/// the items already placed that may stand before it.
pub open spec fn stable_sorted<T: SortKey>(s: Seq<T>) -> Seq<T>
    decreases s.len(),
{
    if s.len() == 0 {
        s
    } else {
        let r = stable_sorted(s.drop_last());
        r.insert(insert_position(r, s.last()) as int, s.last())
    }
}

/// Every item may stand before every later one.
pub open spec fn in_order<T: SortKey>(s: Seq<T>) -> bool {
    forall|i: int, j: int| 0 <= i < j < s.len() ==> T::goes_before(#[trigger] s[i], #[trigger] s[j])
}

/// The items of `v` in stable order.
pub fn sort_stable<T: SortKey>(v: Vec<T>) -> (r: Vec<T>)
    ensures
        r@ == stable_sorted(v@),
{
    let ghost input = v@;
    let total = v.len();
    let mut rest = v;
    let mut out: Vec<T> = Vec::new();
    let mut i: usize = 0;
    assert(input.skip(0) =~= input);
    assert(input.take(0) =~= Seq::<T>::empty());
    while rest.len() > 0
        invariant
            i <= input.len(),
            total == input.len(),
            rest@ == input.skip(i as int),
            out@ == stable_sorted(input.take(i as int)),
        decreases rest.len(),
    {
        let x = rest.remove(0);
        assert(x == input[i as int]);
        assert(rest@ =~= input.skip(i + 1));
        let mut j = out.len();
        assert(out@.take(j as int) =~= out@);
        while j > 0 && !out[j - 1].sorts_before(&x)
            invariant
                j <= out@.len(),
                insert_position(out@, x) == insert_position(out@.take(j as int), x),
            decreases j,
        {
            assert(out@.take(j as int).drop_last() =~= out@.take(j - 1));
            j = j - 1;
        }
        proof {
            if j > 0 {
                assert(out@.take(j as int).last() == out@[j - 1]);
            }
        }
        let ghost placed = out@;
        out.insert(j, x);
        assert(input.take(i + 1).drop_last() =~= input.take(i as int));
        assert(input.take(i + 1).last() == x);
        i = i + 1;
    }
    assert(input.take(i as int) =~= input);
    out
}

proof fn lemma_insert_position<T: SortKey>(s: Seq<T>, x: T)
    ensures
        insert_position(s, x) <= s.len(),
        insert_position(s, x) > 0 ==> T::goes_before(s[insert_position(s, x) - 1], x),
        forall|q: int| insert_position(s, x) <= q < s.len() ==> !T::goes_before(#[trigger] s[q], x),
    decreases s.len(),
{
    if s.len() > 0 && !T::goes_before(s.last(), x) {
        lemma_insert_position(s.drop_last(), x);
        let p = insert_position(s.drop_last(), x);
        assert forall|q: int| p <= q < s.len() implies !T::goes_before(#[trigger] s[q], x) by {
            if q < s.len() - 1 {
                assert(s[q] == s.drop_last()[q]);
            }
        }
    }
}

/// Law: the stable order is in order and holds exactly the input items, each as often.
pub proof fn stable_sort_orders_and_permutes<T: SortKey>(s: Seq<T>)
    ensures
        in_order(stable_sorted(s)),
        stable_sorted(s).to_multiset() == s.to_multiset(),
        stable_sorted(s).len() == s.len(),
    decreases s.len(),
{
    broadcast use vstd::seq_lib::to_multiset_insert, vstd::seq_lib::to_multiset_build;

    if s.len() > 0 {
        stable_sort_orders_and_permutes(s.drop_last());
        let r = stable_sorted(s.drop_last());
        let x = s.last();
        let p = insert_position(r, x) as int;
        lemma_insert_position(r, x);
        let out = r.insert(p, x);
        assert(out == stable_sorted(s));
        assert forall|i: int, j: int| 0 <= i < j < out.len() implies T::goes_before(
            #[trigger] out[i],
            #[trigger] out[j],
        ) by {
            if j < p {
                assert(out[i] == r[i] && out[j] == r[j]);
            } else if j == p {
                assert(out[i] == r[i]);
                if i < p - 1 {
                    T::goes_before_transitive(r[i], r[p - 1], x);
                }
            } else if i == p {
                assert(out[j] == r[j - 1]);
                T::goes_before_total(r[j - 1], x);
            } else if i < p {
                assert(out[i] == r[i] && out[j] == r[j - 1]);
            } else {
                assert(out[i] == r[i - 1] && out[j] == r[j - 1]);
            }
        }
        assert(s =~= s.drop_last().push(x));
    }
}

} // verus!
