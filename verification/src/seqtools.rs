//! Small shared lemmas about filtering prefixes of a sequence, used by the
//! passes that build filtered vectors element by element.

use vstd::prelude::*;

verus! {

/// Extending a prefix by one element extends its filtered image by that
/// element exactly when the element passes the filter.
pub proof fn lemma_filter_take_step<A>(s: Seq<A>, pred: spec_fn(A) -> bool, i: int)
    requires
        0 <= i < s.len(),
    ensures
        s.take(i + 1).filter(pred) == if pred(s[i]) {
            s.take(i).filter(pred).push(s[i])
        } else {
            s.take(i).filter(pred)
        },
{
    let a = s.take(i + 1);
    assert(a.drop_last() =~= s.take(i));
    assert(a.last() == s[i]);
    reveal_with_fuel(Seq::filter, 2);
}

/// The empty prefix filters to the empty sequence.
pub proof fn lemma_filter_empty<A>(s: Seq<A>, pred: spec_fn(A) -> bool)
    ensures
        s.take(0).filter(pred) =~= Seq::<A>::empty(),
{
    assert(s.take(0) =~= Seq::<A>::empty());
    reveal_with_fuel(Seq::filter, 2);
}

} // verus!
