//! Helper lemmas about element-wise views of sequences.

use vstd::prelude::*;

verus! {

/// The element-wise deep view of a sequence.
pub open spec fn deep<T: DeepView>(s: Seq<T>) -> Seq<T::V> {
    Seq::new(s.len(), |i: int| s[i].deep_view())
}

pub proof fn lemma_deep_push<T: DeepView>(s: Seq<T>, x: T)
    ensures
        deep(s.push(x)) =~= deep(s).push(x.deep_view()),
{
}


} // verus!
