//! Picking among probed candidates: the caller probes each candidate path
//! in order and the first one found wins.

use vstd::prelude::*;

verus! {

/// The index of the first candidate the probe found, if any.
pub open spec fn first_present(present: Seq<bool>) -> Option<int>
    decreases present.len(),
{
    if present.len() == 0 {
        None
    } else if present[0] {
        Some(0)
    } else {
        match first_present(present.drop_first()) {
            Some(i) => Some(i + 1),
            None => None,
        }
    }
}

/// Where the first found candidate lies: the first `true`, with only
/// `false` before it; when nothing was found, every answer is `false`.
pub(crate) proof fn lemma_first_present_bounds(present: Seq<bool>)
    ensures
        first_present(present) matches Some(i) ==> 0 <= i < present.len() && present[i] && forall|
            j: int,
        | 0 <= j < i ==> !present[j],
        first_present(present) is None ==> forall|j: int| 0 <= j < present.len() ==> !present[j],
    decreases present.len(),
{
    if present.len() > 0 {
        lemma_first_present_bounds(present.drop_first());
        if !present[0] {
            assert forall|j: int| 1 <= j < present.len() implies present[j] == present.drop_first()[j
                - 1] by {}
        }
    }
}

} // verus!
