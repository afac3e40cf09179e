//! The order in which the items of an import are worked through.

use vstd::prelude::*;
use itertools::Itertools;
use crate::models::ImportOrExportItem;

verus! {

/// No item is followed by one with less activity.
pub open spec fn ascending_by_activity(items: Seq<ImportOrExportItem>) -> bool {
    forall|i: int, j: int|
        0 <= i < j < items.len() ==> items[i].activity_spec() <= items[j].activity_spec()
}

/// No item is followed by one with more activity.
pub open spec fn descending_by_activity(items: Seq<ImportOrExportItem>) -> bool {
    forall|i: int, j: int|
        0 <= i < j < items.len() ==> items[i].activity_spec() >= items[j].activity_spec()
}

/// `Itertools::sorted_unstable_by_key` of itertools, keyed by each item's
/// activity, and `Itertools::collect_vec` on what it returns. The items come
/// back rearranged, none lost and none added, each followed only by items of
/// the same or greater activity. Which of two items of equal activity comes
/// first is left open.
#[verifier::external_body]
fn sorted_by_activity(items: Vec<ImportOrExportItem>) -> (sorted: Vec<ImportOrExportItem>)
    ensures
        sorted@.to_multiset() == items@.to_multiset(),
        ascending_by_activity(sorted@),
{
    items.into_iter().sorted_unstable_by_key(|item| item.activity()).collect_vec()
}

/// The items with the most activity first: sorted by activity and then
/// turned round.
pub fn most_active_first(items: Vec<ImportOrExportItem>) -> (ordered: Vec<ImportOrExportItem>)
    ensures
        ordered@.to_multiset() == items@.to_multiset(),
        ordered@.len() == items@.len(),
        descending_by_activity(ordered@),
{
    let mut ascending = sorted_by_activity(items);
    let ghost sorted = ascending@;
    let mut ordered: Vec<ImportOrExportItem> = Vec::new();
    while ascending.len() > 0
        invariant
            ascending@.len() + ordered@.len() == sorted.len(),
            ascending@ == sorted.subrange(0, ascending@.len() as int),
            forall|k: int|
                0 <= k < ordered@.len() ==> ordered@[k] == sorted[sorted.len() - 1 - k],
        decreases ascending.len(),
    {
        let item = ascending.pop().unwrap();
        ordered.push(item);
    }
    proof {
        assert(ordered@ =~= sorted.reverse());
        sorted.lemma_reverse_to_multiset();
        sorted.to_multiset_ensures();
        items@.to_multiset_ensures();
    }
    ordered
}

/// Once an item without any activity has been reached, only such items
/// follow: they all stand at the end.
pub proof fn idle_items_come_last(items: Seq<ImportOrExportItem>, i: int, j: int)
    requires
        descending_by_activity(items),
        0 <= i <= j < items.len(),
        items[i].activity_spec() == 0,
    ensures
        items[j].activity_spec() == 0,
{
}

} // verus!
