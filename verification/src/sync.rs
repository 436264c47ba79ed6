//! The batch pipeline that mirrors upstream work items: fetch, log each item
//! to the ledger, then cache every item that the ledger took.
//!
//! Fetching and logging to the ledger are done by whoever drives the
//! pipeline; what to make of their outcomes is decided here.

use vstd::prelude::*;
use crate::connection::Tables;
use crate::database::API;
use crate::domain::{WorkItem, WorkItemId};
use crate::errors::{FetchError, LedgerError};

verus! {

/// How a batch went: how many items the ledger took, out of how many.
#[derive(Clone, Copy, Debug, PartialEq, Eq, Structural)]
pub struct BatchReport {
    pub succeeded: usize,
    pub total: usize,
}

/// The item of an outcome, where the ledger took it.
pub open spec fn logged(outcome: Result<WorkItem, LedgerError>) -> Option<WorkItem> {
    match outcome {
        Ok(item) => Some(item),
        Err(_) => None,
    }
}

/// `logged`, as a function value.
pub open spec fn logged_item() -> spec_fn(Result<WorkItem, LedgerError>) -> Option<WorkItem> {
    |outcome: Result<WorkItem, LedgerError>| logged(outcome)
}

/// The items that the ledger took, in the order of their outcomes.
pub open spec fn succeeded_items(outcomes: Seq<Result<WorkItem, LedgerError>>) -> Seq<WorkItem> {
    outcomes.filter_map(logged_item())
}

/// The table of work items after caching each of `items` in turn, a later
/// item replacing an earlier one of the same identity.
pub open spec fn persisted(table: Map<WorkItemId, WorkItem>, items: Seq<WorkItem>) -> Map<
    WorkItemId,
    WorkItem,
>
    decreases items.len(),
{
    if items.len() == 0 {
        table
    } else {
        persisted(table, items.drop_last()).insert(items.last().id, items.last())
    }
}

/// Decides whether a fetch gives a batch to work on: an upstream that could
/// not be reached, or that had nothing, ends the batch before it starts.
pub fn start_batch(fetched: Result<Vec<WorkItem>, FetchError>) -> (batch: Result<
    Vec<WorkItem>,
    FetchError,
>)
    ensures
        batch == (match fetched {
            Ok(items) => if items@.len() == 0 {
                Err(FetchError::Empty)
            } else {
                Ok(items)
            },
            Err(error) => Err(error),
        }),
{
    match fetched {
        Ok(items) => if items.len() == 0 {
            Err(FetchError::Empty)
        } else {
            Ok(items)
        },
        Err(error) => Err(error),
    }
}

/// The items that the ledger took, in the order of their outcomes: those
/// to cache.
pub fn succeeded(outcomes: &Vec<Result<WorkItem, LedgerError>>) -> (items: Vec<WorkItem>)
    ensures
        items@ == succeeded_items(outcomes@),
{
    let mut items: Vec<WorkItem> = Vec::new();
    let mut index: usize = 0;
    proof {
        assert(outcomes@.take(0) =~= Seq::<Result<WorkItem, LedgerError>>::empty());
    }
    while index < outcomes.len()
        invariant
            index <= outcomes@.len(),
            items@ == succeeded_items(outcomes@.take(index as int)),
        decreases outcomes@.len() - index,
    {
        proof {
            outcomes@.lemma_filter_map_take_succ(logged_item(), index as int);
        }
        match &outcomes[index] {
            Ok(item) => {
                items.push(*item);
            },
            Err(_) => {},
        }
        index += 1;
    }
    proof {
        assert(outcomes@.take(index as int) =~= outcomes@);
    }
    items
}

/// Counts the batch: the items that the ledger took, and all of them. A
/// partial failure is no error of the batch; it shows in the counts.
pub fn report(outcomes: &Vec<Result<WorkItem, LedgerError>>) -> (report: BatchReport)
    ensures
        report.total == outcomes@.len(),
        report.succeeded == succeeded_items(outcomes@).len(),
        report.succeeded <= report.total,
{
    let mut count: usize = 0;
    let mut index: usize = 0;
    proof {
        assert(outcomes@.take(0) =~= Seq::<Result<WorkItem, LedgerError>>::empty());
    }
    while index < outcomes.len()
        invariant
            index <= outcomes@.len(),
            count == succeeded_items(outcomes@.take(index as int)).len(),
            count <= index,
        decreases outcomes@.len() - index,
    {
        proof {
            outcomes@.lemma_filter_map_take_succ(logged_item(), index as int);
        }
        match &outcomes[index] {
            Ok(_) => {
                count += 1;
            },
            Err(_) => {},
        }
        index += 1;
    }
    proof {
        assert(outcomes@.take(index as int) =~= outcomes@);
    }
    BatchReport { succeeded: count, total: outcomes.len() }
}

/// The second phase of a batch: caches every item that the ledger took, in
/// the order of the outcomes, leaves the others alone, and counts the batch.
pub fn cache_log(cache: &mut API, outcomes: &Vec<Result<WorkItem, LedgerError>>) -> (report:
    BatchReport)
    ensures
        final(cache)@ == (Tables {
            work_items: persisted(old(cache)@.work_items, succeeded_items(outcomes@)),
            ..old(cache)@
        }),
        old(cache)@.keyed() ==> final(cache)@.keyed(),
        report.total == outcomes@.len(),
        report.succeeded == succeeded_items(outcomes@).len(),
{
    let items = succeeded(outcomes);
    let mut index: usize = 0;
    proof {
        assert(items@.take(0) =~= Seq::<WorkItem>::empty());
    }
    while index < items.len()
        invariant
            index <= items@.len(),
            cache@ == (Tables {
                work_items: persisted(old(cache)@.work_items, items@.take(index as int)),
                ..old(cache)@
            }),
            old(cache)@.keyed() ==> cache@.keyed(),
        decreases items@.len() - index,
    {
        proof {
            let longer = items@.take(index as int + 1);
            assert(longer.drop_last() =~= items@.take(index as int));
            assert(longer.last() == items@[index as int]);
        }
        cache.upsert_work_item(items[index]);
        index += 1;
    }
    proof {
        assert(items@.take(index as int) =~= items@);
    }
    report(outcomes)
}

/// Whether some item of `items` has the identity `id`.
pub open spec fn mentions(items: Seq<WorkItem>, id: WorkItemId) -> bool {
    exists|i: int| 0 <= i < items.len() && (#[trigger] items[i]).id == id
}

/// Caching a batch touches exactly the items it holds: an identity that no
/// item of the batch has is cached afterwards as it was before, or not at
/// all, and every item of the batch is cached afterwards under its
/// identity, as the last item of that identity in the batch.
pub proof fn lemma_persisted_touches_its_items_only(
    table: Map<WorkItemId, WorkItem>,
    items: Seq<WorkItem>,
    id: WorkItemId,
)
    ensures
        !mentions(items, id) ==> persisted(table, items).contains_key(id) == table.contains_key(id)
            && (table.contains_key(id) ==> persisted(table, items)[id] == table[id]),
        mentions(items, id) ==> persisted(table, items).contains_key(id) && persisted(
            table,
            items,
        )[id].id == id && items.contains(persisted(table, items)[id]),
    decreases items.len(),
{
    if items.len() > 0 {
        let earlier = items.drop_last();
        lemma_persisted_touches_its_items_only(table, earlier, id);
        if mentions(items, id) {
            if items.last().id == id {
                assert(items[items.len() - 1] == items.last());
            } else {
                let i = choose|i: int| 0 <= i < items.len() && (#[trigger] items[i]).id == id;
                assert(earlier[i] == items[i]);
                assert(mentions(earlier, id));
                let kept = persisted(table, earlier)[id];
                let j = choose|j: int| 0 <= j < earlier.len() && earlier[j] == kept;
                assert(items[j] == kept);
            }
        } else {
            assert forall|i: int| 0 <= i < earlier.len() implies (#[trigger] earlier[i]).id
                != id by {
                assert(items[i] == earlier[i]);
            }
        }
    }
}

/// The ledger's failures never reach the cache: every item cached by a
/// batch is the item of an outcome that succeeded.
pub proof fn lemma_failed_items_are_not_cached(
    outcomes: Seq<Result<WorkItem, LedgerError>>,
    item: WorkItem,
)
    requires
        succeeded_items(outcomes).contains(item),
    ensures
        outcomes.contains(Ok(item)),
{
    outcomes.lemma_filter_map_contains(logged_item(), item);
    let i = choose|i: int|
        0 <= i < outcomes.len() && #[trigger] logged_item()(outcomes[i]) == Some(item);
    assert(outcomes[i] == Ok::<WorkItem, LedgerError>(item));
}

} // verus!
