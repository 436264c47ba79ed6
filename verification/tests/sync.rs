use deathnote_contributions_feeder::connection::Connection;
use deathnote_contributions_feeder::database::API;
use deathnote_contributions_feeder::domain::{ProjectId, WorkItem, WorkItemId, WorkItemStatus};
use deathnote_contributions_feeder::errors::{FetchError, LedgerError};
use deathnote_contributions_feeder::sync::{cache_log, report, start_batch, succeeded, BatchReport};

fn item(id: u64) -> WorkItem {
    WorkItem {
        id: WorkItemId(id),
        project_id: ProjectId(1),
        author: 600 + id,
        status: WorkItemStatus::Merged,
        last_ledger_update_time: Some(1_660_000_000 + id),
    }
}

fn five_with_third_failing() -> Vec<Result<WorkItem, LedgerError>> {
    vec![Ok(item(1)), Ok(item(2)), Err(LedgerError::Transient), Ok(item(4)), Ok(item(5))]
}

#[test]
fn partial_failure_caches_the_four_that_succeeded() {
    let mut cache = API::new(Connection::new());
    let outcomes = five_with_third_failing();
    let counted = cache_log(&mut cache, &outcomes);
    assert_eq!(counted, BatchReport { succeeded: 4, total: 5 });
    for id in [1, 2, 4, 5] {
        assert_eq!(cache.work_item(WorkItemId(id)), Some(item(id)));
    }
    assert_eq!(cache.work_item(WorkItemId(3)), None);
}

#[test]
fn report_counts_successes_and_total() {
    assert_eq!(report(&five_with_third_failing()), BatchReport { succeeded: 4, total: 5 });
    assert_eq!(report(&vec![]), BatchReport { succeeded: 0, total: 0 });
    assert_eq!(
        report(&vec![Err(LedgerError::Rejected), Err(LedgerError::Transient)]),
        BatchReport { succeeded: 0, total: 2 }
    );
}

#[test]
fn succeeded_keeps_order_and_drops_failures() {
    assert_eq!(succeeded(&five_with_third_failing()), vec![item(1), item(2), item(4), item(5)]);
    assert_eq!(succeeded(&vec![Err(LedgerError::Rejected)]), vec![]);
}

#[test]
fn later_item_replaces_earlier_one_of_same_identity() {
    let mut cache = API::new(Connection::new());
    cache.upsert_work_item(WorkItem { status: WorkItemStatus::Open, ..item(1) });
    cache.upsert_work_item(WorkItem { status: WorkItemStatus::Draft, ..item(7) });
    let newer = WorkItem { status: WorkItemStatus::Closed, ..item(1) };
    let counted = cache_log(&mut cache, &vec![Ok(item(1)), Err(LedgerError::Rejected), Ok(newer)]);
    assert_eq!(counted, BatchReport { succeeded: 2, total: 3 });
    assert_eq!(cache.work_item(WorkItemId(1)), Some(newer));
    assert_eq!(
        cache.work_item(WorkItemId(7)),
        Some(WorkItem { status: WorkItemStatus::Draft, ..item(7) })
    );
}

#[test]
fn unreachable_or_empty_upstream_is_fatal() {
    assert_eq!(start_batch(Err(FetchError::Unreachable)), Err(FetchError::Unreachable));
    assert_eq!(start_batch(Ok(vec![])), Err(FetchError::Empty));
    assert_eq!(start_batch(Ok(vec![item(1), item(2)])), Ok(vec![item(1), item(2)]));
}

#[test]
fn upstream_status_of_a_pull_request() {
    assert_eq!(WorkItemStatus::from_upstream(true, true, false), WorkItemStatus::Merged);
    assert_eq!(WorkItemStatus::from_upstream(true, false, true), WorkItemStatus::Merged);
    assert_eq!(WorkItemStatus::from_upstream(false, true, true), WorkItemStatus::Closed);
    assert_eq!(WorkItemStatus::from_upstream(false, false, true), WorkItemStatus::Draft);
    assert_eq!(WorkItemStatus::from_upstream(false, false, false), WorkItemStatus::Open);
}

#[test]
fn work_item_status_names_round_trip() {
    assert_eq!(WorkItemStatus::Open.to_string(), "OPEN");
    assert_eq!(WorkItemStatus::Draft.to_string(), "DRAFT");
    assert_eq!(WorkItemStatus::Merged.to_string(), "MERGED");
    assert_eq!(WorkItemStatus::Closed.to_string(), "CLOSED");
    for status in [
        WorkItemStatus::Open,
        WorkItemStatus::Draft,
        WorkItemStatus::Merged,
        WorkItemStatus::Closed,
    ] {
        assert_eq!(WorkItemStatus::parse(&status.to_string()).unwrap(), status);
    }
    assert!(WorkItemStatus::parse("PENDING").is_err());
}
