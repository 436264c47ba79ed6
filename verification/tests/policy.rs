use deathnote_contributions_feeder::connection::Connection;
use deathnote_contributions_feeder::database::API;
use deathnote_contributions_feeder::domain::{
    Action, Contribution, ContributionId, ContributorId, ProjectId,
};
use deathnote_contributions_feeder::worker::{backoff_millis, route};

#[test]
fn backoff_doubles_up_to_the_cap() {
    assert_eq!(backoff_millis(0, 100, 1_000), 100);
    assert_eq!(backoff_millis(1, 100, 1_000), 200);
    assert_eq!(backoff_millis(2, 100, 1_000), 400);
    assert_eq!(backoff_millis(3, 100, 1_000), 800);
    assert_eq!(backoff_millis(4, 100, 1_000), 1_000);
    assert_eq!(backoff_millis(5, 100, 1_000), 1_000);
    assert_eq!(backoff_millis(u32::MAX, 100, 1_000), 1_000);
}

#[test]
fn backoff_edge_cases() {
    assert_eq!(backoff_millis(0, 5_000, 1_000), 1_000);
    assert_eq!(backoff_millis(7, 5_000, 1_000), 1_000);
    assert_eq!(backoff_millis(u32::MAX, 0, 1_000), 0);
    assert_eq!(backoff_millis(3, 1, 0), 0);
    assert_eq!(backoff_millis(63, 1, u64::MAX), 1 << 63);
    assert_eq!(backoff_millis(64, 1, u64::MAX), u64::MAX);
    assert_eq!(backoff_millis(1, 500, 1_000), 1_000);
    assert_eq!(backoff_millis(1, 501, 1_000), 1_000);
}

#[test]
fn actions_on_one_contribution_share_a_worker() {
    let assign = Action::AssignContributor {
        contribution_id: ContributionId(14),
        contributor_id: ContributorId(2),
    };
    let validate = Action::ValidateContribution { contribution_id: ContributionId(14) };
    let create = Action::CreateContribution {
        contribution: Contribution::new(ContributionId(14), ProjectId(1), 1),
    };
    assert_eq!(route(&assign, 4), Some(2));
    assert_eq!(route(&validate, 4), Some(2));
    assert_eq!(route(&create, 4), Some(2));
    assert_eq!(route(&assign, 1), Some(0));
    assert_eq!(route(&assign, 5), Some(4));
    assert_eq!(route(&assign, 0), None);
}

#[test]
fn cache_layer_shows_its_connection() {
    let mut api = API::new(Connection::new());
    let contribution = Contribution::new(ContributionId(2), ProjectId(1), 5);
    api.apply_confirmed(&Action::CreateContribution { contribution }, "0x10").unwrap();
    let row = api.connection().contribution(ContributionId(2)).unwrap();
    assert_eq!(row.contribution, contribution);
    assert_eq!(row.transaction_hash, Some("0x10".to_string()));
    assert!(api.connection().contribution(ContributionId(3)).is_none());
}
