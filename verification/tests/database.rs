use deathnote_contributions_feeder::connection::Connection;
use deathnote_contributions_feeder::database::{
    assign_contribution, cache_write, new_contribution, plan_confirmed, unassign_contribution,
    validate_contribution, API,
};
use deathnote_contributions_feeder::domain::{
    Action, ActionKind, Contribution, ContributionId, ContributionStatus, ContributorId,
    ProjectFilter, ProjectId,
};
use deathnote_contributions_feeder::errors::{BatchFailure, StateError, StoreError};
use deathnote_contributions_feeder::models::{CacheWrite, ContributionRow};

fn contribution(id: u64) -> Contribution {
    Contribution::new(ContributionId(id), ProjectId(3), 100 + id)
}

fn create(id: u64) -> Action {
    Action::CreateContribution { contribution: contribution(id) }
}

fn assign(id: u64, contributor: u64) -> Action {
    Action::AssignContributor {
        contribution_id: ContributionId(id),
        contributor_id: ContributorId(contributor),
    }
}

fn unassign(id: u64) -> Action {
    Action::UnassignContributor { contribution_id: ContributionId(id) }
}

fn validate(id: u64) -> Action {
    Action::ValidateContribution { contribution_id: ContributionId(id) }
}

fn row_of(api: &API, id: u64) -> (Contribution, Option<String>) {
    let row = api.contribution(ContributionId(id)).expect("row");
    (row.contribution, row.transaction_hash)
}

#[test]
fn create_inserts_open_row_with_reference() {
    let mut api = API::new(Connection::new());
    assert!(api.contribution(ContributionId(1)).is_none());
    assert_eq!(api.apply_confirmed(&create(1), "0x01"), Ok(()));
    assert_eq!(row_of(&api, 1), (contribution(1), Some("0x01".to_string())));
}

#[test]
fn assign_sets_status_contributor_and_reference() {
    let mut api = API::new(Connection::new());
    api.apply_confirmed(&create(1), "0x01").unwrap();
    assert_eq!(api.apply_confirmed(&assign(1, 8), "0xabc"), Ok(()));
    let expected = Contribution {
        status: ContributionStatus::Assigned,
        contributor_id: Some(ContributorId(8)),
        ..contribution(1)
    };
    assert_eq!(row_of(&api, 1), (expected, Some("0xabc".to_string())));
}

#[test]
fn unassign_clears_contributor() {
    let mut api = API::new(Connection::new());
    api.apply_confirmed(&create(1), "0x01").unwrap();
    api.apply_confirmed(&assign(1, 8), "0x02").unwrap();
    assert_eq!(api.apply_confirmed(&unassign(1), "0x03"), Ok(()));
    assert_eq!(row_of(&api, 1), (contribution(1), Some("0x03".to_string())));
}

#[test]
fn validate_completes_and_keeps_contributor() {
    let mut api = API::new(Connection::new());
    api.apply_confirmed(&create(1), "0x01").unwrap();
    api.apply_confirmed(&assign(1, 8), "0x02").unwrap();
    assert_eq!(api.apply_confirmed(&validate(1), "0x04"), Ok(()));
    let expected = Contribution {
        status: ContributionStatus::Completed,
        contributor_id: Some(ContributorId(8)),
        ..contribution(1)
    };
    assert_eq!(row_of(&api, 1), (expected, Some("0x04".to_string())));
}

#[test]
fn same_pair_twice_is_a_no_op() {
    for action in [assign(1, 8), unassign(1), validate(1)] {
        let mut api = API::new(Connection::new());
        api.apply_confirmed(&create(1), "0x01").unwrap();
        if action.kind() != ActionKind::Assign {
            api.apply_confirmed(&assign(1, 8), "0x02").unwrap();
        }
        assert_eq!(api.apply_confirmed(&action, "0xaa"), Ok(()));
        let once = row_of(&api, 1);
        assert_eq!(api.apply_confirmed(&action, "0xaa"), Ok(()));
        assert_eq!(row_of(&api, 1), once);
    }
    let mut api = API::new(Connection::new());
    assert_eq!(api.apply_confirmed(&create(1), "0x01"), Ok(()));
    assert_eq!(api.apply_confirmed(&create(1), "0x01"), Ok(()));
    assert_eq!(row_of(&api, 1), (contribution(1), Some("0x01".to_string())));
}

#[test]
fn second_creation_under_other_reference_is_refused() {
    let mut api = API::new(Connection::new());
    api.apply_confirmed(&create(1), "0x01").unwrap();
    assert_eq!(
        api.apply_confirmed(&create(1), "0x02"),
        Err(StoreError::Refused(StateError::AlreadyExists))
    );
    assert_eq!(row_of(&api, 1), (contribution(1), Some("0x01".to_string())));
}

#[test]
fn same_action_under_other_reference_follows_the_rules() {
    let mut api = API::new(Connection::new());
    api.apply_confirmed(&create(1), "0x01").unwrap();
    api.apply_confirmed(&assign(1, 8), "0x02").unwrap();
    assert_eq!(
        api.apply_confirmed(&assign(1, 8), "0x03"),
        Err(StoreError::Refused(StateError::IllegalTransition {
            from: Some(ContributionStatus::Assigned),
            action: ActionKind::Assign,
        }))
    );
    assert_eq!(row_of(&api, 1).1, Some("0x02".to_string()));
}

#[test]
fn update_of_missing_row_is_refused() {
    let mut api = API::new(Connection::new());
    assert_eq!(
        api.apply_confirmed(&validate(5), "0x01"),
        Err(StoreError::Refused(StateError::IllegalTransition {
            from: None,
            action: ActionKind::Validate,
        }))
    );
    assert!(api.contribution(ContributionId(5)).is_none());
}

#[test]
fn batch_applies_in_order() {
    let mut api = API::new(Connection::new());
    let batch = [create(1), create(2), assign(1, 8), validate(1), assign(2, 9), unassign(2)];
    assert_eq!(api.execute_actions(&batch, "0xbatch"), Ok(()));
    let first = Contribution {
        status: ContributionStatus::Completed,
        contributor_id: Some(ContributorId(8)),
        ..contribution(1)
    };
    assert_eq!(row_of(&api, 1), (first, Some("0xbatch".to_string())));
    assert_eq!(row_of(&api, 2), (contribution(2), Some("0xbatch".to_string())));
}

#[test]
fn batch_stops_at_first_failure_and_keeps_what_was_applied() {
    let mut api = API::new(Connection::new());
    let batch = [create(1), assign(1, 8), validate(2), unassign(1)];
    assert_eq!(
        api.execute_actions(&batch, "0xbatch"),
        Err(BatchFailure {
            index: 2,
            error: StoreError::Refused(StateError::IllegalTransition {
                from: None,
                action: ActionKind::Validate,
            }),
        })
    );
    let first = Contribution {
        status: ContributionStatus::Assigned,
        contributor_id: Some(ContributorId(8)),
        ..contribution(1)
    };
    assert_eq!(row_of(&api, 1), (first, Some("0xbatch".to_string())));
    assert!(api.contribution(ContributionId(2)).is_none());
}

#[test]
fn empty_batch_changes_nothing() {
    let mut api = API::new(Connection::new());
    assert_eq!(api.execute_actions(&[], "0x00"), Ok(()));
    assert!(api.contribution(ContributionId(1)).is_none());
}

#[test]
fn forms_carry_what_the_action_says() {
    let form = new_contribution(
        Contribution {
            status: ContributionStatus::Assigned,
            contributor_id: Some(ContributorId(2)),
            ..contribution(1)
        },
        Some("0x01".to_string()),
    );
    assert_eq!(form.id, ContributionId(1));
    assert_eq!(form.project_id, ProjectId(3));
    assert_eq!(form.reference, 101);
    assert_eq!(form.status, ContributionStatus::Open);
    assert_eq!(form.contributor_id, None);
    assert_eq!(form.transaction_hash, Some("0x01".to_string()));

    let form = assign_contribution(ContributionId(1), ContributorId(8), Some("0x02".to_string()));
    assert_eq!(form.id, ContributionId(1));
    assert_eq!(form.status, ContributionStatus::Assigned);
    assert_eq!(form.contributor_id, Some(ContributorId(8)));
    assert_eq!(form.transaction_hash, Some("0x02".to_string()));

    let form = unassign_contribution(ContributionId(1), None);
    assert_eq!(form.status, ContributionStatus::Open);
    assert_eq!(form.contributor_id, None);
    assert_eq!(form.transaction_hash, None);

    let form = validate_contribution(ContributionId(1), Some("0x03".to_string()));
    assert_eq!(form.id, ContributionId(1));
    assert_eq!(form.status, ContributionStatus::Completed);
    assert_eq!(form.transaction_hash, Some("0x03".to_string()));
}

#[test]
fn each_action_maps_to_one_write() {
    match cache_write(&create(1), "0x01") {
        CacheWrite::Insert(form) => {
            assert_eq!(form.id, ContributionId(1));
            assert_eq!(form.status, ContributionStatus::Open);
            assert_eq!(form.transaction_hash, Some("0x01".to_string()));
        },
        other => panic!("unexpected: {:?}", other),
    }
    match cache_write(&assign(1, 8), "0x02") {
        CacheWrite::Assign(form) => {
            assert_eq!(form.status, ContributionStatus::Assigned);
            assert_eq!(form.contributor_id, Some(ContributorId(8)));
        },
        other => panic!("unexpected: {:?}", other),
    }
    match cache_write(&unassign(1), "0x03") {
        CacheWrite::Assign(form) => {
            assert_eq!(form.status, ContributionStatus::Open);
            assert_eq!(form.contributor_id, None);
        },
        other => panic!("unexpected: {:?}", other),
    }
    match cache_write(&validate(1), "0x04") {
        CacheWrite::Validate(form) => {
            assert_eq!(form.status, ContributionStatus::Completed);
            assert_eq!(form.transaction_hash, Some("0x04".to_string()));
        },
        other => panic!("unexpected: {:?}", other),
    }
}

#[test]
fn plan_tells_replay_from_write_from_refusal() {
    let assigned = ContributionRow {
        contribution: Contribution {
            status: ContributionStatus::Assigned,
            contributor_id: Some(ContributorId(8)),
            ..contribution(1)
        },
        transaction_hash: Some("0x02".to_string()),
    };
    assert!(matches!(plan_confirmed(&Some(assigned.clone()), &assign(1, 8), "0x02"), Ok(None)));
    assert!(matches!(
        plan_confirmed(&Some(assigned.clone()), &validate(1), "0x02"),
        Ok(Some(CacheWrite::Validate(_)))
    ));
    assert!(matches!(
        plan_confirmed(&Some(assigned.clone()), &assign(1, 9), "0x02"),
        Err(StoreError::Refused(StateError::IllegalTransition { .. }))
    ));
    assert!(matches!(plan_confirmed(&None, &create(1), "0x01"), Ok(Some(CacheWrite::Insert(_)))));
    assert!(matches!(
        plan_confirmed(&Some(assigned), &create(1), "0x02"),
        Err(StoreError::Refused(StateError::AlreadyExists))
    ));
}

#[test]
fn raw_writes_need_row_or_free_identity() {
    let mut connection = Connection::new();
    assert_eq!(
        connection.save_validation(validate_contribution(ContributionId(1), None)),
        Err(StoreError::RowMissing)
    );
    assert_eq!(
        connection.save_assignment(unassign_contribution(ContributionId(1), None)),
        Err(StoreError::RowMissing)
    );
    assert_eq!(connection.insert_contribution(new_contribution(contribution(1), None)), Ok(()));
    assert_eq!(
        connection.insert_contribution(new_contribution(contribution(1), None)),
        Err(StoreError::RowExists)
    );
    assert_eq!(
        connection.perform(cache_write(&validate(1), "0x09")),
        Ok(())
    );
    let row = connection.contribution(ContributionId(1)).unwrap();
    assert_eq!(row.contribution.status, ContributionStatus::Completed);
    assert_eq!(row.transaction_hash, Some("0x09".to_string()));
}

#[test]
fn projects_are_found_by_filter_in_caching_order() {
    let mut api = API::new(Connection::new());
    assert_eq!(api.upsert_project("onlydust".to_string(), "starklings".to_string()), ProjectId(0));
    assert_eq!(api.upsert_project("onlydust".to_string(), "marketplace".to_string()), ProjectId(1));
    assert_eq!(api.upsert_project("other".to_string(), "starklings".to_string()), ProjectId(2));
    assert_eq!(api.upsert_project("onlydust".to_string(), "starklings".to_string()), ProjectId(0));

    let all = api.find_projects(&ProjectFilter { owner: None, name: None });
    assert_eq!(all.len(), 3);
    assert_eq!(all[1].id, ProjectId(1));
    assert_eq!(all[1].owner, "onlydust");
    assert_eq!(all[1].name, "marketplace");

    let by_owner = api.find_projects(&ProjectFilter { owner: Some("onlydust".to_string()), name: None });
    assert_eq!(by_owner.iter().map(|project| project.id).collect::<Vec<_>>(), vec![ProjectId(0), ProjectId(1)]);

    let by_name = api.find_projects(&ProjectFilter { owner: None, name: Some("starklings".to_string()) });
    assert_eq!(by_name.iter().map(|project| project.id).collect::<Vec<_>>(), vec![ProjectId(0), ProjectId(2)]);

    let both = api.find_projects_by_owner_and_name("other", "starklings");
    assert_eq!(both.len(), 1);
    assert_eq!(both[0].id, ProjectId(2));
    assert_eq!(both[0].owner, "other");
    assert_eq!(both[0].name, "starklings");

    assert!(api.find_projects_by_owner_and_name("other", "marketplace").is_empty());
}

#[test]
fn filter_matches_owner_and_name() {
    let owner = "onlydust".to_string();
    let name = "starklings".to_string();
    assert!(ProjectFilter { owner: None, name: None }.matches(&owner, &name));
    assert!(ProjectFilter { owner: Some("onlydust".to_string()), name: None }.matches(&owner, &name));
    assert!(!ProjectFilter { owner: Some("other".to_string()), name: None }.matches(&owner, &name));
    assert!(!ProjectFilter { owner: Some("onlydust".to_string()), name: Some("x".to_string()) }
        .matches(&owner, &name));
}
