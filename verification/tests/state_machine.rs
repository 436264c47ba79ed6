use deathnote_contributions_feeder::domain::{
    Action, ActionKind, Contribution, ContributionId, ContributionStatus, ContributorId, ProjectId,
};
use deathnote_contributions_feeder::errors::{Error, StateError};
use deathnote_contributions_feeder::state_machine::apply;

fn open_contribution() -> Contribution {
    Contribution::new(ContributionId(1), ProjectId(7), 42)
}

fn assigned_contribution() -> Contribution {
    Contribution {
        status: ContributionStatus::Assigned,
        contributor_id: Some(ContributorId(9)),
        ..open_contribution()
    }
}

fn completed_contribution() -> Contribution {
    Contribution { status: ContributionStatus::Completed, ..assigned_contribution() }
}

fn assign() -> Action {
    Action::AssignContributor { contribution_id: ContributionId(1), contributor_id: ContributorId(9) }
}

fn unassign() -> Action {
    Action::UnassignContributor { contribution_id: ContributionId(1) }
}

fn validate() -> Action {
    Action::ValidateContribution { contribution_id: ContributionId(1) }
}

#[test]
fn new_contribution_is_open_and_unassigned() {
    let contribution = open_contribution();
    assert_eq!(contribution.id, ContributionId(1));
    assert_eq!(contribution.project_id, ProjectId(7));
    assert_eq!(contribution.reference, 42);
    assert_eq!(contribution.status, ContributionStatus::Open);
    assert_eq!(contribution.contributor_id, None);
}

#[test]
fn create_from_nothing_gives_open_contribution() {
    let requested = Contribution {
        status: ContributionStatus::Completed,
        contributor_id: Some(ContributorId(5)),
        ..open_contribution()
    };
    let created = apply(None, &Action::CreateContribution { contribution: requested });
    assert_eq!(created, Ok(open_contribution()));
}

#[test]
fn create_twice_is_already_exists() {
    let action = Action::CreateContribution { contribution: open_contribution() };
    let first = apply(None, &action).unwrap();
    assert_eq!(apply(Some(first), &action), Err(StateError::AlreadyExists));
    assert_eq!(apply(Some(completed_contribution()), &action), Err(StateError::AlreadyExists));
}

#[test]
fn open_to_assigned() {
    assert_eq!(apply(Some(open_contribution()), &assign()), Ok(assigned_contribution()));
}

#[test]
fn assigned_to_open() {
    assert_eq!(apply(Some(assigned_contribution()), &unassign()), Ok(open_contribution()));
}

#[test]
fn assigned_to_completed_keeps_contributor() {
    assert_eq!(apply(Some(assigned_contribution()), &validate()), Ok(completed_contribution()));
}

#[test]
fn completed_accepts_nothing() {
    for (action, kind) in [
        (assign(), ActionKind::Assign),
        (unassign(), ActionKind::Unassign),
        (validate(), ActionKind::Validate),
    ] {
        assert_eq!(
            apply(Some(completed_contribution()), &action),
            Err(StateError::IllegalTransition {
                from: Some(ContributionStatus::Completed),
                action: kind,
            })
        );
    }
}

#[test]
fn open_refuses_unassign_and_validate() {
    assert_eq!(
        apply(Some(open_contribution()), &unassign()),
        Err(StateError::IllegalTransition {
            from: Some(ContributionStatus::Open),
            action: ActionKind::Unassign,
        })
    );
    assert_eq!(
        apply(Some(open_contribution()), &validate()),
        Err(StateError::IllegalTransition {
            from: Some(ContributionStatus::Open),
            action: ActionKind::Validate,
        })
    );
}

#[test]
fn assigned_refuses_second_assignment() {
    assert_eq!(
        apply(Some(assigned_contribution()), &assign()),
        Err(StateError::IllegalTransition {
            from: Some(ContributionStatus::Assigned),
            action: ActionKind::Assign,
        })
    );
}

#[test]
fn nothing_accepts_only_creation() {
    for (action, kind) in [
        (assign(), ActionKind::Assign),
        (unassign(), ActionKind::Unassign),
        (validate(), ActionKind::Validate),
    ] {
        assert_eq!(
            apply(None, &action),
            Err(StateError::IllegalTransition { from: None, action: kind })
        );
    }
}

#[test]
fn action_names_its_contribution_and_kind() {
    let create = Action::CreateContribution { contribution: open_contribution() };
    assert_eq!(create.contribution_id(), ContributionId(1));
    assert_eq!(create.kind(), ActionKind::Create);
    assert_eq!(assign().contribution_id(), ContributionId(1));
    assert_eq!(assign().kind(), ActionKind::Assign);
    assert_eq!(unassign().kind(), ActionKind::Unassign);
    assert_eq!(validate().kind(), ActionKind::Validate);
}

#[test]
fn status_names_round_trip() {
    assert_eq!(ContributionStatus::Open.to_string(), "OPEN");
    assert_eq!(ContributionStatus::Assigned.to_string(), "ASSIGNED");
    assert_eq!(ContributionStatus::Completed.to_string(), "COMPLETED");
    for status in
        [ContributionStatus::Open, ContributionStatus::Assigned, ContributionStatus::Completed]
    {
        assert_eq!(ContributionStatus::parse(&status.to_string()).unwrap(), status);
    }
}

#[test]
fn unknown_status_name_is_a_parse_error() {
    match ContributionStatus::parse("ABANDONED") {
        Err(Error::ParseStatusError(rejected)) => assert_eq!(rejected, "ABANDONED"),
        other => panic!("unexpected: {:?}", other),
    }
    assert!(ContributionStatus::parse("open").is_err());
    assert!(ContributionStatus::parse("").is_err());
}

#[test]
fn error_renders_its_message() {
    assert_eq!(Error::ParseStatusError("bad status".to_string()).to_string(), "bad status");
    assert_eq!(Error::ProjectListingError("no projects".to_string()).to_string(), "no projects");
    assert_eq!(Error::ContributionStoreError("store down".to_string()).to_string(), "store down");
}
