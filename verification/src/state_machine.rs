//! Transition rules of a contribution: `Open -> Assigned -> {Open, Completed}`.

use vstd::prelude::*;
use crate::domain::{Action, ActionKind, Contribution, ContributionStatus};
use crate::errors::StateError;

verus! {

/// The status a contribution stands in, `None` where there is no contribution.
pub open spec fn status_of(current: Option<Contribution>) -> Option<ContributionStatus> {
    match current {
        Some(contribution) => Some(contribution.status),
        None => None,
    }
}

/// Whether an action of the given kind is allowed from the given status.
pub open spec fn permitted(from: Option<ContributionStatus>, kind: ActionKind) -> bool {
    match kind {
        ActionKind::Create => from is None,
        ActionKind::Assign => from == Some(ContributionStatus::Open),
        ActionKind::Unassign => from == Some(ContributionStatus::Assigned),
        ActionKind::Validate => from == Some(ContributionStatus::Assigned),
    }
}

/// The status in which an action of the given kind leaves a contribution.
pub open spec fn status_after(kind: ActionKind) -> ContributionStatus {
    match kind {
        ActionKind::Create => ContributionStatus::Open,
        ActionKind::Assign => ContributionStatus::Assigned,
        ActionKind::Unassign => ContributionStatus::Open,
        ActionKind::Validate => ContributionStatus::Completed,
    }
}

/// The contribution as it stands once a permitted action has taken effect.
/// A created contribution keeps the identity it was requested with and
/// starts open; every other action keeps the identity of `current`.
pub open spec fn outcome(current: Option<Contribution>, action: Action) -> Contribution {
    let base = match action {
        Action::CreateContribution { contribution } => contribution,
        _ => current.unwrap(),
    };
    Contribution {
        id: base.id,
        project_id: base.project_id,
        reference: base.reference,
        status: status_after(action.kind()),
        contributor_id: match action {
            Action::AssignContributor { contributor_id, .. } => Some(contributor_id),
            Action::ValidateContribution { .. } => base.contributor_id,
            _ => None,
        },
    }
}

/// The refusal that an action gets when it is not permitted.
pub open spec fn refusal(current: Option<Contribution>, action: Action) -> StateError {
    if action.kind() == ActionKind::Create {
        StateError::AlreadyExists
    } else {
        StateError::IllegalTransition { from: status_of(current), action: action.kind() }
    }
}

/// The transition function of the state machine.
pub open spec fn transition(current: Option<Contribution>, action: Action) -> Result<
    Contribution,
    StateError,
> {
    if permitted(status_of(current), action.kind()) {
        Ok(outcome(current, action))
    } else {
        Err(refusal(current, action))
    }
}

/// Applies `action` to `current`, the contribution that the action names
/// (`None` where no such contribution exists yet). A refused action is never
/// ignored nor corrected: it comes back as the error that says why.
pub fn apply(current: Option<Contribution>, action: &Action) -> (result: Result<
    Contribution,
    StateError,
>)
    ensures
        result == transition(current, *action),
{
    match *action {
        Action::CreateContribution { contribution } => match current {
            Some(_) => Err(StateError::AlreadyExists),
            None => Ok(
                Contribution {
                    id: contribution.id,
                    project_id: contribution.project_id,
                    reference: contribution.reference,
                    status: ContributionStatus::Open,
                    contributor_id: None,
                },
            ),
        },
        Action::AssignContributor { contributor_id, .. } => match current {
            Some(existing) => match existing.status {
                ContributionStatus::Open => Ok(
                    Contribution {
                        id: existing.id,
                        project_id: existing.project_id,
                        reference: existing.reference,
                        status: ContributionStatus::Assigned,
                        contributor_id: Some(contributor_id),
                    },
                ),
                from => Err(
                    StateError::IllegalTransition { from: Some(from), action: ActionKind::Assign },
                ),
            },
            None => Err(StateError::IllegalTransition { from: None, action: ActionKind::Assign }),
        },
        Action::UnassignContributor { .. } => match current {
            Some(existing) => match existing.status {
                ContributionStatus::Assigned => Ok(
                    Contribution {
                        id: existing.id,
                        project_id: existing.project_id,
                        reference: existing.reference,
                        status: ContributionStatus::Open,
                        contributor_id: None,
                    },
                ),
                from => Err(
                    StateError::IllegalTransition {
                        from: Some(from),
                        action: ActionKind::Unassign,
                    },
                ),
            },
            None => Err(
                StateError::IllegalTransition { from: None, action: ActionKind::Unassign },
            ),
        },
        Action::ValidateContribution { .. } => match current {
            Some(existing) => match existing.status {
                ContributionStatus::Assigned => Ok(
                    Contribution {
                        id: existing.id,
                        project_id: existing.project_id,
                        reference: existing.reference,
                        status: ContributionStatus::Completed,
                        contributor_id: existing.contributor_id,
                    },
                ),
                from => Err(
                    StateError::IllegalTransition {
                        from: Some(from),
                        action: ActionKind::Validate,
                    },
                ),
            },
            None => Err(
                StateError::IllegalTransition { from: None, action: ActionKind::Validate },
            ),
        },
    }
}

/// One step along the lifecycle: `Open -> Assigned`, `Assigned -> Open` or
/// `Assigned -> Completed`.
pub open spec fn lifecycle_step(from: ContributionStatus, to: ContributionStatus) -> bool {
    ||| from == ContributionStatus::Open && to == ContributionStatus::Assigned
    ||| from == ContributionStatus::Assigned && to == ContributionStatus::Open
    ||| from == ContributionStatus::Assigned && to == ContributionStatus::Completed
}

/// An existing contribution changes status only along the lifecycle, and
/// every action that would move it otherwise is refused: a creation as
/// `AlreadyExists`, any other as `IllegalTransition` from the status it
/// stands in.
pub proof fn lemma_transitions_follow_lifecycle(existing: Contribution, action: Action)
    ensures
        match transition(Some(existing), action) {
            Ok(next) => lifecycle_step(existing.status, next.status),
            Err(error) => error == (if action.kind() == ActionKind::Create {
                StateError::AlreadyExists
            } else {
                StateError::IllegalTransition {
                    from: Some(existing.status),
                    action: action.kind(),
                }
            }),
        },
        transition(Some(existing), action) is Ok <==> lifecycle_step(
            existing.status,
            status_after(action.kind()),
        ) && action.kind() != ActionKind::Create,
{
}

/// A completed contribution accepts no action at all.
pub proof fn lemma_completed_is_terminal(existing: Contribution, action: Action)
    requires
        existing.status == ContributionStatus::Completed,
    ensures
        transition(Some(existing), action) is Err,
        action.kind() != ActionKind::Create ==> transition(Some(existing), action) == Err::<
            Contribution,
            StateError,
        >(
            StateError::IllegalTransition {
                from: Some(ContributionStatus::Completed),
                action: action.kind(),
            },
        ),
{
}

/// Where nothing exists yet, creation is the only action accepted, and what
/// it creates is open with nobody assigned.
pub proof fn lemma_only_creation_from_nothing(action: Action)
    ensures
        transition(None, action) is Ok <==> action.kind() == ActionKind::Create,
        transition(None, action) matches Ok(created) ==> created.status
            == ContributionStatus::Open && created.contributor_id is None,
{
}

/// Creating a contribution that is already there is refused as
/// `AlreadyExists`, whatever its status.
pub proof fn lemma_second_creation_refused(existing: Contribution, requested: Contribution)
    ensures
        transition(Some(existing), Action::CreateContribution { contribution: requested }) == Err::<
            Contribution,
            StateError,
        >(StateError::AlreadyExists),
{
}

/// Every accepted transition keeps the rule that a contributor is recorded
/// exactly while the contribution is assigned or completed, and never
/// changes which contribution it is.
pub proof fn lemma_transition_keeps_validity(current: Option<Contribution>, action: Action)
    requires
        current matches Some(existing) ==> existing.valid(),
    ensures
        transition(current, action) matches Ok(next) ==> {
            &&& next.valid()
            &&& current matches Some(existing) ==> next.id == existing.id && next.project_id
                == existing.project_id && next.reference == existing.reference
        },
{
}

} // verus!
