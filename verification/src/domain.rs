//! The entities the reconciliation core speaks of.

use vstd::prelude::*;
use crate::errors::Error;

verus! {

/// Stable identity of a contribution.
#[derive(Clone, Copy, Debug, PartialEq, Eq, Structural, Hash)]
pub struct ContributionId(pub u64);

/// Identity of a contributor.
#[derive(Clone, Copy, Debug, PartialEq, Eq, Structural, Hash)]
pub struct ContributorId(pub u64);

/// Internal numeric identity of a cached project.
#[derive(Clone, Copy, Debug, PartialEq, Eq, Structural, Hash)]
pub struct ProjectId(pub u64);

/// Where a contribution stands in its lifecycle.
#[derive(Clone, Copy, Debug, PartialEq, Eq, Structural, Hash)]
pub enum ContributionStatus {
    Open,
    Assigned,
    Completed,
}

impl ContributionStatus {
    /// The name under which the status is stored and shown.
    pub open spec fn name(self) -> Seq<char> {
        match self {
            ContributionStatus::Open => "OPEN"@,
            ContributionStatus::Assigned => "ASSIGNED"@,
            ContributionStatus::Completed => "COMPLETED"@,
        }
    }

    /// The name of the status.
    pub fn to_string(&self) -> (text: String)
        ensures
            text@ == self.name(),
    {
        match self {
            ContributionStatus::Open => "OPEN".to_owned(),
            ContributionStatus::Assigned => "ASSIGNED".to_owned(),
            ContributionStatus::Completed => "COMPLETED".to_owned(),
        }
    }

    /// The status that `text` names. A text that names none is handed back
    /// in the error.
    pub fn parse(text: &str) -> (parsed: Result<ContributionStatus, Error>)
        ensures
            match parsed {
                Ok(status) => text@ == status.name(),
                Err(error) => {
                    &&& forall|status: ContributionStatus| text@ != #[trigger] status.name()
                    &&& error matches Error::ParseStatusError(rejected) && rejected@ == text@
                },
            },
    {
        let given = text.to_owned();
        if given == "OPEN".to_owned() {
            Ok(ContributionStatus::Open)
        } else if given == "ASSIGNED".to_owned() {
            Ok(ContributionStatus::Assigned)
        } else if given == "COMPLETED".to_owned() {
            Ok(ContributionStatus::Completed)
        } else {
            Err(Error::ParseStatusError(given))
        }
    }
}

/// No two statuses share a name, so the name of a status names that status
/// and no other.
pub proof fn lemma_status_names_differ(first: ContributionStatus, second: ContributionStatus)
    ensures
        first.name() == second.name() <==> first == second,
{
    reveal_strlit("OPEN");
    reveal_strlit("ASSIGNED");
    reveal_strlit("COMPLETED");
    assert("OPEN"@.len() == 4);
    assert("ASSIGNED"@.len() == 8);
    assert("COMPLETED"@.len() == 9);
}

/// A unit of work on a project, attributable to at most one contributor.
#[derive(Clone, Copy, Debug, PartialEq, Eq, Structural)]
pub struct Contribution {
    pub id: ContributionId,
    pub project_id: ProjectId,
    /// Number of the issue or pull request the contribution stands for.
    pub reference: u64,
    pub status: ContributionStatus,
    pub contributor_id: Option<ContributorId>,
}

impl Contribution {
    /// A contributor is recorded exactly while the contribution is assigned
    /// or completed.
    pub open spec fn valid(&self) -> bool {
        self.contributor_id is Some <==> self.status != ContributionStatus::Open
    }

    /// A fresh, open contribution with nobody assigned.
    pub fn new(id: ContributionId, project_id: ProjectId, reference: u64) -> (contribution: Contribution)
        ensures
            contribution == (Contribution {
                id,
                project_id,
                reference,
                status: ContributionStatus::Open,
                contributor_id: None,
            }),
            contribution.valid(),
    {
        Contribution { id, project_id, reference, status: ContributionStatus::Open, contributor_id: None }
    }
}

/// The four kinds of action, without their payload.
#[derive(Clone, Copy, Debug, PartialEq, Eq, Structural, Hash)]
pub enum ActionKind {
    Create,
    Assign,
    Unassign,
    Validate,
}

/// A requested state transition on a contribution.
#[derive(Clone, Copy, Debug, PartialEq, Eq, Structural)]
pub enum Action {
    CreateContribution { contribution: Contribution },
    AssignContributor { contribution_id: ContributionId, contributor_id: ContributorId },
    UnassignContributor { contribution_id: ContributionId },
    ValidateContribution { contribution_id: ContributionId },
}

impl Action {
    pub open spec fn spec_contribution_id(&self) -> ContributionId {
        match self {
            Action::CreateContribution { contribution } => contribution.id,
            Action::AssignContributor { contribution_id, .. } => *contribution_id,
            Action::UnassignContributor { contribution_id } => *contribution_id,
            Action::ValidateContribution { contribution_id } => *contribution_id,
        }
    }

    pub open spec fn spec_kind(&self) -> ActionKind {
        match self {
            Action::CreateContribution { .. } => ActionKind::Create,
            Action::AssignContributor { .. } => ActionKind::Assign,
            Action::UnassignContributor { .. } => ActionKind::Unassign,
            Action::ValidateContribution { .. } => ActionKind::Validate,
        }
    }

    /// The contribution the action is about.
    #[verifier::when_used_as_spec(spec_contribution_id)]
    pub fn contribution_id(&self) -> (id: ContributionId)
        ensures
            id == self.spec_contribution_id(),
    {
        match self {
            Action::CreateContribution { contribution } => contribution.id,
            Action::AssignContributor { contribution_id, .. } => *contribution_id,
            Action::UnassignContributor { contribution_id } => *contribution_id,
            Action::ValidateContribution { contribution_id } => *contribution_id,
        }
    }

    /// The kind of the action.
    #[verifier::when_used_as_spec(spec_kind)]
    pub fn kind(&self) -> (kind: ActionKind)
        ensures
            kind == self.spec_kind(),
    {
        match self {
            Action::CreateContribution { .. } => ActionKind::Create,
            Action::AssignContributor { .. } => ActionKind::Assign,
            Action::UnassignContributor { .. } => ActionKind::Unassign,
            Action::ValidateContribution { .. } => ActionKind::Validate,
        }
    }
}

/// A repository that contributions belong to: an owning organization and a
/// name, unique together, and the numeric identity the cache gave it.
#[derive(Debug)]
pub struct Project {
    pub id: ProjectId,
    pub owner: String,
    pub name: String,
}

impl Clone for Project {
    fn clone(&self) -> (copy: Project)
        ensures
            copy == *self,
    {
        Project { id: self.id, owner: self.owner.clone(), name: self.name.clone() }
    }
}

/// Selects projects by owner, by name, by both or, with neither set, all of
/// them.
#[derive(Debug)]
pub struct ProjectFilter {
    pub owner: Option<String>,
    pub name: Option<String>,
}

impl ProjectFilter {
    /// Whether a project with the given owner and name passes the filter.
    pub open spec fn admits(&self, owner: Seq<char>, name: Seq<char>) -> bool {
        &&& self.owner matches Some(wanted) ==> wanted@ == owner
        &&& self.name matches Some(wanted) ==> wanted@ == name
    }

    /// Whether a project with the given owner and name passes the filter.
    pub fn matches(&self, owner: &String, name: &String) -> (admitted: bool)
        ensures
            admitted == self.admits(owner@, name@),
    {
        let owner_fits = match &self.owner {
            Some(wanted) => *wanted == *owner,
            None => true,
        };
        let name_fits = match &self.name {
            Some(wanted) => *wanted == *name,
            None => true,
        };
        owner_fits && name_fits
    }
}

/// Someone who takes on contributions.
#[derive(Clone, Copy, Debug, PartialEq, Eq, Structural)]
pub struct Contributor {
    pub id: ContributorId,
    /// Numeric identity of the contributor's account on the code host.
    pub github_identifier: u64,
}

/// Upstream identity of a work item.
#[derive(Clone, Copy, Debug, PartialEq, Eq, Structural, Hash)]
pub struct WorkItemId(pub u64);

/// Status of a work item as the code host reports it.
#[derive(Clone, Copy, Debug, PartialEq, Eq, Structural, Hash)]
pub enum WorkItemStatus {
    Draft,
    Open,
    Merged,
    Closed,
}

impl WorkItemStatus {
    /// The status of a pull request, from what the code host says of it: a
    /// merged one is merged whatever else holds, an unmerged closed one is
    /// closed, and one that is neither is a draft or open.
    pub open spec fn spec_from_upstream(merged: bool, closed: bool, draft: bool) -> WorkItemStatus {
        if merged {
            WorkItemStatus::Merged
        } else if closed {
            WorkItemStatus::Closed
        } else if draft {
            WorkItemStatus::Draft
        } else {
            WorkItemStatus::Open
        }
    }

    /// The status of a pull request, from what the code host says of it.
    #[verifier::when_used_as_spec(spec_from_upstream)]
    pub fn from_upstream(merged: bool, closed: bool, draft: bool) -> (status: WorkItemStatus)
        ensures
            status == Self::spec_from_upstream(merged, closed, draft),
    {
        if merged {
            WorkItemStatus::Merged
        } else if closed {
            WorkItemStatus::Closed
        } else if draft {
            WorkItemStatus::Draft
        } else {
            WorkItemStatus::Open
        }
    }

    /// The name under which the status is stored and shown.
    pub open spec fn name(self) -> Seq<char> {
        match self {
            WorkItemStatus::Open => "OPEN"@,
            WorkItemStatus::Draft => "DRAFT"@,
            WorkItemStatus::Merged => "MERGED"@,
            WorkItemStatus::Closed => "CLOSED"@,
        }
    }

    /// The name of the status.
    pub fn to_string(&self) -> (text: String)
        ensures
            text@ == self.name(),
    {
        match self {
            WorkItemStatus::Open => "OPEN".to_owned(),
            WorkItemStatus::Draft => "DRAFT".to_owned(),
            WorkItemStatus::Merged => "MERGED".to_owned(),
            WorkItemStatus::Closed => "CLOSED".to_owned(),
        }
    }

    /// The status that `text` names. A text that names none is handed back
    /// in the error.
    pub fn parse(text: &str) -> (parsed: Result<WorkItemStatus, Error>)
        ensures
            match parsed {
                Ok(status) => text@ == status.name(),
                Err(error) => {
                    &&& forall|status: WorkItemStatus| text@ != #[trigger] status.name()
                    &&& error matches Error::ParseStatusError(rejected) && rejected@ == text@
                },
            },
    {
        let given = text.to_owned();
        if given == "OPEN".to_owned() {
            Ok(WorkItemStatus::Open)
        } else if given == "DRAFT".to_owned() {
            Ok(WorkItemStatus::Draft)
        } else if given == "MERGED".to_owned() {
            Ok(WorkItemStatus::Merged)
        } else if given == "CLOSED".to_owned() {
            Ok(WorkItemStatus::Closed)
        } else {
            Err(Error::ParseStatusError(given))
        }
    }
}

/// No two statuses of a work item share a name.
pub proof fn lemma_work_item_status_names_differ(first: WorkItemStatus, second: WorkItemStatus)
    ensures
        first.name() == second.name() <==> first == second,
{
    reveal_strlit("OPEN");
    reveal_strlit("DRAFT");
    reveal_strlit("MERGED");
    reveal_strlit("CLOSED");
    assert("OPEN"@.len() == 4);
    assert("DRAFT"@[0] == 'D');
    assert("MERGED"@[0] == 'M');
    assert("CLOSED"@[0] == 'C');
}

/// A pull request tracked for its status.
#[derive(Clone, Copy, Debug, PartialEq, Eq, Structural)]
pub struct WorkItem {
    pub id: WorkItemId,
    pub project_id: ProjectId,
    /// Numeric identity of the author's account on the code host.
    pub author: u64,
    pub status: WorkItemStatus,
    /// Seconds since the epoch at which the ledger last took the status.
    pub last_ledger_update_time: Option<u64>,
}

/// Identity of an application.
#[derive(Clone, Copy, Debug, PartialEq, Eq, Structural, Hash)]
pub struct ApplicationId(pub u128);

/// A contributor's request to be assigned a contribution.
#[derive(Clone, Copy, Debug, PartialEq, Eq, Structural)]
pub struct Application {
    pub id: ApplicationId,
    pub contribution_id: ContributionId,
    pub contributor_id: ContributorId,
}

impl Application {
    /// The application of `contributor_id` to `contribution_id`, known as `id`.
    pub open spec fn new_spec(
        id: ApplicationId,
        contribution_id: ContributionId,
        contributor_id: ContributorId,
    ) -> Application {
        Application { id, contribution_id, contributor_id }
    }

    /// The application of `contributor_id` to `contribution_id`, known as `id`.
    #[verifier::when_used_as_spec(new_spec)]
    pub fn new(id: ApplicationId, contribution_id: ContributionId, contributor_id: ContributorId) -> (application: Application)
        ensures
            application == (Application { id, contribution_id, contributor_id }),
    {
        Application { id, contribution_id, contributor_id }
    }
}

} // verus!
