//! Rows of the relational cache and the forms that write them.

use vstd::prelude::*;
use vstd::std_specs::convert::FromSpecImpl;
use crate::domain::{
    Contribution, ContributionId, ContributionStatus, ContributorId, Project, ProjectId,
};

verus! {

/// The characters of a transaction hash, where there is one.
pub open spec fn hash_view(hash: Option<String>) -> Option<Seq<char>> {
    match hash {
        Some(hash) => Some(hash@),
        None => None,
    }
}

/// A cached contribution, tagged with the ledger transaction that last
/// wrote it.
#[derive(Debug)]
pub struct ContributionRow {
    pub contribution: Contribution,
    pub transaction_hash: Option<String>,
}

/// A cached contribution with its hash as a sequence of characters.
pub struct ContributionRowView {
    pub contribution: Contribution,
    pub transaction_hash: Option<Seq<char>>,
}

impl View for ContributionRow {
    type V = ContributionRowView;

    open spec fn view(&self) -> ContributionRowView {
        ContributionRowView {
            contribution: self.contribution,
            transaction_hash: hash_view(self.transaction_hash),
        }
    }
}

impl Clone for ContributionRow {
    fn clone(&self) -> (copy: ContributionRow)
        ensures
            copy == *self,
    {
        ContributionRow {
            contribution: self.contribution,
            transaction_hash: match &self.transaction_hash {
                Some(hash) => Some(hash.clone()),
                None => None,
            },
        }
    }
}

/// The insertion of a contribution.
#[derive(Debug)]
pub struct NewContribution {
    pub id: ContributionId,
    pub project_id: ProjectId,
    pub reference: u64,
    pub status: ContributionStatus,
    pub contributor_id: Option<ContributorId>,
    pub transaction_hash: Option<String>,
}

impl NewContribution {
    /// The row that the insertion writes.
    pub open spec fn row(&self) -> ContributionRowView {
        ContributionRowView {
            contribution: Contribution {
                id: self.id,
                project_id: self.project_id,
                reference: self.reference,
                status: self.status,
                contributor_id: self.contributor_id,
            },
            transaction_hash: hash_view(self.transaction_hash),
        }
    }
}

impl From<Contribution> for NewContribution {
    /// The insertion of `contribution` as it is, before any transaction is
    /// attached.
    fn from(contribution: Contribution) -> (new_contribution: NewContribution) {
        NewContribution {
            id: contribution.id,
            project_id: contribution.project_id,
            reference: contribution.reference,
            status: contribution.status,
            contributor_id: contribution.contributor_id,
            transaction_hash: None,
        }
    }
}

impl FromSpecImpl<Contribution> for NewContribution {
    open spec fn obeys_from_spec() -> bool {
        true
    }

    open spec fn from_spec(contribution: Contribution) -> NewContribution {
        NewContribution {
            id: contribution.id,
            project_id: contribution.project_id,
            reference: contribution.reference,
            status: contribution.status,
            contributor_id: contribution.contributor_id,
            transaction_hash: None,
        }
    }
}

/// The update that sets who a contribution is assigned to, or that nobody is.
#[derive(Debug)]
pub struct AssignContributionForm {
    pub id: ContributionId,
    pub status: ContributionStatus,
    pub contributor_id: Option<ContributorId>,
    pub transaction_hash: Option<String>,
}

/// The update that changes the status of a contribution and leaves its
/// contributor as it is.
#[derive(Debug)]
pub struct ValidateContributionForm {
    pub id: ContributionId,
    pub status: ContributionStatus,
    pub transaction_hash: Option<String>,
}

/// One write to the table of contributions.
#[derive(Debug)]
pub enum CacheWrite {
    Insert(NewContribution),
    Assign(AssignContributionForm),
    Validate(ValidateContributionForm),
}

/// One write to the table of contributions, with its hash as a sequence of
/// characters.
pub enum CacheWriteView {
    /// Inserts `row`.
    Insert { row: ContributionRowView },
    /// Sets status, contributor and hash of the row `id`.
    Assign {
        id: ContributionId,
        status: ContributionStatus,
        contributor_id: Option<ContributorId>,
        transaction_hash: Option<Seq<char>>,
    },
    /// Sets status and hash of the row `id`.
    Validate { id: ContributionId, status: ContributionStatus, transaction_hash: Option<Seq<char>> },
}

impl CacheWriteView {
    /// The identity of the row that the write is for.
    pub open spec fn id(self) -> ContributionId {
        match self {
            CacheWriteView::Insert { row } => row.contribution.id,
            CacheWriteView::Assign { id, .. } => id,
            CacheWriteView::Validate { id, .. } => id,
        }
    }

    /// The row that the write leaves: for an insertion the row it carries,
    /// for an update `before` with the columns of the form set.
    pub open spec fn row(self, before: ContributionRowView) -> ContributionRowView {
        match self {
            CacheWriteView::Insert { row } => row,
            CacheWriteView::Assign { status, contributor_id, transaction_hash, .. } => {
                ContributionRowView {
                    contribution: Contribution {
                        id: before.contribution.id,
                        project_id: before.contribution.project_id,
                        reference: before.contribution.reference,
                        status,
                        contributor_id,
                    },
                    transaction_hash,
                }
            },
            CacheWriteView::Validate { status, transaction_hash, .. } => ContributionRowView {
                contribution: Contribution {
                    id: before.contribution.id,
                    project_id: before.contribution.project_id,
                    reference: before.contribution.reference,
                    status,
                    contributor_id: before.contribution.contributor_id,
                },
                transaction_hash,
            },
        }
    }
}

impl View for CacheWrite {
    type V = CacheWriteView;

    open spec fn view(&self) -> CacheWriteView {
        match self {
            CacheWrite::Insert(form) => CacheWriteView::Insert { row: form.row() },
            CacheWrite::Assign(form) => CacheWriteView::Assign {
                id: form.id,
                status: form.status,
                contributor_id: form.contributor_id,
                transaction_hash: hash_view(form.transaction_hash),
            },
            CacheWrite::Validate(form) => CacheWriteView::Validate {
                id: form.id,
                status: form.status,
                transaction_hash: hash_view(form.transaction_hash),
            },
        }
    }
}

/// A cached project.
#[derive(Debug)]
pub struct ProjectRow {
    pub id: u64,
    pub owner: String,
    pub name: String,
}

impl Clone for ProjectRow {
    fn clone(&self) -> (copy: ProjectRow)
        ensures
            copy == *self,
    {
        ProjectRow { id: self.id, owner: self.owner.clone(), name: self.name.clone() }
    }
}

/// The project that a cached row stands for.
pub open spec fn project_of(row: ProjectRow) -> Project {
    Project { id: ProjectId(row.id), owner: row.owner, name: row.name }
}

impl From<ProjectRow> for Project {
    fn from(row: ProjectRow) -> (project: Project) {
        Project { id: ProjectId(row.id), owner: row.owner, name: row.name }
    }
}

impl FromSpecImpl<ProjectRow> for Project {
    open spec fn obeys_from_spec() -> bool {
        true
    }

    open spec fn from_spec(row: ProjectRow) -> Project {
        project_of(row)
    }
}

} // verus!
