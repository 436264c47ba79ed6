//! Error taxonomy of the reconciliation core.

use vstd::prelude::*;
use crate::domain::{ActionKind, ContributionStatus};

verus! {

/// Failures that cross the boundary of the domain, each carrying the message
/// shown to an operator.
#[derive(Debug)]
pub enum Error {
    ParseStatusError(String),
    ProjectListingError(String),
    ContributionStoreError(String),
}

impl Error {
    /// The message an error carries, whatever its kind.
    pub open spec fn message(&self) -> Seq<char> {
        match self {
            Error::ParseStatusError(e) => e@,
            Error::ProjectListingError(e) => e@,
            Error::ContributionStoreError(e) => e@,
        }
    }

    /// Renders the error as the message it carries.
    pub fn to_string(&self) -> (text: String)
        ensures
            text@ == self.message(),
    {
        match self {
            Error::ParseStatusError(e) => e.clone(),
            Error::ProjectListingError(e) => e.clone(),
            Error::ContributionStoreError(e) => e.clone(),
        }
    }
}

/// A transition the contribution state machine refuses.
#[derive(Clone, Copy, Debug, PartialEq, Eq, Structural)]
pub enum StateError {
    /// The action is not allowed from where the contribution stands; `from`
    /// is `None` when there is no contribution to transition.
    IllegalTransition { from: Option<ContributionStatus>, action: ActionKind },
    /// A contribution with the identity being created is already there.
    AlreadyExists,
}

/// How a submission to the ledger can fail.
#[derive(Clone, Copy, Debug, PartialEq, Eq, Structural)]
pub enum LedgerError {
    /// Network trouble or a timeout: the same action may be submitted again.
    Transient,
    /// The ledger refused the transition: the action must not be retried.
    Rejected,
}

/// How a write to the relational cache can fail.
#[derive(Clone, Copy, Debug, PartialEq, Eq, Structural)]
pub enum StoreError {
    /// The cached contribution does not admit the action.
    Refused(StateError),
    /// A row with the identity being inserted is already there.
    RowExists,
    /// No row has the identity being updated.
    RowMissing,
    /// The store could not be reached or did not answer.
    Unavailable,
}

/// How fetching from the upstream source can fail.
#[derive(Clone, Copy, Debug, PartialEq, Eq, Structural)]
pub enum FetchError {
    /// The upstream source could not be reached.
    Unreachable,
    /// The upstream source answered with nothing to reconcile.
    Empty,
}

/// Where a batch of confirmed actions stopped: the actions before `index`
/// were applied, the action at `index` failed with `error`, and those after
/// it were not attempted.
#[derive(Clone, Copy, Debug, PartialEq, Eq, Structural)]
pub struct BatchFailure {
    pub index: usize,
    pub error: StoreError,
}

/// How handing an action to the queue can fail.
#[derive(Debug)]
pub enum QueueError {
    /// The lock around the queue could not be acquired; the text says why.
    /// The action was not enqueued.
    LockUnavailable(String),
}

} // verus!
