//! What the request handlers decide before they answer.

use vstd::prelude::*;
use crate::action_queue::{enqueue, ActionQueue};
use crate::domain::{Action, ContributionId};
use crate::errors::QueueError;

verus! {

/// The status of an answer that reports a fault of the server itself.
pub const INTERNAL_SERVER_ERROR: u16 = 500;

/// A failure, as it is described to the caller of a route.
#[derive(Debug)]
pub struct Problem {
    pub status: u16,
    pub title: String,
    pub detail: String,
}

/// Removes the contributor from a contribution: queues the action for the
/// worker and leaves the rest to it. Where the lock around the queue could
/// not be acquired, nothing is queued and the caller gets the reason as a
/// fault of the server.
pub fn unassign_contributor(
    lock: Result<&mut ActionQueue, String>,
    contribution_id: ContributionId,
) -> (accepted: Result<(), Problem>)
    ensures
        match lock {
            Ok(queue) => accepted is Ok && final(queue)@ == queue@.push(
                Action::UnassignContributor { contribution_id },
            ),
            Err(reason) => accepted matches Err(problem) && problem.status
                == INTERNAL_SERVER_ERROR && problem.title@
                == "Unable to add unassignation to the queue"@ && problem.detail == reason,
        },
{
    match enqueue(lock, Action::UnassignContributor { contribution_id }) {
        Ok(()) => Ok(()),
        Err(QueueError::LockUnavailable(reason)) => Err(
            Problem {
                status: INTERNAL_SERVER_ERROR,
                title: "Unable to add unassignation to the queue".to_owned(),
                detail: reason,
            },
        ),
    }
}

} // verus!
