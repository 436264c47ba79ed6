//! The reconciliation worker: one pending action at a time, first to the
//! ledger, then to the cache.
//!
//! The worker itself performs no input or output. It is a state machine that
//! is told what happened and answers with what to do next; whoever drives it
//! drains the queue, calls the ledger and writes the cache.

use vstd::prelude::*;
use crate::database::{cached, row_at, API};
use crate::domain::{Action, Contribution, ContributionId};
use crate::errors::{LedgerError, StateError, StoreError};
use crate::state_machine::{apply, transition};

verus! {

/// What the worker is waiting for.
#[derive(Debug)]
pub enum WorkerState {
    /// Nothing is in flight and nothing was asked for.
    Idle,
    /// The next pending action was asked for.
    Draining,
    /// `action` was submitted to the ledger, after `retries` transient
    /// failures.
    Submitting { action: Action, retries: u32 },
    /// The ledger confirmed `action` as `reference`, and the cache was asked
    /// to mirror it, after `failures` failed writes.
    Caching { action: Action, reference: String, failures: u32 },
}

/// What happened since the last command.
#[derive(Debug)]
pub enum Event {
    /// Time has passed, or the worker is started.
    Wake,
    /// The queue was drained of its oldest action, if it had one.
    Drained(Option<Action>),
    /// The ledger answered the submission.
    Ledger(Result<String, LedgerError>),
    /// The cache answered the write.
    Cache(Result<(), StoreError>),
}

/// Why an action will never be applied.
#[derive(Clone, Copy, Debug, PartialEq, Eq, Structural)]
pub enum Failure {
    /// The transition rules refuse the action; it was never submitted.
    Refused(StateError),
    /// The ledger refused the action.
    Rejected,
    /// The ledger failed transiently once more than `retries` allows.
    RetriesExhausted { retries: u32 },
    /// The action was drained while another was in flight, without the
    /// worker having asked for it.
    Unsolicited,
}

/// What the worker asks for next.
#[derive(Debug)]
pub enum Command {
    /// Drain the oldest pending action and report it as `Event::Drained`.
    Drain,
    /// Nothing is pending: come back with `Event::Wake`.
    Rest,
    /// Submit `action` to the ledger and report its answer as
    /// `Event::Ledger`; `retries` says how many times it failed before.
    Submit { action: Action, retries: u32 },
    /// Mirror `action` in the cache under `reference` and report the
    /// outcome as `Event::Cache`; `failures` says how many writes failed
    /// before, each of which left ledger and cache inconsistent.
    Apply { action: Action, reference: String, failures: u32 },
    /// Report that `action` failed for good; then come back with
    /// `Event::Wake`.
    Report { action: Action, failure: Failure },
}

/// The state that follows `state` on `event`, and the command that goes
/// with it. `current` is the cached contribution that a drained action
/// names, and `max_retries` bounds the resubmissions of one action.
///
/// An event that the state does not wait for changes nothing: the command
/// that is outstanding is given again. The one exception is an action
/// drained without being asked for: it is not dropped, but taken up where
/// nothing is in flight and reported where something is.
pub open spec fn next(
    state: WorkerState,
    event: Event,
    current: Option<Contribution>,
    max_retries: u32,
) -> (WorkerState, Command) {
    match state {
        WorkerState::Idle => match event {
            Event::Drained(Some(action)) => taken_up(action, current),
            _ => (WorkerState::Draining, Command::Drain),
        },
        WorkerState::Draining => match event {
            Event::Drained(None) => (WorkerState::Idle, Command::Rest),
            Event::Drained(Some(action)) => taken_up(action, current),
            _ => (WorkerState::Draining, Command::Drain),
        },
        WorkerState::Submitting { action, retries } => match event {
            Event::Drained(Some(other)) => (
                WorkerState::Submitting { action, retries },
                Command::Report { action: other, failure: Failure::Unsolicited },
            ),
            Event::Ledger(Ok(reference)) => (
                WorkerState::Caching { action, reference, failures: 0 },
                Command::Apply { action, reference, failures: 0 },
            ),
            Event::Ledger(Err(LedgerError::Transient)) => if retries < max_retries {
                (
                    WorkerState::Submitting { action, retries: (retries + 1) as u32 },
                    Command::Submit { action, retries: (retries + 1) as u32 },
                )
            } else {
                (
                    WorkerState::Idle,
                    Command::Report { action, failure: Failure::RetriesExhausted { retries } },
                )
            },
            Event::Ledger(Err(LedgerError::Rejected)) => (
                WorkerState::Idle,
                Command::Report { action, failure: Failure::Rejected },
            ),
            _ => (WorkerState::Submitting { action, retries }, Command::Submit { action, retries }),
        },
        WorkerState::Caching { action, reference, failures } => match event {
            Event::Drained(Some(other)) => (
                WorkerState::Caching { action, reference, failures },
                Command::Report { action: other, failure: Failure::Unsolicited },
            ),
            Event::Cache(Ok(())) => (WorkerState::Draining, Command::Drain),
            Event::Cache(Err(_)) => {
                let failures = if failures < u32::MAX {
                    (failures + 1) as u32
                } else {
                    failures
                };
                (
                    WorkerState::Caching { action, reference, failures },
                    Command::Apply { action, reference, failures },
                )
            },
            _ => (
                WorkerState::Caching { action, reference, failures },
                Command::Apply { action, reference, failures },
            ),
        },
    }
}

/// What becomes of a drained action when nothing is in flight: it is
/// submitted where the transition rules admit it on the cached contribution
/// `current`, and reported with their refusal where they do not.
pub open spec fn taken_up(action: Action, current: Option<Contribution>) -> (WorkerState, Command) {
    match transition(current, action) {
        Ok(_) => (
            WorkerState::Submitting { action, retries: 0 },
            Command::Submit { action, retries: 0 },
        ),
        Err(refusal) => (
            WorkerState::Idle,
            Command::Report { action, failure: Failure::Refused(refusal) },
        ),
    }
}

/// The action that a drained-action event carries, if it is one.
pub open spec fn drained(event: Event) -> Option<Action> {
    match event {
        Event::Drained(Some(action)) => Some(action),
        _ => None,
    }
}

/// Holds a drained action against the transition rules, on the contribution
/// as `cache` holds it.
fn take_up(action: Action, cache: &API) -> (taken: (WorkerState, Command))
    ensures
        taken == taken_up(action, cached(row_at(cache@.contributions, action.contribution_id()))),
{
    let current = match cache.contribution(action.contribution_id()) {
        Some(row) => Some(row.contribution),
        None => None,
    };
    match apply(current, &action) {
        Ok(_) => (
            WorkerState::Submitting { action, retries: 0 },
            Command::Submit { action, retries: 0 },
        ),
        Err(refusal) => (
            WorkerState::Idle,
            Command::Report { action, failure: Failure::Refused(refusal) },
        ),
    }
}

/// The single consumer of the action queue.
#[derive(Debug)]
pub struct Worker {
    state: WorkerState,
    max_retries: u32,
}

impl Worker {
    /// What the worker is waiting for.
    pub closed spec fn state(&self) -> WorkerState {
        self.state
    }

    /// How many times one action is resubmitted after transient failures.
    pub closed spec fn max_retries(&self) -> u32 {
        self.max_retries
    }

    /// An idle worker that resubmits an action at most `max_retries` times.
    pub fn new(max_retries: u32) -> (worker: Worker)
        ensures
            worker.state() == WorkerState::Idle,
            worker.max_retries() == max_retries,
    {
        Worker { state: WorkerState::Idle, max_retries }
    }

    /// Whether nothing is in flight.
    pub fn is_idle(&self) -> (idle: bool)
        ensures
            idle == (self.state() is Idle),
    {
        match &self.state {
            WorkerState::Idle => true,
            _ => false,
        }
    }

    /// Takes note of `event` and says what to do next. A drained action is
    /// held against the transition rules, on the contribution as `cache`
    /// holds it, before anything is submitted.
    pub fn step(&mut self, event: Event, cache: &API) -> (command: Command)
        ensures
            (final(self).state(), command) == next(
                old(self).state(),
                event,
                match drained(event) {
                    Some(action) => cached(row_at(cache@.contributions, action.contribution_id())),
                    None => None,
                },
                old(self).max_retries(),
            ),
            final(self).max_retries() == old(self).max_retries(),
    {
        let mut state = WorkerState::Idle;
        core::mem::swap(&mut self.state, &mut state);
        let (following, command) = match state {
            WorkerState::Idle => match event {
                Event::Drained(Some(action)) => take_up(action, cache),
                _ => (WorkerState::Draining, Command::Drain),
            },
            WorkerState::Draining => match event {
                Event::Drained(None) => (WorkerState::Idle, Command::Rest),
                Event::Drained(Some(action)) => take_up(action, cache),
                _ => (WorkerState::Draining, Command::Drain),
            },
            WorkerState::Submitting { action, retries } => match event {
                Event::Drained(Some(other)) => (
                    WorkerState::Submitting { action, retries },
                    Command::Report { action: other, failure: Failure::Unsolicited },
                ),
                Event::Ledger(Ok(reference)) => {
                    let tag = reference.clone();
                    (
                        WorkerState::Caching { action, reference, failures: 0 },
                        Command::Apply { action, reference: tag, failures: 0 },
                    )
                },
                Event::Ledger(Err(LedgerError::Transient)) => if retries < self.max_retries {
                    (
                        WorkerState::Submitting { action, retries: retries + 1 },
                        Command::Submit { action, retries: retries + 1 },
                    )
                } else {
                    (
                        WorkerState::Idle,
                        Command::Report { action, failure: Failure::RetriesExhausted { retries } },
                    )
                },
                Event::Ledger(Err(LedgerError::Rejected)) => (
                    WorkerState::Idle,
                    Command::Report { action, failure: Failure::Rejected },
                ),
                _ => (
                    WorkerState::Submitting { action, retries },
                    Command::Submit { action, retries },
                ),
            },
            WorkerState::Caching { action, reference, failures } => match event {
                Event::Drained(Some(other)) => (
                    WorkerState::Caching { action, reference, failures },
                    Command::Report { action: other, failure: Failure::Unsolicited },
                ),
                Event::Cache(Ok(())) => (WorkerState::Draining, Command::Drain),
                Event::Cache(Err(_)) => {
                    let failures = if failures < u32::MAX {
                        failures + 1
                    } else {
                        failures
                    };
                    let tag = reference.clone();
                    (
                        WorkerState::Caching { action, reference, failures },
                        Command::Apply { action, reference: tag, failures },
                    )
                },
                _ => {
                    let tag = reference.clone();
                    (
                        WorkerState::Caching { action, reference, failures },
                        Command::Apply { action, reference: tag, failures },
                    )
                },
            },
        };
        self.state = following;
        command
    }
}

/// Whether a state respects the bound on resubmissions.
pub open spec fn within_bound(state: WorkerState, max_retries: u32) -> bool {
    state matches WorkerState::Submitting { retries, .. } ==> retries <= max_retries
}

/// An action reaches the ledger for the first time only if the transition
/// rules admit it on the cached contribution; one that they refuse is
/// reported with the refusal, and the worker goes back to idle.
pub proof fn lemma_refused_action_is_never_submitted(
    action: Action,
    current: Option<Contribution>,
    max_retries: u32,
)
    ensures
        ({
            let (state, command) = next(
                WorkerState::Draining,
                Event::Drained(Some(action)),
                current,
                max_retries,
            );
            match transition(current, action) {
                Ok(_) => command == (Command::Submit { action, retries: 0 }),
                Err(refusal) => state is Idle && command == (Command::Report {
                    action,
                    failure: Failure::Refused(refusal),
                }),
            }
        }),
{
}

/// No drained action is dropped: whatever the worker waits for, an action
/// that is reported as drained is submitted or reported, by name.
pub proof fn lemma_drained_action_is_never_dropped(
    state: WorkerState,
    action: Action,
    current: Option<Contribution>,
    max_retries: u32,
)
    ensures
        ({
            let command = next(state, Event::Drained(Some(action)), current, max_retries).1;
            ||| command matches Command::Submit { action: submitted, .. } && submitted == action
            ||| command matches Command::Report { action: reported, .. } && reported == action
        }),
{
}

/// The queue is drained only when nothing is in flight: the worker asks
/// for the next action only on its way to waiting for it.
pub proof fn lemma_drains_only_when_free(
    state: WorkerState,
    event: Event,
    current: Option<Contribution>,
    max_retries: u32,
)
    ensures
        next(state, event, current, max_retries).1 is Drain ==> next(
            state,
            event,
            current,
            max_retries,
        ).0 is Draining,
{
}

/// Once the ledger has confirmed an action, nothing that happens makes the
/// worker submit it again: until the cache has taken the write, the worker
/// keeps the action and its reference, and asks for nothing but that same
/// write, apart from reporting an action that it did not ask for.
pub proof fn lemma_cache_failure_never_resubmits(
    action: Action,
    reference: String,
    failures: u32,
    event: Event,
    current: Option<Contribution>,
    max_retries: u32,
)
    ensures
        ({
            let (state, command) = next(
                WorkerState::Caching { action, reference, failures },
                event,
                current,
                max_retries,
            );
            if event matches Event::Cache(Ok(_)) {
                state is Draining && command is Drain
            } else {
                &&& state matches WorkerState::Caching { action: kept, reference: tag, .. }
                &&& kept == action
                &&& tag == reference
                &&& !(command is Submit)
                &&& !(event matches Event::Drained(Some(_))) ==> {
                    &&& command matches Command::Apply { action: asked, reference: under, .. }
                    &&& asked == action
                    &&& under == reference
                }
            }
        }),
{
}

/// Resubmissions stay within the bound: from a state within it, the next
/// state is within it, a submission is never asked for beyond it, and an
/// action is given up as exhausted exactly when a transient failure meets
/// the bound.
pub proof fn lemma_retries_are_bounded(
    state: WorkerState,
    event: Event,
    current: Option<Contribution>,
    max_retries: u32,
)
    requires
        within_bound(state, max_retries),
    ensures
        ({
            let (following, command) = next(state, event, current, max_retries);
            &&& within_bound(following, max_retries)
            &&& command matches Command::Submit { retries, .. } ==> retries <= max_retries
            &&& command matches Command::Report {
                failure: Failure::RetriesExhausted { retries },
                ..
            } ==> retries == max_retries && event == Event::Ledger(
                Err::<String, LedgerError>(LedgerError::Transient),
            )
        }),
{
}

/// The state that a submitted action is in after `failures` transient
/// failures in a row, none of which exhausted the retries.
pub open spec fn after_transient_failures(
    action: Action,
    failures: nat,
    max_retries: u32,
) -> WorkerState
    decreases failures,
{
    if failures == 0 {
        WorkerState::Submitting { action, retries: 0 }
    } else {
        next(
            after_transient_failures(action, (failures - 1) as nat, max_retries),
            Event::Ledger(Err(LedgerError::Transient)),
            None,
            max_retries,
        ).0
    }
}

/// Transient failures within the bound do not lose the action: after any
/// number of them up to `max_retries` it is still being submitted, and the
/// ledger's confirmation then leads to one write of the cache under the
/// reference of the confirmation, after which the worker drains the queue
/// again.
pub proof fn lemma_transient_failures_then_success(
    action: Action,
    failures: nat,
    max_retries: u32,
    reference: String,
)
    requires
        failures <= max_retries,
    ensures
        after_transient_failures(action, failures, max_retries) == (WorkerState::Submitting {
            action,
            retries: failures as u32,
        }),
        next(
            after_transient_failures(action, failures, max_retries),
            Event::Ledger(Ok(reference)),
            None,
            max_retries,
        ) == (
            WorkerState::Caching { action, reference, failures: 0 },
            Command::Apply { action, reference, failures: 0 },
        ),
        next(
            WorkerState::Caching { action, reference, failures: 0 },
            Event::Cache(Ok(())),
            None,
            max_retries,
        ) == (WorkerState::Draining, Command::Drain),
    decreases failures,
{
    if failures > 0 {
        lemma_transient_failures_then_success(
            action,
            (failures - 1) as nat,
            max_retries,
            reference,
        );
    }
}

/// The ledger's refusal is final: a rejected action is reported and not
/// submitted again.
pub proof fn lemma_rejected_action_is_reported(action: Action, retries: u32, max_retries: u32)
    ensures
        next(
            WorkerState::Submitting { action, retries },
            Event::Ledger(Err(LedgerError::Rejected)),
            None,
            max_retries,
        ) == (WorkerState::Idle, Command::Report { action, failure: Failure::Rejected }),
{
}

/// The delay after doubling `delay`, held at `cap`.
pub open spec fn doubled(delay: nat, cap: nat) -> nat {
    if 2 * delay <= cap {
        2 * delay
    } else {
        cap
    }
}

/// The delay before the resubmission numbered `retries`, counting from
/// zero: `base` at first, doubled with every further retry, never above
/// `cap`.
pub open spec fn backoff(retries: nat, base: nat, cap: nat) -> nat
    decreases retries,
{
    if retries == 0 {
        if base <= cap {
            base
        } else {
            cap
        }
    } else {
        doubled(backoff((retries - 1) as nat, base, cap), cap)
    }
}

/// Once doubling no longer changes the delay, no further retry does.
proof fn lemma_backoff_settles(settled: nat, retries: nat, base: nat, cap: nat)
    requires
        settled <= retries,
        doubled(backoff(settled, base, cap), cap) == backoff(settled, base, cap),
    ensures
        backoff(retries, base, cap) == backoff(settled, base, cap),
    decreases retries - settled,
{
    if settled < retries {
        lemma_backoff_settles(settled, (retries - 1) as nat, base, cap);
    }
}

/// How long to wait, in milliseconds, before resubmitting an action that
/// failed transiently `retries` times before.
pub fn backoff_millis(retries: u32, base: u64, cap: u64) -> (delay: u64)
    ensures
        delay == backoff(retries as nat, base as nat, cap as nat),
{
    let mut delay = if base <= cap {
        base
    } else {
        cap
    };
    let mut done: u32 = 0;
    while done < retries
        invariant
            done <= retries,
            delay <= cap,
            delay == backoff(done as nat, base as nat, cap as nat),
        decreases retries - done,
    {
        let next = if delay <= cap / 2 {
            delay * 2
        } else {
            cap
        };
        if next == delay {
            proof {
                lemma_backoff_settles(done as nat, retries as nat, base as nat, cap as nat);
            }
            return delay;
        }
        delay = next;
        done += 1;
    }
    delay
}

/// The delay never exceeds the cap and never shrinks from one retry to the
/// next.
pub proof fn lemma_backoff_grows_to_cap(retries: nat, base: nat, cap: nat)
    ensures
        backoff(retries, base, cap) <= cap,
        backoff(retries, base, cap) <= backoff(retries + 1, base, cap),
    decreases retries,
{
    if retries > 0 {
        lemma_backoff_grows_to_cap((retries - 1) as nat, base, cap);
    }
}

/// The worker, out of `workers`, that every action about contribution `id`
/// goes to.
pub open spec fn shard_of(id: ContributionId, workers: nat) -> nat {
    (id.0 as nat) % workers
}

/// Picks the worker for `action` by the contribution it is about, so that
/// all actions about one contribution reach one worker and keep their
/// order. With no worker there is none to pick.
pub fn route(action: &Action, workers: usize) -> (worker: Option<usize>)
    ensures
        match worker {
            Some(index) => workers > 0 && index == shard_of(
                action.contribution_id(),
                workers as nat,
            ),
            None => workers == 0,
        },
{
    if workers == 0 {
        None
    } else {
        let id = action.contribution_id().0;
        Some((id % (workers as u64)) as usize)
    }
}

/// Actions about the same contribution are routed to the same worker, and
/// that worker is one of those there are.
pub proof fn lemma_same_contribution_same_worker(first: Action, second: Action, workers: nat)
    requires
        workers > 0,
        first.contribution_id() == second.contribution_id(),
    ensures
        shard_of(first.contribution_id(), workers) == shard_of(second.contribution_id(), workers),
        shard_of(first.contribution_id(), workers) < workers,
{
}

} // verus!
