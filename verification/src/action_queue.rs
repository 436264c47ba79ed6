//! The buffer of pending actions between the request handlers and the worker.

use vstd::prelude::*;
use std::collections::VecDeque;
use crate::domain::Action;
use crate::errors::QueueError;

verus! {

/// Pending actions, oldest first. An entry is never changed in place: it is
/// appended by `push` and leaves through one of the drains.
pub struct ActionQueue {
    pending: VecDeque<Action>,
}

impl View for ActionQueue {
    type V = Seq<Action>;

    closed spec fn view(&self) -> Seq<Action> {
        self.pending@
    }
}

impl ActionQueue {
    /// An empty queue.
    pub fn new() -> (queue: ActionQueue)
        ensures
            queue@ == Seq::<Action>::empty(),
    {
        ActionQueue { pending: VecDeque::new() }
    }

    /// Number of pending actions.
    pub fn len(&self) -> (len: usize)
        ensures
            len == self@.len(),
    {
        self.pending.len()
    }

    /// Whether nothing is pending.
    pub fn is_empty(&self) -> (empty: bool)
        ensures
            empty <==> self@.len() == 0,
    {
        self.pending.len() == 0
    }

    /// Appends `action` behind everything already pending.
    pub fn push(&mut self, action: Action)
        ensures
            final(self)@ == old(self)@.push(action),
    {
        self.pending.push_back(action);
    }

    /// Removes and returns the oldest pending action, if there is one.
    pub fn drain_one(&mut self) -> (oldest: Option<Action>)
        ensures
            old(self)@.len() == 0 ==> oldest is None && final(self)@ == old(self)@,
            old(self)@.len() > 0 ==> oldest == Some(old(self)@[0]) && final(self)@ == old(
                self,
            )@.drop_first(),
    {
        self.pending.pop_front()
    }

    /// Removes every pending action and returns them in the order in which
    /// they were pushed.
    pub fn drain_all(&mut self) -> (drained: Vec<Action>)
        ensures
            drained@ == old(self)@,
            final(self)@ == Seq::<Action>::empty(),
    {
        let mut drained: Vec<Action> = Vec::new();
        let ghost before = self.pending@;
        loop
            invariant
                drained@ + self.pending@ == before,
            ensures
                self.pending@.len() == 0,
            decreases self.pending@.len(),
        {
            match self.pending.pop_front() {
                Some(action) => {
                    proof {
                        assert(drained@.push(action) + self.pending@ =~= before);
                    }
                    drained.push(action);
                },
                None => {
                    break ;
                },
            }
        }
        proof {
            assert(drained@ =~= before);
            assert(self.pending@ =~= Seq::<Action>::empty());
        }
        drained
    }
}

/// Hands `action` to the queue behind `lock`, the outcome of acquiring the
/// lock around it: the queue itself, or the reason why it could not be had.
/// Without the lock the action is not enqueued, and the caller is told so.
pub fn enqueue(lock: Result<&mut ActionQueue, String>, action: Action) -> (result: Result<
    (),
    QueueError,
>)
    ensures
        match lock {
            Ok(queue) => result is Ok && final(queue)@ == queue@.push(action),
            Err(reason) => result matches Err(QueueError::LockUnavailable(given)) && given
                == reason,
        },
{
    match lock {
        Ok(queue) => {
            queue.push(action);
            Ok(())
        },
        Err(reason) => Err(QueueError::LockUnavailable(reason)),
    }
}

/// The pending sequence after pushing each action of `pushed` in turn.
pub open spec fn push_all(pending: Seq<Action>, pushed: Seq<Action>) -> Seq<Action>
    decreases pushed.len(),
{
    if pushed.len() == 0 {
        pending
    } else {
        push_all(pending, pushed.drop_last()).push(pushed.last())
    }
}

/// What the drain numbered `n`, counting from zero, yields when the queue is
/// drained one action at a time, starting with `pending`.
pub open spec fn nth_drained(pending: Seq<Action>, n: nat) -> Option<Action>
    decreases n,
{
    if pending.len() == 0 {
        None
    } else if n == 0 {
        Some(pending[0])
    } else {
        nth_drained(pending.drop_first(), (n - 1) as nat)
    }
}

/// Pushing appends: after pushing `pushed` one by one, the queue holds what
/// was pending before, followed by `pushed`, each in its order.
pub proof fn lemma_pushes_append(pending: Seq<Action>, pushed: Seq<Action>)
    ensures
        push_all(pending, pushed) == pending + pushed,
    decreases pushed.len(),
{
    if pushed.len() > 0 {
        lemma_pushes_append(pending, pushed.drop_last());
        assert((pending + pushed.drop_last()).push(pushed.last()) =~= pending + pushed);
    } else {
        assert(pending + pushed =~= pending);
    }
}

/// Draining one by one walks the queue from its oldest action on, and
/// yields nothing once the queue is exhausted.
pub proof fn lemma_drains_walk_the_queue(pending: Seq<Action>, n: nat)
    ensures
        nth_drained(pending, n) == (if n < pending.len() {
            Some(pending[n as int])
        } else {
            None
        }),
    decreases n,
{
    if pending.len() > 0 && n > 0 {
        lemma_drains_walk_the_queue(pending.drop_first(), (n - 1) as nat);
    }
}

/// Actions come out in the order in which they went in: once what was
/// pending before has been drained, the drains yield the pushed actions one
/// by one, in push order, whatever contribution they are about.
pub proof fn lemma_drain_preserves_push_order(pending: Seq<Action>, pushed: Seq<Action>, i: nat)
    requires
        i < pushed.len(),
    ensures
        nth_drained(push_all(pending, pushed), pending.len() + i) == Some(pushed[i as int]),
{
    lemma_pushes_append(pending, pushed);
    lemma_drains_walk_the_queue(pending + pushed, pending.len() + i);
}

} // verus!
