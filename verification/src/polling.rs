//! The polling coordinator: repeated synchronization of one attempt within
//! a bounded budget of calls.
//!
//! The coordinator decides; it makes no call itself. Whoever runs it asks
//! for the next action, performs the call when one is due, and hands the
//! reply back.

use vstd::prelude::*;
use crate::attempt::{ConnectorEvent, PaymentAttempt};
use crate::canonical::CanonicalStatus;
use crate::connector::ConnectorError;

verus! {

/// Two to the power of `n`.
pub open spec fn two_to(n: nat) -> nat
    decreases n,
{
    if n == 0 {
        1
    } else {
        2 * two_to((n - 1) as nat)
    }
}

proof fn lemma_two_to_grows(a: nat, b: nat)
    requires
        a <= b,
    ensures
        1 <= two_to(a) <= two_to(b),
    decreases b,
{
    if b > 0 {
        if a < b {
            lemma_two_to_grows(a, (b - 1) as nat);
        } else {
            lemma_two_to_grows((a - 1) as nat, (b - 1) as nat);
        }
    }
}

/// How the wait between two polls grows.
#[derive(Debug, Clone, Copy, PartialEq, Eq, Structural)]
pub enum BackoffKind {
    /// The same interval before every poll.
    Fixed,
    /// An interval that doubles with every poll.
    Exponential,
}

/// The wait between two polls: an interval, fixed or doubling, and a
/// ceiling that no wait exceeds.
#[derive(Debug, Clone, Copy, PartialEq, Eq, Structural)]
pub struct BackoffPolicy {
    pub kind: BackoffKind,
    pub interval: u64,
    pub ceiling: u64,
}

impl BackoffPolicy {
    /// The wait that follows the poll with which `attempts_made` polls have
    /// been made: the interval, doubled once for every poll after the first
    /// if the policy is exponential, and at most the ceiling.
    pub open spec fn wait_after(&self, attempts_made: nat) -> nat {
        let grown = match self.kind {
            BackoffKind::Fixed => self.interval as nat,
            BackoffKind::Exponential => if attempts_made == 0 {
                self.interval as nat
            } else {
                self.interval as nat * two_to((attempts_made - 1) as nat)
            },
        };
        if grown < self.ceiling {
            grown
        } else {
            self.ceiling as nat
        }
    }

    /// The wait that follows the poll with which `attempts_made` polls have
    /// been made.
    pub fn wait(&self, attempts_made: u32) -> (r: u64)
        ensures
            r == self.wait_after(attempts_made as nat),
    {
        let first: u64 = if self.interval < self.ceiling {
            self.interval
        } else {
            self.ceiling
        };
        match self.kind {
            BackoffKind::Fixed => first,
            BackoffKind::Exponential => {
                if self.interval == 0 || attempts_made == 0 {
                    proof {
                        assert(0 * two_to((attempts_made - 1) as nat) == 0) by (nonlinear_arith);
                    }
                    return first;
                }
                let mut wait: u64 = first;
                let mut polls: u32 = 1;
                assert(self.interval as nat * two_to(0) == self.interval) by {
                    assert(two_to(0) == 1);
                }
                while polls < attempts_made && wait < self.ceiling
                    invariant
                        1 <= polls <= attempts_made,
                        self.interval > 0,
                        wait <= self.ceiling,
                        wait < self.ceiling ==> wait == self.interval as nat * two_to(
                            (polls - 1) as nat,
                        ),
                        wait == self.ceiling ==> self.interval as nat * two_to((polls - 1) as nat)
                            >= self.ceiling,
                    decreases attempts_made - polls,
                {
                    proof {
                        assert(two_to(polls as nat) == 2 * two_to((polls - 1) as nat));
                        assert(self.interval as nat * two_to(polls as nat) == 2 * (
                        self.interval as nat * two_to((polls - 1) as nat))) by (nonlinear_arith)
                            requires
                                two_to(polls as nat) == 2 * two_to((polls - 1) as nat),
                        ;
                    }
                    if wait > self.ceiling / 2 {
                        wait = self.ceiling;
                    } else {
                        wait = wait * 2;
                    }
                    polls = polls + 1;
                }
                proof {
                    if polls < attempts_made {
                        lemma_two_to_grows((polls - 1) as nat, (attempts_made - 1) as nat);
                        assert(self.interval as nat * two_to((attempts_made - 1) as nat)
                            >= self.interval as nat * two_to((polls - 1) as nat))
                            by (nonlinear_arith)
                            requires
                                two_to((polls - 1) as nat) <= two_to((attempts_made - 1) as nat),
                        ;
                    }
                }
                wait
            },
        }
    }
}


/// The terminal status that a polling run is meant to reach.
#[derive(Debug, Clone, Copy, PartialEq, Eq, Structural)]
pub enum TerminalTarget {
    /// Any terminal status will do.
    Any,
    /// This status is expected.
    Exactly(CanonicalStatus),
}

impl TerminalTarget {
    /// Whether `status` is what the run was meant to reach.
    pub open spec fn met_by(&self, status: CanonicalStatus) -> bool {
        match self {
            TerminalTarget::Any => true,
            TerminalTarget::Exactly(wanted) => *wanted == status,
        }
    }

    /// Whether `status` is what the run was meant to reach.
    pub fn is_met_by(&self, status: CanonicalStatus) -> (r: bool)
        ensures
            r == self.met_by(status),
    {
        match self {
            TerminalTarget::Any => true,
            TerminalTarget::Exactly(wanted) => *wanted == status,
        }
    }
}

/// How a polling run ended.
#[derive(Debug, PartialEq, Eq)]
pub enum PollOutcome {
    /// The attempt is in a terminal status; `target_met` tells whether it
    /// is the one that was meant.
    Resolved { status: CanonicalStatus, target_met: bool },
    /// The budget of calls is used up and the attempt is still not in a
    /// terminal status. The attempt is still pending; nothing is undone.
    SyncExhausted,
    /// A call failed in a way that no retry can mend.
    Aborted(ConnectorError),
}

/// What the coordinator wants done next.
#[derive(Debug, PartialEq, Eq)]
pub enum PollAction {
    /// Call the connector's sync operation, not before `at`.
    Sync { at: u64 },
    /// Stop: the run is over.
    Finish(PollOutcome),
}

/// What came back from one call of a connector's sync operation.
#[derive(Debug, PartialEq, Eq)]
pub struct SyncReply {
    pub received_at: u64,
    pub result: Result<ConnectorEvent, ConnectorError>,
}

/// The schedule of one polling run: whose status is polled, when the next
/// call is due, and how much of the budget is used.
#[derive(Debug, PartialEq, Eq)]
pub struct PollingTask {
    pub attempt_ref: u64,
    pub next_poll_at: u64,
    pub attempts_made: u32,
    pub max_attempts: u32,
    pub terminal_target: TerminalTarget,
    pub backoff: BackoffPolicy,
}

impl PollingTask {
    /// What is to be done next for `attempt`: nothing more if the attempt
    /// is in a terminal status, or else if the budget is used up; otherwise
    /// a call at the scheduled time.
    pub open spec fn due(&self, attempt: &PaymentAttempt) -> PollAction {
        if attempt.status.terminal() {
            PollAction::Finish(
                PollOutcome::Resolved {
                    status: attempt.status,
                    target_met: self.terminal_target.met_by(attempt.status),
                },
            )
        } else if self.attempts_made >= self.max_attempts {
            PollAction::Finish(PollOutcome::SyncExhausted)
        } else {
            PollAction::Sync { at: self.next_poll_at }
        }
    }

    /// The attempt after `reply` has been recorded. A reply that was not
    /// due changes nothing. A status that the connector reported is merged
    /// into the attempt; a transient failure adds one to its retry count
    /// (which stops at the largest number it can hold); any other failure
    /// changes nothing.
    pub open spec fn attempt_after(&self, attempt: &PaymentAttempt, reply: &SyncReply)
        -> PaymentAttempt {
        if !(self.due(attempt) is Sync) {
            *attempt
        } else {
            match reply.result {
                Ok(event) => attempt.after(&event),
                Err(error) => if error.transient() && attempt.retry_count < u32::MAX {
                    PaymentAttempt { retry_count: (attempt.retry_count + 1) as u32, ..*attempt }
                } else {
                    *attempt
                },
            }
        }
    }

    /// The task after `reply` has been recorded. A reply that was due uses
    /// up one call of the budget, whatever it holds. If the run goes on, the
    /// next call is scheduled after the reply by the wait of the backoff
    /// policy (at the largest time that can be held, if the sum exceeds it).
    pub open spec fn task_after(&self, attempt: &PaymentAttempt, reply: &SyncReply) -> PollingTask {
        if !(self.due(attempt) is Sync) {
            *self
        } else {
            let made = (self.attempts_made + 1) as u32;
            let goes_on = made < self.max_attempts && !self.attempt_after(
                attempt,
                reply,
            ).status.terminal() && !Self::aborts(reply);
            let next = reply.received_at + self.backoff.wait_after(made as nat);
            PollingTask {
                attempts_made: made,
                next_poll_at: if !goes_on {
                    self.next_poll_at
                } else if next > u64::MAX {
                    u64::MAX
                } else {
                    next as u64
                },
                ..*self
            }
        }
    }

    /// Whether `reply` holds a failure that no retry can mend.
    pub open spec fn aborts(reply: &SyncReply) -> bool {
        reply.result is Err && !reply.result->Err_0.transient()
    }

    /// What is to be done once `reply` has been recorded.
    pub open spec fn action_after(&self, attempt: &PaymentAttempt, reply: &SyncReply) -> PollAction {
        if self.due(attempt) is Sync && Self::aborts(reply) {
            PollAction::Finish(PollOutcome::Aborted(reply.result->Err_0))
        } else {
            self.task_after(attempt, reply).due(&self.attempt_after(attempt, reply))
        }
    }

    /// A new polling run for the attempt `attempt_ref`, with its first call
    /// due at `first_poll_at` and none of its budget used.
    pub fn new(
        attempt_ref: u64,
        first_poll_at: u64,
        max_attempts: u32,
        terminal_target: TerminalTarget,
        backoff: BackoffPolicy,
    ) -> (r: PollingTask)
        ensures
            r == (PollingTask {
                attempt_ref,
                next_poll_at: first_poll_at,
                attempts_made: 0,
                max_attempts,
                terminal_target,
                backoff,
            }),
    {
        PollingTask {
            attempt_ref,
            next_poll_at: first_poll_at,
            attempts_made: 0,
            max_attempts,
            terminal_target,
            backoff,
        }
    }

    /// What is to be done next for `attempt`.
    pub fn next_action(&self, attempt: &PaymentAttempt) -> (r: PollAction)
        ensures
            r == self.due(attempt),
    {
        if attempt.status.is_terminal() {
            PollAction::Finish(
                PollOutcome::Resolved {
                    status: attempt.status,
                    target_met: self.terminal_target.is_met_by(attempt.status),
                },
            )
        } else if self.attempts_made >= self.max_attempts {
            PollAction::Finish(PollOutcome::SyncExhausted)
        } else {
            PollAction::Sync { at: self.next_poll_at }
        }
    }

    /// Records what came back from the call that was due, and says what is
    /// to be done next.
    ///
    /// If no call was due (the attempt is in a terminal status or the
    /// budget is used up), the reply is ignored and nothing changes. Otherwise the reply uses up one call of the budget.
    /// A reported status is merged into the attempt; a `Network` or
    /// `Timeout` failure counts as a retry; any other failure ends the run
    /// at once. The run then goes on with a call after the backoff's wait,
    /// or ends because the attempt is in a terminal status or the budget is
    /// used up.
    pub fn record(&mut self, attempt: &mut PaymentAttempt, reply: &SyncReply) -> (r: PollAction)
        ensures
            *final(self) == old(self).task_after(old(attempt), reply),
            *final(attempt) == old(self).attempt_after(old(attempt), reply),
            r == old(self).action_after(old(attempt), reply),
    {
        let due = self.next_action(attempt);
        match due {
            PollAction::Finish(_) => {
                return due;
            },
            PollAction::Sync { .. } => {},
        }
        let made: u32 = self.attempts_made + 1;
        self.attempts_made = made;
        match &reply.result {
            Ok(event) => {
                attempt.apply_event(event);
            },
            Err(error) => {
                if !error.is_transient() {
                    return PollAction::Finish(PollOutcome::Aborted(error.clone()));
                }
                if attempt.retry_count < u32::MAX {
                    attempt.retry_count = attempt.retry_count + 1;
                }
            },
        }
        if made < self.max_attempts && !attempt.status.is_terminal() {
            let wait = self.backoff.wait(made);
            self.next_poll_at = if wait > u64::MAX - reply.received_at {
                u64::MAX
            } else {
                reply.received_at + wait
            };
        }
        self.next_action(attempt)
    }
}


/// A polling run played through: the task and the attempt at its end, the
/// number of calls that were made, and what was to be done after the last.
pub struct PollTrace {
    pub task: PollingTask,
    pub attempt: PaymentAttempt,
    pub calls: nat,
    pub action: PollAction,
}

impl PollingTask {
    /// The run played through with `replies` as the answers to its calls,
    /// in order. The run makes a call whenever one is due and a reply is
    /// left for it, and records the reply.
    pub open spec fn trace(&self, attempt: &PaymentAttempt, replies: Seq<SyncReply>) -> PollTrace
        decreases replies.len(),
    {
        if !(self.due(attempt) is Sync) || replies.len() == 0 {
            PollTrace { task: *self, attempt: *attempt, calls: 0, action: self.due(attempt) }
        } else {
            let task = self.task_after(attempt, &replies[0]);
            let merged = self.attempt_after(attempt, &replies[0]);
            let action = self.action_after(attempt, &replies[0]);
            if action is Finish {
                PollTrace { task, attempt: merged, calls: 1, action }
            } else {
                let rest = task.trace(&merged, replies.drop_first());
                PollTrace { calls: rest.calls + 1, ..rest }
            }
        }
    }

    /// Plays the run through with `replies` as the answers to its calls, in
    /// order: as long as a call is due and a reply is left, the next reply
    /// is recorded. Returns the number of calls that were answered and what
    /// is to be done next: the outcome if the run is over, or the call that
    /// is still due if the replies ran out.
    pub fn run(&mut self, attempt: &mut PaymentAttempt, replies: &Vec<SyncReply>) -> (r: (
        usize,
        PollAction,
    ))
        ensures
            ({
                let t = old(self).trace(old(attempt), replies@);
                &&& *final(self) == t.task
                &&& *final(attempt) == t.attempt
                &&& r.0 == t.calls
                &&& r.1 == t.action
            }),
    {
        let mut calls: usize = 0;
        assert(replies@.skip(0) == replies@);
        loop
            invariant
                calls <= replies.len(),
                ({
                    let whole = old(self).trace(old(attempt), replies@);
                    let rest = self.trace(attempt, replies@.skip(calls as int));
                    whole == (PollTrace { calls: (rest.calls + calls) as nat, ..rest })
                }),
            decreases replies.len() - calls,
        {
            let due = self.next_action(attempt);
            match due {
                PollAction::Finish(_) => {
                    return (calls, due);
                },
                PollAction::Sync { .. } => {},
            }
            if calls >= replies.len() {
                return (calls, due);
            }
            proof {
                let left = replies@.skip(calls as int);
                assert(left[0] == replies@[calls as int]);
                assert(left.drop_first() == replies@.skip(calls + 1));
            }
            let action = self.record(attempt, &replies[calls]);
            calls = calls + 1;
            match action {
                PollAction::Finish(_) => {
                    return (calls, action);
                },
                PollAction::Sync { .. } => {},
            }
        }
    }
}

/// A polling run never makes more calls than its budget has left, and
/// every call it makes is counted.
pub proof fn lemma_calls_stay_within_budget(
    task: PollingTask,
    attempt: PaymentAttempt,
    replies: Seq<SyncReply>,
)
    ensures
        ({
            let t = task.trace(&attempt, replies);
            &&& t.calls <= replies.len()
            &&& t.calls > 0 ==> t.calls <= task.max_attempts - task.attempts_made
            &&& t.task.attempts_made == task.attempts_made + t.calls
            &&& t.task.max_attempts == task.max_attempts
            &&& !(t.action is Sync) || t.calls == replies.len()
        }),
    decreases replies.len(),
{
    if task.due(&attempt) is Sync && replies.len() > 0 {
        let next = task.task_after(&attempt, &replies[0]);
        let merged = task.attempt_after(&attempt, &replies[0]);
        if !(task.action_after(&attempt, &replies[0]) is Finish) {
            lemma_calls_stay_within_budget(next, merged, replies.drop_first());
        }
    }
}

/// Polling ends. If every call is answered with a status that is not
/// terminal, or fails in a way that may be tried again, then a run makes
/// exactly as many calls as its budget has left and ends with
/// `SyncExhausted`, the attempt still not in a terminal status.
pub proof fn lemma_polling_exhausts_budget(
    task: PollingTask,
    attempt: PaymentAttempt,
    replies: Seq<SyncReply>,
)
    requires
        !attempt.status.terminal(),
        task.attempts_made <= task.max_attempts,
        replies.len() >= task.max_attempts - task.attempts_made,
        forall|i: int|
            0 <= i < replies.len() ==> match (#[trigger] replies[i]).result {
                Ok(event) => !event.observed_status.terminal(),
                Err(error) => error.transient(),
            },
    ensures
        ({
            let t = task.trace(&attempt, replies);
            &&& t.calls == task.max_attempts - task.attempts_made
            &&& t.action == PollAction::Finish(PollOutcome::SyncExhausted)
            &&& !t.attempt.status.terminal()
        }),
    decreases replies.len(),
{
    if task.due(&attempt) is Sync && replies.len() > 0 {
        let next = task.task_after(&attempt, &replies[0]);
        let merged = task.attempt_after(&attempt, &replies[0]);
        let first = replies[0];
        assert(!merged.status.terminal());
        if !(task.action_after(&attempt, &first) is Finish) {
            let rest = replies.drop_first();
            assert forall|i: int| 0 <= i < rest.len() implies match (#[trigger] rest[i]).result {
                Ok(event) => !event.observed_status.terminal(),
                Err(error) => error.transient(),
            } by {
                assert(rest[i] == replies[i + 1]);
            }
            lemma_polling_exhausts_budget(next, merged, rest);
        }
    }
}

} // verus!
