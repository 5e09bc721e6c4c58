//! The polling coordinator's book of runs: the polling runs that are
//! under way, at most one for each attempt. A run enters the book when it
//! is scheduled and leaves it when it ends or is cancelled.

use vstd::prelude::*;
use crate::engine::ReconciliationEngine;
use crate::polling::{PollAction, PollingTask, SyncReply};

verus! {

/// No attempt has two runs.
pub open spec fn distinct_runs(tasks: Seq<PollingTask>) -> bool {
    forall|i: int, j: int|
        0 <= i < j < tasks.len() ==> (#[trigger] tasks[i]).attempt_ref != (
        #[trigger] tasks[j]).attempt_ref
}

/// Whether one of `tasks` is the run of `attempt_ref`.
pub open spec fn has_run(tasks: Seq<PollingTask>, attempt_ref: u64) -> bool {
    exists|i: int| 0 <= i < tasks.len() && (#[trigger] tasks[i]).attempt_ref == attempt_ref
}

/// The place among `tasks` of the run of `attempt_ref`, if it has one.
pub open spec fn run_at(tasks: Seq<PollingTask>, attempt_ref: u64) -> int {
    choose|i: int| 0 <= i < tasks.len() && (#[trigger] tasks[i]).attempt_ref == attempt_ref
}

/// Whether the run at `i` is the one to serve first at the time `now`: it
/// is due, no run is due earlier, and of those due at the same time it
/// comes first.
pub open spec fn first_due(tasks: Seq<PollingTask>, i: int, now: u64) -> bool {
    &&& 0 <= i < tasks.len()
    &&& tasks[i].next_poll_at <= now
    &&& forall|j: int| 0 <= j < tasks.len() ==> tasks[i].next_poll_at <= (#[trigger] tasks[j]).next_poll_at
    &&& forall|j: int| 0 <= j < i ==> tasks[i].next_poll_at < (#[trigger] tasks[j]).next_poll_at
}

/// The runs that are under way, at most one for each attempt.
pub struct PollingCoordinator {
    tasks: Vec<PollingTask>,
}

impl View for PollingCoordinator {
    type V = Seq<PollingTask>;

    /// The runs, in the order in which they were scheduled.
    closed spec fn view(&self) -> Seq<PollingTask> {
        self.tasks@
    }
}

/// The place in `tasks` of the run of `attempt_ref`, if it has one.
fn place_of(tasks: &Vec<PollingTask>, attempt_ref: u64) -> (r: Option<usize>)
    ensures
        match r {
            Some(i) => i < tasks@.len() && tasks@[i as int].attempt_ref == attempt_ref,
            None => !has_run(tasks@, attempt_ref),
        },
{
    let mut i: usize = 0;
    while i < tasks.len()
        invariant
            i <= tasks@.len(),
            forall|j: int| 0 <= j < i ==> (#[trigger] tasks@[j]).attempt_ref != attempt_ref,
        decreases tasks@.len() - i,
    {
        if tasks[i].attempt_ref == attempt_ref {
            return Some(i);
        }
        i += 1;
    }
    None
}

impl PollingCoordinator {
    #[verifier::type_invariant]
    spec fn inv(&self) -> bool {
        distinct_runs(self.tasks@)
    }

    /// A coordinator with no run under way.
    pub fn new() -> (r: PollingCoordinator)
        ensures
            r@.len() == 0,
    {
        PollingCoordinator { tasks: Vec::new() }
    }

    /// The runs, in the order in which they were scheduled.
    pub fn tasks(&self) -> (r: &Vec<PollingTask>)
        ensures
            r@ == self@,
            distinct_runs(self@),
    {
        proof {
            use_type_invariant(self);
        }
        &self.tasks
    }

    /// Takes a run into the book, unless its attempt already has one.
    /// Returns whether the run was taken.
    pub fn schedule(&mut self, task: PollingTask) -> (r: bool)
        ensures
            r == !has_run(old(self)@, task.attempt_ref),
            r ==> final(self)@ == old(self)@.push(task),
            !r ==> final(self)@ == old(self)@,
    {
        proof {
            use_type_invariant(&*self);
        }
        if place_of(&self.tasks, task.attempt_ref).is_some() {
            return false;
        }
        let mut tasks: Vec<PollingTask> = Vec::new();
        std::mem::swap(&mut tasks, &mut self.tasks);
        tasks.push(task);
        self.tasks = tasks;
        true
    }

    /// Cancels the run of an attempt: the run leaves the book, so that no
    /// further call is made for it. What its replies have changed in the
    /// attempt stays. Returns whether the attempt had a run.
    pub fn cancel(&mut self, attempt_ref: u64) -> (r: bool)
        ensures
            r == has_run(old(self)@, attempt_ref),
            r ==> final(self)@ == old(self)@.remove(run_at(old(self)@, attempt_ref)),
            !r ==> final(self)@ == old(self)@,
            !has_run(final(self)@, attempt_ref),
    {
        proof {
            use_type_invariant(&*self);
        }
        let mut tasks: Vec<PollingTask> = Vec::new();
        std::mem::swap(&mut tasks, &mut self.tasks);
        let ghost before = tasks@;
        let r = match place_of(&tasks, attempt_ref) {
            None => false,
            Some(i) => {
                proof {
                    lemma_run_is_unique(before, attempt_ref, i as int);
                }
                tasks.remove(i);
                proof {
                    lemma_removed_run(before, i as int);
                }
                true
            },
        };
        self.tasks = tasks;
        r
    }

    /// The attempt whose run is to be served first at the time `now`, if
    /// any run is due.
    pub fn next_due(&self, now: u64) -> (r: Option<u64>)
        ensures
            match r {
                Some(attempt_ref) => has_run(self@, attempt_ref) && first_due(
                    self@,
                    run_at(self@, attempt_ref),
                    now,
                ),
                None => forall|j: int| 0 <= j < self@.len() ==> (#[trigger] self@[j]).next_poll_at > now,
            },
    {
        proof {
            use_type_invariant(self);
        }
        let mut best: Option<usize> = None;
        let mut i: usize = 0;
        while i < self.tasks.len()
            invariant
                i <= self.tasks@.len(),
                match best {
                    Some(b) => {
                        &&& b < i
                        &&& self.tasks@[b as int].next_poll_at <= now
                        &&& forall|j: int|
                            0 <= j < i ==> self.tasks@[b as int].next_poll_at <= (
                            #[trigger] self.tasks@[j]).next_poll_at
                        &&& forall|j: int|
                            0 <= j < b ==> self.tasks@[b as int].next_poll_at < (
                            #[trigger] self.tasks@[j]).next_poll_at
                    },
                    None => forall|j: int| 0 <= j < i ==> (#[trigger] self.tasks@[j]).next_poll_at > now,
                },
            decreases self.tasks@.len() - i,
        {
            let at = self.tasks[i].next_poll_at;
            if at <= now {
                best = match best {
                    None => Some(i),
                    Some(b) => if at < self.tasks[b].next_poll_at {
                        Some(i)
                    } else {
                        Some(b)
                    },
                };
            }
            i += 1;
        }
        match best {
            None => None,
            Some(b) => {
                proof {
                    lemma_run_is_unique(self.tasks@, self.tasks@[b as int].attempt_ref, b as int);
                }
                Some(self.tasks[b].attempt_ref)
            },
        }
    }

    /// What is to be done next for an attempt's run; `None` if the attempt
    /// has no run or if the ledger does not hold the attempt.
    pub fn next_action(&self, engine: &ReconciliationEngine, attempt_ref: u64) -> (r: Option<
        PollAction,
    >)
        ensures
            !has_run(self@, attempt_ref) || attempt_ref >= engine@.len() ==> r is None,
            has_run(self@, attempt_ref) && attempt_ref < engine@.len() ==> r == Some(
                self@[run_at(self@, attempt_ref)].due(&engine@[attempt_ref as int]),
            ),
    {
        proof {
            use_type_invariant(self);
        }
        match place_of(&self.tasks, attempt_ref) {
            None => None,
            Some(i) => {
                proof {
                    lemma_run_is_unique(self.tasks@, attempt_ref, i as int);
                }
                engine.next_poll(&self.tasks[i])
            },
        }
    }

    /// Records the reply to the call that was made for an attempt's run,
    /// and says what is to be done next. A run that ends leaves the book.
    ///
    /// `None`, with nothing changed, if the attempt has no run or if the
    /// ledger does not hold the attempt.
    pub fn record(&mut self, engine: &mut ReconciliationEngine, attempt_ref: u64, reply: &SyncReply)
        -> (r: Option<PollAction>)
        ensures
            crate::engine::succeeds(final(engine)@, old(engine)@),
            !has_run(old(self)@, attempt_ref) || attempt_ref >= old(engine)@.len() ==> {
                &&& r is None
                &&& final(self)@ == old(self)@
                &&& final(engine)@ == old(engine)@
            },
            has_run(old(self)@, attempt_ref) && attempt_ref < old(engine)@.len() ==> {
                let place = run_at(old(self)@, attempt_ref);
                let task = old(self)@[place];
                let attempt = old(engine)@[attempt_ref as int];
                &&& r == Some(task.action_after(&attempt, reply))
                &&& final(engine)@ == old(engine)@.update(
                    attempt_ref as int,
                    task.attempt_after(&attempt, reply),
                )
                &&& final(self)@ == if task.action_after(&attempt, reply) is Finish {
                    old(self)@.remove(place)
                } else {
                    old(self)@.update(place, task.task_after(&attempt, reply))
                }
            },
    {
        proof {
            use_type_invariant(&*self);
            crate::engine::lemma_succession_composes(engine@, engine@, engine@);
        }
        let mut tasks: Vec<PollingTask> = Vec::new();
        std::mem::swap(&mut tasks, &mut self.tasks);
        let ghost before = tasks@;
        let r = match place_of(&tasks, attempt_ref) {
            None => None,
            Some(i) => {
                proof {
                    lemma_run_is_unique(before, attempt_ref, i as int);
                }
                let task = &mut tasks[i];
                let r = engine.record_poll(task, reply);
                let ended = match &r {
                    Some(PollAction::Finish(_)) => true,
                    _ => false,
                };
                if ended {
                    let ghost middle = tasks@;
                    tasks.remove(i);
                    proof {
                        assert(middle.remove(i as int) == before.remove(i as int));
                        lemma_removed_run(before, i as int);
                    }
                } else {
                    proof {
                        assert forall|a: int, b: int| 0 <= a < b < tasks@.len() implies (
                        #[trigger] tasks@[a]).attempt_ref != (#[trigger] tasks@[b]).attempt_ref by {
                            assert(tasks@[a].attempt_ref == before[a].attempt_ref);
                            assert(tasks@[b].attempt_ref == before[b].attempt_ref);
                        }
                    }
                }
                r
            },
        };
        self.tasks = tasks;
        r
    }
}

/// An attempt has one run at most: the run of an attempt is found at one
/// place only.
pub proof fn lemma_run_is_unique(tasks: Seq<PollingTask>, attempt_ref: u64, i: int)
    requires
        distinct_runs(tasks),
        0 <= i < tasks.len(),
        tasks[i].attempt_ref == attempt_ref,
    ensures
        has_run(tasks, attempt_ref),
        run_at(tasks, attempt_ref) == i,
{
    let k = run_at(tasks, attempt_ref);
    if k < i {
        assert(tasks[k].attempt_ref != tasks[i].attempt_ref);
    } else if i < k {
        assert(tasks[i].attempt_ref != tasks[k].attempt_ref);
    }
}

/// A run that leaves the book leaves it whole: its attempt has no run any
/// more, and no attempt has two.
pub proof fn lemma_removed_run(tasks: Seq<PollingTask>, i: int)
    requires
        distinct_runs(tasks),
        0 <= i < tasks.len(),
    ensures
        distinct_runs(tasks.remove(i)),
        !has_run(tasks.remove(i), tasks[i].attempt_ref),
{
    let after = tasks.remove(i);
    assert forall|k: int| 0 <= k < after.len() implies (#[trigger] after[k]).attempt_ref
        != tasks[i].attempt_ref by {
        if k < i {
            assert(after[k] == tasks[k]);
            assert(tasks[k].attempt_ref != tasks[i].attempt_ref);
        } else {
            assert(after[k] == tasks[k + 1]);
            assert(tasks[i].attempt_ref != tasks[k + 1].attempt_ref);
        }
    }
    assert forall|a: int, b: int| 0 <= a < b < after.len() implies (#[trigger] after[a]).attempt_ref != (
    #[trigger] after[b]).attempt_ref by {
        let a0 = if a < i { a } else { a + 1 };
        let b0 = if b < i { b } else { b + 1 };
        assert(after[a] == tasks[a0]);
        assert(after[b] == tasks[b0]);
        assert(tasks[a0].attempt_ref != tasks[b0].attempt_ref);
    }
}

} // verus!
