//! One writer: it opens its own connection, relaxes the engine's
//! synchronisation, and inserts a given number of generated records, one
//! statement each.

use crate::error::{BenchError, ErrorView};
use crate::protocol::{Action, ActionView, Pragma, Reply, ReplyView};
use crate::record::User;
use vstd::prelude::*;

verus! {

/// How far a worker has come.
#[derive(Debug, Clone, PartialEq, Eq)]
pub enum WorkPhase {
    /// Waiting for the connection.
    Opening,
    /// Waiting for the synchronisation level to be set.
    Tuning,
    /// Waiting for an insert.
    Inserting,
    /// Every insert was carried out.
    Finished,
    /// The worker has given up, and why.
    Failed(BenchError),
}

/// A phase as contracts see it.
pub enum WorkPhaseView {
    Opening,
    Tuning,
    Inserting,
    Finished,
    Failed(ErrorView),
}

impl View for WorkPhase {
    type V = WorkPhaseView;

    open spec fn view(&self) -> WorkPhaseView {
        match *self {
            WorkPhase::Opening => WorkPhaseView::Opening,
            WorkPhase::Tuning => WorkPhaseView::Tuning,
            WorkPhase::Inserting => WorkPhaseView::Inserting,
            WorkPhase::Finished => WorkPhaseView::Finished,
            WorkPhase::Failed(e) => WorkPhaseView::Failed(e@),
        }
    }
}

/// A worker and its progress.
#[derive(Debug, PartialEq, Eq)]
pub struct Worker {
    phase: WorkPhase,
    target: u64,
    done: u64,
}

/// A worker as contracts see it.
pub struct WorkView {
    pub phase: WorkPhaseView,
    /// The number of inserts that the worker was given.
    pub target: nat,
    /// The number of inserts that were carried out.
    pub done: nat,
}

impl WorkView {
    /// A worker begins by opening its connection.
    pub open spec fn start(target: nat) -> WorkView {
        WorkView { phase: WorkPhaseView::Opening, target, done: 0 }
    }

    /// What holds of every worker: it has not inserted before it is set up,
    /// an insert is outstanding only while some are left, and it has
    /// finished only when none is.
    pub open spec fn wf(self) -> bool {
        &&& self.done <= self.target
        &&& (self.phase is Opening || self.phase is Tuning) ==> self.done == 0
        &&& self.phase is Inserting ==> self.done < self.target
        &&& self.phase is Finished ==> self.done == self.target
    }

    /// Whether the worker has ended, well or not.
    pub open spec fn ended(self) -> bool {
        self.phase is Finished || self.phase is Failed
    }

    /// The phase after `done` inserts when nothing has failed.
    pub open spec fn inserting_or_finished(self, done: nat) -> WorkPhaseView {
        if done < self.target {
            WorkPhaseView::Inserting
        } else {
            WorkPhaseView::Finished
        }
    }

    /// The worker after the reply to the action of this phase.
    ///
    /// A worker that has ended stays as it is. Any failure ends the worker;
    /// nothing is tried again.
    pub open spec fn next(self, reply: ReplyView) -> WorkView {
        if self.ended() {
            self
        } else {
            match reply {
                ReplyView::Failed { reason, .. } => WorkView {
                    phase: WorkPhaseView::Failed(ErrorView::Insert { reason }),
                    ..self
                },
                ReplyView::Done => match self.phase {
                    WorkPhaseView::Opening => WorkView { phase: WorkPhaseView::Tuning, ..self },
                    WorkPhaseView::Tuning => WorkView {
                        phase: self.inserting_or_finished(self.done),
                        ..self
                    },
                    _ => WorkView {
                        phase: self.inserting_or_finished(self.done + 1),
                        done: self.done + 1,
                        ..self
                    },
                },
            }
        }
    }

    /// Whether `action` is what the driver has to do in this phase. While
    /// inserting, that is the insert of some generated record.
    pub open spec fn asks(self, action: ActionView) -> bool {
        match self.phase {
            WorkPhaseView::Opening => action == ActionView::Open,
            WorkPhaseView::Tuning => action == ActionView::Pragma(Pragma::SynchronousNormal),
            WorkPhaseView::Inserting => action matches ActionView::Insert(u) && u.generated(),
            WorkPhaseView::Finished => action == ActionView::Finish,
            WorkPhaseView::Failed(e) => action == ActionView::Abort(e),
        }
    }

    /// The number of actions that are still to be carried out before the
    /// worker has finished.
    pub open spec fn steps_left(self) -> nat {
        match self.phase {
            WorkPhaseView::Opening => self.target + 2,
            WorkPhaseView::Tuning => self.target + 1,
            WorkPhaseView::Inserting => (self.target - self.done) as nat,
            WorkPhaseView::Finished => 0,
            WorkPhaseView::Failed(_) => 0,
        }
    }

    /// The worker after a sequence of replies, oldest first.
    pub open spec fn run(self, replies: Seq<ReplyView>) -> WorkView
        decreases replies.len(),
    {
        if replies.len() == 0 {
            self
        } else {
            self.run(replies.drop_last()).next(replies.last())
        }
    }

    /// The worker after `n` actions that were all carried out.
    pub open spec fn after(self, n: nat) -> WorkView
        decreases n,
    {
        if n == 0 {
            self
        } else {
            self.after((n - 1) as nat).next(ReplyView::Done)
        }
    }
}

impl View for Worker {
    type V = WorkView;

    closed spec fn view(&self) -> WorkView {
        WorkView { phase: self.phase@, target: self.target as nat, done: self.done as nat }
    }
}

impl Worker {
    #[verifier::type_invariant]
    spec fn inv(self) -> bool {
        self@.wf()
    }

    /// A worker that is to make `target` inserts.
    pub fn start(target: u64) -> (w: Worker)
        ensures
            w@ == WorkView::start(target as nat),
    {
        Worker { phase: WorkPhase::Opening, target, done: 0 }
    }

    /// The number of inserts that were carried out.
    pub fn done(&self) -> (n: u64)
        ensures
            n == self@.done,
            n <= self@.target,
    {
        proof {
            use_type_invariant(self);
        }
        self.done
    }

    /// The number of inserts that the worker was given.
    pub fn target(&self) -> (n: u64)
        ensures
            n == self@.target,
    {
        self.target
    }

    /// Whether the worker has ended, well or not.
    pub fn ended(&self) -> (r: bool)
        ensures
            r == self@.ended(),
    {
        match &self.phase {
            WorkPhase::Finished => true,
            WorkPhase::Failed(_) => true,
            _ => false,
        }
    }

    /// Why the worker gave up, if it did.
    pub fn failure(&self) -> (r: Option<BenchError>)
        ensures
            match r {
                Some(e) => self@.phase == WorkPhaseView::Failed(e@),
                None => !(self@.phase is Failed),
            },
    {
        match &self.phase {
            WorkPhase::Failed(e) => Some(e.duplicate()),
            _ => None,
        }
    }

    /// What the driver has to do now. While inserting, every call generates
    /// a record of its own.
    pub fn action(&self) -> (a: Action)
        ensures
            self@.asks(a@),
    {
        match &self.phase {
            WorkPhase::Opening => Action::Open,
            WorkPhase::Tuning => Action::Pragma(Pragma::SynchronousNormal),
            WorkPhase::Inserting => Action::Insert(User::gen()),
            WorkPhase::Finished => Action::Finish,
            WorkPhase::Failed(e) => Action::Abort(e.duplicate()),
        }
    }

    /// Takes the reply to the current action and moves on.
    pub fn step(self, reply: Reply) -> (w: Worker)
        ensures
            w@ == self@.next(reply@),
            w@.wf(),
    {
        proof {
            use_type_invariant(&self);
        }
        let target = self.target;
        let done = self.done;
        match self.phase {
            WorkPhase::Finished => Worker { phase: WorkPhase::Finished, target, done },
            WorkPhase::Failed(e) => Worker { phase: WorkPhase::Failed(e), target, done },
            phase => match reply {
                Reply::Failed { not_found: _, reason } => Worker {
                    phase: WorkPhase::Failed(BenchError::Insert { reason }),
                    target,
                    done,
                },
                Reply::Done => match phase {
                    WorkPhase::Opening => Worker { phase: WorkPhase::Tuning, target, done },
                    WorkPhase::Tuning => if done < target {
                        Worker { phase: WorkPhase::Inserting, target, done }
                    } else {
                        Worker { phase: WorkPhase::Finished, target, done }
                    },
                    _ => if done + 1 < target {
                        Worker { phase: WorkPhase::Inserting, target, done: done + 1 }
                    } else {
                        Worker { phase: WorkPhase::Finished, target, done: done + 1 }
                    },
                },
            },
        }
    }
}

/// Validity is kept: whatever the reply, a valid worker stays valid, keeps
/// its target and never loses an insert that was carried out.
pub proof fn lemma_step_keeps_wf(w: WorkView, reply: ReplyView)
    requires
        w.wf(),
    ensures
        w.next(reply).wf(),
        w.next(reply).target == w.target,
        w.done <= w.next(reply).done <= w.done + 1,
        w.next(reply).done == w.done + 1 <==> w.phase is Inserting && reply is Done,
{
}

/// A worker whose actions are all carried out opens its connection, sets
/// the synchronisation level, then asks for exactly `target` inserts, one
/// after the other, and finishes: after `n` replies it has made `n - 2`
/// inserts, or all of them.
pub proof fn lemma_run_to_completion(target: nat, n: nat)
    ensures
        WorkView::start(target).after(n).wf(),
        WorkView::start(target).after(n).target == target,
        n == 0 ==> WorkView::start(target).after(n).phase is Opening,
        n == 1 ==> WorkView::start(target).after(n).phase is Tuning,
        2 <= n < 2 + target ==> WorkView::start(target).after(n).phase is Inserting
            && WorkView::start(target).after(n).done == n - 2,
        n >= 2 + target ==> WorkView::start(target).after(n).phase is Finished
            && WorkView::start(target).after(n).done == target,
    decreases n,
{
    if n > 0 {
        lemma_run_to_completion(target, (n - 1) as nat);
    }
}

/// A worker given `target` inserts takes `target + 2` actions at most, and
/// never makes more inserts than it was given: every reply brings it one
/// action nearer to its end, and after `target + 2` replies it has ended,
/// whatever they were.
pub proof fn lemma_worker_ends(target: nat, replies: Seq<ReplyView>)
    ensures
        WorkView::start(target).run(replies).wf(),
        WorkView::start(target).run(replies).target == target,
        WorkView::start(target).run(replies).done <= target,
        WorkView::start(target).run(replies).steps_left() + replies.len() <= target + 2
            || WorkView::start(target).run(replies).ended(),
        replies.len() >= target + 2 ==> WorkView::start(target).run(replies).ended(),
    decreases replies.len(),
{
    if replies.len() > 0 {
        lemma_worker_ends(target, replies.drop_last());
    }
}

/// A failure ends the worker for good: the failure is what it asks the
/// driver to stop with, and no later reply changes the worker or adds an
/// insert.
pub proof fn lemma_failure_is_final(w: WorkView, not_found: bool, reason: Seq<char>, later: ReplyView)
    requires
        !w.ended(),
    ensures
        w.next(ReplyView::Failed { not_found, reason }).phase == WorkPhaseView::Failed(
            ErrorView::Insert { reason },
        ),
        w.next(ReplyView::Failed { not_found, reason }).done == w.done,
        w.next(ReplyView::Failed { not_found, reason }).asks(
            ActionView::Abort(ErrorView::Insert { reason }),
        ),
        w.next(ReplyView::Failed { not_found, reason }).next(later) == w.next(
            ReplyView::Failed { not_found, reason },
        ),
{
}

} // verus!
