//! The size of a run: how many workers, how many inserts each.

use crate::worker::{WorkView, Worker};
use vstd::prelude::*;

verus! {

/// A run's configuration. Every configured worker is launched, and each is
/// given the same number of inserts.
#[derive(Debug, PartialEq, Eq)]
pub struct Plan {
    threads: u64,
    inserts_per_thread: u64,
}

/// A plan as contracts see it.
pub struct PlanView {
    pub threads: nat,
    pub inserts_per_thread: nat,
}

impl PlanView {
    /// The number of inserts of the whole run.
    pub open spec fn total(self) -> nat {
        self.threads * self.inserts_per_thread
    }

    /// The number of workers that are launched.
    pub open spec fn workers(self) -> nat {
        self.threads
    }
}

impl View for Plan {
    type V = PlanView;

    closed spec fn view(&self) -> PlanView {
        PlanView {
            threads: self.threads as nat,
            inserts_per_thread: self.inserts_per_thread as nat,
        }
    }
}

impl Plan {
    #[verifier::type_invariant]
    spec fn inv(self) -> bool {
        self@.total() <= u64::MAX
    }

    /// A plan for `threads` workers with `inserts_per_thread` inserts each,
    /// unless the total does not fit in 64 bits.
    pub fn new(threads: u64, inserts_per_thread: u64) -> (r: Option<Plan>)
        ensures
            r is Some <==> threads * inserts_per_thread <= u64::MAX,
            r matches Some(p) ==> p@ == (PlanView {
                threads: threads as nat,
                inserts_per_thread: inserts_per_thread as nat,
            }),
    {
        match threads.checked_mul(inserts_per_thread) {
            Some(_) => Some(Plan { threads, inserts_per_thread }),
            None => None,
        }
    }

    /// The configured number of threads.
    pub fn threads(&self) -> (n: u64)
        ensures
            n == self@.threads,
    {
        self.threads
    }

    /// The number of workers to launch.
    pub fn workers(&self) -> (n: u64)
        ensures
            n == self@.workers(),
    {
        self.threads
    }

    /// The number of inserts that each worker makes.
    pub fn inserts_per_thread(&self) -> (n: u64)
        ensures
            n == self@.inserts_per_thread,
    {
        self.inserts_per_thread
    }

    /// The number of inserts of the whole run: workers times inserts each.
    pub fn total_inserts(&self) -> (n: u64)
        ensures
            n == self@.total(),
    {
        proof {
            use_type_invariant(self);
        }
        self.threads * self.inserts_per_thread
    }

    /// One of the plan's workers, about to begin.
    pub fn worker(&self) -> (w: Worker)
        ensures
            w@ == WorkView::start(self@.inserts_per_thread),
    {
        Worker::start(self.inserts_per_thread)
    }
}

/// The inserts that a group of workers has carried out.
pub open spec fn rows(workers: Seq<WorkView>) -> nat
    decreases workers.len(),
{
    if workers.len() == 0 {
        0
    } else {
        rows(workers.drop_last()) + workers.last().done
    }
}

proof fn lemma_rows_of_finished(workers: Seq<WorkView>, each: nat)
    requires
        forall|i: int|
            0 <= i < workers.len() ==> (#[trigger] workers[i]).wf() && workers[i].target == each
                && workers[i].phase is Finished,
    ensures
        rows(workers) == workers.len() * each,
    decreases workers.len(),
{
    if workers.len() > 0 {
        let head = workers.drop_last();
        assert forall|i: int| 0 <= i < head.len() implies (#[trigger] head[i]).wf() && head[i].target
            == each && head[i].phase is Finished by {
            assert(head[i] == workers[i]);
        }
        lemma_rows_of_finished(head, each);
        assert(workers.last() == workers[workers.len() - 1]);
        assert((head.len() + 1) * each == head.len() * each + each) by (nonlinear_arith);
    } else {
        assert(0 * each == 0) by (nonlinear_arith);
    }
}

/// After a run in which every launched worker has finished, the number of
/// rows inserted is the number of workers times the inserts of each: the
/// plan's total.
pub proof fn lemma_rows_after_success(plan: PlanView, workers: Seq<WorkView>)
    requires
        workers.len() == plan.workers(),
        forall|i: int|
            0 <= i < workers.len() ==> (#[trigger] workers[i]).wf() && workers[i].target
                == plan.inserts_per_thread && workers[i].phase is Finished,
    ensures
        rows(workers) == plan.total(),
{
    lemma_rows_of_finished(workers, plan.inserts_per_thread);
}

/// While workers are running or have failed, the rows inserted never exceed
/// what was planned for them.
pub proof fn lemma_rows_never_exceed(workers: Seq<WorkView>, each: nat)
    requires
        forall|i: int|
            0 <= i < workers.len() ==> (#[trigger] workers[i]).wf() && workers[i].target == each,
    ensures
        rows(workers) <= workers.len() * each,
    decreases workers.len(),
{
    if workers.len() > 0 {
        let head = workers.drop_last();
        assert forall|i: int| 0 <= i < head.len() implies (#[trigger] head[i]).wf() && head[i].target
            == each by {
            assert(head[i] == workers[i]);
        }
        lemma_rows_never_exceed(head, each);
        assert(workers.last() == workers[workers.len() - 1]);
        assert((head.len() + 1) * each == head.len() * each + each) by (nonlinear_arith);
    } else {
        assert(0 * each == 0) by (nonlinear_arith);
    }
}

} // verus!
