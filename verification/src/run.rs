//! The end of a run: what the workers left behind, and the report or the
//! failure that follows from it.

use crate::error::{BenchError, ErrorView};
use crate::plan::{lemma_rows_never_exceed, rows, Plan, PlanView};
use crate::report::{duration_text, report_line, report_text};
use crate::throughput::{lemma_idle_rate, throughput_of, Elapsed, ElapsedView};
use crate::worker::WorkView;
use vstd::prelude::*;

verus! {

/// A failure or none, as contracts see it.
pub open spec fn outcome_view(outcome: Option<BenchError>) -> Option<ErrorView> {
    match outcome {
        Some(e) => Some(e@),
        None => None,
    }
}

/// What a worker left behind, from the way its thread ended: the worker's
/// own outcome when the thread came back with one, and a failure to join,
/// with the given reason, when it did not come back.
pub fn joined(ended: Result<Option<BenchError>, String>) -> (r: Option<BenchError>)
    ensures
        match ended {
            Ok(outcome) => outcome_view(r) == outcome_view(outcome),
            Err(reason) => outcome_view(r) == Some(ErrorView::Join { reason: reason@ }),
        },
{
    match ended {
        Ok(outcome) => outcome,
        Err(reason) => Some(BenchError::Join { reason }),
    }
}

/// The failure of the first worker that has one, in the order in which the
/// workers were launched.
pub open spec fn first_failure(outcomes: Seq<Option<ErrorView>>) -> Option<ErrorView>
    decreases outcomes.len(),
{
    if outcomes.len() == 0 {
        None
    } else if outcomes[0] is Some {
        outcomes[0]
    } else {
        first_failure(outcomes.drop_first())
    }
}

/// What the workers left behind, as contracts see it.
pub open spec fn outcome_views(outcomes: Seq<Option<BenchError>>) -> Seq<Option<ErrorView>> {
    Seq::new(outcomes.len(), |i: int| outcome_view(outcomes[i]))
}

/// Settles a run from what each worker left behind, `None` for a worker that
/// finished: the run has succeeded when every worker has, and has failed
/// with the first failure otherwise.
pub fn settle(outcomes: &Vec<Option<BenchError>>) -> (r: Result<(), BenchError>)
    ensures
        match r {
            Ok(_) => first_failure(outcome_views(outcomes@)) is None,
            Err(e) => first_failure(outcome_views(outcomes@)) == Some(e@),
        },
{
    let ghost all = outcome_views(outcomes@);
    let mut i: usize = 0;
    assert(all.skip(0) =~= all);
    while i < outcomes.len()
        invariant
            i <= outcomes.len(),
            all == outcome_views(outcomes@),
            first_failure(all) == first_failure(all.skip(i as int)),
        decreases outcomes.len() - i,
    {
        proof {
            let rest = all.skip(i as int);
            assert(rest[0] == all[i as int]);
            assert(rest.drop_first() =~= all.skip(i + 1));
        }
        match &outcomes[i] {
            Some(e) => {
                return Err(e.duplicate());
            },
            None => {},
        }
        i += 1;
    }
    Ok(())
}

/// The end of a run: the report line when every worker has finished, and
/// otherwise the first failure and no report.
pub fn conclude(plan: &Plan, outcomes: &Vec<Option<BenchError>>, elapsed: &Elapsed) -> (r: Result<
    String,
    BenchError,
>)
    ensures
        match r {
            Ok(line) => first_failure(outcome_views(outcomes@)) is None && line@ == report_text(
                plan@,
                duration_text(elapsed@.secs, elapsed@.nanos),
                throughput_of(plan@.total(), elapsed@),
            ),
            Err(e) => first_failure(outcome_views(outcomes@)) == Some(e@),
        },
{
    match settle(outcomes) {
        Ok(_) => Ok(report_line(plan, elapsed)),
        Err(e) => Err(e),
    }
}

/// A run succeeds exactly when no worker has failed, and a failure that is
/// reported is that of a worker before which none has failed.
pub proof fn lemma_first_failure(outcomes: Seq<Option<ErrorView>>)
    ensures
        first_failure(outcomes) is None <==> forall|i: int|
            0 <= i < outcomes.len() ==> outcomes[i] is None,
        first_failure(outcomes) is Some ==> exists|i: int|
            0 <= i < outcomes.len() && outcomes[i] == first_failure(outcomes) && forall|j: int|
                0 <= j < i ==> outcomes[j] is None,
    decreases outcomes.len(),
{
    if outcomes.len() > 0 {
        let rest = outcomes.drop_first();
        lemma_first_failure(rest);
        assert forall|i: int| 0 <= i < rest.len() implies rest[i] == outcomes[i + 1] by {}
        if outcomes[0] is Some {
            assert(outcomes[0] == first_failure(outcomes) && forall|j: int|
                0 <= j < 0 ==> outcomes[j] is None);
        } else {
            if first_failure(rest) is Some {
                let k = choose|i: int|
                    0 <= i < rest.len() && rest[i] == first_failure(rest) && forall|j: int|
                        0 <= j < i ==> rest[j] is None;
                assert forall|j: int| 0 <= j < k + 1 implies outcomes[j] is None by {
                    if j > 0 {
                        assert(rest[j - 1] == outcomes[j]);
                    }
                }
                assert(outcomes[k + 1] == first_failure(outcomes));
            }
            if forall|i: int| 0 <= i < rest.len() ==> rest[i] is None {
                assert forall|i: int| 0 <= i < outcomes.len() implies outcomes[i] is None by {
                    if i > 0 {
                        assert(rest[i - 1] == outcomes[i]);
                    }
                }
            }
        }
    }
}

/// A run in which no worker has anything to insert: the total is zero,
/// whatever the workers have come to they have inserted no row, and the
/// throughput is zero, or there is none because no time has passed.
pub proof fn lemma_idle_run(plan: PlanView, workers: Seq<WorkView>, elapsed: ElapsedView)
    requires
        plan.inserts_per_thread == 0,
        forall|i: int|
            0 <= i < workers.len() ==> (#[trigger] workers[i]).wf() && workers[i].target
                == plan.inserts_per_thread,
    ensures
        plan.total() == 0,
        rows(workers) == 0,
        throughput_of(plan.total(), elapsed) == if elapsed.total_nanos() == 0 {
            None
        } else {
            Some(0nat)
        },
{
    assert(plan.threads * 0 == 0) by (nonlinear_arith);
    lemma_rows_never_exceed(workers, 0);
    assert(workers.len() * 0 == 0) by (nonlinear_arith);
    lemma_idle_rate(elapsed);
}

} // verus!
