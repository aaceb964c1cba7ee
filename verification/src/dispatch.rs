//! Carrying out a plan step by step: which step is due, and what becomes of
//! the plan once a step has succeeded or failed. The caller performs each
//! step and reports how it went; the first failure that matters ends the
//! plan.

use vstd::prelude::*;
use crate::plan::{step_models, Step, StepModel};

verus! {

/// How far a plan has come.
#[derive(Debug, Clone, Copy, PartialEq, Eq, Structural)]
pub enum Progress {
    /// A step is due.
    Pending,
    /// Every step was performed and none failed that matters.
    Succeeded,
    /// A step failed; the steps behind it will not be performed.
    Failed,
}

/// The state of a plan under way: how many steps were reported, and whether
/// the last of them failed for good.
pub struct Run {
    pub done: nat,
    pub failed: bool,
}

/// The state before any step.
pub open spec fn initial() -> Run {
    Run { done: 0, failed: false }
}

/// The step that is due in state `run`, if any: none once a step has failed
/// or all are done.
pub open spec fn pending_of(steps: Seq<StepModel>, run: Run) -> Option<StepModel> {
    if !run.failed && run.done < steps.len() {
        Some(steps[run.done as int])
    } else {
        None
    }
}

/// The state after the step that was due has been reported as succeeded
/// (`ok`) or failed. A failure ends the plan unless the step tolerates it.
/// Where no step was due the state stays as it is.
pub open spec fn report_of(steps: Seq<StepModel>, run: Run, ok: bool) -> Run {
    if run.failed || run.done >= steps.len() {
        run
    } else {
        Run { done: run.done + 1, failed: !ok && !steps[run.done as int].tolerated() }
    }
}

/// How far a plan in state `run` has come.
pub open spec fn progress_of(steps: Seq<StepModel>, run: Run) -> Progress {
    if run.failed {
        Progress::Failed
    } else if run.done < steps.len() {
        Progress::Pending
    } else {
        Progress::Succeeded
    }
}

/// The state after the outcomes of the first steps have been reported one
/// by one, `outcomes[i]` for the i-th step performed.
pub open spec fn run_of(steps: Seq<StepModel>, outcomes: Seq<bool>) -> Run
    decreases outcomes.len(),
{
    if outcomes.len() == 0 {
        initial()
    } else {
        report_of(steps, run_of(steps, outcomes.drop_last()), outcomes.last())
    }
}

/// Whether step `i` failed, by `outcomes`, in a way that ends the plan.
pub open spec fn fatal(steps: Seq<StepModel>, outcomes: Seq<bool>, i: int) -> bool {
    0 <= i < steps.len() && 0 <= i < outcomes.len() && !outcomes[i] && !steps[i].tolerated()
}

/// A plan stops at its first failure that matters. Whatever the outcomes:
/// the plan has failed exactly if one of the reported steps failed without
/// being tolerated; then the last step performed is the first such step,
/// and no step behind it is ever due. Otherwise every reported step was
/// performed, in order, up to the end of the plan.
pub proof fn lemma_stops_at_first_failure(steps: Seq<StepModel>, outcomes: Seq<bool>)
    ensures
        run_of(steps, outcomes).failed <==> exists|i: int| fatal(steps, outcomes, i),
        run_of(steps, outcomes).failed ==> {
            let last = run_of(steps, outcomes).done - 1;
            &&& fatal(steps, outcomes, last)
            &&& forall|j: int| 0 <= j < last ==> !fatal(steps, outcomes, j)
            &&& pending_of(steps, run_of(steps, outcomes)) is None
        },
        !run_of(steps, outcomes).failed ==> run_of(steps, outcomes).done == if outcomes.len()
            <= steps.len() {
            outcomes.len()
        } else {
            steps.len()
        },
    decreases outcomes.len(),
{
    if outcomes.len() > 0 {
        let earlier = outcomes.drop_last();
        lemma_stops_at_first_failure(steps, earlier);
        let before = run_of(steps, earlier);
        let after = run_of(steps, outcomes);
        assert forall|i: int| fatal(steps, earlier, i) implies fatal(steps, outcomes, i) by {
            assert(earlier[i] == outcomes[i]);
        }
        assert forall|i: int| fatal(steps, outcomes, i) && i < earlier.len() implies fatal(
            steps,
            earlier,
            i,
        ) by {
            assert(earlier[i] == outcomes[i]);
        }
        if before.failed {
            let last = before.done - 1;
            assert(fatal(steps, earlier, last));
            assert(fatal(steps, outcomes, last));
        } else if after.failed {
            assert(fatal(steps, outcomes, earlier.len() as int));
        } else {
            assert forall|i: int| !fatal(steps, outcomes, i) by {
                if fatal(steps, outcomes, i) {
                    if i < earlier.len() {
                        assert(fatal(steps, earlier, i));
                    }
                }
            }
        }
    } else {
        assert forall|i: int| !fatal(steps, outcomes, i) by {}
    }
}

/// Ignores how an attempt went: whether `result` is a success or an error,
/// what comes back is a success, so that a caller goes on either way.
pub fn ignore<T, E>(result: &Result<T, E>) -> (r: Result<(), ()>)
    ensures
        r is Ok,
{
    match result {
        Ok(_) => Ok(()),
        Err(_) => Ok(()),
    }
}

/// A plan under way.
pub struct Dispatcher {
    steps: Vec<Step>,
    done: usize,
    failed: bool,
}

impl View for Dispatcher {
    type V = Run;

    closed spec fn view(&self) -> Run {
        Run { done: self.done as nat, failed: self.failed }
    }
}

impl Dispatcher {
    /// The plan that is being carried out.
    pub closed spec fn steps(&self) -> Seq<StepModel> {
        step_models(self.steps@)
    }

    /// No more steps are counted as done than the plan has.
    pub closed spec fn wf(&self) -> bool {
        self.done <= self.steps.len()
    }

    /// Takes up a plan; no step of it has been performed.
    pub fn new(steps: Vec<Step>) -> (d: Dispatcher)
        ensures
            d.wf(),
            d.steps() == step_models(steps@),
            d@ == initial(),
    {
        Dispatcher { steps, done: 0, failed: false }
    }

    /// The step to perform now, if one is due.
    pub fn pending(&self) -> (step: Option<&Step>)
        requires
            self.wf(),
        ensures
            match pending_of(self.steps(), self@) {
                Some(model) => step is Some && step->Some_0@ == model,
                None => step is None,
            },
    {
        if !self.failed && self.done < self.steps.len() {
            Some(&self.steps[self.done])
        } else {
            None
        }
    }

    /// Takes note of how the step that was due went.
    pub fn report(&mut self, outcome: Result<(), ()>)
        requires
            old(self).wf(),
        ensures
            final(self).wf(),
            final(self).steps() == old(self).steps(),
            final(self)@ == report_of(old(self).steps(), old(self)@, outcome is Ok),
    {
        if !self.failed && self.done < self.steps.len() {
            let tolerated: bool = self.steps[self.done].failure_tolerated();
            self.failed = outcome.is_err() && !tolerated;
            self.done = self.done + 1;
        }
    }

    /// How far the plan has come.
    pub fn progress(&self) -> (p: Progress)
        requires
            self.wf(),
        ensures
            p == progress_of(self.steps(), self@),
    {
        if self.failed {
            Progress::Failed
        } else if self.done < self.steps.len() {
            Progress::Pending
        } else {
            Progress::Succeeded
        }
    }
}

} // verus!
