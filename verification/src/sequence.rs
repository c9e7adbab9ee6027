//! The provisioning run: an ordered walk through the planned steps that
//! halts at the first dispatch failure and reports which step failed.

use vstd::prelude::*;
use vstd::string::StringExecFns;
use crate::description::VmDescription;
use crate::errors::ProvisionError;
use crate::steps::Step;
use crate::steps::StepModel;
use crate::steps::plan_spec;
use crate::steps::plan_steps;

verus! {

/// The confirmation line printed when every step was dispatched.
pub open spec fn success_message_spec(name: Seq<char>) -> Seq<char> {
    "VM '"@ + name + "' created successfully!"@
}

/// Renders the confirmation line naming the VM.
pub fn success_message(name: &str) -> (r: String)
    ensures
        r@ == success_message_spec(name@),
{
    let mut r = String::from_str("VM '");
    r.append(name);
    r.append("' created successfully!");
    r
}

/// The index of the first failed dispatch among the first `n` outcomes, if
/// any: an `Err` outcome is a step whose external command could not be
/// launched.
pub open spec fn first_failure(outs: Seq<Result<(), String>>, n: int) -> Option<int>
    decreases n,
{
    if n <= 0 {
        Option::None
    } else {
        match first_failure(outs, n - 1) {
            Option::Some(i) => Option::Some(i),
            Option::None => if outs[n - 1] is Err {
                Option::Some(n - 1)
            } else {
                Option::None
            },
        }
    }
}

/// Once a failure is found among a prefix, looking further never changes it.
proof fn lemma_first_failure_frozen(outs: Seq<Result<(), String>>, i: int, n: int)
    requires
        0 <= i <= n,
        first_failure(outs, i) is Some,
    ensures
        first_failure(outs, n) == first_failure(outs, i),
    decreases n,
{
    if n > i {
        lemma_first_failure_frozen(outs, i, n - 1);
    }
}

/// One provisioning run over a fixed plan. It hands out the next step to
/// dispatch until it is told of a dispatch failure or runs out of steps;
/// `Done` and `Failed` are terminal.
pub struct SequenceRun {
    name: String,
    steps: Vec<Step>,
    next_index: usize,
    fault: Option<ProvisionError>,
}

impl SequenceRun {
    /// The plan being executed, in order.
    pub closed spec fn plan(self) -> Seq<StepModel> {
        self.steps.deep_view()
    }

    /// How many steps have been attempted so far, the failed one included.
    pub closed spec fn attempted(self) -> int {
        self.next_index as int
    }

    /// The name of the VM being provisioned.
    pub closed spec fn vm_name(self) -> Seq<char> {
        self.name@
    }

    /// The recorded failure, once one step's dispatch has failed.
    pub closed spec fn failure(self) -> Option<ProvisionError> {
        self.fault
    }

    pub closed spec fn wf(self) -> bool {
        self.next_index <= self.steps@.len()
    }

    /// A step remains to be dispatched and nothing has failed.
    pub open spec fn in_progress(self) -> bool {
        self.failure() is None && self.attempted() < self.plan().len()
    }

    /// Every step was dispatched.
    pub open spec fn is_done(self) -> bool {
        self.failure() is None && self.attempted() == self.plan().len()
    }

    /// Some step's dispatch failed; the run went no further.
    pub open spec fn is_failed(self) -> bool {
        self.failure() is Some
    }

    /// Starts a run for `d`: the plan is laid out in full, nothing attempted.
    pub fn start(d: &VmDescription) -> (r: SequenceRun)
        ensures
            r.wf(),
            r.plan() == plan_spec(*d),
            r.attempted() == 0,
            !r.is_failed(),
            r.vm_name() == d.name@,
    {
        SequenceRun {
            name: d.name.clone(),
            steps: plan_steps(d),
            next_index: 0,
            fault: Option::None,
        }
    }

    /// The step to dispatch next: present exactly while the run is in
    /// progress, and then the first step not yet attempted.
    pub fn next_step(&self) -> (r: Option<&Step>)
        requires
            self.wf(),
        ensures
            r is Some <==> self.in_progress(),
            r matches Some(s) ==> s@ == self.plan()[self.attempted()],
    {
        match &self.fault {
            Option::Some(_) => Option::None,
            Option::None => {
                if self.next_index < self.steps.len() {
                    Option::Some(&self.steps[self.next_index])
                } else {
                    Option::None
                }
            },
        }
    }

    /// Records that the current step's command was dispatched: the run moves
    /// past it and nothing else changes.
    pub fn note_dispatched(&mut self)
        requires
            old(self).wf(),
            old(self).in_progress(),
        ensures
            final(self).wf(),
            final(self).plan() == old(self).plan(),
            final(self).vm_name() == old(self).vm_name(),
            final(self).attempted() == old(self).attempted() + 1,
            final(self).failure() == old(self).failure(),
    {
        let n = self.steps.len();
        proof {
            assert(self.plan().len() == n);
        }
        self.next_index = self.next_index + 1;
    }

    /// Records that the current step's command could not be dispatched: the
    /// run halts at once, holding a failure that names the step and carries
    /// the underlying cause. No further step is ever handed out.
    pub fn note_dispatch_failure(&mut self, cause: String)
        requires
            old(self).wf(),
            old(self).in_progress(),
        ensures
            final(self).wf(),
            final(self).plan() == old(self).plan(),
            final(self).vm_name() == old(self).vm_name(),
            final(self).attempted() == old(self).attempted() + 1,
            final(self).is_failed(),
            !final(self).in_progress(),
            final(self).failure() matches Some(e) && (e matches
                ProvisionError::StepDispatchFailure { step, cause: c } && step@ == old(self).plan()[
                old(self).attempted()].label && c == cause),
    {
        let n = self.steps.len();
        proof {
            assert(self.plan().len() == n);
        }
        let label = self.steps[self.next_index].label.clone();
        self.fault = Option::Some(ProvisionError::StepDispatchFailure { step: label, cause });
        self.next_index = self.next_index + 1;
    }

    /// Exposes whether a step remains to be dispatched.
    pub fn is_in_progress(&self) -> (r: bool)
        requires
            self.wf(),
        ensures
            r == self.in_progress(),
    {
        self.fault.is_none() && self.next_index < self.steps.len()
    }

    /// The number of steps attempted so far, a failed one included.
    pub fn attempted_count(&self) -> (r: usize)
        ensures
            r == self.attempted(),
    {
        self.next_index
    }

    /// The run's report: the confirmation line naming the VM when every step
    /// was dispatched, and the recorded failure otherwise.
    pub fn into_result(self) -> (r: Result<String, ProvisionError>)
        requires
            self.wf(),
            !self.in_progress(),
        ensures
            self.is_done() ==> (r matches Ok(msg) && msg@ == success_message_spec(self.vm_name())),
            self.is_failed() ==> (r matches Err(e) && self.failure() == Some(e)),
    {
        match self.fault {
            Option::Some(e) => Result::Err(e),
            Option::None => Result::Ok(success_message(self.name.as_str())),
        }
    }
}

/// Runs the whole sequence for `d` against the given per-step dispatch
/// outcomes, halting at the first failed dispatch. Returns how many steps
/// were attempted and the run's report: with no failure among the plan's
/// steps, every step is attempted and the confirmation is returned; with a
/// first failure at index `i`, exactly `i + 1` steps are attempted and the
/// failure names step `i` and carries its cause.
pub fn run_with_outcomes(d: &VmDescription, outcomes: &Vec<Result<(), String>>) -> (r: (
    usize,
    Result<String, ProvisionError>,
))
    requires
        outcomes@.len() >= plan_spec(*d).len(),
    ensures
        ({
            let plan = plan_spec(*d);
            let n = plan.len() as int;
            match first_failure(outcomes@, n) {
                Option::None => r.0 == n && (r.1 matches Ok(msg) && msg@ == success_message_spec(
                    d.name@,
                )),
                Option::Some(i) => r.0 == i + 1 && (r.1 matches Err(e) && (e matches
                    ProvisionError::StepDispatchFailure { step, cause } && step@ == plan[i].label
                    && cause@ == outcomes@[i]->Err_0@)),
            }
        }),
{
    let ghost plan = plan_spec(*d);
    let ghost n = plan.len() as int;
    let mut run = SequenceRun::start(d);
    loop
        invariant_except_break
            run.wf(),
            run.plan() == plan,
            run.vm_name() == d.name@,
            outcomes@.len() >= n,
            n == plan.len(),
            plan == plan_spec(*d),
            !run.is_failed(),
            run.attempted() <= n,
            first_failure(outcomes@, run.attempted()) is None,
        ensures
            run.wf(),
            run.vm_name() == d.name@,
            !run.in_progress(),
            run.is_done() ==> run.attempted() == n && first_failure(outcomes@, n) is None,
            run.is_failed() ==> ({
                let i = run.attempted() - 1;
                &&& first_failure(outcomes@, n) == Option::Some(i)
                &&& run.failure() matches Some(e) && (e matches ProvisionError::StepDispatchFailure
                    { step, cause } && step@ == plan[i].label && cause@ == outcomes@[i]->Err_0@)
            }),
        decreases n - run.attempted(),
    {
        if !run.is_in_progress() {
            break ;
        }
        let idx = run.attempted_count();
        match &outcomes[idx] {
            Result::Ok(_) => {
                run.note_dispatched();
                proof {
                    assert(first_failure(outcomes@, run.attempted()) is None);
                }
            },
            Result::Err(cause) => {
                let ghost pre = run.attempted();
                run.note_dispatch_failure(cause.clone());
                proof {
                    assert(first_failure(outcomes@, pre + 1) == Option::Some(pre));
                    lemma_first_failure_frozen(outcomes@, pre + 1, n);
                }
                break ;
            },
        }
    }
    let attempted = run.attempted_count();
    let report = run.into_result();
    (attempted, report)
}

} // verus!
