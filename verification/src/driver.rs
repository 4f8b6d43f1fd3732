//! Running a launch plan step by step.
//!
//! The host layer owns the actual spawning; this module decides which
//! process comes next and keeps the record of what happened. A run hands
//! out the bootstrap processes first, one at a time, then the main
//! processes. Which process comes next depends only on the plan and on
//! how many steps have been recorded — never on how earlier steps fared,
//! so a failing bootstrap step (a pip install without network, say) does
//! not keep the main application from being spawned. A launch counts as
//! successful when every main process came up; bootstrap failures are
//! warnings only.

use vstd::prelude::*;
use crate::plan::{ChildProcessSpec, LaunchPlan};

verus! {

/// How one recorded step fared: ran and exited zero, ran and exited
/// non-zero, or could not be spawned at all.
#[derive(Clone, Copy, PartialEq, Eq, Structural, Debug)]
pub enum StepStatus {
    Succeeded,
    NonZeroExit,
    SpawnFailed,
}

/// One launch in progress: the plan, and the recorded status of every
/// step run so far. Bootstrap statuses fill up before main statuses; the
/// run is the structured outcome the caller reads once it is finished.
#[derive(Clone, Debug)]
pub struct LaunchRun {
    pub plan: LaunchPlan,
    pub bootstrap_status: Vec<StepStatus>,
    pub main_status: Vec<StepStatus>,
}

impl LaunchRun {
    /// No more statuses than steps, and main steps only begin once every
    /// bootstrap step has been recorded.
    pub open spec fn wf(self) -> bool {
        &&& self.bootstrap_status@.len() <= self.plan.bootstrap@.len()
        &&& self.main_status@.len() <= self.plan.main@.len()
        &&& self.main_status@.len() > 0 ==> self.bootstrap_status@.len()
            == self.plan.bootstrap@.len()
    }

    /// How many steps have been recorded so far.
    pub open spec fn steps_done(self) -> nat {
        self.bootstrap_status@.len() + self.main_status@.len()
    }

    /// The process to run next: the first bootstrap step without a
    /// status, else the first main step without one, else none. A
    /// function of the plan and the two counts alone.
    pub open spec fn next_step_of(self) -> Option<ChildProcessSpec> {
        if self.bootstrap_status@.len() < self.plan.bootstrap@.len() {
            Some(self.plan.bootstrap@[self.bootstrap_status@.len() as int])
        } else if self.main_status@.len() < self.plan.main@.len() {
            Some(self.plan.main@[self.main_status@.len() as int])
        } else {
            None
        }
    }

    /// Every main process was spawned and none was recorded as failed.
    pub open spec fn succeeded_of(self) -> bool {
        &&& self.main_status@.len() == self.plan.main@.len()
        &&& forall|i: int| 0 <= i < self.main_status@.len() ==> (#[trigger] self.main_status@[i])
            is Succeeded
    }

    /// Starts a run of `plan` with nothing recorded yet.
    pub fn new(plan: LaunchPlan) -> (r: LaunchRun)
        ensures
            r.wf(),
            r.plan == plan,
            r.bootstrap_status@.len() == 0,
            r.main_status@.len() == 0,
    {
        LaunchRun { plan, bootstrap_status: Vec::new(), main_status: Vec::new() }
    }

    /// The process the host should run next, or `None` when the run is
    /// finished.
    pub fn next_step(&self) -> (r: Option<&ChildProcessSpec>)
        ensures
            match r {
                Some(s) => self.next_step_of() == Some(*s),
                None => self.next_step_of() is None,
            },
    {
        if self.bootstrap_status.len() < self.plan.bootstrap.len() {
            Some(&self.plan.bootstrap[self.bootstrap_status.len()])
        } else if self.main_status.len() < self.plan.main.len() {
            Some(&self.plan.main[self.main_status.len()])
        } else {
            None
        }
    }

    /// Records how the step just run fared. The run advances by exactly
    /// one step whatever the status says: a failed bootstrap step is
    /// recorded and the launch goes on.
    pub fn record(&mut self, status: StepStatus)
        requires
            old(self).wf(),
            old(self).next_step_of() is Some,
        ensures
            final(self).wf(),
            final(self).plan == old(self).plan,
            final(self).steps_done() == old(self).steps_done() + 1,
            old(self).bootstrap_status@.len() < old(self).plan.bootstrap@.len() ==> {
                &&& final(self).bootstrap_status@ == old(self).bootstrap_status@.push(status)
                &&& final(self).main_status@ == old(self).main_status@
            },
            old(self).bootstrap_status@.len() == old(self).plan.bootstrap@.len() ==> {
                &&& final(self).bootstrap_status@ == old(self).bootstrap_status@
                &&& final(self).main_status@ == old(self).main_status@.push(status)
            },
    {
        if self.bootstrap_status.len() < self.plan.bootstrap.len() {
            self.bootstrap_status.push(status);
        } else {
            self.main_status.push(status);
        }
    }

    /// Whether every step of the plan has been recorded.
    pub fn is_finished(&self) -> (r: bool)
        requires
            self.wf(),
        ensures
            r == (self.next_step_of() is None),
    {
        self.bootstrap_status.len() == self.plan.bootstrap.len() && self.main_status.len()
            == self.plan.main.len()
    }

    /// The launch's terminal status: true when every main process was
    /// spawned and exited (or kept running) without a recorded failure.
    pub fn succeeded(&self) -> (r: bool)
        ensures
            r == self.succeeded_of(),
    {
        if self.main_status.len() != self.plan.main.len() {
            return false;
        }
        let mut i: usize = 0;
        while i < self.main_status.len()
            invariant
                i <= self.main_status@.len(),
                forall|j: int| 0 <= j < i ==> (#[trigger] self.main_status@[j]) is Succeeded,
            decreases self.main_status@.len() - i,
        {
            match self.main_status[i] {
                StepStatus::Succeeded => {},
                _ => {
                    return false;
                },
            }
            i = i + 1;
        }
        true
    }
}

/// The order of processes a run hands out never depends on the recorded
/// statuses, only on the plan and on how many steps have run: two runs of
/// the same plan that have recorded equally many bootstrap and main
/// steps are handed the same next process, however differently their
/// steps fared. In particular, a bootstrap step that exited non-zero
/// does not prevent the main process spawn.
pub proof fn lemma_next_step_ignores_statuses(r1: LaunchRun, r2: LaunchRun)
    requires
        r1.plan == r2.plan,
        r1.bootstrap_status@.len() == r2.bootstrap_status@.len(),
        r1.main_status@.len() == r2.main_status@.len(),
    ensures
        r1.next_step_of() == r2.next_step_of(),
{
}

/// After every bootstrap step has been recorded — with whatever mix of
/// failures — the next process handed out is the plan's first main
/// process, exactly as planned.
pub proof fn lemma_bootstrap_failures_reach_main(r: LaunchRun)
    requires
        r.wf(),
        r.bootstrap_status@.len() == r.plan.bootstrap@.len(),
        r.main_status@.len() == 0,
        r.plan.main@.len() > 0,
    ensures
        r.next_step_of() == Some(r.plan.main@[0]),
{
}

} // verus!
