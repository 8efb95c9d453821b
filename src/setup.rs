use vstd::prelude::*;

verus! {

/// The steps of provisioning a server, in the order they run.
#[derive(Clone, Copy, Debug, PartialEq, Eq, Structural)]
pub enum SetupStep {
    Connect,
    Provision,
    SaveSecret,
    SaveMetadata,
    Harden,
    Done,
    Failed,
}

/// The step that follows `step` when it succeeds.
pub open spec fn step_after(step: SetupStep) -> SetupStep {
    match step {
        SetupStep::Connect => SetupStep::Provision,
        SetupStep::Provision => SetupStep::SaveSecret,
        SetupStep::SaveSecret => SetupStep::SaveMetadata,
        SetupStep::SaveMetadata => SetupStep::Harden,
        SetupStep::Harden => SetupStep::Done,
        SetupStep::Done => SetupStep::Done,
        SetupStep::Failed => SetupStep::Failed,
    }
}

/// The position of a step in the sequence; a failure ends it.
pub open spec fn step_rank(step: SetupStep) -> nat {
    match step {
        SetupStep::Connect => 0,
        SetupStep::Provision => 1,
        SetupStep::SaveSecret => 2,
        SetupStep::SaveMetadata => 3,
        SetupStep::Harden => 4,
        SetupStep::Done => 5,
        SetupStep::Failed => 5,
    }
}

/// The progress of a run after the current step of `state` went as `succeeded` says.
/// The state is the step to run next and whether hardening left a warning. Every step
/// but the last ends the run as failed when it fails; hardening, the last, only warns:
/// the run is done whatever it gave. An ended run does not change.
pub open spec fn complete_spec(state: (SetupStep, bool), succeeded: bool) -> (SetupStep, bool) {
    match state.0 {
        SetupStep::Done | SetupStep::Failed => state,
        SetupStep::Harden => (SetupStep::Done, !succeeded),
        step => if succeeded {
            (step_after(step), state.1)
        } else {
            (SetupStep::Failed, state.1)
        },
    }
}

/// The progress of one provisioning run: the step to run next, or how it ended, and
/// whether the hardening step left a warning.
pub struct SetupWorkflow {
    step: SetupStep,
    hardening_warning: bool,
}

impl View for SetupWorkflow {
    type V = (SetupStep, bool);

    closed spec fn view(&self) -> (SetupStep, bool) {
        (self.step, self.hardening_warning)
    }
}

impl SetupWorkflow {
    pub fn new() -> (r: SetupWorkflow)
        ensures
            r@ == (SetupStep::Connect, false),
    {
        SetupWorkflow { step: SetupStep::Connect, hardening_warning: false }
    }

    /// The step to run next; `Done` or `Failed` once the run has ended.
    pub fn current(&self) -> (r: SetupStep)
        ensures
            r == self@.0,
    {
        self.step
    }

    /// Whether hardening failed or could not be confirmed; the run is still done.
    pub fn hardening_warned(&self) -> (r: bool)
        ensures
            r == self@.1,
    {
        self.hardening_warning
    }

    /// Records how the current step went.
    pub fn complete(&mut self, succeeded: bool)
        ensures
            final(self)@ == complete_spec(old(self)@, succeeded),
    {
        match self.step {
            SetupStep::Done | SetupStep::Failed => {},
            SetupStep::Harden => {
                self.step = SetupStep::Done;
                self.hardening_warning = !succeeded;
            },
            s => {
                self.step = if succeeded {
                    match s {
                        SetupStep::Connect => SetupStep::Provision,
                        SetupStep::Provision => SetupStep::SaveSecret,
                        SetupStep::SaveSecret => SetupStep::SaveMetadata,
                        _ => SetupStep::Harden,
                    }
                } else {
                    SetupStep::Failed
                };
            },
        }
    }
}

/// Steps run strictly in order: a success moves exactly one step on, a failure before
/// hardening ends the run and no later step runs, and hardening ends the run as done
/// whether or not it succeeded, leaving a warning when it did not.
pub proof fn lemma_steps_in_order(state: (SetupStep, bool), succeeded: bool)
    ensures
        !(state.0 is Done || state.0 is Failed || state.0 is Harden) ==> (if succeeded {
            step_rank(complete_spec(state, succeeded).0) == step_rank(state.0) + 1
        } else {
            complete_spec(state, succeeded).0 is Failed
        }),
        state.0 is Harden ==> complete_spec(state, succeeded) == (SetupStep::Done, !succeeded),
        state.0 is Failed ==> complete_spec(state, succeeded) == state,
{
}

} // verus!
