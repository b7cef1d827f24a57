//! The dispatch loop: wait, classify, and either resume and wait again or
//! return.
//!
//! The loop is written as a machine that makes no system call itself. At any
//! time one call is outstanding, [`DispatchLoop::pending`]; the caller makes
//! it and reports how it ended with [`DispatchLoop::step`], which answers with
//! the machine in its next state, or with the result of the whole loop. A
//! report is a `Result`: the value that the call produced (the wait status,
//! the siginfo code; for the other calls it is ignored), or its error.
//!
//! The loop has two shapes. The blocking one only retrieves statuses. The
//! bounded one first creates a readiness notifier, before every retrieval
//! registers the tracee's descriptor with it and waits for readiness up to
//! the caller's timeout, and releases the notifier before it returns.
use vstd::prelude::*;
use crate::classify::{
    classify, contradiction, contradicts_marking, notice_of, resolution_of, resolve, verdict_of,
    Decision, Notice, OsError, Resolution, Setup, Verdict,
};
use crate::status::{is_wait_outcome, lemma_stop_signal_range, wait_outcome};

verus! {

/// How the loop waits for the next status.
#[derive(Clone, Copy, Debug, PartialEq, Eq, Structural)]
pub enum WaitMode {
    /// Retrieve the status, blocking for as long as it takes.
    Blocking,
    /// Wait for readiness of the tracee's descriptor, up to a timeout, before
    /// each retrieval.
    Bounded,
}

/// A system call that the loop asks its caller to make.
#[derive(Clone, Copy, Debug, PartialEq, Eq, Structural)]
pub enum Action {
    /// Create the readiness notifier.
    CreateNotifier,
    /// Register the tracee's descriptor with the notifier for readiness to
    /// read.
    Register,
    /// Wait for readiness, up to the timeout.
    AwaitReadiness,
    /// Retrieve the tracee's next wait status, blocking.
    RetrieveStatus,
    /// Probe the tracee's siginfo and report its code.
    ProbeSiginfo,
    /// Resume the tracee, forwarding this signal (0 for none).
    Resume(i32),
    /// Release the readiness notifier.
    ReleaseNotifier,
}

/// Where the loop stands: which call is outstanding, and what it remembers.
#[derive(Clone, Copy, Debug, PartialEq, Eq)]
pub enum Phase {
    Creating,
    Registering,
    AwaitingReadiness,
    Retrieving,
    /// The status is ambiguous and the siginfo probe is outstanding.
    Probing { status: i32 },
    Resuming { signal: i32 },
    /// The loop is over but for the release of the notifier.
    Releasing { outcome: Result<i32, OsError> },
}

/// The state of a dispatch loop.
#[derive(Clone, Copy, Debug, PartialEq, Eq)]
pub struct State {
    pub setup: Setup,
    pub wait: WaitMode,
    pub phase: Phase,
}

/// What a step leads to.
#[derive(Clone, Copy, Debug, PartialEq, Eq)]
pub enum Progress {
    /// The loop goes on in this state.
    Continue(State),
    /// The loop is over, with this result: the status that is delivered, or
    /// the error that ended it.
    Return(Result<i32, OsError>),
}

impl State {
    /// The state that a loop starts in.
    pub open spec fn initial(setup: Setup, wait: WaitMode) -> State {
        State {
            setup,
            wait,
            phase: match wait {
                WaitMode::Blocking => Phase::Retrieving,
                WaitMode::Bounded => Phase::Creating,
            },
        }
    }

    /// This state in another phase.
    pub open spec fn at(self, phase: Phase) -> State {
        State { setup: self.setup, wait: self.wait, phase }
    }

    /// The states that a loop can be in. Only a bounded loop deals with the
    /// notifier; a status that is being probed is one that a wait can report
    /// and that the decision table leaves open; a signal that is being
    /// forwarded fits in a byte.
    pub open spec fn wf(self) -> bool {
        match self.phase {
            Phase::Creating => self.wait == WaitMode::Bounded,
            Phase::Registering => self.wait == WaitMode::Bounded,
            Phase::AwaitingReadiness => self.wait == WaitMode::Bounded,
            Phase::Releasing { .. } => self.wait == WaitMode::Bounded,
            Phase::Retrieving => true,
            Phase::Probing { status } => is_wait_outcome(status) && verdict_of(status, self.setup)
                is Ambiguous,
            Phase::Resuming { signal } => 0 <= signal <= 0xff,
        }
    }

    /// The call that is outstanding in this state.
    pub open spec fn action(self) -> Action {
        match self.phase {
            Phase::Creating => Action::CreateNotifier,
            Phase::Registering => Action::Register,
            Phase::AwaitingReadiness => Action::AwaitReadiness,
            Phase::Retrieving => Action::RetrieveStatus,
            Phase::Probing { .. } => Action::ProbeSiginfo,
            Phase::Resuming { signal } => Action::Resume(signal),
            Phase::Releasing { .. } => Action::ReleaseNotifier,
        }
    }

    /// The reports that the loop can go on from. A retrieved status must be
    /// one that a wait can report, and the answer of a probe must not
    /// contradict the options; every other report is accepted.
    pub open spec fn accepts(self, reply: Result<i32, OsError>) -> bool {
        match self.phase {
            Phase::Retrieving => reply matches Ok(status) ==> is_wait_outcome(status),
            Phase::Probing { status } => !contradicts_marking(status, self.setup, reply),
            _ => true,
        }
    }

    /// The state in which the next wait begins.
    pub open spec fn rewait(self) -> State {
        self.at(
            match self.wait {
                WaitMode::Blocking => Phase::Retrieving,
                WaitMode::Bounded => Phase::Registering,
            },
        )
    }

    /// The loop ends with `outcome`: at once if it is blocking, and after the
    /// release of the notifier if it is bounded.
    pub open spec fn conclude(self, outcome: Result<i32, OsError>) -> Progress {
        match self.wait {
            WaitMode::Blocking => Progress::Return(outcome),
            WaitMode::Bounded => Progress::Continue(self.at(Phase::Releasing { outcome })),
        }
    }

    /// A decision is carried out: a delivery ends the loop, a resumption is
    /// the next call.
    pub open spec fn enact(self, decision: Decision) -> Progress {
        match decision {
            Decision::Deliver(status) => self.conclude(Ok(status)),
            Decision::Resume(signal) => Progress::Continue(self.at(Phase::Resuming { signal })),
        }
    }

    /// What the report `reply` on the outstanding call leads to.
    ///
    /// A failed call ends the loop with its error, but for a probe that
    /// failed with the tolerated error. A notifier that could not be created
    /// needs no release; a release that fails ends the loop with its own
    /// error, whatever the outcome was before.
    pub open spec fn step(self, reply: Result<i32, OsError>) -> Progress {
        match self.phase {
            Phase::Creating => match reply {
                Ok(_) => Progress::Continue(self.at(Phase::Registering)),
                Err(error) => Progress::Return(Err(error)),
            },
            Phase::Registering => match reply {
                Ok(_) => Progress::Continue(self.at(Phase::AwaitingReadiness)),
                Err(error) => self.conclude(Err(error)),
            },
            Phase::AwaitingReadiness => match reply {
                Ok(_) => Progress::Continue(self.at(Phase::Retrieving)),
                Err(error) => self.conclude(Err(error)),
            },
            Phase::Retrieving => match reply {
                Ok(status) => match verdict_of(status, self.setup) {
                    Verdict::Settled(decision) => self.enact(decision),
                    Verdict::Ambiguous(_) => Progress::Continue(self.at(Phase::Probing { status })),
                },
                Err(error) => self.conclude(Err(error)),
            },
            Phase::Probing { status } => match resolution_of(status, self.setup, reply) {
                Resolution::Settled(decision) => self.enact(decision),
                Resolution::Fatal(error) => self.conclude(Err(error)),
            },
            Phase::Resuming { .. } => match reply {
                Ok(_) => Progress::Continue(self.rewait()),
                Err(error) => self.conclude(Err(error)),
            },
            Phase::Releasing { outcome } => match reply {
                Ok(_) => Progress::Return(outcome),
                Err(error) => Progress::Return(Err(error)),
            },
        }
    }

    /// The notice that a step gives rise to: that of a status which was just
    /// retrieved.
    pub open spec fn notice(self, reply: Result<i32, OsError>) -> Option<Notice> {
        match (self.phase, reply) {
            (Phase::Retrieving, Ok(status)) => notice_of(status),
            _ => None,
        }
    }

    /// A step from a state that a loop can be in, on a report that it
    /// accepts, leads to such a state again.
    pub proof fn lemma_step_wf(self, reply: Result<i32, OsError>)
        requires
            self.wf(),
            self.accepts(reply),
        ensures
            self.step(reply) matches Progress::Continue(next) ==> next.wf() && next.setup
                == self.setup && next.wait == self.wait,
    {
        match self.phase {
            Phase::Retrieving => {
                if let Ok(status) = reply {
                    lemma_stop_signal_range(status);
                }
            },
            _ => {},
        }
    }
}

/// A dispatch loop in progress.
///
/// It is made by [`DispatchLoop::start`] and used up by each step, so that a
/// loop returns at most once and no report is taken twice.
#[derive(Debug)]
pub struct DispatchLoop {
    state: State,
}

/// The answer to a report.
#[derive(Debug)]
pub enum Step {
    /// The loop goes on: its outstanding call is to be made next.
    Perform(DispatchLoop),
    /// The loop is over, with this result.
    Return(Result<i32, OsError>),
}

/// The answer to a report, and the notice that goes with it.
#[derive(Debug)]
pub struct Turn {
    pub step: Step,
    pub notice: Option<Notice>,
}

impl Step {
    /// What this answer is in the model.
    pub open spec fn view(self) -> Progress {
        match self {
            Step::Perform(machine) => Progress::Continue(machine@),
            Step::Return(outcome) => Progress::Return(outcome),
        }
    }
}

impl DispatchLoop {
    #[verifier::type_invariant]
    spec fn valid(self) -> bool {
        self.state.wf()
    }

    /// The state of the loop.
    pub closed spec fn view(self) -> State {
        self.state
    }

    /// Starts a loop. Nothing has been asked of the operating system yet.
    pub fn start(setup: Setup, wait: WaitMode) -> (machine: DispatchLoop)
        ensures
            machine@ == State::initial(setup, wait),
            machine@.wf(),
    {
        let phase = match wait {
            WaitMode::Blocking => Phase::Retrieving,
            WaitMode::Bounded => Phase::Creating,
        };
        DispatchLoop { state: State { setup, wait, phase } }
    }

    /// The state of the loop.
    pub fn state(&self) -> (state: State)
        ensures
            state == self@,
            state.wf(),
    {
        proof {
            use_type_invariant(self);
        }
        self.state
    }

    /// The call that is outstanding: the one to make next.
    pub fn pending(&self) -> (action: Action)
        ensures
            action == self@.action(),
    {
        match self.state.phase {
            Phase::Creating => Action::CreateNotifier,
            Phase::Registering => Action::Register,
            Phase::AwaitingReadiness => Action::AwaitReadiness,
            Phase::Retrieving => Action::RetrieveStatus,
            Phase::Probing { .. } => Action::ProbeSiginfo,
            Phase::Resuming { signal } => Action::Resume(signal),
            Phase::Releasing { .. } => Action::ReleaseNotifier,
        }
    }

    /// Whether the loop can go on from this report on the outstanding call.
    /// A report that is not accepted shows a defect outside the loop, and
    /// [`DispatchLoop::step`] must not be given it.
    pub fn accepts(&self, reply: Result<i32, OsError>) -> (r: bool)
        ensures
            r == self@.accepts(reply),
    {
        proof {
            use_type_invariant(self);
        }
        match self.state.phase {
            Phase::Retrieving => match reply {
                Ok(status) => wait_outcome(status),
                Err(_) => true,
            },
            Phase::Probing { status } => !contradiction(status, self.state.setup, reply),
            _ => true,
        }
    }

    fn go(self, phase: Phase) -> (step: Step)
        requires
            self@.at(phase).wf(),
        ensures
            step@ == Progress::Continue(self@.at(phase)),
    {
        Step::Perform(
            DispatchLoop { state: State { setup: self.state.setup, wait: self.state.wait, phase } },
        )
    }

    fn conclude(self, outcome: Result<i32, OsError>) -> (step: Step)
        ensures
            step@ == self@.conclude(outcome),
    {
        match self.state.wait {
            WaitMode::Blocking => Step::Return(outcome),
            WaitMode::Bounded => self.go(Phase::Releasing { outcome }),
        }
    }

    fn enact(self, decision: Decision) -> (step: Step)
        requires
            decision matches Decision::Resume(signal) ==> 0 <= signal <= 0xff,
        ensures
            step@ == self@.enact(decision),
    {
        match decision {
            Decision::Deliver(status) => self.conclude(Ok(status)),
            Decision::Resume(signal) => self.go(Phase::Resuming { signal }),
        }
    }

    /// Takes the report on the outstanding call and answers with what comes
    /// next: the loop in its next state, or the result of the loop.
    pub fn step(self, reply: Result<i32, OsError>) -> (turn: Turn)
        requires
            self@.accepts(reply),
        ensures
            turn.step@ == self@.step(reply),
            turn.notice == self@.notice(reply),
            turn.step matches Step::Perform(next) ==> next@.wf(),
    {
        proof {
            use_type_invariant(&self);
            self@.lemma_step_wf(reply);
        }
        let setup = self.state.setup;
        match self.state.phase {
            Phase::Creating => {
                let step = match reply {
                    Ok(_) => self.go(Phase::Registering),
                    Err(error) => Step::Return(Err(error)),
                };
                Turn { step, notice: None }
            },
            Phase::Registering => {
                let step = match reply {
                    Ok(_) => self.go(Phase::AwaitingReadiness),
                    Err(error) => self.conclude(Err(error)),
                };
                Turn { step, notice: None }
            },
            Phase::AwaitingReadiness => {
                let step = match reply {
                    Ok(_) => self.go(Phase::Retrieving),
                    Err(error) => self.conclude(Err(error)),
                };
                Turn { step, notice: None }
            },
            Phase::Retrieving => match reply {
                Ok(status) => {
                    let found = classify(status, setup);
                    let step = match found.verdict {
                        Verdict::Settled(decision) => self.enact(decision),
                        Verdict::Ambiguous(_) => self.go(Phase::Probing { status }),
                    };
                    Turn { step, notice: found.notice }
                },
                Err(error) => Turn { step: self.conclude(Err(error)), notice: None },
            },
            Phase::Probing { status } => {
                let step = match resolve(status, setup, reply) {
                    Resolution::Settled(decision) => self.enact(decision),
                    Resolution::Fatal(error) => self.conclude(Err(error)),
                };
                Turn { step, notice: None }
            },
            Phase::Resuming { .. } => {
                let step = match reply {
                    Ok(_) => match self.state.wait {
                        WaitMode::Blocking => self.go(Phase::Retrieving),
                        WaitMode::Bounded => self.go(Phase::Registering),
                    },
                    Err(error) => self.conclude(Err(error)),
                };
                Turn { step, notice: None }
            },
            Phase::Releasing { outcome } => {
                let step = match reply {
                    Ok(_) => Step::Return(outcome),
                    Err(error) => Step::Return(Err(error)),
                };
                Turn { step, notice: None }
            },
        }
    }
}

} // verus!
