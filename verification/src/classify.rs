//! The stop classifier: from a raw wait status, the attach mode and the
//! enabled options to the kind of the stop and to what happens next.
//!
//! Most stops are settled by the status alone. Two are not, and need the
//! tracee's siginfo: a job-control stop of an attached (not seized) tracee,
//! and, when single-shot disambiguation is chosen, a trace-trap that carries
//! no event. [`classify`] says which of these holds; [`resolve`] settles an
//! ambiguous stop from what the siginfo probe returned.
use vstd::prelude::*;
use crate::abi::{EINVAL, EVENT_STOP, SIGSTOP, SIGTRAP, SIGTRAP_SYSCALL, SIGTSTP, SIGTTIN, SIGTTOU};
use crate::options::{AttachMode, EventKind, TraceOption, TraceOptions};
use crate::status::{
    event_code, event_code_of, exited, is_exited, is_stopped, is_wait_outcome, stop_signal,
    stop_signal_of, stop_status, stop_status_of, stopped,
};

verus! {

/// How a trace-trap that carries no event is told from a syscall boundary.
#[derive(Clone, Copy, Debug, PartialEq, Eq, Structural)]
pub enum Disambiguation {
    /// Probe the tracee's siginfo once and decide from its code.
    SingleShot,
    /// Do not probe: resume the tracee and keep waiting.
    Looping,
}

/// What classification depends on besides the status.
#[derive(Clone, Copy, Debug, PartialEq, Eq, Structural)]
pub struct Setup {
    pub attach: AttachMode,
    pub options: TraceOptions,
    pub disambiguation: Disambiguation,
}

/// Why the tracee is not running.
#[derive(Clone, Copy, Debug, PartialEq, Eq, Structural)]
pub enum StopKind {
    /// A trace-trap that carries a known extended event.
    ExtendedEvent(EventKind),
    /// A trace-trap with the syscall marker bit: syscall entry or exit.
    SyscallBoundary,
    /// A stop by one of the job-control signals.
    GroupStop,
    /// A stop by any other signal, or a trace-trap without a known event.
    PlainSignalStop,
    /// The tracee exited.
    Exited,
    /// The tracee was killed by a signal.
    TerminatedBySignal,
}

/// What the loop does with a stop.
#[derive(Clone, Copy, Debug, PartialEq, Eq, Structural)]
pub enum Decision {
    /// Hand this status back to the caller.
    Deliver(i32),
    /// Resume the tracee, forwarding this signal (0 for none), and wait again.
    Resume(i32),
}

/// Which of the two ambiguous stops a status is.
#[derive(Clone, Copy, Debug, PartialEq, Eq, Structural)]
pub enum Ambiguity {
    /// A trace-trap without an event: a real trap or a syscall boundary.
    BareTrap,
    /// A job-control stop of an attached tracee, which may have been resumed
    /// already.
    GroupStop,
}

/// What the status alone decides.
#[derive(Clone, Copy, Debug, PartialEq, Eq, Structural)]
pub enum Verdict {
    Settled(Decision),
    /// The tracee's siginfo has to be probed first.
    Ambiguous(Ambiguity),
}

/// Something worth a warning that is no error.
#[derive(Clone, Copy, Debug, PartialEq, Eq, Structural)]
pub enum Notice {
    /// A stop carried an event code that is not a known event. The stop is
    /// delivered all the same, so that the tracee is not left hanging.
    UnknownEvent { signal: i32, code: i32 },
}

/// An error of the operating system, by its error number.
#[derive(Clone, Copy, Debug, PartialEq, Eq, Structural)]
pub struct OsError {
    pub errno: i32,
}

/// What is decided once the probe has answered.
#[derive(Clone, Copy, Debug, PartialEq, Eq, Structural)]
pub enum Resolution {
    Settled(Decision),
    /// The probe failed for a reason other than the tolerated race; the loop
    /// ends with this error.
    Fatal(OsError),
}

/// The result of classifying a status.
#[derive(Clone, Copy, Debug, PartialEq, Eq, Structural)]
pub struct Classification {
    pub kind: StopKind,
    pub verdict: Verdict,
    pub notice: Option<Notice>,
}

/// The signal is one of the four job-control stop signals.
pub open spec fn is_job_control(signal: i32) -> bool {
    signal == SIGSTOP || signal == SIGTSTP || signal == SIGTTIN || signal == SIGTTOU
}

/// The kind of a status.
pub open spec fn kind_of(status: i32) -> StopKind {
    if is_stopped(status) {
        let signal = stop_signal(status);
        if signal == SIGTRAP {
            match EventKind::of_code(event_code(status)) {
                Some(kind) => StopKind::ExtendedEvent(kind),
                None => StopKind::PlainSignalStop,
            }
        } else if signal == SIGTRAP_SYSCALL {
            StopKind::SyscallBoundary
        } else if is_job_control(signal) {
            StopKind::GroupStop
        } else {
            StopKind::PlainSignalStop
        }
    } else if is_exited(status) {
        StopKind::Exited
    } else {
        StopKind::TerminatedBySignal
    }
}

/// The verdict on a trace-trap stop.
///
/// A known event is delivered if the caller asked for it and is otherwise
/// passed over: the tracee is resumed with the trap forwarded. An unknown
/// code is delivered. Without a code the stop is ambiguous, and the chosen
/// disambiguation says whether to probe or to resume.
pub open spec fn trap_verdict(status: i32, setup: Setup) -> Verdict {
    let code = event_code(status);
    match EventKind::of_code(code) {
        Some(kind) => if kind.wanted(setup.attach, setup.options) {
            Verdict::Settled(Decision::Deliver(status))
        } else {
            Verdict::Settled(Decision::Resume(SIGTRAP))
        },
        None => if code != 0 {
            Verdict::Settled(Decision::Deliver(status))
        } else {
            match setup.disambiguation {
                Disambiguation::SingleShot => Verdict::Ambiguous(Ambiguity::BareTrap),
                Disambiguation::Looping => Verdict::Settled(Decision::Resume(SIGTRAP)),
            }
        },
    }
}

/// The verdict on a stop by a job-control signal.
///
/// A code that is neither zero nor the group-stop marker is unknown, and the
/// stop is delivered. Of a seized tracee, a stop with the marker is delivered
/// and one without is resumed with the signal forwarded. Of an attached
/// tracee, the stop is ambiguous with or without the marker.
pub open spec fn group_stop_verdict(status: i32, setup: Setup) -> Verdict {
    let code = event_code(status);
    if code != 0 && code != EVENT_STOP {
        Verdict::Settled(Decision::Deliver(status))
    } else if setup.attach == AttachMode::Seize {
        if code == EVENT_STOP {
            Verdict::Settled(Decision::Deliver(status))
        } else {
            Verdict::Settled(Decision::Resume(stop_signal(status)))
        }
    } else {
        Verdict::Ambiguous(Ambiguity::GroupStop)
    }
}

/// The verdict on a status: the decision table.
///
/// An exit and a death by signal are delivered as they are. A syscall
/// boundary is delivered if syscall marking is enabled. A stop by a signal
/// that is neither a trap nor a job-control signal is resumed with that
/// signal forwarded, and so is a syscall boundary that was not asked for.
pub open spec fn verdict_of(status: i32, setup: Setup) -> Verdict {
    if is_stopped(status) {
        let signal = stop_signal(status);
        if signal == SIGTRAP {
            trap_verdict(status, setup)
        } else if signal == SIGTRAP_SYSCALL && setup.options.enabled(TraceOption::SyscallMarking) {
            Verdict::Settled(Decision::Deliver(status))
        } else if is_job_control(signal) {
            group_stop_verdict(status, setup)
        } else {
            Verdict::Settled(Decision::Resume(signal))
        }
    } else {
        Verdict::Settled(Decision::Deliver(status))
    }
}

/// The status is a trace-trap or job-control stop with an event code that is
/// not a known one for that stop.
pub open spec fn has_unknown_event(status: i32) -> bool {
    let signal = stop_signal(status);
    let code = event_code(status);
    is_stopped(status) && code != 0 && {
        ||| signal == SIGTRAP && EventKind::of_code(code) is None
        ||| is_job_control(signal) && code != EVENT_STOP
    }
}

/// The notice that a status gives rise to.
pub open spec fn notice_of(status: i32) -> Option<Notice> {
    if has_unknown_event(status) {
        Some(Notice::UnknownEvent { signal: stop_signal(status), code: event_code(status) })
    } else {
        None
    }
}

/// The status of a syscall-boundary stop: what a bare trap is delivered as
/// once the probe has shown it to be one.
pub open spec fn syscall_stop_status() -> i32 {
    stop_status(SIGTRAP_SYSCALL)
}

/// The probe's answer on a bare trap contradicts the options: the siginfo
/// code is the trap signal, which marks a syscall boundary, although syscall
/// marking is enabled and the boundary would have arrived marked.
pub open spec fn contradicts_marking(status: i32, setup: Setup, probe: Result<i32, OsError>) -> bool {
    &&& verdict_of(status, setup) == Verdict::Ambiguous(Ambiguity::BareTrap)
    &&& probe == Ok::<i32, OsError>(SIGTRAP)
    &&& setup.options.enabled(TraceOption::SyscallMarking)
}

/// What is decided on a status once the siginfo probe has answered with
/// `probe`: the siginfo code, or the error of the probe.
///
/// A settled status stays as settled. On an ambiguous one, a probe that fails
/// with `EINVAL` means that the tracee has moved on since the wait, and the
/// status is delivered; any other failure is fatal. After a probe that
/// succeeded, a group-stop is resumed without a signal, and a bare trap is
/// delivered as a syscall boundary if the siginfo code is the trap signal and
/// is otherwise resumed with the trap forwarded.
pub open spec fn resolution_of(status: i32, setup: Setup, probe: Result<i32, OsError>) -> Resolution {
    match verdict_of(status, setup) {
        Verdict::Settled(decision) => Resolution::Settled(decision),
        Verdict::Ambiguous(ambiguity) => match probe {
            Err(error) => if error.errno == EINVAL {
                Resolution::Settled(Decision::Deliver(status))
            } else {
                Resolution::Fatal(error)
            },
            Ok(code) => match ambiguity {
                Ambiguity::GroupStop => Resolution::Settled(Decision::Resume(0)),
                Ambiguity::BareTrap => if code == SIGTRAP {
                    Resolution::Settled(Decision::Deliver(syscall_stop_status()))
                } else {
                    Resolution::Settled(Decision::Resume(SIGTRAP))
                },
            },
        },
    }
}

/// Whether the signal is one of the four job-control stop signals.
pub fn job_control(signal: i32) -> (r: bool)
    ensures
        r == is_job_control(signal),
{
    signal == SIGSTOP || signal == SIGTSTP || signal == SIGTTIN || signal == SIGTTOU
}

/// Classifies a status: its kind, the verdict of the decision table, and the
/// notice for an unknown event code.
///
/// The status must have one of the three shapes that a wait can report.
pub fn classify(status: i32, setup: Setup) -> (r: Classification)
    requires
        is_wait_outcome(status),
    ensures
        r.kind == kind_of(status),
        r.verdict == verdict_of(status, setup),
        r.notice == notice_of(status),
{
    if !stopped(status) {
        let kind = if exited(status) {
            StopKind::Exited
        } else {
            StopKind::TerminatedBySignal
        };
        return Classification {
            kind,
            verdict: Verdict::Settled(Decision::Deliver(status)),
            notice: None,
        };
    }
    let signal = stop_signal_of(status);
    let code = event_code_of(status);
    let unknown = Some(Notice::UnknownEvent { signal, code });
    let deliver = Verdict::Settled(Decision::Deliver(status));
    if signal == SIGTRAP {
        match EventKind::from_code(code) {
            Some(kind) => {
                let verdict = if kind.is_wanted(setup.attach, setup.options) {
                    deliver
                } else {
                    Verdict::Settled(Decision::Resume(SIGTRAP))
                };
                Classification { kind: StopKind::ExtendedEvent(kind), verdict, notice: None }
            },
            None => {
                if code != 0 {
                    Classification {
                        kind: StopKind::PlainSignalStop,
                        verdict: deliver,
                        notice: unknown,
                    }
                } else {
                    let verdict = match setup.disambiguation {
                        Disambiguation::SingleShot => Verdict::Ambiguous(Ambiguity::BareTrap),
                        Disambiguation::Looping => Verdict::Settled(Decision::Resume(SIGTRAP)),
                    };
                    Classification { kind: StopKind::PlainSignalStop, verdict, notice: None }
                }
            },
        }
    } else if signal == SIGTRAP_SYSCALL {
        let verdict = if setup.options.enables(TraceOption::SyscallMarking) {
            deliver
        } else {
            Verdict::Settled(Decision::Resume(signal))
        };
        Classification { kind: StopKind::SyscallBoundary, verdict, notice: None }
    } else if job_control(signal) {
        if code != 0 && code != EVENT_STOP {
            Classification { kind: StopKind::GroupStop, verdict: deliver, notice: unknown }
        } else {
            let verdict = match setup.attach {
                AttachMode::Seize => if code == EVENT_STOP {
                    deliver
                } else {
                    Verdict::Settled(Decision::Resume(signal))
                },
                AttachMode::Attach => Verdict::Ambiguous(Ambiguity::GroupStop),
            };
            Classification { kind: StopKind::GroupStop, verdict, notice: None }
        }
    } else {
        Classification {
            kind: StopKind::PlainSignalStop,
            verdict: Verdict::Settled(Decision::Resume(signal)),
            notice: None,
        }
    }
}

/// Whether the probe's answer on this status contradicts the options.
/// [`resolve`] accepts no such answer.
pub fn contradiction(status: i32, setup: Setup, probe: Result<i32, OsError>) -> (r: bool)
    requires
        is_wait_outcome(status),
    ensures
        r == contradicts_marking(status, setup, probe),
{
    match (classify(status, setup).verdict, probe) {
        (Verdict::Ambiguous(Ambiguity::BareTrap), Ok(code)) => code == SIGTRAP
            && setup.options.enables(TraceOption::SyscallMarking),
        _ => false,
    }
}

/// Settles a status from the answer of the siginfo probe.
///
/// The status must have one of the three shapes that a wait can report, and
/// the answer must not contradict the options.
pub fn resolve(status: i32, setup: Setup, probe: Result<i32, OsError>) -> (r: Resolution)
    requires
        is_wait_outcome(status),
        !contradicts_marking(status, setup, probe),
    ensures
        r == resolution_of(status, setup, probe),
{
    match classify(status, setup).verdict {
        Verdict::Settled(decision) => Resolution::Settled(decision),
        Verdict::Ambiguous(ambiguity) => match probe {
            Err(error) => if error.errno == EINVAL {
                Resolution::Settled(Decision::Deliver(status))
            } else {
                Resolution::Fatal(error)
            },
            Ok(code) => match ambiguity {
                Ambiguity::GroupStop => Resolution::Settled(Decision::Resume(0)),
                Ambiguity::BareTrap => if code == SIGTRAP {
                    Resolution::Settled(Decision::Deliver(stop_status_of(SIGTRAP_SYSCALL)))
                } else {
                    Resolution::Settled(Decision::Resume(SIGTRAP))
                },
            },
        },
    }
}

} // verus!
