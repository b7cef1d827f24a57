//! What holds of every classification and of every step of the loop.
use vstd::prelude::*;
use crate::abi::{EINVAL, EVENT_STOP, SIGTRAP, SIGTRAP_SYSCALL};
use crate::classify::{
    is_job_control, kind_of, notice_of, resolution_of, syscall_stop_status, verdict_of,
    Ambiguity, Decision, OsError, Resolution, Setup, StopKind, Verdict,
};
use crate::dispatch::{Action, Phase, Progress, State, WaitMode};
use crate::options::{AttachMode, EventKind, TraceOption};
use crate::status::{
    event_code, event_stop_status, is_exited, is_signaled, is_stopped, is_wait_outcome,
    lemma_event_stop_status_decodes, lemma_outcomes_exclusive, lemma_stop_signal_range,
    lemma_stop_status_decodes, stop_signal,
};

verus! {

/// The loop has stopped dealing with the tracee: it returns at once, or it
/// has only the notifier left to release and returns after that, whatever the
/// release reports. In neither case is another resumption asked for.
pub open spec fn is_terminal(progress: Progress) -> bool {
    match progress {
        Progress::Return(_) => true,
        Progress::Continue(next) => next.phase is Releasing,
    }
}

/// The loop ends by delivering `status`: it returns it at once, or it returns
/// it after a release of the notifier that succeeds.
pub open spec fn delivers(progress: Progress, status: i32) -> bool {
    match progress {
        Progress::Return(outcome) => outcome == Ok::<i32, OsError>(status),
        Progress::Continue(next) => next.phase == (Phase::Releasing {
            outcome: Ok::<i32, OsError>(status),
        }),
    }
}

/// The action is one of those that begin a wait.
pub open spec fn begins_wait(action: Action) -> bool {
    action == Action::Register || action == Action::RetrieveStatus
}

/// An extended event whose governing option is disabled is never delivered,
/// whatever else the option bitmask holds: the verdict is to resume the
/// tracee with the trap forwarded.
pub proof fn lemma_disabled_event_is_resumed(status: i32, setup: Setup, kind: EventKind)
    requires
        is_stopped(status),
        stop_signal(status) == SIGTRAP,
        EventKind::of_code(event_code(status)) == Some(kind),
        kind.governing_option() matches Some(option) && !setup.options.enabled(option),
    ensures
        verdict_of(status, setup) == Verdict::Settled(Decision::Resume(SIGTRAP)),
        notice_of(status) is None,
{
}

/// A syscall boundary is not delivered while syscall marking is disabled: it
/// is resumed with its stop signal forwarded.
pub proof fn lemma_unmarked_boundary_is_resumed(status: i32, setup: Setup)
    requires
        is_stopped(status),
        stop_signal(status) == SIGTRAP_SYSCALL,
        !setup.options.enabled(TraceOption::SyscallMarking),
    ensures
        verdict_of(status, setup) == Verdict::Settled(Decision::Resume(SIGTRAP_SYSCALL)),
{
}

/// When a loop retrieves a stop with an event that the caller did not ask
/// for, it does not return: it asks for the tracee to be resumed, and once
/// that is done it begins the next wait. A blocking loop is then in the state
/// it was in before, so that any number of such stops leaves it waiting.
pub proof fn lemma_unwanted_event_keeps_waiting(state: State, status: i32, kind: EventKind)
    requires
        state.phase is Retrieving,
        is_stopped(status),
        stop_signal(status) == SIGTRAP,
        EventKind::of_code(event_code(status)) == Some(kind),
        !kind.wanted(state.setup.attach, state.setup.options),
    ensures
        state.accepts(Ok(status)),
        state.step(Ok(status)) == Progress::Continue(
            state.at(Phase::Resuming { signal: SIGTRAP }),
        ),
        state.at(Phase::Resuming { signal: SIGTRAP }).action() == Action::Resume(SIGTRAP),
        forall|value: i32|
            #![trigger state.at(Phase::Resuming { signal: SIGTRAP }).step(Ok(value))]
            state.at(Phase::Resuming { signal: SIGTRAP }).step(Ok(value)) == Progress::Continue(
                state.rewait(),
            ),
        begins_wait(state.rewait().action()),
        state.wait == WaitMode::Blocking ==> state.rewait() == state,
{
}

/// A wanted event is delivered, with the status unchanged, and every known
/// event can be reached: for each there is a status that decodes to it.
pub proof fn lemma_wanted_event_is_delivered(setup: Setup, kind: EventKind)
    requires
        kind.wanted(setup.attach, setup.options),
    ensures
        is_stopped(event_stop_status(SIGTRAP, kind.code())),
        stop_signal(event_stop_status(SIGTRAP, kind.code())) == SIGTRAP,
        event_code(event_stop_status(SIGTRAP, kind.code())) == kind.code(),
        verdict_of(event_stop_status(SIGTRAP, kind.code()), setup) == Verdict::Settled(
            Decision::Deliver(event_stop_status(SIGTRAP, kind.code())),
        ),
{
    lemma_event_stop_status_decodes(SIGTRAP, kind.code());
}

/// A group-stop that carries the marker is delivered if the tracee was
/// seized. If it was attached, the same status is not delivered directly: it
/// is ambiguous, and the siginfo probe decides.
pub proof fn lemma_marked_group_stop(status: i32, setup: Setup)
    requires
        is_stopped(status),
        is_job_control(stop_signal(status)),
        event_code(status) == EVENT_STOP,
    ensures
        setup.attach == AttachMode::Seize ==> verdict_of(status, setup) == Verdict::Settled(
            Decision::Deliver(status),
        ),
        setup.attach == AttachMode::Attach ==> verdict_of(status, setup) == Verdict::Ambiguous(
            Ambiguity::GroupStop,
        ),
{
}

/// The verdict depends on the options only through the set of enabled ones:
/// two bitmasks that enable the same options are classified alike, whatever
/// other bits they hold.
pub proof fn lemma_verdict_by_enabled_options(status: i32, setup: Setup, other: Setup)
    requires
        setup.attach == other.attach,
        setup.disambiguation == other.disambiguation,
        setup.options@ == other.options@,
    ensures
        verdict_of(status, setup) == verdict_of(status, other),
        forall|probe: Result<i32, OsError>|
            #![trigger resolution_of(status, setup, probe)]
            resolution_of(status, setup, probe) == resolution_of(status, other, probe),
{
    assert forall|option: TraceOption|
        setup.options.enabled(option) == other.options.enabled(option) by {
        assert(setup.options@.contains(option) == setup.options.enabled(option));
        assert(other.options@.contains(option) == other.options.enabled(option));
    }
    match EventKind::of_code(event_code(status)) {
        Some(kind) => {
            assert(kind.wanted(setup.attach, setup.options) == kind.wanted(
                other.attach,
                other.options,
            ));
        },
        None => {},
    }
}

/// A normal exit is terminal. The verdict is to deliver the status as it is,
/// so that it decodes to the same exit code; a loop that retrieves it ends by
/// delivering it and asks for no further resumption.
pub proof fn lemma_exit_is_terminal(state: State, status: i32)
    requires
        state.phase is Retrieving,
        is_exited(status),
    ensures
        verdict_of(status, state.setup) == Verdict::Settled(Decision::Deliver(status)),
        state.accepts(Ok(status)),
        delivers(state.step(Ok(status)), status),
        is_terminal(state.step(Ok(status))),
{
    lemma_outcomes_exclusive(status);
}

/// A death by signal is terminal. The verdict is to deliver the status as it
/// is, so that it decodes to the same signal; a loop that retrieves it ends by
/// delivering it and asks for no further resumption.
pub proof fn lemma_termination_is_terminal(state: State, status: i32)
    requires
        state.phase is Retrieving,
        is_signaled(status),
    ensures
        verdict_of(status, state.setup) == Verdict::Settled(Decision::Deliver(status)),
        state.accepts(Ok(status)),
        delivers(state.step(Ok(status)), status),
        is_terminal(state.step(Ok(status))),
{
    lemma_outcomes_exclusive(status);
}

/// Once a loop has only the notifier left to release, it returns on the next
/// report: it never goes back to the tracee.
pub proof fn lemma_release_returns(state: State, reply: Result<i32, OsError>)
    requires
        state.phase is Releasing,
    ensures
        state.action() == Action::ReleaseNotifier,
        state.step(reply) is Return,
        reply is Ok ==> state.step(reply) == Progress::Return(state.phase->outcome),
        reply matches Err(error) ==> state.step(reply) == Progress::Return(Err(error)),
{
}

/// A loop never returns a status straight after a resumption. When the
/// resumption succeeded the next wait begins; when it failed the loop ends
/// with that error.
pub proof fn lemma_resume_reenters_wait(state: State, reply: Result<i32, OsError>)
    requires
        state.phase is Resuming,
    ensures
        reply is Ok ==> state.step(reply) == Progress::Continue(state.rewait()) && begins_wait(
            state.rewait().action(),
        ),
        reply matches Err(error) ==> state.step(reply) == state.conclude(Err(error)),
        forall|status: i32| !delivers(state.step(reply), status),
{
}

/// A status is delivered from a retrieval only as it was retrieved.
pub proof fn lemma_delivery_is_unchanged(state: State, status: i32, delivered: i32)
    requires
        state.phase is Retrieving,
        delivers(state.step(Ok(status)), delivered),
    ensures
        delivered == status,
        verdict_of(status, state.setup) == Verdict::Settled(Decision::Deliver(status)),
{
}

/// What a probe can lead to. A failure with `EINVAL` delivers the status
/// that was retrieved; any other failure ends the loop with that error; a
/// success never ends it with an error, and delivers nothing but the status
/// of a syscall boundary.
pub proof fn lemma_probe_outcomes(state: State, reply: Result<i32, OsError>)
    requires
        state.wf(),
        state.phase is Probing,
    ensures
        reply matches Err(error) ==> (error.errno == EINVAL ==> delivers(
            state.step(reply),
            state.phase->status,
        )),
        reply matches Err(error) ==> (error.errno != EINVAL ==> state.step(reply)
            == state.conclude(Err(error))),
        reply is Ok ==> (state.step(reply) matches Progress::Continue(next) && next.phase
            is Resuming) || delivers(state.step(reply), syscall_stop_status()),
{
}

/// The status that a bare trap is delivered as is that of a syscall boundary
/// and nothing else: a stop by the marked trap signal without an event, which
/// a loop with syscall marking enabled would deliver as it is.
pub proof fn lemma_syscall_stop_status(setup: Setup)
    ensures
        is_stopped(syscall_stop_status()),
        stop_signal(syscall_stop_status()) == SIGTRAP_SYSCALL,
        event_code(syscall_stop_status()) == 0,
        kind_of(syscall_stop_status()) == StopKind::SyscallBoundary,
        setup.options.enabled(TraceOption::SyscallMarking) ==> verdict_of(
            syscall_stop_status(),
            setup,
        ) == Verdict::Settled(Decision::Deliver(syscall_stop_status())),
{
    lemma_stop_status_decodes(SIGTRAP_SYSCALL);
}

/// The ambiguous group-stop of an attached tracee, settled: after a probe
/// that succeeded the tracee is resumed without a signal.
pub proof fn lemma_group_stop_probe(status: i32, setup: Setup, probe: Result<i32, OsError>)
    requires
        verdict_of(status, setup) == Verdict::Ambiguous(Ambiguity::GroupStop),
    ensures
        setup.attach == AttachMode::Attach,
        is_job_control(stop_signal(status)),
        probe is Ok ==> resolution_of(status, setup, probe) == Resolution::Settled(
            Decision::Resume(0),
        ),
        probe matches Err(error) ==> (error.errno == EINVAL ==> resolution_of(
            status,
            setup,
            probe,
        ) == Resolution::Settled(Decision::Deliver(status))),
        probe matches Err(error) ==> (error.errno != EINVAL ==> resolution_of(
            status,
            setup,
            probe,
        ) == Resolution::Fatal(error)),
{
}

/// A bounded loop releases its notifier before it returns: it returns only
/// from the release itself, or because the notifier could not be created.
pub proof fn lemma_bounded_releases(state: State, reply: Result<i32, OsError>)
    requires
        state.wait == WaitMode::Bounded,
        state.step(reply) is Return,
    ensures
        state.phase is Releasing || (state.phase is Creating && reply is Err),
{
    match state.phase {
        Phase::Retrieving => {
            if let Ok(status) = reply {
                match verdict_of(status, state.setup) {
                    Verdict::Settled(decision) => {
                        assert(state.enact(decision) is Continue);
                    },
                    Verdict::Ambiguous(_) => {},
                }
            }
        },
        Phase::Probing { status } => {
            match resolution_of(status, state.setup, reply) {
                Resolution::Settled(decision) => {
                    assert(state.enact(decision) is Continue);
                },
                Resolution::Fatal(_) => {},
            }
        },
        _ => {},
    }
}

/// A blocking loop never deals with a notifier: it only retrieves statuses,
/// probes and resumes.
pub proof fn lemma_blocking_actions(state: State)
    requires
        state.wf(),
        state.wait == WaitMode::Blocking,
    ensures
        state.action() == Action::RetrieveStatus || state.action() == Action::ProbeSiginfo
            || state.action() is Resume,
{
}

/// Every signal that a loop asks to forward is a number from 0 to 255.
pub proof fn lemma_forwarded_signal_range(state: State, signal: i32)
    requires
        state.wf(),
        state.action() == Action::Resume(signal),
    ensures
        0 <= signal <= 0xff,
{
}

/// Every status that a wait can report is classified, and a stop that is not
/// delivered or probed is resumed with a signal from 0 to 255.
pub proof fn lemma_resumed_signal(status: i32, setup: Setup, signal: i32)
    requires
        is_wait_outcome(status),
        verdict_of(status, setup) == Verdict::Settled(Decision::Resume(signal)),
    ensures
        is_stopped(status),
        signal == stop_signal(status),
        0 <= signal <= 0xff,
{
    lemma_stop_signal_range(status);
}

} // verus!
