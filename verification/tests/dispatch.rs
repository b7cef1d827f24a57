use tracestop::classify::{Disambiguation, Notice, OsError, Setup};
use tracestop::dispatch::{Action, DispatchLoop, Phase, State, Step, WaitMode};
use tracestop::options::{AttachMode, TraceOptions};

type Reply = Result<i32, OsError>;

struct Run {
    actions: Vec<Action>,
    notices: Vec<Notice>,
    outcome: Option<Reply>,
    last: Option<State>,
}

fn stop(signal: i32, code: i32) -> i32 {
    (code << 16) | libc::W_STOPCODE(signal)
}

fn setup(attach: AttachMode, bits: i32, disambiguation: Disambiguation) -> Setup {
    Setup { attach, options: TraceOptions::from_bits(bits), disambiguation }
}

fn failed(errno: i32) -> Reply {
    Err(OsError { errno })
}

/// Runs a loop against a script of reports, one for each call it asks for.
fn drive(setup: Setup, wait: WaitMode, replies: &[Reply]) -> Run {
    let mut machine = DispatchLoop::start(setup, wait);
    let mut actions = Vec::new();
    let mut notices = Vec::new();
    for reply in replies {
        actions.push(machine.pending());
        assert!(machine.accepts(*reply));
        let turn = machine.step(*reply);
        if let Some(notice) = turn.notice {
            notices.push(notice);
        }
        match turn.step {
            Step::Perform(next) => machine = next,
            Step::Return(outcome) => {
                assert_eq!(actions.len(), replies.len());
                return Run { actions, notices, outcome: Some(outcome), last: None };
            }
        }
    }
    actions.push(machine.pending());
    Run { actions, notices, outcome: None, last: Some(machine.state()) }
}

fn only_exec(attach: AttachMode) -> Setup {
    setup(attach, libc::PTRACE_O_TRACEEXEC, Disambiguation::Looping)
}

#[test]
fn blocking_loop_starts_by_retrieving() {
    let machine = DispatchLoop::start(only_exec(AttachMode::Seize), WaitMode::Blocking);
    assert_eq!(machine.pending(), Action::RetrieveStatus);
    assert_eq!(
        machine.state(),
        State {
            setup: only_exec(AttachMode::Seize),
            wait: WaitMode::Blocking,
            phase: Phase::Retrieving
        }
    );
}

#[test]
fn bounded_loop_starts_by_creating_the_notifier() {
    let machine = DispatchLoop::start(only_exec(AttachMode::Seize), WaitMode::Bounded);
    assert_eq!(machine.pending(), Action::CreateNotifier);
    assert_eq!(machine.state().phase, Phase::Creating);
    assert_eq!(machine.state().wait, WaitMode::Bounded);
}

#[test]
fn exec_event_returns_status_unchanged() {
    let status = stop(libc::SIGTRAP, libc::PTRACE_EVENT_EXEC);
    let run = drive(only_exec(AttachMode::Seize), WaitMode::Blocking, &[Ok(status)]);
    assert_eq!(run.outcome, Some(Ok(0x0004_057f)));
    assert_eq!(run.actions, vec![Action::RetrieveStatus]);
    assert!(run.notices.is_empty());
}

#[test]
fn fork_event_is_resumed_until_a_deliverable_stop() {
    let fork = stop(libc::SIGTRAP, libc::PTRACE_EVENT_FORK);
    let exec = stop(libc::SIGTRAP, libc::PTRACE_EVENT_EXEC);
    let waiting = drive(only_exec(AttachMode::Seize), WaitMode::Blocking, &[Ok(fork), Ok(0)]);
    assert_eq!(waiting.outcome, None);
    assert_eq!(
        waiting.actions,
        vec![Action::RetrieveStatus, Action::Resume(libc::SIGTRAP), Action::RetrieveStatus]
    );
    let done = drive(
        only_exec(AttachMode::Seize),
        WaitMode::Blocking,
        &[Ok(fork), Ok(0), Ok(fork), Ok(0), Ok(exec)],
    );
    assert_eq!(done.outcome, Some(Ok(exec)));
    assert_eq!(
        done.actions,
        vec![
            Action::RetrieveStatus,
            Action::Resume(libc::SIGTRAP),
            Action::RetrieveStatus,
            Action::Resume(libc::SIGTRAP),
            Action::RetrieveStatus,
        ]
    );
}

#[test]
fn normal_exit_is_returned_without_resume() {
    let status = libc::W_EXITCODE(42, 0);
    for wait in [WaitMode::Blocking, WaitMode::Bounded] {
        let replies: Vec<Reply> = match wait {
            WaitMode::Blocking => vec![Ok(status)],
            WaitMode::Bounded => vec![Ok(7), Ok(0), Ok(1), Ok(status), Ok(0)],
        };
        let run = drive(only_exec(AttachMode::Attach), wait, &replies);
        let returned = run.outcome.unwrap().unwrap();
        assert!(libc::WIFEXITED(returned));
        assert_eq!(libc::WEXITSTATUS(returned), 42);
        assert!(run.actions.iter().all(|action| !matches!(action, Action::Resume(_))));
    }
}

#[test]
fn death_by_signal_is_returned_without_resume() {
    let status = libc::SIGKILL;
    for wait in [WaitMode::Blocking, WaitMode::Bounded] {
        let replies: Vec<Reply> = match wait {
            WaitMode::Blocking => vec![Ok(status)],
            WaitMode::Bounded => vec![Ok(7), Ok(0), Ok(1), Ok(status), Ok(0)],
        };
        let run = drive(only_exec(AttachMode::Attach), wait, &replies);
        let returned = run.outcome.unwrap().unwrap();
        assert!(libc::WIFSIGNALED(returned));
        assert_eq!(libc::WTERMSIG(returned), libc::SIGKILL);
        assert!(run.actions.iter().all(|action| !matches!(action, Action::Resume(_))));
    }
}

#[test]
fn resumed_signal_then_exit() {
    let segv = stop(libc::SIGSEGV, 0);
    let killed = libc::SIGSEGV | 0x80;
    let run =
        drive(only_exec(AttachMode::Seize), WaitMode::Blocking, &[Ok(segv), Ok(0), Ok(killed)]);
    assert_eq!(run.outcome, Some(Ok(killed)));
    assert_eq!(
        run.actions,
        vec![Action::RetrieveStatus, Action::Resume(libc::SIGSEGV), Action::RetrieveStatus]
    );
}

#[test]
fn bounded_wait_retrieves_after_readiness_wait_even_when_nothing_is_ready() {
    let exec = stop(libc::SIGTRAP, libc::PTRACE_EVENT_EXEC);
    let timed_out = drive(only_exec(AttachMode::Seize), WaitMode::Bounded, &[Ok(3), Ok(0), Ok(0)]);
    assert_eq!(timed_out.outcome, None);
    assert_eq!(
        timed_out.actions,
        vec![
            Action::CreateNotifier,
            Action::Register,
            Action::AwaitReadiness,
            Action::RetrieveStatus
        ]
    );
    let ready = drive(only_exec(AttachMode::Seize), WaitMode::Bounded, &[Ok(3), Ok(0), Ok(1)]);
    assert_eq!(ready.actions, timed_out.actions);
    assert_eq!(ready.last, timed_out.last);
    let done = drive(
        only_exec(AttachMode::Seize),
        WaitMode::Bounded,
        &[Ok(3), Ok(0), Ok(0), Ok(exec), Ok(0)],
    );
    assert_eq!(done.outcome, Some(Ok(exec)));
    assert_eq!(done.actions.last(), Some(&Action::ReleaseNotifier));
}

#[test]
fn bounded_loop_registers_before_every_retrieval() {
    let fork = stop(libc::SIGTRAP, libc::PTRACE_EVENT_FORK);
    let exec = stop(libc::SIGTRAP, libc::PTRACE_EVENT_EXEC);
    let run = drive(
        only_exec(AttachMode::Seize),
        WaitMode::Bounded,
        &[Ok(3), Ok(0), Ok(1), Ok(fork), Ok(0), Ok(0), Ok(1), Ok(exec), Ok(0)],
    );
    assert_eq!(run.outcome, Some(Ok(exec)));
    assert_eq!(
        run.actions,
        vec![
            Action::CreateNotifier,
            Action::Register,
            Action::AwaitReadiness,
            Action::RetrieveStatus,
            Action::Resume(libc::SIGTRAP),
            Action::Register,
            Action::AwaitReadiness,
            Action::RetrieveStatus,
            Action::ReleaseNotifier,
        ]
    );
}

#[test]
fn group_stop_probe_einval_delivers_captured_status() {
    let status = stop(libc::SIGSTOP, 0);
    let run = drive(
        only_exec(AttachMode::Attach),
        WaitMode::Blocking,
        &[Ok(status), failed(libc::EINVAL)],
    );
    assert_eq!(run.outcome, Some(Ok(status)));
    assert_eq!(run.actions, vec![Action::RetrieveStatus, Action::ProbeSiginfo]);
    assert!(run.notices.is_empty());
}

#[test]
fn group_stop_probe_other_error_is_returned() {
    let status = stop(libc::SIGSTOP, 0);
    let blocking = drive(
        only_exec(AttachMode::Attach),
        WaitMode::Blocking,
        &[Ok(status), failed(libc::ESRCH)],
    );
    assert_eq!(blocking.outcome, Some(failed(libc::ESRCH)));
    let bounded = drive(
        only_exec(AttachMode::Attach),
        WaitMode::Bounded,
        &[Ok(3), Ok(0), Ok(1), Ok(status), failed(libc::ESRCH), Ok(0)],
    );
    assert_eq!(bounded.outcome, Some(failed(libc::ESRCH)));
    assert_eq!(bounded.actions.last(), Some(&Action::ReleaseNotifier));
}

#[test]
fn loop_resumes_probed_group_stop_without_signal() {
    let status = stop(libc::SIGTTIN, 0);
    let run =
        drive(only_exec(AttachMode::Attach), WaitMode::Blocking, &[Ok(status), Ok(0), Ok(0)]);
    assert_eq!(run.outcome, None);
    assert_eq!(
        run.actions,
        vec![
            Action::RetrieveStatus,
            Action::ProbeSiginfo,
            Action::Resume(0),
            Action::RetrieveStatus
        ]
    );
}

#[test]
fn seized_group_stop_is_not_probed() {
    let marked = stop(libc::SIGSTOP, libc::PTRACE_EVENT_STOP);
    let run = drive(only_exec(AttachMode::Seize), WaitMode::Blocking, &[Ok(marked)]);
    assert_eq!(run.outcome, Some(Ok(marked)));
    let bare = stop(libc::SIGSTOP, 0);
    let run = drive(only_exec(AttachMode::Seize), WaitMode::Blocking, &[Ok(bare)]);
    assert_eq!(run.outcome, None);
    assert_eq!(run.actions, vec![Action::RetrieveStatus, Action::Resume(libc::SIGSTOP)]);
}

#[test]
fn single_shot_bare_trap_is_delivered_as_syscall_boundary() {
    let single = setup(AttachMode::Seize, 0, Disambiguation::SingleShot);
    let run = drive(single, WaitMode::Blocking, &[Ok(0x057f), Ok(libc::SIGTRAP)]);
    assert_eq!(run.outcome, Some(Ok(0x857f)));
    assert_eq!(run.actions, vec![Action::RetrieveStatus, Action::ProbeSiginfo]);
    let returned = run.outcome.unwrap().unwrap();
    assert!(libc::WIFSTOPPED(returned));
    assert_eq!(libc::WSTOPSIG(returned), libc::SIGTRAP | 0x80);
}

#[test]
fn single_shot_bare_trap_with_other_code_is_resumed() {
    let single = setup(AttachMode::Seize, 0, Disambiguation::SingleShot);
    let run = drive(single, WaitMode::Blocking, &[Ok(0x057f), Ok(libc::SI_USER)]);
    assert_eq!(run.outcome, None);
    assert_eq!(
        run.actions,
        vec![Action::RetrieveStatus, Action::ProbeSiginfo, Action::Resume(libc::SIGTRAP)]
    );
}

#[test]
fn single_shot_bare_trap_probe_einval_delivers_last_status() {
    let single = setup(AttachMode::Attach, 0xff, Disambiguation::SingleShot);
    let run = drive(single, WaitMode::Blocking, &[Ok(0x057f), failed(libc::EINVAL)]);
    assert_eq!(run.outcome, Some(Ok(0x057f)));
}

#[test]
fn looping_bare_trap_is_resumed_without_probe() {
    let looping = setup(AttachMode::Attach, 0xff, Disambiguation::Looping);
    let run = drive(looping, WaitMode::Blocking, &[Ok(0x057f), Ok(0)]);
    assert_eq!(run.outcome, None);
    assert_eq!(
        run.actions,
        vec![Action::RetrieveStatus, Action::Resume(libc::SIGTRAP), Action::RetrieveStatus]
    );
}

#[test]
fn unknown_event_is_delivered_with_notice() {
    let status = stop(libc::SIGTRAP, 9);
    let run = drive(only_exec(AttachMode::Seize), WaitMode::Blocking, &[Ok(status)]);
    assert_eq!(run.outcome, Some(Ok(status)));
    assert_eq!(run.notices, vec![Notice::UnknownEvent { signal: libc::SIGTRAP, code: 9 }]);
}

#[test]
fn retrieval_error_is_returned() {
    let blocking = drive(only_exec(AttachMode::Seize), WaitMode::Blocking, &[failed(libc::ECHILD)]);
    assert_eq!(blocking.outcome, Some(failed(libc::ECHILD)));
    let bounded = drive(
        only_exec(AttachMode::Seize),
        WaitMode::Bounded,
        &[Ok(3), Ok(0), Ok(1), failed(libc::ECHILD), Ok(0)],
    );
    assert_eq!(bounded.outcome, Some(failed(libc::ECHILD)));
    assert_eq!(bounded.actions.last(), Some(&Action::ReleaseNotifier));
}

#[test]
fn resume_error_is_returned() {
    let fork = stop(libc::SIGTRAP, libc::PTRACE_EVENT_FORK);
    let blocking = drive(
        only_exec(AttachMode::Seize),
        WaitMode::Blocking,
        &[Ok(fork), failed(libc::ESRCH)],
    );
    assert_eq!(blocking.outcome, Some(failed(libc::ESRCH)));
    let bounded = drive(
        only_exec(AttachMode::Seize),
        WaitMode::Bounded,
        &[Ok(3), Ok(0), Ok(1), Ok(fork), failed(libc::ESRCH), Ok(0)],
    );
    assert_eq!(bounded.outcome, Some(failed(libc::ESRCH)));
    assert_eq!(bounded.actions.last(), Some(&Action::ReleaseNotifier));
}

#[test]
fn notifier_creation_error_is_returned_without_release() {
    let run = drive(only_exec(AttachMode::Seize), WaitMode::Bounded, &[failed(libc::EMFILE)]);
    assert_eq!(run.outcome, Some(failed(libc::EMFILE)));
    assert_eq!(run.actions, vec![Action::CreateNotifier]);
}

#[test]
fn registration_error_is_returned_after_release() {
    let run = drive(
        only_exec(AttachMode::Seize),
        WaitMode::Bounded,
        &[Ok(3), failed(libc::EBADF), Ok(0)],
    );
    assert_eq!(run.outcome, Some(failed(libc::EBADF)));
    assert_eq!(
        run.actions,
        vec![Action::CreateNotifier, Action::Register, Action::ReleaseNotifier]
    );
}

#[test]
fn readiness_error_is_returned_after_release() {
    let run = drive(
        only_exec(AttachMode::Seize),
        WaitMode::Bounded,
        &[Ok(3), Ok(0), failed(libc::EINTR), Ok(0)],
    );
    assert_eq!(run.outcome, Some(failed(libc::EINTR)));
    assert_eq!(
        run.actions,
        vec![
            Action::CreateNotifier,
            Action::Register,
            Action::AwaitReadiness,
            Action::ReleaseNotifier
        ]
    );
}

#[test]
fn release_error_replaces_the_outcome() {
    let exec = stop(libc::SIGTRAP, libc::PTRACE_EVENT_EXEC);
    let delivered = drive(
        only_exec(AttachMode::Seize),
        WaitMode::Bounded,
        &[Ok(3), Ok(0), Ok(1), Ok(exec), failed(libc::EIO)],
    );
    assert_eq!(delivered.outcome, Some(failed(libc::EIO)));
    let failing = drive(
        only_exec(AttachMode::Seize),
        WaitMode::Bounded,
        &[Ok(3), Ok(0), Ok(1), failed(libc::ECHILD), failed(libc::EIO)],
    );
    assert_eq!(failing.outcome, Some(failed(libc::EIO)));
}

#[test]
fn malformed_status_is_not_accepted() {
    let machine = DispatchLoop::start(only_exec(AttachMode::Seize), WaitMode::Blocking);
    assert!(!machine.accepts(Ok(0xffff)));
    assert!(!machine.accepts(Ok(0x00ff)));
    assert!(machine.accepts(Ok(0x057f)));
    assert!(machine.accepts(failed(libc::ECHILD)));
}

#[test]
fn contradicting_probe_is_not_accepted() {
    let marked = setup(AttachMode::Seize, libc::PTRACE_O_TRACESYSGOOD, Disambiguation::SingleShot);
    let machine = DispatchLoop::start(marked, WaitMode::Blocking);
    let probing = match machine.step(Ok(0x057f)).step {
        Step::Perform(next) => next,
        Step::Return(outcome) => panic!("returned {:?}", outcome),
    };
    assert_eq!(probing.pending(), Action::ProbeSiginfo);
    assert_eq!(probing.state().phase, Phase::Probing { status: 0x057f });
    assert!(!probing.accepts(Ok(libc::SIGTRAP)));
    assert!(probing.accepts(Ok(0)));
    assert!(probing.accepts(failed(libc::EINVAL)));
}

#[test]
fn same_script_gives_same_run() {
    let fork = stop(libc::SIGTRAP, libc::PTRACE_EVENT_FORK);
    let stopped = stop(libc::SIGSTOP, 0);
    let script = [Ok(fork), Ok(0), Ok(stopped), Ok(0), Ok(0), Ok(0x0300)];
    let first = drive(only_exec(AttachMode::Attach), WaitMode::Blocking, &script);
    let second = drive(only_exec(AttachMode::Attach), WaitMode::Blocking, &script);
    assert_eq!(first.actions, second.actions);
    assert_eq!(first.outcome, second.outcome);
    assert_eq!(first.outcome, Some(Ok(0x0300)));
}
