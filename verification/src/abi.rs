//! Numbers of the Linux tracing interface.
//!
//! Signal numbers are those of the generic Linux ABI (x86, ARM, RISC-V,
//! PowerPC, s390); MIPS, SPARC and Alpha number the job-control signals
//! differently and are not covered.
use vstd::prelude::*;

verus! {

/// The trace-trap signal.
pub const SIGTRAP: i32 = 5;

/// The trace-trap signal with the syscall marker bit (`0x80`) set: the stop
/// signal of a syscall boundary when syscall marking is enabled.
pub const SIGTRAP_SYSCALL: i32 = 0x85;

/// The unconditional stop signal.
pub const SIGSTOP: i32 = 19;

/// The terminal stop signal.
pub const SIGTSTP: i32 = 20;

/// Background read from the terminal.
pub const SIGTTIN: i32 = 21;

/// Background write to the terminal.
pub const SIGTTOU: i32 = 22;

/// The tracing request that seizes a tracee. A tracer that did not seize
/// attached.
pub const REQUEST_SEIZE: u32 = 0x4206;

/// The error number for an invalid argument.
pub const EINVAL: i32 = 22;

/// Extended event code: the tracee forked.
pub const EVENT_FORK: i32 = 1;

/// Extended event code: the tracee called vfork.
pub const EVENT_VFORK: i32 = 2;

/// Extended event code: the tracee cloned.
pub const EVENT_CLONE: i32 = 3;

/// Extended event code: the tracee called exec.
pub const EVENT_EXEC: i32 = 4;

/// Extended event code: the child of a vfork released its parent.
pub const EVENT_VFORK_DONE: i32 = 5;

/// Extended event code: the tracee is about to exit.
pub const EVENT_EXIT: i32 = 6;

/// Extended event code: a seccomp filter asked for the tracer.
pub const EVENT_SECCOMP: i32 = 7;

/// Extended event code: the marker of a group-stop of a seized tracee.
pub const EVENT_STOP: i32 = 128;

/// Trace option: mark syscall boundaries in the stop signal.
pub const OPTION_SYSGOOD: i32 = 0x01;

/// Trace option: report forks.
pub const OPTION_FORK: i32 = 0x02;

/// Trace option: report vforks.
pub const OPTION_VFORK: i32 = 0x04;

/// Trace option: report clones.
pub const OPTION_CLONE: i32 = 0x08;

/// Trace option: report execs.
pub const OPTION_EXEC: i32 = 0x10;

/// Trace option: report the completion of a vfork.
pub const OPTION_VFORK_DONE: i32 = 0x20;

/// Trace option: report exits.
pub const OPTION_EXIT: i32 = 0x40;

/// Trace option: report seccomp events.
pub const OPTION_SECCOMP: i32 = 0x80;

} // verus!
