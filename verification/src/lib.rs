//! Classification of the stops of a traced process, and the decisions of the
//! wait / classify / resume loop that a tracer runs around them.
//!
//! The kernel reports every stop of a tracee through one wait status. The
//! same status word carries plain signals, group-stops, syscall boundaries and
//! the extended lifecycle events, and what a given word means depends on the
//! trace options that were set and on how the tracee was attached. This crate
//! holds the rules that tell them apart:
//!
//! * [`abi`]: the numbers of the Linux tracing interface.
//! * [`status`]: decoding of a raw wait status.
//! * [`options`]: attach mode, trace options and extended events.
//! * [`classify`]: the decision table from a status to a decision.
//! * [`dispatch`]: the loop itself, as a machine that is told what each
//!   system call returned and answers with the next one to make.
//! * [`laws`]: what holds of every classification and every step.
//!
//! Nothing here performs a system call: the caller makes them and reports
//! their results.
pub mod abi;
pub mod status;
pub mod options;
pub mod classify;
pub mod dispatch;
pub mod laws;
