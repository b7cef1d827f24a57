//! Decoding of a raw wait status.
//!
//! A wait status is the integer that the kernel hands to a waiting parent. Its
//! low byte tells a stop from an exit and from a death by signal; for a stop
//! the next byte is the stop signal, and the bits above it hold the code of
//! an extended event. The decoding itself is libc's; this module states what
//! libc's functions compute and proves how the three outcomes relate.
use vstd::prelude::*;

verus! {

/// `libc::WIFSTOPPED`, believed as its source reads: the status is a stop
/// exactly when its low byte is `0x7f`.
pub assume_specification[ libc::WIFSTOPPED ](status: libc::c_int) -> (r: bool)
    ensures
        r == ((status & 0xff) == 0x7f),
;

/// `libc::WSTOPSIG`, believed as its source reads: the second byte of the
/// status.
pub assume_specification[ libc::WSTOPSIG ](status: libc::c_int) -> (r: libc::c_int)
    ensures
        r == (status >> 8) & 0xff,
;

/// `libc::WIFEXITED`, believed as its source reads: the status is a normal
/// exit exactly when its low seven bits are zero.
pub assume_specification[ libc::WIFEXITED ](status: libc::c_int) -> (r: bool)
    ensures
        r == ((status & 0x7f) == 0),
;

/// `libc::WIFSIGNALED`, believed as its source reads: one more than the low
/// seven bits, cut to a signed byte, is at least two.
pub assume_specification[ libc::WIFSIGNALED ](status: libc::c_int) -> (r: bool)
    ensures
        r == ((((status & 0x7f) + 1) as i8) >= 2),
;

/// `libc::W_STOPCODE`, believed as its source reads: the status of a stop by
/// `sig`, that is `sig` in the second byte above a low byte of `0x7f`.
pub assume_specification[ libc::W_STOPCODE ](sig: libc::c_int) -> (r: libc::c_int)
    ensures
        r == (sig << 8) | 0x7f,
;

/// The status reports a stopped tracee.
pub open spec fn is_stopped(status: i32) -> bool {
    (status & 0xff) == 0x7f
}

/// The signal that stopped the tracee, for a status that reports a stop.
pub open spec fn stop_signal(status: i32) -> i32 {
    (status >> 8) & 0xff
}

/// The code of the extended event that a stop carries: everything above the
/// stop signal's byte. Zero when the stop carries no event.
pub open spec fn event_code(status: i32) -> i32 {
    status >> 16
}

/// The status reports a normal exit.
pub open spec fn is_exited(status: i32) -> bool {
    (status & 0x7f) == 0
}

/// The status reports a death by signal.
pub open spec fn is_signaled(status: i32) -> bool {
    (((status & 0x7f) + 1) as i8) >= 2
}

/// The status has one of the three shapes that a wait can report: stopped,
/// exited, or killed by a signal.
pub open spec fn is_wait_outcome(status: i32) -> bool {
    is_stopped(status) || is_exited(status) || is_signaled(status)
}

/// The status of a stop by `signal` that carries no event.
pub open spec fn stop_status(signal: i32) -> i32 {
    (signal << 8) | 0x7f
}

/// A death by signal is a status whose low seven bits are a number from 1
/// to 126.
pub proof fn lemma_signaled_range(status: i32)
    ensures
        is_signaled(status) <==> 1 <= (status & 0x7f) <= 0x7e,
{
    assert(((((status & 0x7f) + 1) as i8) >= 2) <==> 1 <= (status & 0x7f) <= 0x7e)
        by (bit_vector);
}

/// A status has at most one of the three shapes.
pub proof fn lemma_outcomes_exclusive(status: i32)
    ensures
        !(is_stopped(status) && is_exited(status)),
        !(is_stopped(status) && is_signaled(status)),
        !(is_exited(status) && is_signaled(status)),
{
    assert(!((status & 0xff) == 0x7f && (status & 0x7f) == 0)) by (bit_vector);
    assert(!((status & 0xff) == 0x7f && (((status & 0x7f) + 1) as i8) >= 2)) by (bit_vector);
    assert(!((status & 0x7f) == 0 && (((status & 0x7f) + 1) as i8) >= 2)) by (bit_vector);
}

/// The statuses that have none of the three shapes are those whose low byte
/// is `0xff`.
pub proof fn lemma_outcome_shape(status: i32)
    ensures
        is_wait_outcome(status) <==> (status & 0xff) != 0xff,
{
    assert(((status & 0xff) == 0x7f || (status & 0x7f) == 0 || (((status & 0x7f) + 1) as i8) >= 2)
        <==> (status & 0xff) != 0xff) by (bit_vector);
}

/// A stop by a signal from 0 to 255 without an event decodes to that signal
/// and to the event code zero.
pub proof fn lemma_stop_status_decodes(signal: i32)
    requires
        0 <= signal <= 0xff,
    ensures
        is_stopped(stop_status(signal)),
        stop_signal(stop_status(signal)) == signal,
        event_code(stop_status(signal)) == 0,
{
    assert(0 <= signal <= 0xff ==> (((signal << 8) | 0x7f) & 0xff) == 0x7f) by (bit_vector);
    assert(0 <= signal <= 0xff ==> ((((signal << 8) | 0x7f) >> 8) & 0xff) == signal)
        by (bit_vector);
    assert(0 <= signal <= 0xff ==> (((signal << 8) | 0x7f) >> 16) == 0) by (bit_vector);
}

/// The status of a stop by `signal` that carries the event `code`.
pub open spec fn event_stop_status(signal: i32, code: i32) -> i32 {
    (code << 16) | (signal << 8) | 0x7f
}

/// A stop by a signal from 0 to 255 with an event code from 0 to 32767
/// decodes to that signal and that code.
pub proof fn lemma_event_stop_status_decodes(signal: i32, code: i32)
    requires
        0 <= signal <= 0xff,
        0 <= code <= 0x7fff,
    ensures
        is_stopped(event_stop_status(signal, code)),
        stop_signal(event_stop_status(signal, code)) == signal,
        event_code(event_stop_status(signal, code)) == code,
{
    assert(0 <= signal <= 0xff && 0 <= code <= 0x7fff ==> (((code << 16) | (signal << 8) | 0x7f)
        & 0xff) == 0x7f) by (bit_vector);
    assert(0 <= signal <= 0xff && 0 <= code <= 0x7fff ==> ((((code << 16) | (signal << 8) | 0x7f)
        >> 8) & 0xff) == signal) by (bit_vector);
    assert(0 <= signal <= 0xff && 0 <= code <= 0x7fff ==> (((code << 16) | (signal << 8) | 0x7f)
        >> 16) == code) by (bit_vector);
}

/// The stop signal of any status is a number from 0 to 255.
pub proof fn lemma_stop_signal_range(status: i32)
    ensures
        0 <= stop_signal(status) <= 0xff,
{
    assert(0 <= ((status >> 8) & 0xff) <= 0xff) by (bit_vector);
}

/// Whether the status reports a stopped tracee.
pub fn stopped(status: i32) -> (r: bool)
    ensures
        r == is_stopped(status),
{
    libc::WIFSTOPPED(status)
}

/// The stop signal of the status.
pub fn stop_signal_of(status: i32) -> (r: i32)
    ensures
        r == stop_signal(status),
{
    libc::WSTOPSIG(status)
}

/// The extended-event code of the status, taken from the whole status word.
pub fn event_code_of(status: i32) -> (r: i32)
    ensures
        r == event_code(status),
{
    status >> 16
}

/// Whether the status reports a normal exit.
pub fn exited(status: i32) -> (r: bool)
    ensures
        r == is_exited(status),
{
    libc::WIFEXITED(status)
}

/// Whether the status reports a death by signal.
pub fn signaled(status: i32) -> (r: bool)
    ensures
        r == is_signaled(status),
        r == (1 <= (status & 0x7f) <= 0x7e),
{
    proof {
        lemma_signaled_range(status);
    }
    libc::WIFSIGNALED(status)
}

/// Whether the status has one of the three shapes that a wait can report.
/// The loop accepts no other status.
pub fn wait_outcome(status: i32) -> (r: bool)
    ensures
        r == is_wait_outcome(status),
        r == ((status & 0xff) != 0xff),
{
    proof {
        lemma_outcome_shape(status);
    }
    libc::WIFSTOPPED(status) || libc::WIFEXITED(status) || libc::WIFSIGNALED(status)
}

/// The status of a stop by `signal` that carries no event.
pub fn stop_status_of(signal: i32) -> (r: i32)
    ensures
        r == stop_status(signal),
{
    libc::W_STOPCODE(signal)
}

} // verus!
