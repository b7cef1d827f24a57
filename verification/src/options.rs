//! What the tracer set up before the loop runs: how it attached, and which
//! optional reports it asked the kernel for. Together they decide which of
//! the extended events the caller wants to be interrupted for.
use vstd::prelude::*;
use crate::abi::{
    EVENT_CLONE, EVENT_EXEC, EVENT_EXIT, EVENT_FORK, EVENT_SECCOMP, EVENT_STOP, EVENT_VFORK,
    EVENT_VFORK_DONE, OPTION_CLONE, OPTION_EXEC, OPTION_EXIT, OPTION_FORK, OPTION_SECCOMP,
    OPTION_SYSGOOD, OPTION_VFORK, OPTION_VFORK_DONE, REQUEST_SEIZE,
};

verus! {

/// How the tracer attached to the tracee. A seized tracee reports a
/// group-stop as an explicit event; an attached one reports it as a bare stop
/// signal.
#[derive(Clone, Copy, Debug, PartialEq, Eq, Structural)]
pub enum AttachMode {
    Attach,
    Seize,
}

impl AttachMode {
    /// The attach mode of a tracer that began tracing with `request`: seized
    /// if that is the seize request, attached otherwise.
    pub open spec fn of_request(request: u32) -> AttachMode {
        if request == REQUEST_SEIZE {
            AttachMode::Seize
        } else {
            AttachMode::Attach
        }
    }

    /// The attach mode of a tracer that began tracing with `request`.
    pub fn from_request(request: u32) -> (r: AttachMode)
        ensures
            r == AttachMode::of_request(request),
    {
        if request == REQUEST_SEIZE {
            AttachMode::Seize
        } else {
            AttachMode::Attach
        }
    }
}

/// One optional tracing feature.
#[derive(Clone, Copy, Debug, PartialEq, Eq, Structural)]
pub enum TraceOption {
    /// Syscall boundaries are marked in the stop signal.
    SyscallMarking,
    Fork,
    Vfork,
    Clone,
    Exec,
    VforkDone,
    Exit,
    Seccomp,
}

impl TraceOption {
    /// The bit of this option in the option bitmask.
    pub open spec fn mask(self) -> i32 {
        match self {
            TraceOption::SyscallMarking => OPTION_SYSGOOD,
            TraceOption::Fork => OPTION_FORK,
            TraceOption::Vfork => OPTION_VFORK,
            TraceOption::Clone => OPTION_CLONE,
            TraceOption::Exec => OPTION_EXEC,
            TraceOption::VforkDone => OPTION_VFORK_DONE,
            TraceOption::Exit => OPTION_EXIT,
            TraceOption::Seccomp => OPTION_SECCOMP,
        }
    }

    /// The bit of this option in the option bitmask.
    pub fn bit(self) -> (r: i32)
        ensures
            r == self.mask(),
    {
        match self {
            TraceOption::SyscallMarking => OPTION_SYSGOOD,
            TraceOption::Fork => OPTION_FORK,
            TraceOption::Vfork => OPTION_VFORK,
            TraceOption::Clone => OPTION_CLONE,
            TraceOption::Exec => OPTION_EXEC,
            TraceOption::VforkDone => OPTION_VFORK_DONE,
            TraceOption::Exit => OPTION_EXIT,
            TraceOption::Seccomp => OPTION_SECCOMP,
        }
    }
}

/// The bitmask of enabled trace options, as it was handed to the kernel.
/// Bits that belong to none of the eight options are carried and ignored.
#[derive(Clone, Copy, Debug, PartialEq, Eq, Structural)]
pub struct TraceOptions {
    pub bits: i32,
}

impl TraceOptions {
    /// The option's bit is set in the mask.
    pub open spec fn enabled(self, option: TraceOption) -> bool {
        self.bits & option.mask() != 0
    }

    /// The set of enabled options.
    pub open spec fn view(self) -> Set<TraceOption> {
        Set::new(|option: TraceOption| self.enabled(option))
    }

    /// The options of a raw bitmask.
    pub fn from_bits(bits: i32) -> (r: TraceOptions)
        ensures
            r.bits == bits,
    {
        TraceOptions { bits }
    }

    /// No option enabled.
    pub fn none() -> (r: TraceOptions)
        ensures
            r.bits == 0,
            r@ == Set::<TraceOption>::empty(),
    {
        let r = TraceOptions { bits: 0 };
        proof {
            assert forall|option: TraceOption| !r.enabled(option) by {
                let m = option.mask();
                assert(0i32 & m == 0) by (bit_vector);
            }
            assert(r@ =~= Set::<TraceOption>::empty());
        }
        r
    }

    /// These options and `option`.
    pub fn with(self, option: TraceOption) -> (r: TraceOptions)
        ensures
            r.bits == self.bits | option.mask(),
            r@ == self@.insert(option),
    {
        let r = TraceOptions { bits: self.bits | option.bit() };
        proof {
            let b = self.bits;
            let m = option.mask();
            assert forall|other: TraceOption| r.enabled(other) == (self.enabled(other) || other
                == option) by {
                let n = other.mask();
                assert((m == 1 || m == 2 || m == 4 || m == 8 || m == 16 || m == 32 || m == 64 || m
                    == 128) && (n == 1 || n == 2 || n == 4 || n == 8 || n == 16 || n == 32 || n
                    == 64 || n == 128) ==> (((b | m) & n != 0) == ((b & n != 0) || n == m)))
                    by (bit_vector);
            }
            assert(r@ =~= self@.insert(option));
        }
        r
    }

    /// Whether `option` is enabled.
    pub fn enables(&self, option: TraceOption) -> (r: bool)
        ensures
            r == self.enabled(option),
            r == self@.contains(option),
    {
        self.bits & option.bit() != 0
    }
}

/// An extended event: what the kernel reports beyond a plain signal.
#[derive(Clone, Copy, Debug, PartialEq, Eq, Structural)]
pub enum EventKind {
    Fork,
    Vfork,
    Clone,
    VforkDone,
    Exec,
    Exit,
    Seccomp,
    /// The marker that a seized tracee's group-stop carries.
    GroupStopMarker,
}

impl EventKind {
    /// The code of this event in a wait status.
    pub open spec fn code(self) -> i32 {
        match self {
            EventKind::Fork => EVENT_FORK,
            EventKind::Vfork => EVENT_VFORK,
            EventKind::Clone => EVENT_CLONE,
            EventKind::VforkDone => EVENT_VFORK_DONE,
            EventKind::Exec => EVENT_EXEC,
            EventKind::Exit => EVENT_EXIT,
            EventKind::Seccomp => EVENT_SECCOMP,
            EventKind::GroupStopMarker => EVENT_STOP,
        }
    }

    /// The event with the given code, if the code is a known one.
    pub open spec fn of_code(code: i32) -> Option<EventKind> {
        if code == EVENT_FORK {
            Some(EventKind::Fork)
        } else if code == EVENT_VFORK {
            Some(EventKind::Vfork)
        } else if code == EVENT_CLONE {
            Some(EventKind::Clone)
        } else if code == EVENT_VFORK_DONE {
            Some(EventKind::VforkDone)
        } else if code == EVENT_EXEC {
            Some(EventKind::Exec)
        } else if code == EVENT_EXIT {
            Some(EventKind::Exit)
        } else if code == EVENT_SECCOMP {
            Some(EventKind::Seccomp)
        } else if code == EVENT_STOP {
            Some(EventKind::GroupStopMarker)
        } else {
            None
        }
    }

    /// The trace option that governs this event. The group-stop marker is
    /// governed by no option but by the attach mode.
    pub open spec fn governing_option(self) -> Option<TraceOption> {
        match self {
            EventKind::Fork => Some(TraceOption::Fork),
            EventKind::Vfork => Some(TraceOption::Vfork),
            EventKind::Clone => Some(TraceOption::Clone),
            EventKind::VforkDone => Some(TraceOption::VforkDone),
            EventKind::Exec => Some(TraceOption::Exec),
            EventKind::Exit => Some(TraceOption::Exit),
            EventKind::Seccomp => Some(TraceOption::Seccomp),
            EventKind::GroupStopMarker => None,
        }
    }

    /// The caller asked to be interrupted for this event: its governing
    /// option is enabled or, for the group-stop marker, the tracee was seized.
    pub open spec fn wanted(self, attach: AttachMode, options: TraceOptions) -> bool {
        match self.governing_option() {
            Some(option) => options.enabled(option),
            None => attach == AttachMode::Seize,
        }
    }

    /// The codes and the events correspond one to one: a code is known
    /// exactly when some event has it, and that event is the only one.
    pub proof fn lemma_codes(code: i32)
        ensures
            EventKind::of_code(code) matches Some(kind) ==> kind.code() == code,
            EventKind::of_code(code) is None <==> forall|kind: EventKind|
                #[trigger] kind.code() != code,
            forall|kind: EventKind| #[trigger] EventKind::of_code(kind.code()) == Some(kind),
    {
        match EventKind::of_code(code) {
            Some(kind) => {
                assert(kind.code() == code);
            },
            None => {
                assert forall|kind: EventKind| #[trigger] kind.code() != code by {
                    assert(EventKind::of_code(kind.code()) == Some(kind));
                }
            },
        }
    }

    /// The code of this event in a wait status.
    pub fn to_code(self) -> (r: i32)
        ensures
            r == self.code(),
            EventKind::of_code(r) == Some(self),
    {
        match self {
            EventKind::Fork => EVENT_FORK,
            EventKind::Vfork => EVENT_VFORK,
            EventKind::Clone => EVENT_CLONE,
            EventKind::VforkDone => EVENT_VFORK_DONE,
            EventKind::Exec => EVENT_EXEC,
            EventKind::Exit => EVENT_EXIT,
            EventKind::Seccomp => EVENT_SECCOMP,
            EventKind::GroupStopMarker => EVENT_STOP,
        }
    }

    /// The event with the given code; `None` for zero and for every code
    /// that is not a known event.
    pub fn from_code(code: i32) -> (r: Option<EventKind>)
        ensures
            r == EventKind::of_code(code),
            r matches Some(kind) ==> kind.code() == code,
            r is None <==> forall|kind: EventKind| #[trigger] kind.code() != code,
    {
        proof {
            EventKind::lemma_codes(code);
        }
        if code == EVENT_FORK {
            Some(EventKind::Fork)
        } else if code == EVENT_VFORK {
            Some(EventKind::Vfork)
        } else if code == EVENT_CLONE {
            Some(EventKind::Clone)
        } else if code == EVENT_VFORK_DONE {
            Some(EventKind::VforkDone)
        } else if code == EVENT_EXEC {
            Some(EventKind::Exec)
        } else if code == EVENT_EXIT {
            Some(EventKind::Exit)
        } else if code == EVENT_SECCOMP {
            Some(EventKind::Seccomp)
        } else if code == EVENT_STOP {
            Some(EventKind::GroupStopMarker)
        } else {
            None
        }
    }

    /// Whether the caller asked to be interrupted for this event.
    pub fn is_wanted(self, attach: AttachMode, options: TraceOptions) -> (r: bool)
        ensures
            r == self.wanted(attach, options),
    {
        match self {
            EventKind::Fork => options.enables(TraceOption::Fork),
            EventKind::Vfork => options.enables(TraceOption::Vfork),
            EventKind::Clone => options.enables(TraceOption::Clone),
            EventKind::VforkDone => options.enables(TraceOption::VforkDone),
            EventKind::Exec => options.enables(TraceOption::Exec),
            EventKind::Exit => options.enables(TraceOption::Exit),
            EventKind::Seccomp => options.enables(TraceOption::Seccomp),
            EventKind::GroupStopMarker => match attach {
                AttachMode::Seize => true,
                AttachMode::Attach => false,
            },
        }
    }
}

} // verus!
