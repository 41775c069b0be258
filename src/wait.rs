//! Classification of the status that waiting on the traced process reports.
use vstd::prelude::*;

verus! {

/// The stop signal that reports a system-call boundary (the trap signal with
/// the bit that marks system-call stops).
pub const SYSCALL_STOP_SIGNAL: i32 = 0x85;

/// What a wait status reports about the traced process.
#[derive(Clone, Copy, Debug, PartialEq, Eq, Structural)]
pub enum StopEvent {
    /// Stopped at a system-call boundary.
    SyscallStop,
    /// Stopped by another signal.
    Stopped(i32),
    /// Killed by a signal.
    Signaled(i32),
    /// Exited with a status.
    Exited(i32),
    /// None of the above (e.g. continued).
    Other,
}

pub open spec fn stopped(status: i32) -> bool {
    status & 0xff == 0x7f
}

pub open spec fn stop_signal(status: i32) -> i32 {
    (status >> 8) & 0xff
}

pub open spec fn signaled(status: i32) -> bool {
    1 <= status & 0x7f && status & 0x7f < 0x7f
}

pub open spec fn term_signal(status: i32) -> i32 {
    status & 0x7f
}

pub open spec fn exited(status: i32) -> bool {
    status & 0x7f == 0
}

pub open spec fn exit_code(status: i32) -> i32 {
    (status >> 8) & 0xff
}

pub open spec fn classify_spec(status: i32) -> StopEvent {
    if stopped(status) && stop_signal(status) == SYSCALL_STOP_SIGNAL {
        StopEvent::SyscallStop
    } else if stopped(status) {
        StopEvent::Stopped(stop_signal(status))
    } else if signaled(status) {
        StopEvent::Signaled(term_signal(status))
    } else if exited(status) {
        StopEvent::Exited(exit_code(status))
    } else {
        StopEvent::Other
    }
}

/// Classifies a wait status.
pub fn classify_wait_status(status: i32) -> (r: StopEvent)
    ensures
        r == classify_spec(status),
{
    let low = status & 0xff;
    let sig = (status >> 8) & 0xff;
    let term = status & 0x7f;
    if low == 0x7f && sig == SYSCALL_STOP_SIGNAL {
        StopEvent::SyscallStop
    } else if low == 0x7f {
        StopEvent::Stopped(sig)
    } else if 1 <= term && term < 0x7f {
        StopEvent::Signaled(term)
    } else if term == 0 {
        StopEvent::Exited(sig)
    } else {
        StopEvent::Other
    }
}

/// What the tracer does after a wait.
#[derive(Clone, Copy, Debug, PartialEq, Eq, Structural)]
pub enum StepDecision {
    /// The process is at a system-call boundary: inspect it.
    AtSyscall,
    /// Another stop, reported only: resume and wait again.
    Resume,
    /// The process exited with this status.
    Exited(i32),
    /// The process was killed by this signal.
    Killed(i32),
}

pub open spec fn decide_spec(e: StopEvent) -> StepDecision {
    match e {
        StopEvent::SyscallStop => StepDecision::AtSyscall,
        StopEvent::Exited(code) => StepDecision::Exited(code),
        StopEvent::Signaled(sig) => StepDecision::Killed(sig),
        _ => StepDecision::Resume,
    }
}

/// Decides what to do after a wait that reported `status`.
pub fn decide_step(status: i32) -> (r: StepDecision)
    ensures
        r == decide_spec(classify_spec(status)),
{
    match classify_wait_status(status) {
        StopEvent::SyscallStop => StepDecision::AtSyscall,
        StopEvent::Exited(code) => StepDecision::Exited(code),
        StopEvent::Signaled(sig) => StepDecision::Killed(sig),
        _ => StepDecision::Resume,
    }
}

/// Where a traced call instance stands.
#[derive(Clone, Copy, Debug, PartialEq, Eq, Structural)]
pub enum Phase {
    /// Waiting for the guest to enter its next call.
    AwaitEntry,
    /// The translated call was handed to the host: waiting for its exit.
    AwaitExit,
    /// The guest is gone.
    Done,
}

/// What the control loop does next.
#[derive(Clone, Copy, Debug, PartialEq, Eq, Structural)]
pub enum LoopAction {
    /// Resume the guest and wait again.
    Resume,
    /// Translate the call the guest entered, then resume it.
    TranslateEntry,
    /// Complete the call that the host ran, then resume the guest.
    FinishCall,
    /// End the session with the guest's exit status.
    Exit(i32),
    /// End the session: the guest was killed by this signal.
    Killed(i32),
}

pub open spec fn on_wait_spec(phase: Phase, status: i32) -> (Phase, LoopAction) {
    match decide_spec(classify_spec(status)) {
        StepDecision::AtSyscall => match phase {
            Phase::AwaitEntry => (Phase::AwaitExit, LoopAction::TranslateEntry),
            Phase::AwaitExit => (Phase::AwaitEntry, LoopAction::FinishCall),
            Phase::Done => (Phase::Done, LoopAction::Resume),
        },
        StepDecision::Resume => (phase, LoopAction::Resume),
        StepDecision::Exited(code) => (Phase::Done, LoopAction::Exit(code)),
        StepDecision::Killed(sig) => (Phase::Done, LoopAction::Killed(sig)),
    }
}

/// The control loop's transition for a wait that reported `status`: each call
/// instance stops twice, at entry and at exit; other stops are passed over;
/// the guest's end ends the session with its status.
pub fn on_wait(phase: Phase, status: i32) -> (r: (Phase, LoopAction))
    ensures
        r == on_wait_spec(phase, status),
{
    match decide_step(status) {
        StepDecision::AtSyscall => match phase {
            Phase::AwaitEntry => (Phase::AwaitExit, LoopAction::TranslateEntry),
            Phase::AwaitExit => (Phase::AwaitEntry, LoopAction::FinishCall),
            Phase::Done => (Phase::Done, LoopAction::Resume),
        },
        StepDecision::Resume => (phase, LoopAction::Resume),
        StepDecision::Exited(code) => (Phase::Done, LoopAction::Exit(code)),
        StepDecision::Killed(sig) => (Phase::Done, LoopAction::Killed(sig)),
    }
}

} // verus!
