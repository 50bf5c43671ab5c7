//! Signals addressed to the debugger process.

use vstd::prelude::*;

verus! {

/// A request to the child process. Delivery is best effort: the child's
/// reaction, if any, arrives later as output or as its exit.
#[derive(Clone, Copy, Debug, PartialEq, Eq, Structural)]
pub enum Signal {
    /// Interrupt whatever the child is doing (`SIGINT`).
    Interrupt,
    /// Ask the child to terminate (`SIGTERM`).
    Terminate,
    /// End the child without its cooperation (`SIGKILL`).
    Kill,
}

/// Why the operating system did not take a signal.
#[derive(Clone, Copy, Debug, PartialEq, Eq, Structural)]
pub enum OsRefusal {
    /// No process has the identifier (`ESRCH`).
    NoSuchProcess,
    /// The caller may not signal that process (`EPERM`).
    NotPermitted,
    /// Any other error.
    Other,
}

/// Why a signal was not delivered.
#[derive(Clone, Copy, Debug, PartialEq, Eq, Structural)]
pub enum SignalFailure {
    /// The session has seen the child exit; nothing was sent.
    ChildExited,
    /// The identifier does not name a single process; nothing was sent.
    InvalidProcessId,
    /// The operating system knows no such process.
    NoSuchProcess,
    /// The operating system denied the signal.
    PermissionDenied,
    /// The operating system reported another error.
    Other,
}

/// The process identifiers that name exactly one process: the positive ones
/// that fit the operating system's signed identifier type.
pub open spec fn addresses_one_process(pid: u32) -> bool {
    0 < pid <= 0x7fff_ffff
}

/// What the caller is told for each answer of the operating system.
pub open spec fn outcome_of(delivered: Result<(), OsRefusal>) -> Result<(), SignalFailure> {
    match delivered {
        Ok(()) => Ok(()),
        Err(OsRefusal::NoSuchProcess) => Err(SignalFailure::NoSuchProcess),
        Err(OsRefusal::NotPermitted) => Err(SignalFailure::PermissionDenied),
        Err(OsRefusal::Other) => Err(SignalFailure::Other),
    }
}

/// Calls `nix::sys::signal::kill` for one process. Nothing is claimed of the
/// answer: it depends on the processes that exist when the call is made.
/// Identifiers that `kill` reads as a process group or as every process are
/// kept out by the precondition.
#[verifier::external_body]
fn os_kill(pid: i32, signal: Signal) -> (delivered: Result<(), OsRefusal>)
    requires
        pid > 0,
{
    let sig = match signal {
        Signal::Interrupt => nix::sys::signal::Signal::SIGINT,
        Signal::Terminate => nix::sys::signal::Signal::SIGTERM,
        Signal::Kill => nix::sys::signal::Signal::SIGKILL,
    };
    match nix::sys::signal::kill(nix::unistd::Pid::from_raw(pid), sig) {
        Ok(()) => Ok(()),
        Err(nix::errno::Errno::ESRCH) => Err(OsRefusal::NoSuchProcess),
        Err(nix::errno::Errno::EPERM) => Err(OsRefusal::NotPermitted),
        Err(_) => Err(OsRefusal::Other),
    }
}

/// Puts the operating system's answer in the caller's terms.
pub fn signal_outcome(delivered: Result<(), OsRefusal>) -> (outcome: Result<(), SignalFailure>)
    ensures
        outcome == outcome_of(delivered),
{
    match delivered {
        Ok(()) => Ok(()),
        Err(OsRefusal::NoSuchProcess) => Err(SignalFailure::NoSuchProcess),
        Err(OsRefusal::NotPermitted) => Err(SignalFailure::PermissionDenied),
        Err(OsRefusal::Other) => Err(SignalFailure::Other),
    }
}

/// Whether `outcome` can come of signalling the process `pid`: an
/// identifier that does not name a single process is refused; for any other
/// the outcome is that of some answer of the operating system.
pub open spec fn can_come_of_signalling(pid: u32, outcome: Result<(), SignalFailure>) -> bool {
    if addresses_one_process(pid) {
        exists|delivered: Result<(), OsRefusal>| outcome == outcome_of(delivered)
    } else {
        outcome == Err::<(), SignalFailure>(SignalFailure::InvalidProcessId)
    }
}

/// Sends `signal` to the process `pid` and does not wait for its reaction.
///
/// An identifier that does not name a single process is refused before the
/// operating system is asked, so a signal never reaches a process group or
/// every process. Otherwise the result is whatever the operating system
/// answered, in the caller's terms.
pub fn send_to_process(pid: u32, signal: Signal) -> (outcome: Result<(), SignalFailure>)
    ensures
        can_come_of_signalling(pid, outcome),
{
    if pid == 0 || pid > 0x7fff_ffff {
        return Err(SignalFailure::InvalidProcessId);
    }
    let raw: i32 = pid as i32;
    let delivered = os_kill(raw, signal);
    signal_outcome(delivered)
}

} // verus!
