//! Signal delivery for the kill op, over the platform signal interface.

use vstd::prelude::*;

use crate::errors::ErrorKind;
use crate::errors::OpError;

verus! {

#[verifier::external_type_specification]
#[verifier::external_body]
pub struct ExSignal(nix::sys::signal::Signal);

/// Whether a raw number names a signal this platform can deliver.
pub uninterp spec fn is_signal(signo: int) -> bool;

/// Relies on nix's `Signal::try_from`: maps a raw signal number to the
/// platform signal, refusing exactly the numbers that name no signal
/// here - which numbers those are depends on the raw value alone.
#[verifier::external_body]
fn parse_signal(signo: i32) -> (r: Option<nix::sys::signal::Signal>)
    ensures
        r is Some <==> is_signal(signo as int),
{
    match nix::sys::signal::Signal::try_from(signo) {
        Ok(sig) => Some(sig),
        Err(_) => None,
    }
}

/// Relies on nix's `kill`: delivers `signal` to the process `pid`; whether
/// that succeeds depends on the processes alive and our privileges, so
/// failure carries only the OS errno.
#[verifier::external_body]
fn send_signal(pid: i32, signal: nix::sys::signal::Signal) -> (r: Result<(), i32>) {
    match nix::sys::signal::kill(nix::unistd::Pid::from_raw(pid), Some(signal)) {
        Ok(()) => Ok(()),
        Err(e) => Err(e as i32),
    }
}

/// Delivers signal `signo` to process `pid`. A number that names no
/// signal always comes back as an I/O error and nothing is sent; for a
/// real signal the outcome rests with the OS (the processes alive, our
/// privileges), and any refusal is an I/O error too.
pub fn kill(pid: i32, signo: i32) -> (r: Result<(), OpError>)
    ensures
        r matches Err(e) ==> e.kind == ErrorKind::Io,
        !is_signal(signo as int) ==> r is Err,
        r is Ok ==> is_signal(signo as int),
{
    match parse_signal(signo) {
        Some(sig) => {
            match send_signal(pid, sig) {
                Ok(()) => Ok(()),
                Err(_) => Err(OpError::new(ErrorKind::Io, "kill failed".to_owned())),
            }
        },
        None => Err(OpError::new(ErrorKind::Io, "invalid signal number".to_owned())),
    }
}

} // verus!
