//! The boundary to the operating system's signal facilities.
//!
//! Everything here is trusted: the contracts restate what the
//! `signal_hook` crate's listener documents, and Verus believes them
//! without proof. The rest of the crate is verified against them.

use vstd::prelude::*;

use crate::lifecycle::{INTERRUPT_SIGNAL, TERMINATE_SIGNAL};

verus! {

#[verifier::external_type_specification]
#[verifier::external_body]
pub struct ExIoError(std::io::Error);

#[verifier::external_type_specification]
#[verifier::external_body]
pub struct ExThreadPool(tokio_threadpool::ThreadPool);

/// A listener for exit signals. It holds the `signal_hook` listener —
/// opaque to verification, since Verus cannot take that type's bounds —
/// and is described only through `registered_signals`.
#[verifier::external_body]
pub struct SignalListener {
    inner: signal_hook::iterator::Signals,
}

/// The set of signal numbers a listener was registered for.
pub uninterp spec fn registered_signals(listener: SignalListener) -> Set<int>;

/// Relies on `signal_hook::iterator::Signals::new`: it registers a
/// listener for exactly the signals named — here the interrupt (SIGINT,
/// 2) and terminate (SIGTERM, 15) requests — and returns `Err` when the
/// operating system refuses the registration.
#[verifier::external_body]
pub(crate) fn register_exit_signals() -> (r: Result<SignalListener, std::io::Error>)
    ensures
        r matches Ok(listener) ==> registered_signals(listener) == set![
            INTERRUPT_SIGNAL as int,
            TERMINATE_SIGNAL as int,
        ],
{
    match signal_hook::iterator::Signals::new(
        [signal_hook::consts::SIGINT, signal_hook::consts::SIGTERM],
    ) {
        Ok(inner) => Ok(SignalListener { inner }),
        Err(error) => Err(error),
    }
}

/// Relies on `SignalsInfo::forever` and `Forever::next`: it blocks until
/// the operating system delivers one of the registered signals and
/// returns that signal's number; it returns `None` only if the
/// listener's handle was closed. The registration is not changed.
#[verifier::external_body]
pub(crate) fn next_signal(listener: &mut SignalListener) -> (r: Option<i32>)
    ensures
        r matches Some(signal) ==> registered_signals(*old(listener)).contains(signal as int),
        registered_signals(*final(listener)) == registered_signals(*old(listener)),
{
    listener.inner.forever().next()
}

/// Relies on `std::io::Error::other`: it builds the error reported when
/// the listener ends while the host is still waiting.
#[verifier::external_body]
pub(crate) fn listener_closed_error() -> (r: std::io::Error) {
    std::io::Error::other("signal listener closed while waiting for an exit signal")
}

} // verus!
