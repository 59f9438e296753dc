//! A generic process-lifecycle host.
//!
//! The host starts an arbitrary long-running service on a worker pool,
//! blocks until the operating system requests an interrupt or a
//! termination, and then drives one orderly shutdown of that service.

use vstd::prelude::*;

pub mod lifecycle;
pub mod sys;

verus! {

use core::marker::PhantomData;

/// The capability a concrete service type must provide so the generic
/// host can manage it without knowing its internals: it can be
/// constructed and started from a configuration and a worker pool, and
/// it can be shut down. Shutdown consumes the service, so a second
/// shutdown of the same instance is impossible by ownership.
pub trait ServiceControl<T>: Sized {
    /// Constructs the service from the configuration and hands its work
    /// to the worker pool; returns once the service is started. The
    /// abstraction has no error channel: a service that cannot start
    /// must report that out of band or abort.
    fn create_and_start(
        service_config: &'static T,
        thread_pool: &'static tokio_threadpool::ThreadPool,
    ) -> Self;

    /// Stops the service's work and releases the instance.
    fn shutdown(self);
}

/// Owns exactly one started service instance and coordinates its
/// shutdown around the process's exit signals. Its only state is that
/// ownership: created (service started) -> waiting -> shut down.
pub struct ServiceHost<T, S> {
    service_container: S,
    phantom: PhantomData<T>,
}

/// The outcome of driving a host against a scripted signal subsystem.
pub enum ScriptedWait<T, S> {
    /// The subsystem was unavailable: no wait began, and the service
    /// was released with the host without being shut down.
    SetupFailed,
    /// An exit signal was among the deliveries: the service was shut
    /// down exactly once and the wait completed cleanly.
    Completed,
    /// Every delivered signal fell outside the exit set: the wait did
    /// not resolve, and the host — its service still running — is
    /// handed back.
    StillWaiting(ServiceHost<T, S>),
}

impl<T, S> ServiceHost<T, S> where T: Send + 'static, S: ServiceControl<T> + Send + 'static {
    /// Creates the host by delegating to the service's own
    /// `create_and_start`, with no further validation: the returned
    /// host's service is already running.
    pub fn create_and_start(
        service_config: &'static T,
        thread_pool: &'static tokio_threadpool::ThreadPool,
    ) -> Self {
        Self {
            service_container: S::create_and_start(service_config, thread_pool),
            phantom: PhantomData,
        }
    }

    /// Blocks the calling thread until the operating system delivers an
    /// interrupt or a terminate request, shuts the service down exactly
    /// once, and returns `Ok`. When the exit-signal listener cannot be
    /// registered, the error is returned at once: the wait never starts
    /// and the service is not shut down. A listener that ends while the
    /// host is waiting is reported the same way — as a returned error
    /// rather than an abort, since the caller cannot tell the two
    /// failures of the signal subsystem apart and neither shuts the
    /// service down.
    pub fn wait_for_signal(self) -> Result<(), std::io::Error> {
        let mut listener = match sys::register_exit_signals() {
            Ok(listener) => listener,
            Err(error) => {
                return Err(error);
            },
        };
        match sys::next_signal(&mut listener) {
            Some(signal) => {
                proof {
                    assert(lifecycle::is_exit_signal_spec(signal));
                }
                self.service_container.shutdown();
                Ok(())
            },
            None => Err(sys::listener_closed_error()),
        }
    }

    /// Drives one wait cycle against a scripted signal subsystem in
    /// place of the operating system: `subsystem_available` plays the
    /// part of listener registration, and `delivered` holds the signal
    /// numbers the listener would yield, in order. The outcome is the
    /// lifecycle machine's: an unavailable subsystem forgoes the wait,
    /// the first exit signal shuts the service down, and deliveries
    /// outside the exit set alone leave the host waiting.
    pub fn wait_for_signal_scripted(self, subsystem_available: bool, delivered: &Vec<i32>) -> (r:
        ScriptedWait<T, S>)
        ensures
            r is SetupFailed <==> !subsystem_available,
            subsystem_available ==> (r is Completed <==> lifecycle::contains_exit_signal(
                delivered@,
            )),
            subsystem_available && !lifecycle::contains_exit_signal(delivered@)
                ==> r is StillWaiting,
            r matches ScriptedWait::StillWaiting(host) ==> host == self,
    {
        if !subsystem_available {
            return ScriptedWait::SetupFailed;
        }
        let mut i: usize = 0;
        while i < delivered.len()
            invariant
                subsystem_available,
                i <= delivered.len(),
                forall|j: int| 0 <= j < i ==> !lifecycle::is_exit_signal_spec(delivered@[j]),
            decreases delivered.len() - i,
        {
            if lifecycle::is_exit_signal(delivered[i]) {
                proof {
                    assert(lifecycle::contains_exit_signal(delivered@));
                }
                self.service_container.shutdown();
                return ScriptedWait::Completed;
            }
            i = i + 1;
        }
        ScriptedWait::StillWaiting(self)
    }
}

} // verus!
