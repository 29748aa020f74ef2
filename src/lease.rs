//! Sleep-prevention lease: decides when a keep-alive worker is started
//! and when it is released. The caller carries out each command against
//! the power service.
use vstd::prelude::*;

verus! {

/// What the caller must do to the keep-alive worker.
#[derive(Debug, Clone, Copy, PartialEq, Eq, Structural)]
pub enum LeaseCommand {
    /// Start one keep-alive worker that inhibits sleep.
    Engage,
    /// Signal the keep-alive worker to end and wait until it has.
    Release,
    /// Leave everything as it is.
    Nothing,
}

/// Why a lease could not be taken.
#[derive(Debug, Clone, Copy, PartialEq, Eq, Structural)]
pub enum LeaseError {
    /// The power service refused to inhibit sleep.
    PlatformUnavailable,
}

/// Active state and command after `start` on a lease whose active state is `active`.
pub open spec fn start_next(active: bool) -> (bool, LeaseCommand) {
    if active {
        (true, LeaseCommand::Nothing)
    } else {
        (true, LeaseCommand::Engage)
    }
}

/// Active state and command after `stop` on a lease whose active state is `active`.
pub open spec fn stop_next(active: bool) -> (bool, LeaseCommand) {
    if active {
        (false, LeaseCommand::Release)
    } else {
        (false, LeaseCommand::Nothing)
    }
}

/// Keep-alive workers alive while the lease is in the given state.
pub open spec fn live_workers(active: bool) -> int {
    if active {
        1
    } else {
        0
    }
}

/// Change in the number of keep-alive workers that carrying out `c` makes.
pub open spec fn worker_delta(c: LeaseCommand) -> int {
    match c {
        LeaseCommand::Engage => 1,
        LeaseCommand::Release => -1,
        LeaseCommand::Nothing => 0,
    }
}

/// A system-wide "stay awake" hold: at most one keep-alive worker at a time.
pub struct SleepPreventer {
    running: bool,
}

impl SleepPreventer {
    /// Whether the lease is held.
    pub closed spec fn active(&self) -> bool {
        self.running
    }

    /// An inactive lease.
    pub fn new() -> (r: Self)
        ensures
            !r.active(),
    {
        SleepPreventer { running: false }
    }

    /// Whether the lease is held.
    pub fn is_running(&self) -> (r: bool)
        ensures
            r == self.active(),
    {
        self.running
    }

    /// Takes the lease; a no-op when it is already held.
    pub fn start(&mut self) -> (c: LeaseCommand)
        ensures
            (final(self).active(), c) == start_next(old(self).active()),
    {
        if self.running {
            return LeaseCommand::Nothing;
        }
        self.running = true;
        LeaseCommand::Engage
    }

    /// Reports whether the worker asked for by `start` could inhibit sleep;
    /// when it could not, the lease is inactive again.
    pub fn confirm_engaged(&mut self, engaged: bool) -> (r: Result<(), LeaseError>)
        requires
            old(self).active(),
        ensures
            final(self).active() == engaged,
            engaged ==> r is Ok && *final(self) == *old(self),
            !engaged ==> r == Err::<(), LeaseError>(LeaseError::PlatformUnavailable),
    {
        if engaged {
            Ok(())
        } else {
            self.running = false;
            Err(LeaseError::PlatformUnavailable)
        }
    }

    /// Gives the lease up; a no-op when it is not held.
    pub fn stop(&mut self) -> (c: LeaseCommand)
        ensures
            (final(self).active(), c) == stop_next(old(self).active()),
    {
        if !self.running {
            return LeaseCommand::Nothing;
        }
        self.running = false;
        LeaseCommand::Release
    }
}

/// Starting twice with no stop between leaves the lease held by exactly one
/// keep-alive worker, whatever it held before.
pub proof fn lemma_start_twice_one_worker(active: bool)
    ensures
        ({
            let (a1, c1) = start_next(active);
            let (a2, c2) = start_next(a1);
            &&& a2
            &&& live_workers(active) + worker_delta(c1) + worker_delta(c2) == 1
            &&& live_workers(a2) == 1
        }),
{
}

/// Stopping twice leaves the lease inactive with no keep-alive worker,
/// whatever it held before.
pub proof fn lemma_stop_twice_no_worker(active: bool)
    ensures
        ({
            let (a1, c1) = stop_next(active);
            let (a2, c2) = stop_next(a1);
            &&& !a2
            &&& live_workers(active) + worker_delta(c1) + worker_delta(c2) == 0
            &&& live_workers(a2) == 0
        }),
{
}

} // verus!
