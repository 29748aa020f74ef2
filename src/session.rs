//! Lock session: the state machine of one lock-to-unlock cycle.
//!
//! The presentation service shows the lock screen and hands every submitted
//! PIN to `attempt`; the session answers whether to unlock or to clear the
//! input, and keeps the sleep-prevention lease held exactly while it is locked.
use crate::auth::{store_verifies, verify_pin_internal, AuthConfig};
use crate::lease::{stop_next, LeaseCommand, LeaseError, SleepPreventer};
use vstd::prelude::*;

verus! {

/// Where a lock session stands.
#[derive(Debug, Clone, Copy, PartialEq, Eq, Structural)]
pub enum SessionState {
    /// Not started.
    Idle,
    /// The lock screen is up and waits for a PIN.
    Locked,
    /// A submitted PIN is being checked.
    Verifying,
    /// A correct PIN was entered.
    Unlocked,
    /// The session ended without a correct PIN.
    Aborted,
}

/// Why a lock session could not run.
#[derive(Debug, Clone, Copy, PartialEq, Eq, Structural)]
pub enum SessionError {
    /// No PIN is configured, so the session never starts.
    NoCredential,
    /// The sleep-prevention lease could not be taken.
    Lease(LeaseError),
}

/// What the presentation service must do after a submitted PIN.
#[derive(Debug, Clone, Copy, PartialEq, Eq, Structural)]
pub enum AttemptAction {
    /// Wrong PIN: clear the input and stay locked.
    ClearInput,
    /// Right PIN: close the lock screen and carry out `release` on the lease.
    Unlock { release: LeaseCommand },
}

/// A state in which the session has ended.
pub open spec fn is_terminal(s: SessionState) -> bool {
    s == SessionState::Unlocked || s == SessionState::Aborted
}

/// One lock-to-unlock cycle and the lease it holds.
pub struct LockSession {
    state: SessionState,
    lease: SleepPreventer,
}

impl LockSession {
    /// The session's state.
    pub closed spec fn state_of(&self) -> SessionState {
        self.state
    }

    /// Whether the session's lease is held.
    pub closed spec fn lease_held(&self) -> bool {
        self.lease.active()
    }

    /// The lease is held exactly while the lock screen is up.
    pub open spec fn wf(&self) -> bool {
        self.lease_held() <==> (self.state_of() == SessionState::Locked || self.state_of()
            == SessionState::Verifying)
    }

    /// A session that has not started.
    pub fn new() -> (r: Self)
        ensures
            r.wf(),
            r.state_of() == SessionState::Idle,
            !r.lease_held(),
    {
        LockSession { state: SessionState::Idle, lease: SleepPreventer::new() }
    }

    /// The session's state.
    pub fn state(&self) -> (r: SessionState)
        ensures
            r == self.state_of(),
    {
        self.state
    }

    /// Whether the session's lease is held.
    pub fn lease_active(&self) -> (r: bool)
        ensures
            r == self.lease_held(),
    {
        self.lease.is_running()
    }

    /// Starts the session when a credential exists: takes the lease and
    /// locks. Without a credential nothing changes and `NoCredential` comes back.
    pub fn start(&mut self, credential_exists: bool) -> (r: Result<LeaseCommand, SessionError>)
        requires
            old(self).wf(),
            old(self).state_of() == SessionState::Idle,
        ensures
            final(self).wf(),
            !credential_exists ==> r == Err::<LeaseCommand, SessionError>(
                SessionError::NoCredential,
            ) && *final(self) == *old(self),
            credential_exists ==> r == Ok::<LeaseCommand, SessionError>(LeaseCommand::Engage)
                && final(self).state_of() == SessionState::Locked && final(self).lease_held(),
    {
        if !credential_exists {
            return Err(SessionError::NoCredential);
        }
        let c = self.lease.start();
        self.state = SessionState::Locked;
        Ok(c)
    }

    /// Reports whether the keep-alive worker could inhibit sleep. When it
    /// could not, the session aborts rather than lock without protection.
    pub fn lease_engaged(&mut self, engaged: bool) -> (r: Result<(), SessionError>)
        requires
            old(self).wf(),
            old(self).state_of() == SessionState::Locked,
        ensures
            final(self).wf(),
            engaged ==> r is Ok && *final(self) == *old(self),
            !engaged ==> r == Err::<(), SessionError>(
                SessionError::Lease(LeaseError::PlatformUnavailable),
            ) && final(self).state_of() == SessionState::Aborted && !final(self).lease_held(),
    {
        match self.lease.confirm_engaged(engaged) {
            Ok(()) => Ok(()),
            Err(e) => {
                self.state = SessionState::Aborted;
                Err(SessionError::Lease(e))
            },
        }
    }

    /// Checks a submitted PIN against the credential loaded from the store.
    /// A right PIN unlocks and releases the lease; a wrong one keeps the
    /// session locked. There is no limit on the number of attempts.
    pub fn attempt(&mut self, stored: &Option<AuthConfig>, pin: &str) -> (r: AttemptAction)
        requires
            old(self).wf(),
            old(self).state_of() == SessionState::Locked,
        ensures
            final(self).wf(),
            store_verifies(*stored, pin@) ==> r == (AttemptAction::Unlock {
                release: LeaseCommand::Release,
            }) && final(self).state_of() == SessionState::Unlocked && !final(self).lease_held(),
            !store_verifies(*stored, pin@) ==> r == AttemptAction::ClearInput && *final(self)
                == *old(self),
    {
        self.state = SessionState::Verifying;
        if verify_pin_internal(stored, pin) {
            let c = self.lease.stop();
            self.state = SessionState::Unlocked;
            AttemptAction::Unlock { release: c }
        } else {
            self.state = SessionState::Locked;
            AttemptAction::ClearInput
        }
    }

    /// Ends the session without a correct PIN (the presentation service
    /// failed, or the session was forced to stop) and releases the lease if
    /// it is held. A session that has already ended is left as it is.
    pub fn abort(&mut self) -> (c: LeaseCommand)
        requires
            old(self).wf(),
        ensures
            final(self).wf(),
            !final(self).lease_held(),
            c == stop_next(old(self).lease_held()).1,
            is_terminal(old(self).state_of()) ==> *final(self) == *old(self),
            !is_terminal(old(self).state_of()) ==> final(self).state_of()
                == SessionState::Aborted,
    {
        if self.state == SessionState::Unlocked || self.state == SessionState::Aborted {
            return LeaseCommand::Nothing;
        }
        let c = self.lease.stop();
        self.state = SessionState::Aborted;
        c
    }
}

/// Every way out of a lock session leaves its lease released: a session
/// that has ended, by unlock or by abort, holds no lease.
pub proof fn lemma_ended_session_released(s: LockSession)
    requires
        s.wf(),
        is_terminal(s.state_of()),
    ensures
        !s.lease_held(),
{
}

} // verus!
