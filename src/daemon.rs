//! Hotkey daemon: registers a global hotkey (with one fallback), polls for
//! triggers and runs one lock session per trigger, never two at once.
//!
//! The caller owns the hotkey service, the cancellation flag and the lock
//! sessions; it carries out each action `step` returns and reports back
//! what happened as the next event.
use vstd::prelude::*;

verus! {

/// Which key combination the daemon listens on.
#[derive(Debug, Clone, Copy, PartialEq, Eq, Structural)]
pub enum Binding {
    /// Command+Shift+L.
    Primary,
    /// Command+Option+L, tried once when the primary cannot be registered.
    Fallback,
}

/// Where the daemon stands.
#[derive(Debug, Clone, Copy, PartialEq, Eq, Structural)]
pub enum DaemonPhase {
    /// Registering a binding.
    Registering,
    /// Polling for triggers and for cancellation.
    Listening,
    /// A lock session runs; the daemon waits for it to end.
    SessionRunning,
    /// Cancelled; the binding has been handed back.
    Stopped,
    /// Neither binding could be registered.
    Failed,
}

/// What the caller reports to the daemon.
#[derive(Debug, Clone, Copy, PartialEq, Eq, Structural)]
pub enum DaemonEvent {
    /// Outcome of the registration asked for.
    Registration { ok: bool },
    /// One poll: whether cancellation was requested and whether the hotkey fired.
    Tick { cancelled: bool, triggered: bool },
    /// The lock session has returned, whatever its outcome.
    SessionEnded,
}

/// What the caller must do next.
#[derive(Debug, Clone, Copy, PartialEq, Eq, Structural)]
pub enum DaemonAction {
    /// Register this binding with the hotkey service.
    Register(Binding),
    /// After the poll interval, read the cancellation flag and the hotkey queue.
    Poll,
    /// Start a lock session and wait until it has returned.
    SpawnLock,
    /// Unregister this binding; the daemon has stopped.
    Unregister(Binding),
    /// Nothing new: go on with what is under way.
    Wait,
}

/// Why the daemon could not start.
#[derive(Debug, Clone, Copy, PartialEq, Eq, Structural)]
pub enum DaemonError {
    /// Both the primary and the fallback binding were refused.
    RegistrationFailed,
}

/// Phase, binding and answer after event `ev` in phase `p` with binding `b`.
pub open spec fn daemon_step(p: DaemonPhase, b: Binding, ev: DaemonEvent) -> (
    DaemonPhase,
    Binding,
    Result<DaemonAction, DaemonError>,
) {
    match (p, ev) {
        (DaemonPhase::Registering, DaemonEvent::Registration { ok }) => {
            if ok {
                (DaemonPhase::Listening, b, Ok(DaemonAction::Poll))
            } else if b == Binding::Primary {
                (DaemonPhase::Registering, Binding::Fallback, Ok(DaemonAction::Register(Binding::Fallback)))
            } else {
                (DaemonPhase::Failed, b, Err(DaemonError::RegistrationFailed))
            }
        },
        (DaemonPhase::Listening, DaemonEvent::Tick { cancelled, triggered }) => {
            if cancelled {
                (DaemonPhase::Stopped, b, Ok(DaemonAction::Unregister(b)))
            } else if triggered {
                (DaemonPhase::SessionRunning, b, Ok(DaemonAction::SpawnLock))
            } else {
                (DaemonPhase::Listening, b, Ok(DaemonAction::Poll))
            }
        },
        (DaemonPhase::SessionRunning, DaemonEvent::SessionEnded) => {
            (DaemonPhase::Listening, b, Ok(DaemonAction::Poll))
        },
        _ => (p, b, Ok(DaemonAction::Wait)),
    }
}

/// Answers the daemon gives to the events `evs`, one each, from phase `p` with binding `b`.
pub open spec fn daemon_answers(p: DaemonPhase, b: Binding, evs: Seq<DaemonEvent>) -> Seq<
    Result<DaemonAction, DaemonError>,
>
    decreases evs.len(),
{
    if evs.len() == 0 {
        Seq::empty()
    } else {
        let (p1, b1, r) = daemon_step(p, b, evs[0]);
        seq![r] + daemon_answers(p1, b1, evs.drop_first())
    }
}

/// The global-hotkey daemon.
pub struct HotkeyDaemon {
    phase: DaemonPhase,
    binding: Binding,
}

impl HotkeyDaemon {
    /// The daemon's phase.
    pub closed spec fn phase_of(&self) -> DaemonPhase {
        self.phase
    }

    /// The binding registered, or being registered.
    pub closed spec fn binding_of(&self) -> Binding {
        self.binding
    }

    /// A daemon about to register the primary binding, and that first action.
    pub fn start() -> (r: (HotkeyDaemon, DaemonAction))
        ensures
            r.0.phase_of() == DaemonPhase::Registering,
            r.0.binding_of() == Binding::Primary,
            r.1 == DaemonAction::Register(Binding::Primary),
    {
        (HotkeyDaemon { phase: DaemonPhase::Registering, binding: Binding::Primary }, DaemonAction::Register(Binding::Primary))
    }

    /// The daemon's phase.
    pub fn phase(&self) -> (r: DaemonPhase)
        ensures
            r == self.phase_of(),
    {
        self.phase
    }

    /// The binding registered, or being registered.
    pub fn binding(&self) -> (r: Binding)
        ensures
            r == self.binding_of(),
    {
        self.binding
    }

    /// Takes in one event and answers with the next action, or with
    /// `RegistrationFailed` once the fallback binding has been refused too.
    pub fn step(&mut self, ev: DaemonEvent) -> (r: Result<DaemonAction, DaemonError>)
        ensures
            (final(self).phase_of(), final(self).binding_of(), r) == daemon_step(
                old(self).phase_of(),
                old(self).binding_of(),
                ev,
            ),
    {
        match (self.phase, ev) {
            (DaemonPhase::Registering, DaemonEvent::Registration { ok }) => {
                if ok {
                    self.phase = DaemonPhase::Listening;
                    Ok(DaemonAction::Poll)
                } else if self.binding == Binding::Primary {
                    self.binding = Binding::Fallback;
                    Ok(DaemonAction::Register(Binding::Fallback))
                } else {
                    self.phase = DaemonPhase::Failed;
                    Err(DaemonError::RegistrationFailed)
                }
            },
            (DaemonPhase::Listening, DaemonEvent::Tick { cancelled, triggered }) => {
                if cancelled {
                    self.phase = DaemonPhase::Stopped;
                    Ok(DaemonAction::Unregister(self.binding))
                } else if triggered {
                    self.phase = DaemonPhase::SessionRunning;
                    Ok(DaemonAction::SpawnLock)
                } else {
                    Ok(DaemonAction::Poll)
                }
            },
            (DaemonPhase::SessionRunning, DaemonEvent::SessionEnded) => {
                self.phase = DaemonPhase::Listening;
                Ok(DaemonAction::Poll)
            },
            _ => Ok(DaemonAction::Wait),
        }
    }
}

/// One answer per event.
proof fn lemma_answers_len(p: DaemonPhase, b: Binding, evs: Seq<DaemonEvent>)
    ensures
        daemon_answers(p, b, evs).len() == evs.len(),
    decreases evs.len(),
{
    if evs.len() > 0 {
        let (p1, b1, r) = daemon_step(p, b, evs[0]);
        lemma_answers_len(p1, b1, evs.drop_first());
    }
}

/// Lock sessions never overlap: while a session runs, no sequence of
/// events that lacks its end, however many triggers it holds, makes the
/// daemon start another.
pub proof fn lemma_sessions_serialized(b: Binding, evs: Seq<DaemonEvent>)
    requires
        forall|i: int| 0 <= i < evs.len() ==> evs[i] != DaemonEvent::SessionEnded,
    ensures
        forall|i: int|
            0 <= i < evs.len() ==> #[trigger] daemon_answers(DaemonPhase::SessionRunning, b, evs)[i]
                == Ok::<DaemonAction, DaemonError>(DaemonAction::Wait),
    decreases evs.len(),
{
    if evs.len() > 0 {
        let rest = evs.drop_first();
        lemma_answers_len(DaemonPhase::SessionRunning, b, evs);
        lemma_answers_len(DaemonPhase::SessionRunning, b, rest);
        assert(daemon_answers(DaemonPhase::SessionRunning, b, evs) == seq![daemon_step(DaemonPhase::SessionRunning, b, evs[0]).2] + daemon_answers(DaemonPhase::SessionRunning, b, rest));
        assert forall|i: int| 0 <= i < rest.len() implies rest[i] != DaemonEvent::SessionEnded by {
            assert(rest[i] == evs[i + 1]);
        }
        lemma_sessions_serialized(b, rest);
        assert forall|i: int| 0 <= i < evs.len() implies #[trigger] daemon_answers(
            DaemonPhase::SessionRunning,
            b,
            evs,
        )[i] == Ok::<DaemonAction, DaemonError>(DaemonAction::Wait) by {
            if i > 0 {
                assert(daemon_answers(DaemonPhase::SessionRunning, b, evs)[i] == daemon_answers(
                    DaemonPhase::SessionRunning,
                    b,
                    rest,
                )[i - 1]);
            }
        }
    }
}

/// A daemon starts a lock session only from listening, and is then running it.
pub proof fn lemma_spawn_only_when_listening(p: DaemonPhase, b: Binding, ev: DaemonEvent)
    ensures
        daemon_step(p, b, ev).2 == Ok::<DaemonAction, DaemonError>(DaemonAction::SpawnLock) ==> p
            == DaemonPhase::Listening && daemon_step(p, b, ev).0 == DaemonPhase::SessionRunning,
{
}

/// Once both bindings have been refused the daemon never polls nor starts a
/// session, whatever events follow.
pub proof fn lemma_failed_daemon_never_listens(b: Binding, evs: Seq<DaemonEvent>)
    ensures
        forall|i: int|
            0 <= i < evs.len() ==> #[trigger] daemon_answers(DaemonPhase::Failed, b, evs)[i]
                == Ok::<DaemonAction, DaemonError>(DaemonAction::Wait),
    decreases evs.len(),
{
    if evs.len() > 0 {
        let rest = evs.drop_first();
        lemma_answers_len(DaemonPhase::Failed, b, evs);
        lemma_answers_len(DaemonPhase::Failed, b, rest);
        assert(daemon_answers(DaemonPhase::Failed, b, evs) == seq![daemon_step(DaemonPhase::Failed, b, evs[0]).2] + daemon_answers(DaemonPhase::Failed, b, rest));
        lemma_failed_daemon_never_listens(b, rest);
        assert forall|i: int| 0 <= i < evs.len() implies #[trigger] daemon_answers(
            DaemonPhase::Failed,
            b,
            evs,
        )[i] == Ok::<DaemonAction, DaemonError>(DaemonAction::Wait) by {
            if i > 0 {
                assert(daemon_answers(DaemonPhase::Failed, b, evs)[i] == daemon_answers(
                    DaemonPhase::Failed,
                    b,
                    rest,
                )[i - 1]);
            }
        }
    }
}

} // verus!
