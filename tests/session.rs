use agent_lock::auth::AuthConfig;
use agent_lock::lease::{LeaseCommand, LeaseError};
use agent_lock::session::{AttemptAction, LockSession, SessionError, SessionState};

#[test]
fn test_compiles() {
    assert!(true);
}

#[test]
fn no_credential_refuses_to_lock() {
    let mut session = LockSession::new();
    assert_eq!(session.start(false), Err(SessionError::NoCredential));
    assert_eq!(session.state(), SessionState::Idle);
    assert!(!session.lease_active());
}

#[test]
fn wrong_then_right_pin_unlocks_and_releases() {
    let stored = Some(AuthConfig::new("1234"));
    let mut session = LockSession::new();
    assert_eq!(session.start(true), Ok(LeaseCommand::Engage));
    assert_eq!(session.lease_engaged(true), Ok(()));
    assert_eq!(session.state(), SessionState::Locked);
    assert!(session.lease_active());

    assert_eq!(session.attempt(&stored, "0000"), AttemptAction::ClearInput);
    assert_eq!(session.state(), SessionState::Locked);
    assert!(session.lease_active());

    assert_eq!(
        session.attempt(&stored, "1234"),
        AttemptAction::Unlock { release: LeaseCommand::Release }
    );
    assert_eq!(session.state(), SessionState::Unlocked);
    assert!(!session.lease_active());
}

#[test]
fn many_wrong_attempts_stay_locked() {
    let stored = Some(AuthConfig::new("5555"));
    let mut session = LockSession::new();
    session.start(true).unwrap();
    for pin in ["0000", "1111", "55555", "", "abcd"] {
        assert_eq!(session.attempt(&stored, pin), AttemptAction::ClearInput);
        assert_eq!(session.state(), SessionState::Locked);
    }
}

#[test]
fn unreadable_store_never_unlocks() {
    let mut session = LockSession::new();
    session.start(true).unwrap();
    assert_eq!(session.attempt(&None, "1234"), AttemptAction::ClearInput);
    assert_eq!(session.state(), SessionState::Locked);
}

#[test]
fn presentation_error_releases_lease() {
    let mut session = LockSession::new();
    session.start(true).unwrap();
    assert_eq!(session.abort(), LeaseCommand::Release);
    assert_eq!(session.state(), SessionState::Aborted);
    assert!(!session.lease_active());
}

#[test]
fn abort_after_unlock_releases_nothing_more() {
    let stored = Some(AuthConfig::new("1234"));
    let mut session = LockSession::new();
    session.start(true).unwrap();
    session.attempt(&stored, "1234");
    assert_eq!(session.abort(), LeaseCommand::Nothing);
    assert_eq!(session.state(), SessionState::Unlocked);
    assert!(!session.lease_active());
}

#[test]
fn abort_before_start_holds_no_lease() {
    let mut session = LockSession::new();
    assert_eq!(session.abort(), LeaseCommand::Nothing);
    assert_eq!(session.state(), SessionState::Aborted);
    assert!(!session.lease_active());
}

#[test]
fn refused_lease_aborts_the_session() {
    let mut session = LockSession::new();
    session.start(true).unwrap();
    assert_eq!(
        session.lease_engaged(false),
        Err(SessionError::Lease(LeaseError::PlatformUnavailable))
    );
    assert_eq!(session.state(), SessionState::Aborted);
    assert!(!session.lease_active());
}
