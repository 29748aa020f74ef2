use agent_lock::lease::{LeaseCommand, LeaseError, SleepPreventer};

#[test]
fn test_sleep_preventer_lifecycle() {
    let mut preventer = SleepPreventer::new();
    assert!(!preventer.is_running());

    assert_eq!(preventer.start(), LeaseCommand::Engage);
    assert!(preventer.is_running());

    preventer.stop();
    assert!(!preventer.is_running());
}

#[test]
fn start_twice_engages_one_worker() {
    let mut preventer = SleepPreventer::new();
    assert_eq!(preventer.start(), LeaseCommand::Engage);
    assert_eq!(preventer.start(), LeaseCommand::Nothing);
    assert!(preventer.is_running());
}

#[test]
fn stop_twice_releases_once() {
    let mut preventer = SleepPreventer::new();
    preventer.start();
    assert_eq!(preventer.stop(), LeaseCommand::Release);
    assert_eq!(preventer.stop(), LeaseCommand::Nothing);
    assert!(!preventer.is_running());
}

#[test]
fn stop_on_inactive_lease_does_nothing() {
    let mut preventer = SleepPreventer::new();
    assert_eq!(preventer.stop(), LeaseCommand::Nothing);
    assert!(!preventer.is_running());
}

#[test]
fn refused_engagement_reports_platform_unavailable() {
    let mut preventer = SleepPreventer::new();
    preventer.start();
    assert_eq!(preventer.confirm_engaged(false), Err(LeaseError::PlatformUnavailable));
    assert!(!preventer.is_running());
    assert_eq!(preventer.start(), LeaseCommand::Engage);
    assert_eq!(preventer.confirm_engaged(true), Ok(()));
    assert!(preventer.is_running());
}
