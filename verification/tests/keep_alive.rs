use money_machine::keep_alive::KeepAliveManager;

#[test]
fn enable_twice_is_idempotent() {
    let mut m: KeepAliveManager<u32> = KeepAliveManager::new();
    assert!(!m.is_active());
    let first = m.enable_with(Ok(1));
    assert_eq!(first, Ok("Keep-Alive enabled".to_string()));
    assert!(m.is_active());
    let second = m.enable_with(Ok(2));
    assert_eq!(second, Ok("Keep-Alive already active".to_string()));
    assert!(m.is_active());
}

#[test]
fn disable_when_inactive_reports_not_active() {
    let mut m: KeepAliveManager<u32> = KeepAliveManager::new();
    let r = m.disable();
    assert_eq!(r, Ok("Keep-Alive not active".to_string()));
    assert!(!m.is_active());
}

#[test]
fn enable_disable_round_trip_lands_inactive() {
    let mut m: KeepAliveManager<u32> = KeepAliveManager::new();
    assert_eq!(m.enable_with(Ok(7)), Ok("Keep-Alive enabled".to_string()));
    assert!(m.is_active());
    assert_eq!(m.disable(), Ok("Keep-Alive disabled".to_string()));
    assert!(!m.is_active());
    assert_eq!(m.disable(), Ok("Keep-Alive not active".to_string()));
    assert!(!m.is_active());
}

#[test]
fn refused_grant_reports_failure_and_stays_inactive() {
    let mut m: KeepAliveManager<u32> = KeepAliveManager::new();
    let r = m.enable_with(Err("no power api".to_string()));
    assert_eq!(
        r,
        Err("Failed to enable Keep-Alive: no power api".to_string())
    );
    assert!(!m.is_active());
    assert_eq!(m.disable(), Ok("Keep-Alive not active".to_string()));
}

#[test]
fn refusal_after_success_does_not_disturb_the_handle() {
    let mut m: KeepAliveManager<u32> = KeepAliveManager::new();
    assert_eq!(m.enable_with(Ok(3)), Ok("Keep-Alive enabled".to_string()));
    let r = m.enable_with(Err("no power api".to_string()));
    assert_eq!(r, Ok("Keep-Alive already active".to_string()));
    assert!(m.is_active());
}

#[test]
fn platform_enable_reports_every_outcome_consistently() {
    let mut m: KeepAliveManager<keepawake::KeepAwake> = KeepAliveManager::new();
    match m.enable() {
        Ok(msg) => {
            assert_eq!(msg, "Keep-Alive enabled");
            assert!(m.is_active());
            assert_eq!(m.disable(), Ok("Keep-Alive disabled".to_string()));
        }
        Err(msg) => {
            assert!(msg.starts_with("Failed to enable Keep-Alive: "));
            assert!(!m.is_active());
        }
    }
    assert!(!m.is_active());
}
