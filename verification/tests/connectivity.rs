use terralib::config::WifiDetails;
use terralib::connectivity::{
    access_point_ssid, random_access_point_ssid, Connectivity, WifiAction, WifiEvent, WifiMode,
    HEALTH_CHECK_SECS, RECONFIGURE_DELAY_MILLIS,
};

fn home() -> WifiDetails {
    WifiDetails { ssid: "home".to_string(), password: "secret".to_string() }
}

#[test]
fn new_credentials_are_tried_at_once() {
    let mut state = Connectivity::new(60_000);
    assert_eq!(state.mode, WifiMode::Idle);
    assert_eq!(
        state.on_event(WifiEvent::CredentialsChanged(Some(home())), 10),
        WifiAction::Connect(home())
    );
    assert_eq!(state.mode, WifiMode::Connecting);
    assert_eq!(state.credentials, Some(home()));
    assert_eq!(state.on_event(WifiEvent::ConnectSucceeded, 20), WifiAction::Nothing);
    assert_eq!(state.mode, WifiMode::Station);
}

#[test]
fn without_credentials_the_access_point_is_offered() {
    let mut state = Connectivity::new(60_000);
    assert_eq!(
        state.on_event(WifiEvent::CredentialsChanged(None), 10),
        WifiAction::StartAccessPoint
    );
    assert_eq!(state.mode, WifiMode::AccessPoint { since: 10 });
    assert_eq!(state.credentials, None);
    // With nothing to join, no health check asks for a retry.
    assert_eq!(
        state.on_event(WifiEvent::HealthCheck { link_up: false }, 1_000_000),
        WifiAction::Nothing
    );
    assert_eq!(state.mode, WifiMode::AccessPoint { since: 10 });
}

#[test]
fn a_failed_attempt_falls_back_and_is_repeated() {
    let mut state = Connectivity::new(60_000);
    state.on_event(WifiEvent::CredentialsChanged(Some(home())), 0);
    assert_eq!(state.on_event(WifiEvent::ConnectFailed, 1_000), WifiAction::StartAccessPoint);
    assert_eq!(state.mode, WifiMode::AccessPoint { since: 1_000 });
    assert_eq!(state.credentials, Some(home()));

    assert_eq!(
        state.on_event(WifiEvent::HealthCheck { link_up: false }, 60_999),
        WifiAction::Nothing
    );
    assert_eq!(state.mode, WifiMode::AccessPoint { since: 1_000 });
    assert_eq!(
        state.on_event(WifiEvent::HealthCheck { link_up: false }, 61_000),
        WifiAction::Connect(home())
    );
    assert_eq!(state.mode, WifiMode::Connecting);
    assert_eq!(state.on_event(WifiEvent::ConnectFailed, 62_000), WifiAction::StartAccessPoint);
    assert_eq!(state.mode, WifiMode::AccessPoint { since: 62_000 });
}

#[test]
fn a_dropped_link_is_joined_again() {
    let mut state = Connectivity::new(60_000);
    state.on_event(WifiEvent::CredentialsChanged(Some(home())), 0);
    state.on_event(WifiEvent::ConnectSucceeded, 1);
    assert_eq!(state.on_event(WifiEvent::HealthCheck { link_up: true }, 2), WifiAction::Nothing);
    assert_eq!(state.mode, WifiMode::Station);
    assert_eq!(
        state.on_event(WifiEvent::HealthCheck { link_up: false }, 3),
        WifiAction::Connect(home())
    );
    assert_eq!(state.mode, WifiMode::Connecting);
}

#[test]
fn reports_that_belong_to_no_attempt_change_nothing() {
    let mut state = Connectivity::new(60_000);
    assert_eq!(state.on_event(WifiEvent::ConnectFailed, 5), WifiAction::Nothing);
    assert_eq!(state.mode, WifiMode::Idle);
    assert_eq!(state.on_event(WifiEvent::ConnectSucceeded, 5), WifiAction::Nothing);
    assert_eq!(state.mode, WifiMode::Idle);
    assert_eq!(state.on_event(WifiEvent::HealthCheck { link_up: false }, 5), WifiAction::Nothing);
    assert_eq!(state.mode, WifiMode::Idle);
    state.on_event(WifiEvent::CredentialsChanged(Some(home())), 0);
    assert_eq!(state.on_event(WifiEvent::HealthCheck { link_up: false }, 5), WifiAction::Nothing);
    assert_eq!(state.mode, WifiMode::Connecting);
}

#[test]
fn the_clock_may_be_anything() {
    let mut state = Connectivity::new(u64::MAX);
    state.on_event(WifiEvent::CredentialsChanged(Some(home())), i64::MIN);
    state.on_event(WifiEvent::ConnectFailed, i64::MIN);
    assert_eq!(
        state.on_event(WifiEvent::HealthCheck { link_up: false }, i64::MAX - 1),
        WifiAction::Nothing
    );
    assert_eq!(
        state.on_event(WifiEvent::HealthCheck { link_up: false }, i64::MAX),
        WifiAction::Connect(home())
    );
    let mut state = Connectivity::new(0);
    state.on_event(WifiEvent::CredentialsChanged(Some(home())), i64::MAX);
    state.on_event(WifiEvent::ConnectFailed, i64::MAX);
    assert_eq!(
        state.on_event(WifiEvent::HealthCheck { link_up: false }, i64::MIN),
        WifiAction::Nothing
    );
    assert_eq!(
        state.on_event(WifiEvent::HealthCheck { link_up: false }, i64::MAX),
        WifiAction::Connect(home())
    );
}

#[test]
fn access_points_are_named_with_four_digits() {
    assert_eq!(access_point_ssid(1000), Some("oasis-1000".to_string()));
    assert_eq!(access_point_ssid(9999), Some("oasis-9999".to_string()));
    assert_eq!(access_point_ssid(4071), Some("oasis-4071".to_string()));
    assert_eq!(access_point_ssid(1234), Some(format!("oasis-{}", 1234)));
    assert_eq!(access_point_ssid(999), None);
    assert_eq!(access_point_ssid(10_000), None);
    assert_eq!(access_point_ssid(0), None);
    let mut seen = Vec::new();
    for _ in 0..200 {
        let name = random_access_point_ssid();
        assert_eq!(name.len(), 10);
        assert!(name.starts_with("oasis-"));
        let suffix: u32 = name["oasis-".len()..].parse().unwrap();
        assert!((1000..=9999).contains(&suffix));
        assert_eq!(Some(name), access_point_ssid(suffix));
        if !seen.contains(&suffix) {
            seen.push(suffix);
        }
    }
    // The digits are drawn: they are not the same every time.
    assert!(seen.len() > 1);
    assert_eq!(HEALTH_CHECK_SECS, 120);
    assert_eq!(RECONFIGURE_DELAY_MILLIS, 10);
}
