use esp_csi_rs::config::WiFiConfig;
use esp_csi_rs::connection::run_station_bring_up;
use esp_csi_rs::connection::start_station;
use esp_csi_rs::connection::step;
use esp_csi_rs::connection::BringUpPhase;
use esp_csi_rs::connection::LinkAction;
use esp_csi_rs::connection::LinkEvent;
use esp_csi_rs::connection::bring_up;
use esp_csi_rs::Error;
use esp_csi_rs::NetworkArchitecture;
use esp_csi_rs::WiFiMode;

fn station_cfg() -> WiFiConfig {
    let mut cfg = WiFiConfig::default();
    cfg.set_ssid("esp").unwrap();
    cfg.set_password("12345678").unwrap();
    cfg
}

#[test]
fn exhausted_retries_never_exceed_the_bound() {
    let cfg = station_cfg();
    // Default bound: five attempts.
    let outcomes = [false; 8];
    let (r, used) = run_station_bring_up(&cfg, &outcomes, None);
    assert!(matches!(r, Err(Error::WiFiError(_))));
    assert_eq!(used, 5);
}

#[test]
fn association_stops_at_the_first_success() {
    let cfg = station_cfg();
    let (r, used) = run_station_bring_up(&cfg, &[true, false, false, false, false], None);
    assert!(r.is_ok());
    assert_eq!(used, 1);
    let (r, used) = run_station_bring_up(&cfg, &[false, false, true, false, false], None);
    assert!(r.is_ok());
    assert_eq!(used, 3);
}

#[test]
fn zero_retries_fail_without_an_attempt() {
    let mut cfg = station_cfg();
    cfg.max_retries = 0;
    let (r, used) = run_station_bring_up(&cfg, &[], None);
    assert!(matches!(r, Err(Error::WiFiError(_))));
    assert_eq!(used, 0);
}

#[test]
fn stop_during_the_first_wait_aborts_at_once() {
    let cfg = station_cfg();
    // All attempts would fail; a stop request arrives during the wait after
    // the first failure. Only one attempt is made, not five.
    let (r, used) = run_station_bring_up(&cfg, &[false; 5], Some(0));
    assert!(matches!(r, Err(Error::WiFiError(_))));
    assert_eq!(used, 1);
}

#[test]
fn stop_scheduled_after_a_success_changes_nothing() {
    let cfg = station_cfg();
    let (r, used) = run_station_bring_up(&cfg, &[false, true, false, false, false], Some(3));
    assert!(r.is_ok());
    assert_eq!(used, 2);
}

#[test]
fn the_machine_backs_off_and_aborts_on_stop() {
    let cfg = station_cfg();
    let (mut st, act) = start_station(&cfg);
    assert_eq!(act, LinkAction::Associate);
    assert_eq!(st.phase, BringUpPhase::Associating);
    // A failed attempt schedules a backoff wait of `timeout_secs`.
    let act = step(&mut st, LinkEvent::AssociationResult(false));
    assert_eq!(act, LinkAction::Wait(30));
    assert_eq!(st.phase, BringUpPhase::Waiting);
    assert_eq!(st.attempts, 1);
    // A stop request found during the wait aborts in that one step.
    let act = step(&mut st, LinkEvent::Stop);
    assert_eq!(act, LinkAction::Idle);
    assert_eq!(st.phase, BringUpPhase::Aborted);
    assert_eq!(st.attempts, 1);
    // Terminal: further events change nothing.
    let act = step(&mut st, LinkEvent::WaitElapsed);
    assert_eq!(act, LinkAction::Idle);
    assert_eq!(st.phase, BringUpPhase::Aborted);
}

#[test]
fn the_machine_connects_on_success() {
    let cfg = station_cfg();
    let (mut st, _) = start_station(&cfg);
    let act = step(&mut st, LinkEvent::AssociationResult(false));
    assert_eq!(act, LinkAction::Wait(30));
    let act = step(&mut st, LinkEvent::WaitElapsed);
    assert_eq!(act, LinkAction::Associate);
    let act = step(&mut st, LinkEvent::AssociationResult(true));
    assert_eq!(act, LinkAction::EmitLinkUp);
    assert_eq!(st.phase, BringUpPhase::Connected);
    assert_eq!(st.attempts, 2);
}

#[test]
fn ap_activation_failure_is_a_wifi_error_without_retry() {
    let mut cfg = WiFiConfig::default();
    cfg.set_ap_ssid("esp").unwrap();
    let (r, report) = bring_up(
        &cfg,
        WiFiMode::AccessPoint,
        NetworkArchitecture::AccessPointStation,
        false,
        &[false; 5],
        None,
        true,
    );
    assert!(matches!(r, Err(Error::WiFiError(_))));
    assert_eq!(report.attempts, 0);
}

#[test]
fn incompatible_pair_is_a_config_error() {
    let cfg = station_cfg();
    let (r, _) = bring_up(
        &cfg,
        WiFiMode::Sniffer,
        NetworkArchitecture::RouterStation,
        true,
        &[false; 5],
        None,
        true,
    );
    assert!(matches!(r, Err(Error::ConfigError(_))));
}

#[test]
fn malformed_config_is_a_config_error() {
    // A station role without an SSID.
    let cfg = WiFiConfig::default();
    let (r, _) = bring_up(
        &cfg,
        WiFiMode::Station,
        NetworkArchitecture::RouterStation,
        true,
        &[true; 5],
        None,
        true,
    );
    assert!(matches!(r, Err(Error::ConfigError(_))));
}

#[test]
fn failed_time_sync_is_recorded_but_never_aborts() {
    let cfg = station_cfg();
    let (r, report) = bring_up(
        &cfg,
        WiFiMode::Station,
        NetworkArchitecture::RouterStation,
        true,
        &[true; 5],
        None,
        false,
    );
    let handle = r.unwrap();
    assert!(handle.profile.time_sync);
    assert!(report.sync_attempted);
    assert!(report.sync_failed);
}

#[test]
fn no_uplink_means_no_sync_attempt() {
    let cfg = station_cfg();
    let (r, report) = bring_up(
        &cfg,
        WiFiMode::Station,
        NetworkArchitecture::AccessPointStation,
        true,
        &[true; 5],
        None,
        false,
    );
    let handle = r.unwrap();
    assert!(!handle.profile.time_sync);
    assert!(!report.sync_attempted);
    assert!(!report.sync_failed);
}
