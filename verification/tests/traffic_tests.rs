use esp_csi_rs::architecture::select;
use esp_csi_rs::config::TrafficConfig;
use esp_csi_rs::config::TrafficType;
use esp_csi_rs::traffic::traffic_task_needed;
use esp_csi_rs::Error;
use esp_csi_rs::NetworkArchitecture;
use esp_csi_rs::TrafficGenerator;
use esp_csi_rs::WiFiMode;

fn udp_cfg(interval: u64) -> TrafficConfig {
    TrafficConfig { traffic_type: TrafficType::UDP, traffic_interval_ms: interval }
}

#[test]
fn a_zero_interval_is_rejected() {
    let r = TrafficGenerator::new(&udp_cfg(0), 0);
    assert!(matches!(r, Err(Error::ConfigError(_))));
}

#[test]
fn one_packet_per_interval() {
    let mut g = TrafficGenerator::new(&udp_cfg(1000), 0).unwrap();
    // Nothing is due before the first deadline.
    assert!(!g.due(0));
    assert!(!g.due(999));
    assert!(g.due(1000));
    assert!(g.emit(true).is_ok());
    assert_eq!(g.emitted(), 1);
    // The next packet is due exactly one interval later.
    assert!(!g.due(1999));
    assert!(g.due(2000));
    assert!(g.emit(true).is_ok());
    assert!(g.due(3000));
    assert_eq!(g.emitted(), 2);
    assert_eq!(g.failures(), 0);
}

#[test]
fn a_failed_send_is_counted_and_the_task_carries_on() {
    let mut g = TrafficGenerator::new(&udp_cfg(500), 100).unwrap();
    assert!(g.due(600));
    let r = g.emit(false);
    assert!(matches!(r, Err(Error::TrafficError(_))));
    assert_eq!(g.failures(), 1);
    assert_eq!(g.emitted(), 1);
    // Not stopped: the next interval proceeds as scheduled.
    assert!(!g.is_stopped());
    assert!(g.due(1100));
    assert!(g.emit(true).is_ok());
    assert_eq!(g.emitted(), 2);
    assert_eq!(g.failures(), 1);
}

#[test]
fn stop_is_terminal_and_idempotent() {
    let mut g = TrafficGenerator::new(&udp_cfg(1000), 0).unwrap();
    g.stop();
    assert!(g.is_stopped());
    assert!(!g.due(5000));
    g.stop();
    assert!(g.is_stopped());
    assert_eq!(g.emitted(), 0);
}

#[test]
fn the_task_is_spawned_only_for_own_traffic_roles() {
    let router_station = select(WiFiMode::Station, NetworkArchitecture::RouterStation).unwrap();
    let hosting = select(WiFiMode::AccessPoint, NetworkArchitecture::AccessPointStation).unwrap();
    let sniffing = select(WiFiMode::Sniffer, NetworkArchitecture::Sniffer).unwrap();
    assert!(traffic_task_needed(true, &router_station));
    assert!(!traffic_task_needed(false, &router_station));
    assert!(!traffic_task_needed(true, &hosting));
    assert!(!traffic_task_needed(true, &sniffing));
}

#[test]
fn generator_reports_its_packet_kind() {
    let g = TrafficGenerator::new(&udp_cfg(1000), 0).unwrap();
    assert_eq!(g.traffic_type(), TrafficType::UDP);
    let cfg = TrafficConfig::default();
    let g = TrafficGenerator::new(&cfg, 0).unwrap();
    assert_eq!(g.traffic_type(), TrafficType::ICMPPing);
}
