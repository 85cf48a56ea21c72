use esp_csi_rs::architecture::select;
use esp_csi_rs::CsiSource;
use esp_csi_rs::Error;
use esp_csi_rs::NetworkArchitecture;
use esp_csi_rs::WiFiMode;

#[test]
fn time_sync_follows_the_uplink_for_every_architecture() {
    // No uplink, no time sync.
    let p = select(WiFiMode::Sniffer, NetworkArchitecture::Sniffer).unwrap();
    assert!(!p.time_sync);
    let p = select(WiFiMode::AccessPoint, NetworkArchitecture::AccessPoint).unwrap();
    assert!(!p.time_sync);
    let p = select(WiFiMode::AccessPoint, NetworkArchitecture::AccessPointStation).unwrap();
    assert!(!p.time_sync);
    // A router uplink enables time sync.
    let p = select(WiFiMode::AccessPointStation, NetworkArchitecture::RouterAccessPointStation)
        .unwrap();
    assert!(p.time_sync);
    let p = select(WiFiMode::Station, NetworkArchitecture::RouterStation).unwrap();
    assert!(p.time_sync);
}

#[test]
fn csi_source_follows_the_role() {
    let p = select(WiFiMode::Sniffer, NetworkArchitecture::Sniffer).unwrap();
    assert_eq!(p.csi_source, CsiSource::Ambient);
    let p = select(WiFiMode::Station, NetworkArchitecture::RouterStation).unwrap();
    assert_eq!(p.csi_source, CsiSource::OwnTraffic);
    let p = select(WiFiMode::AccessPoint, NetworkArchitecture::AccessPoint).unwrap();
    assert_eq!(p.csi_source, CsiSource::AssociatedPeers);
    let p = select(WiFiMode::AccessPointStation, NetworkArchitecture::RouterAccessPointStation)
        .unwrap();
    assert_eq!(p.csi_source, CsiSource::AssociatedPeers);
}

#[test]
fn incompatible_combinations_are_config_errors() {
    assert!(matches!(
        select(WiFiMode::Sniffer, NetworkArchitecture::AccessPoint),
        Err(Error::ConfigError(_))
    ));
    assert!(matches!(
        select(WiFiMode::Station, NetworkArchitecture::Sniffer),
        Err(Error::ConfigError(_))
    ));
    assert!(matches!(
        select(WiFiMode::AccessPoint, NetworkArchitecture::RouterStation),
        Err(Error::ConfigError(_))
    ));
    assert!(matches!(
        select(WiFiMode::AccessPointStation, NetworkArchitecture::AccessPointStation),
        Err(Error::ConfigError(_))
    ));
}
