use esp_csi_rs::config::CSIConfig;
use esp_csi_rs::config::TrafficConfig;
use esp_csi_rs::config::TrafficType;
use esp_csi_rs::config::WiFiConfig;
use esp_csi_rs::Error;
use esp_csi_rs::WiFiMode;

#[test]
fn default_wifi_config_matches_documented_defaults() {
    let cfg = WiFiConfig::default();
    assert_eq!(cfg.ssid.as_str(), "");
    assert_eq!(cfg.password.as_str(), "");
    assert_eq!(cfg.ap_ssid.as_str(), "");
    assert_eq!(cfg.ap_password.as_str(), "");
    assert_eq!(cfg.max_connections, 1);
    assert!(!cfg.ssid_hidden);
    assert_eq!(cfg.channel, 1);
    assert_eq!(cfg.max_retries, 5);
    assert_eq!(cfg.timeout_secs, 30);
}

#[test]
fn default_csi_config_is_legacy_with_everything_enabled() {
    let cfg = CSIConfig::default();
    match cfg {
        CSIConfig::Legacy {
            lltf_enabled,
            htltf_enabled,
            stbc_htltf2_enabled,
            ltf_merge_enabled,
            channel_filter_enabled,
            manu_scale,
            shift,
            dump_ack_en,
        } => {
            assert!(lltf_enabled);
            assert!(htltf_enabled);
            assert!(stbc_htltf2_enabled);
            assert!(ltf_merge_enabled);
            assert!(channel_filter_enabled);
            assert!(!manu_scale);
            assert_eq!(shift, 0);
            assert!(!dump_ack_en);
        },
        CSIConfig::Extended { .. } => panic!("default selector must use the legacy encoding"),
    }
}

#[test]
fn extended_default_csi_config() {
    let cfg = CSIConfig::extended_default();
    match cfg {
        CSIConfig::Extended { enable, acquire_csi_he_stbc, val_scale_cfg, dump_ack_en, reserved, .. } => {
            assert_eq!(enable, 1);
            assert_eq!(acquire_csi_he_stbc, 2);
            assert_eq!(val_scale_cfg, 2);
            assert_eq!(dump_ack_en, 1);
            assert_eq!(reserved, 19);
        },
        CSIConfig::Legacy { .. } => panic!("extended default must use the extended encoding"),
    }
}

#[test]
fn default_traffic_config_is_one_ping_per_second() {
    let cfg = TrafficConfig::default();
    assert_eq!(cfg.traffic_type, TrafficType::ICMPPing);
    assert_eq!(cfg.traffic_interval_ms, 1000);
}

#[test]
fn ssid_at_the_bound_is_accepted() {
    let mut cfg = WiFiConfig::default();
    let s32: String = "a".repeat(32);
    assert!(cfg.set_ssid(&s32).is_ok());
    assert_eq!(cfg.ssid.as_str(), s32.as_str());
}

#[test]
fn ssid_over_the_bound_is_rejected_not_truncated() {
    let mut cfg = WiFiConfig::default();
    let s33: String = "a".repeat(33);
    let r = cfg.set_ssid(&s33);
    assert!(matches!(r, Err(Error::ConfigError(_))));
    assert_eq!(cfg.ssid.as_str(), "");
}

#[test]
fn password_over_the_bound_is_rejected() {
    let mut cfg = WiFiConfig::default();
    let s65: String = "b".repeat(65);
    assert!(matches!(cfg.set_password(&s65), Err(Error::ConfigError(_))));
    let s64: String = "b".repeat(64);
    assert!(cfg.set_password(&s64).is_ok());
    assert_eq!(cfg.password.as_str(), s64.as_str());
}

#[test]
fn ap_strings_have_the_same_bounds() {
    let mut cfg = WiFiConfig::default();
    assert!(cfg.set_ap_ssid("esp").is_ok());
    assert_eq!(cfg.ap_ssid.as_str(), "esp");
    let s33: String = "c".repeat(33);
    assert!(matches!(cfg.set_ap_ssid(&s33), Err(Error::ConfigError(_))));
    assert!(cfg.set_ap_password("12345678").is_ok());
    assert_eq!(cfg.ap_password.as_str(), "12345678");
}

#[test]
fn validate_rejects_channel_out_of_range() {
    let mut cfg = WiFiConfig::default();
    cfg.channel = 0;
    assert!(matches!(cfg.validate(WiFiMode::Sniffer), Err(Error::ConfigError(_))));
    cfg.channel = 15;
    assert!(matches!(cfg.validate(WiFiMode::Sniffer), Err(Error::ConfigError(_))));
    cfg.channel = 14;
    assert!(cfg.validate(WiFiMode::Sniffer).is_ok());
}

#[test]
fn validate_requires_station_ssid() {
    let cfg = WiFiConfig::default();
    assert!(matches!(cfg.validate(WiFiMode::Station), Err(Error::ConfigError(_))));
    let mut cfg = WiFiConfig::default();
    cfg.set_ssid("esp").unwrap();
    assert!(cfg.validate(WiFiMode::Station).is_ok());
}

#[test]
fn validate_requires_ap_ssid_and_a_connection_slot() {
    let cfg = WiFiConfig::default();
    assert!(matches!(cfg.validate(WiFiMode::AccessPoint), Err(Error::ConfigError(_))));
    let mut cfg = WiFiConfig::default();
    cfg.set_ap_ssid("esp").unwrap();
    cfg.max_connections = 0;
    assert!(matches!(cfg.validate(WiFiMode::AccessPoint), Err(Error::ConfigError(_))));
    cfg.max_connections = 2;
    assert!(cfg.validate(WiFiMode::AccessPoint).is_ok());
}

#[test]
fn wifi_config_clone_preserves_every_field() {
    let mut cfg = WiFiConfig::default();
    cfg.set_ssid("net").unwrap();
    cfg.set_password("secretpw").unwrap();
    cfg.channel = 6;
    cfg.max_retries = 3;
    let copy = cfg.clone();
    assert_eq!(copy.ssid.as_str(), "net");
    assert_eq!(copy.password.as_str(), "secretpw");
    assert_eq!(copy.channel, 6);
    assert_eq!(copy.max_retries, 3);
}
