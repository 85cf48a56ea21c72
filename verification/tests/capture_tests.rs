use esp_csi_rs::capture::build_frame;
use esp_csi_rs::capture::effective_limit;
use esp_csi_rs::architecture::select;
use esp_csi_rs::config::CSIConfig;
use esp_csi_rs::CSICapturePipe;
use esp_csi_rs::Error;
use esp_csi_rs::NetworkArchitecture;
use esp_csi_rs::WiFiMode;

#[test]
fn build_frame_copies_short_deliveries_whole() {
    let raw: Vec<i8> = vec![1, -2, 3, -4, 5];
    let f = build_frame(&raw, 77, 616);
    assert_eq!(f.len(), 5);
    assert_eq!(f.timestamp, 77);
    for (i, v) in raw.iter().enumerate() {
        assert_eq!(f.sample(i), *v);
    }
}

#[test]
fn build_frame_truncates_at_the_frame_capacity() {
    let raw: Vec<i8> = (0..700).map(|i| (i % 100) as i8).collect();
    let f = build_frame(&raw, 1, 616);
    assert_eq!(f.len(), 616);
    assert_eq!(f.sample(0), 0);
    assert_eq!(f.sample(615), (615 % 100) as i8);
}

#[test]
fn build_frame_truncates_at_a_smaller_limit() {
    let raw: Vec<i8> = vec![9; 50];
    let f = build_frame(&raw, 2, 10);
    assert_eq!(f.len(), 10);
    assert_eq!(f.sample(9), 9);
}

#[test]
fn build_frame_of_empty_delivery_is_empty() {
    let raw: Vec<i8> = vec![];
    let f = build_frame(&raw, 3, 616);
    assert_eq!(f.len(), 0);
    assert_eq!(f.timestamp, 3);
}

#[test]
fn frame_clone_preserves_samples_and_timestamp() {
    let raw: Vec<i8> = vec![5, 6, 7];
    let f = build_frame(&raw, 42, 616);
    let g = f.clone();
    assert_eq!(g.len(), 3);
    assert_eq!(g.timestamp, 42);
    assert_eq!(g.sample(2), 7);
}

#[test]
fn effective_limit_cuts_to_the_frame_capacity() {
    assert_eq!(effective_limit(None), 616);
    assert_eq!(effective_limit(Some(1000)), 616);
    assert_eq!(effective_limit(Some(64)), 64);
    assert_eq!(effective_limit(Some(0)), 0);
}

#[test]
fn pipe_registration_reports_the_drivers_refusal() {
    let profile = select(WiFiMode::Sniffer, NetworkArchitecture::Sniffer).unwrap();
    let mut pipe = CSICapturePipe::new(CSIConfig::default(), Some(128));
    assert!(!pipe.registered);
    assert_eq!(pipe.limit, 128);
    assert!(matches!(pipe.register(&profile, false), Err(Error::CSIError(_))));
    assert!(!pipe.registered);
    assert!(pipe.register(&profile, true).is_ok());
    assert!(pipe.registered);
    let raw: Vec<i8> = vec![1; 200];
    let f = pipe.capture(&raw, 9);
    assert_eq!(f.len(), 128);
    assert_eq!(f.timestamp, 9);
}
