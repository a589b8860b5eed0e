use arcpanel::scan_gate::{
    gate_refusal,
    exceeds_threshold, gate_active, gate_verdict, scan_settings_from_rows, valid_gate,
    validate_scan_settings, GateVerdict, ImageScanResult, ScanSettingsError, UpdateSettings,
};

fn r(c: u32, h: u32, m: u32) -> ImageScanResult {
    ImageScanResult {
        image: "x".into(),
        scanner: "grype".into(),
        critical_count: c,
        high_count: h,
        medium_count: m,
        low_count: 0,
        unknown_count: 0,
        vulnerabilities: vec![],
        scanned_at: "now".into(),
    }
}

#[test]
fn gate_thresholds() {
    let clean = r(0, 0, 0);
    let med = r(0, 0, 1);
    let high = r(0, 1, 0);
    let crit = r(1, 0, 0);

    assert!(!exceeds_threshold("none", &crit));
    assert!(exceeds_threshold("critical", &crit));
    assert!(!exceeds_threshold("critical", &high));
    assert!(exceeds_threshold("high", &high));
    assert!(exceeds_threshold("high", &crit));
    assert!(!exceeds_threshold("high", &med));
    assert!(exceeds_threshold("medium", &med));
    assert!(!exceeds_threshold("medium", &clean));
}

#[test]
fn validates_gate() {
    assert!(valid_gate("none"));
    assert!(valid_gate("critical"));
    assert!(valid_gate("high"));
    assert!(valid_gate("medium"));
    assert!(!valid_gate("low"));
    assert!(!valid_gate(""));
    assert!(!valid_gate("bogus"));
}

#[test]
fn stricter_gate_blocks_less() {
    // A result over the critical gate is over the high gate, and that over the medium gate.
    for (c, h, m) in [(1, 0, 0), (0, 1, 0), (0, 0, 1), (0, 0, 0), (2, 3, 4)] {
        let x = r(c, h, m);
        if exceeds_threshold("critical", &x) {
            assert!(exceeds_threshold("high", &x));
        }
        if exceeds_threshold("high", &x) {
            assert!(exceeds_threshold("medium", &x));
        }
    }
}

#[test]
fn unknown_gate_blocks_nothing() {
    assert!(!exceeds_threshold("low", &r(9, 9, 9)));
}

#[test]
fn settings_rows_defaults_and_overrides() {
    let none: Vec<(String, String)> = vec![];
    let (e, d, g, h) = scan_settings_from_rows(&none);
    assert!(!e && !d);
    assert_eq!(g, "none");
    assert_eq!(h, 24);

    let rows = vec![
        ("image_scan_enabled".to_string(), "true".to_string()),
        ("image_scan_on_deploy".to_string(), "false".to_string()),
        ("image_scan_deploy_gate".to_string(), "high".to_string()),
        ("image_scan_interval_hours".to_string(), "12".to_string()),
    ];
    let (e, d, g, h) = scan_settings_from_rows(&rows);
    assert!(e && !d);
    assert_eq!(g, "high");
    assert_eq!(h, 12);
    let big = vec![("image_scan_interval_hours".to_string(), "2147483648".to_string())];
    assert_eq!(scan_settings_from_rows(&big).3, 24);
    let max = vec![("image_scan_interval_hours".to_string(), "+2147483647".to_string())];
    assert_eq!(scan_settings_from_rows(&max).3, 2147483647);

    let bad = vec![("image_scan_interval_hours".to_string(), "soon".to_string())];
    assert_eq!(scan_settings_from_rows(&bad).3, 24);
}

#[test]
fn settings_validation_errors() {
    let mk = |g: &str, h: i32| UpdateSettings {
        enabled: true,
        on_deploy: true,
        deploy_gate: g.to_string(),
        interval_hours: h,
    };
    assert!(validate_scan_settings(&mk("high", 24)).is_ok());
    assert!(validate_scan_settings(&mk("low", 24)) == Err(ScanSettingsError::InvalidGate));
    assert!(validate_scan_settings(&mk("high", 0)) == Err(ScanSettingsError::InvalidInterval));
    assert!(validate_scan_settings(&mk("high", 721)) == Err(ScanSettingsError::InvalidInterval));
    assert!(validate_scan_settings(&mk("none", 720)).is_ok());
}

#[test]
fn gate_verdicts() {
    assert!(gate_active(true, true, "high"));
    assert!(!gate_active(true, true, "none"));
    assert!(!gate_active(true, false, "high"));
    assert_eq!(gate_verdict("high", None), GateVerdict::AllowAndScan);
    assert_eq!(gate_verdict("high", Some((0, 0, 5, 1, 1))), GateVerdict::Allow);
    assert_eq!(
        gate_verdict("medium", Some((0, 0, 5, 1, 1))),
        GateVerdict::Block { critical: 0, high: 0, medium: 5 }
    );
}

#[test]
fn blocked_deploy_is_refused_with_the_counts() {
    let (status, msg) = gate_refusal("high", 0, 2, 5, "nginx:1.25");
    assert_eq!(status, 422);
    assert_eq!(msg, "Deploy blocked by image scan gate (high): 0 critical / 2 high / 5 medium in nginx:1.25");
}
