use mic_bridge::vmic::{
    classify_service_query, find_vmic_endpoint, initialize, is_vmic_endpoint_name,
    test_signing_enabled, DriverServiceState,
};

#[test]
fn service_query_classification() {
    let (s, label) = classify_service_query("OpenService FAILED 1060", false);
    assert_eq!(s, DriverServiceState::NotFound);
    assert_eq!(label, "not installed");

    let (s, _) = classify_service_query("The specified service does not exist.", false);
    assert_eq!(s, DriverServiceState::NotFound);

    let (s, label) = classify_service_query("STATE : 4 RUNNING", true);
    assert_eq!(s, DriverServiceState::Running);
    assert_eq!(label, "running");

    let (s, label) = classify_service_query("STATE : 1 STOPPED", true);
    assert_eq!(s, DriverServiceState::Stopped);
    assert_eq!(label, "installed but not running");

    let (s, _) = classify_service_query("STATE : 3 STOP PENDING", true);
    assert_eq!(s, DriverServiceState::Stopped);

    let (s, label) = classify_service_query("something else", true);
    assert_eq!(s, DriverServiceState::Unknown);
    assert_eq!(label, "registered (state unknown)");

    let (s, label) = classify_service_query("", false);
    assert_eq!(s, DriverServiceState::Unknown);
    assert_eq!(label, "query failed (check administrator rights)");
}

#[test]
fn test_signing_needs_both_markers() {
    assert!(test_signing_enabled("testsigning Yes"));
    assert!(test_signing_enabled("TESTSIGNING\nYes"));
    assert!(!test_signing_enabled("testsigning No"));
    assert!(!test_signing_enabled("yes"));
}

#[test]
fn initialize_reports_a_detected_endpoint() {
    let s = initialize(
        Some("WMC Virtual Mic".to_string()),
        "running",
        Some(true),
    );
    assert_eq!(s.backend, "windows-kernel-driver");
    assert!(s.ready);
    assert_eq!(
        s.detail,
        "virtual microphone capture endpoint detected: WMC Virtual Mic; driver service: running; test signing: enabled"
    );
}

#[test]
fn initialize_reports_a_missing_endpoint() {
    let s = initialize(None, "not installed", None);
    assert!(!s.ready);
    assert_eq!(
        s.detail,
        "no virtual microphone capture endpoint detected; driver service: not installed; test signing: unknown"
    );
}

#[test]
fn vmic_endpoint_is_found_by_any_known_spelling() {
    assert!(is_vmic_endpoint_name("Windows Mic Ctrl Virtual Mic (WDM)"));
    assert!(is_vmic_endpoint_name("wmc virtual mic"));
    assert!(!is_vmic_endpoint_name("USB Microphone"));
    let names = vec![
        "USB Microphone".to_string(),
        "WMC Virtual Mic".to_string(),
        "Line In".to_string(),
    ];
    assert_eq!(find_vmic_endpoint(&names).as_deref(), Some("WMC Virtual Mic"));
    let none = vec!["USB Microphone".to_string()];
    assert_eq!(find_vmic_endpoint(&none), None);
}
