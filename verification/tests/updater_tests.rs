use transcription_engine::updater::{
    check_for_updates, get_update_check_frequency, install_update, is_auto_update_enabled,
    set_auto_update_enabled, set_update_check_frequency,
};

#[test]
fn test_frequency_validation() {
    assert!(matches!(set_update_check_frequency("weekly".to_string()), Ok(())));
    assert!(matches!(set_update_check_frequency("invalid".to_string()), Err(_)));
}

#[test]
fn every_frequency_is_accepted_and_nothing_else() {
    for f in ["never", "daily", "weekly", "monthly"] {
        assert_eq!(set_update_check_frequency(f.to_string()), Ok(()));
    }
    for f in ["", "Weekly", "yearly", "weekly "] {
        assert_eq!(
            set_update_check_frequency(f.to_string()),
            Err("Invalid frequency. Must be: never, daily, weekly, or monthly".to_string())
        );
    }
    assert_eq!(get_update_check_frequency(), "weekly");
}

#[test]
fn no_update_is_found_or_installed() {
    let status = check_for_updates("1.0.0".to_string()).unwrap();
    assert!(!status.available);
    assert_eq!(status.current_version, "1.0.0");
    assert_eq!(status.latest_version, None);
    assert_eq!(status.download_url, None);
    assert_eq!(status.release_notes, None);
    assert!(!is_auto_update_enabled());
    assert_eq!(set_auto_update_enabled(true), Ok(()));
    assert_eq!(
        install_update("https://example.com/update".to_string()),
        Err("Update installation not implemented yet".to_string())
    );
}
