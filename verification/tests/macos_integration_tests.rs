use transcription_engine::cli::CommandOutcome;
use transcription_engine::error::ErrorKind;
use transcription_engine::macos_integration::{DockBadgeInfo, MacOSIntegration, NotificationOptions};
use transcription_engine::models::Percent;

#[test]
fn test_macos_integration_creation() {
    let integration = MacOSIntegration::new();
    assert!(integration.dock_badge_enabled);
    assert!(integration.menu_bar_enabled);
    assert!(integration.notifications_enabled);
}

#[test]
fn test_is_macos_detection() {
    // Only the desktop's own system keeps its version in this file.
    let on_macos = std::path::Path::new("/System/Library/CoreServices/SystemVersion.plist").exists();
    let is_macos = MacOSIntegration::is_macos(if on_macos { "macos" } else { "linux" });

    if on_macos {
        assert!(is_macos);
    } else {
        assert!(!is_macos);
    }
}

#[test]
fn test_dock_badge_info_creation() {
    let badge_info = DockBadgeInfo { count: Some(5), text: None, progress: None };

    assert_eq!(badge_info.count, Some(5));
    assert_eq!(badge_info.text, None);
    assert_eq!(badge_info.progress, None);
}

#[test]
fn test_notification_options_creation() {
    let options = NotificationOptions {
        title: "Test Title".to_string(),
        body: "Test Body".to_string(),
        sound: Some("default".to_string()),
        identifier: Some("test-id".to_string()),
    };

    assert_eq!(options.title, "Test Title");
    assert_eq!(options.body, "Test Body");
    assert_eq!(options.sound, Some("default".to_string()));
    assert_eq!(options.identifier, Some("test-id".to_string()));
}

#[test]
fn only_macos_is_macos() {
    assert!(MacOSIntegration::is_macos("macos"));
    assert!(!MacOSIntegration::is_macos("linux"));
    assert!(!MacOSIntegration::is_macos("windows"));
    assert!(!MacOSIntegration::is_macos("MacOS"));
    assert!(!MacOSIntegration::is_macos(""));
}

#[test]
fn the_default_uses_every_feature() {
    let integration = MacOSIntegration::default();
    assert_eq!(integration, MacOSIntegration::new());
}

#[test]
fn desktop_operations_succeed() {
    let integration = MacOSIntegration::new();
    let badge = DockBadgeInfo { count: Some(3), text: None, progress: Some(Percent::whole(50)) };
    assert!(integration.set_dock_badge(badge).is_ok());
    assert!(integration.clear_dock_badge().is_ok());
    assert!(integration.set_dock_progress(Some(Percent::whole(50))).is_ok());
    assert!(integration.set_dock_progress(None).is_ok());
    assert!(integration.clear_dock_progress().is_ok());
    assert!(integration.register_file_associations().is_ok());
    assert!(integration.verify_file_associations().is_ok());
    assert!(integration.set_as_default_handler().is_ok());
    assert!(integration.handle_file_opened("/path/to/test/audio.m4a".to_string()).is_ok());
    let options = NotificationOptions {
        title: String::new(),
        body: String::new(),
        sound: None,
        identifier: None,
    };
    assert!(integration.show_notification(options).is_ok());
}

#[test]
fn a_badge_shows_its_count_before_its_text() {
    let both = DockBadgeInfo { count: Some(12), text: Some("busy".to_string()), progress: None };
    assert_eq!(MacOSIntegration::badge_label(&both), Some("12".to_string()));
    let text = DockBadgeInfo { count: None, text: Some("busy".to_string()), progress: None };
    assert_eq!(MacOSIntegration::badge_label(&text), Some("busy".to_string()));
    let none = DockBadgeInfo { count: None, text: None, progress: None };
    assert_eq!(MacOSIntegration::badge_label(&none), None);
    let zero = DockBadgeInfo { count: Some(0), text: None, progress: None };
    assert_eq!(MacOSIntegration::badge_label(&zero), Some("0".to_string()));
}

#[test]
fn associations_follow_the_answers_of_the_desktop() {
    let integration = MacOSIntegration::new();
    let silent = integration.get_file_association_status(&Vec::new()).unwrap();
    assert_eq!(silent.len(), 5);
    let extensions: Vec<&str> = silent.iter().map(|s| s.extension.as_str()).collect();
    assert_eq!(extensions, vec!["m4a", "wav", "mp3", "aac", "flac"]);
    for status in &silent {
        assert!(!status.is_associated);
        assert!(status.current_handler.is_none());
    }
    let answers = vec![
        Some("Speech\n/Applications/Speech.app\ncom.yang-gyunam.speech-to-text\n".to_string()),
        Some("Music\ncom.apple.Music\n".to_string()),
        None,
        Some("com.yang-gyunam.speech-to-text".to_string()),
    ];
    let mixed = integration.get_file_association_status(&answers).unwrap();
    let flags: Vec<bool> = mixed.iter().map(|s| s.is_associated).collect();
    assert_eq!(flags, vec![true, false, false, true, false]);
}

#[test]
fn the_version_comes_from_the_tool() {
    let integration = MacOSIntegration::new();
    let e = integration.get_macos_version(None).unwrap_err();
    assert_eq!(e.kind(), ErrorKind::SystemError);
    assert_eq!(e.message(), "Not running on macOS");
    let ran = CommandOutcome::Finished {
        success: true,
        code: Some(0),
        stdout: "14.5\n".to_string(),
        stderr: String::new(),
    };
    assert_eq!(integration.get_macos_version(Some(&ran)).unwrap(), "14.5");
    let failed = CommandOutcome::NotRun("No such file".to_string());
    let e = integration.get_macos_version(Some(&failed)).unwrap_err();
    assert_eq!(e.message(), "Failed to get macOS version: No such file");
    let e = integration.get_macos_version(Some(&CommandOutcome::TimedOut)).unwrap_err();
    assert_eq!(e.message(), "Failed to get macOS version: timed out");
}
