use tempfile::TempDir;
use transcription_engine::error::ErrorKind;
use transcription_engine::models::{AppSettings, ModelSize, Theme};
use transcription_engine::settings::{
    apply_update, load_step, parse_model_size, parse_theme, storage_error, update_settings_field,
    DirectoryProbe, FieldValue, LoadStep, SettingsManager, SettingsUpdate, SettingsValidator,
    StorageStep,
};

#[test]
fn test_validate_language_code() {
    assert!(SettingsValidator::validate_language_code("en").is_ok());
    assert!(SettingsValidator::validate_language_code("ko").is_ok());
    assert!(SettingsValidator::validate_language_code("zh-CN").is_ok());

    assert!(SettingsValidator::validate_language_code("").is_err());
    assert!(SettingsValidator::validate_language_code("x").is_err());
    assert!(SettingsValidator::validate_language_code("toolong").is_err());
}

#[test]
fn test_validate_directory_path() {
    if std::path::MAIN_SEPARATOR == '/' {
        assert!(SettingsValidator::validate_directory_path("/tmp").is_ok());
        assert!(SettingsValidator::validate_directory_path("relative/path").is_err());
    } else {
        assert!(SettingsValidator::validate_directory_path("C:\\temp").is_ok());
        assert!(SettingsValidator::validate_directory_path("relative\\path").is_err());
    }

    assert!(SettingsValidator::validate_directory_path("").is_err());
}

#[test]
fn test_config_exists() {
    let temp_dir = TempDir::new().unwrap();
    let config_path = temp_dir.path().join("test_settings.json");
    let manager = SettingsManager::with_config_path(config_path);
    assert!(!manager.config_exists());
}

#[test]
fn config_path_is_kept_and_found() {
    let temp_dir = TempDir::new().unwrap();
    let file = tempfile::Builder::new()
        .prefix("settings.json")
        .rand_bytes(0)
        .tempfile_in(temp_dir.path())
        .unwrap();
    let manager = SettingsManager::with_config_path(file.path().to_path_buf());
    assert_eq!(manager.get_config_path(), &file.path().to_path_buf());
    assert!(manager.config_exists());
}

#[test]
fn default_manager_keeps_settings_below_the_config_directory() {
    let manager = SettingsManager::in_config_dir(&Some("/home/ada/.config".to_string())).unwrap();
    assert_eq!(
        manager.get_config_path().to_string_lossy(),
        "/home/ada/.config/speech-to-text-gui/settings.json"
    );
    let err = match SettingsManager::in_config_dir(&None) {
        Ok(_) => panic!("a manager without a configuration directory"),
        Err(e) => e,
    };
    assert_eq!(err.kind(), ErrorKind::ConfigError);
    assert_eq!(err.message(), "Could not determine config directory");
    if let Some(dir) = dirs::config_dir() {
        let found = SettingsManager::new().unwrap();
        assert_eq!(
            found.get_config_path(),
            &dir.join("speech-to-text-gui").join("settings.json")
        );
    }
}

#[test]
fn language_code_errors_say_why() {
    let blank = SettingsValidator::validate_language_code("   ").unwrap_err();
    assert_eq!(blank.to_string(), "Configuration error: Language code cannot be empty");
    let short = SettingsValidator::validate_language_code("x").unwrap_err();
    assert_eq!(short.to_string(), "Configuration error: Language code should be 2-5 characters long");
    // The length is counted in bytes: two Korean letters take six.
    assert!(SettingsValidator::validate_language_code("한국").is_err());
    assert!(SettingsValidator::validate_language_code("abcde").is_ok());
    assert!(SettingsValidator::validate_language_code("abcdef").is_err());
}

#[test]
fn directory_path_errors_say_why() {
    let blank = SettingsValidator::validate_directory_path(" \t").unwrap_err();
    assert_eq!(blank.message(), "Directory path cannot be empty");
    let relative = SettingsValidator::validate_directory_path("relative").unwrap_err();
    assert_eq!(relative.kind(), ErrorKind::ConfigError);
    assert_eq!(relative.message(), "Output directory should be an absolute path");
}

#[test]
fn every_model_size_and_theme_is_valid() {
    assert!(SettingsValidator::validate_model_size(&ModelSize::Tiny).is_ok());
    assert!(SettingsValidator::validate_model_size(&ModelSize::Large).is_ok());
    assert!(SettingsValidator::validate_theme(&Theme::Dark).is_ok());
}

#[test]
fn settings_are_checked_against_the_directory_probe() {
    let manager = SettingsManager::with_config_path(std::path::PathBuf::from("/tmp/settings.json"));
    let mut settings = AppSettings::with_home(Some("/home/ada".to_string()));
    assert!(manager.validate_settings(&settings, &DirectoryProbe::Directory).is_ok());
    assert!(manager.validate_settings(&settings, &DirectoryProbe::Created).is_ok());
    let e = manager.validate_settings(&settings, &DirectoryProbe::NotDirectory).unwrap_err();
    assert_eq!(e.kind(), ErrorKind::ConfigError);
    assert_eq!(e.message(), "Output path '/home/ada/Documents' exists but is not a directory");
    let e = manager
        .validate_settings(&settings, &DirectoryProbe::CreateFailed("Permission denied".to_string()))
        .unwrap_err();
    assert_eq!(e.message(), "Cannot create output directory '/home/ada/Documents': Permission denied");
    settings.language = "  ".to_string();
    let e = manager.validate_settings(&settings, &DirectoryProbe::NotDirectory).unwrap_err();
    assert_eq!(e.message(), "Language cannot be empty");
}

#[test]
fn updates_change_one_setting() {
    let mut settings = AppSettings::with_home(None);
    apply_update(&mut settings, SettingsUpdate::Language("ja".to_string()));
    assert_eq!(settings.language, "ja");
    apply_update(&mut settings, SettingsUpdate::AutoSave(false));
    assert!(!settings.auto_save);
    apply_update(&mut settings, SettingsUpdate::ModelSize(ModelSize::Large));
    assert_eq!(settings.model_size, ModelSize::Large);
    apply_update(&mut settings, SettingsUpdate::Theme(Theme::Dark));
    assert_eq!(settings.theme, Theme::Dark);
    apply_update(&mut settings, SettingsUpdate::IncludeMetadata(false));
    assert!(!settings.include_metadata);
    apply_update(&mut settings, SettingsUpdate::OutputDirectory("/out".to_string()));
    assert_eq!(settings.output_directory, "/out");
    assert_eq!(settings.max_concurrent_jobs, 2);
}

#[test]
fn fields_are_updated_by_name() {
    let mut settings = AppSettings::with_home(None);
    update_settings_field(&mut settings, "language", &FieldValue::Text("en".to_string()));
    assert_eq!(settings.language, "en");
    update_settings_field(&mut settings, "model_size", &FieldValue::Text("large".to_string()));
    assert_eq!(settings.model_size, ModelSize::Large);
    update_settings_field(&mut settings, "theme", &FieldValue::Text("dark".to_string()));
    assert_eq!(settings.theme, Theme::Dark);
    update_settings_field(&mut settings, "include_metadata", &FieldValue::Flag(false));
    assert!(!settings.include_metadata);
    update_settings_field(&mut settings, "auto_save", &FieldValue::Flag(false));
    assert!(!settings.auto_save);
    update_settings_field(&mut settings, "output_directory", &FieldValue::Text("/o".to_string()));
    assert_eq!(settings.output_directory, "/o");
    // A value of the wrong kind, a word that names nothing, and an unknown
    // field change nothing.
    update_settings_field(&mut settings, "language", &FieldValue::Flag(true));
    assert_eq!(settings.language, "en");
    update_settings_field(&mut settings, "model_size", &FieldValue::Text("huge".to_string()));
    assert_eq!(settings.model_size, ModelSize::Large);
    update_settings_field(&mut settings, "auto_save", &FieldValue::Other);
    assert!(!settings.auto_save);
    update_settings_field(&mut settings, "volume", &FieldValue::Text("11".to_string()));
    assert_eq!(settings.language, "en");
}

#[test]
fn words_name_sizes_and_themes() {
    assert_eq!(parse_model_size("tiny"), Some(ModelSize::Tiny));
    assert_eq!(parse_model_size("base"), Some(ModelSize::Base));
    assert_eq!(parse_model_size("small"), Some(ModelSize::Small));
    assert_eq!(parse_model_size("medium"), Some(ModelSize::Medium));
    assert_eq!(parse_model_size("Large"), None);
    assert_eq!(parse_theme("light"), Some(Theme::Light));
    assert_eq!(parse_theme("system"), Some(Theme::System));
    assert_eq!(parse_theme(""), None);
}

#[test]
fn the_checks_of_the_settings_come_in_their_order() {
    let manager = SettingsManager::with_config_path(std::path::PathBuf::from("/tmp/settings.json"));
    let mut settings = AppSettings::with_home(None);
    assert!(manager.validate_language(&settings).is_ok());
    assert!(manager.validate_output_directory("/out", &DirectoryProbe::Directory).is_ok());
    assert!(manager.validate_output_directory("/out", &DirectoryProbe::Created).is_ok());
    let e = manager.validate_output_directory("/out", &DirectoryProbe::NotDirectory).unwrap_err();
    assert_eq!(e.message(), "Output path '/out' exists but is not a directory");
    settings.language = "\t".to_string();
    let e = manager.validate_language(&settings).unwrap_err();
    assert_eq!(e.to_string(), "Configuration error: Language cannot be empty");
}

#[test]
fn failures_of_the_storage_say_which_step_failed() {
    let want = [
        (StorageStep::ReadFile, "Failed to read config file: x"),
        (StorageStep::ParseFile, "Failed to parse config file: x"),
        (StorageStep::CreateDirectory, "Failed to create config directory: x"),
        (StorageStep::Serialize, "Failed to serialize settings: x"),
        (StorageStep::WriteFile, "Failed to write config file: x"),
        (StorageStep::Export, "Failed to export settings: x"),
        (StorageStep::ReadImport, "Failed to read import file: x"),
        (StorageStep::ParseImport, "Failed to parse import file: x"),
    ];
    for (step, message) in want {
        let e = storage_error(step, "x");
        assert_eq!(e.kind(), ErrorKind::ConfigError);
        assert_eq!(e.message(), message);
    }
    assert_eq!(load_step(true), LoadStep::ReadFile);
    assert_eq!(load_step(false), LoadStep::WriteDefaults);
}

#[test]
fn the_config_path_is_given_as_text() {
    let manager = SettingsManager::with_config_path(std::path::PathBuf::from("/etc/app/settings.json"));
    assert_eq!(manager.config_path_text(), "/etc/app/settings.json");
    let manager = SettingsManager::in_config_dir(&Some("/c".to_string())).unwrap();
    assert_eq!(manager.config_path_text(), "/c/speech-to-text-gui/settings.json");
}
