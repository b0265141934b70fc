use transcription_engine::models::{
    is_supported_format, AppSettings, ModelSize, OutputFormat, Percent, ProcessingJob,
    ProcessingStage, Theme,
};

#[test]
fn test_default_settings() {
    let settings = AppSettings::default();
    assert_eq!(settings.language, "ko");
    assert!(matches!(settings.model_size, ModelSize::Base));
    assert!(settings.include_metadata);
    assert!(settings.auto_save);
}

#[test]
fn test_model_size_display() {
    assert_eq!(ModelSize::Base.to_string(), "base");
    assert_eq!(ModelSize::Large.to_string(), "large");
}

#[test]
fn models_test_supported_formats() {
    assert!(is_supported_format("m4a"));
    assert!(is_supported_format("M4A"));
    assert!(!is_supported_format("txt"));
}

#[test]
fn test_processing_stage_display() {
    assert_eq!(ProcessingStage::LoadingModel.to_string(), "Loading Model");
    assert_eq!(ProcessingStage::Transcribing.to_string(), "Transcribing");
}

#[test]
fn default_settings_for_a_given_home() {
    let settings = AppSettings::with_home(Some("/home/ada".to_string()));
    assert_eq!(settings.output_directory, "/home/ada/Documents");
    assert_eq!(settings.max_concurrent_jobs, 2);
    assert!(matches!(settings.theme, Theme::System));
    assert!(matches!(settings.output_format, OutputFormat::Txt));
    assert!(!settings.enable_gpu_acceleration);
    assert!(settings.memory_optimization);
    assert!(settings.enable_voice_activity_detection);
    assert!(!settings.noise_reduction);
    assert!(!settings.compact_mode);
    assert!(!settings.show_advanced_options);
    assert!(settings.enable_notifications);
    assert!(settings.auto_check_updates);
    let homeless = AppSettings::with_home(None);
    assert_eq!(homeless.output_directory, "Documents");
}

#[test]
fn every_model_size_and_stage_has_a_name() {
    assert_eq!(ModelSize::Tiny.to_string(), "tiny");
    assert_eq!(ModelSize::Small.to_string(), "small");
    assert_eq!(ModelSize::Medium.to_string(), "medium");
    assert_eq!(ProcessingStage::Initializing.to_string(), "Initializing");
    assert_eq!(ProcessingStage::Preprocessing.to_string(), "Preprocessing");
    assert_eq!(ProcessingStage::Postprocessing.to_string(), "Postprocessing");
    assert_eq!(ProcessingStage::Finalizing.to_string(), "Finalizing");
    assert_eq!(ProcessingStage::Saving.to_string(), "Saving");
}

#[test]
fn stages_are_ordered() {
    let stages = [
        ProcessingStage::Initializing,
        ProcessingStage::LoadingModel,
        ProcessingStage::Preprocessing,
        ProcessingStage::Transcribing,
        ProcessingStage::Postprocessing,
        ProcessingStage::Finalizing,
        ProcessingStage::Saving,
    ];
    for (i, s) in stages.iter().enumerate() {
        assert_eq!(s.position() as usize, i);
    }
}

#[test]
fn percent_is_clamped_and_shares_are_exact() {
    assert_eq!(Percent::whole(42), Percent { num: 42, den: 1 });
    assert_eq!(Percent::whole(100), Percent { num: 100, den: 1 });
    assert_eq!(Percent::whole(250), Percent { num: 100, den: 1 });
    assert_eq!(Percent::share(1, 3), Percent { num: 100, den: 3 });
    assert_eq!(Percent::share(0, 7), Percent { num: 0, den: 7 });
}

#[test]
fn a_started_job_is_fresh() {
    let job = ProcessingJob::start("job-1".to_string(), Vec::new(), 1_700_000_000_000);
    assert_eq!(job.id, "job-1");
    assert_eq!(job.current_file_index, 0);
    assert_eq!(job.progress, Percent { num: 0, den: 1 });
    assert_eq!(job.stage, ProcessingStage::Initializing);
    assert_eq!(job.start_time, 1_700_000_000_000);
    assert_eq!(job.estimated_completion, None);
    assert!(!job.is_cancelled);
    assert!(job.can_cancel);
    let copy = job.clone();
    assert_eq!(copy.id, "job-1");
}
