use transcription_engine::clock::current_timestamp;
use transcription_engine::commands::{
    binary_payload, collect_audio_files, estimate_batch_processing_time, is_cached_transcript,
    output_cache_directory, output_cache_in, payload_from_decoded, save_target,
    validate_batch_requirements, validate_multiple_files,
};
use transcription_engine::error::{AppError, AppResult, ErrorKind};
use transcription_engine::models::{AudioFile, FileStatus};

fn audio(name: &str, size: u64) -> AudioFile {
    AudioFile {
        id: format!("id-{}", name),
        name: name.to_string(),
        path: format!("/in/{}", name),
        size,
        format: "m4a".to_string(),
        duration_ms: None,
        status: FileStatus::Pending,
    }
}

fn checked() -> Vec<AppResult<AudioFile>> {
    vec![
        Ok(audio("a.m4a", 10)),
        Err(AppError::UnsupportedFormat("No file extension found".to_string())),
        Ok(audio("c.m4a", 32)),
        Err(AppError::FileNotFound("File not found: /in/d.m4a".to_string())),
    ]
}

#[test]
fn base64_content_is_decoded() {
    assert_eq!(binary_payload("aGVsbG8gd29ybGQ=", true).unwrap(), b"hello world".to_vec());
    assert_eq!(binary_payload("", true).unwrap(), Vec::<u8>::new());
    assert_eq!(binary_payload("AAEC/w==", true).unwrap(), vec![0u8, 1, 2, 255]);
    // Content that is not base64 is written as it is.
    assert_eq!(binary_payload("aGVsbG8gd29ybGQ=", false).unwrap(), b"aGVsbG8gd29ybGQ=".to_vec());
    assert_eq!(binary_payload("안녕", false).unwrap(), "안녕".as_bytes().to_vec());
    let e = binary_payload("not base64!", true).unwrap_err();
    assert_eq!(e.kind(), ErrorKind::ProcessingError);
    assert!(e.message().starts_with("Base64 decode error: "));
    assert!(e.message().len() > "Base64 decode error: ".len());
}

#[test]
fn decoded_content_is_passed_on() {
    assert_eq!(payload_from_decoded(Ok(vec![1, 2, 3])).unwrap(), vec![1, 2, 3]);
    let e = payload_from_decoded(Err("Invalid padding".to_string())).unwrap_err();
    assert_eq!(e.to_string(), "Processing failed: Base64 decode error: Invalid padding");
}

#[test]
fn saving_needs_a_place() {
    assert_eq!(save_target(Some("/docs/a.bin".to_string())).unwrap(), "/docs/a.bin");
    let e = save_target(None).unwrap_err();
    assert_eq!(e.kind(), ErrorKind::FileNotFound);
    assert_eq!(e.message(), "Save cancelled by user");
}

#[test]
fn transcripts_in_the_cache_are_recognized() {
    assert!(is_cached_transcript("talk_transcription.txt"));
    assert!(is_cached_transcript("talk_transcription_202401010000.txt"));
    assert!(is_cached_transcript("_transcription.txt"));
    assert!(!is_cached_transcript("talk_transcription.srt"));
    assert!(!is_cached_transcript("talk transcription.txt"));
    assert!(!is_cached_transcript("talk.txt"));
    assert!(!is_cached_transcript(""));
}

#[test]
fn a_batch_is_expected_to_take_thirty_seconds_a_file() {
    assert_eq!(estimate_batch_processing_time(0), 0);
    assert_eq!(estimate_batch_processing_time(1), 30);
    assert_eq!(estimate_batch_processing_time(7), 210);
    assert_eq!(estimate_batch_processing_time(usize::MAX), 30 * (usize::MAX as u128));
}

#[test]
fn accepted_files_are_kept_in_their_order() {
    let kept = validate_multiple_files(&checked());
    let names: Vec<&str> = kept.iter().map(|f| f.name.as_str()).collect();
    assert_eq!(names, vec!["a.m4a", "c.m4a"]);
    assert!(validate_multiple_files(&Vec::new()).is_empty());
    let none = validate_multiple_files(&vec![Err(AppError::IoError("x".to_string()))]);
    assert!(none.is_empty());
}

#[test]
fn a_batch_starts_only_with_all_its_files() {
    let e = collect_audio_files(&checked()).unwrap_err();
    assert_eq!(e.kind(), ErrorKind::UnsupportedFormat);
    assert_eq!(e.message(), "No file extension found");
    let all = collect_audio_files(&vec![Ok(audio("a.m4a", 1)), Ok(audio("b.m4a", 2))]).unwrap();
    let names: Vec<&str> = all.iter().map(|f| f.name.as_str()).collect();
    assert_eq!(names, vec!["a.m4a", "b.m4a"]);
    assert!(collect_audio_files(&Vec::new()).unwrap().is_empty());
}

#[test]
fn the_checks_before_a_batch_are_summed_up() {
    let paths: Vec<String> = ["/in/a.m4a", "/in/b", "/in/c.m4a", "/in/d.m4a"].iter().map(|s| s.to_string()).collect();
    let r = validate_batch_requirements(&Ok(()), &paths, &checked());
    let names: Vec<&str> = r.valid_files.iter().map(|f| f.name.as_str()).collect();
    assert_eq!(names, vec!["a.m4a", "c.m4a"]);
    assert_eq!(r.total_size, 42);
    assert_eq!(r.estimated_output_size, 2048);
    assert!(r.can_proceed);
    assert!(r.warnings.is_empty());
    let invalid: Vec<(&str, &str)> = r
        .invalid_files
        .iter()
        .map(|f| (f.file_path.as_str(), f.error_message.as_str()))
        .collect();
    assert_eq!(
        invalid,
        vec![
            ("/in/b", "Unsupported file format: No file extension found"),
            ("/in/d.m4a", "File not found: File not found: /in/d.m4a"),
        ]
    );

    let bad = Err(AppError::IoError("Directory does not exist: /out".to_string()));
    let r = validate_batch_requirements(&bad, &paths, &checked());
    assert!(!r.can_proceed);
    assert_eq!(r.warnings, vec!["Output directory issue: IO error: Directory does not exist: /out"]);
    assert_eq!(r.valid_files.len(), 2);

    let r = validate_batch_requirements(&bad, &Vec::new(), &Vec::new());
    assert!(!r.can_proceed);
    assert_eq!(
        r.warnings,
        vec![
            "Output directory issue: IO error: Directory does not exist: /out",
            "No valid audio files found",
        ]
    );
    assert_eq!((r.total_size, r.estimated_output_size), (0, 0));

    let r = validate_batch_requirements(&Ok(()), &Vec::new(), &Vec::new());
    assert!(!r.can_proceed);
    assert_eq!(r.warnings, vec!["No valid audio files found"]);
}

#[test]
fn the_clock_goes_on() {
    let before = chrono::Utc::now().timestamp_millis();
    let now = current_timestamp();
    let after = chrono::Utc::now().timestamp_millis();
    assert!(before <= now && now <= after);
    assert!(now > 1_600_000_000_000);
}

#[test]
fn the_output_cache_lies_below_the_cache_directory() {
    assert_eq!(
        output_cache_in(&Some("/home/a/.cache".to_string())).unwrap(),
        "/home/a/.cache/SpeechToText/output"
    );
    let e = output_cache_in(&None).unwrap_err();
    assert_eq!(e.kind(), ErrorKind::ProcessingError);
    assert_eq!(e.message(), "Could not find cache directory");
    match dirs::cache_dir() {
        Some(c) => assert_eq!(
            output_cache_directory().unwrap(),
            c.join("SpeechToText").join("output").to_string_lossy()
        ),
        None => assert!(output_cache_directory().is_err()),
    }
}
