use transcription_engine::batch::{batch_progress, BatchAction, BatchPhase, BatchRun};
use transcription_engine::cli::CliManager;
use transcription_engine::error::{AppError, AppResult};
use transcription_engine::models::{
    AppSettings, AudioFile, FileStatus, Percent, ProcessingStage, TranscriptionResult,
};

const NOW: i64 = 1_700_000_000_000;

fn result_for(path: &str) -> TranscriptionResult {
    let audio = AudioFile {
        id: format!("file:{}", path),
        name: path.to_string(),
        path: path.to_string(),
        size: 1,
        format: "m4a".to_string(),
        duration_ms: None,
        status: FileStatus::Pending,
    };
    CliManager::new().parse_cli_completion(
        format!("result:{}", path),
        audio,
        Ok(format!("text of {}", path)),
        format!("/work/{}_transcription.txt", path),
        10,
        &AppSettings::with_home(None),
        NOW,
    )
}

fn files(names: &[&str]) -> Vec<String> {
    names.iter().map(|n| n.to_string()).collect()
}

/// Runs a batch to its end; `outcome` says what comes of each file.
fn run(batch: &mut BatchRun, outcome: &dyn Fn(usize, &str) -> AppResult<TranscriptionResult>) -> Vec<String> {
    let mut log = Vec::new();
    loop {
        match batch.advance(false, NOW) {
            BatchAction::RunFile { index, progress } => {
                log.push(format!("run {} {}", index, progress.message.clone().unwrap()));
                let path = batch.files[index].clone();
                let recorded = batch.record(outcome(index, &path), true);
                assert!(!recorded.cancelled);
                if let Some(f) = recorded.failure {
                    log.push(format!("failed {} {}", f.file_path, f.error));
                }
            }
            BatchAction::ReportCompleted { total_files, successful } => {
                log.push(format!("completed {} of {}", successful, total_files));
                return log;
            }
            BatchAction::ReportCancelled => {
                log.push("cancelled".to_string());
                return log;
            }
            BatchAction::Idle => panic!("a batch that is ready has something to do"),
        }
    }
}

#[test]
fn a_failed_file_does_not_end_the_batch() {
    let mut batch = BatchRun::new(None, files(&["one.m4a", "two.m4a", "three.m4a"]));
    let log = run(&mut batch, &|index, path| {
        if index == 1 {
            Err(AppError::CliError("CLI execution failed with exit code: Some(1)".to_string()))
        } else {
            Ok(result_for(path))
        }
    });
    assert_eq!(
        log,
        vec![
            "run 0 Processing file 1 of 3",
            "run 1 Processing file 2 of 3",
            "failed two.m4a CLI execution failed: CLI execution failed with exit code: Some(1)",
            "run 2 Processing file 3 of 3",
            "completed 2 of 3",
        ]
    );
    assert_eq!(batch.phase, BatchPhase::Completed);
    assert!(batch.is_finished());
    assert_eq!(batch.failures.len(), 1);
    assert_eq!(batch.failures[0].file_path, "two.m4a");
    let results = batch.into_results();
    assert_eq!(results.len(), 2);
    assert_eq!(results[0].transcribed_text, "text of one.m4a");
    assert_eq!(results[1].transcribed_text, "text of three.m4a");
}

#[test]
fn a_batch_of_failures_completes_with_nothing() {
    let mut batch = BatchRun::new(Some("job-1".to_string()), files(&["a", "b"]));
    let log = run(&mut batch, &|_, _| Err(AppError::FileNotFound("x".to_string())));
    assert_eq!(log.last().unwrap(), "completed 0 of 2");
    assert_eq!(batch.failures.len(), 2);
    assert!(batch.into_results().is_empty());
}

#[test]
fn an_empty_batch_completes_at_once() {
    let mut batch = BatchRun::new(None, Vec::new());
    assert!(matches!(
        batch.advance(false, NOW),
        BatchAction::ReportCompleted { total_files: 0, successful: 0 }
    ));
    assert_eq!(batch.phase, BatchPhase::Completed);
    // Even a cancelled token does not cancel a batch that has nothing left.
    let mut batch = BatchRun::new(None, Vec::new());
    assert!(matches!(batch.advance(true, NOW), BatchAction::ReportCompleted { .. }));
}

#[test]
fn reports_go_before_each_file() {
    let job = Some("job-7".to_string());
    let p = batch_progress(1, 4, "/a/two.m4a", &job, NOW);
    assert_eq!(p.stage, ProcessingStage::Initializing);
    assert_eq!(p.progress, Percent { num: 100, den: 4 });
    assert_eq!(p.current_file.as_deref(), Some("/a/two.m4a"));
    assert_eq!(p.timestamp, NOW);
    assert_eq!(p.message.as_deref(), Some("Processing file 2 of 4"));
    assert_eq!(p.job_id.as_deref(), Some("job-7"));
    assert_eq!(p.file_index, Some(1));
    assert_eq!(p.total_files, Some(4));
    assert!(p.can_cancel);
    let p = batch_progress(0, 1, "x", &None, NOW);
    assert_eq!(p.progress, Percent { num: 0, den: 1 });
    assert_eq!(p.job_id, None);
    let p = batch_progress(2, 3, "x", &None, NOW);
    assert_eq!(p.progress, Percent { num: 200, den: 3 });

    let mut batch = BatchRun::new(job, files(&["/a/one.m4a", "/a/two.m4a"]));
    match batch.advance(false, NOW) {
        BatchAction::RunFile { index, progress } => {
            assert_eq!(index, 0);
            assert_eq!(progress.current_file.as_deref(), Some("/a/one.m4a"));
            assert_eq!(progress.job_id.as_deref(), Some("job-7"));
            assert_eq!(progress.progress, Percent { num: 0, den: 2 });
        }
        other => panic!("{:?}", other),
    }
    assert_eq!(batch.phase, BatchPhase::Running);
}

#[test]
fn a_cancelled_token_stops_the_batch_before_the_next_file() {
    let mut batch = BatchRun::new(None, files(&["a", "b", "c"]));
    assert!(matches!(batch.advance(false, NOW), BatchAction::RunFile { index: 0, .. }));
    let recorded = batch.record(Ok(result_for("a")), true);
    assert!(!recorded.cancelled && recorded.failure.is_none());
    assert!(matches!(batch.advance(true, NOW), BatchAction::ReportCancelled));
    assert_eq!(batch.phase, BatchPhase::Cancelled);
    assert!(batch.is_finished());
    assert!(matches!(batch.advance(false, NOW), BatchAction::Idle));
    assert_eq!(batch.index, 1);
    assert_eq!(batch.into_results().len(), 1);
}

#[test]
fn a_job_that_left_the_registry_cancels_the_batch() {
    let mut batch = BatchRun::new(Some("job".to_string()), files(&["a", "b"]));
    assert!(matches!(batch.advance(false, NOW), BatchAction::RunFile { index: 0, .. }));
    let recorded = batch.record(Err(AppError::ProcessingError("Processing was cancelled".to_string())), false);
    assert!(recorded.cancelled);
    let failure = recorded.failure.unwrap();
    assert_eq!(failure.file_path, "a");
    assert_eq!(failure.error, "Processing failed: Processing was cancelled");
    assert_eq!(batch.phase, BatchPhase::Cancelled);
    assert!(matches!(batch.advance(false, NOW), BatchAction::Idle));
}

#[test]
fn outcomes_out_of_turn_are_dropped() {
    let mut batch = BatchRun::new(None, files(&["a"]));
    let recorded = batch.record(Ok(result_for("a")), true);
    assert!(recorded.failure.is_none() && !recorded.cancelled);
    assert_eq!(batch.index, 0);
    assert_eq!(batch.phase, BatchPhase::Ready);
    assert!(!batch.is_finished());
    assert!(matches!(batch.advance(false, NOW), BatchAction::RunFile { index: 0, .. }));
    // While a file runs there is nothing else to do.
    assert!(matches!(batch.advance(false, NOW), BatchAction::Idle));
    assert_eq!(batch.phase, BatchPhase::Running);
}
