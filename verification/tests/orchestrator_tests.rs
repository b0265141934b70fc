use transcription_engine::cli::CliManager;
use transcription_engine::error::ErrorKind;
use transcription_engine::models::{AppSettings, AudioFile, FileStatus, ModelSize, Percent, ProcessingStage};
use transcription_engine::orchestrator::{JobEvent, JobState, StepOutcome, Transition};
use transcription_engine::resolver::{
    artifact_stem, expected_output_path, resolve_output, DirEntryInfo, DirListing,
};

const FILE: &str = "/audio/interview.m4a";
const NOW: i64 = 1_700_000_000_000;

fn step(manager: &CliManager, state: JobState, event: JobEvent) -> Transition {
    manager.step(state, &event, FILE, NOW, true)
}

fn failure(t: &Transition) -> (ErrorKind, String) {
    match &t.outcome {
        StepOutcome::Fail(e) => (e.kind(), e.message().clone()),
        other => panic!("no failure: {:?}", other),
    }
}

fn all_events() -> Vec<JobEvent> {
    vec![
        JobEvent::Launched,
        JobEvent::LaunchFailed("no".to_string()),
        JobEvent::StdoutMissing,
        JobEvent::StderrMissing,
        JobEvent::ReadersAttached,
        JobEvent::CancelRequested,
        JobEvent::TimeoutElapsed,
        JobEvent::WaitFailed("lost".to_string()),
        JobEvent::Exited { success: true, code: Some(0) },
        JobEvent::Exited { success: false, code: Some(2) },
        JobEvent::Exited { success: false, code: None },
    ]
}

#[test]
fn a_job_runs_from_launch_to_completion() {
    let manager = CliManager::new();
    let t = step(&manager, JobState::Initializing, JobEvent::Launched);
    assert_eq!(t.next, JobState::Spawned);
    assert!(!t.kill);
    assert!(matches!(t.outcome, StepOutcome::Continue));
    let first = t.emit.unwrap();
    assert_eq!(first.stage, ProcessingStage::Initializing);
    assert_eq!(first.progress, Percent { num: 0, den: 1 });
    assert_eq!(first.current_file.as_deref(), Some(FILE));
    assert_eq!(first.message.as_deref(), Some("Starting transcription..."));
    assert_eq!(first.timestamp, NOW);
    assert!(first.can_cancel);

    let t = step(&manager, t.next, JobEvent::ReadersAttached);
    assert_eq!(t.next, JobState::Monitoring);
    assert!(t.emit.is_none());
    assert!(matches!(t.outcome, StepOutcome::Continue));

    let t = step(&manager, t.next, JobEvent::Exited { success: true, code: Some(0) });
    assert_eq!(t.next, JobState::Completed);
    assert!(!t.kill);
    assert!(matches!(t.outcome, StepOutcome::Resolve));
    let last = t.emit.unwrap();
    assert_eq!(last.stage, ProcessingStage::Saving);
    assert_eq!(last.progress, Percent { num: 100, den: 1 });
    assert_eq!(last.message.as_deref(), Some("Transcription completed!"));
    assert!(!last.can_cancel);
}

#[test]
fn the_first_report_says_whether_the_job_can_be_cancelled() {
    let manager = CliManager::new();
    let t = manager.step(JobState::Initializing, &JobEvent::Launched, FILE, NOW, false);
    assert!(!t.emit.unwrap().can_cancel);
}

#[test]
fn a_cancellation_ends_every_running_job() {
    for manager in [CliManager::new(), CliManager::new_dev()] {
        for (state, kill) in [
            (JobState::Initializing, false),
            (JobState::Spawned, true),
            (JobState::Monitoring, true),
        ] {
            let t = step(&manager, state, JobEvent::CancelRequested);
            assert_eq!(t.next, JobState::Cancelled);
            assert!(t.next.terminal());
            assert_eq!(t.kill, kill);
            assert!(t.emit.is_none());
            assert_eq!(failure(&t), (ErrorKind::ProcessingError, "Processing was cancelled".to_string()));
        }
    }
}

#[test]
fn a_timeout_kills_the_worker() {
    let t = step(&CliManager::new(), JobState::Monitoring, JobEvent::TimeoutElapsed);
    assert_eq!(t.next, JobState::TimedOut);
    assert!(t.kill);
    assert_eq!(failure(&t), (ErrorKind::CliError, "Sidecar process timed out".to_string()));
    let t = step(&CliManager::new_dev(), JobState::Monitoring, JobEvent::TimeoutElapsed);
    assert_eq!(t.next, JobState::TimedOut);
    assert!(t.kill);
    assert_eq!(failure(&t), (ErrorKind::CliError, "CLI process timed out".to_string()));
}

#[test]
fn failures_carry_their_reason() {
    let packaged = CliManager::new();
    let dev = CliManager::new_dev();
    let t = step(&packaged, JobState::Initializing, JobEvent::LaunchFailed("No such file".to_string()));
    assert_eq!(t.next, JobState::Failed);
    assert!(!t.kill);
    assert_eq!(failure(&t).1, "Failed to spawn sidecar process: No such file");
    let t = step(&dev, JobState::Initializing, JobEvent::LaunchFailed("No such file".to_string()));
    assert_eq!(failure(&t).1, "Failed to spawn CLI process: No such file");

    let t = step(&packaged, JobState::Spawned, JobEvent::StdoutMissing);
    assert_eq!(t.next, JobState::Failed);
    assert!(t.kill);
    assert_eq!(failure(&t), (ErrorKind::CliError, "Failed to capture stdout".to_string()));
    let t = step(&packaged, JobState::Spawned, JobEvent::StderrMissing);
    assert_eq!(failure(&t).1, "Failed to capture stderr");

    let t = step(&packaged, JobState::Monitoring, JobEvent::WaitFailed("gone".to_string()));
    assert_eq!(t.next, JobState::Failed);
    assert_eq!(failure(&t).1, "Sidecar process failed: gone");
    let t = step(&dev, JobState::Monitoring, JobEvent::WaitFailed("gone".to_string()));
    assert_eq!(failure(&t).1, "CLI process failed: gone");

    let t = step(&packaged, JobState::Monitoring, JobEvent::Exited { success: false, code: Some(1) });
    assert_eq!(t.next, JobState::Failed);
    assert!(t.emit.is_none());
    assert_eq!(failure(&t), (ErrorKind::CliError, "CLI execution failed with exit code: Some(1)".to_string()));
    let t = step(&dev, JobState::Monitoring, JobEvent::Exited { success: false, code: Some(-9) });
    assert_eq!(failure(&t).1, "CLI execution failed with exit code: Some(-9)");
    let t = step(&dev, JobState::Monitoring, JobEvent::Exited { success: false, code: None });
    assert_eq!(failure(&t).1, "CLI execution failed with exit code: None");
    let t = step(&dev, JobState::Monitoring, JobEvent::Exited { success: false, code: Some(i32::MIN) });
    assert_eq!(failure(&t).1, format!("CLI execution failed with exit code: {:?}", Some(i32::MIN)));
}

#[test]
fn ended_jobs_take_no_step() {
    let manager = CliManager::new();
    for state in [JobState::Completed, JobState::Failed, JobState::Cancelled, JobState::TimedOut] {
        assert!(state.terminal());
        for event in all_events() {
            let t = step(&manager, state, event);
            assert_eq!(t.next, state);
            assert!(!t.kill);
            assert!(t.emit.is_none());
            assert!(matches!(t.outcome, StepOutcome::Continue));
        }
    }
    for state in [JobState::Initializing, JobState::Spawned, JobState::Monitoring] {
        assert!(!state.terminal());
    }
}

#[test]
fn events_out_of_turn_are_passed_over() {
    let manager = CliManager::new();
    let out_of_turn = vec![
        (JobState::Initializing, JobEvent::ReadersAttached),
        (JobState::Initializing, JobEvent::Exited { success: true, code: Some(0) }),
        (JobState::Initializing, JobEvent::TimeoutElapsed),
        (JobState::Spawned, JobEvent::Launched),
        (JobState::Spawned, JobEvent::Exited { success: true, code: Some(0) }),
        (JobState::Spawned, JobEvent::TimeoutElapsed),
        (JobState::Monitoring, JobEvent::Launched),
        (JobState::Monitoring, JobEvent::ReadersAttached),
        (JobState::Monitoring, JobEvent::StdoutMissing),
    ];
    for (state, event) in out_of_turn {
        let t = step(&manager, state, event);
        assert_eq!(t.next, state);
        assert!(!t.kill);
        assert!(t.emit.is_none());
        assert!(matches!(t.outcome, StepOutcome::Continue));
    }
}

#[test]
fn every_step_that_ends_a_job_says_how() {
    for manager in [CliManager::new(), CliManager::new_dev()] {
        for state in [JobState::Initializing, JobState::Spawned, JobState::Monitoring] {
            for event in all_events() {
                let t = step(&manager, state, event);
                match &t.outcome {
                    StepOutcome::Continue => assert!(!t.next.terminal()),
                    StepOutcome::Resolve => assert_eq!(t.next, JobState::Completed),
                    StepOutcome::Fail(_) => {
                        assert!(t.next.terminal());
                        assert_ne!(t.next, JobState::Completed);
                    }
                }
            }
        }
    }
}

#[test]
fn an_interview_is_transcribed_from_start_to_end() {
    let manager = CliManager::new_dev();
    let mut settings = AppSettings::with_home(Some("/home/ada".to_string()));
    settings.language = "en".to_string();
    settings.model_size = ModelSize::Base;
    let path = "/recordings/interview.m4a";

    let args = manager.prepare_launch(path, true, false, &settings).unwrap();
    assert_eq!(
        args,
        vec![path, "--language", "en", "--model-size", "base", "--include-metadata"]
    );

    let mut state = JobState::Initializing;
    let mut reports = Vec::new();
    let mut resolve = false;
    for event in [
        JobEvent::Launched,
        JobEvent::ReadersAttached,
        JobEvent::Exited { success: true, code: Some(0) },
    ] {
        let t = manager.step(state, &event, path, NOW, false);
        state = t.next;
        if let Some(r) = t.emit {
            reports.push(r);
        }
        resolve = matches!(t.outcome, StepOutcome::Resolve);
    }
    assert_eq!(state, JobState::Completed);
    assert!(resolve);
    assert_eq!(reports.len(), 2);

    // The worker wrote `interview_transcription.txt` into its directory.
    let work_dir = "/home/ada/.cache/SpeechToText";
    let stem = artifact_stem("interview.m4a");
    let expected = expected_output_path(work_dir, &stem);
    assert_eq!(expected, "/home/ada/.cache/SpeechToText/interview_transcription.txt");
    let listings = vec![DirListing {
        path: work_dir.to_string(),
        entries: Some(vec![DirEntryInfo { name: "interview_transcription.txt".to_string(), modified: 1 }]),
    }];
    let found = resolve_output(&expected, true, &listings, &stem).unwrap();
    assert_eq!(found, expected);
    let searched = resolve_output(&expected, false, &listings, &stem).unwrap();
    assert_eq!(searched, expected);

    let audio = AudioFile {
        id: "file-1".to_string(),
        name: "interview.m4a".to_string(),
        path: path.to_string(),
        size: 1234,
        format: "m4a".to_string(),
        duration_ms: None,
        status: FileStatus::Pending,
    };
    let result = manager.parse_cli_completion(
        "result-1".to_string(),
        audio,
        Ok("hello world".to_string()),
        found,
        1500,
        &settings,
        NOW,
    );
    assert_eq!(result.transcribed_text, "hello world");
    assert!(result.processing_time_ms > 0);
    assert_eq!(result.processing_time_ms, 1500);
    assert_eq!(result.id, "result-1");
    assert_eq!(result.original_file.name, "interview.m4a");
    assert_eq!(result.output_path, expected);
    assert_eq!(result.metadata.language, "en");
    assert_eq!(result.metadata.model_size, "base");
    assert_eq!(result.metadata.timestamp, NOW);
    assert_eq!(result.metadata.audio_info.duration_ms, 0);
    assert_eq!(result.metadata.audio_info.sample_rate, None);
    assert_eq!(result.metadata.audio_info.channels, None);
    assert_eq!(result.confidence, None);
}

fn run_all(manager: &CliManager, start: JobState, events: &[usize]) -> (JobState, usize) {
    let all = all_events();
    let mut state = start;
    let mut endings = 0;
    for &i in events {
        let t = step(manager, state, all_events().swap_remove(i));
        state = t.next;
        if !matches!(t.outcome, StepOutcome::Continue) {
            endings += 1;
        }
    }
    assert!(events.iter().all(|&i| i < all.len()));
    (state, endings)
}

#[test]
fn a_job_tells_its_end_once() {
    let manager = CliManager::new();
    let n = all_events().len();
    for start in [JobState::Initializing, JobState::Spawned, JobState::Monitoring] {
        for a in 0..n {
            for b in 0..n {
                for c in 0..n {
                    for d in 0..n {
                        let (state, endings) = run_all(&manager, start, &[a, b, c, d]);
                        assert!(endings <= 1);
                        assert_eq!(endings == 1, state.terminal());
                    }
                }
            }
        }
    }
}

#[test]
fn a_cancellation_wins_against_what_follows() {
    let manager = CliManager::new_dev();
    let n = all_events().len();
    let cancel = all_events().iter().position(|e| matches!(e, JobEvent::CancelRequested)).unwrap();
    for start in [JobState::Initializing, JobState::Spawned, JobState::Monitoring] {
        for a in 0..n {
            for b in 0..n {
                let (state, _) = run_all(&manager, start, &[cancel, a, b]);
                assert_eq!(state, JobState::Cancelled);
            }
        }
    }
    // The worker may end well right after the cancellation: the job stays cancelled.
    let t = step(&manager, JobState::Monitoring, JobEvent::CancelRequested);
    let t = step(&manager, t.next, JobEvent::Exited { success: true, code: Some(0) });
    assert_eq!(t.next, JobState::Cancelled);
    assert!(t.emit.is_none());
    assert!(matches!(t.outcome, StepOutcome::Continue));
}
