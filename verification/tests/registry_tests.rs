use tokio_util::sync::CancellationToken;
use transcription_engine::models::{
    Percent, ProcessingJob, ProcessingProgress, ProcessingStage,
};
use transcription_engine::registry::BatchProcessingManager;

fn job(id: &str) -> ProcessingJob {
    ProcessingJob::start(id.to_string(), Vec::new(), 1_700_000_000_000)
}

fn report(stage: ProcessingStage, percent: u128) -> ProcessingProgress {
    ProcessingProgress {
        stage,
        progress: Percent::whole(percent),
        current_file: None,
        timestamp: 0,
        message: None,
        job_id: None,
        file_index: None,
        total_files: None,
        can_cancel: true,
    }
}

fn runtime() -> tokio::runtime::Runtime {
    tokio::runtime::Builder::new_current_thread().enable_all().build().unwrap()
}

#[test]
fn a_new_registry_is_empty() {
    let manager = BatchProcessingManager::new();
    assert!(manager.get_job("a").is_none());
    assert!(manager.get_active_jobs().is_empty());
}

#[test]
fn jobs_are_registered_and_found() {
    let mut manager = BatchProcessingManager::new();
    manager.add_job(job("a"));
    manager.add_job(job("b"));
    assert_eq!(manager.get_job("a").unwrap().id, "a");
    assert_eq!(manager.get_job("b").unwrap().id, "b");
    assert!(manager.get_job("c").is_none());
    let mut ids: Vec<String> = manager.get_active_jobs().iter().map(|j| j.id.clone()).collect();
    ids.sort();
    assert_eq!(ids, vec!["a", "b"]);
}

#[test]
fn a_job_registered_twice_is_held_once() {
    let mut manager = BatchProcessingManager::new();
    manager.add_job(job("a"));
    let mut later = job("a");
    later.current_file_index = 4;
    manager.add_job(later);
    assert_eq!(manager.get_active_jobs().len(), 1);
    assert_eq!(manager.get_job("a").unwrap().current_file_index, 4);
}

#[test]
fn progress_is_noted_in_the_job() {
    let mut manager = BatchProcessingManager::new();
    manager.add_job(job("a"));
    manager.add_job(job("b"));
    manager.update_job_progress("a", report(ProcessingStage::Transcribing, 40));
    let a = manager.get_job("a").unwrap();
    assert_eq!(a.stage, ProcessingStage::Transcribing);
    assert_eq!(a.progress, Percent { num: 40, den: 1 });
    assert_eq!(a.start_time, 1_700_000_000_000);
    assert!(!a.is_cancelled);
    let b = manager.get_job("b").unwrap();
    assert_eq!(b.stage, ProcessingStage::Initializing);
    assert_eq!(b.progress, Percent { num: 0, den: 1 });
    // Progress of a job that is not registered is dropped.
    manager.update_job_progress("c", report(ProcessingStage::Saving, 100));
    assert!(manager.get_job("c").is_none());
    assert_eq!(manager.get_active_jobs().len(), 2);
}

#[test]
fn cancelling_triggers_the_token_of_the_job() {
    let mut manager = BatchProcessingManager::new();
    let token_a = CancellationToken::new();
    let token_b = CancellationToken::new();
    manager.add_job(job("a"));
    manager.add_job(job("b"));
    manager.add_cancellation_token("a".to_string(), token_a.clone());
    manager.add_cancellation_token("b".to_string(), token_b.clone());

    assert!(manager.cancel_job("a"));
    assert!(token_a.is_cancelled());
    assert!(manager.get_job("a").unwrap().is_cancelled);

    // The other job is left alone.
    assert!(!token_b.is_cancelled());
    let b = manager.get_job("b").unwrap();
    assert!(!b.is_cancelled);
    assert_eq!(b.stage, ProcessingStage::Initializing);

    // Cancelling again finds the token again.
    assert!(manager.cancel_job("a"));
    assert!(token_a.is_cancelled());
    assert!(!token_b.is_cancelled());
}

#[test]
fn cancelling_says_whether_a_token_was_held() {
    let mut manager = BatchProcessingManager::new();
    manager.add_job(job("a"));
    // A job without a token is marked, and the answer is no.
    assert!(!manager.cancel_job("a"));
    assert!(manager.get_job("a").unwrap().is_cancelled);
    // A token without a job is triggered, and the answer is yes.
    let token = CancellationToken::new();
    manager.add_cancellation_token("ghost".to_string(), token.clone());
    assert!(manager.cancel_job("ghost"));
    assert!(token.is_cancelled());
    assert!(manager.get_job("ghost").is_none());
    assert!(!manager.cancel_job("nobody"));
}

#[test]
fn a_token_registered_twice_replaces_the_first() {
    let mut manager = BatchProcessingManager::new();
    let first = CancellationToken::new();
    let second = CancellationToken::new();
    manager.add_cancellation_token("a".to_string(), first.clone());
    manager.add_cancellation_token("a".to_string(), second.clone());
    assert!(manager.cancel_job("a"));
    assert!(!first.is_cancelled());
    assert!(second.is_cancelled());
}

#[test]
fn removing_stops_the_task_and_triggers_the_token() {
    let rt = runtime();
    rt.block_on(async {
        let mut manager = BatchProcessingManager::new();
        let token_a = CancellationToken::new();
        let token_b = CancellationToken::new();
        let (watch_a, done_a) = tokio::sync::oneshot::channel::<()>();
        let (watch_b, mut done_b) = tokio::sync::oneshot::channel::<()>();
        let task_a = tokio::spawn(async move {
            let _keep = watch_a;
            std::future::pending::<()>().await;
        });
        let task_b = tokio::spawn(async move {
            let _keep = watch_b;
            std::future::pending::<()>().await;
        });
        manager.add_job(job("a"));
        manager.add_job(job("b"));
        manager.add_cancellation_token("a".to_string(), token_a.clone());
        manager.add_cancellation_token("b".to_string(), token_b.clone());
        manager.add_job_handle("a".to_string(), task_a);
        manager.add_job_handle("b".to_string(), task_b);

        manager.remove_job("a");
        assert!(manager.get_job("a").is_none());
        assert!(token_a.is_cancelled());
        // The task of the job was stopped: what it held is dropped.
        assert!(done_a.await.is_err());
        // The token is gone with the job.
        assert!(!manager.cancel_job("a"));

        // The other job is left alone.
        assert!(manager.get_job("b").is_some());
        assert!(!token_b.is_cancelled());
        tokio::task::yield_now().await;
        assert!(done_b.try_recv().is_err());
        assert!(matches!(
            done_b.try_recv(),
            Err(tokio::sync::oneshot::error::TryRecvError::Empty)
        ));

        // Removing again changes nothing.
        manager.remove_job("a");
        assert!(manager.get_job("a").is_none());
        assert_eq!(manager.get_active_jobs().len(), 1);
        manager.remove_job("b");
        assert!(token_b.is_cancelled());
        assert!(manager.get_active_jobs().is_empty());
    });
}

#[test]
fn many_jobs_keep_apart() {
    let mut manager = BatchProcessingManager::new();
    for i in 0..50 {
        manager.add_job(job(&format!("job-{}", i)));
    }
    for i in (0..50).step_by(2) {
        manager.remove_job(&format!("job-{}", i));
    }
    for i in 0..50 {
        assert_eq!(manager.get_job(&format!("job-{}", i)).is_some(), i % 2 == 1);
    }
    manager.update_job_progress("job-7", report(ProcessingStage::Saving, 100));
    assert_eq!(manager.get_job("job-7").unwrap().stage, ProcessingStage::Saving);
    assert_eq!(manager.get_job("job-9").unwrap().stage, ProcessingStage::Initializing);
    assert_eq!(manager.get_active_jobs().len(), 25);
}
