//! The coordinator of a batch: the files of a list are transcribed one after
//! the other, and a file that fails does not end the batch.

use crate::error::{display_prefix, AppResult, ErrorKind};
use crate::models::{
    Percent, ProcessingProgress, ProcessingStage, ProgressView, ResultView, TranscriptionResult,
};
use crate::text::{decimal_digits, decimal_string, opt_text, texts};
use vstd::prelude::*;
use vstd::string::*;

verus! {

/// Where a batch stands.
#[derive(Debug, Clone, Copy, PartialEq, Eq, Structural)]
pub enum BatchPhase {
    /// Between two files, or before the first.
    Ready,
    /// A file is being transcribed.
    Running,
    /// The batch was cancelled.
    Cancelled,
    /// Every file has had its turn.
    Completed,
}

/// A file of a batch that failed, with the error as the user reads it.
#[derive(Debug)]
pub struct FileFailure {
    pub file_path: String,
    pub error: String,
}

/// A failure with its texts as sequences of characters.
pub struct FailureView {
    pub file_path: Seq<char>,
    pub error: Seq<char>,
}

impl View for FileFailure {
    type V = FailureView;

    open spec fn view(&self) -> FailureView {
        FailureView { file_path: self.file_path@, error: self.error@ }
    }
}

impl Clone for FileFailure {
    fn clone(&self) -> (r: FileFailure)
        ensures
            r@ == self@,
    {
        FileFailure { file_path: self.file_path.clone(), error: self.error.clone() }
    }
}

/// What the coordinator asks of its caller.
#[derive(Debug)]
pub enum BatchAction {
    /// Hand the report to the sink and the registry, then transcribe the
    /// file at this place of the list.
    RunFile { index: usize, progress: ProcessingProgress },
    /// Tell the listeners that the batch was cancelled, and drop the job.
    ReportCancelled,
    /// Tell the listeners that the batch is done, and drop the job.
    ReportCompleted { total_files: usize, successful: usize },
    /// Nothing: the batch has ended, or a file is being transcribed.
    Idle,
}

/// An action with its texts as sequences of characters.
pub enum BatchActionView {
    RunFile { index: usize, progress: ProgressView },
    ReportCancelled,
    ReportCompleted { total_files: usize, successful: usize },
    Idle,
}

impl View for BatchAction {
    type V = BatchActionView;

    open spec fn view(&self) -> BatchActionView {
        match self {
            BatchAction::RunFile { index, progress } => BatchActionView::RunFile {
                index: *index,
                progress: progress@,
            },
            BatchAction::ReportCancelled => BatchActionView::ReportCancelled,
            BatchAction::ReportCompleted { total_files, successful } => {
                BatchActionView::ReportCompleted {
                    total_files: *total_files,
                    successful: *successful,
                }
            },
            BatchAction::Idle => BatchActionView::Idle,
        }
    }
}

/// What came of noting the outcome of a file.
#[derive(Debug)]
pub struct Recorded {
    /// The failure to tell the listeners of, where the file failed.
    pub failure: Option<FileFailure>,
    /// The batch was found cancelled: tell the listeners, and drop the job.
    pub cancelled: bool,
}

/// One batch: its files, how far it has come, and what it has produced.
#[derive(Debug)]
pub struct BatchRun {
    pub job_id: Option<String>,
    pub files: Vec<String>,
    pub index: usize,
    pub results: Vec<TranscriptionResult>,
    pub failures: Vec<FileFailure>,
    pub phase: BatchPhase,
}

/// A batch with its texts as sequences of characters.
pub struct BatchView {
    pub job_id: Option<Seq<char>>,
    pub files: Seq<Seq<char>>,
    pub index: usize,
    pub results: Seq<ResultView>,
    pub failures: Seq<FailureView>,
    pub phase: BatchPhase,
}

/// The views of a list of results.
pub open spec fn result_views(results: Seq<TranscriptionResult>) -> Seq<ResultView> {
    results.map_values(|r: TranscriptionResult| r@)
}

/// The views of a list of failures.
pub open spec fn failure_views(failures: Seq<FileFailure>) -> Seq<FailureView> {
    failures.map_values(|f: FileFailure| f@)
}

impl View for BatchRun {
    type V = BatchView;

    open spec fn view(&self) -> BatchView {
        BatchView {
            job_id: opt_text(self.job_id),
            files: texts(self.files@),
            index: self.index,
            results: result_views(self.results@),
            failures: failure_views(self.failures@),
            phase: self.phase,
        }
    }
}

impl BatchView {
    /// Each file before the current one has a result or a failure, a file
    /// that is being transcribed is on the list, and a completed batch has
    /// gone through the list.
    pub open spec fn wf(self) -> bool {
        &&& self.index <= self.files.len() <= usize::MAX
        &&& self.results.len() + self.failures.len() == self.index
        &&& self.phase == BatchPhase::Running ==> self.index < self.files.len()
        &&& self.phase == BatchPhase::Completed ==> self.index == self.files.len()
    }
}

/// The report that goes before file `index` of `total`: the share of the
/// files that are done, and which file is next.
pub open spec fn batch_report(
    index: usize,
    total: usize,
    file: Seq<char>,
    job_id: Option<Seq<char>>,
    timestamp: i64,
) -> ProgressView {
    ProgressView {
        stage: ProcessingStage::Initializing,
        progress: Percent { num: (100 * index) as u128, den: total as u128 },
        current_file: Some(file),
        timestamp,
        message: Some(
            "Processing file "@ + decimal_digits((index + 1) as nat) + " of "@ + decimal_digits(
                total as nat,
            ),
        ),
        job_id,
        file_index: Some(index),
        total_files: Some(total),
        can_cancel: true,
    }
}

/// Makes the report that goes before a file of a batch.
pub fn batch_progress(
    index: usize,
    total: usize,
    file: &str,
    job_id: &Option<String>,
    timestamp: i64,
) -> (r: ProcessingProgress)
    requires
        index < total,
    ensures
        r@ == batch_report(index, total, file@, opt_text(*job_id), timestamp),
        r.progress.wf(),
{
    let mut message = String::from_str("Processing file ");
    message.append(decimal_string((index + 1) as u128).as_str());
    message.append(" of ");
    message.append(decimal_string(total as u128).as_str());
    ProcessingProgress {
        stage: ProcessingStage::Initializing,
        progress: Percent::share(index, total),
        current_file: Some(String::from_str(file)),
        timestamp,
        message: Some(message),
        job_id: match job_id {
            Some(j) => Some(j.clone()),
            None => None,
        },
        file_index: Some(index),
        total_files: Some(total),
        can_cancel: true,
    }
}

/// The batch after the coordinator was asked what to do next, and what it
/// answered. Only a batch that is `Ready` moves: it is completed where the
/// list is at its end, cancelled where a cancellation was asked for, and
/// else runs the next file.
pub open spec fn advanced(b: BatchView, cancelled: bool, timestamp: i64) -> (
    BatchView,
    BatchActionView,
) {
    if b.phase != BatchPhase::Ready {
        (b, BatchActionView::Idle)
    } else if b.index >= b.files.len() {
        (
            BatchView { phase: BatchPhase::Completed, ..b },
            BatchActionView::ReportCompleted {
                total_files: b.files.len() as usize,
                successful: b.results.len() as usize,
            },
        )
    } else if cancelled {
        (BatchView { phase: BatchPhase::Cancelled, ..b }, BatchActionView::ReportCancelled)
    } else {
        (
            BatchView { phase: BatchPhase::Running, ..b },
            BatchActionView::RunFile {
                index: b.index,
                progress: batch_report(
                    b.index,
                    b.files.len() as usize,
                    b.files[b.index as int],
                    b.job_id,
                    timestamp,
                ),
            },
        )
    }
}

/// The outcome of a file as the contracts speak of it.
pub open spec fn file_outcome(r: AppResult<TranscriptionResult>) -> Result<
    ResultView,
    (ErrorKind, Seq<char>),
> {
    match r {
        Ok(v) => Ok(v@),
        Err(e) => Err(e@),
    }
}

/// The failure that is noted for a file that ended with an error.
pub open spec fn failure_of(file: Seq<char>, error: (ErrorKind, Seq<char>)) -> FailureView {
    FailureView { file_path: file, error: display_prefix(error.0) + error.1 }
}

/// The batch after the outcome of the running file was noted: a result is
/// added to the results and an error to the failures, and the batch is ready
/// for the next file, or cancelled where its job is gone from the registry.
pub open spec fn recorded(
    b: BatchView,
    outcome: Result<ResultView, (ErrorKind, Seq<char>)>,
    job_present: bool,
) -> BatchView {
    if b.phase != BatchPhase::Running || b.index >= b.files.len() {
        b
    } else {
        BatchView {
            index: (b.index + 1) as usize,
            results: match outcome {
                Ok(r) => b.results.push(r),
                Err(_) => b.results,
            },
            failures: match outcome {
                Ok(_) => b.failures,
                Err(e) => b.failures.push(failure_of(b.files[b.index as int], e)),
            },
            phase: if job_present {
                BatchPhase::Ready
            } else {
                BatchPhase::Cancelled
            },
            ..b
        }
    }
}

impl BatchRun {
    /// A batch that has not begun.
    pub fn new(job_id: Option<String>, files: Vec<String>) -> (b: BatchRun)
        ensures
            b@.wf(),
            b@ == (BatchView {
                job_id: opt_text(job_id),
                files: texts(files@),
                index: 0,
                results: Seq::empty(),
                failures: Seq::empty(),
                phase: BatchPhase::Ready,
            }),
    {
        let b = BatchRun {
            job_id,
            files,
            index: 0,
            results: Vec::new(),
            failures: Vec::new(),
            phase: BatchPhase::Ready,
        };
        assert(b@.results =~= Seq::empty());
        assert(b@.failures =~= Seq::empty());
        assert(b@.files.len() == b.files.len());
        b
    }

    /// Says what to do next. `cancelled` tells whether the cancellation token
    /// of the batch has fired.
    pub fn advance(&mut self, cancelled: bool, timestamp: i64) -> (action: BatchAction)
        requires
            old(self)@.wf(),
        ensures
            final(self)@.wf(),
            (final(self)@, action@) == advanced(old(self)@, cancelled, timestamp),
    {
        match self.phase {
            BatchPhase::Ready => {},
            _ => {
                return BatchAction::Idle;
            },
        }
        if self.index >= self.files.len() {
            self.phase = BatchPhase::Completed;
            return BatchAction::ReportCompleted {
                total_files: self.files.len(),
                successful: self.results.len(),
            };
        }
        if cancelled {
            self.phase = BatchPhase::Cancelled;
            return BatchAction::ReportCancelled;
        }
        self.phase = BatchPhase::Running;
        let progress = batch_progress(
            self.index,
            self.files.len(),
            self.files[self.index].as_str(),
            &self.job_id,
            timestamp,
        );
        BatchAction::RunFile { index: self.index, progress }
    }

    /// Notes the outcome of the file that was run. `job_present` tells
    /// whether the registry still holds the job of the batch.
    pub fn record(&mut self, outcome: AppResult<TranscriptionResult>, job_present: bool) -> (r:
        Recorded)
        requires
            old(self)@.wf(),
        ensures
            final(self)@.wf(),
            final(self)@ == recorded(old(self)@, file_outcome(outcome), job_present),
            r.cancelled == (old(self)@.phase == BatchPhase::Running && !job_present),
            match r.failure {
                Some(f) => old(self)@.phase == BatchPhase::Running && outcome is Err && f@
                    == failure_of(old(self)@.files[old(self)@.index as int], outcome->Err_0@),
                None => !(old(self)@.phase == BatchPhase::Running && outcome is Err),
            },
    {
        match self.phase {
            BatchPhase::Running => {},
            _ => {
                return Recorded { failure: None, cancelled: false };
            },
        }
        let ghost before = self@;
        assert(self.index < self.files.len());
        let failure = match outcome {
            Ok(result) => {
                self.results.push(result);
                assert(result_views(self.results@) =~= before.results.push(result@));
                None
            },
            Err(e) => {
                let f = FileFailure {
                    file_path: self.files[self.index].clone(),
                    error: e.to_string(),
                };
                let copy = f.clone();
                self.failures.push(f);
                assert(failure_views(self.failures@) =~= before.failures.push(
                    failure_of(before.files[before.index as int], e@),
                ));
                Some(copy)
            },
        };
        self.index = self.index + 1;
        self.phase = if job_present {
            BatchPhase::Ready
        } else {
            BatchPhase::Cancelled
        };
        Recorded { failure, cancelled: !job_present }
    }

    /// Whether the batch has ended, by completion or by cancellation.
    pub fn is_finished(&self) -> (r: bool)
        ensures
            r == (self@.phase == BatchPhase::Completed || self@.phase == BatchPhase::Cancelled),
    {
        match self.phase {
            BatchPhase::Completed | BatchPhase::Cancelled => true,
            _ => false,
        }
    }

    /// What the batch gives back to its caller: the results of the files
    /// that were transcribed, in the order of the list.
    pub fn into_results(self) -> (r: Vec<TranscriptionResult>)
        ensures
            result_views(r@) == self@.results,
    {
        self.results
    }
}

/// The results among the outcomes of a run of files, in their order.
pub open spec fn successes(outcomes: Seq<Result<ResultView, (ErrorKind, Seq<char>)>>) -> Seq<
    ResultView,
>
    decreases outcomes.len(),
{
    if outcomes.len() == 0 {
        Seq::empty()
    } else {
        match outcomes.last() {
            Ok(r) => successes(outcomes.drop_last()).push(r),
            Err(_) => successes(outcomes.drop_last()),
        }
    }
}

/// A batch that nobody cancels, after its next files ended with the given
/// outcomes, one after the other.
pub open spec fn after_files(
    b: BatchView,
    outcomes: Seq<Result<ResultView, (ErrorKind, Seq<char>)>>,
    timestamp: i64,
) -> BatchView
    decreases outcomes.len(),
{
    if outcomes.len() == 0 {
        b
    } else {
        let earlier = after_files(b, outcomes.drop_last(), timestamp);
        recorded(advanced(earlier, false, timestamp).0, outcomes.last(), true)
    }
}

/// A failed file does not end a batch: a batch that nobody cancels goes
/// through its whole list whatever comes of each file, and ends completed
/// with the results of exactly those files that were transcribed, in the
/// order of the list.
pub proof fn lemma_batch_survives_failures(
    b: BatchView,
    outcomes: Seq<Result<ResultView, (ErrorKind, Seq<char>)>>,
    timestamp: i64,
)
    requires
        b.wf(),
        b.phase == BatchPhase::Ready,
        b.index + outcomes.len() <= b.files.len(),
    ensures
        after_files(b, outcomes, timestamp).wf(),
        after_files(b, outcomes, timestamp).phase == BatchPhase::Ready,
        after_files(b, outcomes, timestamp).index == b.index + outcomes.len(),
        after_files(b, outcomes, timestamp).files == b.files,
        after_files(b, outcomes, timestamp).results == b.results + successes(outcomes),
        b.index + outcomes.len() == b.files.len() ==> {
            let end = advanced(after_files(b, outcomes, timestamp), false, timestamp);
            &&& end.0.phase == BatchPhase::Completed
            &&& end.0.results == b.results + successes(outcomes)
            &&& end.1 == BatchActionView::ReportCompleted {
                total_files: b.files.len() as usize,
                successful: (b.results + successes(outcomes)).len() as usize,
            }
        },
    decreases outcomes.len(),
{
    if outcomes.len() == 0 {
        assert(b.results + successes(outcomes) =~= b.results);
    } else {
        lemma_batch_survives_failures(b, outcomes.drop_last(), timestamp);
        let earlier = after_files(b, outcomes.drop_last(), timestamp);
        let now = after_files(b, outcomes, timestamp);
        match outcomes.last() {
            Ok(r) => {
                assert(now.results =~= b.results + successes(outcomes));
            },
            Err(_) => {
                assert(now.results =~= b.results + successes(outcomes));
            },
        }
    }
}

} // verus!
