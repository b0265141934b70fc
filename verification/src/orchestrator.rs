//! The course of one job, from the launch of the worker to its end, as a
//! state machine: the caller reports what happened, and the machine says what
//! to do.

use crate::cli::{exit_code_string, exit_code_text, CliManager};
use crate::error::{AppError, ErrorKind};
use crate::models::{Percent, ProcessingProgress, ProcessingStage, ProgressView};
use crate::progress::opt_progress;
use vstd::prelude::*;
use vstd::string::*;

verus! {

/// Where the work on one file stands.
#[derive(Debug, Clone, Copy, PartialEq, Eq, Structural)]
pub enum JobState {
    /// The worker is not started yet.
    Initializing,
    /// The worker runs; nobody reads its output yet.
    Spawned,
    /// The worker runs and its output is read.
    Monitoring,
    /// The worker ended well.
    Completed,
    /// The worker could not be started, or was lost, or ended badly.
    Failed,
    /// The job was cancelled.
    Cancelled,
    /// The worker did not end in time.
    TimedOut,
}

impl JobState {
    /// The work has ended, one way or another.
    pub open spec fn is_terminal(self) -> bool {
        self == JobState::Completed || self == JobState::Failed || self == JobState::Cancelled
            || self == JobState::TimedOut
    }

    /// Whether the work has ended.
    pub fn terminal(&self) -> (r: bool)
        ensures
            r == self.is_terminal(),
    {
        match self {
            JobState::Completed => true,
            JobState::Failed => true,
            JobState::Cancelled => true,
            JobState::TimedOut => true,
            _ => false,
        }
    }

    /// A worker was started and has not been seen to end.
    pub open spec fn has_child(self) -> bool {
        self == JobState::Spawned || self == JobState::Monitoring
    }
}

/// What can happen to a job.
#[derive(Debug)]
pub enum JobEvent {
    /// The launcher started the worker.
    Launched,
    /// The launcher could not start the worker; the text says why.
    LaunchFailed(String),
    /// The worker's standard output could not be captured.
    StdoutMissing,
    /// The worker's standard error could not be captured.
    StderrMissing,
    /// The readers of the worker's output are at work.
    ReadersAttached,
    /// The cancellation token fired.
    CancelRequested,
    /// The time that the job may take is over.
    TimeoutElapsed,
    /// Waiting for the worker failed; the text says why.
    WaitFailed(String),
    /// The worker ended.
    Exited { success: bool, code: Option<i32> },
}

/// An event with its texts as sequences of characters.
pub enum JobEventView {
    Launched,
    LaunchFailed(Seq<char>),
    StdoutMissing,
    StderrMissing,
    ReadersAttached,
    CancelRequested,
    TimeoutElapsed,
    WaitFailed(Seq<char>),
    Exited { success: bool, code: Option<i32> },
}

impl View for JobEvent {
    type V = JobEventView;

    open spec fn view(&self) -> JobEventView {
        match self {
            JobEvent::Launched => JobEventView::Launched,
            JobEvent::LaunchFailed(m) => JobEventView::LaunchFailed(m@),
            JobEvent::StdoutMissing => JobEventView::StdoutMissing,
            JobEvent::StderrMissing => JobEventView::StderrMissing,
            JobEvent::ReadersAttached => JobEventView::ReadersAttached,
            JobEvent::CancelRequested => JobEventView::CancelRequested,
            JobEvent::TimeoutElapsed => JobEventView::TimeoutElapsed,
            JobEvent::WaitFailed(m) => JobEventView::WaitFailed(m@),
            JobEvent::Exited { success, code } => JobEventView::Exited {
                success: *success,
                code: *code,
            },
        }
    }
}

/// What is left to do after a step.
#[derive(Debug)]
pub enum StepOutcome {
    /// The job goes on; wait for the next event.
    Continue,
    /// The worker ended well: look for the transcript.
    Resolve,
    /// The job has failed: report the error.
    Fail(AppError),
}

/// What is left to do, with the error as the contracts speak of it.
pub enum StepOutcomeView {
    Continue,
    Resolve,
    Fail((ErrorKind, Seq<char>)),
}

impl View for StepOutcome {
    type V = StepOutcomeView;

    open spec fn view(&self) -> StepOutcomeView {
        match self {
            StepOutcome::Continue => StepOutcomeView::Continue,
            StepOutcome::Resolve => StepOutcomeView::Resolve,
            StepOutcome::Fail(e) => StepOutcomeView::Fail(e@),
        }
    }
}

/// One step of a job: the state after it, whether the worker is to be
/// killed, the report to hand to the sink, and what is left to do.
#[derive(Debug)]
pub struct Transition {
    pub next: JobState,
    pub kill: bool,
    pub emit: Option<ProcessingProgress>,
    pub outcome: StepOutcome,
}

/// A step with its texts as sequences of characters.
pub struct TransitionView {
    pub next: JobState,
    pub kill: bool,
    pub emit: Option<ProgressView>,
    pub outcome: StepOutcomeView,
}

impl View for Transition {
    type V = TransitionView;

    open spec fn view(&self) -> TransitionView {
        TransitionView {
            next: self.next,
            kill: self.kill,
            emit: opt_progress(self.emit),
            outcome: self.outcome@,
        }
    }
}

/// The report with which a job begins.
pub open spec fn first_report(file: Seq<char>, timestamp: i64, can_cancel: bool) -> ProgressView {
    ProgressView {
        stage: ProcessingStage::Initializing,
        progress: Percent { num: 0, den: 1 },
        current_file: Some(file),
        timestamp,
        message: Some("Starting transcription..."@),
        job_id: None,
        file_index: None,
        total_files: None,
        can_cancel,
    }
}

/// The report with which a job ends well.
pub open spec fn last_report(file: Seq<char>, timestamp: i64) -> ProgressView {
    ProgressView {
        stage: ProcessingStage::Saving,
        progress: Percent { num: 100, den: 1 },
        current_file: Some(file),
        timestamp,
        message: Some("Transcription completed!"@),
        job_id: None,
        file_index: None,
        total_files: None,
        can_cancel: false,
    }
}

/// The word for the worker in a message.
pub open spec fn worker_word(packaged: bool, at_start: bool) -> Seq<char> {
    if packaged {
        if at_start {
            "Sidecar"@
        } else {
            "sidecar"@
        }
    } else {
        "CLI"@
    }
}

/// A step that changes nothing.
pub open spec fn stay(state: JobState) -> TransitionView {
    TransitionView { next: state, kill: false, emit: None, outcome: StepOutcomeView::Continue }
}

/// A step that ends the job with an error.
pub open spec fn fail(next: JobState, kill: bool, kind: ErrorKind, message: Seq<char>)
    -> TransitionView {
    TransitionView { next, kill, emit: None, outcome: StepOutcomeView::Fail((kind, message)) }
}

/// The step that an event makes in a state. `packaged` says which worker is
/// at work, `file` is the file of the job, `timestamp` the time of the step,
/// and `can_cancel` says whether the job has a cancellation token.
///
/// A job that has ended takes no further step. A cancellation ends every job
/// that has not ended, and kills the worker where one was started. Before
/// the launch only its success or failure counts; between the launch and the
/// readers only the readers and lost streams; the end of the worker, a
/// failed wait and the timeout count while the output is read.
pub open spec fn transition(
    packaged: bool,
    state: JobState,
    event: JobEventView,
    file: Seq<char>,
    timestamp: i64,
    can_cancel: bool,
) -> TransitionView {
    if state.is_terminal() {
        stay(state)
    } else if event is CancelRequested {
        fail(
            JobState::Cancelled,
            state.has_child(),
            ErrorKind::ProcessingError,
            "Processing was cancelled"@,
        )
    } else if state == JobState::Initializing {
        match event {
            JobEventView::Launched => TransitionView {
                next: JobState::Spawned,
                kill: false,
                emit: Some(first_report(file, timestamp, can_cancel)),
                outcome: StepOutcomeView::Continue,
            },
            JobEventView::LaunchFailed(m) => fail(
                JobState::Failed,
                false,
                ErrorKind::CliError,
                "Failed to spawn "@ + worker_word(packaged, false) + " process: "@ + m,
            ),
            _ => stay(state),
        }
    } else if state == JobState::Spawned {
        match event {
            JobEventView::ReadersAttached => TransitionView {
                next: JobState::Monitoring,
                kill: false,
                emit: None,
                outcome: StepOutcomeView::Continue,
            },
            JobEventView::StdoutMissing => fail(
                JobState::Failed,
                true,
                ErrorKind::CliError,
                "Failed to capture stdout"@,
            ),
            JobEventView::StderrMissing => fail(
                JobState::Failed,
                true,
                ErrorKind::CliError,
                "Failed to capture stderr"@,
            ),
            _ => stay(state),
        }
    } else {
        match event {
            JobEventView::TimeoutElapsed => fail(
                JobState::TimedOut,
                true,
                ErrorKind::CliError,
                worker_word(packaged, true) + " process timed out"@,
            ),
            JobEventView::WaitFailed(m) => fail(
                JobState::Failed,
                false,
                ErrorKind::CliError,
                worker_word(packaged, true) + " process failed: "@ + m,
            ),
            JobEventView::Exited { success, code } => if success {
                TransitionView {
                    next: JobState::Completed,
                    kill: false,
                    emit: Some(last_report(file, timestamp)),
                    outcome: StepOutcomeView::Resolve,
                }
            } else {
                fail(
                    JobState::Failed,
                    false,
                    ErrorKind::CliError,
                    "CLI execution failed with exit code: "@ + exit_code_text(code),
                )
            },
            _ => stay(state),
        }
    }
}

fn staying(state: JobState) -> (t: Transition)
    ensures
        t@ == stay(state),
{
    Transition { next: state, kill: false, emit: None, outcome: StepOutcome::Continue }
}

fn failing(next: JobState, kill: bool, error: AppError) -> (t: Transition)
    ensures
        t@ == fail(next, kill, error@.0, error@.1),
{
    Transition { next, kill, emit: None, outcome: StepOutcome::Fail(error) }
}

impl CliManager {
    /// Makes the step that an event asks for.
    pub fn step(
        &self,
        state: JobState,
        event: &JobEvent,
        file: &str,
        timestamp: i64,
        can_cancel: bool,
    ) -> (t: Transition)
        ensures
            t@ == transition(self.packaged(), state, event@, file@, timestamp, can_cancel),
    {
        let packaged = self.uses_sidecar();
        if state.terminal() {
            return staying(state);
        }
        if let JobEvent::CancelRequested = event {
            let had_child = match state {
                JobState::Spawned | JobState::Monitoring => true,
                _ => false,
            };
            return failing(
                JobState::Cancelled,
                had_child,
                AppError::ProcessingError(String::from_str("Processing was cancelled")),
            );
        }
        match state {
            JobState::Initializing => match event {
                JobEvent::Launched => Transition {
                    next: JobState::Spawned,
                    kill: false,
                    emit: Some(
                        ProcessingProgress {
                            stage: ProcessingStage::Initializing,
                            progress: Percent::whole(0),
                            current_file: Some(String::from_str(file)),
                            timestamp,
                            message: Some(String::from_str("Starting transcription...")),
                            job_id: None,
                            file_index: None,
                            total_files: None,
                            can_cancel,
                        },
                    ),
                    outcome: StepOutcome::Continue,
                },
                JobEvent::LaunchFailed(m) => {
                    let mut text = String::from_str("Failed to spawn ");
                    text.append(if packaged { "sidecar" } else { "CLI" });
                    text.append(" process: ");
                    text.append(m.as_str());
                    assert(text@ =~= "Failed to spawn "@ + worker_word(packaged, false)
                        + " process: "@ + m@);
                    failing(JobState::Failed, false, AppError::CliError(text))
                },
                _ => staying(state),
            },
            JobState::Spawned => match event {
                JobEvent::ReadersAttached => Transition {
                    next: JobState::Monitoring,
                    kill: false,
                    emit: None,
                    outcome: StepOutcome::Continue,
                },
                JobEvent::StdoutMissing => failing(
                    JobState::Failed,
                    true,
                    AppError::CliError(String::from_str("Failed to capture stdout")),
                ),
                JobEvent::StderrMissing => failing(
                    JobState::Failed,
                    true,
                    AppError::CliError(String::from_str("Failed to capture stderr")),
                ),
                _ => staying(state),
            },
            _ => match event {
                JobEvent::TimeoutElapsed => {
                    let mut text = String::from_str(if packaged { "Sidecar" } else { "CLI" });
                    text.append(" process timed out");
                    failing(JobState::TimedOut, true, AppError::CliError(text))
                },
                JobEvent::WaitFailed(m) => {
                    let mut text = String::from_str(if packaged { "Sidecar" } else { "CLI" });
                    text.append(" process failed: ");
                    text.append(m.as_str());
                    assert(text@ =~= worker_word(packaged, true) + " process failed: "@ + m@);
                    failing(JobState::Failed, false, AppError::CliError(text))
                },
                JobEvent::Exited { success, code } => {
                    if *success {
                        Transition {
                            next: JobState::Completed,
                            kill: false,
                            emit: Some(
                                ProcessingProgress {
                                    stage: ProcessingStage::Saving,
                                    progress: Percent::whole(100),
                                    current_file: Some(String::from_str(file)),
                                    timestamp,
                                    message: Some(String::from_str("Transcription completed!")),
                                    job_id: None,
                                    file_index: None,
                                    total_files: None,
                                    can_cancel: false,
                                },
                            ),
                            outcome: StepOutcome::Resolve,
                        }
                    } else {
                        let mut text = String::from_str("CLI execution failed with exit code: ");
                        text.append(exit_code_string(*code).as_str());
                        failing(JobState::Failed, false, AppError::CliError(text))
                    }
                },
                _ => staying(state),
            },
        }
    }
}

/// A job that has ended stays as it is: no event moves it, kills anything,
/// or makes it report again.
pub proof fn lemma_ended_jobs_stay(
    packaged: bool,
    state: JobState,
    event: JobEventView,
    file: Seq<char>,
    timestamp: i64,
    can_cancel: bool,
)
    requires
        state.is_terminal(),
    ensures
        transition(packaged, state, event, file, timestamp, can_cancel) == stay(state),
{
}

/// A cancellation ends every job that has not ended: the job is then
/// `Cancelled`, the caller gets an error that says so, and the worker is
/// killed where one was started.
pub proof fn lemma_cancellation_ends_job(
    packaged: bool,
    state: JobState,
    file: Seq<char>,
    timestamp: i64,
    can_cancel: bool,
)
    requires
        !state.is_terminal(),
    ensures
        transition(
            packaged,
            state,
            JobEventView::CancelRequested,
            file,
            timestamp,
            can_cancel,
        ) == fail(
            JobState::Cancelled,
            state.has_child(),
            ErrorKind::ProcessingError,
            "Processing was cancelled"@,
        ),
        transition(
            packaged,
            state,
            JobEventView::CancelRequested,
            file,
            timestamp,
            can_cancel,
        ).next.is_terminal(),
{
}

/// A step that reports an error ends the job, and a step that asks for the
/// transcript ends it as `Completed`; a job ends as `Completed` only where
/// the worker ended well while its output was read.
pub proof fn lemma_outcomes_end_jobs(
    packaged: bool,
    state: JobState,
    event: JobEventView,
    file: Seq<char>,
    timestamp: i64,
    can_cancel: bool,
)
    ensures
        transition(packaged, state, event, file, timestamp, can_cancel).outcome is Fail
            ==> transition(packaged, state, event, file, timestamp, can_cancel).next.is_terminal()
            && transition(packaged, state, event, file, timestamp, can_cancel).next
            != JobState::Completed,
        transition(packaged, state, event, file, timestamp, can_cancel).outcome is Resolve <==> (
        state == JobState::Monitoring && event is Exited && event->success),
        transition(packaged, state, event, file, timestamp, can_cancel).outcome is Resolve
            ==> transition(packaged, state, event, file, timestamp, can_cancel).next
            == JobState::Completed,
        transition(packaged, state, event, file, timestamp, can_cancel).next.is_terminal()
            && !state.is_terminal() ==> !(transition(
            packaged,
            state,
            event,
            file,
            timestamp,
            can_cancel,
        ).outcome is Continue),
        state.has_child() && transition(packaged, state, event, file, timestamp, can_cancel).next
            == JobState::TimedOut ==> transition(
            packaged,
            state,
            event,
            file,
            timestamp,
            can_cancel,
        ).kill,
{
}

/// The state of a job after the events of a sequence, one after the other.
pub open spec fn state_after(
    packaged: bool,
    state: JobState,
    events: Seq<JobEventView>,
    file: Seq<char>,
    timestamp: i64,
    can_cancel: bool,
) -> JobState
    decreases events.len(),
{
    if events.len() == 0 {
        state
    } else {
        transition(
            packaged,
            state_after(packaged, state, events.drop_last(), file, timestamp, can_cancel),
            events.last(),
            file,
            timestamp,
            can_cancel,
        ).next
    }
}

/// The number of steps, among those that the events of a sequence make, that
/// tell the caller how the job ended.
pub open spec fn endings(
    packaged: bool,
    state: JobState,
    events: Seq<JobEventView>,
    file: Seq<char>,
    timestamp: i64,
    can_cancel: bool,
) -> nat
    decreases events.len(),
{
    if events.len() == 0 {
        0
    } else {
        let before = state_after(packaged, state, events.drop_last(), file, timestamp, can_cancel);
        let last = transition(packaged, before, events.last(), file, timestamp, can_cancel);
        endings(packaged, state, events.drop_last(), file, timestamp, can_cancel) + if last.outcome
            is Continue {
            0nat
        } else {
            1nat
        }
    }
}

/// A job tells its end once: whatever events come, in whatever order, the
/// caller is told how a job ended exactly when the job has ended, and is
/// never told twice.
pub proof fn lemma_job_ends_once(
    packaged: bool,
    state: JobState,
    events: Seq<JobEventView>,
    file: Seq<char>,
    timestamp: i64,
    can_cancel: bool,
)
    requires
        !state.is_terminal(),
    ensures
        endings(packaged, state, events, file, timestamp, can_cancel) <= 1,
        endings(packaged, state, events, file, timestamp, can_cancel) == 1 <==> state_after(
            packaged,
            state,
            events,
            file,
            timestamp,
            can_cancel,
        ).is_terminal(),
    decreases events.len(),
{
    if events.len() > 0 {
        lemma_job_ends_once(packaged, state, events.drop_last(), file, timestamp, can_cancel);
        let before = state_after(packaged, state, events.drop_last(), file, timestamp, can_cancel);
        lemma_outcomes_end_jobs(packaged, before, events.last(), file, timestamp, can_cancel);
    }
}

/// A cancellation wins against everything that comes after it: a job that
/// has not ended when it is cancelled ends as `Cancelled`, whatever events
/// follow, the end of the worker among them.
pub proof fn lemma_cancellation_wins(
    packaged: bool,
    state: JobState,
    events: Seq<JobEventView>,
    file: Seq<char>,
    timestamp: i64,
    can_cancel: bool,
)
    requires
        !state.is_terminal(),
        events.len() > 0,
        events[0] is CancelRequested,
    ensures
        state_after(packaged, state, events, file, timestamp, can_cancel) == JobState::Cancelled,
    decreases events.len(),
{
    let before = state_after(packaged, state, events.drop_last(), file, timestamp, can_cancel);
    if events.len() == 1 {
        assert(events.drop_last().len() == 0);
        assert(before == state);
        assert(events.last() == events[0]);
    } else {
        assert(events.drop_last()[0] == events[0]);
        lemma_cancellation_wins(packaged, state, events.drop_last(), file, timestamp, can_cancel);
        assert(before == JobState::Cancelled);
    }
    assert(state_after(packaged, state, events, file, timestamp, can_cancel) == transition(
        packaged,
        before,
        events.last(),
        file,
        timestamp,
        can_cancel,
    ).next);
}

} // verus!
