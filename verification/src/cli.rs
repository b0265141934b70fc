//! The launcher of the worker: where the worker is found, with which
//! arguments and in which environment it is started, and what a run of it
//! tells.

use crate::clock::now_millis;
use crate::error::{outcome, AppError, AppResult, ErrorKind};
use crate::models::{
    model_size_text, AppSettings, AudioFile, AudioInfo, MetadataView, Percent, ProcessingProgress,
    ProcessingStage, ProgressView, ResultView, SettingsView, TranscriptionMetadata,
    TranscriptionResult,
};
use crate::paths::{cache_dir, home_dir, join, joined_path, parent, parent_of, path_exists};
use crate::progress::{line_report, opt_progress, parse_progress};
use crate::resolver::{
    read_view, transcript_text, transcript_text_of, work_directory_in, work_directory_of,
};
use crate::text::{decimal_digits, decimal_string, opt_text, texts, trim, trimmed};
use crate::utils::{get_output_filename, transcript_path};
use std::time::Duration;
use vstd::prelude::*;
use vstd::string::*;

verus! {

/// What a run of the worker's program gave.
#[derive(Debug)]
pub struct CliResult {
    pub success: bool,
    pub output: String,
    pub error: Option<String>,
    pub exit_code: i32,
}

/// The result of a run with its texts as sequences of characters.
pub struct CliResultView {
    pub success: bool,
    pub output: Seq<char>,
    pub error: Option<Seq<char>>,
    pub exit_code: i32,
}

impl View for CliResult {
    type V = CliResultView;

    open spec fn view(&self) -> CliResultView {
        CliResultView {
            success: self.success,
            output: self.output@,
            error: opt_text(self.error),
            exit_code: self.exit_code,
        }
    }
}

/// How an attempt to run a program to its end went.
#[derive(Debug)]
pub enum CommandOutcome {
    /// The program did not end in the time it was given.
    TimedOut,
    /// The program could not be run; the text says why.
    NotRun(String),
    /// The program ran and ended.
    Finished { success: bool, code: Option<i32>, stdout: String, stderr: String },
}

/// An outcome with its texts as sequences of characters.
pub enum CommandOutcomeView {
    TimedOut,
    NotRun(Seq<char>),
    Finished { success: bool, code: Option<i32>, stdout: Seq<char>, stderr: Seq<char> },
}

impl View for CommandOutcome {
    type V = CommandOutcomeView;

    open spec fn view(&self) -> CommandOutcomeView {
        match self {
            CommandOutcome::TimedOut => CommandOutcomeView::TimedOut,
            CommandOutcome::NotRun(m) => CommandOutcomeView::NotRun(m@),
            CommandOutcome::Finished { success, code, stdout, stderr } => {
                CommandOutcomeView::Finished {
                    success: *success,
                    code: *code,
                    stdout: stdout@,
                    stderr: stderr@,
                }
            },
        }
    }
}

/// The outcome of a run that may not have been made.
pub open spec fn opt_outcome(run: Option<&CommandOutcome>) -> Option<CommandOutcomeView> {
    match run {
        Some(r) => Some(r@),
        None => None,
    }
}

/// The seconds that a job may take where nothing else is asked for: an hour.
pub const DEFAULT_TIMEOUT_SECS: u64 = 3600;

/// The seconds that a trial run of the development worker may take.
pub const PROBE_TIMEOUT_SECS: u64 = 10;

/// The seconds that a run with arguments of the caller's choice may take.
pub const RAW_COMMAND_TIMEOUT_SECS: u64 = 30;

/// How often the cancellation token is looked at during each of the stages
/// that are shown while nothing is heard from the worker.
pub const STAGE_TICKS: u64 = 10;

/// The milliseconds between two looks at the cancellation token.
pub const STAGE_TICK_MILLIS: u64 = 100;

/// The name of the worker's program.
pub const WORKER_NAME: &'static str = "speech-to-text";

/// A length of time of a whole number of seconds, as `Duration::from_secs`
/// makes it.
pub uninterp spec fn seconds(n: u64) -> Duration;

/// Calls `Duration::from_secs`: the length of time of so many seconds.
#[verifier::external_body]
fn duration_from_secs(n: u64) -> (d: Duration)
    ensures
        d == seconds(n),
{
    Duration::from_secs(n)
}

/// How the worker is found and how long a job may take.
#[derive(Debug, Clone, Copy, PartialEq, Eq)]
pub struct CliManager {
    use_sidecar: bool,
    timeout_duration: Duration,
}

impl Default for CliManager {
    fn default() -> (m: CliManager)
        ensures
            m.packaged(),
            m.timeout() == seconds(DEFAULT_TIMEOUT_SECS),
    {
        CliManager {
            use_sidecar: true,
            timeout_duration: duration_from_secs(DEFAULT_TIMEOUT_SECS),
        }
    }
}

/// An exit code as it is shown in a message: `Some(..)` around a code, and
/// `None` where the program ended without one.
pub open spec fn exit_code_text(code: Option<i32>) -> Seq<char> {
    match code {
        Some(c) => if c < 0 {
            "Some(-"@ + decimal_digits((-c) as nat) + ")"@
        } else {
            "Some("@ + decimal_digits(c as nat) + ")"@
        },
        None => "None"@,
    }
}

/// Writes an exit code as it is shown in a message.
pub fn exit_code_string(code: Option<i32>) -> (r: String)
    ensures
        r@ == exit_code_text(code),
{
    match code {
        Some(c) => {
            let mut r = if c < 0 {
                let mut r = String::from_str("Some(-");
                r.append(decimal_string((-(c as i64)) as u128).as_str());
                r
            } else {
                let mut r = String::from_str("Some(");
                r.append(decimal_string(c as u128).as_str());
                r
            };
            r.append(")");
            r
        },
        None => String::from_str("None"),
    }
}

/// The arguments with which the worker is run on a file: the file, the
/// language, the size of the model, and the wish for metadata where the
/// settings hold it.
pub open spec fn worker_args(file: Seq<char>, settings: SettingsView) -> Seq<Seq<char>> {
    let fixed = seq![
        file,
        "--language"@,
        settings.language,
        "--model-size"@,
        model_size_text(settings.model_size),
    ];
    if settings.include_metadata {
        fixed.push("--include-metadata"@)
    } else {
        fixed
    }
}

/// The arguments with which the worker is run on a file.
pub fn build_args(file_path: &str, settings: &AppSettings) -> (args: Vec<String>)
    ensures
        texts(args@) == worker_args(file_path@, settings@),
{
    let mut args: Vec<String> = Vec::new();
    args.push(String::from_str(file_path));
    args.push(String::from_str("--language"));
    args.push(settings.language.clone());
    args.push(String::from_str("--model-size"));
    args.push(settings.model_size.to_string());
    if settings.include_metadata {
        args.push(String::from_str("--include-metadata"));
    }
    assert(texts(args@) =~= worker_args(file_path@, settings@));
    args
}

/// What stands between a request and the launch of the worker: the file must
/// be there, and the job must not be cancelled already.
pub open spec fn admission(
    file: Seq<char>,
    file_exists: bool,
    cancel_requested: bool,
    settings: SettingsView,
) -> Result<Seq<Seq<char>>, (ErrorKind, Seq<char>)> {
    if !file_exists {
        Err((ErrorKind::FileNotFound, file))
    } else if cancel_requested {
        Err((ErrorKind::ProcessingError, "Processing was cancelled"@))
    } else {
        Ok(worker_args(file, settings))
    }
}

/// The arguments of a launch, or the reason why there is none, as the
/// contracts speak of them.
pub open spec fn args_outcome(r: AppResult<Vec<String>>) -> Result<
    Seq<Seq<char>>,
    (ErrorKind, Seq<char>),
> {
    match r {
        Ok(a) => Ok(texts(a@)),
        Err(e) => Err(e@),
    }
}

/// The environment of the worker as names and values.
pub open spec fn env_texts(env: Seq<(String, String)>) -> Seq<(Seq<char>, Seq<char>)> {
    env.map_values(|p: (String, String)| (p.0@, p.1@))
}

/// What the launcher needs to start a program.
#[derive(Debug)]
pub struct LaunchPlan {
    pub program: String,
    pub args: Vec<String>,
    pub working_dir: String,
    pub env: Vec<(String, String)>,
}

/// A plan with its texts as sequences of characters.
pub struct LaunchPlanView {
    pub program: Seq<char>,
    pub args: Seq<Seq<char>>,
    pub working_dir: Seq<char>,
    pub env: Seq<(Seq<char>, Seq<char>)>,
}

impl View for LaunchPlan {
    type V = LaunchPlanView;

    open spec fn view(&self) -> LaunchPlanView {
        LaunchPlanView {
            program: self.program@,
            args: texts(self.args@),
            working_dir: self.working_dir@,
            env: env_texts(self.env@),
        }
    }
}

/// The search path of the worker: the search path of this process, or the
/// usual system directories where it has none, and after it the places where
/// the audio decoder is commonly installed.
pub open spec fn enhanced_path(current: Option<Seq<char>>) -> Seq<char> {
    (match current {
        Some(p) => p,
        None => "/usr/bin:/bin:/usr/sbin:/sbin"@,
    }) + ":/usr/local/bin:/opt/homebrew/bin:/usr/local/Cellar/ffmpeg/*/bin:/opt/local/bin"@
}

/// The plan by which the worker is started: in its own directory, with
/// `TMPDIR` set to that directory, `HOME` to the user's home directory, or to
/// the directory for temporary files where the user has none, and `PATH` to
/// the enhanced search path.
pub open spec fn launch_plan_of(
    program: Seq<char>,
    args: Seq<Seq<char>>,
    work_dir: Seq<char>,
    home: Option<Seq<char>>,
    temp: Seq<char>,
    current_path: Option<Seq<char>>,
) -> LaunchPlanView {
    LaunchPlanView {
        program,
        args,
        working_dir: work_dir,
        env: seq![
            ("TMPDIR"@, work_dir),
            (
                "HOME"@,
                match home {
                    Some(h) => h,
                    None => temp,
                },
            ),
            ("PATH"@, enhanced_path(current_path)),
        ],
    }
}

/// Makes the plan by which the worker is started.
pub fn launch_plan_in(
    program: &str,
    args: Vec<String>,
    work_dir: &str,
    home: &Option<String>,
    temp: &str,
    current_path: &Option<String>,
) -> (plan: LaunchPlan)
    ensures
        plan@ == launch_plan_of(
            program@,
            texts(args@),
            work_dir@,
            opt_text(*home),
            temp@,
            opt_text(*current_path),
        ),
{
    let mut path = match current_path {
        Some(p) => p.clone(),
        None => String::from_str("/usr/bin:/bin:/usr/sbin:/sbin"),
    };
    path.append(":/usr/local/bin:/opt/homebrew/bin:/usr/local/Cellar/ffmpeg/*/bin:/opt/local/bin");
    let home_value = match home {
        Some(h) => h.clone(),
        None => String::from_str(temp),
    };
    let mut env: Vec<(String, String)> = Vec::new();
    env.push((String::from_str("TMPDIR"), String::from_str(work_dir)));
    env.push((String::from_str("HOME"), home_value));
    env.push((String::from_str("PATH"), path));
    let plan = LaunchPlan {
        program: String::from_str(program),
        args,
        working_dir: String::from_str(work_dir),
        env,
    };
    assert(plan@.env =~= launch_plan_of(
        program@,
        texts(args@),
        work_dir@,
        opt_text(*home),
        temp@,
        opt_text(*current_path),
    ).env);
    plan
}

/// Where the packaged worker is looked for: beside the running program.
pub open spec fn sidecar_candidate(exe_path: Option<Seq<char>>) -> Option<Seq<char>> {
    match exe_path {
        Some(exe) => match parent_of(exe) {
            Some(dir) => Some(joined_path(dir, WORKER_NAME@)),
            None => None,
        },
        None => None,
    }
}

/// What the search for the packaged worker ends in, given whether a file is
/// at the place where it is looked for.
pub open spec fn sidecar_verdict(exe_path: Option<Seq<char>>, found: bool) -> Result<
    Seq<char>,
    (ErrorKind, Seq<char>),
> {
    match sidecar_candidate(exe_path) {
        Some(c) => if found {
            Ok(c)
        } else {
            Err((ErrorKind::CliError, "Sidecar binary not found"@))
        },
        None => Err((ErrorKind::CliError, "Sidecar binary not found"@)),
    }
}

/// The place at which the packaged worker is looked for: the worker's name in
/// the directory of the running program; none where the path of the program
/// is not known or names no directory.
pub fn sidecar_place(exe_path: &Option<String>) -> (r: Option<String>)
    ensures
        opt_text(r) == sidecar_candidate(opt_text(*exe_path)),
{
    match exe_path {
        Some(exe) => match parent(exe.as_str()) {
            Some(dir) => Some(join(dir.as_str(), WORKER_NAME)),
            None => None,
        },
        None => None,
    }
}

/// The paths, from the current directory, at which the worker of a
/// development setup is looked for, in the order of the search.
pub open spec fn dev_candidates(current_dir: Seq<char>) -> Seq<Seq<char>> {
    seq![
        joined_path(current_dir, "../venv/bin/speech-to-text"@),
        joined_path(current_dir, "../../venv/bin/speech-to-text"@),
        joined_path(current_dir, "venv/bin/speech-to-text"@),
        joined_path(current_dir, "../../garbage/venv/bin/speech-to-text"@),
    ]
}

/// The first of the candidates at which a file was found; the worker's bare
/// name, to be found on the search path, where none was.
pub open spec fn dev_choice(candidates: Seq<Seq<char>>, found: Seq<bool>) -> Seq<char>
    decreases candidates.len(),
{
    if candidates.len() == 0 || found.len() == 0 {
        WORKER_NAME@
    } else if found[0] {
        candidates[0]
    } else {
        dev_choice(candidates.drop_first(), found.drop_first())
    }
}

/// Makes the list of the places at which the worker of a development setup
/// is looked for.
pub fn dev_candidate_paths(current_dir: &str) -> (r: Vec<String>)
    ensures
        texts(r@) == dev_candidates(current_dir@),
{
    let mut r: Vec<String> = Vec::new();
    r.push(join(current_dir, "../venv/bin/speech-to-text"));
    r.push(join(current_dir, "../../venv/bin/speech-to-text"));
    r.push(join(current_dir, "venv/bin/speech-to-text"));
    r.push(join(current_dir, "../../garbage/venv/bin/speech-to-text"));
    assert(texts(r@) =~= dev_candidates(current_dir@));
    r
}

/// Picks the worker of a development setup from what was found at the
/// candidates.
pub fn choose_dev_command(candidates: &Vec<String>, found: &Vec<bool>) -> (r: String)
    ensures
        r@ == dev_choice(texts(candidates@), found@),
{
    let mut i: usize = 0;
    assert(texts(candidates@).skip(0) =~= texts(candidates@));
    assert(found@.skip(0) =~= found@);
    while i < candidates.len() && i < found.len()
        invariant
            i <= candidates.len(),
            i <= found.len(),
            dev_choice(texts(candidates@), found@) == dev_choice(
                texts(candidates@).skip(i as int),
                found@.skip(i as int),
            ),
        decreases candidates.len() - i,
    {
        let ghost c = texts(candidates@).skip(i as int);
        let ghost f = found@.skip(i as int);
        if found[i] {
            assert(c[0] == candidates@[i as int]@);
            return candidates[i].clone();
        }
        assert(c.drop_first() =~= texts(candidates@).skip(i + 1));
        assert(f.drop_first() =~= found@.skip(i + 1));
        i += 1;
    }
    String::from_str(WORKER_NAME)
}

impl CliManager {
    /// Whether the worker is the packaged one, found beside the running
    /// program.
    pub closed spec fn packaged(&self) -> bool {
        self.use_sidecar
    }

    /// The time that a job may take.
    pub closed spec fn timeout(&self) -> Duration {
        self.timeout_duration
    }

    /// A manager for the packaged worker, with the default timeout.
    pub fn new() -> (m: CliManager)
        ensures
            m.packaged(),
            m.timeout() == seconds(DEFAULT_TIMEOUT_SECS),
    {
        CliManager {
            use_sidecar: true,
            timeout_duration: duration_from_secs(DEFAULT_TIMEOUT_SECS),
        }
    }

    /// A manager for the worker of a development setup, with the default
    /// timeout.
    pub fn new_dev() -> (m: CliManager)
        ensures
            !m.packaged(),
            m.timeout() == seconds(DEFAULT_TIMEOUT_SECS),
    {
        CliManager {
            use_sidecar: false,
            timeout_duration: duration_from_secs(DEFAULT_TIMEOUT_SECS),
        }
    }

    /// The same manager with another timeout.
    pub fn with_timeout(self, timeout: Duration) -> (m: CliManager)
        ensures
            m.packaged() == self.packaged(),
            m.timeout() == timeout,
    {
        CliManager { use_sidecar: self.use_sidecar, timeout_duration: timeout }
    }

    /// Whether the worker is the packaged one.
    pub fn uses_sidecar(&self) -> (r: bool)
        ensures
            r == self.packaged(),
    {
        self.use_sidecar
    }

    /// The time that a job may take.
    pub fn timeout_duration(&self) -> (r: Duration)
        ensures
            r == self.timeout(),
    {
        self.timeout_duration
    }

    /// Decides whether the worker is launched on a file, and with which
    /// arguments.
    pub fn prepare_launch(
        &self,
        file_path: &str,
        file_exists: bool,
        cancel_requested: bool,
        settings: &AppSettings,
    ) -> (r: AppResult<Vec<String>>)
        ensures
            args_outcome(r) == admission(file_path@, file_exists, cancel_requested, settings@),
    {
        if !file_exists {
            return Err(AppError::FileNotFound(String::from_str(file_path)));
        }
        if cancel_requested {
            return Err(AppError::ProcessingError(String::from_str("Processing was cancelled")));
        }
        Ok(build_args(file_path, settings))
    }

    /// Judges the search for the packaged worker from the path of the running
    /// program and from whether a file is at the place beside it.
    pub fn sidecar_from(&self, exe_path: &Option<String>, found: bool) -> (r: AppResult<String>)
        ensures
            outcome(r) == sidecar_verdict(opt_text(*exe_path), found),
    {
        match sidecar_place(exe_path) {
            Some(place) => {
                if found {
                    Ok(place)
                } else {
                    Err(AppError::CliError(String::from_str("Sidecar binary not found")))
                }
            },
            None => Err(AppError::CliError(String::from_str("Sidecar binary not found"))),
        }
    }

    /// Looks for the packaged worker beside the running program, whose path
    /// is given where it is known. The file system is asked whether a file is
    /// at the place that `sidecar_place` names; it is not asked where there
    /// is no such place.
    pub fn find_sidecar_path(&self, exe_path: &Option<String>) -> (r: AppResult<String>)
        ensures
            exists|found: bool| outcome(r) == sidecar_verdict(opt_text(*exe_path), found),
    {
        let found = match sidecar_place(exe_path) {
            Some(place) => path_exists(place.as_str()),
            None => false,
        };
        let r = self.sidecar_from(exe_path, found);
        assert(outcome(r) == sidecar_verdict(opt_text(*exe_path), found));
        r
    }

    /// Looks for the worker of a development setup at the candidates below
    /// the current directory. The file system is asked at each of them
    /// whether a file is there.
    pub fn find_dev_cli_command(&self, current_dir: &str) -> (r: String)
        ensures
            exists|found: Seq<bool>|
                found.len() == 4 && r@ == dev_choice(dev_candidates(current_dir@), found),
    {
        let candidates = dev_candidate_paths(current_dir);
        let mut found: Vec<bool> = Vec::new();
        let mut i: usize = 0;
        while i < candidates.len()
            invariant
                i <= candidates.len(),
                found.len() == i,
            decreases candidates.len() - i,
        {
            found.push(path_exists(candidates[i].as_str()));
            i += 1;
        }
        let r = choose_dev_command(&candidates, &found);
        assert(r@ == dev_choice(dev_candidates(current_dir@), found@));
        r
    }

    /// Makes the plan by which the worker is started, for the user whose
    /// cache and home directories the environment names. `temp` is the
    /// directory for temporary files and `current_path` the search path of
    /// this process, where it has one.
    pub fn launch_plan(
        &self,
        program: &str,
        args: Vec<String>,
        temp: &str,
        current_path: &Option<String>,
    ) -> (plan: LaunchPlan)
        ensures
            exists|cache: Option<Seq<char>>, home: Option<Seq<char>>|
                plan@ == launch_plan_of(
                    program@,
                    texts(args@),
                    work_directory_of(cache, temp@),
                    home,
                    temp@,
                    opt_text(*current_path),
                ),
    {
        let cache = cache_dir();
        let home = home_dir();
        let work_dir = work_directory_in(&cache, temp);
        let plan = launch_plan_in(program, args, work_dir.as_str(), &home, temp, current_path);
        assert(plan@ == launch_plan_of(
            program@,
            texts(args@),
            work_directory_of(opt_text(cache), temp@),
            opt_text(home),
            temp@,
            opt_text(*current_path),
        ));
        plan
    }

    /// Reads one line of the worker's output at this moment: the report that
    /// the line makes for the file, if it makes one, stamped with the time
    /// of the clock.
    pub fn parse_and_emit_progress(line: &str, file_path: &str) -> (r: Option<ProcessingProgress>)
        ensures
            exists|timestamp: i64| opt_progress(r) == line_report(line@, file_path@, timestamp),
    {
        let timestamp = now_millis();
        let r = parse_progress(line, file_path, timestamp);
        assert(opt_progress(r) == line_report(line@, file_path@, timestamp));
        r
    }

    /// Reads a line that a reader took from one of the worker's streams: an
    /// empty line reports nothing, and any other line is read at this moment.
    pub fn forward_line(line: &str, file_path: &str) -> (r: Option<ProcessingProgress>)
        ensures
            line@.len() == 0 ==> r is None,
            line@.len() > 0 ==> exists|timestamp: i64|
                opt_progress(r) == line_report(line@, file_path@, timestamp),
    {
        if line.is_empty() {
            None
        } else {
            CliManager::parse_and_emit_progress(line, file_path)
        }
    }

    /// The seconds that a trial run of the worker may take: the packaged
    /// worker is given all the time it needs.
    pub fn probe_timeout_secs(&self) -> (r: Option<u64>)
        ensures
            r == if self.packaged() {
                None::<u64>
            } else {
                Some(PROBE_TIMEOUT_SECS)
            },
    {
        if self.use_sidecar {
            None
        } else {
            Some(PROBE_TIMEOUT_SECS)
        }
    }

    /// Judges the trial run of the worker that precedes every job.
    pub fn probe_verdict(&self, run: &CommandOutcome) -> (r: AppResult<()>)
        ensures
            outcome(r) == probe_verdict_of(run@),
    {
        match run {
            CommandOutcome::TimedOut => Err(
                AppError::CliError(String::from_str("CLI test failed: timed out")),
            ),
            CommandOutcome::NotRun(m) => {
                let mut text = String::from_str("CLI test failed: ");
                text.append(m.as_str());
                Err(AppError::CliError(text))
            },
            CommandOutcome::Finished { success, code, stdout, stderr } => {
                if *success {
                    Ok(())
                } else {
                    let mut text = String::from_str("CLI test failed with exit code: ");
                    text.append(exit_code_string(*code).as_str());
                    Err(AppError::CliError(text))
                }
            },
        }
    }

    /// Says whether the worker is available, from a run of it that asked for
    /// its version.
    pub fn check_cli_availability(&self, run: &CommandOutcome) -> (r: AppResult<bool>)
        ensures
            outcome(r) == availability_of(self.packaged(), run@),
    {
        match run {
            CommandOutcome::TimedOut => Err(
                AppError::CliError(String::from_str("CLI command timed out")),
            ),
            CommandOutcome::NotRun(m) => {
                let mut text = String::from_str(
                    if self.use_sidecar {
                        "Failed to execute sidecar: "
                    } else {
                        "Failed to execute CLI: "
                    },
                );
                text.append(m.as_str());
                Err(AppError::CliError(text))
            },
            CommandOutcome::Finished { success, code, stdout, stderr } => Ok(*success),
        }
    }

    /// Reads the worker's version from a run of it that asked for it.
    pub fn get_cli_version(&self, run: &CommandOutcome) -> (r: AppResult<String>)
        ensures
            outcome(r) == version_of(run@),
    {
        match run {
            CommandOutcome::TimedOut => Err(
                AppError::CliError(String::from_str("CLI version check timed out")),
            ),
            CommandOutcome::NotRun(m) => {
                let mut text = String::from_str("Failed to get CLI version: ");
                text.append(m.as_str());
                Err(AppError::CliError(text))
            },
            CommandOutcome::Finished { success, code, stdout, stderr } => {
                if *success {
                    Ok(trim(stdout.as_str()))
                } else {
                    Err(AppError::CliError(stderr.clone()))
                }
            },
        }
    }

    /// Puts together what a run of the worker with arguments of the caller's
    /// choice gave.
    pub fn execute_raw_command(&self, run: &CommandOutcome) -> (r: AppResult<CliResult>)
        ensures
            outcome(r) == raw_result_of(run@),
    {
        match run {
            CommandOutcome::TimedOut => Err(
                AppError::CliError(String::from_str("Command timed out")),
            ),
            CommandOutcome::NotRun(m) => {
                let mut text = String::from_str("Failed to execute command: ");
                text.append(m.as_str());
                Err(AppError::CliError(text))
            },
            CommandOutcome::Finished { success, code, stdout, stderr } => {
                let error = if stderr.as_str().is_empty() {
                    None
                } else {
                    Some(stderr.clone())
                };
                let exit_code: i32 = match code {
                    Some(c) => *c,
                    None => -1,
                };
                Ok(CliResult { success: *success, output: stdout.clone(), error, exit_code })
            },
        }
    }

    /// The report of one of the five stages that are shown while nothing is
    /// heard from the worker; none from the sixth on.
    pub fn simulated_progress(step: usize, file_path: &str, timestamp: i64, can_cancel: bool) -> (r:
        Option<ProcessingProgress>)
        ensures
            opt_progress(r) == simulated_report(step as nat, file_path@, timestamp, can_cancel),
    {
        let (stage, message, percent): (ProcessingStage, &str, u128) = if step == 0 {
            (ProcessingStage::LoadingModel, "Loading Whisper model...", 15)
        } else if step == 1 {
            (ProcessingStage::Preprocessing, "Preprocessing audio...", 25)
        } else if step == 2 {
            (ProcessingStage::Transcribing, "Transcribing audio...", 80)
        } else if step == 3 {
            (ProcessingStage::Postprocessing, "Processing results...", 95)
        } else if step == 4 {
            (ProcessingStage::Saving, "Saving transcription...", 100)
        } else {
            return None;
        };
        Some(
            ProcessingProgress {
                stage,
                progress: Percent::whole(percent),
                current_file: Some(String::from_str(file_path)),
                timestamp,
                message: Some(String::from_str(message)),
                job_id: None,
                file_index: None,
                total_files: None,
                can_cancel,
            },
        )
    }

    /// Puts the result of a job together once the transcript has been found
    /// and read: `read` is what reading the file at `output_path` gave.
    pub fn parse_cli_completion(
        &self,
        id: String,
        audio_file: AudioFile,
        read: Result<String, String>,
        output_path: String,
        processing_time_ms: u64,
        settings: &AppSettings,
        timestamp: i64,
    ) -> (r: TranscriptionResult)
        ensures
            r@ == completion_of(
                id@,
                audio_file@,
                transcript_text_of(read_view(read)),
                output_path@,
                processing_time_ms,
                settings@,
                timestamp,
            ),
    {
        TranscriptionResult {
            id,
            original_file: audio_file,
            transcribed_text: transcript_text(read),
            metadata: TranscriptionMetadata {
                language: settings.language.clone(),
                model_size: settings.model_size.to_string(),
                timestamp,
                audio_info: AudioInfo { duration_ms: 0, sample_rate: None, channels: None },
            },
            output_path,
            processing_time_ms,
            confidence: None,
        }
    }

    /// Puts the result of a job together from what the worker printed:
    /// the transcript is the text of the file at the place where transcripts
    /// are written, where `read` holds what reading it gave, and else what
    /// the worker printed, without the white space around it.
    pub fn parse_cli_output(
        &self,
        id: String,
        audio_file: AudioFile,
        output: &str,
        read: Option<Result<String, String>>,
        processing_time_ms: u64,
        settings: &AppSettings,
        timestamp: i64,
    ) -> (r: AppResult<TranscriptionResult>)
        ensures
            outcome(r) == printed_result_of(
                id@,
                audio_file@,
                output@,
                match read {
                    Some(t) => Some(read_view(t)),
                    None => None,
                },
                processing_time_ms,
                settings@,
                timestamp,
            ),
    {
        let output_path = match get_output_filename(
            audio_file.path.as_str(),
            settings.output_directory.as_str(),
        ) {
            Ok(p) => p,
            Err(e) => {
                return Err(e);
            },
        };
        let text = match read {
            Some(t) => transcript_text(t),
            None => trim(output),
        };
        Ok(
            TranscriptionResult {
                id,
                original_file: audio_file,
                transcribed_text: text,
                metadata: TranscriptionMetadata {
                    language: settings.language.clone(),
                    model_size: settings.model_size.to_string(),
                    timestamp,
                    audio_info: AudioInfo { duration_ms: 0, sample_rate: None, channels: None },
                },
                output_path,
                processing_time_ms,
                confidence: None,
            },
        )
    }
}

/// What the trial run of the worker says: nothing stands in the way where
/// the worker ran and ended well.
pub open spec fn probe_verdict_of(run: CommandOutcomeView) -> Result<(), (ErrorKind, Seq<char>)> {
    match run {
        CommandOutcomeView::TimedOut => Err((ErrorKind::CliError, "CLI test failed: timed out"@)),
        CommandOutcomeView::NotRun(m) => Err((ErrorKind::CliError, "CLI test failed: "@ + m)),
        CommandOutcomeView::Finished { success, code, stdout, stderr } => if success {
            Ok(())
        } else {
            Err((ErrorKind::CliError, "CLI test failed with exit code: "@ + exit_code_text(code)))
        },
    }
}

/// Whether the worker is available, as a run of it shows.
pub open spec fn availability_of(packaged: bool, run: CommandOutcomeView) -> Result<
    bool,
    (ErrorKind, Seq<char>),
> {
    match run {
        CommandOutcomeView::TimedOut => Err((ErrorKind::CliError, "CLI command timed out"@)),
        CommandOutcomeView::NotRun(m) => Err(
            (
                ErrorKind::CliError,
                (if packaged {
                    "Failed to execute sidecar: "@
                } else {
                    "Failed to execute CLI: "@
                }) + m,
            ),
        ),
        CommandOutcomeView::Finished { success, code, stdout, stderr } => Ok(success),
    }
}

/// The worker's version, as a run of it shows: what it printed, without the
/// white space around it; where it ended badly, what it printed as an error.
pub open spec fn version_of(run: CommandOutcomeView) -> Result<Seq<char>, (ErrorKind, Seq<char>)> {
    match run {
        CommandOutcomeView::TimedOut => Err((ErrorKind::CliError, "CLI version check timed out"@)),
        CommandOutcomeView::NotRun(m) => Err(
            (ErrorKind::CliError, "Failed to get CLI version: "@ + m),
        ),
        CommandOutcomeView::Finished { success, code, stdout, stderr } => if success {
            Ok(trimmed(stdout))
        } else {
            Err((ErrorKind::CliError, stderr))
        },
    }
}

/// What a run with arguments of the caller's choice gave: no error text
/// where the worker printed none, and the exit code -1 where it ended
/// without one.
pub open spec fn raw_result_of(run: CommandOutcomeView) -> Result<
    CliResultView,
    (ErrorKind, Seq<char>),
> {
    match run {
        CommandOutcomeView::TimedOut => Err((ErrorKind::CliError, "Command timed out"@)),
        CommandOutcomeView::NotRun(m) => Err(
            (ErrorKind::CliError, "Failed to execute command: "@ + m),
        ),
        CommandOutcomeView::Finished { success, code, stdout, stderr } => Ok(
            CliResultView {
                success,
                output: stdout,
                error: if stderr.len() == 0 {
                    None
                } else {
                    Some(stderr)
                },
                exit_code: match code {
                    Some(c) => c,
                    None => -1i32,
                },
            },
        ),
    }
}

/// The stage, the words and the percentage of one of the five stages that
/// are shown while nothing is heard from the worker.
pub open spec fn simulated_report(step: nat, file: Seq<char>, timestamp: i64, can_cancel: bool)
    -> Option<ProgressView> {
    if step >= 5 {
        None
    } else {
        Some(
            ProgressView {
                stage: if step == 0 {
                    ProcessingStage::LoadingModel
                } else if step == 1 {
                    ProcessingStage::Preprocessing
                } else if step == 2 {
                    ProcessingStage::Transcribing
                } else if step == 3 {
                    ProcessingStage::Postprocessing
                } else {
                    ProcessingStage::Saving
                },
                progress: Percent {
                    num: if step == 0 {
                        15
                    } else if step == 1 {
                        25
                    } else if step == 2 {
                        80
                    } else if step == 3 {
                        95
                    } else {
                        100
                    },
                    den: 1,
                },
                current_file: Some(file),
                timestamp,
                message: Some(
                    if step == 0 {
                        "Loading Whisper model..."@
                    } else if step == 1 {
                        "Preprocessing audio..."@
                    } else if step == 2 {
                        "Transcribing audio..."@
                    } else if step == 3 {
                        "Processing results..."@
                    } else {
                        "Saving transcription..."@
                    },
                ),
                job_id: None,
                file_index: None,
                total_files: None,
                can_cancel,
            },
        )
    }
}

/// The stages that are shown while nothing is heard from the worker follow
/// the order of the stages, and the progress grows from each to the next.
pub proof fn lemma_simulated_stages_advance(
    earlier: nat,
    later: nat,
    file: Seq<char>,
    timestamp: i64,
    can_cancel: bool,
)
    requires
        earlier < later < 5,
    ensures
        simulated_report(earlier, file, timestamp, can_cancel) is Some,
        simulated_report(later, file, timestamp, can_cancel) is Some,
        simulated_report(earlier, file, timestamp, can_cancel)->0.stage.rank() < simulated_report(
            later,
            file,
            timestamp,
            can_cancel,
        )->0.stage.rank(),
        simulated_report(earlier, file, timestamp, can_cancel)->0.progress.num < simulated_report(
            later,
            file,
            timestamp,
            can_cancel,
        )->0.progress.num,
        simulated_report(later, file, timestamp, can_cancel)->0.progress.wf(),
{
}

/// The result of a job whose transcript reads `text` and lies at
/// `output_path`.
pub open spec fn completion_of(
    id: Seq<char>,
    audio_file: crate::models::AudioFileView,
    text: Seq<char>,
    output_path: Seq<char>,
    processing_time_ms: u64,
    settings: SettingsView,
    timestamp: i64,
) -> ResultView {
    ResultView {
        id,
        original_file: audio_file,
        transcribed_text: text,
        metadata: MetadataView {
            language: settings.language,
            model_size: model_size_text(settings.model_size),
            timestamp,
            audio_info: AudioInfo { duration_ms: 0, sample_rate: None, channels: None },
        },
        output_path,
        processing_time_ms,
        confidence: None,
    }
}

/// The result of a job as it is put together from what the worker printed.
pub open spec fn printed_result_of(
    id: Seq<char>,
    audio_file: crate::models::AudioFileView,
    output: Seq<char>,
    read: Option<Result<Seq<char>, Seq<char>>>,
    processing_time_ms: u64,
    settings: SettingsView,
    timestamp: i64,
) -> Result<ResultView, (ErrorKind, Seq<char>)> {
    match transcript_path(audio_file.path, settings.output_directory) {
        Err(e) => Err(e),
        Ok(path) => Ok(
            completion_of(
                id,
                audio_file,
                match read {
                    Some(t) => transcript_text_of(t),
                    None => trimmed(output),
                },
                path,
                processing_time_ms,
                settings,
                timestamp,
            ),
        ),
    }
}

} // verus!
