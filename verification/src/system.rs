//! What the engine asks of the system around it: the supported formats, the
//! user's directories, the programs that it leans on.

use crate::cli::{opt_outcome, CommandOutcome, CommandOutcomeView};
use crate::error::{outcome, AppError, AppResult, ErrorKind};
use crate::models::{is_supported_extension, supported_extension};
use crate::paths::{
    config_dir, document_dir, extension, extension_of, home_dir, join, joined_path, parent,
    parent_of, path_exists,
};
use crate::text::{chars_of, lowercase_of, opt_text, string_of, texts, to_lowercase, trim, trimmed};
use vstd::prelude::*;
use vstd::string::*;

verus! {

/// What the engine asks of the system around it.
pub struct SystemIntegration;

/// An audio format that the worker reads.
#[derive(Debug, Clone)]
pub struct FormatInfo {
    pub extension: String,
    pub description: String,
    pub mime_type: String,
}

/// A format with its texts as sequences of characters.
pub struct FormatView {
    pub extension: Seq<char>,
    pub description: Seq<char>,
    pub mime_type: Seq<char>,
}

impl View for FormatInfo {
    type V = FormatView;

    open spec fn view(&self) -> FormatView {
        FormatView {
            extension: self.extension@,
            description: self.description@,
            mime_type: self.mime_type@,
        }
    }
}

/// What is known of the machine and of the user's directories.
#[derive(Debug, Clone)]
pub struct SystemInfo {
    pub os: String,
    pub arch: String,
    pub family: String,
    pub home_dir: Option<String>,
    pub documents_dir: Option<String>,
    pub config_dir: Option<String>,
}

/// What is known of the system, with the texts as sequences of characters.
pub struct SystemInfoView {
    pub os: Seq<char>,
    pub arch: Seq<char>,
    pub family: Seq<char>,
    pub home_dir: Option<Seq<char>>,
    pub documents_dir: Option<Seq<char>>,
    pub config_dir: Option<Seq<char>>,
}

impl View for SystemInfo {
    type V = SystemInfoView;

    open spec fn view(&self) -> SystemInfoView {
        SystemInfoView {
            os: self.os@,
            arch: self.arch@,
            family: self.family@,
            home_dir: opt_text(self.home_dir),
            documents_dir: opt_text(self.documents_dir),
            config_dir: opt_text(self.config_dir),
        }
    }
}

/// Which of the programs that the engine leans on were found.
#[derive(Debug, Clone)]
pub struct SystemDependencyCheck {
    pub python_available: bool,
    pub cli_available: bool,
    pub ffmpeg_available: bool,
    pub whisper_available: bool,
    pub issues: Vec<String>,
}

/// The views of a list of formats.
pub open spec fn format_views(formats: Seq<FormatInfo>) -> Seq<FormatView> {
    formats.map_values(|f: FormatInfo| f@)
}

/// The formats that the worker reads, with what they are called.
pub open spec fn format_catalog() -> Seq<FormatView> {
    seq![
        FormatView {
            extension: "m4a"@,
            description: "MPEG-4 Audio (AAC)"@,
            mime_type: "audio/mp4"@,
        },
        FormatView {
            extension: "wav"@,
            description: "Waveform Audio File"@,
            mime_type: "audio/wav"@,
        },
        FormatView {
            extension: "mp3"@,
            description: "MPEG Audio Layer III"@,
            mime_type: "audio/mpeg"@,
        },
        FormatView {
            extension: "aac"@,
            description: "Advanced Audio Coding"@,
            mime_type: "audio/aac"@,
        },
        FormatView {
            extension: "flac"@,
            description: "Free Lossless Audio Codec"@,
            mime_type: "audio/flac"@,
        },
    ]
}

/// The extensions of the formats that the worker reads.
pub open spec fn format_extensions() -> Seq<Seq<char>> {
    seq!["m4a"@, "wav"@, "mp3"@, "aac"@, "flac"@]
}

/// An extension without the dot before it.
pub open spec fn without_dot(ext: Seq<char>) -> Seq<char> {
    if ext.len() > 0 && ext[0] == '.' {
        ext.skip(1)
    } else {
        ext
    }
}

/// The directory that is offered where the user is to pick one: the
/// documents directory, or the home directory where there is none.
pub open spec fn default_directory(documents: Option<Seq<char>>, home: Option<Seq<char>>)
    -> Option<Seq<char>> {
    match documents {
        Some(d) => Some(d),
        None => home,
    }
}

/// What the choice of a directory gives.
pub open spec fn directory_choice(documents: Option<Seq<char>>, home: Option<Seq<char>>) -> Result<
    Option<Seq<char>>,
    (ErrorKind, Seq<char>),
> {
    match default_directory(documents, home) {
        Some(d) => Ok(Some(d)),
        None => Err((ErrorKind::SystemError, "Could not determine default directory"@)),
    }
}

/// What the choice of a place to save a file gives.
pub open spec fn save_choice(
    documents: Option<Seq<char>>,
    home: Option<Seq<char>>,
    filename: Seq<char>,
) -> Result<Option<Seq<char>>, (ErrorKind, Seq<char>)> {
    match default_directory(documents, home) {
        Some(d) => Ok(Some(joined_path(d, filename))),
        None => Err((ErrorKind::SystemError, "Could not determine default directory"@)),
    }
}

/// An optional path, or the reason why there is none, as the contracts speak
/// of them.
pub open spec fn choice_outcome(r: AppResult<Option<String>>) -> Result<
    Option<Seq<char>>,
    (ErrorKind, Seq<char>),
> {
    match r {
        Ok(p) => Ok(opt_text(p)),
        Err(e) => Err(e@),
    }
}

/// What the check of the free space says, given whether the directory
/// exists: a gigabyte stands for the space, as no better number is known.
pub open spec fn disk_space_verdict(directory: Seq<char>, exists: bool) -> Result<
    u64,
    (ErrorKind, Seq<char>),
> {
    if exists {
        Ok(1073741824u64)
    } else {
        Err((ErrorKind::FileNotFound, directory))
    }
}

/// What is said of the programs that were not found.
pub open spec fn dependency_issues(python: bool, cli: bool, ffmpeg: bool) -> Seq<Seq<char>> {
    (if python {
        Seq::<Seq<char>>::empty()
    } else {
        seq!["Python is not available in PATH"@]
    }) + (if cli {
        Seq::<Seq<char>>::empty()
    } else {
        seq!["speech-to-text CLI is not available in PATH"@]
    }) + (if ffmpeg {
        Seq::<Seq<char>>::empty()
    } else {
        seq![
            "FFmpeg is not available (optional but recommended for better audio support)"@,
        ]
    })
}

/// The lines of a text: what stands between its line feeds.
pub open spec fn lines_of(s: Seq<char>) -> Seq<Seq<char>>
    decreases s.len(),
{
    if s.len() == 0 {
        seq![Seq::<char>::empty()]
    } else if s.last() == '\n' {
        lines_of(s.drop_last()).push(Seq::empty())
    } else {
        let before = lines_of(s.drop_last());
        before.drop_last().push(before.last().push(s.last()))
    }
}

/// Of a list of texts, each without the white space around it, those that
/// are not empty.
pub open spec fn trimmed_nonempty(lines: Seq<Seq<char>>) -> Seq<Seq<char>>
    decreases lines.len(),
{
    if lines.len() == 0 {
        Seq::empty()
    } else if trimmed(lines.last()).len() == 0 {
        trimmed_nonempty(lines.drop_last())
    } else {
        trimmed_nonempty(lines.drop_last()).push(trimmed(lines.last()))
    }
}

/// The paths that a file picker printed: with several files to pick, one on
/// each line of what it printed, and with one file to pick, all that it
/// printed; white space around a path is left out, and so is an empty path.
pub open spec fn picked_paths(printed: Seq<char>, multiple: bool) -> Seq<Seq<char>> {
    if multiple {
        trimmed_nonempty(lines_of(trimmed(printed)))
    } else if trimmed(printed).len() == 0 {
        Seq::empty()
    } else {
        seq![trimmed(printed)]
    }
}

/// Splits a text at its line feeds.
pub fn split_lines(s: &str) -> (r: Vec<String>)
    ensures
        texts(r@) == lines_of(s@),
{
    let chars = chars_of(s);
    let mut done: Vec<String> = Vec::new();
    let mut current: Vec<char> = Vec::new();
    let mut i: usize = 0;
    assert(s@.take(0) =~= Seq::<char>::empty());
    assert(texts(done@).push(current@) =~= lines_of(s@.take(0)));
    while i < chars.len()
        invariant
            i <= chars.len(),
            chars@ == s@,
            texts(done@).push(current@) == lines_of(s@.take(i as int)),
        decreases chars.len() - i,
    {
        let c = chars[i];
        let ghost before = lines_of(s@.take(i as int));
        assert(s@.take(i + 1).drop_last() =~= s@.take(i as int));
        assert(s@.take(i + 1).last() == c);
        assert(before.drop_last() =~= texts(done@));
        assert(before.last() == current@);
        if c == '\n' {
            let ghost old_done = done@;
            done.push(string_of(&current));
            current = Vec::new();
            assert(texts(done@) =~= texts(old_done).push(before.last()));
            assert(texts(done@).push(current@) =~= before.push(Seq::empty()));
        } else {
            current.push(c);
            assert(texts(done@).push(current@) =~= before.drop_last().push(
                before.last().push(c),
            ));
        }
        i += 1;
    }
    assert(s@.take(chars.len() as int) =~= s@);
    let ghost old_done = done@;
    done.push(string_of(&current));
    assert(texts(done@) =~= texts(old_done).push(current@));
    done
}

/// The files that the user picked: those that the picker printed where it
/// ended well, none where it ended badly or was not there to run, and an
/// error where it could not be run.
pub open spec fn file_choice(run: Option<CommandOutcomeView>, multiple: bool) -> Result<
    Seq<Seq<char>>,
    (ErrorKind, Seq<char>),
> {
    match run {
        Some(CommandOutcomeView::Finished { success, code, stdout, stderr }) => if success {
            Ok(picked_paths(stdout, multiple))
        } else {
            Ok(Seq::empty())
        },
        Some(CommandOutcomeView::NotRun(m)) => Err(
            (ErrorKind::IoError, "Failed to open file dialog: "@ + m),
        ),
        _ => Ok(Seq::empty()),
    }
}

/// A list of paths, or the reason why there is none, as the contracts speak
/// of them.
pub open spec fn paths_outcome(r: AppResult<Vec<String>>) -> Result<
    Seq<Seq<char>>,
    (ErrorKind, Seq<char>),
> {
    match r {
        Ok(p) => Ok(texts(p@)),
        Err(e) => Err(e@),
    }
}

/// A program ran and ended well.
pub open spec fn ran_well(run: CommandOutcomeView) -> bool {
    run matches CommandOutcomeView::Finished { success, .. } && success
}

/// Python is there: the program `python3` ended well, or it could not be run
/// and the program `python` ended well.
pub open spec fn python_found(python3: CommandOutcomeView, python: CommandOutcomeView) -> bool {
    match python3 {
        CommandOutcomeView::Finished { success, code, stdout, stderr } => success,
        _ => ran_well(python),
    }
}

/// A program to start, with its arguments.
#[derive(Debug, Clone)]
pub struct ShowCommand {
    pub program: String,
    pub args: Vec<String>,
}

/// The programs to try, in their order, to show or open a file, and the
/// words that go before the error where none of them starts.
#[derive(Debug, Clone)]
pub struct ShowPlan {
    pub commands: Vec<ShowCommand>,
    pub failure: String,
}

/// A command with its texts as sequences of characters.
pub struct ShowCommandView {
    pub program: Seq<char>,
    pub args: Seq<Seq<char>>,
}

/// A plan with its texts as sequences of characters.
pub struct ShowPlanView {
    pub commands: Seq<ShowCommandView>,
    pub failure: Seq<char>,
}

impl View for ShowCommand {
    type V = ShowCommandView;

    open spec fn view(&self) -> ShowCommandView {
        ShowCommandView { program: self.program@, args: texts(self.args@) }
    }
}

impl View for ShowPlan {
    type V = ShowPlanView;

    open spec fn view(&self) -> ShowPlanView {
        ShowPlanView {
            commands: self.commands@.map_values(|c: ShowCommand| c@),
            failure: self.failure@,
        }
    }
}

/// The directory that a file manager is opened on to show a file: the one
/// that holds the file, or the root where the path names none.
pub open spec fn directory_to_show(file_path: Seq<char>) -> Seq<char> {
    match parent_of(file_path) {
        Some(p) => p,
        None => "/"@,
    }
}

/// One command of a plan.
pub open spec fn show_command(program: Seq<char>, args: Seq<Seq<char>>) -> ShowCommandView {
    ShowCommandView { program, args }
}

/// How a file is shown in the file manager of an operating system: Finder
/// and Explorer are pointed at the file, and on Linux the file managers are
/// tried in turn on the directory of the file. Other systems have no plan.
pub open spec fn reveal_plan_of(os: Seq<char>, file_path: Seq<char>) -> ShowPlanView {
    if os == "macos"@ {
        ShowPlanView {
            commands: seq![show_command("open"@, seq!["-R"@, file_path])],
            failure: "Failed to open Finder: "@,
        }
    } else if os == "windows"@ {
        ShowPlanView {
            commands: seq![show_command("explorer"@, seq!["/select,"@, file_path])],
            failure: "Failed to open Explorer: "@,
        }
    } else if os == "linux"@ {
        ShowPlanView {
            commands: seq![
                show_command("nautilus"@, seq![directory_to_show(file_path)]),
                show_command("dolphin"@, seq![directory_to_show(file_path)]),
                show_command("thunar"@, seq![directory_to_show(file_path)]),
                show_command("pcmanfm"@, seq![directory_to_show(file_path)]),
                show_command("nemo"@, seq![directory_to_show(file_path)]),
                show_command("xdg-open"@, seq![directory_to_show(file_path)]),
            ],
            failure: "Failed to open file manager: "@,
        }
    } else {
        ShowPlanView { commands: Seq::empty(), failure: "Failed to open file manager: "@ }
    }
}

/// How a file is opened with the program that an operating system keeps for
/// it. Other systems than the three have no plan.
pub open spec fn open_plan_of(os: Seq<char>, file_path: Seq<char>) -> ShowPlanView {
    if os == "macos"@ {
        ShowPlanView {
            commands: seq![show_command("open"@, seq![file_path])],
            failure: "Failed to open file: "@,
        }
    } else if os == "windows"@ {
        ShowPlanView {
            commands: seq![show_command("cmd"@, seq!["/C"@, "start"@, ""@, file_path])],
            failure: "Failed to open file: "@,
        }
    } else if os == "linux"@ {
        ShowPlanView {
            commands: seq![show_command("xdg-open"@, seq![file_path])],
            failure: "Failed to open file: "@,
        }
    } else {
        ShowPlanView { commands: Seq::empty(), failure: "Failed to open file: "@ }
    }
}

fn command_of(program: &str, args: Vec<String>) -> (c: ShowCommand)
    ensures
        c@ == show_command(program@, texts(args@)),
{
    ShowCommand { program: String::from_str(program), args }
}

fn one_arg(a: &str) -> (r: Vec<String>)
    ensures
        texts(r@) == seq![a@],
{
    let mut r: Vec<String> = Vec::new();
    r.push(String::from_str(a));
    assert(texts(r@) =~= seq![a@]);
    r
}

fn two_args(a: &str, b: &str) -> (r: Vec<String>)
    ensures
        texts(r@) == seq![a@, b@],
{
    let mut r: Vec<String> = Vec::new();
    r.push(String::from_str(a));
    r.push(String::from_str(b));
    assert(texts(r@) =~= seq![a@, b@]);
    r
}

impl SystemIntegration {
    /// The directory that is offered for the given documents and home
    /// directories.
    pub fn directory_from(documents: Option<String>, home: Option<String>) -> (r: AppResult<
        Option<String>,
    >)
        ensures
            choice_outcome(r) == directory_choice(opt_text(documents), opt_text(home)),
    {
        let dir = match documents {
            Some(d) => Some(d),
            None => home,
        };
        match dir {
            Some(d) => Ok(Some(d)),
            None => Err(
                AppError::SystemError(String::from_str("Could not determine default directory")),
            ),
        }
    }

    /// Lets the user pick a directory: the documents directory that the
    /// environment names, or the home directory where it names none.
    pub fn select_directory() -> (r: AppResult<Option<String>>)
        ensures
            exists|documents: Option<Seq<char>>, home: Option<Seq<char>>|
                choice_outcome(r) == directory_choice(documents, home),
    {
        let documents = document_dir();
        let home = home_dir();
        let ghost d = opt_text(documents);
        let ghost h = opt_text(home);
        let r = SystemIntegration::directory_from(documents, home);
        assert(choice_outcome(r) == directory_choice(d, h));
        r
    }

    /// Reads the paths that a file picker printed.
    pub fn picked_file_paths(printed: &str, multiple: bool) -> (r: Vec<String>)
        ensures
            texts(r@) == picked_paths(printed@, multiple),
    {
        let whole = trim(printed);
        let mut r: Vec<String> = Vec::new();
        if multiple {
            let lines = split_lines(whole.as_str());
            let mut i: usize = 0;
            assert(lines@.take(0) =~= Seq::<String>::empty());
            assert(texts(r@) =~= trimmed_nonempty(texts(lines@.take(0))));
            while i < lines.len()
                invariant
                    i <= lines.len(),
                    texts(r@) == trimmed_nonempty(texts(lines@.take(i as int))),
                decreases lines.len() - i,
            {
                let line = trim(lines[i].as_str());
                let ghost before = r@;
                assert(texts(lines@.take(i + 1)).drop_last() =~= texts(lines@.take(i as int)));
                assert(texts(lines@.take(i + 1)).last() == lines@[i as int]@);
                if !line.as_str().is_empty() {
                    r.push(line);
                    assert(texts(r@) =~= texts(before).push(line@));
                }
                i += 1;
            }
            assert(lines@.take(lines.len() as int) =~= lines@);
        } else {
            if !whole.as_str().is_empty() {
                r.push(whole);
                assert(texts(r@) =~= seq![trimmed(printed@)]);
            } else {
                assert(texts(r@) =~= Seq::<Seq<char>>::empty());
            }
        }
        r
    }

    /// Reads what the user picked from a run of the file picker; there is no
    /// run where the system has no picker.
    pub fn select_files(run: Option<&CommandOutcome>, multiple: bool) -> (r: AppResult<Vec<String>>)
        ensures
            paths_outcome(r) == file_choice(opt_outcome(run), multiple),
    {
        match run {
            Some(CommandOutcome::Finished { success, code, stdout, stderr }) => {
                if *success {
                    Ok(SystemIntegration::picked_file_paths(stdout.as_str(), multiple))
                } else {
                    let none: Vec<String> = Vec::new();
                    assert(texts(none@) =~= Seq::<Seq<char>>::empty());
                    Ok(none)
                }
            },
            Some(CommandOutcome::NotRun(m)) => {
                let mut text = String::from_str("Failed to open file dialog: ");
                text.append(m.as_str());
                Err(AppError::IoError(text))
            },
            _ => {
                let none: Vec<String> = Vec::new();
                assert(texts(none@) =~= Seq::<Seq<char>>::empty());
                Ok(none)
            },
        }
    }

    /// Whether a program ran and ended well.
    pub fn ended_well(run: &CommandOutcome) -> (r: bool)
        ensures
            r == ran_well(run@),
    {
        match run {
            CommandOutcome::Finished { success, code, stdout, stderr } => *success,
            _ => false,
        }
    }

    /// Sums up which of the programs that the engine leans on are there, from
    /// runs of `python3`, of `python`, of the worker and of the audio
    /// decoder, each asked for its version.
    pub fn check_system_dependencies(
        python3: &CommandOutcome,
        python: &CommandOutcome,
        cli: &CommandOutcome,
        ffmpeg: &CommandOutcome,
    ) -> (r: SystemDependencyCheck)
        ensures
            r.python_available == python_found(python3@, python@),
            r.cli_available == ran_well(cli@),
            r.ffmpeg_available == ran_well(ffmpeg@),
            !r.whisper_available,
            texts(r.issues@) == dependency_issues(
                python_found(python3@, python@),
                ran_well(cli@),
                ran_well(ffmpeg@),
            ),
    {
        let python_available = match python3 {
            CommandOutcome::Finished { success, code, stdout, stderr } => *success,
            _ => SystemIntegration::ended_well(python),
        };
        SystemIntegration::dependency_summary(
            python_available,
            SystemIntegration::ended_well(cli),
            SystemIntegration::ended_well(ffmpeg),
        )
    }

    /// The programs to try to show a file in the file manager.
    pub fn reveal_plan(os: &str, file_path: &str) -> (plan: ShowPlan)
        ensures
            plan@ == reveal_plan_of(os@, file_path@),
    {
        let system = os.to_owned();
        let mut commands: Vec<ShowCommand> = Vec::new();
        if system == "macos".to_owned() {
            commands.push(command_of("open", two_args("-R", file_path)));
            let plan = ShowPlan { commands, failure: String::from_str("Failed to open Finder: ") };
            assert(plan@.commands =~= reveal_plan_of(os@, file_path@).commands);
            plan
        } else if system == "windows".to_owned() {
            commands.push(command_of("explorer", two_args("/select,", file_path)));
            let plan = ShowPlan {
                commands,
                failure: String::from_str("Failed to open Explorer: "),
            };
            assert(plan@.commands =~= reveal_plan_of(os@, file_path@).commands);
            plan
        } else if system == "linux".to_owned() {
            let directory = SystemIntegration::reveal_directory(file_path);
            commands.push(command_of("nautilus", one_arg(directory.as_str())));
            commands.push(command_of("dolphin", one_arg(directory.as_str())));
            commands.push(command_of("thunar", one_arg(directory.as_str())));
            commands.push(command_of("pcmanfm", one_arg(directory.as_str())));
            commands.push(command_of("nemo", one_arg(directory.as_str())));
            commands.push(command_of("xdg-open", one_arg(directory.as_str())));
            let plan = ShowPlan {
                commands,
                failure: String::from_str("Failed to open file manager: "),
            };
            assert(plan@.commands =~= reveal_plan_of(os@, file_path@).commands);
            plan
        } else {
            let plan = ShowPlan {
                commands,
                failure: String::from_str("Failed to open file manager: "),
            };
            assert(plan@.commands =~= reveal_plan_of(os@, file_path@).commands);
            plan
        }
    }

    /// The programs to try to open a file with the program that the system
    /// keeps for it.
    pub fn open_plan(os: &str, file_path: &str) -> (plan: ShowPlan)
        ensures
            plan@ == open_plan_of(os@, file_path@),
    {
        let system = os.to_owned();
        let mut commands: Vec<ShowCommand> = Vec::new();
        if system == "macos".to_owned() {
            commands.push(command_of("open", one_arg(file_path)));
        } else if system == "windows".to_owned() {
            let mut args: Vec<String> = Vec::new();
            args.push(String::from_str("/C"));
            args.push(String::from_str("start"));
            args.push(String::from_str(""));
            args.push(String::from_str(file_path));
            assert(texts(args@) =~= seq!["/C"@, "start"@, ""@, file_path@]);
            commands.push(command_of("cmd", args));
        } else if system == "linux".to_owned() {
            commands.push(command_of("xdg-open", one_arg(file_path)));
        }
        let plan = ShowPlan { commands, failure: String::from_str("Failed to open file: ") };
        assert(plan@.commands =~= open_plan_of(os@, file_path@).commands);
        plan
    }

    /// The error for a plan of which no program started: the words of the
    /// plan, and then what the system said of the last program.
    pub fn show_failure(plan: &ShowPlan, error: &str) -> (e: AppError)
        ensures
            e@ == (ErrorKind::SystemError, plan@.failure + error@),
    {
        let mut text = plan.failure.clone();
        text.append(error);
        AppError::SystemError(text)
    }

    /// The place that is offered for saving a file with the given name, for
    /// the given documents and home directories.
    pub fn save_place_from(
        documents: Option<String>,
        home: Option<String>,
        default_filename: &str,
    ) -> (r: AppResult<Option<String>>)
        ensures
            choice_outcome(r) == save_choice(
                opt_text(documents),
                opt_text(home),
                default_filename@,
            ),
    {
        let dir = match documents {
            Some(d) => Some(d),
            None => home,
        };
        match dir {
            Some(d) => Ok(Some(join(d.as_str(), default_filename))),
            None => Err(
                AppError::SystemError(String::from_str("Could not determine default directory")),
            ),
        }
    }

    /// Lets the user pick the place to save a file: the file's name in the
    /// documents directory that the environment names, or in the home
    /// directory where it names none.
    pub fn save_file_dialog(default_filename: &str) -> (r: AppResult<Option<String>>)
        ensures
            exists|documents: Option<Seq<char>>, home: Option<Seq<char>>|
                choice_outcome(r) == save_choice(documents, home, default_filename@),
    {
        let documents = document_dir();
        let home = home_dir();
        let ghost d = opt_text(documents);
        let ghost h = opt_text(home);
        let r = SystemIntegration::save_place_from(documents, home, default_filename);
        assert(choice_outcome(r) == save_choice(d, h, default_filename@));
        r
    }

    /// Checks that something is at the path before it is shown or opened.
    /// The file system is asked whether the path exists.
    pub fn require_existing(file_path: &str) -> (r: AppResult<()>)
        ensures
            exists|found: bool|
                outcome(r) == existing_verdict(file_path@, found),
    {
        let found = path_exists(file_path);
        let r = SystemIntegration::existing_from(file_path, found);
        proof {
            assert(outcome(r) == existing_verdict(file_path@, found));
        }
        r
    }

    /// Judges a path that is to be shown or opened from whether the file
    /// system found something there.
    pub fn existing_from(file_path: &str, found: bool) -> (r: AppResult<()>)
        ensures
            outcome(r) == existing_verdict(file_path@, found),
    {
        if found {
            Ok(())
        } else {
            Err(AppError::FileNotFound(String::from_str(file_path)))
        }
    }

    /// The directory that a file manager is opened on to show a file: the
    /// one that holds the file, or the root where the path names none.
    pub fn reveal_directory(file_path: &str) -> (r: String)
        ensures
            r@ == directory_to_show(file_path@),
    {
        match parent(file_path) {
            Some(p) => p,
            None => String::from_str("/"),
        }
    }

    /// The audio formats that the worker reads, with what they are called.
    pub fn get_supported_formats_detailed() -> (r: Vec<FormatInfo>)
        ensures
            format_views(r@) == format_catalog(),
    {
        let mut r: Vec<FormatInfo> = Vec::new();
        r.push(
            FormatInfo {
                extension: String::from_str("m4a"),
                description: String::from_str("MPEG-4 Audio (AAC)"),
                mime_type: String::from_str("audio/mp4"),
            },
        );
        r.push(
            FormatInfo {
                extension: String::from_str("wav"),
                description: String::from_str("Waveform Audio File"),
                mime_type: String::from_str("audio/wav"),
            },
        );
        r.push(
            FormatInfo {
                extension: String::from_str("mp3"),
                description: String::from_str("MPEG Audio Layer III"),
                mime_type: String::from_str("audio/mpeg"),
            },
        );
        r.push(
            FormatInfo {
                extension: String::from_str("aac"),
                description: String::from_str("Advanced Audio Coding"),
                mime_type: String::from_str("audio/aac"),
            },
        );
        r.push(
            FormatInfo {
                extension: String::from_str("flac"),
                description: String::from_str("Free Lossless Audio Codec"),
                mime_type: String::from_str("audio/flac"),
            },
        );
        assert(format_views(r@) =~= format_catalog());
        r
    }

    /// The extensions of the audio formats that the worker reads.
    pub fn get_supported_formats() -> (r: Vec<String>)
        ensures
            texts(r@) == format_extensions(),
    {
        let mut r: Vec<String> = Vec::new();
        r.push(String::from_str("m4a"));
        r.push(String::from_str("wav"));
        r.push(String::from_str("mp3"));
        r.push(String::from_str("aac"));
        r.push(String::from_str("flac"));
        assert(texts(r@) =~= format_extensions());
        r
    }

    /// Whether the worker reads files with this extension, in whatever case
    /// it is written, with or without the dot before it.
    pub fn is_supported_format(extension: &str) -> (r: bool)
        ensures
            r == is_supported_extension(without_dot(lowercase_of(extension@))),
    {
        let lower = to_lowercase(extension);
        let chars = chars_of(lower.as_str());
        if chars.len() > 0 && chars[0] == '.' {
            let mut rest: Vec<char> = Vec::new();
            let mut i: usize = 1;
            while i < chars.len()
                invariant
                    1 <= i <= chars.len(),
                    rest@ == chars@.subrange(1, i as int),
                decreases chars.len() - i,
            {
                rest.push(chars[i]);
                assert(chars@.subrange(1, i + 1) =~= chars@.subrange(1, i as int).push(
                    chars@[i as int],
                ));
                i += 1;
            }
            assert(chars@.subrange(1, chars.len() as int) =~= chars@.skip(1));
            supported_extension(string_of(&rest).as_str())
        } else {
            supported_extension(lower.as_str())
        }
    }

    /// Whether the worker reads the file at a path, going by the extension
    /// of the path.
    pub fn check_file_format_support(file_path: &str) -> (r: bool)
        ensures
            r == (match extension_of(file_path@) {
                Some(e) => is_supported_extension(without_dot(lowercase_of(e))),
                None => false,
            }),
    {
        match extension(file_path) {
            Some(e) => SystemIntegration::is_supported_format(e.as_str()),
            None => false,
        }
    }

    /// Puts together what is known of the machine and of the user's
    /// directories.
    pub fn system_info_from(
        os: &str,
        arch: &str,
        family: &str,
        home: Option<String>,
        documents: Option<String>,
        config: Option<String>,
    ) -> (r: SystemInfo)
        ensures
            r@ == (SystemInfoView {
                os: os@,
                arch: arch@,
                family: family@,
                home_dir: opt_text(home),
                documents_dir: opt_text(documents),
                config_dir: opt_text(config),
            }),
    {
        SystemInfo {
            os: String::from_str(os),
            arch: String::from_str(arch),
            family: String::from_str(family),
            home_dir: home,
            documents_dir: documents,
            config_dir: config,
        }
    }

    /// What is known of the machine and of the user's directories. The
    /// caller names the operating system, the architecture and the family
    /// of the system; the directories are those that the environment names.
    pub fn get_system_info(os: &str, arch: &str, family: &str) -> (r: SystemInfo)
        ensures
            r@.os == os@,
            r@.arch == arch@,
            r@.family == family@,
    {
        SystemIntegration::system_info_from(
            os,
            arch,
            family,
            home_dir(),
            document_dir(),
            config_dir(),
        )
    }

    /// Sums up which of the programs that the engine leans on were found.
    pub fn dependency_summary(python: bool, cli: bool, ffmpeg: bool) -> (r: SystemDependencyCheck)
        ensures
            r.python_available == python,
            r.cli_available == cli,
            r.ffmpeg_available == ffmpeg,
            !r.whisper_available,
            texts(r.issues@) == dependency_issues(python, cli, ffmpeg),
    {
        let mut issues: Vec<String> = Vec::new();
        if !python {
            issues.push(String::from_str("Python is not available in PATH"));
        }
        if !cli {
            issues.push(String::from_str("speech-to-text CLI is not available in PATH"));
        }
        if !ffmpeg {
            issues.push(
                String::from_str(
                    "FFmpeg is not available (optional but recommended for better audio support)",
                ),
            );
        }
        assert(texts(issues@) =~= dependency_issues(python, cli, ffmpeg));
        SystemDependencyCheck {
            python_available: python,
            cli_available: cli,
            ffmpeg_available: ffmpeg,
            whisper_available: false,
            issues,
        }
    }

    /// The space that is free in a directory, from whether the file system
    /// found the directory.
    pub fn disk_space_from(directory: &str, exists: bool) -> (r: AppResult<u64>)
        ensures
            outcome(r) == disk_space_verdict(directory@, exists),
    {
        if exists {
            Ok(1073741824u64)
        } else {
            Err(AppError::FileNotFound(String::from_str(directory)))
        }
    }

    /// The space that is free in a directory, as far as it is known. The
    /// file system is asked whether the directory, as it is named, exists.
    pub fn get_available_disk_space(directory: &str) -> (r: AppResult<u64>)
        ensures
            exists|e: bool| outcome(r) == disk_space_verdict(directory@, e),
    {
        let e = path_exists(directory);
        let r = SystemIntegration::disk_space_from(directory, e);
        assert(outcome(r) == disk_space_verdict(directory@, e));
        r
    }
}

/// What is said of a path that is to be shown or opened, given whether the
/// file system found something there: nothing stands in the way where it
/// did, and the path is reported as not found where it did not.
pub open spec fn existing_verdict(file_path: Seq<char>, found: bool) -> Result<
    (),
    (ErrorKind, Seq<char>),
> {
    if found {
        Ok(())
    } else {
        Err((ErrorKind::FileNotFound, file_path))
    }
}

} // verus!
