//! The data of the engine: settings, audio files, jobs, reports of progress and
//! results.

use crate::paths::{home_dir, join, joined_path};
use crate::text::{lowercase_of, opt_text, to_lowercase};
use vstd::prelude::*;
use vstd::string::*;

verus! {

/// A share of one hundred, held as the fraction `num / den`.
#[derive(Debug, Clone, Copy, PartialEq, Eq, Structural)]
pub struct Percent {
    pub num: u128,
    pub den: u128,
}

impl Percent {
    /// The fraction has a denominator, and lies between 0 and 100.
    pub open spec fn wf(self) -> bool {
        self.den > 0 && self.num <= 100 * self.den
    }

    /// The fraction is at most `bound`.
    pub open spec fn at_most(self, bound: nat) -> bool {
        self.num <= bound * self.den
    }

    /// The fraction is exactly `n / d`.
    pub open spec fn is_ratio(self, n: nat, d: nat) -> bool {
        self.num * d == n * self.den
    }

    /// A whole number of percent; a number above 100 counts as 100.
    pub fn whole(n: u128) -> (p: Percent)
        ensures
            p.wf(),
            p.den == 1,
            p.num == if n <= 100 { n } else { 100 },
    {
        Percent { num: if n <= 100 { n } else { 100 }, den: 1 }
    }

    /// The share that `part` is of `total`, in percent.
    pub fn share(part: usize, total: usize) -> (p: Percent)
        requires
            part <= total,
            total > 0,
        ensures
            p.wf(),
            p.num == 100 * part,
            p.den == total,
    {
        Percent { num: 100 * (part as u128), den: total as u128 }
    }
}

/// The sizes of the speech model.
#[derive(Debug, Clone, Copy, PartialEq, Eq, Structural)]
pub enum ModelSize {
    Tiny,
    Base,
    Small,
    Medium,
    Large,
}

/// The word that names a model size on the worker's command line.
pub open spec fn model_size_text(m: ModelSize) -> Seq<char> {
    match m {
        ModelSize::Tiny => "tiny"@,
        ModelSize::Base => "base"@,
        ModelSize::Small => "small"@,
        ModelSize::Medium => "medium"@,
        ModelSize::Large => "large"@,
    }
}

impl ModelSize {
    pub fn as_str(&self) -> (s: &'static str)
        ensures
            s@ == model_size_text(*self),
    {
        match self {
            ModelSize::Tiny => "tiny",
            ModelSize::Base => "base",
            ModelSize::Small => "small",
            ModelSize::Medium => "medium",
            ModelSize::Large => "large",
        }
    }

    pub fn to_string(&self) -> (s: String)
        ensures
            s@ == model_size_text(*self),
    {
        String::from_str(self.as_str())
    }
}

/// The looks of the user interface.
#[derive(Debug, Clone, Copy, PartialEq, Eq, Structural)]
pub enum Theme {
    Light,
    Dark,
    System,
}

/// The formats in which a transcript can be written.
#[derive(Debug, Clone, Copy, PartialEq, Eq, Structural)]
pub enum OutputFormat {
    Txt,
    Srt,
    Vtt,
    Json,
}

/// Where a file stands on its way through the engine.
#[derive(Debug, Clone, Copy, PartialEq, Eq, Structural)]
pub enum FileStatus {
    Pending,
    Processing,
    Completed,
    Error,
}

/// The stages of one transcription, in the order in which they follow.
#[derive(Debug, Clone, Copy, PartialEq, Eq, Structural)]
pub enum ProcessingStage {
    Initializing,
    LoadingModel,
    Preprocessing,
    Transcribing,
    Postprocessing,
    Finalizing,
    Saving,
}

/// The name of a stage as the user reads it.
pub open spec fn stage_text(s: ProcessingStage) -> Seq<char> {
    match s {
        ProcessingStage::Initializing => "Initializing"@,
        ProcessingStage::LoadingModel => "Loading Model"@,
        ProcessingStage::Preprocessing => "Preprocessing"@,
        ProcessingStage::Transcribing => "Transcribing"@,
        ProcessingStage::Postprocessing => "Postprocessing"@,
        ProcessingStage::Finalizing => "Finalizing"@,
        ProcessingStage::Saving => "Saving"@,
    }
}

impl ProcessingStage {
    /// The place of the stage in the order of stages, from 0.
    pub open spec fn rank(self) -> nat {
        match self {
            ProcessingStage::Initializing => 0,
            ProcessingStage::LoadingModel => 1,
            ProcessingStage::Preprocessing => 2,
            ProcessingStage::Transcribing => 3,
            ProcessingStage::Postprocessing => 4,
            ProcessingStage::Finalizing => 5,
            ProcessingStage::Saving => 6,
        }
    }

    pub fn position(&self) -> (r: u8)
        ensures
            r == self.rank(),
    {
        match self {
            ProcessingStage::Initializing => 0,
            ProcessingStage::LoadingModel => 1,
            ProcessingStage::Preprocessing => 2,
            ProcessingStage::Transcribing => 3,
            ProcessingStage::Postprocessing => 4,
            ProcessingStage::Finalizing => 5,
            ProcessingStage::Saving => 6,
        }
    }

    pub fn to_string(&self) -> (s: String)
        ensures
            s@ == stage_text(*self),
    {
        String::from_str(
            match self {
                ProcessingStage::Initializing => "Initializing",
                ProcessingStage::LoadingModel => "Loading Model",
                ProcessingStage::Preprocessing => "Preprocessing",
                ProcessingStage::Transcribing => "Transcribing",
                ProcessingStage::Postprocessing => "Postprocessing",
                ProcessingStage::Finalizing => "Finalizing",
                ProcessingStage::Saving => "Saving",
            },
        )
    }
}

/// A copy of an optional string.
pub fn copy_opt_text(o: &Option<String>) -> (r: Option<String>)
    ensures
        opt_text(r) == opt_text(*o),
{
    match o {
        Some(s) => Some(s.clone()),
        None => None,
    }
}

/// What a job needs to know of the user's settings, and what the user
/// interface keeps beside it.
#[derive(Debug)]
pub struct AppSettings {
    pub language: String,
    pub model_size: ModelSize,
    pub output_directory: String,
    pub include_metadata: bool,
    pub auto_save: bool,
    pub theme: Theme,
    pub max_concurrent_jobs: u32,
    pub enable_gpu_acceleration: bool,
    pub memory_optimization: bool,
    pub enable_voice_activity_detection: bool,
    pub noise_reduction: bool,
    pub output_format: OutputFormat,
    pub compact_mode: bool,
    pub show_advanced_options: bool,
    pub enable_notifications: bool,
    pub auto_check_updates: bool,
}

/// The settings with the texts as sequences of characters.
pub struct SettingsView {
    pub language: Seq<char>,
    pub model_size: ModelSize,
    pub output_directory: Seq<char>,
    pub include_metadata: bool,
    pub auto_save: bool,
    pub theme: Theme,
    pub max_concurrent_jobs: u32,
    pub enable_gpu_acceleration: bool,
    pub memory_optimization: bool,
    pub enable_voice_activity_detection: bool,
    pub noise_reduction: bool,
    pub output_format: OutputFormat,
    pub compact_mode: bool,
    pub show_advanced_options: bool,
    pub enable_notifications: bool,
    pub auto_check_updates: bool,
}

impl View for AppSettings {
    type V = SettingsView;

    open spec fn view(&self) -> SettingsView {
        SettingsView {
            language: self.language@,
            model_size: self.model_size,
            output_directory: self.output_directory@,
            include_metadata: self.include_metadata,
            auto_save: self.auto_save,
            theme: self.theme,
            max_concurrent_jobs: self.max_concurrent_jobs,
            enable_gpu_acceleration: self.enable_gpu_acceleration,
            memory_optimization: self.memory_optimization,
            enable_voice_activity_detection: self.enable_voice_activity_detection,
            noise_reduction: self.noise_reduction,
            output_format: self.output_format,
            compact_mode: self.compact_mode,
            show_advanced_options: self.show_advanced_options,
            enable_notifications: self.enable_notifications,
            auto_check_updates: self.auto_check_updates,
        }
    }
}

/// The settings of a fresh installation whose documents are kept at
/// `output_directory`.
pub open spec fn default_settings(output_directory: Seq<char>) -> SettingsView {
    SettingsView {
        language: "ko"@,
        model_size: ModelSize::Base,
        output_directory,
        include_metadata: true,
        auto_save: true,
        theme: Theme::System,
        max_concurrent_jobs: 2,
        enable_gpu_acceleration: false,
        memory_optimization: true,
        enable_voice_activity_detection: true,
        noise_reduction: false,
        output_format: OutputFormat::Txt,
        compact_mode: false,
        show_advanced_options: false,
        enable_notifications: true,
        auto_check_updates: true,
    }
}

/// The home directory as text; the empty path where there is none.
pub open spec fn home_or_empty(home: Option<Seq<char>>) -> Seq<char> {
    match home {
        Some(h) => h,
        None => Seq::empty(),
    }
}

impl AppSettings {
    /// The settings of a fresh installation, for a user with the given home
    /// directory: transcripts go to `Documents` below it.
    pub fn with_home(home: Option<String>) -> (s: AppSettings)
        ensures
            s@ == default_settings(
                joined_path(home_or_empty(opt_text(home)), "Documents"@),
            ),
    {
        let base = match home {
            Some(h) => h,
            None => String::new(),
        };
        AppSettings {
            language: String::from_str("ko"),
            model_size: ModelSize::Base,
            output_directory: join(base.as_str(), "Documents"),
            include_metadata: true,
            auto_save: true,
            theme: Theme::System,
            max_concurrent_jobs: 2,
            enable_gpu_acceleration: false,
            memory_optimization: true,
            enable_voice_activity_detection: true,
            noise_reduction: false,
            output_format: OutputFormat::Txt,
            compact_mode: false,
            show_advanced_options: false,
            enable_notifications: true,
            auto_check_updates: true,
        }
    }
}

impl Default for AppSettings {
    /// The settings of a fresh installation, for the user whose home
    /// directory the environment names.
    fn default() -> (s: AppSettings)
        ensures
            exists|home: Option<Seq<char>>|
                s@ == default_settings(joined_path(home_or_empty(home), "Documents"@)),
    {
        let home = home_dir();
        let ghost h = opt_text(home);
        let s = AppSettings::with_home(home);
        assert(s@ == default_settings(joined_path(home_or_empty(h), "Documents"@)));
        s
    }
}

impl Clone for AppSettings {
    fn clone(&self) -> (s: AppSettings)
        ensures
            s@ == self@,
    {
        AppSettings {
            language: self.language.clone(),
            model_size: self.model_size,
            output_directory: self.output_directory.clone(),
            include_metadata: self.include_metadata,
            auto_save: self.auto_save,
            theme: self.theme,
            max_concurrent_jobs: self.max_concurrent_jobs,
            enable_gpu_acceleration: self.enable_gpu_acceleration,
            memory_optimization: self.memory_optimization,
            enable_voice_activity_detection: self.enable_voice_activity_detection,
            noise_reduction: self.noise_reduction,
            output_format: self.output_format,
            compact_mode: self.compact_mode,
            show_advanced_options: self.show_advanced_options,
            enable_notifications: self.enable_notifications,
            auto_check_updates: self.auto_check_updates,
        }
    }
}

/// An audio file that the engine has accepted.
#[derive(Debug)]
pub struct AudioFile {
    pub id: String,
    pub name: String,
    pub path: String,
    pub size: u64,
    pub format: String,
    /// The length of the recording in milliseconds, once it is known.
    pub duration_ms: Option<u64>,
    pub status: FileStatus,
}

/// An audio file with its texts as sequences of characters.
pub struct AudioFileView {
    pub id: Seq<char>,
    pub name: Seq<char>,
    pub path: Seq<char>,
    pub size: u64,
    pub format: Seq<char>,
    pub duration_ms: Option<u64>,
    pub status: FileStatus,
}

impl View for AudioFile {
    type V = AudioFileView;

    open spec fn view(&self) -> AudioFileView {
        AudioFileView {
            id: self.id@,
            name: self.name@,
            path: self.path@,
            size: self.size,
            format: self.format@,
            duration_ms: self.duration_ms,
            status: self.status,
        }
    }
}

impl Clone for AudioFile {
    fn clone(&self) -> (r: AudioFile)
        ensures
            r@ == self@,
    {
        AudioFile {
            id: self.id.clone(),
            name: self.name.clone(),
            path: self.path.clone(),
            size: self.size,
            format: self.format.clone(),
            duration_ms: self.duration_ms,
            status: self.status,
        }
    }
}

/// What is known of the recording itself.
#[derive(Debug, Clone, Copy, PartialEq, Eq, Structural)]
pub struct AudioInfo {
    /// The length of the recording in milliseconds; 0 where the worker did
    /// not say.
    pub duration_ms: u64,
    pub sample_rate: Option<u32>,
    pub channels: Option<u32>,
}

/// The circumstances of a transcription.
#[derive(Debug)]
pub struct TranscriptionMetadata {
    pub language: String,
    pub model_size: String,
    /// When the result was put together, in milliseconds since the epoch.
    pub timestamp: i64,
    pub audio_info: AudioInfo,
}

/// The metadata with its texts as sequences of characters.
pub struct MetadataView {
    pub language: Seq<char>,
    pub model_size: Seq<char>,
    pub timestamp: i64,
    pub audio_info: AudioInfo,
}

impl View for TranscriptionMetadata {
    type V = MetadataView;

    open spec fn view(&self) -> MetadataView {
        MetadataView {
            language: self.language@,
            model_size: self.model_size@,
            timestamp: self.timestamp,
            audio_info: self.audio_info,
        }
    }
}

/// The transcript of one file, and where it was found.
#[derive(Debug)]
pub struct TranscriptionResult {
    pub id: String,
    pub original_file: AudioFile,
    pub transcribed_text: String,
    pub metadata: TranscriptionMetadata,
    pub output_path: String,
    /// The time that the work took, in milliseconds.
    pub processing_time_ms: u64,
    pub confidence: Option<Percent>,
}

/// A result with its texts as sequences of characters.
pub struct ResultView {
    pub id: Seq<char>,
    pub original_file: AudioFileView,
    pub transcribed_text: Seq<char>,
    pub metadata: MetadataView,
    pub output_path: Seq<char>,
    pub processing_time_ms: u64,
    pub confidence: Option<Percent>,
}

impl View for TranscriptionResult {
    type V = ResultView;

    open spec fn view(&self) -> ResultView {
        ResultView {
            id: self.id@,
            original_file: self.original_file@,
            transcribed_text: self.transcribed_text@,
            metadata: self.metadata@,
            output_path: self.output_path@,
            processing_time_ms: self.processing_time_ms,
            confidence: self.confidence,
        }
    }
}

impl Clone for TranscriptionResult {
    fn clone(&self) -> (r: TranscriptionResult)
        ensures
            r@ == self@,
    {
        TranscriptionResult {
            id: self.id.clone(),
            original_file: self.original_file.clone(),
            transcribed_text: self.transcribed_text.clone(),
            metadata: TranscriptionMetadata {
                language: self.metadata.language.clone(),
                model_size: self.metadata.model_size.clone(),
                timestamp: self.metadata.timestamp,
                audio_info: self.metadata.audio_info,
            },
            output_path: self.output_path.clone(),
            processing_time_ms: self.processing_time_ms,
            confidence: self.confidence,
        }
    }
}

/// The views of a list of audio files.
pub open spec fn file_views(files: Seq<AudioFile>) -> Seq<AudioFileView> {
    files.map_values(|f: AudioFile| f@)
}

/// A batch of files on its way through the engine.
#[derive(Debug)]
pub struct ProcessingJob {
    pub id: String,
    pub files: Vec<AudioFile>,
    pub current_file_index: usize,
    pub progress: Percent,
    pub stage: ProcessingStage,
    /// When the batch was started, in milliseconds since the epoch.
    pub start_time: i64,
    pub estimated_completion: Option<i64>,
    pub is_cancelled: bool,
    pub can_cancel: bool,
}

/// A job with its texts as sequences of characters.
pub struct JobView {
    pub id: Seq<char>,
    pub files: Seq<AudioFileView>,
    pub current_file_index: usize,
    pub progress: Percent,
    pub stage: ProcessingStage,
    pub start_time: i64,
    pub estimated_completion: Option<i64>,
    pub is_cancelled: bool,
    pub can_cancel: bool,
}

impl View for ProcessingJob {
    type V = JobView;

    open spec fn view(&self) -> JobView {
        JobView {
            id: self.id@,
            files: file_views(self.files@),
            current_file_index: self.current_file_index,
            progress: self.progress,
            stage: self.stage,
            start_time: self.start_time,
            estimated_completion: self.estimated_completion,
            is_cancelled: self.is_cancelled,
            can_cancel: self.can_cancel,
        }
    }
}

/// A copy of a list of audio files.
pub fn copy_files(files: &Vec<AudioFile>) -> (r: Vec<AudioFile>)
    ensures
        file_views(r@) == file_views(files@),
{
    let mut r: Vec<AudioFile> = Vec::new();
    let mut i: usize = 0;
    while i < files.len()
        invariant
            i <= files.len(),
            r.len() == i,
            forall|j: int| 0 <= j < i ==> (#[trigger] r@[j])@ == files@[j]@,
        decreases files.len() - i,
    {
        r.push(files[i].clone());
        i += 1;
    }
    assert(file_views(r@) =~= file_views(files@));
    r
}

impl Clone for ProcessingJob {
    fn clone(&self) -> (r: ProcessingJob)
        ensures
            r@ == self@,
    {
        ProcessingJob {
            id: self.id.clone(),
            files: copy_files(&self.files),
            current_file_index: self.current_file_index,
            progress: self.progress,
            stage: self.stage,
            start_time: self.start_time,
            estimated_completion: self.estimated_completion,
            is_cancelled: self.is_cancelled,
            can_cancel: self.can_cancel,
        }
    }
}

impl ProcessingJob {
    /// A job that has just been started on the given files.
    pub fn start(id: String, files: Vec<AudioFile>, start_time: i64) -> (job: ProcessingJob)
        ensures
            job@ == (JobView {
                id: id@,
                files: file_views(files@),
                current_file_index: 0,
                progress: Percent { num: 0, den: 1 },
                stage: ProcessingStage::Initializing,
                start_time,
                estimated_completion: None,
                is_cancelled: false,
                can_cancel: true,
            }),
    {
        ProcessingJob {
            id,
            files,
            current_file_index: 0,
            progress: Percent::whole(0),
            stage: ProcessingStage::Initializing,
            start_time,
            estimated_completion: None,
            is_cancelled: false,
            can_cancel: true,
        }
    }
}

/// One report of how far a file or a batch has come.
#[derive(Debug)]
pub struct ProcessingProgress {
    pub stage: ProcessingStage,
    pub progress: Percent,
    pub current_file: Option<String>,
    /// When the report was made, in milliseconds since the epoch.
    pub timestamp: i64,
    pub message: Option<String>,
    pub job_id: Option<String>,
    pub file_index: Option<usize>,
    pub total_files: Option<usize>,
    pub can_cancel: bool,
}

/// A report with its texts as sequences of characters.
pub struct ProgressView {
    pub stage: ProcessingStage,
    pub progress: Percent,
    pub current_file: Option<Seq<char>>,
    pub timestamp: i64,
    pub message: Option<Seq<char>>,
    pub job_id: Option<Seq<char>>,
    pub file_index: Option<usize>,
    pub total_files: Option<usize>,
    pub can_cancel: bool,
}

impl View for ProcessingProgress {
    type V = ProgressView;

    open spec fn view(&self) -> ProgressView {
        ProgressView {
            stage: self.stage,
            progress: self.progress,
            current_file: opt_text(self.current_file),
            timestamp: self.timestamp,
            message: opt_text(self.message),
            job_id: opt_text(self.job_id),
            file_index: self.file_index,
            total_files: self.total_files,
            can_cancel: self.can_cancel,
        }
    }
}

impl Clone for ProcessingProgress {
    fn clone(&self) -> (r: ProcessingProgress)
        ensures
            r@ == self@,
    {
        ProcessingProgress {
            stage: self.stage,
            progress: self.progress,
            current_file: copy_opt_text(&self.current_file),
            timestamp: self.timestamp,
            message: copy_opt_text(&self.message),
            job_id: copy_opt_text(&self.job_id),
            file_index: self.file_index,
            total_files: self.total_files,
            can_cancel: self.can_cancel,
        }
    }
}

/// The counts and times of a finished batch.
#[derive(Debug, Clone, Copy, PartialEq, Eq, Structural)]
pub struct BatchStatistics {
    pub total_files: usize,
    pub completed_files: usize,
    pub failed_files: usize,
    /// In milliseconds.
    pub total_processing_time_ms: u64,
    /// In milliseconds.
    pub average_processing_time_ms: u64,
}

/// A file that failed, with the reason and the time.
#[derive(Debug, Clone)]
pub struct ProcessingError {
    pub file_path: String,
    pub error_message: String,
    /// In milliseconds since the epoch.
    pub timestamp: i64,
}

/// What a batch produced.
#[derive(Debug, Clone)]
pub struct BatchResult {
    pub job_id: String,
    pub statistics: BatchStatistics,
    pub results: Vec<TranscriptionResult>,
    pub errors: Vec<ProcessingError>,
}

/// A file that was not accepted, with the reason.
#[derive(Debug, Clone)]
pub struct FileValidationError {
    pub file_path: String,
    pub error_message: String,
}

/// What came of checking the files of a batch before it starts.
#[derive(Debug, Clone)]
pub struct BatchValidationResult {
    pub valid_files: Vec<AudioFile>,
    pub invalid_files: Vec<FileValidationError>,
    pub total_size: u64,
    pub estimated_output_size: u64,
    pub can_proceed: bool,
    pub warnings: Vec<String>,
}

/// The extensions of the audio formats that the worker reads.
pub const SUPPORTED_FORMATS: [&'static str; 5] = ["m4a", "wav", "mp3", "aac", "flac"];

/// `ext` is, letter for letter, one of the supported extensions.
pub open spec fn is_supported_extension(ext: Seq<char>) -> bool {
    ext == "m4a"@ || ext == "wav"@ || ext == "mp3"@ || ext == "aac"@ || ext == "flac"@
}

/// Whether `ext` is, letter for letter, one of the supported extensions.
pub fn supported_extension(ext: &str) -> (r: bool)
    ensures
        r == is_supported_extension(ext@),
{
    let e = ext.to_owned();
    e == "m4a".to_owned() || e == "wav".to_owned() || e == "mp3".to_owned() || e == "aac".to_owned()
        || e == "flac".to_owned()
}

/// Whether the worker reads files with this extension, in whatever case it
/// is written.
pub fn is_supported_format(extension: &str) -> (r: bool)
    ensures
        r == is_supported_extension(lowercase_of(extension@)),
{
    let lower = to_lowercase(extension);
    supported_extension(lower.as_str())
}

} // verus!
