//! The settings: where they are kept, when they are in order, and how one of
//! them is changed.

use crate::error::{outcome, AppError, AppResult, ErrorKind};
use crate::models::{AppSettings, ModelSize, SettingsView, Theme};
use crate::paths::{config_dir, is_absolute, is_absolute_path, join, joined_path, path_exists};
use crate::text::{blank, is_blank, opt_text};
use std::path::PathBuf;
use vstd::prelude::*;
use vstd::string::*;

verus! {

/// `std::path::PathBuf`, as a value that is carried through.
#[verifier::external_type_specification]
#[verifier::external_body]
pub struct ExPathBuf(PathBuf);

/// A path as text, as `Path::to_string_lossy` writes it.
pub uninterp spec fn path_text(path: PathBuf) -> Seq<char>;

/// Calls `PathBuf::from` on a text: the path that the text writes.
#[verifier::external_body]
fn path_from_text(text: &str) -> (path: PathBuf)
    ensures
        path_text(path) == text@,
{
    PathBuf::from(text)
}

/// Calls `Path::to_string_lossy`: the path as text.
#[verifier::external_body]
fn text_of_path(path: &PathBuf) -> (text: String)
    ensures
        text@ == path_text(*path),
{
    path.to_string_lossy().to_string()
}

/// Where the settings are kept.
pub struct SettingsManager {
    config_path: PathBuf,
}

/// What the file system shows at the place of the output directory, after
/// the directory was made where nothing was there.
#[derive(Debug)]
pub enum DirectoryProbe {
    /// A directory is there.
    Directory,
    /// Something is there that is no directory.
    NotDirectory,
    /// Nothing was there, and the directory was made.
    Created,
    /// Nothing was there, and the directory could not be made; the text
    /// says why.
    CreateFailed(String),
}

/// A probe with its text as a sequence of characters.
pub enum DirectoryProbeView {
    Directory,
    NotDirectory,
    Created,
    CreateFailed(Seq<char>),
}

impl View for DirectoryProbe {
    type V = DirectoryProbeView;

    open spec fn view(&self) -> DirectoryProbeView {
        match self {
            DirectoryProbe::Directory => DirectoryProbeView::Directory,
            DirectoryProbe::NotDirectory => DirectoryProbeView::NotDirectory,
            DirectoryProbe::Created => DirectoryProbeView::Created,
            DirectoryProbe::CreateFailed(m) => DirectoryProbeView::CreateFailed(m@),
        }
    }
}

/// The file in which the settings are kept, below the user's configuration
/// directory; an error where the user has none.
pub open spec fn default_config_path(config: Option<Seq<char>>) -> Result<
    Seq<char>,
    (ErrorKind, Seq<char>),
> {
    match config {
        Some(c) => Ok(joined_path(joined_path(c, "speech-to-text-gui"@), "settings.json"@)),
        None => Err((ErrorKind::ConfigError, "Could not determine config directory"@)),
    }
}

/// What the check of the language says: it must not be blank.
pub open spec fn language_verdict(language: Seq<char>) -> Result<(), (ErrorKind, Seq<char>)> {
    if is_blank(language) {
        Err((ErrorKind::ConfigError, "Language cannot be empty"@))
    } else {
        Ok(())
    }
}

/// What the check of the output directory says, given what the file system
/// shows at its place: it must be a directory, or have been made.
pub open spec fn directory_verdict(output_dir: Seq<char>, probe: DirectoryProbeView) -> Result<
    (),
    (ErrorKind, Seq<char>),
> {
    match probe {
        DirectoryProbeView::NotDirectory => Err(
            (
                ErrorKind::ConfigError,
                "Output path '"@ + output_dir + "' exists but is not a directory"@,
            ),
        ),
        DirectoryProbeView::CreateFailed(m) => Err(
            (ErrorKind::ConfigError, "Cannot create output directory '"@ + output_dir + "': "@ + m),
        ),
        _ => Ok(()),
    }
}

/// What the check of the settings says, given what the file system shows at
/// the place of the output directory: first the language is checked, then
/// the directory.
pub open spec fn settings_verdict(settings: SettingsView, probe: DirectoryProbeView) -> Result<
    (),
    (ErrorKind, Seq<char>),
> {
    if language_verdict(settings.language) is Err {
        language_verdict(settings.language)
    } else {
        directory_verdict(settings.output_directory, probe)
    }
}

/// The path of a manager, or the reason why there is none, as the contracts
/// speak of them.
pub open spec fn manager_outcome(r: AppResult<SettingsManager>) -> Result<
    Seq<char>,
    (ErrorKind, Seq<char>),
> {
    match r {
        Ok(m) => Ok(m.path()),
        Err(e) => Err(e@),
    }
}

impl SettingsManager {
    /// The path of the file in which the settings are kept, as text.
    pub closed spec fn path(&self) -> Seq<char> {
        path_text(self.config_path)
    }

    /// A manager for the settings of a user with the given configuration
    /// directory.
    pub fn in_config_dir(config: &Option<String>) -> (r: AppResult<SettingsManager>)
        ensures
            manager_outcome(r) == default_config_path(opt_text(*config)),
    {
        match config {
            Some(c) => {
                let dir = join(c.as_str(), "speech-to-text-gui");
                let file = join(dir.as_str(), "settings.json");
                Ok(SettingsManager { config_path: path_from_text(file.as_str()) })
            },
            None => Err(
                AppError::ConfigError(String::from_str("Could not determine config directory")),
            ),
        }
    }

    /// A manager for the settings of the user whose configuration directory
    /// the environment names.
    pub fn new() -> (r: AppResult<SettingsManager>)
        ensures
            exists|config: Option<Seq<char>>| manager_outcome(r) == default_config_path(config),
    {
        let config = config_dir();
        let r = SettingsManager::in_config_dir(&config);
        assert(manager_outcome(r) == default_config_path(opt_text(config)));
        r
    }

    /// A manager for settings that are kept in the given file.
    pub fn with_config_path(config_path: PathBuf) -> (m: SettingsManager)
        ensures
            m.path() == path_text(config_path),
    {
        SettingsManager { config_path }
    }

    /// Checks the language of the settings. It is the first of the checks,
    /// and the output directory is looked at only where it passes.
    pub fn validate_language(&self, settings: &AppSettings) -> (r: AppResult<()>)
        ensures
            outcome(r) == language_verdict(settings@.language),
    {
        if blank(settings.language.as_str()) {
            Err(AppError::ConfigError(String::from_str("Language cannot be empty")))
        } else {
            Ok(())
        }
    }

    /// Checks an output directory, given what the file system shows at its
    /// place.
    pub fn validate_output_directory(&self, output_dir: &str, probe: &DirectoryProbe) -> (r:
        AppResult<()>)
        ensures
            outcome(r) == directory_verdict(output_dir@, probe@),
    {
        match probe {
            DirectoryProbe::NotDirectory => {
                let mut text = String::from_str("Output path '");
                text.append(output_dir);
                text.append("' exists but is not a directory");
                Err(AppError::ConfigError(text))
            },
            DirectoryProbe::CreateFailed(m) => {
                let mut text = String::from_str("Cannot create output directory '");
                text.append(output_dir);
                text.append("': ");
                text.append(m.as_str());
                assert(text@ =~= "Cannot create output directory '"@ + output_dir@ + "': "@ + m@);
                Err(AppError::ConfigError(text))
            },
            _ => Ok(()),
        }
    }

    /// Checks the settings, given what the file system shows at the place
    /// of their output directory.
    pub fn validate_settings(&self, settings: &AppSettings, probe: &DirectoryProbe) -> (r:
        AppResult<()>)
        ensures
            outcome(r) == settings_verdict(settings@, probe@),
    {
        match self.validate_language(settings) {
            Err(e) => Err(e),
            Ok(_) => self.validate_output_directory(settings.output_directory.as_str(), probe),
        }
    }

    /// The file in which the settings are kept.
    pub fn get_config_path(&self) -> (p: &PathBuf)
        ensures
            path_text(*p) == self.path(),
    {
        &self.config_path
    }

    /// Whether the file in which the settings are kept is there. The file
    /// system is asked for the path that `config_path_text` gives; nothing
    /// is claimed of the answer.
    pub fn config_exists(&self) -> (r: bool) {
        let text = self.config_path_text();
        path_exists(text.as_str())
    }

    /// The path of the file in which the settings are kept, as text.
    pub fn config_path_text(&self) -> (text: String)
        ensures
            text@ == self.path(),
    {
        text_of_path(&self.config_path)
    }
}

/// Checks of single settings.
pub struct SettingsValidator;

/// What the check of a language code says: it must not be blank, and must
/// take two to five bytes.
pub open spec fn language_code_verdict(language: &str) -> Result<(), (ErrorKind, Seq<char>)> {
    if is_blank(language@) {
        Err((ErrorKind::ConfigError, "Language code cannot be empty"@))
    } else if language.len() < 2 || language.len() > 5 {
        Err((ErrorKind::ConfigError, "Language code should be 2-5 characters long"@))
    } else {
        Ok(())
    }
}

/// What the check of a directory path says: it must not be blank, and must
/// be absolute.
pub open spec fn directory_path_verdict(path: Seq<char>) -> Result<(), (ErrorKind, Seq<char>)> {
    if is_blank(path) {
        Err((ErrorKind::ConfigError, "Directory path cannot be empty"@))
    } else if !is_absolute_path(path) {
        Err((ErrorKind::ConfigError, "Output directory should be an absolute path"@))
    } else {
        Ok(())
    }
}

impl SettingsValidator {
    /// Checks the form of a language code.
    pub fn validate_language_code(language: &str) -> (r: AppResult<()>)
        ensures
            outcome(r) == language_code_verdict(language),
    {
        if blank(language) {
            return Err(AppError::ConfigError(String::from_str("Language code cannot be empty")));
        }
        if language.len() < 2 || language.len() > 5 {
            return Err(
                AppError::ConfigError(
                    String::from_str("Language code should be 2-5 characters long"),
                ),
            );
        }
        Ok(())
    }

    /// Checks the size of the model: every size is in order.
    pub fn validate_model_size(_model_size: &ModelSize) -> (r: AppResult<()>)
        ensures
            r is Ok,
    {
        Ok(())
    }

    /// Checks the theme: every theme is in order.
    pub fn validate_theme(_theme: &Theme) -> (r: AppResult<()>)
        ensures
            r is Ok,
    {
        Ok(())
    }

    /// Checks the form of the path of a directory.
    pub fn validate_directory_path(path: &str) -> (r: AppResult<()>)
        ensures
            outcome(r) == directory_path_verdict(path@),
    {
        if blank(path) {
            return Err(AppError::ConfigError(String::from_str("Directory path cannot be empty")));
        }
        if !is_absolute(path) {
            return Err(
                AppError::ConfigError(
                    String::from_str("Output directory should be an absolute path"),
                ),
            );
        }
        Ok(())
    }
}

/// A change of one setting.
#[derive(Debug)]
pub enum SettingsUpdate {
    Language(String),
    ModelSize(ModelSize),
    OutputDirectory(String),
    IncludeMetadata(bool),
    AutoSave(bool),
    Theme(Theme),
}

/// A change with its texts as sequences of characters.
pub enum SettingsUpdateView {
    Language(Seq<char>),
    ModelSize(ModelSize),
    OutputDirectory(Seq<char>),
    IncludeMetadata(bool),
    AutoSave(bool),
    Theme(Theme),
}

impl View for SettingsUpdate {
    type V = SettingsUpdateView;

    open spec fn view(&self) -> SettingsUpdateView {
        match self {
            SettingsUpdate::Language(s) => SettingsUpdateView::Language(s@),
            SettingsUpdate::ModelSize(m) => SettingsUpdateView::ModelSize(*m),
            SettingsUpdate::OutputDirectory(s) => SettingsUpdateView::OutputDirectory(s@),
            SettingsUpdate::IncludeMetadata(b) => SettingsUpdateView::IncludeMetadata(*b),
            SettingsUpdate::AutoSave(b) => SettingsUpdateView::AutoSave(*b),
            SettingsUpdate::Theme(t) => SettingsUpdateView::Theme(*t),
        }
    }
}

/// The settings after one of them was changed.
pub open spec fn updated(settings: SettingsView, update: SettingsUpdateView) -> SettingsView {
    match update {
        SettingsUpdateView::Language(s) => SettingsView { language: s, ..settings },
        SettingsUpdateView::ModelSize(m) => SettingsView { model_size: m, ..settings },
        SettingsUpdateView::OutputDirectory(s) => SettingsView { output_directory: s, ..settings },
        SettingsUpdateView::IncludeMetadata(b) => SettingsView { include_metadata: b, ..settings },
        SettingsUpdateView::AutoSave(b) => SettingsView { auto_save: b, ..settings },
        SettingsUpdateView::Theme(t) => SettingsView { theme: t, ..settings },
    }
}

fn set_language(settings: &mut AppSettings, language: String)
    ensures
        final(settings)@ == (SettingsView { language: language@, ..old(settings)@ }),
{
    settings.language = language;
}

fn set_output_directory(settings: &mut AppSettings, directory: String)
    ensures
        final(settings)@ == (SettingsView { output_directory: directory@, ..old(settings)@ }),
{
    settings.output_directory = directory;
}

fn set_model_size(settings: &mut AppSettings, model_size: ModelSize)
    ensures
        final(settings)@ == (SettingsView { model_size, ..old(settings)@ }),
{
    settings.model_size = model_size;
}

fn set_theme(settings: &mut AppSettings, theme: Theme)
    ensures
        final(settings)@ == (SettingsView { theme, ..old(settings)@ }),
{
    settings.theme = theme;
}

fn set_include_metadata(settings: &mut AppSettings, include_metadata: bool)
    ensures
        final(settings)@ == (SettingsView { include_metadata, ..old(settings)@ }),
{
    settings.include_metadata = include_metadata;
}

fn set_auto_save(settings: &mut AppSettings, auto_save: bool)
    ensures
        final(settings)@ == (SettingsView { auto_save, ..old(settings)@ }),
{
    settings.auto_save = auto_save;
}

/// Changes one setting.
pub fn apply_update(settings: &mut AppSettings, update: SettingsUpdate)
    ensures
        final(settings)@ == updated(old(settings)@, update@),
{
    match update {
        SettingsUpdate::Language(s) => set_language(settings, s),
        SettingsUpdate::ModelSize(m) => set_model_size(settings, m),
        SettingsUpdate::OutputDirectory(s) => set_output_directory(settings, s),
        SettingsUpdate::IncludeMetadata(b) => set_include_metadata(settings, b),
        SettingsUpdate::AutoSave(b) => set_auto_save(settings, b),
        SettingsUpdate::Theme(t) => set_theme(settings, t),
    }
}

/// The value that comes with the name of a setting.
#[derive(Debug)]
pub enum FieldValue {
    Text(String),
    Flag(bool),
    /// A value of another kind: a number, a list, nothing.
    Other,
}

/// A value with its text as a sequence of characters.
pub enum FieldValueView {
    Text(Seq<char>),
    Flag(bool),
    Other,
}

impl View for FieldValue {
    type V = FieldValueView;

    open spec fn view(&self) -> FieldValueView {
        match self {
            FieldValue::Text(s) => FieldValueView::Text(s@),
            FieldValue::Flag(b) => FieldValueView::Flag(*b),
            FieldValue::Other => FieldValueView::Other,
        }
    }
}

/// The size of the model that a word names.
pub open spec fn model_size_named(word: Seq<char>) -> Option<ModelSize> {
    if word == "tiny"@ {
        Some(ModelSize::Tiny)
    } else if word == "base"@ {
        Some(ModelSize::Base)
    } else if word == "small"@ {
        Some(ModelSize::Small)
    } else if word == "medium"@ {
        Some(ModelSize::Medium)
    } else if word == "large"@ {
        Some(ModelSize::Large)
    } else {
        None
    }
}

/// The theme that a word names.
pub open spec fn theme_named(word: Seq<char>) -> Option<Theme> {
    if word == "light"@ {
        Some(Theme::Light)
    } else if word == "dark"@ {
        Some(Theme::Dark)
    } else if word == "system"@ {
        Some(Theme::System)
    } else {
        None
    }
}

/// The size of the model that a word names.
pub fn parse_model_size(word: &str) -> (r: Option<ModelSize>)
    ensures
        r == model_size_named(word@),
{
    let w = word.to_owned();
    if w == "tiny".to_owned() {
        Some(ModelSize::Tiny)
    } else if w == "base".to_owned() {
        Some(ModelSize::Base)
    } else if w == "small".to_owned() {
        Some(ModelSize::Small)
    } else if w == "medium".to_owned() {
        Some(ModelSize::Medium)
    } else if w == "large".to_owned() {
        Some(ModelSize::Large)
    } else {
        None
    }
}

/// The theme that a word names.
pub fn parse_theme(word: &str) -> (r: Option<Theme>)
    ensures
        r == theme_named(word@),
{
    let w = word.to_owned();
    if w == "light".to_owned() {
        Some(Theme::Light)
    } else if w == "dark".to_owned() {
        Some(Theme::Dark)
    } else if w == "system".to_owned() {
        Some(Theme::System)
    } else {
        None
    }
}

/// The change that the name of a setting and a value ask for; none where
/// the name is not known or the value is of the wrong kind.
pub open spec fn field_update(field: Seq<char>, value: FieldValueView) -> Option<
    SettingsUpdateView,
> {
    if field == "language"@ {
        match value {
            FieldValueView::Text(s) => Some(SettingsUpdateView::Language(s)),
            _ => None,
        }
    } else if field == "model_size"@ {
        match value {
            FieldValueView::Text(s) => match model_size_named(s) {
                Some(m) => Some(SettingsUpdateView::ModelSize(m)),
                None => None,
            },
            _ => None,
        }
    } else if field == "output_directory"@ {
        match value {
            FieldValueView::Text(s) => Some(SettingsUpdateView::OutputDirectory(s)),
            _ => None,
        }
    } else if field == "include_metadata"@ {
        match value {
            FieldValueView::Flag(b) => Some(SettingsUpdateView::IncludeMetadata(b)),
            _ => None,
        }
    } else if field == "auto_save"@ {
        match value {
            FieldValueView::Flag(b) => Some(SettingsUpdateView::AutoSave(b)),
            _ => None,
        }
    } else if field == "theme"@ {
        match value {
            FieldValueView::Text(s) => match theme_named(s) {
                Some(t) => Some(SettingsUpdateView::Theme(t)),
                None => None,
            },
            _ => None,
        }
    } else {
        None
    }
}

/// The view of an optional change.
pub open spec fn opt_update(u: Option<SettingsUpdate>) -> Option<SettingsUpdateView> {
    match u {
        Some(u) => Some(u@),
        None => None,
    }
}

/// Reads a change from the name of a setting and a value.
pub fn update_for_field(field: &str, value: &FieldValue) -> (r: Option<SettingsUpdate>)
    ensures
        opt_update(r) == field_update(field@, value@),
{
    let f = field.to_owned();
    if f == "language".to_owned() {
        match value {
            FieldValue::Text(s) => Some(SettingsUpdate::Language(s.clone())),
            _ => None,
        }
    } else if f == "model_size".to_owned() {
        match value {
            FieldValue::Text(s) => match parse_model_size(s.as_str()) {
                Some(m) => Some(SettingsUpdate::ModelSize(m)),
                None => None,
            },
            _ => None,
        }
    } else if f == "output_directory".to_owned() {
        match value {
            FieldValue::Text(s) => Some(SettingsUpdate::OutputDirectory(s.clone())),
            _ => None,
        }
    } else if f == "include_metadata".to_owned() {
        match value {
            FieldValue::Flag(b) => Some(SettingsUpdate::IncludeMetadata(*b)),
            _ => None,
        }
    } else if f == "auto_save".to_owned() {
        match value {
            FieldValue::Flag(b) => Some(SettingsUpdate::AutoSave(*b)),
            _ => None,
        }
    } else if f == "theme".to_owned() {
        match value {
            FieldValue::Text(s) => match parse_theme(s.as_str()) {
                Some(t) => Some(SettingsUpdate::Theme(t)),
                None => None,
            },
            _ => None,
        }
    } else {
        None
    }
}

/// The settings after the setting with the given name was given a value;
/// unchanged where the name is not known or the value is of the wrong kind.
pub open spec fn field_updated(settings: SettingsView, field: Seq<char>, value: FieldValueView)
    -> SettingsView {
    match field_update(field, value) {
        Some(u) => updated(settings, u),
        None => settings,
    }
}

/// Gives the setting with the given name a value.
pub fn update_settings_field(settings: &mut AppSettings, field: &str, value: &FieldValue)
    ensures
        final(settings)@ == field_updated(old(settings)@, field@, value@),
{
    match update_for_field(field, value) {
        Some(u) => apply_update(settings, u),
        None => {},
    }
}

/// The steps of keeping the settings on disk at which something can fail.
#[derive(Debug, Clone, Copy, PartialEq, Eq, Structural)]
pub enum StorageStep {
    ReadFile,
    ParseFile,
    CreateDirectory,
    Serialize,
    WriteFile,
    Export,
    ReadImport,
    ParseImport,
}

/// The words that say which step failed.
pub open spec fn storage_failure_words(step: StorageStep) -> Seq<char> {
    match step {
        StorageStep::ReadFile => "Failed to read config file: "@,
        StorageStep::ParseFile => "Failed to parse config file: "@,
        StorageStep::CreateDirectory => "Failed to create config directory: "@,
        StorageStep::Serialize => "Failed to serialize settings: "@,
        StorageStep::WriteFile => "Failed to write config file: "@,
        StorageStep::Export => "Failed to export settings: "@,
        StorageStep::ReadImport => "Failed to read import file: "@,
        StorageStep::ParseImport => "Failed to parse import file: "@,
    }
}

/// The error for a step of keeping the settings that failed; `detail` is
/// what the system said.
pub fn storage_error(step: StorageStep, detail: &str) -> (e: AppError)
    ensures
        e@ == (ErrorKind::ConfigError, storage_failure_words(step) + detail@),
{
    let mut text = String::from_str(
        match step {
            StorageStep::ReadFile => "Failed to read config file: ",
            StorageStep::ParseFile => "Failed to parse config file: ",
            StorageStep::CreateDirectory => "Failed to create config directory: ",
            StorageStep::Serialize => "Failed to serialize settings: ",
            StorageStep::WriteFile => "Failed to write config file: ",
            StorageStep::Export => "Failed to export settings: ",
            StorageStep::ReadImport => "Failed to read import file: ",
            StorageStep::ParseImport => "Failed to parse import file: ",
        },
    );
    text.append(detail);
    AppError::ConfigError(text)
}

/// How the settings are loaded.
#[derive(Debug, Clone, Copy, PartialEq, Eq, Structural)]
pub enum LoadStep {
    /// There is no settings file: write the default settings and give them.
    WriteDefaults,
    /// Read the settings file, and check what it holds.
    ReadFile,
}

/// How the settings are loaded, given whether the settings file is there.
pub fn load_step(config_exists: bool) -> (step: LoadStep)
    ensures
        step == if config_exists {
            LoadStep::ReadFile
        } else {
            LoadStep::WriteDefaults
        },
{
    if config_exists {
        LoadStep::ReadFile
    } else {
        LoadStep::WriteDefaults
    }
}

} // verus!
