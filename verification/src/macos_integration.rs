//! The engine's place on the desktop: the dock badge, notifications and the
//! handlers of file types.

use crate::cli::{opt_outcome, CommandOutcome, CommandOutcomeView};
use crate::error::{outcome, AppError, AppResult, ErrorKind};
use crate::models::Percent;
use crate::text::{
    chars_of, contains, decimal_digits, decimal_string, has_infix, opt_text, trim, trimmed,
};
use vstd::prelude::*;
use vstd::string::*;

verus! {

/// Which of the desktop's features the engine uses.
#[derive(Debug, Clone, Copy, PartialEq, Eq, Structural)]
pub struct MacOSIntegration {
    pub dock_badge_enabled: bool,
    pub menu_bar_enabled: bool,
    pub notifications_enabled: bool,
}

/// A notification for the user.
#[derive(Debug, Clone)]
pub struct NotificationOptions {
    pub title: String,
    pub body: String,
    pub sound: Option<String>,
    pub identifier: Option<String>,
}

/// What the badge on the dock icon shows.
#[derive(Debug, Clone)]
pub struct DockBadgeInfo {
    pub count: Option<u32>,
    pub text: Option<String>,
    /// The share of the work that is done.
    pub progress: Option<Percent>,
}

/// Whether files with an extension are opened with the engine.
#[derive(Debug, Clone)]
pub struct FileAssociationStatus {
    pub extension: String,
    pub is_associated: bool,
    pub current_handler: Option<String>,
}

/// A status with its texts as sequences of characters.
pub struct AssociationView {
    pub extension: Seq<char>,
    pub is_associated: bool,
    pub current_handler: Option<Seq<char>>,
}

impl View for FileAssociationStatus {
    type V = AssociationView;

    open spec fn view(&self) -> AssociationView {
        AssociationView {
            extension: self.extension@,
            is_associated: self.is_associated,
            current_handler: opt_text(self.current_handler),
        }
    }
}

/// The name under which the desktop knows the engine.
pub const BUNDLE_ID: &'static str = "com.yang-gyunam.speech-to-text";

/// The name of the desktop's operating system.
pub const MACOS: &'static str = "macos";

/// What the badge shows: the count where there is one, and else the text.
pub open spec fn badge_label_of(count: Option<u32>, text: Option<Seq<char>>) -> Option<Seq<char>> {
    match count {
        Some(n) => Some(decimal_digits(n as nat)),
        None => text,
    }
}

/// The extension at a place of the list of supported formats.
pub open spec fn extension_at(i: int) -> Seq<char> {
    if i == 0 {
        "m4a"@
    } else if i == 1 {
        "wav"@
    } else if i == 2 {
        "mp3"@
    } else if i == 3 {
        "aac"@
    } else {
        "flac"@
    }
}

/// What the desktop's tool printed when it was asked for the handler of the
/// extension at place `i`; nothing where it was not asked or did not answer.
pub open spec fn answer_at(answers: Seq<Option<String>>, i: int) -> Option<Seq<char>> {
    if 0 <= i < answers.len() {
        opt_text(answers[i])
    } else {
        None
    }
}

/// The status of the extension at place `i`: it is handled by the engine
/// where the answer of the desktop's tool holds the engine's name.
pub open spec fn association_at(answers: Seq<Option<String>>, i: int) -> AssociationView {
    AssociationView {
        extension: extension_at(i),
        is_associated: match answer_at(answers, i) {
            Some(a) => has_infix(a, BUNDLE_ID@),
            None => false,
        },
        current_handler: None,
    }
}

/// The version of the desktop's operating system, from a run of the tool
/// that prints it; an error where the system is another one.
pub open spec fn macos_version_of(run: Option<CommandOutcomeView>) -> Result<
    Seq<char>,
    (ErrorKind, Seq<char>),
> {
    match run {
        None => Err((ErrorKind::SystemError, "Not running on macOS"@)),
        Some(CommandOutcomeView::TimedOut) => Err(
            (ErrorKind::SystemError, "Failed to get macOS version: timed out"@),
        ),
        Some(CommandOutcomeView::NotRun(m)) => Err(
            (ErrorKind::SystemError, "Failed to get macOS version: "@ + m),
        ),
        Some(CommandOutcomeView::Finished { success, code, stdout, stderr }) => Ok(trimmed(stdout)),
    }
}

impl Default for MacOSIntegration {
    fn default() -> (m: MacOSIntegration)
        ensures
            m.dock_badge_enabled,
            m.menu_bar_enabled,
            m.notifications_enabled,
    {
        MacOSIntegration {
            dock_badge_enabled: true,
            menu_bar_enabled: true,
            notifications_enabled: true,
        }
    }
}

impl MacOSIntegration {
    /// The integration with every feature in use.
    pub fn new() -> (m: MacOSIntegration)
        ensures
            m.dock_badge_enabled,
            m.menu_bar_enabled,
            m.notifications_enabled,
    {
        MacOSIntegration {
            dock_badge_enabled: true,
            menu_bar_enabled: true,
            notifications_enabled: true,
        }
    }

    /// What a badge shows.
    pub fn badge_label(badge_info: &DockBadgeInfo) -> (r: Option<String>)
        ensures
            opt_text(r) == badge_label_of(badge_info.count, opt_text(badge_info.text)),
    {
        match badge_info.count {
            Some(n) => Some(decimal_string(n as u128)),
            None => match &badge_info.text {
                Some(t) => Some(t.clone()),
                None => None,
            },
        }
    }

    /// Sets the badge on the dock icon. The engine keeps no badge of its
    /// own, so this always succeeds.
    pub fn set_dock_badge(&self, badge_info: DockBadgeInfo) -> (r: AppResult<()>)
        ensures
            r is Ok,
    {
        Ok(())
    }

    /// Takes the badge off the dock icon.
    pub fn clear_dock_badge(&self) -> (r: AppResult<()>)
        ensures
            r is Ok,
    {
        self.set_dock_badge(DockBadgeInfo { count: None, text: None, progress: None })
    }

    /// Shows a notification. The user interface shows it, so this always
    /// succeeds.
    pub fn show_notification(&self, options: NotificationOptions) -> (r: AppResult<()>)
        ensures
            r is Ok,
    {
        Ok(())
    }

    /// Registers the engine for the supported formats. The bundle does so
    /// when it is installed, so this always succeeds.
    pub fn register_file_associations(&self) -> (r: AppResult<()>)
        ensures
            r is Ok,
    {
        Ok(())
    }

    /// Checks that the engine is registered for the supported formats. A
    /// format that is not registered is no error.
    pub fn verify_file_associations(&self) -> (r: AppResult<()>)
        ensures
            r is Ok,
    {
        Ok(())
    }

    /// Makes the engine the handler of the supported formats, as far as the
    /// desktop lets it.
    pub fn set_as_default_handler(&self) -> (r: AppResult<()>)
        ensures
            r is Ok,
    {
        Ok(())
    }

    /// Says for each supported format whether its files are opened with the
    /// engine, from what the desktop's tool printed when it was asked for
    /// the handler of each format in turn.
    pub fn get_file_association_status(&self, answers: &Vec<Option<String>>) -> (r: AppResult<
        Vec<FileAssociationStatus>,
    >)
        ensures
            r is Ok,
            r->Ok_0.len() == 5,
            forall|i: int| 0 <= i < 5 ==> (#[trigger] r->Ok_0[i])@ == association_at(answers@, i),
    {
        let bundle = chars_of(BUNDLE_ID);
        let mut list: Vec<FileAssociationStatus> = Vec::new();
        let mut i: usize = 0;
        while i < 5
            invariant
                i <= 5,
                bundle@ == BUNDLE_ID@,
                list.len() == i,
                forall|j: int| 0 <= j < i ==> (#[trigger] list@[j])@ == association_at(answers@, j),
            decreases 5 - i,
        {
            let extension = if i == 0 {
                "m4a"
            } else if i == 1 {
                "wav"
            } else if i == 2 {
                "mp3"
            } else if i == 3 {
                "aac"
            } else {
                "flac"
            };
            let is_associated = if i < answers.len() {
                match &answers[i] {
                    Some(a) => contains(&chars_of(a.as_str()), &bundle),
                    None => false,
                }
            } else {
                false
            };
            list.push(
                FileAssociationStatus {
                    extension: String::from_str(extension),
                    is_associated,
                    current_handler: None,
                },
            );
            i += 1;
        }
        Ok(list)
    }

    /// Takes note of a file that the desktop handed to the engine.
    pub fn handle_file_opened(&self, file_path: String) -> (r: AppResult<()>)
        ensures
            r is Ok,
    {
        Ok(())
    }

    /// Shows the share of the work that is done on the dock icon, or takes
    /// it off the icon where there is none to show.
    pub fn set_dock_progress(&self, progress: Option<Percent>) -> (r: AppResult<()>)
        ensures
            r is Ok,
    {
        Ok(())
    }

    /// Takes the progress off the dock icon.
    pub fn clear_dock_progress(&self) -> (r: AppResult<()>)
        ensures
            r is Ok,
    {
        self.set_dock_progress(None)
    }

    /// Whether an operating system of the given name is the desktop's.
    pub fn is_macos(os: &str) -> (r: bool)
        ensures
            r == (os@ == MACOS@),
    {
        os.to_owned() == MACOS.to_owned()
    }

    /// The version of the desktop's operating system, from a run of the
    /// tool that prints it; there is no run where the system is another one.
    pub fn get_macos_version(&self, run: Option<&CommandOutcome>) -> (r: AppResult<String>)
        ensures
            outcome(r) == macos_version_of(opt_outcome(run)),
    {
        match run {
            None => Err(AppError::SystemError(String::from_str("Not running on macOS"))),
            Some(CommandOutcome::TimedOut) => Err(
                AppError::SystemError(String::from_str("Failed to get macOS version: timed out")),
            ),
            Some(CommandOutcome::NotRun(m)) => {
                let mut text = String::from_str("Failed to get macOS version: ");
                text.append(m.as_str());
                Err(AppError::SystemError(text))
            },
            Some(CommandOutcome::Finished { success, code, stdout, stderr }) => Ok(
                trim(stdout.as_str()),
            ),
        }
    }
}

} // verus!
