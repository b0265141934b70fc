//! Updates of the program.

use std::collections::HashMap;
use vstd::prelude::*;
use vstd::string::*;

verus! {

/// A release that can be installed.
#[derive(Debug)]
pub struct UpdateInfo {
    pub version: String,
    pub notes: String,
    pub pub_date: String,
    pub platforms: HashMap<String, PlatformUpdate>,
}

/// Where the release for one platform is found, and its signature.
#[derive(Debug)]
pub struct PlatformUpdate {
    pub signature: String,
    pub url: String,
}

/// What a look for updates found.
#[derive(Debug)]
pub struct UpdateStatus {
    pub available: bool,
    pub current_version: String,
    pub latest_version: Option<String>,
    pub download_url: Option<String>,
    pub release_notes: Option<String>,
}

/// How often updates can be looked for.
pub open spec fn is_update_frequency(word: Seq<char>) -> bool {
    word == "never"@ || word == "daily"@ || word == "weekly"@ || word == "monthly"@
}

/// The text of an error, where there is one.
pub open spec fn error_text(r: Result<(), String>) -> Option<Seq<char>> {
    match r {
        Ok(_) => None,
        Err(m) => Some(m@),
    }
}

/// Looks for updates of the running version. No server is asked yet, so no
/// update is ever found.
pub fn check_for_updates(current_version: String) -> (r: Result<UpdateStatus, String>)
    ensures
        r is Ok,
        !r->Ok_0.available,
        r->Ok_0.current_version@ == current_version@,
        r->Ok_0.latest_version is None,
        r->Ok_0.download_url is None,
        r->Ok_0.release_notes is None,
{
    Ok(
        UpdateStatus {
            available: false,
            current_version,
            latest_version: None,
            download_url: None,
            release_notes: None,
        },
    )
}

/// Whether updates are installed without asking: never, so far.
pub fn is_auto_update_enabled() -> (r: bool)
    ensures
        !r,
{
    false
}

/// Notes whether updates are to be installed without asking.
pub fn set_auto_update_enabled(enabled: bool) -> (r: Result<(), String>)
    ensures
        r is Ok,
{
    Ok(())
}

/// Installs an update: not possible yet.
pub fn install_update(download_url: String) -> (r: Result<(), String>)
    ensures
        error_text(r) == Some("Update installation not implemented yet"@),
{
    Err(String::from_str("Update installation not implemented yet"))
}

/// How often updates are looked for: once a week.
pub fn get_update_check_frequency() -> (r: String)
    ensures
        r@ == "weekly"@,
{
    String::from_str("weekly")
}

/// Sets how often updates are looked for: `never`, `daily`, `weekly` or
/// `monthly`.
pub fn set_update_check_frequency(frequency: String) -> (r: Result<(), String>)
    ensures
        error_text(r) == if is_update_frequency(frequency@) {
            None
        } else {
            Some("Invalid frequency. Must be: never, daily, weekly, or monthly"@)
        },
{
    if frequency == "never".to_owned() || frequency == "daily".to_owned() || frequency
        == "weekly".to_owned() || frequency == "monthly".to_owned() {
        Ok(())
    } else {
        Err(String::from_str("Invalid frequency. Must be: never, daily, weekly, or monthly"))
    }
}

} // verus!
