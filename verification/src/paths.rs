//! Paths and the user's directories, as the standard library and the
//! operating system see them.

use crate::text::opt_text;
use vstd::prelude::*;
use vstd::string::*;

verus! {

/// What `Path::join` makes of a base path and a path to add to it.
pub uninterp spec fn joined_path(base: Seq<char>, child: Seq<char>) -> Seq<char>;

/// What `Path::file_stem` finds: the file name without its last extension.
pub uninterp spec fn file_stem_of(path: Seq<char>) -> Option<Seq<char>>;

/// What `Path::file_name` finds: the last component of the path.
pub uninterp spec fn file_name_of(path: Seq<char>) -> Option<Seq<char>>;

/// What `Path::extension` finds: what follows the last dot of the file name.
pub uninterp spec fn extension_of(path: Seq<char>) -> Option<Seq<char>>;

/// What `Path::parent` finds: the path without its last component.
pub uninterp spec fn parent_of(path: Seq<char>) -> Option<Seq<char>>;

/// Whether `Path::is_absolute` holds of the path.
pub uninterp spec fn is_absolute_path(path: Seq<char>) -> bool;

/// Calls `Path::join`, and writes the joined path as text.
#[verifier::external_body]
pub(crate) fn join(base: &str, child: &str) -> (r: String)
    ensures
        r@ == joined_path(base@, child@),
{
    std::path::Path::new(base).join(child).to_string_lossy().to_string()
}

/// Calls `Path::file_stem`; a stem that is not valid Unicode counts as absent.
#[verifier::external_body]
pub(crate) fn file_stem(path: &str) -> (r: Option<String>)
    ensures
        opt_text(r) == file_stem_of(path@),
{
    std::path::Path::new(path).file_stem().and_then(|s| s.to_str()).map(|s| s.to_string())
}

/// Calls `Path::file_name`; a name that is not valid Unicode counts as absent.
#[verifier::external_body]
pub(crate) fn file_name(path: &str) -> (r: Option<String>)
    ensures
        opt_text(r) == file_name_of(path@),
{
    std::path::Path::new(path).file_name().and_then(|s| s.to_str()).map(|s| s.to_string())
}

/// Calls `Path::extension`; one that is not valid Unicode counts as absent.
#[verifier::external_body]
pub(crate) fn extension(path: &str) -> (r: Option<String>)
    ensures
        opt_text(r) == extension_of(path@),
{
    std::path::Path::new(path).extension().and_then(|s| s.to_str()).map(|s| s.to_string())
}

/// Calls `Path::parent`, and writes the parent as text.
#[verifier::external_body]
pub(crate) fn parent(path: &str) -> (r: Option<String>)
    ensures
        opt_text(r) == parent_of(path@),
{
    std::path::Path::new(path).parent().map(|p| p.to_string_lossy().to_string())
}

/// Calls `Path::is_absolute`.
#[verifier::external_body]
pub(crate) fn is_absolute(path: &str) -> (r: bool)
    ensures
        r == is_absolute_path(path@),
{
    std::path::Path::new(path).is_absolute()
}

/// Calls `Path::exists`: whether something is at the path right now. The
/// answer depends on the file system, so nothing is claimed of it.
#[verifier::external_body]
pub(crate) fn path_exists(path: &str) -> (r: bool) {
    std::path::Path::new(path).exists()
}

/// Calls `Path::is_file`: whether a regular file is at the path right now.
/// Nothing is claimed of the answer.
#[verifier::external_body]
pub(crate) fn path_is_file(path: &str) -> (r: bool) {
    std::path::Path::new(path).is_file()
}

/// Calls `dirs::home_dir`: the user's home directory, if the environment
/// names one. Nothing is claimed of the answer.
#[verifier::external_body]
pub(crate) fn home_dir() -> (r: Option<String>) {
    dirs::home_dir().map(|p| p.to_string_lossy().to_string())
}

/// Calls `dirs::cache_dir`: the user's cache directory, if the environment
/// names one. Nothing is claimed of the answer.
#[verifier::external_body]
pub(crate) fn cache_dir() -> (r: Option<String>) {
    dirs::cache_dir().map(|p| p.to_string_lossy().to_string())
}

/// Calls `dirs::document_dir`: the user's documents directory, if the
/// environment names one. Nothing is claimed of the answer.
#[verifier::external_body]
pub(crate) fn document_dir() -> (r: Option<String>) {
    dirs::document_dir().map(|p| p.to_string_lossy().to_string())
}

/// Calls `dirs::config_dir`: the user's configuration directory, if the
/// environment names one. Nothing is claimed of the answer.
#[verifier::external_body]
pub(crate) fn config_dir() -> (r: Option<String>) {
    dirs::config_dir().map(|p| p.to_string_lossy().to_string())
}

} // verus!
