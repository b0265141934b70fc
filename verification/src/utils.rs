//! Helpers around audio files: checking paths and formats, naming
//! transcripts, writing sizes and durations.

use crate::error::{outcome, AppError, AppResult, ErrorKind};
use crate::models::{
    is_supported_extension, supported_extension, AudioFile, AudioFileView, FileStatus,
};
use crate::paths::{
    extension, extension_of, file_name, file_name_of, file_stem, file_stem_of, join, joined_path,
    parent, parent_of, path_exists, path_is_file,
};
use crate::text::{
    chars_of, decimal_digits, decimal_string, lowercase_of, opt_text, string_of, to_lowercase, trim,
    trimmed, two_digit_string, two_digits,
};
use vstd::prelude::*;
use vstd::string::*;

verus! {

/// Calls `uuid::Uuid::new_v4` and writes the identifier in its usual form, 36
/// characters long. Which identifier it is depends on chance.
#[verifier::external_body]
pub(crate) fn new_uuid() -> (id: String)
    ensures
        id@.len() == 36,
{
    uuid::Uuid::new_v4().to_string()
}

/// A fresh identifier for a file, a job or a result.
pub fn generate_id() -> (id: String)
    ensures
        id@.len() == 36,
{
    new_uuid()
}

/// What the check of a path says, given what the file system knows of the
/// path: an error where nothing is there, another where it is no file.
pub open spec fn file_path_verdict(path: Seq<char>, exists: bool, is_file: bool) -> Result<
    (),
    (ErrorKind, Seq<char>),
> {
    if !exists {
        Err((ErrorKind::FileNotFound, "File not found: "@ + path))
    } else if !is_file {
        Err((ErrorKind::IoError, path + " is not a file"@))
    } else {
        Ok(())
    }
}

/// Judges a path from what the file system knows of it.
pub fn check_file_path(path: &str, exists: bool, is_file: bool) -> (r: AppResult<()>)
    ensures
        outcome(r) == file_path_verdict(path@, exists, is_file),
{
    if !exists {
        let mut m = String::from_str("File not found: ");
        m.append(path);
        return Err(AppError::FileNotFound(m));
    }
    if !is_file {
        let mut m = String::from_str(path);
        m.append(" is not a file");
        return Err(AppError::IoError(m));
    }
    Ok(())
}

/// Checks that a file is at the path, white space around the path left
/// aside. The file system is asked whether the path exists and whether it is
/// a file; the verdict follows from the two answers.
pub fn validate_file_path(path: &str) -> (r: AppResult<()>)
    ensures
        exists|e: bool, f: bool| outcome(r) == file_path_verdict(trimmed(path@), e, f),
{
    let normalized = trim(path);
    let e = path_exists(normalized.as_str());
    let f = path_is_file(normalized.as_str());
    let r = check_file_path(normalized.as_str(), e, f);
    assert(outcome(r) == file_path_verdict(trimmed(path@), e, f));
    r
}

/// The extension of a path in lower case, where the path has one.
pub open spec fn lower_extension(path: Seq<char>) -> Option<Seq<char>> {
    match extension_of(path) {
        Some(e) => Some(lowercase_of(e)),
        None => None,
    }
}

/// The extension of a path, in lower case.
pub fn get_file_extension(path: &str) -> (r: Option<String>)
    ensures
        opt_text(r) == lower_extension(path@),
{
    match extension(path) {
        Some(e) => Some(to_lowercase(e.as_str())),
        None => None,
    }
}

/// What the check of the format says of a path: its extension in lower case
/// where that is a supported one, and else the reason.
pub open spec fn audio_format_verdict(path: Seq<char>) -> Result<
    Seq<char>,
    (ErrorKind, Seq<char>),
> {
    match lower_extension(path) {
        None => Err((ErrorKind::UnsupportedFormat, "No file extension found"@)),
        Some(e) => if is_supported_extension(e) {
            Ok(e)
        } else {
            Err(
                (
                    ErrorKind::UnsupportedFormat,
                    "Format '"@ + e
                        + "' is not supported. Supported formats: m4a, wav, mp3, aac, flac"@,
                ),
            )
        },
    }
}

/// Checks that the path names a file of a supported audio format, and gives
/// the format.
pub fn validate_audio_format(path: &str) -> (r: AppResult<String>)
    ensures
        outcome(r) == audio_format_verdict(path@),
{
    let e = match get_file_extension(path) {
        Some(e) => e,
        None => {
            return Err(AppError::UnsupportedFormat(String::from_str("No file extension found")));
        },
    };
    if !supported_extension(e.as_str()) {
        let mut m = String::from_str("Format '");
        m.append(e.as_str());
        m.append("' is not supported. Supported formats: m4a, wav, mp3, aac, flac");
        return Err(AppError::UnsupportedFormat(m));
    }
    Ok(e)
}

/// The name under which a file is listed: the last component of its path, or
/// `file_` and the first eight characters of a spare identifier where the
/// path has none.
pub open spec fn listed_name(path: Seq<char>, spare_id: Seq<char>) -> Seq<char> {
    match file_name_of(path) {
        Some(n) => n,
        None => "file_"@ + spare_id.take(8),
    }
}

/// The record of an audio file, given what the file system knows of the path
/// and the identifiers to use.
pub open spec fn audio_file_record(
    path: Seq<char>,
    exists: bool,
    is_file: bool,
    size: Result<u64, Seq<char>>,
    id: Seq<char>,
    spare_id: Seq<char>,
) -> Result<AudioFileView, (ErrorKind, Seq<char>)> {
    if file_path_verdict(path, exists, is_file) is Err {
        Err(file_path_verdict(path, exists, is_file)->Err_0)
    } else if audio_format_verdict(path) is Err {
        Err(audio_format_verdict(path)->Err_0)
    } else {
        match size {
            Err(m) => Err((ErrorKind::IoError, m)),
            Ok(n) => Ok(
                AudioFileView {
                    id,
                    name: listed_name(path, spare_id),
                    path,
                    size: n,
                    format: audio_format_verdict(path)->Ok_0,
                    duration_ms: None,
                    status: FileStatus::Pending,
                },
            ),
        }
    }
}

/// The size of a file as the contracts speak of it: the number of bytes, or
/// the text of the error that kept it from being read.
pub open spec fn size_view(size: Result<u64, String>) -> Result<u64, Seq<char>> {
    match size {
        Ok(n) => Ok(n),
        Err(m) => Err(m@),
    }
}

/// Makes the record of an audio file from what the file system knows of its
/// path, with the identifiers given. The path is taken as it is.
pub fn audio_file_from(
    path: &str,
    exists: bool,
    is_file: bool,
    size: &Result<u64, String>,
    id: String,
    spare_id: &str,
) -> (r: AppResult<AudioFile>)
    requires
        spare_id@.len() >= 8,
    ensures
        outcome(r) == audio_file_record(path@, exists, is_file, size_view(*size), id@, spare_id@),
{
    match check_file_path(path, exists, is_file) {
        Err(e) => {
            return Err(e);
        },
        Ok(_) => {},
    }
    let format = match validate_audio_format(path) {
        Err(e) => {
            return Err(e);
        },
        Ok(f) => f,
    };
    let bytes = match size {
        Err(m) => {
            return Err(AppError::IoError(m.clone()));
        },
        Ok(n) => *n,
    };
    let name = match file_name(path) {
        Some(n) => n,
        None => {
            let mut n = String::from_str("file_");
            n.append(spare_id.substring_char(0, 8));
            assert(spare_id@.subrange(0, 8) == spare_id@.take(8));
            n
        },
    };
    Ok(
        AudioFile {
            id,
            name,
            path: String::from_str(path),
            size: bytes,
            format,
            duration_ms: None,
            status: FileStatus::Pending,
        },
    )
}

/// Makes the record of the audio file at a path, white space around the path
/// left aside. `size` is what reading the file's length gave: the number of
/// bytes, or the text of the error. The file system is asked whether the
/// path exists and whether it is a file, and the record gets a fresh
/// identifier.
pub fn create_audio_file(path: &str, size: &Result<u64, String>) -> (r: AppResult<AudioFile>)
    ensures
        exists|e: bool, f: bool, id: Seq<char>, spare: Seq<char>|
            id.len() == 36 && spare.len() == 36 && outcome(r) == audio_file_record(
                trimmed(path@),
                e,
                f,
                size_view(*size),
                id,
                spare,
            ),
{
    let normalized = trim(path);
    let e = path_exists(normalized.as_str());
    let f = path_is_file(normalized.as_str());
    let spare = generate_id();
    let id = generate_id();
    let ghost id_text = id@;
    let r = audio_file_from(normalized.as_str(), e, f, size, id, spare.as_str());
    assert(outcome(r) == audio_file_record(
        trimmed(path@),
        e,
        f,
        size_view(*size),
        id_text,
        spare@,
    ));
    r
}

/// How often a number of bytes can be divided by 1024 before it is below
/// 1024; three times at most.
pub open spec fn size_unit(bytes: nat) -> nat {
    if bytes < 1024 {
        0
    } else if bytes < 1024 * 1024 {
        1
    } else if bytes < 1024 * 1024 * 1024 {
        2
    } else {
        3
    }
}

/// The number of bytes in one unit: 1024 to the power of the unit.
pub open spec fn unit_bytes(unit: nat) -> nat {
    if unit == 0 {
        1
    } else if unit == 1 {
        1024
    } else if unit == 2 {
        1024 * 1024
    } else {
        1024 * 1024 * 1024
    }
}

/// The letters that name a unit.
pub open spec fn unit_name(unit: nat) -> Seq<char> {
    if unit == 0 {
        "B"@
    } else if unit == 1 {
        "KB"@
    } else if unit == 2 {
        "MB"@
    } else {
        "GB"@
    }
}

/// `n / d` rounded to the nearest whole number, and to the even one where two
/// are equally near.
pub open spec fn rounded_quotient(n: nat, d: nat) -> nat {
    let q = n / d;
    let r = n % d;
    if 2 * r < d {
        q
    } else if 2 * r > d {
        q + 1
    } else if q % 2 == 0 {
        q
    } else {
        q + 1
    }
}

/// A size as the user reads it: the bytes themselves below 1024, and above
/// that the size in the largest unit that fits, rounded to one decimal.
pub open spec fn file_size_text(bytes: nat) -> Seq<char> {
    let unit = size_unit(bytes);
    if unit == 0 {
        decimal_digits(bytes) + " B"@
    } else {
        let tenths = rounded_quotient(bytes * 10, unit_bytes(unit));
        decimal_digits(tenths / 10) + "."@ + decimal_digits(tenths % 10) + " "@ + unit_name(unit)
    }
}

/// Writes a size in bytes for the user.
pub fn format_file_size(bytes: u64) -> (r: String)
    ensures
        r@ == file_size_text(bytes as nat),
{
    if bytes < 1024 {
        let mut r = decimal_string(bytes as u128);
        r.append(" B");
        return r;
    }
    let (divisor, name): (u128, &str) = if bytes < 1024 * 1024 {
        (1024, "KB")
    } else if bytes < 1024 * 1024 * 1024 {
        (1024 * 1024, "MB")
    } else {
        (1024 * 1024 * 1024, "GB")
    };
    let n: u128 = (bytes as u128) * 10;
    let q: u128 = n / divisor;
    let rest: u128 = n % divisor;
    let tenths: u128 = if 2 * rest < divisor {
        q
    } else if 2 * rest > divisor {
        q + 1
    } else if q % 2 == 0 {
        q
    } else {
        q + 1
    };
    assert(divisor == unit_bytes(size_unit(bytes as nat)));
    assert(tenths == rounded_quotient((bytes * 10) as nat, unit_bytes(size_unit(bytes as nat))));
    let mut r = decimal_string(tenths / 10);
    r.append(".");
    r.append(decimal_string(tenths % 10).as_str());
    r.append(" ");
    r.append(name);
    assert(r@ =~= file_size_text(bytes as nat));
    r
}

/// A length of time as minutes and seconds, each with two digits at least.
pub open spec fn duration_text(seconds: nat) -> Seq<char> {
    two_digits(seconds / 60) + ":"@ + two_digits(seconds % 60)
}

/// Writes a length of time, given in whole seconds, as `MM:SS`.
pub fn format_duration(seconds: u64) -> (r: String)
    ensures
        r@ == duration_text(seconds as nat),
{
    let mut r = two_digit_string((seconds / 60) as u128);
    r.append(":");
    r.append(two_digit_string((seconds % 60) as u128).as_str());
    r
}

/// A character that may not stand in a file name.
pub open spec fn is_unsafe_in_name(c: char) -> bool {
    c == '/' || c == '\\' || c == ':' || c == '*' || c == '?' || c == '"' || c == '<' || c == '>'
        || c == '|'
}

/// A name with an underscore in place of each character that may not stand
/// in a file name.
pub open spec fn sanitized(name: Seq<char>) -> Seq<char> {
    name.map_values(
        |c: char|
            if is_unsafe_in_name(c) {
                '_'
            } else {
                c
            },
    )
}

/// Makes a name safe for the file system.
pub fn sanitize_filename(filename: &str) -> (r: String)
    ensures
        r@ == sanitized(filename@),
{
    let chars = chars_of(filename);
    let mut out: Vec<char> = Vec::new();
    let mut i: usize = 0;
    while i < chars.len()
        invariant
            i <= chars.len(),
            chars@ == filename@,
            out@ == sanitized(filename@.take(i as int)),
        decreases chars.len() - i,
    {
        let c = chars[i];
        let safe = if c == '/' || c == '\\' || c == ':' || c == '*' || c == '?' || c == '"' || c
            == '<' || c == '>' || c == '|' {
            '_'
        } else {
            c
        };
        out.push(safe);
        assert(out@ =~= sanitized(filename@.take(i + 1)));
        i += 1;
    }
    assert(filename@.take(chars.len() as int) =~= filename@);
    string_of(&out)
}

/// The name of the transcript that the worker writes for a recording with
/// the given stem.
pub open spec fn transcript_name(stem: Seq<char>) -> Seq<char> {
    sanitized(stem) + "_transcription.txt"@
}

/// The name of the transcript for a recording with the given stem.
pub fn transcript_file_name(stem: &str) -> (r: String)
    ensures
        r@ == transcript_name(stem@),
{
    let mut r = sanitize_filename(stem);
    r.append("_transcription.txt");
    r
}

/// The directory in which a transcript is written: the one asked for, or,
/// where none is asked for, the directory of the recording.
pub open spec fn transcript_directory(input_path: Seq<char>, output_dir: Seq<char>) -> Seq<char> {
    if output_dir.len() == 0 {
        match parent_of(input_path) {
            Some(p) => p,
            None => "."@,
        }
    } else {
        output_dir
    }
}

/// Where the transcript of a recording is written, or the reason why the
/// path of the recording names no file.
pub open spec fn transcript_path(input_path: Seq<char>, output_dir: Seq<char>) -> Result<
    Seq<char>,
    (ErrorKind, Seq<char>),
> {
    match file_stem_of(input_path) {
        None => Err((ErrorKind::IoError, "Invalid input filename"@)),
        Some(stem) => Ok(
            joined_path(transcript_directory(input_path, output_dir), transcript_name(stem)),
        ),
    }
}

/// The path at which the transcript of a recording is written.
pub fn get_output_filename(input_path: &str, output_dir: &str) -> (r: AppResult<String>)
    ensures
        outcome(r) == transcript_path(input_path@, output_dir@),
{
    let stem = match file_stem(input_path) {
        Some(s) => s,
        None => {
            return Err(AppError::IoError(String::from_str("Invalid input filename")));
        },
    };
    let name = transcript_file_name(stem.as_str());
    let dir = if output_dir.is_empty() {
        match parent(input_path) {
            Some(p) => p,
            None => String::from_str("."),
        }
    } else {
        String::from_str(output_dir)
    };
    Ok(join(dir.as_str(), name.as_str()))
}

/// What the check of an output directory says, given what the file system
/// knows of it.
pub open spec fn output_directory_verdict(
    dir: Seq<char>,
    exists: bool,
    is_dir: bool,
    writable: bool,
) -> Result<(), (ErrorKind, Seq<char>)> {
    if !exists {
        Err((ErrorKind::IoError, "Directory does not exist: "@ + dir))
    } else if !is_dir {
        Err((ErrorKind::IoError, dir + " is not a directory"@))
    } else if !writable {
        Err((ErrorKind::IoError, "Directory is not writable: "@ + dir))
    } else {
        Ok(())
    }
}

/// Judges an output directory from what the file system knows of it: whether
/// it exists, whether it is a directory, and whether a file could be made
/// in it.
pub fn validate_output_directory(dir_path: &str, exists: bool, is_dir: bool, writable: bool) -> (r:
    AppResult<()>)
    ensures
        outcome(r) == output_directory_verdict(dir_path@, exists, is_dir, writable),
{
    if !exists {
        let mut m = String::from_str("Directory does not exist: ");
        m.append(dir_path);
        return Err(AppError::IoError(m));
    }
    if !is_dir {
        let mut m = String::from_str(dir_path);
        m.append(" is not a directory");
        return Err(AppError::IoError(m));
    }
    if !writable {
        let mut m = String::from_str("Directory is not writable: ");
        m.append(dir_path);
        return Err(AppError::IoError(m));
    }
    Ok(())
}

/// What is known of the length of a recording before the worker has run:
/// nothing, where the file is there.
pub open spec fn audio_duration_verdict(path: Seq<char>, exists: bool, is_file: bool) -> Result<
    Option<u64>,
    (ErrorKind, Seq<char>),
> {
    match file_path_verdict(path, exists, is_file) {
        Err(e) => Err(e),
        Ok(_) => Ok(None),
    }
}

/// What is known of the length of the recording at a path, from what the
/// file system knows of the path. The path is taken as it is.
pub fn audio_duration_from(path: &str, exists: bool, is_file: bool) -> (r: AppResult<Option<u64>>)
    ensures
        outcome(r) == audio_duration_verdict(path@, exists, is_file),
{
    match check_file_path(path, exists, is_file) {
        Err(e) => Err(e),
        Ok(_) => Ok(None),
    }
}

/// The length of the recording at a path in milliseconds, as far as it is
/// known before the worker has run. White space around the path is left
/// aside, and the file system is asked whether the path exists and whether
/// it is a file.
pub fn get_audio_duration(file_path: &str) -> (r: AppResult<Option<u64>>)
    ensures
        exists|e: bool, f: bool| outcome(r) == audio_duration_verdict(trimmed(file_path@), e, f),
{
    let normalized = trim(file_path);
    let e = path_exists(normalized.as_str());
    let f = path_is_file(normalized.as_str());
    let r = audio_duration_from(normalized.as_str(), e, f);
    assert(outcome(r) == audio_duration_verdict(trimmed(file_path@), e, f));
    r
}

/// The record of the file at one path of a list, or the reason why it is
/// not accepted.
pub open spec fn is_record_of(
    r: AppResult<AudioFile>,
    path: Seq<char>,
    size: Result<u64, Seq<char>>,
) -> bool {
    exists|e: bool, f: bool, id: Seq<char>, spare: Seq<char>|
        id.len() == 36 && spare.len() == 36 && outcome(r) == audio_file_record(
            trimmed(path),
            e,
            f,
            size,
            id,
            spare,
        )
}

/// Makes the record of each file of a list, in the order of the list.
/// `sizes` holds, for each path, what reading the file's length gave.
pub fn validate_multiple_file_paths(paths: &Vec<String>, sizes: &Vec<Result<u64, String>>) -> (r:
    Vec<AppResult<AudioFile>>)
    requires
        sizes.len() == paths.len(),
    ensures
        r.len() == paths.len(),
        forall|i: int|
            0 <= i < paths.len() ==> is_record_of(#[trigger] r@[i], paths@[i]@, size_view(sizes@[i])),
{
    let mut r: Vec<AppResult<AudioFile>> = Vec::new();
    let mut i: usize = 0;
    while i < paths.len()
        invariant
            i <= paths.len(),
            sizes.len() == paths.len(),
            r.len() == i,
            forall|j: int|
                0 <= j < i ==> is_record_of(#[trigger] r@[j], paths@[j]@, size_view(sizes@[j])),
        decreases paths.len() - i,
    {
        let one = create_audio_file(paths[i].as_str(), &sizes[i]);
        assert(is_record_of(one, paths@[i as int]@, size_view(sizes@[i as int])));
        r.push(one);
        i += 1;
    }
    r
}

/// What the check of the free space says, given whether the directory
/// exists: no limit is known, so the largest number stands for the space.
pub open spec fn available_space_verdict(dir: Seq<char>, exists: bool) -> Result<
    u64,
    (ErrorKind, Seq<char>),
> {
    if exists {
        Ok(u64::MAX)
    } else {
        Err((ErrorKind::IoError, "Directory does not exist: "@ + dir))
    }
}

/// The space that is free in a directory, from whether the file system
/// found the directory.
pub fn available_space_from(dir_path: &str, exists: bool) -> (r: AppResult<u64>)
    ensures
        outcome(r) == available_space_verdict(dir_path@, exists),
{
    if exists {
        Ok(u64::MAX)
    } else {
        let mut m = String::from_str("Directory does not exist: ");
        m.append(dir_path);
        Err(AppError::IoError(m))
    }
}

/// The space that is free in a directory, as far as it is known. The file
/// system is asked whether the directory, as it is named, exists.
pub fn check_available_space(dir_path: &str) -> (r: AppResult<u64>)
    ensures
        exists|e: bool| outcome(r) == available_space_verdict(dir_path@, e),
{
    let e = path_exists(dir_path);
    let r = available_space_from(dir_path, e);
    assert(outcome(r) == available_space_verdict(dir_path@, e));
    r
}

} // verus!
