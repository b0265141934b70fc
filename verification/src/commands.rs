//! What the commands of a user interface need decided: which files of a batch
//! are accepted, what is written for a content, which cached files are
//! transcripts.

use crate::error::{display_prefix, outcome, AppError, AppResult, ErrorKind};
use crate::models::{
    file_views, AudioFile, AudioFileView, BatchValidationResult, FileValidationError,
};
use crate::paths::{cache_dir, join, joined_path};
use crate::text::{chars_of, contains, ends_with, has_infix, has_suffix, opt_text, texts};
use base64::Engine;
use vstd::prelude::*;
use vstd::string::*;

verus! {

/// What `base64::Engine::decode` of the standard engine makes of a text: the
/// bytes that it encodes, or the text of the error.
pub uninterp spec fn base64_decoded(content: Seq<char>) -> Result<Seq<u8>, Seq<char>>;

/// Bytes, or the text of an error, as the contracts speak of them.
pub open spec fn bytes_view(r: Result<Vec<u8>, String>) -> Result<Seq<u8>, Seq<char>> {
    match r {
        Ok(b) => Ok(b@),
        Err(m) => Err(m@),
    }
}

/// Calls `decode` of `base64::engine::general_purpose::STANDARD`: the bytes
/// that the text encodes, or the error as text.
#[verifier::external_body]
fn decode_base64(content: &str) -> (r: Result<Vec<u8>, String>)
    ensures
        bytes_view(r) == base64_decoded(content@),
{
    base64::engine::general_purpose::STANDARD.decode(content).map_err(|e| e.to_string())
}

/// Bytes, or the reason why there are none, as the contracts speak of them.
pub open spec fn bytes_outcome(r: AppResult<Vec<u8>>) -> Result<Seq<u8>, (ErrorKind, Seq<char>)> {
    match r {
        Ok(b) => Ok(b@),
        Err(e) => Err(e@),
    }
}

/// The bytes to write for a content that is base64, given what decoding it
/// gave.
pub open spec fn decoded_payload(decoded: Result<Seq<u8>, Seq<char>>) -> Result<
    Seq<u8>,
    (ErrorKind, Seq<char>),
> {
    match decoded {
        Ok(b) => Ok(b),
        Err(m) => Err((ErrorKind::ProcessingError, "Base64 decode error: "@ + m)),
    }
}

/// The bytes to write for a content that is base64, from what decoding it
/// gave.
pub fn payload_from_decoded(decoded: Result<Vec<u8>, String>) -> (r: AppResult<Vec<u8>>)
    ensures
        bytes_outcome(r) == decoded_payload(bytes_view(decoded)),
{
    match decoded {
        Ok(b) => Ok(b),
        Err(m) => {
            let mut text = String::from_str("Base64 decode error: ");
            text.append(m.as_str());
            Err(AppError::ProcessingError(text))
        },
    }
}

/// The bytes to write for a content: the bytes that it encodes where it is
/// base64, and else the bytes of the text itself.
pub fn binary_payload(content: &str, is_base64: bool) -> (r: AppResult<Vec<u8>>)
    ensures
        bytes_outcome(r) == if is_base64 {
            decoded_payload(base64_decoded(content@))
        } else {
            Ok::<Seq<u8>, (ErrorKind, Seq<char>)>(content.spec_bytes())
        },
{
    if is_base64 {
        payload_from_decoded(decode_base64(content))
    } else {
        Ok(content.as_bytes_vec())
    }
}

/// The place at which a file is saved, from what the user chose: an error
/// where the user chose nothing.
pub fn save_target(chosen: Option<String>) -> (r: AppResult<String>)
    ensures
        match chosen {
            Some(p) => outcome(r) == Ok::<Seq<char>, (ErrorKind, Seq<char>)>(p@),
            None => outcome(r) == Err::<Seq<char>, (ErrorKind, Seq<char>)>(
                (ErrorKind::FileNotFound, "Save cancelled by user"@),
            ),
        },
{
    match chosen {
        Some(p) => Ok(p),
        None => Err(AppError::FileNotFound(String::from_str("Save cancelled by user"))),
    }
}

/// The directory in which the worker caches its output: `output` in the
/// worker's directory below the user's cache directory; an error where the
/// user has no cache directory.
pub open spec fn output_cache_of(cache: Option<Seq<char>>) -> Result<
    Seq<char>,
    (ErrorKind, Seq<char>),
> {
    match cache {
        Some(c) => Ok(joined_path(joined_path(c, "SpeechToText"@), "output"@)),
        None => Err((ErrorKind::ProcessingError, "Could not find cache directory"@)),
    }
}

/// The output cache of a user with the given cache directory.
pub fn output_cache_in(cache: &Option<String>) -> (r: AppResult<String>)
    ensures
        outcome(r) == output_cache_of(opt_text(*cache)),
{
    match cache {
        Some(c) => Ok(join(join(c.as_str(), "SpeechToText").as_str(), "output")),
        None => Err(AppError::ProcessingError(String::from_str("Could not find cache directory"))),
    }
}

/// The output cache of the user whose cache directory the environment names.
pub fn output_cache_directory() -> (r: AppResult<String>)
    ensures
        exists|cache: Option<Seq<char>>| outcome(r) == output_cache_of(cache),
{
    let cache = cache_dir();
    let r = output_cache_in(&cache);
    assert(outcome(r) == output_cache_of(opt_text(cache)));
    r
}

/// A file of this name in the output cache is a transcript, to be removed
/// when the cache is cleared.
pub open spec fn names_cached_transcript(name: Seq<char>) -> bool {
    has_infix(name, "_transcription"@) && has_suffix(name, ".txt"@)
}

/// Whether a file of this name in the output cache is a transcript.
pub fn is_cached_transcript(name: &str) -> (r: bool)
    ensures
        r == names_cached_transcript(name@),
{
    let n = chars_of(name);
    contains(&n, &chars_of("_transcription")) && ends_with(&n, &chars_of(".txt"))
}

/// The seconds that a batch of `count` files is expected to take: thirty
/// for each file.
pub fn estimate_batch_processing_time(count: usize) -> (seconds: u128)
    ensures
        seconds == 30 * count,
{
    30 * (count as u128)
}

/// The outcome of the check of one file as the contracts speak of it.
pub open spec fn record_outcome(r: AppResult<AudioFile>) -> Result<
    AudioFileView,
    (ErrorKind, Seq<char>),
> {
    match r {
        Ok(f) => Ok(f@),
        Err(e) => Err(e@),
    }
}

/// The outcomes of the checks of a list of files.
pub open spec fn record_outcomes(rs: Seq<AppResult<AudioFile>>) -> Seq<
    Result<AudioFileView, (ErrorKind, Seq<char>)>,
> {
    rs.map_values(|r: AppResult<AudioFile>| record_outcome(r))
}

/// The files that were accepted, in the order of the list.
pub open spec fn accepted(outcomes: Seq<Result<AudioFileView, (ErrorKind, Seq<char>)>>) -> Seq<
    AudioFileView,
>
    decreases outcomes.len(),
{
    if outcomes.len() == 0 {
        Seq::empty()
    } else {
        match outcomes.last() {
            Ok(f) => accepted(outcomes.drop_last()).push(f),
            Err(_) => accepted(outcomes.drop_last()),
        }
    }
}

/// The first error of the list, where there is one.
pub open spec fn first_error(outcomes: Seq<Result<AudioFileView, (ErrorKind, Seq<char>)>>)
    -> Option<(ErrorKind, Seq<char>)>
    decreases outcomes.len(),
{
    if outcomes.len() == 0 {
        None
    } else {
        match first_error(outcomes.drop_last()) {
            Some(e) => Some(e),
            None => match outcomes.last() {
                Ok(_) => None,
                Err(e) => Some(e),
            },
        }
    }
}

/// Keeps the files that were accepted and leaves the others out.
pub fn validate_multiple_files(checked: &Vec<AppResult<AudioFile>>) -> (r: Vec<AudioFile>)
    ensures
        file_views(r@) == accepted(record_outcomes(checked@)),
{
    let ghost all = record_outcomes(checked@);
    let mut r: Vec<AudioFile> = Vec::new();
    let mut i: usize = 0;
    assert(all.take(0) =~= Seq::empty());
    while i < checked.len()
        invariant
            i <= checked.len(),
            all == record_outcomes(checked@),
            file_views(r@) == accepted(all.take(i as int)),
        decreases checked.len() - i,
    {
        let ghost before = r@;
        assert(all.take(i + 1).drop_last() =~= all.take(i as int));
        assert(all.take(i + 1).last() == all[i as int]);
        match &checked[i] {
            Ok(f) => {
                r.push(f.clone());
                assert(file_views(r@) =~= file_views(before).push(f@));
            },
            Err(_) => {},
        }
        i += 1;
    }
    assert(all.take(checked.len() as int) =~= all);
    r
}

/// The accepted files of a batch, or the first error, as the contracts speak
/// of them.
pub open spec fn files_outcome(r: AppResult<Vec<AudioFile>>) -> Result<
    Seq<AudioFileView>,
    (ErrorKind, Seq<char>),
> {
    match r {
        Ok(f) => Ok(file_views(f@)),
        Err(e) => Err(e@),
    }
}

/// The files of a batch that is to be started: all of them where each was
/// accepted, and else the error of the first that was not.
pub fn collect_audio_files(checked: &Vec<AppResult<AudioFile>>) -> (r: AppResult<Vec<AudioFile>>)
    ensures
        files_outcome(r) == match first_error(record_outcomes(checked@)) {
            Some(e) => Err::<Seq<AudioFileView>, (ErrorKind, Seq<char>)>(e),
            None => Ok(accepted(record_outcomes(checked@))),
        },
{
    let ghost all = record_outcomes(checked@);
    let mut i: usize = 0;
    assert(all.take(0) =~= Seq::empty());
    while i < checked.len()
        invariant
            i <= checked.len(),
            all == record_outcomes(checked@),
            first_error(all.take(i as int)) is None,
        decreases checked.len() - i,
    {
        assert(all.take(i + 1).drop_last() =~= all.take(i as int));
        assert(all.take(i + 1).last() == all[i as int]);
        match &checked[i] {
            Ok(_) => {},
            Err(e) => {
                let error = e.clone();
                proof {
                    lemma_first_error_stays(all, i + 1);
                }
                return Err(error);
            },
        }
        i += 1;
    }
    assert(all.take(checked.len() as int) =~= all);
    Ok(validate_multiple_files(checked))
}

/// An error among the first `n` outcomes is the first error of the list.
pub proof fn lemma_first_error_stays(
    outcomes: Seq<Result<AudioFileView, (ErrorKind, Seq<char>)>>,
    n: int,
)
    requires
        0 <= n <= outcomes.len(),
        first_error(outcomes.take(n)) is Some,
    ensures
        first_error(outcomes) == first_error(outcomes.take(n)),
    decreases outcomes.len() - n,
{
    if n < outcomes.len() {
        assert(outcomes.take(n + 1).drop_last() =~= outcomes.take(n));
        lemma_first_error_stays(outcomes, n + 1);
    } else {
        assert(outcomes.take(n) =~= outcomes);
    }
}

/// The sizes of a list of files, added up.
pub open spec fn total_size(files: Seq<AudioFileView>) -> nat
    decreases files.len(),
{
    if files.len() == 0 {
        0
    } else {
        total_size(files.drop_last()) + files.last().size as nat
    }
}

/// A file that was not accepted, with the reason as the user reads it.
pub struct RejectedView {
    pub file_path: Seq<char>,
    pub error_message: Seq<char>,
}

/// The files that were not accepted, each with its path and the reason, in
/// the order of the list.
pub open spec fn rejected(
    paths: Seq<Seq<char>>,
    outcomes: Seq<Result<AudioFileView, (ErrorKind, Seq<char>)>>,
) -> Seq<RejectedView>
    decreases outcomes.len(),
{
    if outcomes.len() == 0 || paths.len() != outcomes.len() {
        Seq::empty()
    } else {
        match outcomes.last() {
            Ok(_) => rejected(paths.drop_last(), outcomes.drop_last()),
            Err(e) => rejected(paths.drop_last(), outcomes.drop_last()).push(
                RejectedView {
                    file_path: paths.last(),
                    error_message: display_prefix(e.0) + e.1,
                },
            ),
        }
    }
}

/// The views of a list of rejected files.
pub open spec fn rejected_views(files: Seq<FileValidationError>) -> Seq<RejectedView> {
    files.map_values(
        |f: FileValidationError|
            RejectedView { file_path: f.file_path@, error_message: f.error_message@ },
    )
}

/// What is said of a batch that cannot be started as it is.
pub open spec fn batch_warnings(directory: Result<(), (ErrorKind, Seq<char>)>, valid: nat) -> Seq<
    Seq<char>,
> {
    (match directory {
        Ok(_) => Seq::<Seq<char>>::empty(),
        Err(e) => seq!["Output directory issue: "@ + display_prefix(e.0) + e.1],
    }) + (if valid == 0 {
        seq!["No valid audio files found"@]
    } else {
        Seq::<Seq<char>>::empty()
    })
}

/// Sums up the checks that go before a batch: `directory` is what the check
/// of the output directory said and `checked` what the check of each path
/// said. The batch can proceed where the directory is in order and a file
/// was accepted.
pub fn validate_batch_requirements(
    directory: &AppResult<()>,
    paths: &Vec<String>,
    checked: &Vec<AppResult<AudioFile>>,
) -> (r: BatchValidationResult)
    requires
        paths.len() == checked.len(),
        total_size(accepted(record_outcomes(checked@))) <= u64::MAX,
        accepted(record_outcomes(checked@)).len() * 1024 <= u64::MAX,
    ensures
        file_views(r.valid_files@) == accepted(record_outcomes(checked@)),
        rejected_views(r.invalid_files@) == rejected(texts(paths@), record_outcomes(checked@)),
        r.total_size == total_size(accepted(record_outcomes(checked@))),
        r.estimated_output_size == accepted(record_outcomes(checked@)).len() * 1024,
        r.can_proceed == (directory is Ok && accepted(record_outcomes(checked@)).len() > 0),
        texts(r.warnings@) == batch_warnings(
            outcome(*directory),
            accepted(record_outcomes(checked@)).len(),
        ),
{
    let ghost all = record_outcomes(checked@);
    let ghost names = texts(paths@);
    let mut warnings: Vec<String> = Vec::new();
    let mut can_proceed = true;
    match directory {
        Ok(_) => {},
        Err(e) => {
            can_proceed = false;
            let mut text = String::from_str("Output directory issue: ");
            text.append(e.to_string().as_str());
            assert(text@ =~= "Output directory issue: "@ + display_prefix(e@.0) + e@.1);
            warnings.push(text);
            assert(texts(warnings@) =~= seq![
                "Output directory issue: "@ + display_prefix(e@.0) + e@.1,
            ]);
        },
    }
    let ghost first_warnings = texts(warnings@);
    let mut valid_files: Vec<AudioFile> = Vec::new();
    let mut invalid_files: Vec<FileValidationError> = Vec::new();
    let mut size: u64 = 0;
    let mut i: usize = 0;
    assert(all.take(0) =~= Seq::empty());
    assert(names.take(0) =~= Seq::empty());
    while i < checked.len()
        invariant
            i <= checked.len(),
            paths.len() == checked.len(),
            all == record_outcomes(checked@),
            names == texts(paths@),
            file_views(valid_files@) == accepted(all.take(i as int)),
            rejected_views(invalid_files@) == rejected(names.take(i as int), all.take(i as int)),
            size == total_size(accepted(all.take(i as int))),
            total_size(accepted(all)) <= u64::MAX,
        decreases checked.len() - i,
    {
        assert(all.take(i + 1).drop_last() =~= all.take(i as int));
        assert(all.take(i + 1).last() == all[i as int]);
        assert(names.take(i + 1).drop_last() =~= names.take(i as int));
        assert(names.take(i + 1).last() == names[i as int]);
        proof {
            lemma_total_size_grows(all, i + 1);
        }
        match &checked[i] {
            Ok(f) => {
                let ghost before = valid_files@;
                assert(accepted(all.take(i + 1)).drop_last() =~= accepted(all.take(i as int)));
                size = size + f.size;
                valid_files.push(f.clone());
                assert(file_views(valid_files@) =~= file_views(before).push(f@));
            },
            Err(e) => {
                let ghost before = invalid_files@;
                invalid_files.push(
                    FileValidationError {
                        file_path: paths[i].clone(),
                        error_message: e.to_string(),
                    },
                );
                assert(rejected_views(invalid_files@) =~= rejected_views(before).push(
                    RejectedView {
                        file_path: names[i as int],
                        error_message: display_prefix(e@.0) + e@.1,
                    },
                ));
            },
        }
        i += 1;
    }
    assert(all.take(checked.len() as int) =~= all);
    assert(names.take(checked.len() as int) =~= names);
    assert(valid_files.len() == file_views(valid_files@).len());
    let estimated: u64 = (valid_files.len() as u64) * 1024;
    if valid_files.len() == 0 {
        can_proceed = false;
        warnings.push(String::from_str("No valid audio files found"));
        assert(texts(warnings@) =~= first_warnings + seq!["No valid audio files found"@]);
    } else {
        assert(texts(warnings@) =~= first_warnings + Seq::<Seq<char>>::empty());
    }
    BatchValidationResult {
        valid_files,
        invalid_files,
        total_size: size,
        estimated_output_size: estimated,
        can_proceed,
        warnings,
    }
}

/// The sizes of the files accepted among the first `n` outcomes add up to no
/// more than those of all accepted files.
pub proof fn lemma_total_size_grows(
    outcomes: Seq<Result<AudioFileView, (ErrorKind, Seq<char>)>>,
    n: int,
)
    requires
        0 <= n <= outcomes.len(),
    ensures
        total_size(accepted(outcomes.take(n))) <= total_size(accepted(outcomes)),
    decreases outcomes.len() - n,
{
    if n < outcomes.len() {
        lemma_total_size_grows(outcomes, n + 1);
        assert(outcomes.take(n + 1).drop_last() =~= outcomes.take(n));
        match outcomes[n] {
            Ok(f) => {
                assert(accepted(outcomes.take(n + 1)).drop_last() =~= accepted(outcomes.take(n)));
            },
            Err(_) => {},
        }
    } else {
        assert(outcomes.take(n) =~= outcomes);
    }
}

} // verus!
