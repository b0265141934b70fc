//! The search for the transcript that the worker has written: the worker
//! says only that it is done, so the file is looked for where it is expected
//! and, failing that, in the directories where the worker may have put it.

use crate::error::{outcome, AppError, AppResult, ErrorKind};
use crate::paths::{cache_dir, file_stem, file_stem_of, home_dir, join, joined_path};
use crate::text::{
    chars_of, contains, ends_with, has_infix, has_prefix, has_suffix, opt_text, starts_with, texts,
};
use crate::utils::{transcript_file_name, transcript_name};
use vstd::prelude::*;
use vstd::string::*;

verus! {

/// One entry of a directory: its name and when it was last changed.
#[derive(Debug)]
pub struct DirEntryInfo {
    pub name: String,
    /// In nanoseconds since the epoch; 0 where the time is not known.
    pub modified: u128,
}

/// An entry with its name as a sequence of characters.
pub struct EntryView {
    pub name: Seq<char>,
    pub modified: u128,
}

impl View for DirEntryInfo {
    type V = EntryView;

    open spec fn view(&self) -> EntryView {
        EntryView { name: self.name@, modified: self.modified }
    }
}

/// What was found in one directory: its entries in the order in which the
/// file system listed them, or nothing where the directory is not there or
/// cannot be read.
#[derive(Debug)]
pub struct DirListing {
    pub path: String,
    pub entries: Option<Vec<DirEntryInfo>>,
}

/// A listing with its texts as sequences of characters.
pub struct ListingView {
    pub path: Seq<char>,
    pub entries: Option<Seq<EntryView>>,
}

/// The views of the entries of a directory.
pub open spec fn entry_views(entries: Seq<DirEntryInfo>) -> Seq<EntryView> {
    entries.map_values(|e: DirEntryInfo| e@)
}

impl View for DirListing {
    type V = ListingView;

    open spec fn view(&self) -> ListingView {
        ListingView {
            path: self.path@,
            entries: match self.entries {
                Some(e) => Some(entry_views(e@)),
                None => None,
            },
        }
    }
}

/// The views of a list of listings.
pub open spec fn listing_views(listings: Seq<DirListing>) -> Seq<ListingView> {
    listings.map_values(|l: DirListing| l@)
}

/// A file of this name may be the transcript of the recording with the given
/// stem: the name carries a time after `_transcription_`, or is the expected
/// name, or is the stem with `.txt`, or holds the stem and the word
/// `transcription` and ends in `.txt`.
pub open spec fn names_transcript(name: Seq<char>, stem: Seq<char>) -> bool {
    ||| (has_prefix(name, stem + "_transcription_"@) && has_suffix(name, ".txt"@))
    ||| name == transcript_name(stem)
    ||| name == stem + ".txt"@
    ||| (has_infix(name, stem) && has_infix(name, "transcription"@) && has_suffix(name, ".txt"@))
}

/// Whether a file of this name may be the transcript of the recording with
/// the given stem.
pub fn is_transcript_name(name: &str, stem: &str) -> (r: bool)
    ensures
        r == names_transcript(name@, stem@),
{
    let n = chars_of(name);
    let s = chars_of(stem);
    let txt = chars_of(".txt");
    let mut stamped = chars_of(stem);
    let mut marker = chars_of("_transcription_");
    stamped.append(&mut marker);
    assert(stamped@ =~= stem@ + "_transcription_"@);
    if starts_with(&n, &stamped) && ends_with(&n, &txt) {
        return true;
    }
    let owned = name.to_owned();
    if owned == transcript_file_name(stem) {
        return true;
    }
    let mut bare = stem.to_owned();
    bare.append(".txt");
    if owned == bare {
        return true;
    }
    contains(&n, &s) && contains(&n, &chars_of("transcription")) && ends_with(&n, &txt)
}

/// Entry `i` is the one to take from a directory: its name fits, no entry
/// whose name fits was changed later, and those before it were changed
/// earlier.
pub open spec fn is_newest_match(entries: Seq<EntryView>, stem: Seq<char>, i: int) -> bool {
    &&& 0 <= i < entries.len()
    &&& names_transcript(entries[i].name, stem)
    &&& forall|j: int|
        0 <= j < entries.len() && names_transcript(#[trigger] entries[j].name, stem)
            ==> entries[j].modified <= entries[i].modified
    &&& forall|j: int|
        0 <= j < i && names_transcript(#[trigger] entries[j].name, stem) ==> entries[j].modified
            < entries[i].modified
}

/// Some entry of the directory has a name that fits.
pub open spec fn has_match(entries: Seq<EntryView>, stem: Seq<char>) -> bool {
    exists|i: int| 0 <= i < entries.len() && names_transcript(#[trigger] entries[i].name, stem)
}

/// No directory holds two entries to take.
pub proof fn lemma_newest_match_unique(entries: Seq<EntryView>, stem: Seq<char>, i: int, j: int)
    requires
        is_newest_match(entries, stem, i),
        is_newest_match(entries, stem, j),
    ensures
        i == j,
{
    if i < j {
        assert(names_transcript(entries[i].name, stem));
        assert(entries[i].modified < entries[j].modified);
        assert(names_transcript(entries[j].name, stem));
        assert(entries[j].modified <= entries[i].modified);
    } else if j < i {
        assert(names_transcript(entries[j].name, stem));
        assert(entries[j].modified < entries[i].modified);
        assert(names_transcript(entries[i].name, stem));
        assert(entries[i].modified <= entries[j].modified);
    }
}

/// The entry to take from a directory, where one fits.
pub open spec fn newest_match(entries: Seq<EntryView>, stem: Seq<char>) -> Option<int> {
    if has_match(entries, stem) {
        Some(choose|i: int| is_newest_match(entries, stem, i))
    } else {
        None
    }
}

/// Picks the transcript among the entries of a directory: of the entries
/// whose names fit, the one that was changed last, and the first of them
/// where several were changed at that time.
pub fn find_newest_match(entries: &Vec<DirEntryInfo>, stem: &str) -> (r: Option<usize>)
    ensures
        match r {
            Some(i) => is_newest_match(entry_views(entries@), stem@, i as int),
            None => !has_match(entry_views(entries@), stem@),
        },
        match r {
            Some(i) => newest_match(entry_views(entries@), stem@) == Some(i as int),
            None => newest_match(entry_views(entries@), stem@) is None,
        },
{
    let ghost views = entry_views(entries@);
    let mut best: Option<usize> = None;
    let mut k: usize = 0;
    while k < entries.len()
        invariant
            k <= entries.len(),
            views == entry_views(entries@),
            match best {
                Some(i) => {
                    &&& i < k
                    &&& names_transcript(views[i as int].name, stem@)
                    &&& forall|j: int|
                        0 <= j < k && names_transcript(#[trigger] views[j].name, stem@)
                            ==> views[j].modified <= views[i as int].modified
                    &&& forall|j: int|
                        0 <= j < i && names_transcript(#[trigger] views[j].name, stem@)
                            ==> views[j].modified < views[i as int].modified
                },
                None => forall|j: int|
                    0 <= j < k ==> !names_transcript(#[trigger] views[j].name, stem@),
            },
        decreases entries.len() - k,
    {
        assert(views[k as int] == entries@[k as int]@);
        if is_transcript_name(entries[k].name.as_str(), stem) {
            match best {
                Some(i) => {
                    assert(views[i as int] == entries@[i as int]@);
                    if entries[k].modified > entries[i].modified {
                        best = Some(k);
                    }
                },
                None => {
                    best = Some(k);
                },
            }
        }
        k += 1;
    }
    proof {
        match best {
            Some(i) => {
                assert(is_newest_match(views, stem@, i as int));
                assert(names_transcript(views[i as int].name, stem@));
                assert(has_match(views, stem@));
                let c = choose|c: int| is_newest_match(views, stem@, c);
                lemma_newest_match_unique(views, stem@, c, i as int);
            },
            None => {},
        }
    }
    best
}

/// A directory was listed and holds an entry whose name fits.
pub open spec fn listing_has_match(l: ListingView, stem: Seq<char>) -> bool {
    l.entries is Some && has_match(l.entries->0, stem)
}

/// Directory `d` is the first of the listings that holds an entry whose name
/// fits.
pub open spec fn is_first_matching(listings: Seq<ListingView>, stem: Seq<char>, d: int) -> bool {
    &&& 0 <= d < listings.len()
    &&& listing_has_match(listings[d], stem)
    &&& forall|e: int| 0 <= e < d ==> !listing_has_match(#[trigger] listings[e], stem)
}

/// Some listing holds an entry whose name fits.
pub open spec fn any_listing_matches(listings: Seq<ListingView>, stem: Seq<char>) -> bool {
    exists|d: int| 0 <= d < listings.len() && listing_has_match(#[trigger] listings[d], stem)
}

/// The path of the transcript that a search of the listings finds: in the
/// first directory that holds an entry whose name fits, the entry to take.
pub open spec fn located_artifact(listings: Seq<ListingView>, stem: Seq<char>) -> Option<
    Seq<char>,
> {
    if any_listing_matches(listings, stem) {
        let d = choose|d: int| is_first_matching(listings, stem, d);
        let entries = listings[d].entries->0;
        let i = newest_match(entries, stem)->0;
        Some(joined_path(listings[d].path, entries[i].name))
    } else {
        None
    }
}

/// Searches the listings in their order for the transcript of the recording
/// with the given stem: the place of the first directory that holds an entry
/// whose name fits, and in it the place of the entry to take.
pub fn find_artifact(listings: &Vec<DirListing>, stem: &str) -> (r: Option<(usize, usize)>)
    ensures
        match r {
            Some((d, i)) => {
                &&& is_first_matching(listing_views(listings@), stem@, d as int)
                &&& is_newest_match(listing_views(listings@)[d as int].entries->0, stem@, i as int)
            },
            None => !any_listing_matches(listing_views(listings@), stem@),
        },
{
    let ghost views = listing_views(listings@);
    let mut d: usize = 0;
    while d < listings.len()
        invariant
            d <= listings.len(),
            views == listing_views(listings@),
            forall|e: int| 0 <= e < d ==> !listing_has_match(#[trigger] views[e], stem@),
        decreases listings.len() - d,
    {
        assert(views[d as int] == listings@[d as int]@);
        match &listings[d].entries {
            Some(entries) => {
                match find_newest_match(entries, stem) {
                    Some(i) => {
                        assert(has_match(entry_views(entries@), stem@));
                        return Some((d, i));
                    },
                    None => {},
                }
            },
            None => {},
        }
        d += 1;
    }
    None
}

/// What the search for a transcript ends in: the expected file where it is
/// there, else the file that the search of the listings finds, else an error.
pub open spec fn resolution(
    expected_path: Seq<char>,
    expected_exists: bool,
    listings: Seq<ListingView>,
    stem: Seq<char>,
) -> Result<Seq<char>, (ErrorKind, Seq<char>)> {
    if expected_exists {
        Ok(expected_path)
    } else {
        match located_artifact(listings, stem) {
            Some(p) => Ok(p),
            None => Err((ErrorKind::CliError, "Transcription output file not found"@)),
        }
    }
}

/// Decides where the transcript of a recording is: at the expected path
/// where a file is there, and else where the search of the listed
/// directories finds it.
pub fn resolve_output(
    expected_path: &str,
    expected_exists: bool,
    listings: &Vec<DirListing>,
    stem: &str,
) -> (r: AppResult<String>)
    ensures
        outcome(r) == resolution(expected_path@, expected_exists, listing_views(listings@), stem@),
{
    if expected_exists {
        return Ok(String::from_str(expected_path));
    }
    let ghost views = listing_views(listings@);
    match find_artifact(listings, stem) {
        Some((d, i)) => {
            assert(views[d as int] == listings@[d as int]@);
            let entries = match &listings[d].entries {
                Some(e) => e,
                None => {
                    return Err(
                        AppError::CliError(String::from_str("Transcription output file not found")),
                    );
                },
            };
            assert(entry_views(entries@)[i as int] == entries@[i as int]@);
            proof {
                assert(listing_has_match(views[d as int], stem@));
                assert(any_listing_matches(views, stem@));
                let c = choose|c: int| is_first_matching(views, stem@, c);
                lemma_first_matching_unique(views, stem@, c, d as int);
                assert(has_match(entry_views(entries@), stem@));
                let n = choose|n: int| is_newest_match(entry_views(entries@), stem@, n);
                lemma_newest_match_unique(entry_views(entries@), stem@, n, i as int);
            }
            Ok(join(listings[d].path.as_str(), entries[i].name.as_str()))
        },
        None => Err(
            AppError::CliError(String::from_str("Transcription output file not found")),
        ),
    }
}

/// No list of listings has two first directories that fit.
pub proof fn lemma_first_matching_unique(
    listings: Seq<ListingView>,
    stem: Seq<char>,
    c: int,
    d: int,
)
    requires
        is_first_matching(listings, stem, c),
        is_first_matching(listings, stem, d),
    ensures
        c == d,
{
}

/// The search for a transcript is a function of what the file system
/// showed: two searches that saw the same files end in the same result.
pub proof fn lemma_resolution_repeats(
    first: AppResult<String>,
    second: AppResult<String>,
    expected_path: Seq<char>,
    expected_exists: bool,
    listings: Seq<ListingView>,
    stem: Seq<char>,
)
    requires
        outcome(first) == resolution(expected_path, expected_exists, listings, stem),
        outcome(second) == resolution(expected_path, expected_exists, listings, stem),
    ensures
        outcome(first) == outcome(second),
{
}

/// Of the files that fit, the one that was changed last is taken: where the
/// expected file is not there and `d` is the first directory with an entry
/// that fits, the search ends with an entry of `d` that fits and that no
/// fitting entry of `d` is newer than; so an entry that is older than
/// another fitting entry is never taken.
pub proof fn lemma_newest_file_wins(
    expected_path: Seq<char>,
    listings: Seq<ListingView>,
    stem: Seq<char>,
    d: int,
    older: int,
    newer: int,
)
    requires
        is_first_matching(listings, stem, d),
        0 <= older < listings[d].entries->0.len(),
        0 <= newer < listings[d].entries->0.len(),
        names_transcript(listings[d].entries->0[older].name, stem),
        names_transcript(listings[d].entries->0[newer].name, stem),
        listings[d].entries->0[older].modified < listings[d].entries->0[newer].modified,
    ensures
        newest_match(listings[d].entries->0, stem) is Some,
        is_newest_match(
            listings[d].entries->0,
            stem,
            newest_match(listings[d].entries->0, stem)->0,
        ),
        newest_match(listings[d].entries->0, stem)->0 != older,
        resolution(expected_path, false, listings, stem) == Ok::<
            Seq<char>,
            (ErrorKind, Seq<char>),
        >(
            joined_path(
                listings[d].path,
                listings[d].entries->0[newest_match(listings[d].entries->0, stem)->0].name,
            ),
        ),
{
    let entries = listings[d].entries->0;
    assert(listing_has_match(listings[d], stem));
    assert(any_listing_matches(listings, stem));
    let c = choose|c: int| is_first_matching(listings, stem, c);
    lemma_first_matching_unique(listings, stem, c, d);
    lemma_newest_match_exists(entries, stem, entries.len() as int);
    let i = choose|i: int| is_newest_match(entries, stem, i);
    assert(is_newest_match(entries, stem, i));
    assert(entries[newer].modified <= entries[i].modified);
}

/// The entry to take among the first `n` entries of a directory, if one of
/// them fits.
pub open spec fn newest_among(entries: Seq<EntryView>, stem: Seq<char>, n: int) -> Option<int>
    decreases n,
{
    if n <= 0 {
        None
    } else {
        let before = newest_among(entries, stem, n - 1);
        if !names_transcript(entries[n - 1].name, stem) {
            before
        } else {
            match before {
                Some(i) => if entries[n - 1].modified > entries[i].modified {
                    Some(n - 1)
                } else {
                    before
                },
                None => Some(n - 1),
            }
        }
    }
}

/// A directory with an entry that fits holds an entry to take.
pub proof fn lemma_newest_match_exists(entries: Seq<EntryView>, stem: Seq<char>, n: int)
    requires
        0 <= n <= entries.len(),
    ensures
        match newest_among(entries, stem, n) {
            Some(i) => is_newest_match(entries.take(n), stem, i),
            None => !has_match(entries.take(n), stem),
        },
        n == entries.len() && has_match(entries, stem) ==> exists|i: int|
            is_newest_match(entries, stem, i),
    decreases n,
{
    if n > 0 {
        lemma_newest_match_exists(entries, stem, n - 1);
        let before = newest_among(entries, stem, n - 1);
        let shorter = entries.take(n - 1);
        let longer = entries.take(n);
        assert(forall|j: int| 0 <= j < n - 1 ==> shorter[j] == longer[j]);
        match newest_among(entries, stem, n) {
            Some(i) => {
                match before {
                    Some(b) => {
                        assert(is_newest_match(shorter, stem, b));
                        assert forall|j: int|
                            0 <= j < longer.len() && names_transcript(
                                #[trigger] longer[j].name,
                                stem,
                            ) implies longer[j].modified <= longer[i].modified by {
                            if j < n - 1 {
                                assert(names_transcript(shorter[j].name, stem));
                            }
                        }
                        assert forall|j: int|
                            0 <= j < i && names_transcript(
                                #[trigger] longer[j].name,
                                stem,
                            ) implies longer[j].modified < longer[i].modified by {
                            if j < n - 1 {
                                assert(names_transcript(shorter[j].name, stem));
                            }
                        }
                    },
                    None => {
                        assert forall|j: int|
                            0 <= j < n - 1 implies !names_transcript(
                                #[trigger] longer[j].name,
                                stem,
                            ) by {
                            assert(!names_transcript(shorter[j].name, stem));
                        }
                    },
                }
                assert(is_newest_match(longer, stem, i));
            },
            None => {
                assert forall|j: int| 0 <= j < longer.len() implies !names_transcript(
                    #[trigger] longer[j].name,
                    stem,
                ) by {
                    if j < n - 1 {
                        assert(!names_transcript(shorter[j].name, stem));
                    }
                }
            },
        }
    }
    if n == entries.len() {
        assert(entries.take(n) =~= entries);
    }
}

/// The directory in which the worker runs and writes: `SpeechToText` below
/// the user's cache directory, or below the directory for temporary files
/// where the user has no cache directory.
pub open spec fn work_directory_of(cache: Option<Seq<char>>, temp: Seq<char>) -> Seq<char> {
    joined_path(
        match cache {
            Some(c) => c,
            None => temp,
        },
        "SpeechToText"@,
    )
}

/// The worker's directory for a user with the given cache directory.
pub fn work_directory_in(cache: &Option<String>, temp: &str) -> (r: String)
    ensures
        r@ == work_directory_of(opt_text(*cache), temp@),
{
    match cache {
        Some(c) => join(c.as_str(), "SpeechToText"),
        None => join(temp, "SpeechToText"),
    }
}

/// The worker's directory for the user whose cache directory the environment
/// names; `temp` is the directory for temporary files.
pub fn work_directory(temp: &str) -> (r: String)
    ensures
        exists|cache: Option<Seq<char>>| r@ == work_directory_of(cache, temp@),
{
    let cache = cache_dir();
    let r = work_directory_in(&cache, temp);
    assert(r@ == work_directory_of(opt_text(cache), temp@));
    r
}

/// The directories in which a transcript is looked for, in the order of the
/// search: the worker's directory, `output` below it, and the user's home
/// directory, or `/tmp` where the user has none.
pub open spec fn search_path_list(work_dir: Seq<char>, home: Option<Seq<char>>) -> Seq<Seq<char>> {
    seq![
        work_dir,
        joined_path(work_dir, "output"@),
        match home {
            Some(h) => h,
            None => "/tmp"@,
        },
    ]
}

/// The directories to search for a user with the given home directory.
pub fn search_directories_in(work_dir: &str, home: &Option<String>) -> (r: Vec<String>)
    ensures
        texts(r@) == search_path_list(work_dir@, opt_text(*home)),
{
    let mut r: Vec<String> = Vec::new();
    r.push(String::from_str(work_dir));
    r.push(join(work_dir, "output"));
    r.push(
        match home {
            Some(h) => h.clone(),
            None => String::from_str("/tmp"),
        },
    );
    assert(texts(r@) =~= search_path_list(work_dir@, opt_text(*home)));
    r
}

/// The directories to search for the user whose home directory the
/// environment names.
pub fn search_directories(work_dir: &str) -> (r: Vec<String>)
    ensures
        exists|home: Option<Seq<char>>| texts(r@) == search_path_list(work_dir@, home),
{
    let home = home_dir();
    let r = search_directories_in(work_dir, &home);
    assert(texts(r@) == search_path_list(work_dir@, opt_text(home)));
    r
}

/// The stem by which the transcript of a recording is known: the name of the
/// recording without its extension, or `output` where the name has no stem.
pub open spec fn artifact_stem_of(file_name: Seq<char>) -> Seq<char> {
    match file_stem_of(file_name) {
        Some(s) => s,
        None => "output"@,
    }
}

/// The stem by which the transcript of a recording is known.
pub fn artifact_stem(file_name: &str) -> (r: String)
    ensures
        r@ == artifact_stem_of(file_name@),
{
    match file_stem(file_name) {
        Some(s) => s,
        None => String::from_str("output"),
    }
}

/// The path at which the transcript is expected: the expected name in the
/// worker's directory.
pub fn expected_output_path(work_dir: &str, stem: &str) -> (r: String)
    ensures
        r@ == joined_path(work_dir@, transcript_name(stem@)),
{
    join(work_dir, transcript_file_name(stem).as_str())
}

/// The text of a transcript, given what reading the file gave: what was
/// read, or a sentence that says that nothing could be read.
pub open spec fn transcript_text_of(read: Result<Seq<char>, Seq<char>>) -> Seq<char> {
    match read {
        Ok(t) => t,
        Err(_) => "Transcription completed but text could not be read"@,
    }
}

/// What reading a file gave, as the contracts speak of it.
pub open spec fn read_view(read: Result<String, String>) -> Result<Seq<char>, Seq<char>> {
    match read {
        Ok(t) => Ok(t@),
        Err(m) => Err(m@),
    }
}

/// The text of a transcript, given what reading the file gave.
pub fn transcript_text(read: Result<String, String>) -> (r: String)
    ensures
        r@ == transcript_text_of(read_view(read)),
{
    match read {
        Ok(t) => t,
        Err(_) => String::from_str("Transcription completed but text could not be read"),
    }
}

} // verus!
