//! The parser of the worker's output: what a line reports of the progress of
//! a transcription.
//!
//! Six recognizers are tried in a fixed order, and the first that makes a
//! report wins: a segment marker of the speech model, a progress bar, the
//! worker's own progress line, a bare percentage, and two phrases.

use crate::models::{Percent, ProcessingProgress, ProcessingStage, ProgressView};
use crate::text::{
    all_digits, chars_of, contains, decimal_digits, decimal_string, decimal_value, has_infix,
    is_digit, is_digits, min_nat, opt_text, parse_capped, two_digit_string, two_digits,
};
use vstd::prelude::*;
use vstd::string::*;

verus! {

/// A segment marker of the speech model: `[MM:SS.mmm --> MM:SS.mmm]`.
pub const SEGMENT_PATTERN: &'static str =
    r"\[(\d{2}):(\d{2})\.(\d{3}) --> (\d{2}):(\d{2})\.(\d{3})\]";

/// A progress bar: `NN%|...| current/total [`.
pub const BAR_PATTERN: &'static str = r"(\d+)%\|[^|]*\|\s*(\d+)/(\d+)\s*\[";

/// The worker's own report: `[i/n] (p%) Processing:`.
pub const STEP_PATTERN: &'static str = r"\[(\d+)/(\d+)\]\s*\((\d+(?:\.\d+)?)%\)\s*Processing:";

/// A percentage anywhere in the line: `NN%`.
pub const BARE_PATTERN: &'static str = r"(\d+)%";

/// The groups of a match: the whole match first, then each group of the
/// pattern in turn, absent where the group took no part in the match.
pub type Groups = Vec<Option<String>>;

/// The groups of the leftmost match that `regex::Regex::captures` finds for a
/// pattern in a text. `None` where the text holds no match, and where the
/// pattern is no regular expression.
pub uninterp spec fn regex_groups(pattern: Seq<char>, text: Seq<char>) -> Option<
    Seq<Option<Seq<char>>>,
>;

/// The groups of a match as sequences of characters.
pub open spec fn groups_text(g: Seq<Option<String>>) -> Seq<Option<Seq<char>>> {
    g.map_values(|o: Option<String>| opt_text(o))
}

/// The outcome of a search as sequences of characters.
pub open spec fn match_text(m: Option<Groups>) -> Option<Seq<Option<Seq<char>>>> {
    match m {
        Some(g) => Some(groups_text(g@)),
        None => None,
    }
}

/// Compiles the pattern with `regex::Regex::new` and searches the text with
/// `Regex::captures`: the groups of the leftmost match, each as the text it
/// matched.
#[verifier::external_body]
pub(crate) fn search(pattern: &str, text: &str) -> (m: Option<Groups>)
    ensures
        match_text(m) == regex_groups(pattern@, text@),
{
    let re = regex::Regex::new(pattern).ok()?;
    let caps = re.captures(text)?;
    Some(caps.iter().map(|g| g.map(|x| x.as_str().to_string())).collect())
}

/// The text of group `i`, where the match has such a group and it took part.
pub open spec fn group(g: Seq<Option<Seq<char>>>, i: int) -> Option<Seq<char>> {
    if 0 <= i < g.len() {
        g[i]
    } else {
        None
    }
}

/// The number that group `i` writes, where it is a run of the digits `0` to `9`.
pub open spec fn number_group(g: Seq<Option<Seq<char>>>, i: int) -> Option<nat> {
    match group(g, i) {
        Some(s) => if is_digits(s) {
            Some(decimal_value(s))
        } else {
            None
        },
        None => None,
    }
}

/// The largest number that a counter in a message shows.
pub open spec fn count_cap() -> nat {
    0xffff_ffff_ffff_ffff
}

/// The characters of group `i`, where it is a run of digits.
fn digits_group(g: &Groups, i: usize) -> (r: Option<Vec<char>>)
    ensures
        match r {
            Some(d) => is_digits(d@) && group(groups_text(g@), i as int) == Some(d@),
            None => number_group(groups_text(g@), i as int) is None,
        },
{
    if i >= g.len() {
        return None;
    }
    match &g[i] {
        Some(s) => {
            let d = chars_of(s.as_str());
            if all_digits(&d) {
                Some(d)
            } else {
                None
            }
        },
        None => None,
    }
}

/// The number that group `i` writes, or `cap` where the number is larger.
fn capped_group(g: &Groups, i: usize, cap: u128) -> (r: Option<u128>)
    requires
        cap <= 0xffff_ffff_ffff_ffff_ffff,
    ensures
        match r {
            Some(n) => number_group(groups_text(g@), i as int) is Some && n == min_nat(
                number_group(groups_text(g@), i as int)->0,
                cap as nat,
            ),
            None => number_group(groups_text(g@), i as int) is None,
        },
{
    match digits_group(g, i) {
        Some(d) => Some(parse_capped(&d, cap)),
        None => None,
    }
}

/// The view of an optional report.
pub open spec fn opt_progress(o: Option<ProcessingProgress>) -> Option<ProgressView> {
    match o {
        Some(p) => Some(p@),
        None => None,
    }
}

/// A report on the file that is being transcribed: what every report of the
/// parser has in common.
pub open spec fn line_event(
    stage: ProcessingStage,
    progress: Percent,
    message: Seq<char>,
    file: Seq<char>,
    timestamp: i64,
) -> ProgressView {
    ProgressView {
        stage,
        progress,
        current_file: Some(file),
        timestamp,
        message: Some(message),
        job_id: None,
        file_index: None,
        total_files: None,
        can_cancel: true,
    }
}

fn make_event(
    stage: ProcessingStage,
    progress: Percent,
    message: String,
    file: &str,
    timestamp: i64,
) -> (e: ProcessingProgress)
    ensures
        e@ == line_event(stage, progress, message@, file@, timestamp),
{
    ProcessingProgress {
        stage,
        progress,
        current_file: Some(file.to_owned()),
        timestamp,
        message: Some(message),
        job_id: None,
        file_index: None,
        total_files: None,
        can_cancel: true,
    }
}

/// The end of a segment, in minutes and seconds, where the match of the
/// segment pattern holds four numbers.
pub open spec fn segment_reading(m: Option<Seq<Option<Seq<char>>>>) -> Option<(nat, nat)> {
    match m {
        Some(g) => if number_group(g, 1) is Some && number_group(g, 2) is Some && number_group(
            g,
            4,
        ) is Some && number_group(g, 5) is Some {
            Some((number_group(g, 4)->0, number_group(g, 5)->0))
        } else {
            None
        },
        None => None,
    }
}

/// The seconds of a recording that count as done at the end of a segment: no
/// more than 270, which is nine tenths of the five minutes that a recording
/// is taken to last.
pub open spec fn segment_seconds(minutes: nat, seconds: nat) -> nat {
    min_nat(minutes * 60 + seconds, 270)
}

/// A third of `n`, rounded to a tenth and written with one decimal.
pub open spec fn third_with_one_decimal(n: nat) -> Seq<char> {
    let tenths = (10 * n + 1) / 3;
    decimal_digits(tenths / 10) + "."@ + decimal_digits(tenths % 10)
}

/// The report for a segment that ends at the given minutes and seconds: the
/// share of five minutes that has passed, at most 90 percent.
pub open spec fn segment_event(minutes: nat, seconds: nat, file: Seq<char>, timestamp: i64)
    -> ProgressView {
    let done = segment_seconds(minutes, seconds);
    line_event(
        ProcessingStage::Transcribing,
        Percent { num: done as u128, den: 3 },
        "Transcribing: "@ + third_with_one_decimal(done) + "% ("@ + decimal_digits(
            min_nat(minutes, 255),
        ) + ":"@ + two_digits(min_nat(seconds, 255)) + ")"@,
        file,
        timestamp,
    )
}

/// What the first recognizer makes of a search for the segment pattern.
pub open spec fn segment_report(
    m: Option<Seq<Option<Seq<char>>>>,
    file: Seq<char>,
    timestamp: i64,
) -> Option<ProgressView> {
    match segment_reading(m) {
        Some((minutes, seconds)) => Some(segment_event(minutes, seconds, file, timestamp)),
        None => None,
    }
}

/// The report for a segment marker, from what a search for the segment
/// pattern found.
pub fn segment_progress(m: &Option<Groups>, file: &str, timestamp: i64) -> (r: Option<
    ProcessingProgress,
>)
    ensures
        opt_progress(r) == segment_report(match_text(*m), file@, timestamp),
{
    let g = match m {
        Some(g) => g,
        None => {
            return None;
        },
    };
    if digits_group(g, 1).is_none() || digits_group(g, 2).is_none() {
        return None;
    }
    let minutes = match capped_group(g, 4, 1000) {
        Some(n) => n,
        None => {
            return None;
        },
    };
    let seconds = match capped_group(g, 5, 1000) {
        Some(n) => n,
        None => {
            return None;
        },
    };
    let ghost em = number_group(groups_text(g@), 4)->0;
    let ghost es = number_group(groups_text(g@), 5)->0;
    let total: u128 = minutes * 60 + seconds;
    let done: u128 = if total > 270 {
        270
    } else {
        total
    };
    assert(done == segment_seconds(em, es));
    let tenths: u128 = (10 * done + 1) / 3;
    let shown_minutes: u128 = if minutes > 255 {
        255
    } else {
        minutes
    };
    let shown_seconds: u128 = if seconds > 255 {
        255
    } else {
        seconds
    };
    let mut message = String::from_str("Transcribing: ");
    message.append(decimal_string(tenths / 10).as_str());
    message.append(".");
    message.append(decimal_string(tenths % 10).as_str());
    message.append("% (");
    message.append(decimal_string(shown_minutes).as_str());
    message.append(":");
    message.append(two_digit_string(shown_seconds).as_str());
    message.append(")");
    assert(message@ =~= "Transcribing: "@ + third_with_one_decimal(done as nat) + "% ("@
        + decimal_digits(min_nat(em, 255)) + ":"@ + two_digits(min_nat(es, 255)) + ")"@);
    Some(
        make_event(
            ProcessingStage::Transcribing,
            Percent { num: done, den: 3 },
            message,
            file,
            timestamp,
        ),
    )
}

/// A whole number of percent, with what is above 100 counted as 100.
pub open spec fn whole_percent(n: nat) -> Percent {
    Percent { num: min_nat(n, 100) as u128, den: 1 }
}

/// The percentage, the current count and the total count, where the match of
/// the bar pattern holds three numbers.
pub open spec fn bar_reading(m: Option<Seq<Option<Seq<char>>>>) -> Option<(nat, nat, nat)> {
    match m {
        Some(g) => if number_group(g, 1) is Some && number_group(g, 2) is Some && number_group(
            g,
            3,
        ) is Some {
            Some((number_group(g, 1)->0, number_group(g, 2)->0, number_group(g, 3)->0))
        } else {
            None
        },
        None => None,
    }
}

/// The report for a progress bar that shows `percent`, at `current` of `total`.
pub open spec fn bar_event(percent: nat, current: nat, total: nat, file: Seq<char>, timestamp: i64)
    -> ProgressView {
    line_event(
        ProcessingStage::Transcribing,
        whole_percent(percent),
        "Transcribing: "@ + decimal_digits(min_nat(percent, 255)) + "% ("@ + decimal_digits(
            min_nat(current, count_cap()),
        ) + "/"@ + decimal_digits(min_nat(total, count_cap())) + ")"@,
        file,
        timestamp,
    )
}

/// What the second recognizer makes of a search for the bar pattern.
pub open spec fn bar_report(m: Option<Seq<Option<Seq<char>>>>, file: Seq<char>, timestamp: i64)
    -> Option<ProgressView> {
    match bar_reading(m) {
        Some((percent, current, total)) => Some(
            bar_event(percent, current, total, file, timestamp),
        ),
        None => None,
    }
}

/// The report for a progress bar, from what a search for the bar pattern found.
pub fn bar_progress(m: &Option<Groups>, file: &str, timestamp: i64) -> (r: Option<
    ProcessingProgress,
>)
    ensures
        opt_progress(r) == bar_report(match_text(*m), file@, timestamp),
{
    let g = match m {
        Some(g) => g,
        None => {
            return None;
        },
    };
    let percent = match capped_group(g, 1, 255) {
        Some(n) => n,
        None => {
            return None;
        },
    };
    let current = match capped_group(g, 2, 0xffff_ffff_ffff_ffff) {
        Some(n) => n,
        None => {
            return None;
        },
    };
    let total = match capped_group(g, 3, 0xffff_ffff_ffff_ffff) {
        Some(n) => n,
        None => {
            return None;
        },
    };
    let ghost p = number_group(groups_text(g@), 1)->0;
    let ghost c = number_group(groups_text(g@), 2)->0;
    let ghost t = number_group(groups_text(g@), 3)->0;
    let mut message = String::from_str("Transcribing: ");
    message.append(decimal_string(percent).as_str());
    message.append("% (");
    message.append(decimal_string(current).as_str());
    message.append("/");
    message.append(decimal_string(total).as_str());
    message.append(")");
    assert(message@ =~= "Transcribing: "@ + decimal_digits(min_nat(p, 255)) + "% ("@
        + decimal_digits(min_nat(c, count_cap())) + "/"@ + decimal_digits(
        min_nat(t, count_cap()),
    ) + ")"@);
    let progress = Percent::whole(percent);
    assert(progress == whole_percent(p));
    Some(make_event(ProcessingStage::Transcribing, progress, message, file, timestamp))
}

/// The place of the first dot at or after `i`; the length where there is none.
pub open spec fn first_dot_from(s: Seq<char>, i: int) -> int
    decreases s.len() - i,
{
    if i < 0 || i >= s.len() {
        s.len() as int
    } else if s[i] == '.' {
        i
    } else {
        first_dot_from(s, i + 1)
    }
}

/// What stands before the first dot.
pub open spec fn whole_part(s: Seq<char>) -> Seq<char> {
    s.take(first_dot_from(s, 0))
}

/// What stands after the first dot; nothing where there is no dot.
pub open spec fn fraction_part(s: Seq<char>) -> Seq<char> {
    if first_dot_from(s, 0) < s.len() {
        s.skip(first_dot_from(s, 0) + 1)
    } else {
        Seq::empty()
    }
}

/// `s` writes a number in base ten: digits, and after them perhaps a dot and
/// more digits.
pub open spec fn is_decimal(s: Seq<char>) -> bool {
    is_digits(whole_part(s)) && (first_dot_from(s, 0) < s.len() ==> is_digits(fraction_part(s)))
}

/// The text of group `i` split at its dot, where the group writes a number in
/// base ten.
pub open spec fn decimal_group(g: Seq<Option<Seq<char>>>, i: int) -> Option<
    (Seq<char>, Seq<char>),
> {
    match group(g, i) {
        Some(s) => if is_decimal(s) {
            Some((whole_part(s), fraction_part(s)))
        } else {
            None
        },
        None => None,
    }
}

/// The characters of group `i` before and after its dot, where the group
/// writes a number in base ten.
fn split_decimal_group(g: &Groups, i: usize) -> (r: Option<(Vec<char>, Vec<char>)>)
    ensures
        match r {
            Some((w, f)) => decimal_group(groups_text(g@), i as int) == Some((w@, f@))
                && is_digits(w@) && (f@.len() > 0 ==> is_digits(f@)),
            None => decimal_group(groups_text(g@), i as int) is None,
        },
{
    if i >= g.len() {
        return None;
    }
    let s = match &g[i] {
        Some(s) => chars_of(s.as_str()),
        None => {
            return None;
        },
    };
    let mut d: usize = 0;
    while d < s.len() && s[d] != '.'
        invariant
            d <= s.len(),
            first_dot_from(s@, 0) == first_dot_from(s@, d as int),
        decreases s.len() - d,
    {
        d += 1;
    }
    assert(first_dot_from(s@, 0) == d);
    let mut whole: Vec<char> = Vec::new();
    let mut k: usize = 0;
    while k < d
        invariant
            k <= d <= s.len(),
            whole@ == s@.take(k as int),
        decreases d - k,
    {
        whole.push(s[k]);
        assert(s@.take(k + 1) =~= s@.take(k as int).push(s@[k as int]));
        k += 1;
    }
    let mut fraction: Vec<char> = Vec::new();
    if d < s.len() {
        let mut k: usize = d + 1;
        while k < s.len()
            invariant
                d + 1 <= k <= s.len(),
                fraction@ == s@.subrange(d + 1, k as int),
            decreases s.len() - k,
        {
            fraction.push(s[k]);
            assert(s@.subrange(d + 1, k + 1) =~= s@.subrange(d + 1, k as int).push(s@[k as int]));
            k += 1;
        }
        assert(s@.subrange(d + 1, s.len() as int) =~= s@.skip(d + 1));
    }
    assert(fraction@ =~= fraction_part(s@));
    if !all_digits(&whole) {
        return None;
    }
    if d < s.len() && !all_digits(&fraction) {
        return None;
    }
    Some((whole, fraction))
}

/// Ten to the power of `k`.
pub open spec fn pow10(k: nat) -> nat
    decreases k,
{
    if k == 0 {
        1
    } else {
        10 * pow10((k - 1) as nat)
    }
}

/// The number of decimals that a percentage keeps.
pub open spec fn kept_decimals(fraction: Seq<char>) -> nat {
    min_nat(fraction.len(), 9)
}

/// The percentage that is written with `whole` before the dot and the digits
/// `fraction` after it: 100 where `whole` is 100 or more, and otherwise the
/// number itself, with the decimals after the ninth left out.
pub open spec fn decimal_percent(whole: nat, fraction: Seq<char>) -> Percent {
    if whole >= 100 {
        Percent { num: 100, den: 1 }
    } else {
        let k = kept_decimals(fraction);
        Percent {
            num: (whole * pow10(k) + decimal_value(fraction.take(k as int))) as u128,
            den: pow10(k) as u128,
        }
    }
}

/// A run of `n` digits writes a number below ten to the power of `n`.
pub proof fn lemma_decimal_value_bound(s: Seq<char>)
    requires
        forall|i: int| 0 <= i < s.len() ==> is_digit(#[trigger] s[i]),
    ensures
        decimal_value(s) < pow10(s.len()),
    decreases s.len(),
{
    if s.len() > 0 {
        lemma_decimal_value_bound(s.drop_last());
        assert(is_digit(s[s.len() - 1]));
    }
}

fn power_of_ten(k: usize) -> (r: u128)
    requires
        k <= 9,
    ensures
        r == pow10(k as nat),
        1 <= r <= 1_000_000_000,
{
    proof {
        reveal_with_fuel(pow10, 10);
    }
    if k == 0 {
        1
    } else if k == 1 {
        10
    } else if k == 2 {
        100
    } else if k == 3 {
        1_000
    } else if k == 4 {
        10_000
    } else if k == 5 {
        100_000
    } else if k == 6 {
        1_000_000
    } else if k == 7 {
        10_000_000
    } else if k == 8 {
        100_000_000
    } else {
        1_000_000_000
    }
}

/// The percentage that a number in base ten writes, from the digits before
/// and after its dot.
fn percent_of_decimal(whole: &Vec<char>, fraction: &Vec<char>) -> (r: (Percent, u128))
    requires
        is_digits(whole@),
        fraction@.len() > 0 ==> is_digits(fraction@),
    ensures
        r.0 == decimal_percent(decimal_value(whole@), fraction@),
        r.0.wf(),
        r.1 == min_nat(decimal_value(whole@), 255),
{
    let w = parse_capped(whole, 255);
    if w >= 100 {
        return (Percent { num: 100, den: 1 }, w);
    }
    let k: usize = if fraction.len() > 9 {
        9
    } else {
        fraction.len()
    };
    let mut kept: Vec<char> = Vec::new();
    let mut i: usize = 0;
    while i < k
        invariant
            i <= k <= fraction.len(),
            kept@ == fraction@.take(i as int),
        decreases k - i,
    {
        kept.push(fraction[i]);
        assert(fraction@.take(i + 1) =~= fraction@.take(i as int).push(fraction@[i as int]));
        i += 1;
    }
    let den = power_of_ten(k);
    proof {
        lemma_decimal_value_bound(kept@);
    }
    let f: u128 = if k == 0 {
        0
    } else {
        parse_capped(&kept, 1_000_000_000)
    };
    assert(f == decimal_value(kept@));
    assert(w * den + f <= 100 * den) by (nonlinear_arith)
        requires
            w <= 99,
            f < den,
    ;
    assert(w * den <= 99 * 1_000_000_000) by (nonlinear_arith)
        requires
            w <= 99,
            den <= 1_000_000_000,
    ;
    (Percent { num: w * den + f, den }, w)
}

/// The current count, the total count and the percentage split at its dot,
/// where the match of the step pattern holds two numbers and a number in base
/// ten.
pub open spec fn step_reading(m: Option<Seq<Option<Seq<char>>>>) -> Option<
    (nat, nat, Seq<char>, Seq<char>),
> {
    match m {
        Some(g) => if number_group(g, 1) is Some && number_group(g, 2) is Some && decimal_group(
            g,
            3,
        ) is Some {
            let parts = decimal_group(g, 3)->0;
            Some((number_group(g, 1)->0, number_group(g, 2)->0, parts.0, parts.1))
        } else {
            None
        },
        None => None,
    }
}

/// The report for the worker's own line: file `current` of `total`, at the
/// percentage written with `whole` before the dot and `fraction` after it.
pub open spec fn step_event(
    current: nat,
    total: nat,
    whole: Seq<char>,
    fraction: Seq<char>,
    file: Seq<char>,
    timestamp: i64,
) -> ProgressView {
    line_event(
        ProcessingStage::Transcribing,
        decimal_percent(decimal_value(whole), fraction),
        "Processing file: "@ + decimal_digits(min_nat(decimal_value(whole), 255)) + "% ("@
            + decimal_digits(min_nat(current, count_cap())) + "/"@ + decimal_digits(
            min_nat(total, count_cap()),
        ) + ")"@,
        file,
        timestamp,
    )
}

/// What the third recognizer makes of a search for the step pattern.
pub open spec fn step_report(m: Option<Seq<Option<Seq<char>>>>, file: Seq<char>, timestamp: i64)
    -> Option<ProgressView> {
    match step_reading(m) {
        Some((current, total, whole, fraction)) => Some(
            step_event(current, total, whole, fraction, file, timestamp),
        ),
        None => None,
    }
}

/// The report for the worker's own line, from what a search for the step
/// pattern found.
pub fn step_progress(m: &Option<Groups>, file: &str, timestamp: i64) -> (r: Option<
    ProcessingProgress,
>)
    ensures
        opt_progress(r) == step_report(match_text(*m), file@, timestamp),
{
    let g = match m {
        Some(g) => g,
        None => {
            return None;
        },
    };
    let current = match capped_group(g, 1, 0xffff_ffff_ffff_ffff) {
        Some(n) => n,
        None => {
            return None;
        },
    };
    let total = match capped_group(g, 2, 0xffff_ffff_ffff_ffff) {
        Some(n) => n,
        None => {
            return None;
        },
    };
    let (whole, fraction) = match split_decimal_group(g, 3) {
        Some(parts) => parts,
        None => {
            return None;
        },
    };
    let ghost c = number_group(groups_text(g@), 1)->0;
    let ghost t = number_group(groups_text(g@), 2)->0;
    let (progress, shown) = percent_of_decimal(&whole, &fraction);
    let mut message = String::from_str("Processing file: ");
    message.append(decimal_string(shown).as_str());
    message.append("% (");
    message.append(decimal_string(current).as_str());
    message.append("/");
    message.append(decimal_string(total).as_str());
    message.append(")");
    assert(message@ =~= "Processing file: "@ + decimal_digits(
        min_nat(decimal_value(whole@), 255),
    ) + "% ("@ + decimal_digits(min_nat(c, count_cap())) + "/"@ + decimal_digits(
        min_nat(t, count_cap()),
    ) + ")"@);
    Some(make_event(ProcessingStage::Transcribing, progress, message, file, timestamp))
}

/// The percentage, where the match of the bare pattern holds a number.
pub open spec fn bare_reading(m: Option<Seq<Option<Seq<char>>>>) -> Option<nat> {
    match m {
        Some(g) => number_group(g, 1),
        None => None,
    }
}

/// The report for a line that holds `percent` and a percent sign.
pub open spec fn bare_event(percent: nat, file: Seq<char>, timestamp: i64) -> ProgressView {
    line_event(
        ProcessingStage::Transcribing,
        whole_percent(percent),
        "Transcribing: "@ + decimal_digits(min_nat(percent, 255)) + "%"@,
        file,
        timestamp,
    )
}

/// What the fourth recognizer makes of a search for the bare pattern.
pub open spec fn bare_report(m: Option<Seq<Option<Seq<char>>>>, file: Seq<char>, timestamp: i64)
    -> Option<ProgressView> {
    match bare_reading(m) {
        Some(percent) => Some(bare_event(percent, file, timestamp)),
        None => None,
    }
}

/// The report for a bare percentage, from what a search for the bare pattern
/// found.
pub fn bare_progress(m: &Option<Groups>, file: &str, timestamp: i64) -> (r: Option<
    ProcessingProgress,
>)
    ensures
        opt_progress(r) == bare_report(match_text(*m), file@, timestamp),
{
    let g = match m {
        Some(g) => g,
        None => {
            return None;
        },
    };
    let percent = match capped_group(g, 1, 255) {
        Some(n) => n,
        None => {
            return None;
        },
    };
    let ghost p = number_group(groups_text(g@), 1)->0;
    let mut message = String::from_str("Transcribing: ");
    message.append(decimal_string(percent).as_str());
    message.append("%");
    assert(message@ =~= "Transcribing: "@ + decimal_digits(min_nat(p, 255)) + "%"@);
    let progress = Percent::whole(percent);
    assert(progress == whole_percent(p));
    Some(make_event(ProcessingStage::Transcribing, progress, message, file, timestamp))
}

/// What the two last recognizers make of a line: the model is being loaded,
/// or the transcription has begun.
pub open spec fn phrase_report(line: Seq<char>, file: Seq<char>, timestamp: i64) -> Option<
    ProgressView,
> {
    if has_infix(line, "Loading Whisper model"@) {
        Some(
            line_event(
                ProcessingStage::Initializing,
                Percent { num: 10, den: 1 },
                "Loading Whisper model..."@,
                file,
                timestamp,
            ),
        )
    } else if has_infix(line, "Transcribing"@) && !has_infix(line, "Loading"@) {
        Some(
            line_event(
                ProcessingStage::Transcribing,
                Percent { num: 25, den: 1 },
                "Transcribing audio..."@,
                file,
                timestamp,
            ),
        )
    } else {
        None
    }
}

/// The report for a line that names a phase in words.
pub fn phrase_progress(line: &str, file: &str, timestamp: i64) -> (r: Option<ProcessingProgress>)
    ensures
        opt_progress(r) == phrase_report(line@, file@, timestamp),
{
    let chars = chars_of(line);
    if contains(&chars, &chars_of("Loading Whisper model")) {
        Some(
            make_event(
                ProcessingStage::Initializing,
                Percent::whole(10),
                String::from_str("Loading Whisper model..."),
                file,
                timestamp,
            ),
        )
    } else if contains(&chars, &chars_of("Transcribing")) && !contains(
        &chars,
        &chars_of("Loading"),
    ) {
        Some(
            make_event(
                ProcessingStage::Transcribing,
                Percent::whole(25),
                String::from_str("Transcribing audio..."),
                file,
                timestamp,
            ),
        )
    } else {
        None
    }
}

/// What a line of the worker's output reports, given what the searches for
/// the four patterns found in it: the report of the first recognizer that
/// makes one, in the order segment, bar, step, bare percentage, phrase.
pub open spec fn progress_report(
    line: Seq<char>,
    file: Seq<char>,
    timestamp: i64,
    segment: Option<Seq<Option<Seq<char>>>>,
    bar: Option<Seq<Option<Seq<char>>>>,
    step: Option<Seq<Option<Seq<char>>>>,
    bare: Option<Seq<Option<Seq<char>>>>,
) -> Option<ProgressView> {
    if segment_report(segment, file, timestamp) is Some {
        segment_report(segment, file, timestamp)
    } else if bar_report(bar, file, timestamp) is Some {
        bar_report(bar, file, timestamp)
    } else if step_report(step, file, timestamp) is Some {
        step_report(step, file, timestamp)
    } else if bare_report(bare, file, timestamp) is Some {
        bare_report(bare, file, timestamp)
    } else {
        phrase_report(line, file, timestamp)
    }
}

/// What a line of the worker's output reports.
pub open spec fn line_report(line: Seq<char>, file: Seq<char>, timestamp: i64) -> Option<
    ProgressView,
> {
    progress_report(
        line,
        file,
        timestamp,
        regex_groups(SEGMENT_PATTERN@, line),
        regex_groups(BAR_PATTERN@, line),
        regex_groups(STEP_PATTERN@, line),
        regex_groups(BARE_PATTERN@, line),
    )
}

/// The report for a line, from what the searches for the four patterns found
/// in it.
pub fn progress_from_matches(
    line: &str,
    file: &str,
    timestamp: i64,
    segment: &Option<Groups>,
    bar: &Option<Groups>,
    step: &Option<Groups>,
    bare: &Option<Groups>,
) -> (r: Option<ProcessingProgress>)
    ensures
        opt_progress(r) == progress_report(
            line@,
            file@,
            timestamp,
            match_text(*segment),
            match_text(*bar),
            match_text(*step),
            match_text(*bare),
        ),
{
    let r = segment_progress(segment, file, timestamp);
    if r.is_some() {
        return r;
    }
    let r = bar_progress(bar, file, timestamp);
    if r.is_some() {
        return r;
    }
    let r = step_progress(step, file, timestamp);
    if r.is_some() {
        return r;
    }
    let r = bare_progress(bare, file, timestamp);
    if r.is_some() {
        return r;
    }
    phrase_progress(line, file, timestamp)
}

/// Reads one line of the worker's output: the report that it makes, if it
/// makes one, for the file that is being transcribed and the given time.
pub fn parse_progress(line: &str, file: &str, timestamp: i64) -> (r: Option<ProcessingProgress>)
    ensures
        opt_progress(r) == line_report(line@, file@, timestamp),
{
    let r = segment_progress(&search(SEGMENT_PATTERN, line), file, timestamp);
    if r.is_some() {
        return r;
    }
    let r = bar_progress(&search(BAR_PATTERN, line), file, timestamp);
    if r.is_some() {
        return r;
    }
    let r = step_progress(&search(STEP_PATTERN, line), file, timestamp);
    if r.is_some() {
        return r;
    }
    let r = bare_progress(&search(BARE_PATTERN, line), file, timestamp);
    if r.is_some() {
        return r;
    }
    phrase_progress(line, file, timestamp)
}

/// The percentage that the first of the bar, step and bare recognizers reads,
/// with 100 standing for what is above 100.
pub open spec fn captured_percent(
    bar: Option<Seq<Option<Seq<char>>>>,
    step: Option<Seq<Option<Seq<char>>>>,
    bare: Option<Seq<Option<Seq<char>>>>,
) -> Percent {
    if bar_reading(bar) is Some {
        let found = bar_reading(bar)->0;
        whole_percent(found.0)
    } else if step_reading(step) is Some {
        let found = step_reading(step)->0;
        decimal_percent(decimal_value(found.2), found.3)
    } else {
        whole_percent(bare_reading(bare)->0)
    }
}

/// A percentage written with digits after the dot lies between 0 and 100.
pub proof fn lemma_decimal_percent_in_range(whole: nat, fraction: Seq<char>)
    requires
        forall|i: int| 0 <= i < fraction.len() ==> is_digit(#[trigger] fraction[i]),
    ensures
        decimal_percent(whole, fraction).wf(),
        whole < 100 ==> decimal_percent(whole, fraction).den == pow10(kept_decimals(fraction)),
        whole < 100 ==> decimal_percent(whole, fraction).num == whole * pow10(
            kept_decimals(fraction),
        ) + decimal_value(fraction.take(kept_decimals(fraction) as int)),
{
    if whole < 100 {
        let k = kept_decimals(fraction);
        let kept = fraction.take(k as int);
        lemma_decimal_value_bound(kept);
        reveal_with_fuel(pow10, 10);
        assert(pow10(k) <= 1_000_000_000);
        assert(whole * pow10(k) + decimal_value(kept) <= 100 * pow10(k)) by (nonlinear_arith)
            requires
                whole <= 99,
                decimal_value(kept) < pow10(k),
        ;
        assert(100 * pow10(k) <= 100_000_000_000) by (nonlinear_arith)
            requires
                pow10(k) <= 1_000_000_000,
        ;
    }
}

/// A percentage below 100 that is written with nine decimals or fewer is
/// reported as it is written: `whole` and the digits of `fraction` over ten
/// to the power of the number of those digits.
pub proof fn lemma_short_decimal_is_exact(whole: nat, fraction: Seq<char>)
    requires
        whole < 100,
        fraction.len() <= 9,
        forall|i: int| 0 <= i < fraction.len() ==> is_digit(#[trigger] fraction[i]),
    ensures
        decimal_percent(whole, fraction).den == pow10(fraction.len()),
        decimal_percent(whole, fraction).num == whole * pow10(fraction.len()) + decimal_value(
            fraction,
        ),
{
    lemma_decimal_percent_in_range(whole, fraction);
    assert(fraction.take(fraction.len() as int) =~= fraction);
}

/// The fraction of a number in base ten is made of digits.
pub proof fn lemma_fraction_digits(s: Seq<char>)
    requires
        is_decimal(s),
    ensures
        forall|i: int| 0 <= i < fraction_part(s).len() ==> is_digit(#[trigger] fraction_part(s)[i]),
{
}

/// A line with a percentage reports that percentage: where the segment
/// recognizer makes no report and the bar, step or bare recognizer reads a
/// percentage, the line is reported in stage `Transcribing`, and its progress
/// is the percentage that the first of the three reads, with 100 standing for
/// what is above 100.
pub proof fn lemma_percentage_lines(
    line: Seq<char>,
    file: Seq<char>,
    timestamp: i64,
    segment: Option<Seq<Option<Seq<char>>>>,
    bar: Option<Seq<Option<Seq<char>>>>,
    step: Option<Seq<Option<Seq<char>>>>,
    bare: Option<Seq<Option<Seq<char>>>>,
)
    requires
        segment_reading(segment) is None,
        bar_reading(bar) is Some || step_reading(step) is Some || bare_reading(bare) is Some,
    ensures
        progress_report(line, file, timestamp, segment, bar, step, bare) is Some,
        progress_report(line, file, timestamp, segment, bar, step, bare)->0.stage
            == ProcessingStage::Transcribing,
        progress_report(line, file, timestamp, segment, bar, step, bare)->0.progress
            == captured_percent(bar, step, bare),
        captured_percent(bar, step, bare).wf(),
{
    if bar_reading(bar) is Some {
    } else if step_reading(step) is Some {
        let g = step->0;
        let found = step_reading(step)->0;
        lemma_fraction_digits(group(g, 3)->0);
        lemma_decimal_percent_in_range(decimal_value(found.2), found.3);
    } else {
    }
}

/// A segment marker never reports more than 90 percent: where the segment
/// recognizer reads the end of a segment, the line is reported in stage
/// `Transcribing` with a progress between 0 and 90.
pub proof fn lemma_segment_lines(
    line: Seq<char>,
    file: Seq<char>,
    timestamp: i64,
    segment: Option<Seq<Option<Seq<char>>>>,
    bar: Option<Seq<Option<Seq<char>>>>,
    step: Option<Seq<Option<Seq<char>>>>,
    bare: Option<Seq<Option<Seq<char>>>>,
)
    requires
        segment_reading(segment) is Some,
    ensures
        progress_report(line, file, timestamp, segment, bar, step, bare) is Some,
        progress_report(line, file, timestamp, segment, bar, step, bare)->0.stage
            == ProcessingStage::Transcribing,
        progress_report(line, file, timestamp, segment, bar, step, bare)->0.progress.at_most(90),
        progress_report(line, file, timestamp, segment, bar, step, bare)->0.progress.wf(),
{
}

/// Whatever a line reports, its progress lies between 0 and 100.
pub proof fn lemma_report_in_range(
    line: Seq<char>,
    file: Seq<char>,
    timestamp: i64,
    segment: Option<Seq<Option<Seq<char>>>>,
    bar: Option<Seq<Option<Seq<char>>>>,
    step: Option<Seq<Option<Seq<char>>>>,
    bare: Option<Seq<Option<Seq<char>>>>,
)
    ensures
        progress_report(line, file, timestamp, segment, bar, step, bare) is Some
            ==> progress_report(line, file, timestamp, segment, bar, step, bare)->0.progress.wf(),
{
    if segment_reading(segment) is Some {
        lemma_segment_lines(line, file, timestamp, segment, bar, step, bare);
    } else if bar_reading(bar) is Some || step_reading(step) is Some || bare_reading(bare)
        is Some {
        lemma_percentage_lines(line, file, timestamp, segment, bar, step, bare);
    }
}

/// What `parse_progress` makes of a line with a percentage: where the search
/// for the segment pattern reads no end of a segment and the search for the
/// bar, the step or the bare pattern reads a percentage, the line is reported
/// in stage `Transcribing` with that percentage, 100 standing for what is
/// above 100.
pub proof fn lemma_parsed_percentage(line: Seq<char>, file: Seq<char>, timestamp: i64)
    requires
        segment_reading(regex_groups(SEGMENT_PATTERN@, line)) is None,
        bar_reading(regex_groups(BAR_PATTERN@, line)) is Some || step_reading(
            regex_groups(STEP_PATTERN@, line),
        ) is Some || bare_reading(regex_groups(BARE_PATTERN@, line)) is Some,
    ensures
        line_report(line, file, timestamp) is Some,
        line_report(line, file, timestamp)->0.stage == ProcessingStage::Transcribing,
        line_report(line, file, timestamp)->0.progress == captured_percent(
            regex_groups(BAR_PATTERN@, line),
            regex_groups(STEP_PATTERN@, line),
            regex_groups(BARE_PATTERN@, line),
        ),
        line_report(line, file, timestamp)->0.progress.wf(),
{
    lemma_percentage_lines(
        line,
        file,
        timestamp,
        regex_groups(SEGMENT_PATTERN@, line),
        regex_groups(BAR_PATTERN@, line),
        regex_groups(STEP_PATTERN@, line),
        regex_groups(BARE_PATTERN@, line),
    );
}

/// What `parse_progress` makes of a segment marker: where the search for the
/// segment pattern reads the end of a segment, the line is reported in stage
/// `Transcribing` with a progress of at most 90.
pub proof fn lemma_parsed_segment(line: Seq<char>, file: Seq<char>, timestamp: i64)
    requires
        segment_reading(regex_groups(SEGMENT_PATTERN@, line)) is Some,
    ensures
        line_report(line, file, timestamp) is Some,
        line_report(line, file, timestamp)->0.stage == ProcessingStage::Transcribing,
        line_report(line, file, timestamp)->0.progress.at_most(90),
{
    lemma_segment_lines(
        line,
        file,
        timestamp,
        regex_groups(SEGMENT_PATTERN@, line),
        regex_groups(BAR_PATTERN@, line),
        regex_groups(STEP_PATTERN@, line),
        regex_groups(BARE_PATTERN@, line),
    );
}

} // verus!
