use transcription_engine::cli::CliManager;
use transcription_engine::models::{Percent, ProcessingProgress, ProcessingStage};
use transcription_engine::progress::{
    bar_progress, bare_progress, parse_progress, phrase_progress, progress_from_matches,
    segment_progress, step_progress,
};

const FILE: &str = "/audio/interview.m4a";
const NOW: i64 = 1_700_000_000_123;

fn parsed(line: &str) -> ProcessingProgress {
    match parse_progress(line, FILE, NOW) {
        Some(p) => p,
        None => panic!("no report for {:?}", line),
    }
}

fn check_common(p: &ProcessingProgress) {
    assert_eq!(p.current_file.as_deref(), Some(FILE));
    assert_eq!(p.timestamp, NOW);
    assert_eq!(p.job_id, None);
    assert_eq!(p.file_index, None);
    assert_eq!(p.total_files, None);
    assert!(p.can_cancel);
}

fn groups(texts: &[Option<&str>]) -> Option<Vec<Option<String>>> {
    Some(texts.iter().map(|t| t.map(|s| s.to_string())).collect())
}

#[test]
fn segment_markers_report_a_share_of_five_minutes() {
    let p = parsed("[00:00.000 --> 00:30.000]");
    check_common(&p);
    assert_eq!(p.stage, ProcessingStage::Transcribing);
    assert_eq!(p.progress, Percent { num: 30, den: 3 });
    assert_eq!(p.message.as_deref(), Some("Transcribing: 10.0% (0:30)"));

    let p = parsed("[01:10.000 --> 01:40.500]  and so on");
    assert_eq!(p.progress, Percent { num: 100, den: 3 });
    assert_eq!(p.message.as_deref(), Some("Transcribing: 33.3% (1:40)"));

    let p = parsed("[03:00.000 --> 03:20.000]");
    assert_eq!(p.progress, Percent { num: 200, den: 3 });
    assert_eq!(p.message.as_deref(), Some("Transcribing: 66.7% (3:20)"));

    let p = parsed("[00:00.000 --> 00:00.999]");
    assert_eq!(p.progress, Percent { num: 0, den: 3 });
    assert_eq!(p.message.as_deref(), Some("Transcribing: 0.0% (0:00)"));

    let p = parsed("[00:00.000 --> 00:07.000]");
    assert_eq!(p.message.as_deref(), Some("Transcribing: 2.3% (0:07)"));
}

#[test]
fn segment_markers_never_report_more_than_ninety_percent() {
    let p = parsed("[04:20.000 --> 04:30.000]");
    assert_eq!(p.progress, Percent { num: 270, den: 3 });
    assert_eq!(p.message.as_deref(), Some("Transcribing: 90.0% (4:30)"));
    let p = parsed("[04:20.000 --> 04:40.000]");
    assert_eq!(p.progress, Percent { num: 270, den: 3 });
    assert_eq!(p.message.as_deref(), Some("Transcribing: 90.0% (4:40)"));
    let p = parsed("[98:00.000 --> 99:99.000]");
    assert_eq!(p.progress, Percent { num: 270, den: 3 });
    assert_eq!(p.message.as_deref(), Some("Transcribing: 90.0% (99:99)"));
    for minutes in 0..100u128 {
        for seconds in [0u128, 1, 29, 30, 59, 60, 99] {
            let line = format!("[00:00.000 --> {:02}:{:02}.000]", minutes, seconds);
            let p = parsed(&line);
            assert!(p.progress.den > 0);
            assert!(p.progress.num <= 90 * p.progress.den, "{}", line);
            let total = minutes * 60 + seconds;
            assert_eq!(p.progress.num, if total > 270 { 270 } else { total });
            let percent = (total as f64 / 300.0) * 100.0;
            let shown = if percent > 90.0 { 90.0 } else { percent };
            let want = format!("Transcribing: {:.1}% ({}:{:02})", shown, minutes as u8, seconds as u8);
            assert_eq!(p.message, Some(want));
        }
    }
}

#[test]
fn progress_bars_report_their_percentage() {
    let p = parsed("96%|█████████▌| 213478/222478 [03:06<00:07, 1146.02frames/s]");
    check_common(&p);
    assert_eq!(p.stage, ProcessingStage::Transcribing);
    assert_eq!(p.progress, Percent { num: 96, den: 1 });
    assert_eq!(p.message.as_deref(), Some("Transcribing: 96% (213478/222478)"));

    let p = parsed("  0%|          | 0/100 [00:00<?, ?frames/s]");
    assert_eq!(p.progress, Percent { num: 0, den: 1 });
    assert_eq!(p.message.as_deref(), Some("Transcribing: 0% (0/100)"));

    let p = parsed("100%|██████████|007/0007[done");
    assert_eq!(p.progress, Percent { num: 100, den: 1 });
    assert_eq!(p.message.as_deref(), Some("Transcribing: 100% (7/7)"));
}

#[test]
fn percentages_above_one_hundred_count_as_one_hundred() {
    let p = parsed("120%|##| 12/10 [");
    assert_eq!(p.progress, Percent { num: 100, den: 1 });
    assert_eq!(p.message.as_deref(), Some("Transcribing: 120% (12/10)"));
    let p = parsed("done 740%");
    assert_eq!(p.progress, Percent { num: 100, den: 1 });
    assert_eq!(p.message.as_deref(), Some("Transcribing: 255%"));
    let p = parsed("99999999999999999999999999999999999999999999%");
    assert_eq!(p.progress, Percent { num: 100, den: 1 });
    let p = parsed("[1/2] (250.75%) Processing: a.m4a");
    assert_eq!(p.progress, Percent { num: 100, den: 1 });
    assert_eq!(p.message.as_deref(), Some("Processing file: 250% (1/2)"));
}

#[test]
fn counts_are_shown_up_to_the_largest_number() {
    let p = parsed("5%|#| 18446744073709551615/18446744073709551616 [");
    assert_eq!(
        p.message.as_deref(),
        Some("Transcribing: 5% (18446744073709551615/18446744073709551615)")
    );
}

#[test]
fn the_workers_own_lines_report_their_percentage() {
    let p = parsed("[1/1] (100.0%) Processing: test-file-1.m4a");
    check_common(&p);
    assert_eq!(p.stage, ProcessingStage::Transcribing);
    assert_eq!(p.progress, Percent { num: 100, den: 1 });
    assert_eq!(p.message.as_deref(), Some("Processing file: 100% (1/1)"));

    let p = parsed("[2/5] (45.5%) Processing: second.wav");
    assert_eq!(p.progress, Percent { num: 455, den: 10 });
    assert_eq!(p.message.as_deref(), Some("Processing file: 45% (2/5)"));

    let p = parsed("[3/4](75%)Processing:");
    assert_eq!(p.progress, Percent { num: 75, den: 1 });
    assert_eq!(p.message.as_deref(), Some("Processing file: 75% (3/4)"));

    let p = parsed("[10/20] (12.125%) Processing: x");
    assert_eq!(p.progress, Percent { num: 12125, den: 1000 });

    let p = parsed("[1/1] (099.050%) Processing: x");
    assert_eq!(p.progress, Percent { num: 99050, den: 1000 });
    assert_eq!(p.message.as_deref(), Some("Processing file: 99% (1/1)"));
}

#[test]
fn decimals_after_the_ninth_are_left_out() {
    let p = parsed("[1/1] (33.3333333333333%) Processing: x");
    assert_eq!(p.progress, Percent { num: 33_333_333_333, den: 1_000_000_000 });
    let p = parsed("[1/1] (0.123456789%) Processing: x");
    assert_eq!(p.progress, Percent { num: 123_456_789, den: 1_000_000_000 });
}

#[test]
fn bare_percentages_are_reported() {
    let p = parsed("Processing: 50%");
    check_common(&p);
    assert_eq!(p.stage, ProcessingStage::Transcribing);
    assert_eq!(p.progress, Percent { num: 50, den: 1 });
    assert_eq!(p.message.as_deref(), Some("Transcribing: 50%"));
    let p = parsed("50%");
    assert_eq!(p.progress, Percent { num: 50, den: 1 });
    let p = parsed("first 7% then 80%");
    assert_eq!(p.progress, Percent { num: 7, den: 1 });
    assert_eq!(p.message.as_deref(), Some("Transcribing: 7%"));
    let p = parsed("12.5% done");
    assert_eq!(p.progress, Percent { num: 5, den: 1 });
}

#[test]
fn phrases_are_reported() {
    let p = parsed("Loading Whisper model 'base'...");
    check_common(&p);
    assert_eq!(p.stage, ProcessingStage::Initializing);
    assert_eq!(p.progress, Percent { num: 10, den: 1 });
    assert_eq!(p.message.as_deref(), Some("Loading Whisper model..."));

    let p = parsed("INFO Transcribing interview.m4a");
    check_common(&p);
    assert_eq!(p.stage, ProcessingStage::Transcribing);
    assert_eq!(p.progress, Percent { num: 25, den: 1 });
    assert_eq!(p.message.as_deref(), Some("Transcribing audio..."));

    // The first phrase goes before the second.
    let p = parsed("Transcribing after Loading Whisper model");
    assert_eq!(p.stage, ProcessingStage::Initializing);
}

#[test]
fn other_lines_report_nothing() {
    for line in [
        "",
        "hello world",
        "Loading model",
        "Loading, then Transcribing",
        "transcribing in lower case",
        "[00:00.000 -> 00:30.000]",
        "[0:00.000 --> 0:30.000]",
        "% alone",
        "50 %",
    ] {
        assert!(parse_progress(line, FILE, NOW).is_none(), "{:?}", line);
    }
}

#[test]
fn digits_of_other_scripts_are_no_numbers() {
    // The patterns take these digits, but they write no number.
    assert!(parse_progress("٥٠%", FILE, NOW).is_none());
    assert!(parse_progress("[٠٠:٠٠.٠٠٠ --> ٠٠:٣٠.٠٠٠]", FILE, NOW).is_none());
    // A pattern is searched once: its first match counts, number or not.
    assert!(parse_progress("٩٦%|#| 1/2 [ 40%", FILE, NOW).is_none());
    // The line falls through to the next recognizer that reads a number.
    let p = parsed("[٠٠:٠٠.٠٠٠ --> ٠٠:٣٠.٠٠٠] 40%");
    assert_eq!(p.progress, Percent { num: 40, den: 1 });
    assert_eq!(p.message.as_deref(), Some("Transcribing: 40%"));
    let p = parsed("[٠٠:٠٠.٠٠٠ --> ٠٠:٣٠.٠٠٠] Transcribing");
    assert_eq!(p.progress, Percent { num: 25, den: 1 });
}

#[test]
fn recognizers_are_tried_in_their_order() {
    // A segment marker goes before everything else.
    let p = parsed("[00:00.000 --> 01:00.000] 96%|#| 1/2 [ Loading Whisper model");
    assert_eq!(p.progress, Percent { num: 60, den: 3 });
    // A progress bar goes before the worker's own line and a bare percentage.
    let p = parsed("7% [1/2] (50%) Processing: 96%|#| 1/2 [");
    assert_eq!(p.progress, Percent { num: 96, den: 1 });
    assert_eq!(p.message.as_deref(), Some("Transcribing: 96% (1/2)"));
    // The worker's own line goes before a bare percentage.
    let p = parsed("7% [1/2] (50.5%) Processing: x");
    assert_eq!(p.progress, Percent { num: 505, den: 10 });
    // A bare percentage goes before the phrases.
    let p = parsed("Loading Whisper model 3%");
    assert_eq!(p.stage, ProcessingStage::Transcribing);
    assert_eq!(p.progress, Percent { num: 3, den: 1 });
}

#[test]
fn reports_are_made_from_given_matches() {
    let none: Option<Vec<Option<String>>> = None;
    let segment = groups(&[Some("[..]"), Some("00"), Some("10"), Some("000"), Some("02"), Some("05"), Some("000")]);
    let p = segment_progress(&segment, FILE, NOW).unwrap();
    assert_eq!(p.progress, Percent { num: 125, den: 3 });
    assert_eq!(p.message.as_deref(), Some("Transcribing: 41.7% (2:05)"));
    let bar = groups(&[Some("x"), Some("12"), Some("3"), Some("4")]);
    let p = bar_progress(&bar, FILE, NOW).unwrap();
    assert_eq!(p.message.as_deref(), Some("Transcribing: 12% (3/4)"));
    let step = groups(&[Some("x"), Some("3"), Some("4"), Some("7.25")]);
    let p = step_progress(&step, FILE, NOW).unwrap();
    assert_eq!(p.progress, Percent { num: 725, den: 100 });
    let bare = groups(&[Some("9%"), Some("9")]);
    let p = bare_progress(&bare, FILE, NOW).unwrap();
    assert_eq!(p.progress, Percent { num: 9, den: 1 });

    // Groups that are missing, absent or no numbers make no report.
    assert!(segment_progress(&none, FILE, NOW).is_none());
    assert!(segment_progress(&groups(&[Some("x"), Some("00"), Some("10")]), FILE, NOW).is_none());
    let odd = groups(&[Some("x"), Some("00"), Some("1a"), Some("000"), Some("02"), Some("05"), Some("000")]);
    assert!(segment_progress(&odd, FILE, NOW).is_none());
    assert!(bar_progress(&groups(&[Some("x"), Some("12"), None, Some("4")]), FILE, NOW).is_none());
    assert!(bar_progress(&groups(&[Some("x"), Some(""), Some("3"), Some("4")]), FILE, NOW).is_none());
    for bad in ["7.", ".5", "7.2.5", "7,5", "", "-7", "7e1"] {
        let step = groups(&[Some("x"), Some("3"), Some("4"), Some(bad)]);
        assert!(step_progress(&step, FILE, NOW).is_none(), "{:?}", bad);
    }
    assert!(bare_progress(&groups(&[Some("x")]), FILE, NOW).is_none());
    assert!(phrase_progress("nothing here", FILE, NOW).is_none());

    // The first report in the order of the recognizers is taken.
    let p = progress_from_matches("Transcribing", FILE, NOW, &none, &bar, &step, &bare).unwrap();
    assert_eq!(p.message.as_deref(), Some("Transcribing: 12% (3/4)"));
    let p = progress_from_matches("Transcribing", FILE, NOW, &none, &none, &step, &bare).unwrap();
    assert_eq!(p.message.as_deref(), Some("Processing file: 7% (3/4)"));
    let p = progress_from_matches("Transcribing", FILE, NOW, &none, &none, &none, &bare).unwrap();
    assert_eq!(p.message.as_deref(), Some("Transcribing: 9%"));
    let p = progress_from_matches("Transcribing", FILE, NOW, &none, &none, &none, &none).unwrap();
    assert_eq!(p.message.as_deref(), Some("Transcribing audio..."));
    assert!(progress_from_matches("", FILE, NOW, &none, &none, &none, &none).is_none());
    let p = progress_from_matches("", FILE, NOW, &segment, &bar, &step, &bare).unwrap();
    assert_eq!(p.progress, Percent { num: 125, den: 3 });
}

#[test]
fn every_report_lies_between_zero_and_one_hundred() {
    for line in [
        "[00:00.000 --> 99:59.000]",
        "[00:00.000 --> 00:01.000]",
        "1000%|#| 1/2 [",
        "[1/1] (100.999999999999%) Processing:",
        "[1/1] (99.999999999999%) Processing:",
        "0%",
        "Loading Whisper model",
        "Transcribing",
    ] {
        let p = parsed(line);
        assert!(p.progress.den > 0, "{}", line);
        assert!(p.progress.num <= 100 * p.progress.den, "{}", line);
    }
}

#[test]
fn lines_are_stamped_with_the_time_of_the_clock() {
    let before = chrono::Utc::now().timestamp_millis();
    let p = CliManager::parse_and_emit_progress("42%", FILE).unwrap();
    let after = chrono::Utc::now().timestamp_millis();
    assert!(before <= p.timestamp && p.timestamp <= after);
    assert_eq!(p.progress, Percent { num: 42, den: 1 });
    assert_eq!(p.current_file.as_deref(), Some(FILE));
    assert!(CliManager::parse_and_emit_progress("nothing", FILE).is_none());
}
