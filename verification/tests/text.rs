use fastpad::document::{Document, DocumentId};
use fastpad::option_toggles::MatchOptions;
use fastpad::search_lines::Stamp;
use fastpad::text_replace::{
    candidates_on, clean_tabs_on, confirm_text, count_targets, decide, dirty_notes, end_report, note_name,
    open_candidates, report_text, route, row_confirm_text, Applied, Candidate, Decision,
    ReplaceCount, ReplaceReport, ReplaceTarget, Route,
};
use fastpad::text_search::{
    list_mark, narrows, note_mark, overlay_mark, searchable, CountStep, Narrowing, NoteEntry,
    Overlay, RunEnd, RunStep, TextSearchHost, TimerStep, MIN_QUERY_CHARS,
};

#[test]
fn a_query_runs_from_two_characters_and_never_when_it_is_all_white_space() {
    assert_eq!(MIN_QUERY_CHARS, 2);
    assert!(!searchable(""));
    assert!(!searchable("a"));
    assert!(!searchable("é"), "one character in two bytes");
    assert!(searchable("ab"));
    assert!(searchable("éa"));
    assert!(searchable(" a"), "a leading space is part of the phrase");
    assert!(!searchable("   "));
    assert!(!searchable("\t\t"));
}

fn note(path: &str, online_only: bool) -> NoteEntry {
    NoteEntry {
        path: path.to_owned(),
        size: 10,
        mtime: 20,
        online_only,
    }
}

#[test]
fn the_list_mark_follows_the_note_paths_and_not_their_sizes() {
    let base = list_mark(&vec![note("a.md", false), note("b.md", false)]);
    assert_eq!(base, list_mark(&vec![note("a.md", false), note("b.md", false)]));
    assert_ne!(base, list_mark(&vec![note("a.md", false)]), "a note removed");
    assert_eq!(
        list_mark(&vec![note("x/y.md", false)]),
        list_mark(&vec![note(r"x\y.md", false)]),
        "one path"
    );
    assert_ne!(
        base,
        list_mark(&vec![note("a.md", false), note("c.md", false)]),
        "a note renamed"
    );
    assert_ne!(
        base,
        list_mark(&vec![note("a.md", false), note("b.md", true)]),
        "a note went online-only"
    );
    let mut saved = note("b.md", false);
    saved.size = 99;
    saved.mtime = 7;
    assert_eq!(
        base,
        list_mark(&vec![note("a.md", false), saved]),
        "a save of a listed note is no list change"
    );
}

#[test]
fn the_overlay_mark_changes_with_any_tab_text_and_not_with_order() {
    let overlay = |path: &str, text: &str| Overlay {
        path: path.to_owned(),
        text: text.to_owned(),
    };
    let first = vec![overlay("a.md", "one"), overlay("b.md", "two")];
    let second = vec![overlay("b.md", "two"), overlay("a.md", "one")];
    assert_eq!(overlay_mark(&first), overlay_mark(&second));
    let second = vec![overlay("b.md", "two"), overlay("a.md", "one!")];
    assert_ne!(overlay_mark(&first), overlay_mark(&second));
    assert_ne!(overlay_mark(&vec![]), overlay_mark(&first));
}

#[test]
fn the_note_mark_also_follows_sizes_and_times() {
    let base = note_mark(&vec![note("a.md", false)]);
    assert_eq!(base, note_mark(&vec![note("a.md", false)]));
    let mut saved = note("a.md", false);
    saved.size = 99;
    assert_ne!(base, note_mark(&vec![saved]), "a new size");
    let mut saved = note("a.md", false);
    saved.size = 10;
    saved.mtime = 7;
    assert_ne!(base, note_mark(&vec![saved]), "a new time");
    assert_ne!(base, note_mark(&vec![note("a.md", true)]), "online-only");
    assert_ne!(base, note_mark(&vec![note("b.md", false)]), "another path");
}

#[test]
fn narrowing_needs_a_longer_plain_query_with_the_same_options_and_tab_texts() {
    let plain = MatchOptions::default();
    let earlier = |options| Narrowing {
        query: "foo".to_owned(),
        options,
        paths: Vec::new(),
        notes: 1,
        overlays: 2,
    };
    let previous = earlier(plain);
    assert!(narrows(&previous, "foo", plain, 2), "the same query again");
    assert!(narrows(&previous, "food", plain, 2));
    assert!(narrows(&previous, "a foo", plain, 2));
    assert!(
        !narrows(&previous, "fo", plain, 2),
        "a shorter query can match more"
    );
    assert!(
        !narrows(&previous, "Foo", plain, 2),
        "contained only after folding"
    );
    let case = MatchOptions {
        case: true,
        ..plain
    };
    assert!(!narrows(&previous, "food", case, 2), "the options changed");
    let whole = MatchOptions {
        whole_word: true,
        ..plain
    };
    let previous_whole = earlier(whole);
    assert!(!narrows(&previous_whole, "xfoo", whole, 2));
    let regex = MatchOptions {
        regex: true,
        ..plain
    };
    let previous_regex = earlier(regex);
    assert!(!narrows(&previous_regex, "foo|bar", regex, 2));
    assert!(
        !narrows(&previous, "food", plain, 3),
        "a dirty tab's text changed"
    );
}

#[test]
fn the_question_counts_matches_and_notes_and_warns_only_when_a_note_is_saved() {
    let count = |matches, notes, closed_notes| ReplaceCount {
        matches,
        notes,
        closed_notes,
    };
    assert_eq!(
        confirm_text(count(1, 1, 0), 1, false, "x"),
        "Replace 1 match in 1 note with \"x\"?"
    );
    assert_eq!(
        confirm_text(count(1_234, 12, 1), 12, false, "y"),
        "Replace 1,234 matches in 12 notes with \"y\"?\nNotes that aren't open are saved and can't be undone."
    );
    assert_eq!(
        confirm_text(count(2_000, 480, 0), 500, true, ""),
        "Replace 2,000 matches in the 500 listed notes with \"\"? More notes match; search again to replace in the rest."
    );
    assert_eq!(
        confirm_text(count(2_000, 480, 479), 500, true, "z"),
        "Replace 2,000 matches in the 500 listed notes with \"z\"? More notes match; search again to replace in the rest.\nNotes that aren't open are saved and can't be undone."
    );
    assert_eq!(
        row_confirm_text(3, "Q1 budget", "z"),
        "Replace 3 matches in \"Q1 budget\" with \"z\"? The note is saved and this can't be undone."
    );
    assert_eq!(
        row_confirm_text(1, "a", "b"),
        "Replace 1 match in \"a\" with \"b\"? The note is saved and this can't be undone."
    );
}

#[test]
fn the_report_is_one_line_that_counts_what_was_replaced_and_names_what_was_not() {
    let names = |names: &[&str]| {
        names
            .iter()
            .map(|name| (*name).to_owned())
            .collect::<Vec<_>>()
    };
    assert_eq!(report_text(1, 1, &vec![], &vec![]), "Replaced 1 match in 1 note.");
    assert_eq!(
        report_text(5, 2, &names(&["b"]), &vec![]),
        "Replaced 5 matches in 2 notes. 1 note was skipped because it changed since the search. (b)"
    );
    assert_eq!(
        report_text(0, 0, &vec![], &names(&["c", "d"])),
        "Replaced 0 matches in 0 notes. 2 notes couldn't be written. (c, d)"
    );
    assert_eq!(
        report_text(3_000, 1, &names(&["x"]), &names(&["y", "z"])),
        "Replaced 3,000 matches in 1 note. 1 note was skipped because it changed since the search. 2 notes couldn't be written. (x, y, z)"
    );
    let changed = (0..1_200)
        .map(|index| format!("n{index}"))
        .collect::<Vec<_>>();
    let report = report_text(9, 9, &changed, &names(&["f"]));
    assert_eq!(
        report,
        "Replaced 9 matches in 9 notes. 1,200 notes were skipped because they changed since the search. 1 note couldn't be written. (n0, n1, n2, and 1,198 more)"
    );
    assert!(!report.contains('\n'));
}

const STAMP: Stamp = Stamp { size: 3, mtime: 4 };

fn candidate(path: &str, stamp: Option<Stamp>) -> Candidate {
    Candidate { path: path.to_owned(), name: note_name(&path.to_owned()), stamp }
}

#[test]
fn a_search_waits_is_refused_or_starts() {
    let query = "needle".to_owned();
    let step = |busy, query: Option<&String>, ok, open, loaded| {
        TextSearchHost::run_step(busy, query, ok, open, loaded)
    };
    assert_eq!(step(true, Some(&query), true, true, true), RunStep::Wait);
    assert_eq!(step(false, None, true, true, true), RunStep::Nothing);
    assert_eq!(step(false, Some(&"n".to_owned()), true, true, true), RunStep::Nothing);
    assert_eq!(step(false, Some(&query), false, false, false), RunStep::ShowError);
    assert_eq!(step(false, Some(&query), true, false, true), RunStep::Nothing);
    assert_eq!(step(false, Some(&query), true, true, false), RunStep::Nothing);
    assert_eq!(step(false, Some(&query), true, true, true), RunStep::Start);
}

#[test]
fn a_longer_query_visits_only_what_the_last_search_found_or_skipped() {
    let notes = vec![note("a.md", false), note("b.md", false), note("c.md", true)];
    let plain = MatchOptions::default();
    let mut host = TextSearchHost::default();
    let (first, visited) = host.start("fo".to_owned(), plain, &notes, &vec![]);
    assert_eq!(visited, [0, 1, 2]);
    assert!(host.is_current(first));
    host.finish(RunEnd::Completed, vec!["B.md".to_owned()], vec!["c.md".to_owned()]);
    let (second, visited) = host.start("foo".to_owned(), plain, &notes, &vec![]);
    assert_eq!(visited, [1, 2], "found or skipped, whatever the case of the path");
    assert!(host.is_current(second) && !host.is_current(first));
    assert!(host.cancel());
    assert!(!host.is_current(second), "a cancelled search is stale");
    host.finish(RunEnd::Cancelled, vec![], vec![]);
    let (_, visited) = host.start("food".to_owned(), plain, &notes, &vec![]);
    assert_eq!(visited, [0, 1, 2], "a search that did not complete narrows nothing");
}

#[test]
fn a_replacement_asks_once_and_a_newer_one_drops_its_answer() {
    let mut host = TextSearchHost::default();
    assert!(host.may_replace(true, true, false));
    assert!(!host.may_replace(true, false, false));
    let first = host.start_replace();
    assert!(!host.may_replace(true, true, false), "one at a time");
    assert_eq!(host.replace_counted(first, true), CountStep::Hold);
    assert_eq!(host.replace_timer(true), TimerStep::KeepArmed);
    assert_eq!(host.replace_timer(false), TimerStep::Ask);
    assert_eq!(host.replace_timer(false), TimerStep::Stop);
    assert!(host.answered(first, true));
    let second = host.start_replace();
    assert_eq!(host.replace_counted(first, false), CountStep::Drop);
    assert_eq!(host.replace_counted(second, false), CountStep::Ask);
    assert!(!host.answered(second, false));
    assert!(!host.replacing);
}

#[test]
fn open_notes_are_edited_read_ones_written_and_the_rest_left_alone() {
    let relative = vec![Some("Open.md".to_owned()), None];
    let counted = vec!["closed.md".to_owned()];
    let path = |candidate: &Candidate, warned| route(candidate, &relative, &counted, warned);
    assert_eq!(path(&candidate("open.md", None), false), Route::Edit(0));
    assert_eq!(path(&candidate("read.md", Some(STAMP)), false), Route::Write(STAMP));
    assert_eq!(path(&candidate("read.md", None), true), Route::Stale);
    assert_eq!(path(&candidate("Closed.md", Some(STAMP)), false), Route::Stale);
    assert_eq!(path(&candidate("Closed.md", Some(STAMP)), true), Route::Write(STAMP));

    let mut applied = Applied::new();
    applied.take(candidate("open.md", None), Route::Edit(0), Some(2));
    applied.take(candidate("open.md", None), Route::Edit(0), Some(0));
    applied.take(candidate("gone.md", None), Route::Edit(0), None);
    applied.take(candidate("read.md", Some(STAMP)), Route::Write(STAMP), None);
    assert_eq!((applied.tab_matches, applied.tab_notes), (2, 1));
    assert_eq!(applied.stale, ["gone.md"]);
    assert_eq!(
        applied.closed,
        [ReplaceTarget { path: "read.md".to_owned(), stamp: STAMP }]
    );
    assert_eq!(applied.without_writing(), None);
}

#[test]
fn a_replacement_asks_before_it_saves_and_refreshes_when_nothing_matches() {
    let count = |matches, closed_notes| ReplaceCount { matches, notes: 1, closed_notes };
    let one = vec![candidate("work\\a.md", Some(STAMP))];
    assert_eq!(decide(count(0, 1), &one, false, true, "x"), Decision::Refresh);
    assert_eq!(decide(count(2, 0), &one, false, true, "x"), Decision::Apply);
    assert_eq!(
        decide(count(2, 1), &one, false, true, "x"),
        Decision::Ask(row_confirm_text(2, "a", "x"))
    );
    assert_eq!(
        decide(count(2, 0), &one, false, false, "x"),
        Decision::Ask(confirm_text(count(2, 0), 1, false, "x"))
    );
    let report = ReplaceReport {
        matches: 3,
        written: vec!["b.md".to_owned()],
        changed: vec!["sub\\c.md".to_owned()],
        failed: vec![],
    };
    assert_eq!(
        end_report(&report, 2, 1),
        "Replaced 5 matches in 2 notes. 1 note was skipped because it changed since the search. (c)"
    );
}

#[test]
fn tabs_on_notes_are_told_by_their_paths_whatever_the_case() {
    let mut documents: Vec<Document> = (0..3)
        .map(|id| Document::untitled(DocumentId(id), id == 1))
        .collect();
    documents[2].dirty = true;
    let relative = vec![Some("A.md".to_owned()), Some("b.md".to_owned()), None];
    assert_eq!(dirty_notes(&documents, &relative), [1], "the other dirty tab is no note");
    let written = vec!["a.MD".to_owned(), "b.md".to_owned()];
    assert_eq!(clean_tabs_on(&documents, &relative, &written), [0]);
    let candidates = vec![candidate("a.md", None), candidate("c.md", None)];
    assert_eq!(open_candidates(&candidates, &relative), [0]);
    assert_eq!(candidates_on(&candidates, &"C.MD".to_owned()), [1]);
}

#[test]
fn the_count_reads_what_the_search_read_and_stale_notes_are_reported_last() {
    let unread = Stamp { size: 0, mtime: 0 };
    let candidates = vec![candidate("a.md", Some(STAMP)), candidate("b.md", None)];
    assert_eq!(
        count_targets(&candidates, unread),
        [
            ReplaceTarget { path: "a.md".to_owned(), stamp: STAMP },
            ReplaceTarget { path: "b.md".to_owned(), stamp: unread },
        ]
    );
    let mut report = ReplaceReport {
        matches: 1,
        written: vec!["a.md".to_owned()],
        changed: vec!["c.md".to_owned()],
        failed: vec![],
    };
    report.take_stale(vec!["d.md".to_owned()]);
    assert_eq!(report.changed, ["c.md", "d.md"]);
}
