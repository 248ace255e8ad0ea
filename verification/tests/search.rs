use fastpad::notebook_paint::LOAD_FAILED;
use fastpad::option_toggles::{MatchOptions, SearchOption};
use fastpad::search_lines::{
    fit_before, notice_text, placeholder, result_name, skipped_tooltip, status_text, summary_text,
    Progress, SearchState, Snippet, TextHit, LOADING, NO_MATCH, NO_NOTEBOOK, TOO_SHORT,
};
use fastpad::search_view::SearchView;
use fastpad::text_search::RunEnd;

#[test]
fn the_notice_explains_an_empty_list() {
    assert_eq!(notice_text(false, false, false), Some(NO_NOTEBOOK));
    assert_eq!(notice_text(true, false, false), Some(LOADING));
    assert_eq!(notice_text(true, false, true), Some(LOAD_FAILED));
    assert_eq!(notice_text(true, true, false), None);
}

#[test]
fn the_placeholder_says_it_searches_text_in_the_open_notebook() {
    assert_eq!(
        placeholder(Some(&r"C:\Users\me\Work".to_owned())),
        "Search text in Work"
    );
    assert_eq!(placeholder(None), "Search text");
}

#[test]
fn a_long_prefix_is_cut_from_the_start_so_the_match_stays_in_view() {
    let measure = |text: &str| text.chars().count() as i32 * 10;
    assert_eq!(fit_before("abcdef", 100, measure), "abcdef");
    assert_eq!(fit_before("abcdef", 40, measure), "\u{2026}def");
    assert_eq!(fit_before("\u{2026}été ab", 50, measure), "\u{2026}é ab");
    assert_eq!(
        fit_before("abc", 5, measure),
        "",
        "not even the ellipsis fits"
    );
    assert_eq!(fit_before("", 0, measure), "");
}

#[test]
fn the_skipped_tooltip_has_one_line_per_reason_that_skipped_a_note() {
    let progress = Progress {
        visited: 9,
        total: 9,
        skipped: [2, 0, 1, 1_500],
    };
    assert_eq!(
        skipped_tooltip(&progress),
        "2 online only\r\n1 couldn't be read\r\n1,500 not text"
    );
    let large = Progress {
        skipped: [0, 3, 0, 0],
        ..progress
    };
    assert_eq!(skipped_tooltip(&large), "3 larger than 4 MB");
    assert_eq!(skipped_tooltip(&Progress::default()), "");
}

#[test]
fn a_result_reads_its_name_folder_and_snippet() {
    let hit = |folder: &str| TextHit {
        path: "q1.md".to_owned(),
        name: "Q1 budget".to_owned(),
        folder: folder.to_owned(),
        snippet: Snippet {
            text: "\u{2026}paid the invoice march 3\u{2026}".to_owned(),
            start: 12,
            end: 25,
        },
        stamp: None,
    };
    assert_eq!(
        result_name(&hit("work")),
        "Q1 budget, work: \u{2026}paid the invoice march 3\u{2026}"
    );
    assert_eq!(
        result_name(&hit("")),
        "Q1 budget: \u{2026}paid the invoice march 3\u{2026}"
    );
}

#[test]
fn the_summary_counts_notes_and_says_when_nothing_matches() {
    let done = |capped| SearchState::Done {
        progress: Progress::default(),
        capped,
    };
    let running = SearchState::Running(Progress::default());
    let line = |text: &str, error| Some((text.to_owned(), error));
    assert_eq!(summary_text(&SearchState::Idle, 0), None);
    assert_eq!(
        summary_text(&SearchState::TooShort, 0),
        line(TOO_SHORT, false)
    );
    assert_eq!(summary_text(&running, 0), None, "nothing found yet");
    assert_eq!(summary_text(&running, 1), line("1 note", false));
    assert_eq!(summary_text(&done(false), 0), line(NO_MATCH, false));
    assert_eq!(
        summary_text(&done(false), 1_234),
        line("1,234 notes", false)
    );
    assert_eq!(summary_text(&done(true), 500), line("500+ notes", false));
    assert_eq!(
        summary_text(&SearchState::PatternError("Unclosed group".to_owned()), 3),
        line("Unclosed group", true)
    );
}

#[test]
fn the_status_line_shows_progress_and_what_was_skipped() {
    let progress = Progress {
        visited: 4_120,
        total: 9_800,
        skipped: [0; 4],
    };
    assert_eq!(
        status_text(&SearchState::Running(progress)).as_deref(),
        Some("Searching\u{2026} 4,120 of 9,800")
    );
    let done = |skipped| SearchState::Done {
        progress: Progress {
            visited: 9,
            total: 9,
            skipped,
        },
        capped: false,
    };
    assert_eq!(
        status_text(&done([0; 4])),
        None,
        "hidden when nothing was skipped"
    );
    assert_eq!(
        status_text(&done([0, 1, 0, 0])).as_deref(),
        Some("1 note wasn't searched")
    );
    assert_eq!(
        status_text(&done([2, 0, 1, 1])).as_deref(),
        Some("4 notes weren't searched")
    );
    assert_eq!(status_text(&SearchState::Idle), None);
    assert_eq!(
        status_text(&SearchState::PatternError("x".to_owned())),
        None
    );
}

fn hit(name: &str, folder: &str) -> TextHit {
    let file = format!("{name}.md");
    let path = if folder.is_empty() {
        file
    } else {
        format!(r"{folder}\{file}")
    };
    TextHit {
        path,
        name: name.to_owned(),
        folder: folder.to_owned(),
        snippet: Snippet {
            text: format!("{name} needle"),
            start: name.len() + 1,
            end: name.len() + 7,
        },
        stamp: None,
    }
}

type Batch = (Vec<TextHit>, Progress, Option<RunEnd>);

fn batch(hits: Vec<TextHit>, visited: usize, end: Option<RunEnd>) -> Batch {
    (hits, Progress { visited, total: 10, skipped: [0; 4] }, end)
}

fn take(view: &mut SearchView, batch: Batch, height: i32) -> bool {
    view.apply(batch.0, batch.1, batch.2, height)
}

fn rows(view: &SearchView) -> Vec<(String, String)> {
    view.results
        .iter()
        .map(|result| (result.name.clone(), result.folder.clone()))
        .collect()
}

fn row(name: &str, folder: &str) -> (String, String) {
    (name.to_owned(), folder.to_owned())
}

const HEIGHT: i32 = 400;

#[test]
fn batches_are_inserted_in_order_and_keep_the_selection_by_path() {
    let mut view = SearchView::new(96);
    view.begin("needle", 10);
    assert!(take(&mut view, batch(vec![hit("m", ""), hit("c", "")], 4, None), HEIGHT));
    assert_eq!(rows(&view), [row("c", ""), row("m", "")]);
    assert_eq!(view.list.selected, Some(0), "the first result is selected");
    view.list.select(1, HEIGHT);
    let more = vec![hit("a", ""), hit("b", "sub"), hit("b", "")];
    assert!(take(&mut view, batch(more, 8, None), HEIGHT));
    assert_eq!(
        rows(&view),
        [
            row("a", ""),
            row("b", ""),
            row("b", "sub"),
            row("c", ""),
            row("m", "")
        ],
        "natural name order, then the root before a folder"
    );
    assert_eq!(view.list.selected, Some(4), "still m");
    assert!(take(&mut view, batch(Vec::new(), 10, Some(RunEnd::Completed)), HEIGHT));
    assert_eq!(
        view.search,
        SearchState::Done {
            progress: Progress {
                visited: 10,
                total: 10,
                skipped: [0; 4]
            },
            capped: false
        }
    );
}

#[test]
fn a_result_is_known_by_its_paths_components() {
    let spelled = |path: &str| TextHit { path: path.to_owned(), ..hit("b", "sub") };
    let mut view = SearchView::new(96);
    view.begin("needle", 10);
    take(&mut view, batch(vec![spelled(r"sub\b.md"), hit("c", "")], 4, None), HEIGHT);
    assert_eq!(rows(&view), [row("b", "sub"), row("c", "")]);
    assert_eq!(view.position(&Some("sub/./b.md".to_owned())), Some(0));
    let before = view.accessible_identity(view.accessible_current().unwrap());
    take(&mut view, batch(vec![spelled("sub/b.md")], 8, None), HEIGHT);
    assert_eq!(rows(&view), [row("b", "sub"), row("c", "")], "one result, not two");
    assert_eq!(view.list.selected, Some(0));
    assert_eq!(view.accessible_identity(view.accessible_current().unwrap()), before);
}

#[test]
fn a_rerun_keeps_the_results_until_its_first_batch_and_a_new_query_starts_empty() {
    let mut view = SearchView::new(96);
    view.begin("needle", 10);
    let all = vec![hit("a", ""), hit("b", ""), hit("c", "")];
    take(&mut view, batch(all, 10, Some(RunEnd::Completed)), HEIGHT);
    view.list.select(2, HEIGHT);

    view.begin("needle", 10);
    assert_eq!(rows(&view).len(), 3, "kept until the first batch");
    assert!(matches!(view.search, SearchState::Running(_)));
    take(&mut view, batch(vec![hit("b", ""), hit("c", "")], 5, None), HEIGHT);
    assert_eq!(
        rows(&view),
        [row("b", ""), row("c", "")],
        "the first batch replaces them"
    );
    assert_eq!(view.list.selected, Some(1), "c is still selected");

    view.begin("needles", 10);
    assert!(view.results.is_empty(), "a new query starts empty");
    assert_eq!(view.list.selected, None);
    take(&mut view, batch(vec![hit("a", ""), hit("c", "")], 10, None), HEIGHT);
    assert_eq!(
        view.list.selected,
        Some(1),
        "the remembered note is selected again when it arrives"
    );
}

#[test]
fn a_reruns_empty_progress_batch_keeps_the_old_results() {
    let mut view = SearchView::new(96);
    view.begin("needle", 10);
    let all = vec![hit("a", ""), hit("b", ""), hit("c", "")];
    take(&mut view, batch(all, 10, Some(RunEnd::Completed)), HEIGHT);
    view.list.select(1, HEIGHT);
    view.begin("needle", 10);
    take(&mut view, batch(Vec::new(), 3, None), HEIGHT);
    assert_eq!(rows(&view).len(), 3, "an empty batch replaces nothing");
    assert_eq!(view.list.selected, Some(1));
    take(&mut view, batch(vec![hit("a", ""), hit("b", "")], 6, None), HEIGHT);
    assert_eq!(
        rows(&view),
        [row("a", ""), row("b", "")],
        "the first hit replaces them"
    );
    assert_eq!(view.list.selected, Some(1), "b is still remembered");

    view.begin("needle", 10);
    take(&mut view, batch(Vec::new(), 10, Some(RunEnd::Completed)), HEIGHT);
    assert!(
        view.results.is_empty(),
        "a re-run that ends without hits empties the list"
    );
}

#[test]
fn the_options_a_search_ran_with_are_kept_and_new_options_start_empty() {
    let mut view = SearchView::new(96);
    view.begin("needle", 10);
    take(
        &mut view,
        batch(vec![hit("a", "")], 10, Some(RunEnd::Completed)),
        HEIGHT,
    );
    assert_eq!(view.run_options, MatchOptions::default());
    view.options = view.options.toggled(SearchOption::Case);
    assert!(!view.run_options.case, "not until a search runs with it");
    view.begin("needle", 10);
    assert!(view.run_options.case);
    assert!(view.results.is_empty(), "other options are a new search");
}

#[test]
fn a_selection_the_user_moves_during_a_search_wins_over_the_remembered_one() {
    let mut view = SearchView::new(96);
    view.begin("needle", 10);
    let all = vec![hit("a", ""), hit("b", ""), hit("c", "")];
    take(&mut view, batch(all, 10, Some(RunEnd::Completed)), HEIGHT);
    view.list.select(2, HEIGHT);
    view.begin("needles", 10);
    take(&mut view, batch(vec![hit("a", ""), hit("b", "")], 5, None), HEIGHT);
    assert_eq!(
        view.list.selected,
        Some(0),
        "c has not arrived: the first row"
    );
    view.list.select(1, HEIGHT);
    take(&mut view, batch(vec![hit("c", "")], 10, None), HEIGHT);
    assert_eq!(view.list.selected, Some(1), "b, which the user picked");
}

#[test]
fn a_batch_that_changes_nothing_shown_asks_for_no_repaint() {
    let mut view = SearchView::new(96);
    view.begin("needle", 10);
    assert!(take(&mut view, batch(vec![hit("a", "")], 3, None), HEIGHT));
    assert!(!take(&mut view, batch(Vec::new(), 3, None), HEIGHT));
    assert!(
        take(&mut view, batch(Vec::new(), 4, None), HEIGHT),
        "the progress moved"
    );
}
