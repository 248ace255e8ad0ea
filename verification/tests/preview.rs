use fastpad::geometry::Rect;
use fastpad::document::{DocumentId, Language};
use fastpad::preview_host::{
    buttons_visible, click_button, content_rects, diagnostic, edit_of, escape, link_notice, plan_flush, run_command, split_room,
    ContentRects, DividerPress, Edit, FlushPlan, FlushStart, Limits, LineFrom, LinkFailure, ModeFocus, Pending,
    Load, PreviewButton, PreviewCommand, PreviewHost, PreviewMode, Stats,
};

const AREA: Rect = Rect { left: 0, top: 40, right: 1004, bottom: 700 };

const WORKER_PARSE_THRESHOLD: usize = 1_048_576;

const LIVE_UPDATE_LIMIT: usize = 8_388_608;

const LIMITS: Limits = Limits {
    live_update: LIVE_UPDATE_LIMIT,
    worker_parse: WORKER_PARSE_THRESHOLD,
};

/// The editor's share of a split.
fn width(ratio: f32) -> i32 {
    (split_room(AREA, 96) as f32 * ratio).round() as i32
}

#[test]
fn off_or_hidden_previews_give_the_editor_the_whole_area() {
    let whole = ContentRects { editor: Some(AREA), divider: None, preview: None };
    assert_eq!(content_rects(AREA, PreviewMode::Off, true, width(0.5), 96), whole);
    assert_eq!(
        content_rects(AREA, PreviewMode::Split, false, width(0.5), 96),
        whole
    );
}

#[test]
fn split_places_a_divider_between_editor_and_preview() {
    let rects = content_rects(AREA, PreviewMode::Split, true, width(0.5), 96);
    let expected = ContentRects {
        editor: Some(Rect { right: 500, ..AREA }),
        divider: Some(Rect { left: 500, right: 504, ..AREA }),
        preview: Some(Rect { left: 504, ..AREA }),
    };
    assert_eq!(rects, expected);
}

#[test]
fn full_mode_hides_the_editor() {
    let rects = content_rects(AREA, PreviewMode::Full, true, width(0.5), 96);
    assert_eq!(
        rects,
        ContentRects { editor: None, divider: None, preview: Some(AREA) }
    );
}

fn edit() -> Edit {
    Edit { position: 0, removed: 0, inserted: 1, lines_delta: 0 }
}

#[test]
fn edits_wait_for_an_outstanding_worker_parse() {
    let small = 1_000;
    let large = WORKER_PARSE_THRESHOLD + 1;
    assert_eq!(
        plan_flush(Pending::Edits(vec![edit()]), large, false, true, LIMITS),
        FlushPlan::Defer(Pending::Edits(vec![edit()]))
    );
    assert_eq!(
        plan_flush(Pending::Full, large, false, true, LIMITS),
        FlushPlan::Defer(Pending::Full)
    );
    assert_eq!(
        plan_flush(Pending::Edits(vec![edit()]), small, true, true, LIMITS),
        FlushPlan::Defer(Pending::Edits(vec![edit()]))
    );
    assert_eq!(
        plan_flush(Pending::Nothing, large, false, true, LIMITS),
        FlushPlan::Nothing
    );
    assert_eq!(
        plan_flush(Pending::Edits(vec![edit()]), large, false, false, LIMITS),
        FlushPlan::Incremental { edits: vec![edit()], allow_full_parse: false }
    );
    assert_eq!(
        plan_flush(Pending::Edits(vec![edit()]), small, false, false, LIMITS),
        FlushPlan::Incremental { edits: vec![edit()], allow_full_parse: true }
    );
}

#[test]
fn huge_documents_pause_and_a_paused_preview_parses_everything_again() {
    assert_eq!(
        plan_flush(
            Pending::Edits(vec![edit()]),
            LIVE_UPDATE_LIMIT + 1,
            false,
            false,
            LIMITS
        ),
        FlushPlan::Pause
    );
    assert_eq!(
        plan_flush(Pending::Nothing, 10, true, false, LIMITS),
        FlushPlan::Reparse
    );
    assert_eq!(
        plan_flush(
            Pending::Edits(vec![edit()]),
            WORKER_PARSE_THRESHOLD + 1,
            true,
            false,
            LIMITS
        ),
        FlushPlan::WorkerParse
    );
}

#[test]
fn cycling_runs_through_every_mode_and_a_pressed_button_turns_the_preview_off() {
    let mut mode = PreviewMode::Off;
    let mut seen = Vec::new();
    for _ in 0..3 {
        mode = run_command(PreviewCommand::Cycle, mode);
        seen.push(mode);
    }
    assert_eq!(seen, [PreviewMode::Split, PreviewMode::Full, PreviewMode::Off]);
    assert_eq!(run_command(PreviewCommand::Side, PreviewMode::Full), PreviewMode::Split);
    assert_eq!(run_command(PreviewCommand::Close, PreviewMode::Full), PreviewMode::Off);
    assert_eq!(click_button(PreviewButton::Side, PreviewMode::Split), PreviewMode::Off);
    assert_eq!(click_button(PreviewButton::Full, PreviewMode::Split), PreviewMode::Full);
    assert_eq!(escape(PreviewMode::Full), Some(PreviewMode::Split));
    assert_eq!(escape(PreviewMode::Split), None);
}

#[test]
fn an_edit_counts_what_went_or_what_came() {
    assert_eq!(
        edit_of(7, 3, true, 1),
        Edit { position: 7, removed: 0, inserted: 3, lines_delta: 1 }
    );
    assert_eq!(
        edit_of(-1, 3, false, -2),
        Edit { position: 0, removed: 3, inserted: 0, lines_delta: -2 }
    );
}

#[test]
fn a_preview_needs_markdown_and_a_worker_parse_lands_only_while_it_is_awaited() {
    let id = DocumentId(5);
    let mut host = PreviewHost::default();
    assert_eq!(host.set_mode(PreviewMode::Full, false), None);
    assert_eq!(host.mode, PreviewMode::Off);
    assert_eq!(host.set_mode(PreviewMode::Full, true), Some(ModeFocus::Preview));
    assert!(host.needs_view(true));
    host.view_made(true);
    let _ = host.load_active_document(id, 10, false, LIMITS);
    let first = host.spawn_parse();
    let second = host.spawn_parse();
    assert_eq!(host.parsed(id, first, None), None, "newer text superseded it");
    assert_eq!(host.parsed(DocumentId(6), second, None), None, "another document");
    assert_eq!(host.parsed(id, second, Some(4)), Some(LineFrom::Given(4)));
    assert!(!host.full_parse_pending);
}

#[test]
fn a_hovered_buttons_hint_wins_over_the_link_under_the_pointer() {
    let mut host = PreviewHost::default();
    host.hover_link(Some("https://example.org".to_owned()));
    assert_eq!(host.status_hint().as_deref(), Some("https://example.org"));
    host.button_hint = Some(PreviewButton::Full);
    assert_eq!(
        host.status_hint().as_deref(),
        Some("Open Preview (Ctrl+Shift+V cycles preview modes)")
    );
}

#[test]
fn a_link_that_cannot_be_followed_says_why() {
    assert_eq!(
        link_notice(LinkFailure::External, "x:y"),
        "FastPad could not open x:y."
    );
    assert_eq!(
        link_notice(LinkFailure::Anchor, "top"),
        "No heading in this document matches #top."
    );
    assert_eq!(
        link_notice(LinkFailure::Ignored, "q:"),
        "FastPad does not open this kind of link: q:"
    );
}

#[test]
fn only_markdown_has_preview_buttons() {
    assert!(buttons_visible(Some(Language::Markdown)));
    assert!(!buttons_visible(Some(Language::PlainText)));
    assert!(!buttons_visible(None));
}

#[test]
fn a_large_document_waits_for_a_worker_and_a_huge_one_for_a_click() {
    let mut host = PreviewHost::default();
    let mut load = |length, force| host.load_active_document(DocumentId(1), length, force, LIMITS).0;
    assert_eq!(load(10, false), Load::Inline);
    assert_eq!(load(WORKER_PARSE_THRESHOLD + 1, false), Load::Worker { paused: false });
    assert_eq!(load(LIVE_UPDATE_LIMIT + 1, false), Load::Paused);
    assert_eq!(load(LIVE_UPDATE_LIMIT + 1, true), Load::Worker { paused: true });
}

#[test]
fn a_hidden_preview_gives_its_document_back() {
    let id = DocumentId(3);
    let mut host = PreviewHost::default();
    host.set_mode(PreviewMode::Full, true);
    host.view_made(true);
    let seen = host.sync_visibility(PreviewMode::Full, true, Some(id), true, 1);
    assert!(seen.shown && seen.load && seen.focus_preview && !seen.release);
    assert_eq!(seen.show_editor, Some(false));
    host.load_active_document(id, 10, false, LIMITS);
    assert!(host.records_edits());
    assert!(!host.sync_visibility(PreviewMode::Full, true, Some(id), false, 1).load);
    assert_eq!(host.flush(true, Some(id)), FlushStart::Wait);
    assert_eq!(host.flush(false, Some(id)), FlushStart::Plan);
    assert_eq!(host.flush(false, Some(DocumentId(4))), FlushStart::Nothing);
    let hidden = host.sync_visibility(PreviewMode::Full, false, Some(id), false, 0);
    assert!(!hidden.shown && hidden.release && hidden.show_editor.is_none());
    assert!(!host.records_edits());
    host.view_made(false);
    assert_eq!(host.mode, PreviewMode::Off, "no window, no preview");
}

#[test]
fn either_pane_follows_the_other_once() {
    let mut host = PreviewHost::default();
    host.set_mode(PreviewMode::Split, true);
    host.view_made(true);
    assert!(host.editor_scrolled(true));
    host.synced();
    assert!(host.preview_scrolled(true, Some(3), 9));
    host.editor_moved(true);
    assert!(!host.editor_scrolled(true), "the echo of the preview's own scroll");
    assert!(host.editor_scrolled(true));
    assert!(!host.preview_scrolled(true, Some(9), 9), "it is there already");
    host.preview_scrolled(true, Some(3), 9);
    host.editor_moved(false);
    assert!(host.editor_scrolled(true), "no scroll, no echo");
    assert_eq!(host.sync_count, 2);
    let stats = Stats {
        block_count: 5,
        revision: 6,
        first_frame_micros: 7,
        last_update_micros: 8,
        top_line: 9,
    };
    let answers: Vec<isize> = (0..9).map(|at| diagnostic(&host, at, stats, true)).collect();
    assert_eq!(answers, [1, 5, 6, 7, 8, 9, 2, 1, -1]);
}

#[test]
fn the_divider_is_dragged_or_reset_by_a_double_click() {
    let mut host = PreviewHost::default();
    host.set_mode(PreviewMode::Split, true);
    host.view_made(true);
    host.layout(AREA, true, width(0.5), 96);
    assert!(host.over_divider(502, 100) && !host.over_divider(100, 100));
    let mut press = |x, menu, now| host.begin_divider_drag(x, 100, menu, now, 500);
    assert_eq!(press(100, false, 1_000), DividerPress::Miss);
    assert_eq!(press(502, true, 1_000), DividerPress::Miss, "a menu is open");
    assert_eq!(press(502, false, u32::MAX - 99), DividerPress::Drag);
    assert_eq!(press(502, false, 400), DividerPress::Reset, "the clock started over");
    assert_eq!(press(502, false, 500), DividerPress::Drag, "no third click");
    assert!(host.cursor_over_divider(0, 0), "while it is dragged");
    assert_eq!(host.drag_divider(), Some(AREA));
    assert!(host.end_divider_drag() && !host.end_divider_drag());
    assert_eq!(host.drag_divider(), None);
    assert!(host.button_hover(Some(PreviewButton::Side)));
    assert!(!host.button_hover(Some(PreviewButton::Side)));
}
