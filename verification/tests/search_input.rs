use fastpad::drawing::{Align, DrawStep, Font, Step};
use fastpad::geometry::{Point, Rect};
use fastpad::messages::{
    VK_ESCAPE, VK_RETURN, VK_TAB, WM_CAPTURECHANGED, WM_CHAR, WM_KEYDOWN, WM_LBUTTONDBLCLK,
    WM_LBUTTONDOWN, WM_LBUTTONUP, WM_MOUSELEAVE, WM_MOUSEMOVE, WM_MOUSEWHEEL, WM_PAINT, WM_PASTE,
    WM_SYSCHAR, WM_SYSKEYDOWN,
};
use fastpad::option_toggles::SearchOption;
use fastpad::palette::Palette;
use fastpad::row_list::{RowLook, VK_DOWN, VK_UP};
use fastpad::search_actions::{
    box_rect, box_step, Act, BoxStep, LibraryStep, OpenMode, QueryChange, SearchAct, Setting,
};
use fastpad::search_children::SearchChild;
use fastpad::search_lines::{Progress, SearchState, Snippet, Stamp, TextHit, LOADING};
use fastpad::search_paint::{
    draw_snippet, drawn_width, room_before, row_boxes, split_snippet, RowText,
};
use fastpad::search_view::SearchView;
use fastpad::text_search::RunEnd;

const CLIENT: Rect = Rect { left: 0, top: 0, right: 260, bottom: 600 };

const SETTING: Setting = Setting { client: CLIENT, dpi: 96, ctrl: false, wheel_lines: 3 };

const NOWHERE: Rect = Rect { left: 0, top: 0, right: 0, bottom: 0 };

fn found(name: &str) -> TextHit {
    TextHit {
        path: format!("{name}.md"),
        name: name.to_owned(),
        folder: "work".to_owned(),
        snippet: Snippet { text: format!("a {name} b"), start: 2, end: 2 + name.len() },
        stamp: Some(Stamp { size: 1, mtime: 2 }),
    }
}

/// A view that shows a notebook, with these results.
fn searched(names: &[&str]) -> SearchView {
    let mut view = SearchView::new(96);
    view.box_made = true;
    view.box_shown = true;
    let step = view.library_changed(Some("C:\\Notes".to_owned()), true, false, true);
    assert_eq!(step, LibraryStep::Forget);
    view.begin("needle", 10);
    let hits = names.iter().map(|name| found(name)).collect();
    view.apply(hits, progress(10, [0; 4]), Some(RunEnd::Completed), 400);
    view
}

fn progress(visited: usize, skipped: [usize; 4]) -> Progress {
    Progress { visited, total: 10, skipped }
}

fn at(x: i32, y: i32) -> Point {
    Point { x, y }
}

fn packed(x: u16, y: u16) -> isize {
    ((y as usize) << 16 | x as usize) as isize
}

fn send(view: &mut SearchView, message: u32, wparam: usize, lparam: isize) -> Option<SearchAct> {
    view.handle(message, wparam, lparam, &SETTING)
}

fn opens(name: &str, mode: OpenMode, focus_editor: bool) -> Option<SearchAct> {
    Some(Act::Open { path: format!("{name}.md"), mode, focus_editor })
}

#[test]
fn presses_flip_toggles_focus_the_field_and_open_results() {
    let mut view = searched(&["a", "b", "c"]);
    let mut press = |message, x, y| send(&mut view, message, 0, packed(x, y));
    assert_eq!(
        press(WM_LBUTTONDOWN, 190, 20),
        Some(Act::Toggle(SearchOption::Case))
    );
    assert_eq!(press(WM_LBUTTONDOWN, 20, 10), Some(Act::FocusBox));
    assert_eq!(press(WM_LBUTTONDOWN, 20, 107), opens("b", OpenMode::Preview, true));
    assert_eq!(press(WM_LBUTTONDBLCLK, 20, 150), opens("c", OpenMode::Permanent, true));
    assert_eq!(press(WM_LBUTTONDOWN, 20, 500), Some(Act::Done { repaint: true }));
    assert_eq!(view.list.selected, Some(2));
    assert!(view.header_hit(20, 10, CLIENT, 96) && !view.header_hit(20, 40, CLIENT, 96));
    view.box_made = false;
    assert!(!view.header_hit(20, 10, CLIENT, 96));
}

#[test]
fn the_pointer_hovers_a_toggle_or_a_result_until_it_leaves() {
    let mut view = searched(&["a", "b"]);
    let moved = |repaint| Some(Act::Moved { repaint });
    assert_eq!(send(&mut view, WM_MOUSEMOVE, 0, packed(190, 20)), moved(true));
    assert_eq!(view.toggle_hover, Some(SearchOption::Case));
    assert_eq!(send(&mut view, WM_MOUSEMOVE, 0, packed(191, 20)), moved(false));
    assert_eq!(send(&mut view, WM_MOUSEMOVE, 0, packed(20, 70)), moved(true));
    assert_eq!((view.toggle_hover, view.list.hover), (None, Some(0)));
    let left = send(&mut view, WM_MOUSELEAVE, 0, 0);
    assert_eq!(left, Some(Act::Done { repaint: true }));
    assert_eq!(send(&mut view, WM_MOUSELEAVE, 0, 0), Some(Act::Done { repaint: false }));
}

#[test]
fn the_thumb_is_grabbed_dragged_and_let_go() {
    let names: Vec<String> = (0..100).map(|index| format!("n{index:03}")).collect();
    let names: Vec<&str> = names.iter().map(String::as_str).collect();
    let mut view = searched(&names);
    assert_eq!(send(&mut view, WM_LBUTTONDOWN, 1, packed(258, 62)), Some(Act::Capture));
    let dragged = send(&mut view, WM_MOUSEMOVE, 1, packed(258, 590));
    assert_eq!(dragged, Some(Act::Moved { repaint: true }));
    assert!(view.list.top > 80);
    assert_eq!(send(&mut view, WM_LBUTTONUP, 0, packed(258, 590)), Some(Act::Release));
    assert_eq!(send(&mut view, WM_LBUTTONUP, 0, 0), Some(Act::Done { repaint: false }));
    assert_eq!(send(&mut view, WM_CAPTURECHANGED, 0, 0), Some(Act::Done { repaint: false }));
    let top = view.list.top;
    let turned = send(&mut view, WM_MOUSEWHEEL, 120 << 16, 0);
    assert_eq!(turned, Some(Act::Done { repaint: true }));
    assert_eq!(view.list.top, top - 3);
}

#[test]
fn keys_in_the_results_browse_them() {
    let mut view = searched(&["a", "b"]);
    assert_eq!(send(&mut view, WM_KEYDOWN, VK_RETURN as usize, 0), opens("a", OpenMode::Preview, false));
    assert_eq!(send(&mut view, WM_KEYDOWN, VK_DOWN as usize, 0), Some(Act::Done { repaint: true }));
    let ctrl = Setting { ctrl: true, ..SETTING };
    assert_eq!(
        view.handle(WM_KEYDOWN, VK_RETURN as usize, 0, &ctrl),
        opens("b", OpenMode::Permanent, true)
    );
    assert_eq!(send(&mut view, WM_KEYDOWN, VK_UP as usize, 0), Some(Act::Done { repaint: true }));
    assert_eq!(view.list.selected, Some(0));
    assert_eq!(send(&mut view, WM_KEYDOWN, VK_UP as usize, 0), Some(Act::FocusBox));
    assert_eq!(send(&mut view, WM_KEYDOWN, VK_TAB as usize, 0), None);
    assert_eq!(send(&mut view, WM_CHAR, 'x' as usize, 0), Some(Act::TypeInBox));
    assert_eq!(send(&mut view, WM_CHAR, 8, 0), None, "a control character");
    let alt = 1 << 29;
    assert_eq!(
        send(&mut view, WM_SYSKEYDOWN, 'W' as usize, alt),
        Some(Act::Toggle(SearchOption::WholeWord))
    );
    assert_eq!(
        send(&mut view, WM_SYSCHAR, 'w' as usize, alt),
        Some(Act::Done { repaint: false })
    );
    assert_eq!(send(&mut view, WM_PAINT, 0, 0), None);
    let mut nothing = searched(&[]);
    assert_eq!(
        send(&mut nothing, WM_KEYDOWN, VK_RETURN as usize, 0),
        Some(Act::Done { repaint: false })
    );
    assert!(!nothing.enter_results(CLIENT, 96));
    let mut view = searched(&["a", "b"]);
    view.list.selected = None;
    assert!(view.enter_results(CLIENT, 96));
    assert_eq!(view.list.selected, Some(0));
}

#[test]
fn the_box_keeps_the_messages_that_are_not_text() {
    let step = |message, key: u32, empty, ctrl| box_step(message, key as usize, 0, empty, ctrl);
    assert_eq!(step(WM_CHAR, 0x0d, false, false), BoxStep::Swallow);
    assert_eq!(step(WM_CHAR, 0x1b, false, false), BoxStep::Swallow);
    assert_eq!(step(WM_CHAR, 'x' as u32, false, false), BoxStep::Edit);
    assert_eq!(step(WM_PAINT, 0, true, false), BoxStep::PaintPlaceholder);
    assert_eq!(step(WM_PAINT, 0, false, false), BoxStep::Pass);
    assert_eq!(step(WM_KEYDOWN, VK_DOWN, false, false), BoxStep::EnterResults);
    assert_eq!(
        step(WM_KEYDOWN, VK_RETURN, false, true),
        BoxStep::OpenSelected { mode: OpenMode::Permanent, focus_editor: true }
    );
    assert_eq!(step(WM_KEYDOWN, VK_ESCAPE, false, false), BoxStep::Clear);
    assert_eq!(step(WM_KEYDOWN, VK_ESCAPE, true, false), BoxStep::FocusContent);
    assert_eq!(step(WM_PASTE, 0, true, false), BoxStep::Edit);
    assert_eq!(step(WM_MOUSEMOVE, 0, true, false), BoxStep::Pass);
    assert_eq!(
        box_step(WM_SYSKEYDOWN, 'R' as usize, 1 << 29, false, false),
        BoxStep::Toggle(SearchOption::Regex)
    );
    let field = Rect { left: 8, top: 5, right: 252, bottom: 33 };
    assert_eq!(
        box_rect(field, 16, 96),
        Rect { left: 16, top: 11, right: 177, bottom: 27 }
    );
}

#[test]
fn a_query_that_cannot_run_clears_the_list_and_another_waits_for_a_pause() {
    let mut view = searched(&["a"]);
    assert_eq!(
        view.query_changed("nee".to_owned()),
        QueryChange::Schedule { repaint: false }
    );
    assert_eq!(view.results.len(), 1, "the old results stay until the search begins");
    assert_eq!(view.query_changed("n".to_owned()), QueryChange::Cancel);
    assert_eq!((view.results.len(), &view.search), (0, &SearchState::TooShort));
    assert_eq!(
        view.query_changed("ne".to_owned()),
        QueryChange::Schedule { repaint: true },
        "the hint to type more goes at once"
    );
    assert_eq!(view.search, SearchState::Idle);
    assert_eq!(view.query_changed("   ".to_owned()), QueryChange::Cancel);
    assert_eq!(view.search, SearchState::Idle);
    view.set_pattern_error(Some("bad".to_owned()));
    assert_eq!(view.summary(), Some(("bad".to_owned(), true)));
    view.set_pattern_error(None);
    assert_eq!(view.search, SearchState::Idle);
}

#[test]
fn another_notebook_forgets_the_search_and_a_hidden_view_checks_later() {
    let mut view = searched(&["a"]);
    let same = || Some("c:\\notes".to_owned());
    assert_eq!(view.library_changed(same(), true, false, true), LibraryStep::Check);
    assert_eq!(view.library_changed(same(), true, false, false), LibraryStep::Wait);
    assert!(view.take_stale() && !view.take_stale());
    assert_eq!(view.results.len(), 1);
    let other = Some("D:\\Work".to_owned());
    assert_eq!(view.library_changed(other, false, false, true), LibraryStep::Forget);
    assert_eq!((view.results.len(), view.query.as_str()), (0, ""));
    assert_eq!(view.placeholder, "Search text in Work");
    assert!(view.open_replace() && !view.open_replace());
    assert!(view.replace_pressed(true) && !view.replace_open, "pressed in the field it closes");
    assert!(!view.replace_pressed(true) && !view.replace_open);
    assert!(view.replace_pressed(false) && view.replace_open);
    view.toggle_option(SearchOption::Regex);
    assert!(view.options.get(SearchOption::Regex));
}

#[test]
fn the_tooltip_gets_its_tools_once_and_gives_them_back() {
    let mut view = searched(&["a"]);
    view.search = SearchState::Done { progress: progress(10, [2, 0, 0, 0]), capped: false };
    let tools = view.tooltip_tools(CLIENT, 96);
    let texts: Vec<&str> = tools.iter().map(|tool| tool.text.as_str()).collect();
    assert_eq!(
        texts,
        [
            "Match case (Alt+C)",
            "Match whole word (Alt+W)",
            "Use regular expression (Alt+R)",
            "2 online only",
        ]
    );
    assert_eq!(tools[3].rect, Rect { left: 12, top: 578, right: 248, bottom: 600 });
    assert!(view.retool(tools, false));
    let again = view.tooltip_tools(CLIENT, 96);
    assert!(!view.retool(again, false), "nothing changed");
    let again = view.tooltip_tools(CLIENT, 96);
    assert!(view.retool(again, true), "a new tooltip has none");
    assert_eq!(view.take_tools().len(), 4);
    assert!(view.take_tools().is_empty());
}

#[test]
fn a_replace_takes_the_listed_notes_and_says_when_there_are_more() {
    let mut view = searched(&["b", "a"]);
    assert_eq!(view.result_paths(), ["a.md", "b.md"]);
    let (candidates, capped) = view.replace_candidates();
    assert_eq!((candidates.len(), candidates[0].path.as_str(), capped), (2, "a.md", false));
    assert_eq!(candidates[0].stamp, Some(Stamp { size: 1, mtime: 2 }));
    view.search = SearchState::Done { progress: progress(10, [0; 4]), capped: true };
    assert!(view.replace_candidates().1);
}

#[test]
fn screen_readers_are_told_of_the_box_the_lines_and_the_results() {
    let mut view = searched(&["a", "b"]);
    view.search = SearchState::Done { progress: progress(10, [1, 0, 0, 0]), capped: false };
    assert_eq!(view.accessible_count(), 4 + 2 + 2);
    let name = |index| {
        view.accessible_item(index, CLIENT, 96, true, false).map(|item| item.name)
    };
    assert_eq!(name(0).as_deref(), Some("Search text in Notes"));
    assert_eq!(name(3).as_deref(), Some("Use regular expression"));
    assert_eq!(name(4).as_deref(), Some("2 notes"));
    assert_eq!(name(5).as_deref(), Some("1 note wasn't searched"));
    assert_eq!(name(6).as_deref(), Some("a, work: a a b"));
    assert_eq!(name(8), None);
    assert_eq!(view.child_at(7), Some(SearchChild::Result(1)));
    assert_eq!(view.child_index(SearchChild::Result(1)), Some(7));
    assert_eq!(view.accessible_hit(at(20, 10), CLIENT, 96), Some(0));
    assert_eq!(view.accessible_hit(at(190, 20), CLIENT, 96), Some(1));
    assert_eq!(view.accessible_hit(at(20, 50), CLIENT, 96), Some(4));
    assert_eq!(view.accessible_hit(at(20, 590), CLIENT, 96), Some(5));
    assert_eq!(view.accessible_hit(at(20, 107), CLIENT, 96), Some(7));
    assert_eq!(view.accessible_hit(at(20, 400), CLIENT, 96), None);
    view.accessible_select(7, CLIENT, 96);
    assert_eq!(view.accessible_current(), Some(7));
    view.accessible_select(0, CLIENT, 96);
    assert_eq!(view.accessible_current(), Some(7), "the box is not selected");
    assert_eq!(view.announce_toggle(SearchOption::Regex, true), Some(3));
    assert_eq!(view.announce_toggle(SearchOption::Regex, false), None);
}

#[test]
fn the_lines_speak_at_most_once_in_an_interval_and_always_at_the_end() {
    let mut view = searched(&[]);
    view.begin("needles", 10);
    view.apply(vec![found("a")], progress(1, [0; 4]), None, 400);
    assert_eq!(view.announce_lines(false, true, 5_000), [4, 5]);
    view.apply(vec![found("b")], progress(2, [0; 4]), None, 400);
    assert_eq!(view.announce_lines(false, true, 5_999), Vec::<usize>::new());
    assert_eq!(view.announce_lines(false, false, 6_000), Vec::<usize>::new(), "hidden");
    assert_eq!(view.announce_lines(false, true, 6_000), [4, 5]);
    assert_eq!(view.announce_lines(false, true, 9_000), Vec::<usize>::new(), "the same");
    view.apply(vec![found("c")], progress(10, [0; 4]), Some(RunEnd::Completed), 400);
    assert_eq!(view.announce_lines(true, true, 9_001), [4], "the status line went away");
}

fn texts(drawn: &[DrawStep]) -> Vec<&str> {
    drawn
        .iter()
        .filter_map(|step| match step {
            Step::Text { text, font: Font::Text, .. } => Some(text.as_str()),
            _ => None,
        })
        .collect()
}

#[test]
fn the_field_the_lines_and_the_results_are_painted() {
    let palette = Palette::neutral();
    let mut view = searched(&["a", "b"]);
    let (drawn, list) = view.paint(CLIENT, 96, &palette, 7, true);
    assert_eq!(drawn[0], Step::Fill { rect: CLIENT, color: 7 });
    assert_eq!(*texts(&drawn).last().unwrap(), "2 notes");
    let list = list.unwrap();
    assert_eq!(list.rows.len(), 2);
    assert_eq!(list.rows[1].rect, Rect { left: 0, top: 102, right: 260, bottom: 144 });
    let look = RowLook { selected: false, hover: false, focused: false };
    let mut drawn = Vec::new();
    view.draw_row(&mut drawn, 1, list.rows[1].rect, look, &palette, 96, 9);
    assert_eq!(texts(&drawn), ["b", "work"]);
    assert!(matches!(
        drawn.last(),
        Some(Step::Text { rect, .. })
            if *rect == (Rect { left: 53, top: 105, right: 248, bottom: 123 })
    ));
    view.loaded = false;
    let (drawn, list) = view.paint(CLIENT, 96, &palette, 7, true);
    assert!(list.is_none() && texts(&drawn).last() == Some(&LOADING));
}

#[test]
fn a_row_has_room_for_its_two_lines() {
    for dpi in [96, 120, 144, 192] {
        let view = SearchView::new(dpi);
        let row = Rect { left: 0, top: 0, right: 400, bottom: view.list.row_height };
        let boxes = row_boxes(row, dpi);
        assert!(boxes.second.bottom <= row.bottom, "{dpi}");
        assert_eq!(boxes.second.top, boxes.text.bottom);
    }
}

#[test]
fn a_snippet_is_split_at_whole_characters_and_its_match_is_bold() {
    let snippet = |start, end| Snippet { text: "\u{e9}ab\u{e9}".to_owned(), start, end };
    let parts = split_snippet(&snippet(2, 4)).unwrap();
    assert_eq!(
        (parts.before.as_str(), parts.matched.as_str(), parts.after.as_str()),
        ("\u{e9}", "ab", "\u{e9}")
    );
    assert!(split_snippet(&snippet(1, 4)).is_none(), "inside a character");
    assert!(split_snippet(&snippet(4, 2)).is_none(), "inside out");
    assert!(split_snippet(&snippet(2, 9)).is_none(), "past the end");
    let rect = Rect { left: 10, top: 0, right: 100, bottom: 20 };
    assert_eq!(room_before(rect, 20), 70);
    assert_eq!(room_before(rect, 85), 30, "at least a third");
    let mut drawn = Vec::new();
    draw_snippet(&mut drawn, "one ", "two", " three", 30, 25, rect, 5);
    let lefts: Vec<(i32, Font)> = drawn
        .iter()
        .map(|step| match step {
            Step::Text { rect, font, align, .. } => {
                assert!(matches!(align, Align::Tabbed | Align::TabbedLine));
                (rect.left, *font)
            }
            _ => panic!("only text is drawn"),
        })
        .collect();
    assert_eq!(lefts, [(10, Font::Text), (40, Font::TextBold), (65, Font::Text)]);
    let mut drawn = Vec::new();
    draw_snippet(&mut drawn, "one ", "two", " three", 90, 25, rect, 5);
    assert_eq!(drawn.len(), 1, "no room for the rest");
    assert_ne!(rect, NOWHERE);
}

#[test]
fn the_results_are_painted_inside_their_list() {
    let palette = Palette::neutral();
    let mut view = searched(&["a", "b"]);
    view.list.selected = Some(1);
    view.results[1].snippet.end = 99;
    let measured = |before: &str| RowText {
        name_width: 9,
        before: before.to_owned(),
        before_width: 10,
        matched_width: 5,
    };
    let mut drawn = Vec::new();
    view.paint_results(&mut drawn, CLIENT, 96, &palette, true, &vec![measured("a "), measured("")]);
    let list = view.list_area(CLIENT, 96);
    assert_eq!(drawn[0], Step::Clip { rect: list });
    assert_eq!(*drawn.last().unwrap(), Step::Unclip);
    // A match that is not in its snippet leaves it plain.
    assert_eq!(texts(&drawn), ["a", "work", "a ", " b", "b", "work", "a b b"]);
    let bold = drawn.iter().filter(|step| matches!(step, Step::Text { font: Font::TextBold, .. }));
    assert_eq!(bold.count(), 1);
    let fills: Vec<&DrawStep> =
        drawn.iter().filter(|step| matches!(step, Step::Fill { .. })).collect();
    assert_eq!(
        fills,
        [&Step::Fill {
            rect: Rect { left: 0, top: 102, right: 260, bottom: 144 },
            color: palette.selection_background,
        }]
    );
    let flat = Rect { bottom: 10, ..CLIENT };
    let mut drawn = Vec::new();
    view.paint_results(&mut drawn, flat, 96, &palette, true, &Vec::new());
    assert!(drawn.is_empty(), "a list without room");
}

#[test]
fn a_text_takes_at_most_the_width_of_its_place() {
    let rect = Rect { left: 10, top: 0, right: 100, bottom: 20 };
    assert_eq!(drawn_width(50, rect), 50);
    assert_eq!(drawn_width(95, rect), 90);
    assert_eq!(drawn_width(5, Rect { right: 0, ..rect }), 0);
}
