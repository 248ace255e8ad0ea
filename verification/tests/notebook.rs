use fastpad::document::DocumentId;
use fastpad::drawing::{Align, DrawStep, Font, Item, Step, TreeItem};
use fastpad::geometry::{Point, Rect};
use fastpad::messages::{
    VK_DELETE, VK_F2, VK_LEFT, VK_RETURN, VK_RIGHT, VK_TAB, WM_CHAR, WM_CONTEXTMENU, WM_KEYDOWN,
    WM_MOUSEMOVE, WM_MOUSEWHEEL, WM_PAINT, WM_TIMER,
};
use fastpad::notebook_actions::{
    expanded_after, header_clicked, menu_choice, more_choice, more_menu, row_menu, takes_focus,
    Act, Command, Entry, Press,
};
use fastpad::notebook_children::NotebookChild;
use fastpad::notebook_drag::{DragMove, Dropped, ExternalDrop, ExternalOver};
use fastpad::notebook_hits::{TOOL_FAVORITE, TOOL_ROW, TOOL_TITLE};
use fastpad::notebook_input::{decode, Input, Moved, Wheeled, DRAG_TIMER};
use fastpad::notebook_keys::KeySetting;
use fastpad::notebook_paint::{InlinePaint, LOAD_FAILED};
use fastpad::notebook_snapshot::{self, rebuild_key, LibraryFacts};
use fastpad::notebook_view::{
    snapshot_mode, Activation, Drag, Frame, HeaderButton, Hit, Hover, Inline, Mode, NotebookView,
    PanelLayout, RebuildKey, RootParts, RowPart, Snapshot, Target,
};
use fastpad::open_editors::EditorRow;
use fastpad::palette::Palette;
use fastpad::panel_cursor::Cursor;
use fastpad::row_list::{VK_DOWN, VK_END, VK_HOME, VK_NEXT, VK_UP};
use fastpad::search_actions::OpenMode;
use fastpad::tree::{NoteTree, RowKind, TreeRow};
use fastpad::tree_paint::{DragSource, Highlight, RecentName};

fn rect(left: i32, top: i32, right: i32, bottom: i32) -> Rect {
    Rect { left, top, right, bottom }
}

fn at(x: i32, y: i32) -> Point {
    Point { x, y }
}

/// A panel 260 by 600 with two tabs listed: the title to 38, the section's header to 64, its rows
/// to 116, the root row to 142, and the body below.
fn frame() -> Frame {
    let button = |left: i32| rect(left, 116, left + 28, 142);
    Frame {
        client: rect(0, 0, 260, 600),
        dpi: 96,
        layout: PanelLayout {
            title: rect(0, 0, 260, 38),
            editors_header: rect(0, 38, 260, 64),
            editors_list: rect(0, 64, 260, 116),
            root: rect(0, 116, 260, 142),
            body: rect(0, 142, 260, 600),
        },
        root: RootParts {
            chevron: rect(8, 116, 24, 142),
            name: rect(24, 116, 140, 142),
            favorite: button(140),
            new_note: button(168),
            new_folder: button(196),
            more: button(224),
        },
        editors_chevron: rect(8, 38, 24, 64),
    }
}

fn folder(path: &str, depth: u16, expanded: bool) -> TreeRow {
    let name = path.rsplit('\\').next().unwrap().to_owned();
    TreeRow { kind: RowKind::Folder(path.to_owned()), depth, name, pinned: false, expanded }
}

fn note(path: &str, depth: u16) -> TreeRow {
    let name = path.rsplit('\\').next().unwrap().to_owned();
    TreeRow { kind: RowKind::Note(path.to_owned()), depth, name, pinned: false, expanded: false }
}

fn rows() -> Vec<TreeRow> {
    vec![
        folder("work", 0, true),
        note("work\\a.md", 1),
        folder("work\\old", 1, false),
        note("b.md", 0),
    ]
}

fn key(root: Option<&str>) -> RebuildKey {
    RebuildKey {
        root: root.map(str::to_owned),
        loaded: true,
        failed: false,
        expansion: 0,
        root_expanded: true,
    }
}

fn snapshot(mode: Mode, rows: Vec<TreeRow>) -> Snapshot {
    Snapshot {
        mode,
        rows,
        truncated: false,
        recent: vec![],
        recent_names: vec![],
        root: Some("C:\\Notes".to_owned()),
        name: "Notes".to_owned(),
        favorite: false,
        root_expanded: true,
        editors_expanded: true,
        key: key(Some("C:\\Notes")),
    }
}

fn no_notebook() -> Snapshot {
    Snapshot {
        recent: vec!["C:\\Notes".to_owned(), "D:\\Notes".to_owned()],
        recent_names: vec![
            RecentName { name: "Notes".to_owned(), hint: Some("C:\\".to_owned()) },
            RecentName { name: "Work".to_owned(), hint: None },
        ],
        root: None,
        name: String::new(),
        key: key(None),
        ..snapshot(Mode::NoNotebook, vec![])
    }
}

fn tab(id: u64, path: Option<&str>, dirty: bool) -> EditorRow {
    EditorRow {
        id: DocumentId(id),
        name: format!("tab {id}"),
        path: path.map(str::to_owned),
        dirty,
        active: id == 1,
    }
}

fn view_of(shown: Snapshot) -> NotebookView {
    let mut view = NotebookView::new(96);
    let tabs = vec![tab(1, Some("C:\\Notes\\b.md"), false), tab(2, None, true)];
    assert!(view.editors_changed(tabs, &frame()));
    view.apply(shown, None, &frame());
    view
}

fn tree_view() -> NotebookView {
    view_of(snapshot(Mode::Tree, rows()))
}

fn notebook() -> Option<String> {
    Some("C:\\Notes".to_owned())
}

fn setting() -> KeySetting {
    KeySetting {
        notebook: notebook(),
        ctrl: false,
        ready: true,
        editors_open: true,
        root_open: true,
    }
}

fn press(view: &mut NotebookView, key: u32) -> Option<Act<String>> {
    view.key_down(key, &setting(), &frame())
}

#[test]
fn a_notebook_is_absent_loading_failed_empty_or_a_tree() {
    assert_eq!(snapshot_mode(false, true, true, 3), Mode::NoNotebook);
    assert_eq!(snapshot_mode(true, false, false, 3), Mode::Loading);
    assert_eq!(snapshot_mode(true, false, true, 3), Mode::Failed);
    assert_eq!(snapshot_mode(true, true, false, 0), Mode::Empty);
    assert_eq!(snapshot_mode(true, true, true, 3), Mode::Tree);
}

#[test]
fn a_snapshot_lists_the_recent_notebooks_or_the_open_ones_tree() {
    let facts = LibraryFacts {
        loaded: true,
        failed: false,
        expansion: 7,
        root_expanded: false,
        editors_expanded: true,
        favorite: true,
        truncated: true,
    };
    let entry = |kind: RowKind, depth: u16| TreeRow {
        kind,
        depth,
        name: "row".to_owned(),
        pinned: false,
        expanded: false,
    };
    let tree = NoteTree {
        entries: vec![
            entry(RowKind::Folder("work".to_owned()), 0),
            entry(RowKind::Note("work\\a.md".to_owned()), 1),
        ],
    };
    let take = |root: Option<&str>, facts: LibraryFacts, expanded: &[&str]| {
        let expanded = expanded.iter().map(|path| (*path).to_owned()).collect();
        let recent = vec!["C:\\Old".to_owned()];
        let names = vec![RecentName { name: "Old".to_owned(), hint: None }];
        let root = root.map(str::to_owned);
        notebook_snapshot::snapshot(
            root,
            "Notes".to_owned(),
            facts,
            &tree,
            &expanded,
            recent,
            names,
        )
    };
    let none = take(None, facts, &["work"]);
    assert_eq!(none.mode, Mode::NoNotebook);
    assert_eq!((none.rows.len(), none.recent.len(), none.recent_names.len()), (0, 1, 1));
    assert!(none.root_expanded && !none.favorite && !none.truncated && none.name.is_empty());
    let shut = take(Some("C:\\Notes"), facts, &[]);
    assert_eq!((shut.mode, shut.rows.len(), shut.recent.len()), (Mode::Tree, 1, 0));
    assert!(shut.favorite && shut.truncated && !shut.root_expanded && !shut.rows[0].expanded);
    assert_eq!(shut.key, rebuild_key(&Some("C:\\Notes".to_owned()), facts));
    let open = take(Some("C:\\Notes"), facts, &["WORK"]);
    assert_eq!(open.rows.len(), 2);
    let loading = take(Some("C:\\Notes"), LibraryFacts { loaded: false, ..facts }, &["work"]);
    assert_eq!((loading.mode, loading.rows.len(), loading.truncated), (Mode::Loading, 0, false));
    assert_ne!(loading.key, shut.key);
}

#[test]
fn a_new_view_is_loading_with_nothing_listed() {
    let view = NotebookView::new(144);
    assert_eq!(view.mode, Mode::Loading);
    assert_eq!(view.list.row_height, 39);
    assert_eq!(view.list.count, 0);
    assert_eq!(view.cursor, Cursor::Tree);
    assert!(view.stale(&key(None)), "nothing was built yet");
}

#[test]
fn a_rebuild_keeps_the_selection_on_its_note_or_at_its_place() {
    let mut view = tree_view();
    assert!(view.select_row(&RowKind::Note("b.md".to_owned()), &frame()));
    assert_eq!(view.list.selected, Some(3));
    let order = view.order;
    let mut moved = rows();
    moved.insert(0, note("0.md", 0));
    view.apply(snapshot(Mode::Tree, moved), None, &frame());
    assert_eq!(view.list.selected, Some(4), "b.md moved down a row");
    assert_eq!(view.order, order + 1);
    view.apply(snapshot(Mode::Tree, rows()), None, &frame());
    let order = view.order;
    let mut gone = rows();
    gone.truncate(3);
    view.apply(snapshot(Mode::Tree, gone), None, &frame());
    assert_eq!(view.list.selected, Some(2), "b.md went: the last row takes its place");
    assert_eq!(view.order, order + 1);
    let order = view.order;
    let mut gone = rows();
    gone.truncate(3);
    view.apply(snapshot(Mode::Tree, gone), None, &frame());
    assert_eq!(view.order, order, "the same rows are no reorder");
    assert!(!view.select_row(&RowKind::Note("b.md".to_owned()), &frame()));
}

#[test]
fn another_notebook_starts_with_nothing_selected() {
    let mut view = tree_view();
    view.select_index(2, &frame());
    assert_eq!(view.list.selected, Some(2));
    assert_eq!(view.typed('w', 0), Some(("w".to_owned(), 3)));
    let other = Snapshot { root: Some("D:\\Other".to_owned()), ..snapshot(Mode::Tree, rows()) };
    view.apply(other, None, &frame());
    assert_eq!(view.list.selected, None);
    assert_eq!(view.typed.text, "");
    assert!(!view.stale(&key(Some("C:\\Notes"))), "the key the rows were built from");
    assert!(!view.stale(&key(Some("c:/Notes/"))), "the same path");
    assert!(view.stale(&key(Some("D:\\Other"))));
}

#[test]
fn a_collapsed_root_takes_the_keyboard_selection_from_the_hidden_tree() {
    let mut view = tree_view();
    view.select_index(1, &frame());
    let collapsed = Snapshot { root_expanded: false, ..snapshot(Mode::Tree, rows()) };
    view.apply(collapsed, None, &frame());
    assert!(view.tree_hidden() && !view.tree_shown());
    assert_eq!(view.cursor, Cursor::Root);
    assert_eq!(view.list_area(&frame()), rect(0, 142, 260, 142));
    assert_eq!(view.hit_test(&frame(), at(100, 150)), Hit::Empty);
    assert_eq!(view.selected_folder(&notebook()), None);
    view.apply(no_notebook(), None, &frame());
    assert_eq!(view.cursor, Cursor::EditorsHeader, "the root row went with its notebook");
}

#[test]
fn a_draft_row_shows_the_tree_of_an_empty_notebook_while_it_lasts() {
    let mut view = view_of(snapshot(Mode::Empty, vec![]));
    assert_eq!(view.mode, Mode::Empty);
    view.inline.wants_draft = true;
    assert!(view.keeps_edit(Mode::Empty, &notebook()));
    assert!(view.keeps_edit(Mode::Empty, &Some("C:/Notes".to_owned())));
    assert!(!view.keeps_edit(Mode::Empty, &Some("D:\\Other".to_owned())));
    let draft = TreeRow { kind: RowKind::Draft, ..note("", 0) };
    let edit = Inline { row: Some(0), draft: Some(0), wants_draft: true };
    view.apply(snapshot(Mode::Empty, vec![draft]), Some(edit), &frame());
    assert_eq!(view.mode, Mode::Tree);
    assert_eq!(view.inline_row(&frame()), Some((rect(0, 142, 260, 168), 0)));
    view.apply(snapshot(Mode::Empty, vec![]), None, &frame());
    assert_eq!((view.mode, view.inline.draft), (Mode::Empty, None));
    assert_eq!(view.inline_row(&frame()), None);
}

#[test]
fn tabs_that_close_take_the_keyboard_selection_with_them() {
    let mut view = tree_view();
    view.cursor = Cursor::Editor(1);
    let order = view.order;
    assert!(view.editors_changed(vec![tab(1, None, false)], &frame()));
    assert_eq!(view.cursor, Cursor::Editor(0));
    assert_eq!(view.order, order + 1);
    assert!(view.editors_changed(vec![tab(1, None, true)], &frame()), "it became dirty");
    assert_eq!(view.order, order + 1, "the same tabs in the same order");
    assert!(!view.editors_changed(vec![tab(1, None, true)], &frame()));
    assert!(view.editors_changed(vec![], &frame()));
    assert_eq!(view.cursor, Cursor::EditorsHeader);
}

#[test]
fn a_point_hits_what_is_painted_there() {
    let view = tree_view();
    let frame = frame();
    let hit = |x, y| view.hit_test(&frame, at(x, y));
    assert_eq!(hit(10, 20), Hit::Empty, "the title");
    assert_eq!(hit(100, 40), Hit::EditorsHeader);
    assert_eq!(hit(100, 70), Hit::Editor { index: 0, close: false });
    assert_eq!(hit(240, 70), Hit::Editor { index: 0, close: true });
    assert_eq!(hit(240, 100), Hit::Editor { index: 1, close: false }, "a dirty tab has no box");
    assert_eq!(hit(30, 120), Hit::Root);
    assert_eq!(hit(150, 120), Hit::Header(HeaderButton::Favorite));
    assert_eq!(hit(170, 120), Hit::Header(HeaderButton::NewNote));
    assert_eq!(hit(200, 120), Hit::Header(HeaderButton::NewFolder));
    assert_eq!(hit(230, 120), Hit::Header(HeaderButton::More));
    assert_eq!(hit(10, 150), Hit::Row { index: 0, part: RowPart::Chevron });
    assert_eq!(hit(39, 150), Hit::Row { index: 0, part: RowPart::Chevron }, "the icon too");
    assert_eq!(hit(40, 150), Hit::Row { index: 0, part: RowPart::Body });
    assert_eq!(hit(250, 150), Hit::Row { index: 0, part: RowPart::Body }, "no pin on a folder");
    assert_eq!(hit(250, 170), Hit::Row { index: 1, part: RowPart::Pin });
    assert_eq!(hit(10, 170), Hit::Row { index: 1, part: RowPart::Body });
    assert_eq!(hit(100, 500), Hit::Empty, "below the rows");
}

#[test]
fn the_states_have_their_own_buttons() {
    let frame = frame();
    let recent = view_of(no_notebook());
    assert_eq!(recent.hit_test(&frame, at(20, 200)), Hit::StateButton);
    assert_eq!(recent.hit_test(&frame, at(20, 240)), Hit::Empty, "no second button");
    assert_eq!(recent.hit_test(&frame, at(150, 120)), Hit::Empty, "no root row");
    assert_eq!(
        recent.hit_test(&frame, at(20, 290)),
        Hit::Row { index: 1, part: RowPart::Body }
    );
    assert_eq!(recent.state_button(), Act::ChooseNotebook);
    assert_eq!(recent.buttons(&frame), [("Open notebook\u{2026}".to_owned(), rect(12, 194, 152, 222))]);
    assert_eq!(recent.recent_name(0), "Notes, C:\\");
    assert_eq!(recent.recent_name(1), "Work");
    assert_eq!(recent.recent_name(2), "");

    let failed = view_of(snapshot(Mode::Failed, vec![]));
    assert_eq!(failed.hit_test(&frame, at(20, 240)), Hit::SecondButton);
    assert_eq!(failed.state_button(), Act::RetryLoad);
    let names: Vec<String> = failed.buttons(&frame).into_iter().map(|(name, _)| name).collect();
    assert_eq!(
        names,
        [
            "Add to favorites",
            "New note",
            "New folder",
            "More actions",
            "Retry",
            "Open notebook\u{2026}",
        ]
    );
    let loading = view_of(snapshot(Mode::Loading, vec![]));
    assert_eq!(loading.hit_test(&frame, at(20, 200)), Hit::Empty);
    assert_eq!(loading.state_button(), Act::Nothing);
    let empty = view_of(snapshot(Mode::Empty, vec![]));
    assert_eq!(empty.state_button(), Act::NewNote);
}

#[test]
fn a_list_that_does_not_fit_has_a_thumb() {
    let many: Vec<TreeRow> = (0..100).map(|index| note(&format!("{index}.md"), 0)).collect();
    let truncated = Snapshot { truncated: true, ..snapshot(Mode::Tree, many) };
    let mut view = view_of(truncated);
    let frame = frame();
    assert_eq!(view.list.count, 101, "one more row says that the scan stopped");
    assert_eq!(view.target(100), Target::Truncated);
    assert_eq!(view.target(101), Target::Nothing);
    let Hit::Thumb(grab) = view.hit_test(&frame, at(258, 150)) else {
        panic!("no thumb");
    };
    assert_eq!(grab, 8);
    let pressed = view.left_down(Hit::Thumb(grab), &frame, &notebook(), true);
    assert_eq!(pressed.act, Act::GrabThumb);
    assert_eq!(view.mouse_move(&frame, at(258, 599)), Moved::Thumb { scrolled: true });
    assert_eq!(view.list.top, 84, "the last page");
    assert!(view.release_thumb());
    assert!(!view.release_thumb());
    assert!(!takes_focus(Some(Hit::Thumb(0)), true));
    assert!(takes_focus(Some(Hit::Thumb(0)), false));
    assert!(takes_focus(Some(Hit::Root), true));
}

#[test]
fn presses_act_on_what_they_hit() {
    let mut view = tree_view();
    let frame = frame();
    let mut down = |hit| view.left_down(hit, &frame, &notebook(), true);
    assert_eq!(down(Hit::EditorsHeader).act, Act::ExpandEditors(false));
    let pressed = down(Hit::Editor { index: 0, close: false });
    assert_eq!(pressed.act, Act::ActivateTab { id: DocumentId(1), focus: false });
    assert!(matches!(
        pressed.source,
        Some(DragSource::Tab { id: DocumentId(1), path }) if path == "C:\\Notes\\b.md"
    ));
    let pressed = down(Hit::Editor { index: 0, close: true });
    assert_eq!(pressed.act, Act::CloseTab(DocumentId(1)));
    assert!(pressed.source.is_none());
    assert!(down(Hit::Editor { index: 1, close: false }).source.is_none(), "no file to copy");
    assert_eq!(down(Hit::Root).act, Act::ExpandRoot(false));
    assert_eq!(down(Hit::SecondButton).act, Act::ChooseNotebook);
    assert_eq!(down(Hit::Header(HeaderButton::More)).act, Act::MoreMenu(at(224, 142)));
    let pressed = down(Hit::Row { index: 0, part: RowPart::Body });
    assert_eq!(
        pressed.act,
        Act::ExpandFolder { folder: "work".to_owned(), expanded: false }
    );
    assert!(matches!(pressed.source, Some(DragSource::Row(RowKind::Folder(_)))));
    let pressed = down(Hit::Row { index: 1, part: RowPart::Body });
    assert_eq!(
        pressed.act,
        Act::OpenNote {
            path: "C:\\Notes\\work\\a.md".to_owned(),
            mode: OpenMode::Preview,
            focus: false
        }
    );
    let pressed = down(Hit::Row { index: 3, part: RowPart::Pin });
    assert_eq!(pressed.act, Act::TogglePin("C:\\Notes\\b.md".to_owned()));
    assert!(pressed.source.is_none(), "only a row's body is dragged");
    assert_eq!((view.cursor, view.list.selected), (Cursor::Tree, Some(3)));
    assert_eq!(header_clicked(HeaderButton::Favorite, &frame), Act::ToggleFavorite);
    assert_eq!(header_clicked(HeaderButton::NewNote, &frame), Act::NewNote);
    assert_eq!(header_clicked(HeaderButton::NewFolder, &frame), Act::NewFolder);
}

#[test]
fn a_double_click_opens_a_note_for_good_and_toggles_nothing_twice() {
    let view = tree_view();
    let frame = frame();
    let double = |x, y| view.double_click(&frame, at(x, y), &notebook());
    assert_eq!(
        double(100, 170),
        Some(Act::OpenNote {
            path: "C:\\Notes\\work\\a.md".to_owned(),
            mode: OpenMode::Permanent,
            focus: true
        })
    );
    assert_eq!(double(250, 170), Some(Act::Nothing), "the pin was toggled by the first press");
    assert_eq!(double(100, 150), Some(Act::Nothing), "so was the folder");
    assert_eq!(double(30, 120), None, "elsewhere it is one more press");
    let recent = view_of(no_notebook());
    assert_eq!(recent.double_click(&frame, at(20, 290), &None), Some(Act::Nothing));
    assert_eq!(
        recent.activate(1, Activation::Click, &None),
        Act::OpenNotebook("D:\\Notes".to_owned())
    );
}

#[test]
fn a_press_ends_an_edit_first_and_follows_its_row() {
    let mut view = tree_view();
    let frame = frame();
    let hit = Hit::Row { index: 3, part: RowPart::Body };
    assert_eq!(view.press(&frame, at(100, 230), false), Press::Now(hit));
    let kind = Some(RowKind::Note("b.md".to_owned()));
    let Press::Commit { hit: first, kind: landed } = view.press(&frame, at(100, 230), true) else {
        panic!("the edit goes on");
    };
    assert_eq!((first, &landed), (hit, &kind));
    let mut moved = rows();
    moved.remove(1);
    view.apply(snapshot(Mode::Tree, moved), None, &frame);
    assert_eq!(
        view.hit_after_commit(first, &landed),
        Some(Hit::Row { index: 2, part: RowPart::Body })
    );
    let mut gone = rows();
    gone.remove(3);
    view.apply(snapshot(Mode::Tree, gone), None, &frame);
    assert_eq!(view.hit_after_commit(first, &landed), None);
    assert_eq!(view.hit_after_commit(first, &None), None, "the draft row");
    assert_eq!(view.hit_after_commit(Hit::Root, &None), Some(Hit::Root));
    view.right_pressed(Some(Hit::Row { index: 1, part: RowPart::Body }), &frame);
    assert_eq!((view.cursor, view.list.selected), (Cursor::Tree, Some(1)));
}

#[test]
fn the_arrows_run_through_the_sections_and_the_tree() {
    let mut view = tree_view();
    assert_eq!(press(&mut view, VK_DOWN), Some(Act::Nothing));
    assert_eq!((view.cursor, view.list.selected), (Cursor::Tree, Some(0)), "a row in view first");
    assert_eq!(press(&mut view, VK_UP), Some(Act::Nothing));
    assert_eq!(view.cursor, Cursor::Root);
    press(&mut view, VK_UP);
    assert_eq!(view.cursor, Cursor::Editor(1));
    press(&mut view, VK_HOME);
    assert_eq!(view.cursor, Cursor::EditorsHeader);
    press(&mut view, VK_DOWN);
    assert_eq!(view.cursor, Cursor::Editor(0));
    press(&mut view, VK_NEXT);
    assert_eq!(view.cursor, Cursor::Editor(1));
    assert_eq!(view.editors.list.selected, Some(0), "the active tab's row stays selected");
    press(&mut view, VK_END);
    assert_eq!((view.cursor, view.list.selected), (Cursor::Tree, Some(3)));
}

#[test]
fn keys_act_on_the_row_they_are_on() {
    let mut view = tree_view();
    assert_eq!(press(&mut view, VK_TAB), None, "left to the panel");
    assert_eq!(press(&mut view, VK_F2), Some(Act::Nothing), "nothing is selected");
    view.select_index(2, &frame());
    assert_eq!(
        press(&mut view, VK_RIGHT),
        Some(Act::ExpandFolder { folder: "work\\old".to_owned(), expanded: true })
    );
    assert_eq!(press(&mut view, VK_LEFT), Some(Act::Nothing));
    assert_eq!(view.list.selected, Some(0), "the parent folder");
    press(&mut view, VK_RIGHT);
    assert_eq!(view.list.selected, Some(1), "into the expanded folder");
    assert_eq!(
        press(&mut view, VK_RETURN),
        Some(Act::OpenNote {
            path: "C:\\Notes\\work\\a.md".to_owned(),
            mode: OpenMode::Preview,
            focus: false
        })
    );
    let permanent = KeySetting { ctrl: true, ..setting() };
    assert_eq!(
        view.key_down(VK_RETURN, &permanent, &frame()),
        Some(Act::OpenNote {
            path: "C:\\Notes\\work\\a.md".to_owned(),
            mode: OpenMode::Permanent,
            focus: true
        })
    );
    assert_eq!(
        press(&mut view, VK_F2),
        Some(Act::Rename(RowKind::Note("work\\a.md".to_owned())))
    );
    assert_eq!(
        press(&mut view, VK_DELETE),
        Some(Act::DeleteNote("C:\\Notes\\work\\a.md".to_owned()))
    );
    let waiting = KeySetting { ready: false, ..setting() };
    assert_eq!(view.key_down(VK_DELETE, &waiting, &frame()), Some(Act::Nothing));
    view.select_index(0, &frame());
    assert_eq!(press(&mut view, VK_DELETE), Some(Act::DeleteFolder("work".to_owned())));
    assert_eq!(
        press(&mut view, VK_LEFT),
        Some(Act::ExpandFolder { folder: "work".to_owned(), expanded: false })
    );
    view.select_index(3, &frame());
    press(&mut view, VK_LEFT);
    assert_eq!(view.cursor, Cursor::Root, "a top-level row lies under the root row");
    assert_eq!(press(&mut view, VK_LEFT), Some(Act::ExpandRoot(false)));
    assert_eq!(press(&mut view, VK_RIGHT), Some(Act::Nothing), "it is expanded");
    assert_eq!(press(&mut view, VK_F2), Some(Act::Nothing));
    view.cursor = Cursor::EditorsHeader;
    assert_eq!(press(&mut view, VK_RETURN), Some(Act::ExpandEditors(false)));
    view.cursor = Cursor::Editor(1);
    assert_eq!(
        press(&mut view, VK_RETURN),
        Some(Act::ActivateTab { id: DocumentId(2), focus: true })
    );
    assert!(!expanded_after(VK_LEFT, true) && expanded_after(VK_RIGHT, false));
    assert!(expanded_after(VK_RETURN, false) && !expanded_after(VK_RETURN, true));
}

#[test]
fn letters_search_from_the_row_after_the_selection() {
    let mut view = tree_view();
    assert_eq!(view.typed('a', 1000), Some(("a".to_owned(), 0)));
    view.found(1, &frame());
    assert_eq!((view.cursor, view.list.selected), (Cursor::Tree, Some(1)));
    assert_eq!(view.typed('.', 1500), Some(("a.".to_owned(), 1)));
    assert_eq!(view.typed('b', 9000), Some(("b".to_owned(), 2)));
    let mut loading = view_of(snapshot(Mode::Loading, vec![]));
    assert_eq!(loading.typed('a', 0), None);
}

#[test]
fn commands_act_on_the_selected_row() {
    let mut view = tree_view();
    view.select_index(1, &frame());
    assert_eq!(
        view.focused_note(&notebook(), true).as_deref(),
        Some("C:\\Notes\\work\\a.md")
    );
    assert_eq!(view.focused_note(&notebook(), false), None);
    assert_eq!(view.focused_note(&None, true), None);
    assert_eq!(view.focused_folder(true), None);
    assert_eq!(view.selected_folder(&notebook()).as_deref(), Some("C:\\Notes\\work"));
    view.select_index(2, &frame());
    assert_eq!(view.focused_folder(true).as_deref(), Some("work\\old"));
    assert_eq!(view.selected_folder(&notebook()).as_deref(), Some("C:\\Notes\\work\\old"));
    view.cursor = Cursor::Root;
    assert_eq!(view.selected_folder(&notebook()), None);
    view.active_tab_changed(Some("b.md".to_owned()), &frame());
    assert_eq!((view.cursor, view.list.selected), (Cursor::Root, Some(3)));
}

#[test]
fn a_rows_menu_acts_on_that_row() {
    let mut view = tree_view();
    let frame = frame();
    let text = |entry: &Entry<String>| match entry {
        Entry::Command { text, .. } => text.clone(),
        Entry::Separator => "-".to_owned(),
    };
    let (row, point) = view.open_context_menu(1, None, &frame).unwrap();
    assert_eq!((point, view.list.selected), (at(24, 194), Some(1)));
    let menu: Vec<String> = row_menu(&row).iter().map(text).collect();
    assert_eq!(
        menu,
        [
            "Open in new tab",
            "Pin",
            "-",
            "Move to notebook...\tCtrl+Shift+M",
            "Rename...\tF2",
            "Reveal in Explorer",
            "-",
            "Delete...\tDel",
        ]
    );
    let (row, point) = view.open_context_menu(0, Some(at(5, 6)), &frame).unwrap();
    assert_eq!(point, at(5, 6));
    assert_eq!(row_menu(&row).len(), 7);
    assert_eq!(view.open_context_menu(4, None, &frame), None);
    assert_eq!(view.context_row(Some(at(100, 230)), &frame), Some(3));
    assert_eq!(view.context_row(Some(at(100, 120)), &frame), None);
    assert_eq!(view.context_row(None, &frame), Some(3), "past the end selects the last row");
    view.cursor = Cursor::Root;
    assert_eq!(view.context_row(None, &frame), None);

    let note = RowKind::Note("b.md".to_owned());
    let path = || "C:\\Notes\\b.md".to_owned();
    let choose = |kind: &RowKind, command| menu_choice(kind, Some(command), &notebook(), true);
    assert_eq!(
        choose(&note, Command::Open),
        Act::OpenNote { path: path(), mode: OpenMode::Permanent, focus: true }
    );
    assert_eq!(choose(&note, Command::TogglePin), Act::TogglePin(path()));
    assert_eq!(choose(&note, Command::MoveToNotebook), Act::MoveToNotebook(path()));
    assert_eq!(choose(&note, Command::Reveal), Act::Reveal(path()));
    assert_eq!(choose(&note, Command::Delete), Act::DeleteNote(path()));
    assert_eq!(choose(&note, Command::NewNote), Act::Nothing);
    assert_eq!(menu_choice(&note, Some(Command::Delete), &notebook(), false), Act::Nothing);
    assert_eq!(menu_choice(&note, None, &notebook(), true), Act::Nothing);
    assert_eq!(menu_choice(&note, Some(Command::Open), &None, true), Act::Nothing);
    let work = RowKind::Folder("work".to_owned());
    assert_eq!(choose(&work, Command::NewNote), Act::NewNoteIn("work".to_owned()));
    assert_eq!(choose(&work, Command::NewFolder), Act::NewFolderIn("work".to_owned()));
    assert_eq!(choose(&work, Command::Reveal), Act::Reveal("C:\\Notes\\work".to_owned()));
    assert_eq!(choose(&work, Command::Delete), Act::DeleteFolder("work".to_owned()));
    assert_eq!(
        choose(&work, Command::Rename),
        Act::Rename(RowKind::Folder("work".to_owned()))
    );
    assert_eq!(choose(&RowKind::Draft, Command::Rename), Act::Nothing);

    let menu: Vec<String> = more_menu().iter().map(text).collect();
    assert_eq!(menu, ["Reveal in Explorer", "Close notebook"]);
    assert_eq!(
        more_choice(Some(Command::Reveal), &notebook()),
        Act::Reveal("C:\\Notes".to_owned())
    );
    assert_eq!(more_choice(Some(Command::CloseNotebook), &None), Act::CloseNotebook);
    assert_eq!(more_choice(None, &notebook()), Act::Nothing);
}

#[test]
fn a_drag_is_armed_started_and_dropped_once() {
    let mut view = tree_view();
    view.arm_drag(DragSource::Row(RowKind::Note("b.md".to_owned())), at(100, 230), true);
    assert!(view.drag.is_none(), "an edit is open");
    view.arm_drag(DragSource::Row(RowKind::Draft), at(100, 230), false);
    assert!(view.drag.is_none(), "a draft row is not dragged");
    view.arm_drag(DragSource::Row(RowKind::Note("b.md".to_owned())), at(100, 230), false);
    assert!(!view.drag_started());
    assert_eq!(view.drag_label(), None);
    assert_eq!(view.drag_move(true, false), DragMove::Ignored);
    assert_eq!(view.drag_move(true, true), DragMove::Started);
    assert_eq!(view.drag_move(true, true), DragMove::Moved);
    assert_eq!(
        view.drag_label(),
        Some((TreeItem::Note(Some("md".to_owned())), "b.md".to_owned()))
    );
    assert_eq!(view.drag_hover(&frame(), at(100, 20)), Hover::Outside);
    assert_eq!(view.drag_hover(&frame(), at(100, 120)), Hover::Header);
    assert_eq!(view.drag_hover(&frame(), at(100, 150)), Hover::Row(0));
    assert_eq!(view.drag_hover(&frame(), at(100, 500)), Hover::Below);
    assert!(view.drag_to(at(100, 150), Some("work".to_owned()), None));
    assert_eq!(view.retargets(), Some((at(100, 150), false)));
    assert_eq!(
        view.drag_release(),
        Some(Dropped::Move {
            kind: RowKind::Note("b.md".to_owned()),
            folder: "work".to_owned()
        })
    );
    assert_eq!(view.drag_release(), None);
    assert!(!view.drag_to(at(0, 0), Some("work".to_owned()), None), "no drag");

    let tab = DragSource::Tab { id: DocumentId(7), path: "D:\\x.txt".to_owned() };
    view.arm_drag(tab, at(10, 70), false);
    assert_eq!(view.drag_release(), None, "an armed drag was a click");
    let tab = DragSource::Tab { id: DocumentId(7), path: "D:\\x.txt".to_owned() };
    view.arm_drag(tab, at(10, 70), false);
    view.drag_move(true, true);
    assert_eq!(
        view.drag_label(),
        Some((TreeItem::Note(Some("txt".to_owned())), "x.txt".to_owned()))
    );
    assert!(!view.drag_to(at(10, 20), None, None));
    assert!(view.drag_to(at(10, 130), Some(String::new()), None));
    assert_eq!(
        view.drag_release(),
        Some(Dropped::Copy {
            id: DocumentId(7),
            path: "D:\\x.txt".to_owned(),
            folder: String::new()
        })
    );
}

#[test]
fn a_drag_ends_with_its_button_its_row_or_a_right_press() {
    let frame = frame();
    let dragging = |target: Option<&str>| {
        let mut view = tree_view();
        view.arm_drag(DragSource::Row(RowKind::Note("b.md".to_owned())), at(100, 230), false);
        view.drag_move(true, true);
        view.drag_to(at(100, 150), target.map(str::to_owned), None);
        view
    };
    let mut view = dragging(None);
    assert_eq!(view.drag_move(false, true), DragMove::Cancelled);
    assert!(!view.cancel_drag());
    let mut view = dragging(None);
    assert_eq!(view.drag_release(), Some(Dropped::Nowhere));
    let mut view = dragging(None);
    assert_eq!(view.right_down(), (true, false));
    assert!(view.drop_right_release_wait(), "its release opens no menu");
    assert_eq!(view.right_down(), (false, false));
    let mut view = dragging(None);
    view.right_down();
    assert_eq!(view.right_down(), (false, true), "the release never came");
    let mut view = dragging(None);
    assert!(view.capture_changed() && !view.capture_changed());

    let mut view = dragging(Some("work"));
    let mut left = rows();
    left.remove(0);
    view.apply(snapshot(Mode::Tree, left), None, &frame);
    assert!(!view.rebuilt_drag(false));
    assert_eq!(view.drag.as_ref().unwrap().target, None, "its target went");
    assert!(view.rebuilt_drag(true), "the row of another notebook is not the same row");
    let mut gone = rows();
    gone.remove(3);
    view.apply(snapshot(Mode::Tree, gone), None, &frame);
    assert!(view.rebuilt_drag(false), "its row went");

    let mut view = dragging(Some("work"));
    let tick = view.drag_tick(0, Some("work\\old".to_owned()), &frame).unwrap();
    assert_eq!(tick.expand.as_deref(), Some("work\\old"));
    assert_eq!((tick.scrolled, tick.pointer, tick.external), (false, at(100, 150), false));
    assert!(tree_view().drag_tick(1, None, &frame).is_none());
    assert!(Drag::armed(DragSource::Row(RowKind::Draft), at(0, 0)).is_none());
}

#[test]
fn files_from_outside_open_over_the_tabs_and_are_copied_into_the_tree() {
    let frame = frame();
    let files = || vec!["E:\\x.md".to_owned()];
    let mut view = tree_view();
    assert_eq!(view.external_over(&frame, at(100, 50), files()), ExternalOver::Opens);
    assert!(view.drag.is_none());
    assert_eq!(
        view.external_over(&frame, at(100, 150), files()),
        ExternalOver::Tree { fresh: true }
    );
    assert_eq!(
        view.external_over(&frame, at(100, 160), files()),
        ExternalOver::Tree { fresh: false }
    );
    assert_eq!(view.retargets(), Some((at(100, 150), true)));
    assert_eq!(view.drag_label(), None, "no label for files");
    assert!(view.drag_to(at(100, 150), Some("work".to_owned()), None));
    assert_eq!(
        view.external_drop(&frame, at(100, 150)),
        ExternalDrop::CopyInto("work".to_owned())
    );
    assert!(view.drag.is_none());
    assert_eq!(view.external_drop(&frame, at(100, 150)), ExternalDrop::Refused);
    assert_eq!(view.external_drop(&frame, at(100, 80)), ExternalDrop::Open);
    view.external_over(&frame, at(100, 150), files());
    assert!(view.external_leave() && !view.external_leave());
    let recent = view_of(no_notebook());
    assert!(recent.opens_at(&frame, at(100, 400)));
    assert!(!recent.opens_at(&frame, at(100, 20)), "the title takes no drop");
}

#[test]
fn messages_are_read_as_the_views_input() {
    let point = |x: i16, y: i16| ((y as u16 as usize) << 16 | x as u16 as usize) as isize;
    assert_eq!(
        decode(WM_MOUSEMOVE, 1, point(-3, 7), false),
        Input::Move { at: at(-3, 7), left: true }
    );
    assert_eq!(
        decode(WM_MOUSEMOVE, 2, point(3, 7), false),
        Input::Move { at: at(3, 7), left: false }
    );
    assert_eq!(decode(WM_CONTEXTMENU, 0, -1, false), Input::Menu(None));
    assert_eq!(decode(WM_CONTEXTMENU, 0, point(3, 7), false), Input::Menu(Some(at(3, 7))));
    assert_eq!(decode(WM_TIMER, DRAG_TIMER, 0, false), Input::DragTick);
    assert_eq!(decode(WM_TIMER, DRAG_TIMER + 1, 0, false), Input::Other);
    assert_eq!(decode(WM_KEYDOWN, 0x71, 0, false), Input::Key(0x71));
    assert_eq!(decode(WM_KEYDOWN, 0x71, 0, true), Input::Swallowed);
    assert_eq!(decode(WM_CHAR, 'é' as usize, 0, false), Input::Letter('é' as u32));
    assert_eq!(decode(WM_CHAR, 27, 0, false), Input::Other, "a control character");
    assert_eq!(decode(WM_CHAR, 0xD800, 0, false), Input::Other, "half a surrogate pair");
    assert_eq!(decode(WM_CHAR, 27, 0, true), Input::Swallowed);
    assert_eq!(decode(WM_MOUSEWHEEL, 0xff88_0000, 0, false), Input::Wheel(-120));
    assert_eq!(decode(WM_PAINT, 0, 0, false), Input::Other);
}

#[test]
fn the_pointer_hovers_what_it_is_on_until_it_leaves() {
    let mut view = tree_view();
    let frame = frame();
    assert_eq!(view.mouse_move(&frame, at(250, 170)), Moved::Hover { changed: true });
    assert_eq!((view.list.hover, view.hover_pin), (Some(1), true));
    assert_eq!(view.mouse_move(&frame, at(251, 171)), Moved::Hover { changed: false });
    view.mouse_move(&frame, at(240, 70));
    assert_eq!((view.list.hover, view.editors.list.hover), (None, Some(0)));
    assert!(view.editors.hover_close && !view.hover_pin);
    view.mouse_move(&frame, at(150, 120));
    assert_eq!(view.hover, Some(Hit::Header(HeaderButton::Favorite)));
    view.mouse_leave();
    assert_eq!((view.hover, view.editors.list.hover), (None, None));
}

#[test]
fn a_middle_click_closes_the_tab_it_was_pressed_and_released_on() {
    let mut view = tree_view();
    let frame = frame();
    view.middle_down(&frame, at(100, 70));
    assert_eq!(view.middle_up(&frame, at(110, 80)), Some(DocumentId(1)));
    assert_eq!(view.middle_up(&frame, at(110, 80)), None, "no press before it");
    view.middle_down(&frame, at(100, 70));
    assert_eq!(view.middle_up(&frame, at(100, 100)), None, "released on another tab");
    view.middle_down(&frame, at(100, 150));
    assert_eq!(view.middle_up(&frame, at(100, 150)), None, "not a tab");
}

#[test]
fn the_wheel_scrolls_the_section_under_the_pointer() {
    let many: Vec<TreeRow> = (0..100).map(|index| note(&format!("{index}.md"), 0)).collect();
    let mut view = view_of(snapshot(Mode::Tree, many));
    let frame = frame();
    assert_eq!(view.wheel(-120, 3, at(100, 300), &frame), Wheeled::Tree { moved: true });
    assert_eq!(view.list.top, 3);
    assert_eq!(view.wheel(-120, 3, at(100, 70), &frame), Wheeled::Editors { moved: false });
    assert_eq!(view.wheel(120, 3, at(-5, -5), &frame), Wheeled::Tree { moved: true });
    assert_eq!(view.list.top, 0);
}

#[test]
fn tips_name_the_buttons_and_a_cut_off_row() {
    let mut view = tree_view();
    let frame = frame();
    let tips = view.tooltip_tools(&frame, 0);
    assert_eq!(tips.len(), 6);
    let text = |id: usize| tips.iter().find(|tip| tip.id == id).unwrap().text.clone();
    assert_eq!(text(TOOL_TITLE), "C:\\Notes");
    assert_eq!(text(TOOL_FAVORITE), "Add to favorites");
    assert_eq!(text(TOOL_ROW), "");
    view.mouse_move(&frame, at(100, 70));
    let tips = view.tooltip_tools(&frame, 0);
    let row = tips.iter().find(|tip| tip.id == TOOL_ROW).unwrap();
    assert_eq!((row.text.as_str(), row.rect), ("C:\\Notes\\b.md", rect(0, 64, 260, 90)));
    view.mouse_move(&frame, at(100, 170));
    assert_eq!(view.row_tip(&frame, 178), None, "the name fits");
    assert_eq!(
        view.row_tip(&frame, 179),
        Some((rect(58, 168, 236, 194), "a.md".to_owned()))
    );
    let mut recent = view_of(no_notebook());
    recent.mouse_move(&frame, at(20, 290));
    assert_eq!(
        recent.row_tip(&frame, 0),
        Some((rect(0, 284, 260, 310), "D:\\Notes".to_owned()))
    );
    let tips = recent.tooltip_tools(&frame, 0);
    let favorite = tips.iter().find(|tip| tip.id == TOOL_FAVORITE).unwrap();
    assert_eq!(favorite.text, "", "no notebook, no button");
}

fn no_edit() -> InlinePaint {
    InlinePaint {
        icon: TreeItem::Note(None),
        field: None,
        problem: None,
        message: rect(0, 0, 0, 0),
    }
}

fn texts(drawn: &[DrawStep]) -> Vec<&str> {
    drawn
        .iter()
        .filter_map(|step| match step {
            Step::Text { text, font, .. } if *font != Font::Glyph => Some(text.as_str()),
            _ => None,
        })
        .collect()
}

#[test]
fn the_sections_the_tree_and_the_states_are_painted() {
    let palette = Palette::neutral();
    let frame = frame();
    let named = Snapshot { name: "stra\u{df}e \u{e9}t\u{e9}".to_owned(), ..snapshot(Mode::Tree, rows()) };
    let mut view = view_of(named);
    let drawn = view.paint(&frame, &palette, false, None, &no_edit());
    assert_eq!(
        texts(&drawn),
        [
            "NOTEBOOK",
            "OPEN EDITORS  2",
            "tab 1",
            "tab 2",
            "\u{25CF}",
            "STRASSE \u{c9}T\u{c9}",
            "work",
            "a.md",
            "old",
            "b.md",
        ]
    );
    assert_eq!(
        drawn[0],
        Step::Text {
            text: "NOTEBOOK".to_owned(),
            rect: rect(12, 0, 260, 38),
            font: Font::Bold,
            color: palette.muted_foreground,
            align: Align::Line,
        }
    );

    let mut recent = view_of(no_notebook());
    let drawn = recent.paint(&frame, &palette, false, None, &no_edit());
    assert_eq!(
        texts(&drawn)[5..],
        [
            "NO NOTEBOOK",
            "Open a notebook to see its notes.",
            "Open notebook\u{2026}",
            "RECENT",
            "Notes  C:\\",
            "Work",
        ]
    );
    let mut empty = view_of(snapshot(Mode::Empty, vec![]));
    let drawn = empty.paint(&frame, &palette, false, None, &no_edit());
    assert_eq!(texts(&drawn)[5..], ["NOTES", "No notes in Notes yet.", "New note"]);
    let mut failed = view_of(snapshot(Mode::Failed, vec![]));
    let drawn = failed.paint(&frame, &palette, false, None, &no_edit());
    assert_eq!(texts(&drawn)[5..], ["NOTES", LOAD_FAILED, "Retry", "Open notebook\u{2026}"]);
    let mut loading = view_of(snapshot(Mode::Loading, vec![]));
    let drawn = loading.paint(&frame, &palette, false, None, &no_edit());
    assert_eq!(texts(&drawn)[5..], ["NOTES", "Loading\u{2026}"]);
    let collapsed = Snapshot { root_expanded: false, ..snapshot(Mode::Failed, vec![]) };
    let drawn = view_of(collapsed).paint(&frame, &palette, false, None, &no_edit());
    assert_eq!(texts(&drawn)[5..], ["NOTES"], "a collapsed root hides the state too");
}

#[test]
fn the_keyboard_selection_is_outlined_and_an_edit_framed() {
    let palette = Palette::neutral();
    let frame = frame();
    let mut view = tree_view();
    view.cursor = Cursor::Root;
    let fills = |drawn: &[DrawStep], color: u32| -> Vec<Rect> {
        drawn
            .iter()
            .filter_map(|step| match step {
                Step::Fill { rect, color: c } if *c == color => Some(*rect),
                _ => None,
            })
            .collect()
    };
    let focused = view.paint(&frame, &palette, true, None, &no_edit());
    let outline = fills(&focused, palette.selection_background);
    for edge in [rect(0, 116, 260, 117), rect(0, 141, 260, 142), rect(0, 116, 1, 142)] {
        assert!(outline.contains(&edge), "{edge:?}");
    }
    let drawn = view.paint(&frame, &palette, false, None, &no_edit());
    assert!(!fills(&drawn, palette.selection_background).contains(&rect(0, 116, 260, 117)));

    view.inline = Inline { row: Some(3), draft: None, wants_draft: false };
    let edit = InlinePaint {
        icon: TreeItem::Note(Some("md".to_owned())),
        field: Some(rect(46, 222, 236, 244)),
        problem: Some("already there".to_owned()),
        message: rect(46, 244, 236, 270),
    };
    let drawn = view.paint(&frame, &palette, false, None, &edit);
    assert!(fills(&drawn, palette.error_foreground).contains(&rect(46, 222, 236, 244)));
    assert!(fills(&drawn, palette.editor_background).contains(&rect(47, 223, 235, 243)));
    assert!(matches!(
        drawn.last(),
        Some(Step::Text { text, rect: inner, align: Align::Wrapped, .. })
            if text == "already there" && *inner == rect(50, 248, 232, 266)
    ));
    assert!(!texts(&drawn).contains(&"b.md"), "the field covers the edited row's name");

    let mut view = tree_view();
    view.arm_drag(DragSource::Row(RowKind::Note("b.md".to_owned())), at(100, 230), false);
    view.drag_move(true, true);
    view.drag_to(at(100, 150), Some("work".to_owned()), None);
    let band = Some(Highlight::Rows { start: 0, end: 3 });
    let drawn = view.paint(&frame, &palette, false, band, &no_edit());
    assert_eq!(
        fills(&drawn, palette.inactive_selection_background),
        [rect(0, 64, 260, 90), rect(0, 142, 260, 220)],
        "the active tab's row and the band"
    );
    assert!(drawn.iter().any(|step| matches!(
        step,
        Step::Icon { item: Item::Folder { expanded: true }, .. }
    )));
}

#[test]
fn screen_readers_are_told_of_every_part_in_order() {
    let mut view = tree_view();
    let frame = frame();
    assert_eq!(view.accessible_count(&frame), 4 + 1 + 2 + 1 + 4);
    let name = |view: &NotebookView, index: usize| {
        view.accessible_item(index, &frame, true).map(|item| item.name)
    };
    assert_eq!(name(&view, 0).as_deref(), Some("Add to favorites"));
    assert_eq!(name(&view, 4).as_deref(), Some("Open editors, 2"));
    assert_eq!(name(&view, 6).as_deref(), Some("tab 2, open editor, modified"));
    assert_eq!(name(&view, 7).as_deref(), Some("Notes"));
    assert_eq!(name(&view, 9).as_deref(), Some("a.md"));
    assert_eq!(name(&view, 12), None);
    assert_eq!(view.accessible_hit(at(150, 120), &frame), Some(0));
    assert_eq!(view.accessible_hit(at(30, 120), &frame), Some(7));
    assert_eq!(view.accessible_hit(at(100, 70), &frame), Some(5));
    assert_eq!(view.accessible_hit(at(100, 150), &frame), Some(8));
    assert_eq!(view.accessible_hit(at(100, 20), &frame), None);
    assert_eq!(view.accessible_current(&frame), None);
    view.accessible_select(10, &frame);
    assert_eq!((view.cursor, view.list.selected), (Cursor::Tree, Some(2)));
    assert_eq!(view.accessible_current(&frame), Some(10));
    view.accessible_select(6, &frame);
    assert_eq!(view.cursor, Cursor::Editor(1));
    view.accessible_select(2, &frame);
    assert_eq!(view.cursor, Cursor::Editor(1), "a button is not selected");
    assert_eq!(view.child_at(&frame, 8), Some(NotebookChild::Row(0)));
    assert_eq!(view.child_index(&frame, NotebookChild::Editor(1)), Some(6));
    assert_eq!(view.accessible_identity(0, &frame), None, "a button has none");
    let identity = view.accessible_identity(11, &frame);
    assert!(identity.is_some() && identity != view.accessible_identity(9, &frame));
    let mut shorter = rows();
    shorter.remove(1);
    let generation = view.accessible_generation();
    view.apply(snapshot(Mode::Tree, shorter), None, &frame);
    assert_ne!(view.accessible_generation(), generation);
    assert_eq!(view.accessible_identity(10, &frame), identity, "b.md, wherever it is");
}

#[test]
fn the_draft_row_is_left_out_of_what_is_said() {
    let mut view = tree_view();
    let frame = frame();
    let mut drafted = rows();
    drafted.insert(1, TreeRow { kind: RowKind::Draft, ..note("", 1) });
    view.inline.wants_draft = true;
    let edit = Inline { row: Some(1), draft: Some(1), wants_draft: true };
    view.apply(snapshot(Mode::Tree, drafted), Some(edit), &frame);
    assert_eq!(view.accessible_count(&frame), 12);
    let name = |index: usize| view.accessible_item(index, &frame, true).map(|item| item.name);
    assert_eq!(name(8).as_deref(), Some("work"));
    assert_eq!(name(9).as_deref(), Some("a.md"));
    assert_eq!(view.accessible_hit(at(100, 170), &frame), None);
    assert_eq!(view.accessible_hit(at(100, 200), &frame), Some(9));
}
