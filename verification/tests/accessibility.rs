use fastpad::geometry::{Point, Rect};
use fastpad::row_list::RowListState;
use fastpad::sidebar_accessibility::{
    button_item, child_count, child_id, click_point, default_action, events_between, hit_test,
    identity_of, is_offscreen, list_item, location, navigate, post_action, row_rect, run_action,
    selection_action, target, tree_item, AccessibleItem, AccessibleMark, Action, LiveCalls, Named,
    Reply, EVENT_OBJECT_FOCUS, EVENT_OBJECT_NAMECHANGE, EVENT_OBJECT_REORDER,
    EVENT_OBJECT_SELECTION, EVENT_OBJECT_STATECHANGE, NAVDIR_FIRSTCHILD, NAVDIR_NEXT,
    NAVDIR_PREVIOUS, ROLE_SYSTEM_LIST, ROLE_SYSTEM_LISTITEM, ROLE_SYSTEM_OUTLINEITEM,
    SELFLAG_TAKEFOCUS, SELFLAG_TAKESELECTION, STATE_COLLAPSED, STATE_EXPANDED, STATE_FOCUSED,
    STATE_OFFSCREEN, STATE_PRESSED, STATE_SELECTABLE, STATE_SELECTED,
};
use fastpad::tree::{RowKind, TreeRow};
use std::cell::Cell;

const ROW: Rect = Rect { left: 0, top: 0, right: 100, bottom: 26 };

/// A list of ten thousand notes that counts the items it was asked to build.
struct Fake {
    built: Cell<usize>,
}

impl Fake {
    fn container(&self) -> (String, u32) {
        ("Fake notes".to_owned(), ROLE_SYSTEM_LIST)
    }

    fn count(&self) -> usize {
        10_000
    }

    fn item(&self, index: usize) -> Option<AccessibleItem> {
        self.built.set(self.built.get() + 1);
        (index < 10_000)
            .then_some(index)
            .map(|index| list_item(&format!("Note {index}"), index == 3, false, ROW, true))
    }

    fn current(&self) -> Option<usize> {
        Some(3)
    }

    /// The name of child `id`, as a screen reader asks for it.
    fn name(&self, id: i32) -> Option<String> {
        match target(Some(id)) {
            Named::Window => Some(self.container().0),
            Named::Child(index) => self.item(index).map(|item| item.name),
            Named::Nothing => None,
        }
    }
}

fn fake() -> Fake {
    Fake { built: Cell::new(0) }
}

fn row(kind: RowKind, name: &str, depth: u16, pinned: bool, expanded: bool) -> TreeRow {
    TreeRow { kind, depth, name: name.to_owned(), pinned, expanded }
}

#[test]
fn a_ten_thousand_row_list_is_counted_without_building_its_items() {
    let list = fake();
    assert_eq!(child_count(list.count()), 10_000);
    assert_eq!(list.built.get(), 0);
    assert_eq!(list.name(10_000).as_deref(), Some("Note 9999"));
    assert_eq!(list.built.get(), 1);
    assert_eq!(list.name(10_001), None);
}

#[test]
fn the_container_and_children_report_their_roles_states_and_selection() {
    let list = fake();
    assert_eq!(target(Some(0)), Named::Window);
    assert_eq!(list.container().1, ROLE_SYSTEM_LIST);
    assert_eq!(target(Some(4)), Named::Child(3));
    let item = list.item(3).unwrap();
    assert_eq!(item.role, ROLE_SYSTEM_LISTITEM);
    assert_ne!(item.state & STATE_SELECTED, 0);
    assert_ne!(item.state & STATE_SELECTABLE, 0);
    assert_eq!(child_id(list.current()), 4);
    assert_eq!(list.name(0).as_deref(), Some("Fake notes"));
    assert_eq!(navigate(NAVDIR_NEXT, Some(1), list.count()), Reply::Id(2));
    assert_eq!(navigate(NAVDIR_NEXT, Some(10_000), list.count()), Reply::Nothing);
}

#[test]
fn tree_rows_are_outline_items_with_expansion_pin_and_unsaved_in_their_names() {
    let folder = tree_item(
        &row(RowKind::Folder("Work".to_owned()), "Work", 0, false, true),
        false,
        false,
        ROW,
        true,
    );
    assert_eq!(folder.role, ROLE_SYSTEM_OUTLINEITEM);
    assert_ne!(folder.state & STATE_EXPANDED, 0);
    assert_eq!(folder.state & STATE_COLLAPSED, 0);
    assert_eq!(folder.value, "0");
    let closed = tree_item(
        &row(RowKind::Folder("Old".to_owned()), "Old", 1, false, false),
        false,
        false,
        ROW,
        true,
    );
    assert_ne!(closed.state & STATE_COLLAPSED, 0);
    assert_eq!(closed.value, "1");

    let pinned = tree_item(
        &row(RowKind::Note("a.md".to_owned()), "a", 1, true, false),
        true,
        true,
        ROW,
        false,
    );
    assert_eq!(pinned.name, "a, pinned");
    assert_eq!(pinned.state & (STATE_EXPANDED | STATE_COLLAPSED), 0);
    assert_ne!(pinned.state & STATE_SELECTED, 0);
    assert_ne!(pinned.state & STATE_FOCUSED, 0);
    assert_ne!(pinned.state & STATE_OFFSCREEN, 0);
    assert!(is_offscreen(&pinned) && !is_offscreen(&closed));

    let unsaved = tree_item(
        &row(RowKind::Unsaved(7), "Groceries", 0, false, false),
        false,
        true,
        ROW,
        true,
    );
    assert_eq!(unsaved.name, "Groceries, unsaved");
    assert_eq!(unsaved.state & STATE_FOCUSED, 0, "focus follows selection only");
}

#[test]
fn rows_scrolled_out_of_the_list_are_offscreen() {
    let mut list = RowListState::new(26);
    list.set_count(100);
    list.top = 10;
    let area = Rect { left: 0, top: 38, right: 200, bottom: 38 + 26 * 5 };
    let (rect, visible) = row_rect(area, &list, 10);
    assert_eq!((rect.top, rect.bottom, visible), (38, 64, true));
    assert!(!row_rect(area, &list, 9).1);
    assert!(!row_rect(area, &list, 15).1);
    assert_eq!(row_rect(area, &list, 12).0.top, 38 + 52);
}

#[test]
fn events_announce_selection_focus_state_and_reorders() {
    let mark = |current, state, name: &str, count| AccessibleMark {
        current,
        state,
        name: name.to_owned(),
        count,
        ..AccessibleMark::default()
    };
    assert_eq!(
        events_between(&mark(Some(1), 0, "a", 5), &mark(Some(2), 0, "b", 5), true),
        vec![(EVENT_OBJECT_SELECTION, 3), (EVENT_OBJECT_FOCUS, 3)]
    );
    assert_eq!(
        events_between(&mark(Some(1), 0, "a", 5), &mark(Some(2), 0, "b", 5), false),
        vec![(EVENT_OBJECT_SELECTION, 3)]
    );
    assert_eq!(
        events_between(
            &mark(Some(0), STATE_COLLAPSED, "Work", 5),
            &mark(Some(0), STATE_EXPANDED, "Work", 9),
            true
        ),
        vec![(EVENT_OBJECT_REORDER, 0), (EVENT_OBJECT_STATECHANGE, 1)]
    );
    assert_eq!(
        events_between(
            &mark(Some(0), 0, "a", 5),
            &mark(Some(0), 0, "a, pinned", 5),
            true
        ),
        vec![(EVENT_OBJECT_STATECHANGE, 1), (EVENT_OBJECT_NAMECHANGE, 1)]
    );
    assert!(events_between(&mark(None, 0, "", 0), &mark(None, 0, "", 0), true).is_empty());
}

#[test]
fn a_pin_that_re_sorts_the_row_raises_reorder_selection_and_state_change() {
    let before = AccessibleMark {
        current: Some(3),
        name: "b".to_owned(),
        count: 5,
        identity: Some(7),
        generation: 1,
        ..AccessibleMark::default()
    };
    let after = AccessibleMark {
        current: Some(0),
        name: "b, pinned".to_owned(),
        generation: 2,
        ..before.clone()
    };
    assert_eq!(
        events_between(&before, &after, true),
        vec![
            (EVENT_OBJECT_REORDER, 0),
            (EVENT_OBJECT_SELECTION, 1),
            (EVENT_OBJECT_FOCUS, 1),
            (EVENT_OBJECT_STATECHANGE, 1),
            (EVENT_OBJECT_NAMECHANGE, 1),
        ]
    );
    // Another row now at the same index is a new selection, not a state change.
    let other = AccessibleMark { identity: Some(8), ..before.clone() };
    assert_eq!(
        events_between(&before, &other, false),
        vec![(EVENT_OBJECT_SELECTION, 4)]
    );
}

#[test]
fn a_query_message_with_an_unknown_pointer_is_ignored() {
    let mut calls = LiveCalls::new();
    assert!(!calls.is_live(0x10));
    assert!(!calls.is_live(usize::MAX));
    calls.register(0x10);
    assert!(calls.is_live(0x10));
    assert!(!calls.is_live(usize::MAX));
    calls.unregister(0x10);
    assert!(!calls.is_live(0x10));
}

#[test]
fn default_actions_follow_the_item_kind() {
    let button = button_item("Search", true, false, ROW);
    assert_eq!(default_action(&button), "Press");
    assert_ne!(button.state & STATE_PRESSED, 0);
    let folder = tree_item(
        &row(RowKind::Folder("w".to_owned()), "w", 0, false, false),
        false,
        false,
        ROW,
        true,
    );
    assert_eq!(default_action(&folder), "Expand");
    let note = list_item("n", false, false, ROW, true);
    assert_eq!(default_action(&note), "Open");
}

#[test]
fn navigation_leads_to_a_neighbour_and_back_and_refuses_a_stranger() {
    assert_eq!(navigate(NAVDIR_FIRSTCHILD, Some(0), 5), Reply::Id(1));
    assert_eq!(navigate(NAVDIR_FIRSTCHILD, Some(0), 0), Reply::Nothing);
    for id in 1..5 {
        assert_eq!(navigate(NAVDIR_NEXT, Some(id), 5), Reply::Id(id + 1));
        assert_eq!(navigate(NAVDIR_PREVIOUS, Some(id + 1), 5), Reply::Id(id));
    }
    assert_eq!(navigate(NAVDIR_NEXT, Some(6), 5), Reply::Invalid);
    assert_eq!(navigate(NAVDIR_NEXT, None, 5), Reply::Invalid);
    assert_eq!(navigate(99, Some(1), 5), Reply::Invalid);
}

#[test]
fn actions_reach_only_children_that_exist() {
    assert_eq!(selection_action(SELFLAG_TAKEFOCUS | SELFLAG_TAKESELECTION), Some(Action::Focus));
    assert_eq!(selection_action(SELFLAG_TAKESELECTION), Some(Action::Select));
    assert_eq!(selection_action(8), None);
    assert_eq!(post_action(3, 3), Some(2));
    assert_eq!(post_action(4, 3), None);
    assert_eq!(post_action(0, 3), None);
    let plan = run_action(2, 3, Action::Focus).unwrap();
    assert!(plan.select && plan.focus_window && !plan.activate);
    assert_eq!(run_action(3, 3, Action::Activate), None);
}

#[test]
fn points_and_places_are_moved_between_the_window_and_the_screen() {
    let client = Rect { left: 0, top: 0, right: 100, bottom: 50 };
    assert_eq!(hit_test(Point { x: 100, y: 0 }, client, Some(2)), Reply::Nothing);
    assert_eq!(hit_test(Point { x: 99, y: 0 }, client, Some(2)), Reply::Id(3));
    assert_eq!(hit_test(Point { x: 99, y: 0 }, client, None), Reply::Id(0));
    let (corner, size) = location(ROW, Point { x: 7, y: -3 });
    assert_eq!((corner.x, corner.y, size.cx, size.cy), (7, -3, 100, 26));
    let middle = click_point(Rect { left: -5, top: 10, right: 0, bottom: 13 });
    assert_eq!((middle.x, middle.y), (-2, 11), "rounded towards zero");
}

#[test]
fn an_identity_stays_with_its_kind_and_detail() {
    assert_eq!(identity_of("note", "a.md"), identity_of("note", "a.md"));
    assert_ne!(identity_of("note", "a.md"), identity_of("folder", "a.md"));
    assert_ne!(identity_of("note", "a.md"), identity_of("note", "b.md"));
    assert_ne!(identity_of("ab", "c"), identity_of("a", "bc"));
}
