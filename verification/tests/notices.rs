use fastpad::document::{Document, DocumentId};
use fastpad::geometry::Rect;
use fastpad::notification::NotificationCenter;
use fastpad::open_editors::{accessible_name, close_rect, editor_rows, tooltip, EditorRow, OpenEditors};
use fastpad::status::{status_height, status_text};

#[test]
fn pushed_notifications_accumulate_in_order_until_dismissed() {
    let mut center = NotificationCenter::new();
    assert!(center.is_empty());

    center.push("first".to_owned());
    center.push("second".to_owned());
    assert_eq!(center.len(), 2);
    assert_eq!(center.pending()[0].message, "first");
    assert_eq!(center.pending()[1].message, "second");

    center.dismiss_all();
    assert!(center.is_empty());
}

#[test]
fn status_text_is_hidden_without_notifications_and_counts_extras() {
    let mut center = NotificationCenter::new();
    assert_eq!(status_text(&center), None);
    center.push("a".to_owned());
    assert_eq!(status_text(&center).as_deref(), Some("a (click to dismiss)"));
    center.push("b".to_owned());
    center.push("c".to_owned());
    assert_eq!(
        status_text(&center).as_deref(),
        Some("a (+2 more, click to dismiss)")
    );
}

#[test]
fn the_status_line_scales_and_never_shrinks_below_its_plain_height() {
    assert_eq!(status_height(96), 22);
    assert_eq!(status_height(144), 33);
    assert_eq!(status_height(0), 22);
}

fn document(id: u64, path: Option<&str>, dirty: bool) -> Document {
    let mut document = Document::untitled(DocumentId(id), dirty);
    document.path = path.map(str::to_owned);
    document
}

#[test]
fn a_row_per_tab_in_order_named_by_file_or_label() {
    let mut untitled = document(3, None, false);
    untitled.first_line_label = Some("Groceries".to_owned());
    let docs = vec![
        document(1, Some(r"C:\n\todo.md"), false),
        document(2, Some(r"D:\x\draft.txt"), true),
        untitled,
        document(4, None, false),
    ];
    let rows = editor_rows(&docs, Some(DocumentId(2)));
    let names: Vec<_> = rows.iter().map(|row| row.name.as_str()).collect();
    assert_eq!(names, ["todo.md", "draft.txt", "Groceries", "Untitled"]);
    assert_eq!(
        rows.iter().map(|row| (row.dirty, row.active)).collect::<Vec<_>>(),
        [(false, false), (true, true), (false, false), (false, false)]
    );
    assert_eq!(rows[1].path.as_deref(), Some(r"D:\x\draft.txt"));
}

#[test]
fn a_row_is_named_by_its_last_component() {
    let docs = vec![
        document(1, Some("a/b/"), false),
        document(2, Some(r"a\."), false),
        document(3, Some(".."), false),
        document(4, Some("C:todo.md"), false),
    ];
    let rows = editor_rows(&docs, None);
    let names: Vec<_> = rows.iter().map(|row| row.name.as_str()).collect();
    assert_eq!(names, ["b", "a", "..", "todo.md"]);
}

#[test]
fn names_tips_and_the_close_box() {
    let row = EditorRow {
        id: DocumentId(1),
        name: "draft.txt".into(),
        path: Some(r"D:\x\draft.txt".to_owned()),
        dirty: true,
        active: false,
    };
    assert_eq!(accessible_name(&row), "draft.txt, open editor, modified");
    assert_eq!(tooltip(&row), r"D:\x\draft.txt");
    let clean = EditorRow { dirty: false, path: None, ..row };
    assert_eq!(accessible_name(&clean), "draft.txt, open editor");
    assert_eq!(tooltip(&clean), "draft.txt");
    let rect = Rect { left: 0, top: 10, right: 200, bottom: 36 };
    let close = close_rect(rect, 96);
    assert_eq!((close.left, close.right, close.top), (176, 200, 10));
}

#[test]
fn set_rows_reports_changes_and_selects_the_active_row() {
    let docs = vec![
        document(1, Some(r"C:\a.md"), false),
        document(2, Some(r"C:\b.md"), false),
    ];
    let mut editors = OpenEditors::new(26);
    assert!(editors.set_rows(editor_rows(&docs, Some(DocumentId(2)))));
    assert_eq!((editors.list.count, editors.list.selected), (2, Some(1)));
    assert!(!editors.set_rows(editor_rows(&docs, Some(DocumentId(2)))));
    let respelled = vec![
        document(1, Some("c:/a.md"), false),
        document(2, Some(r"C:\.\b.md"), false),
    ];
    assert!(!editors.set_rows(editor_rows(&respelled, Some(DocumentId(2)))), "the same paths");
    assert!(editors.set_rows(editor_rows(&docs, Some(DocumentId(1)))));
    assert_eq!(editors.list.selected, Some(0));
}
