use fastpad::document::DocumentId;
use fastpad::drawing::{Align, DrawStep, Font, Item, Step, TreeItem};
use fastpad::geometry::Rect;
use fastpad::palette::Palette;
use fastpad::row_list::{RowListState, RowLook};
use fastpad::tree::{ancestors, flatten, parent_index, NoteTree, RowKind, TreeRow};
use fastpad::tree_paint::{
    band_rect, drag_item, drag_label_colors, drag_label_size, draw_recent_row, draw_tree_row,
    follow, is_dragged_row, paint_band, paint_drag_label, row_parts, state_layout, DragSource,
    Highlight, RecentName, TypeAhead, GLYPH_BOX,
};
use std::time::{Duration, Instant};

fn edges(rect: Rect) -> (i32, i32, i32, i32) {
    (rect.left, rect.top, rect.right, rect.bottom)
}

fn row(kind: RowKind, depth: u16) -> TreeRow {
    TreeRow { kind, depth, name: String::new(), pinned: false, expanded: false }
}

const LOOK: RowLook = RowLook { selected: false, hover: false, focused: false };

/// The color that the fills among `steps` leave at a pixel of a canvas of color `base`.
fn pixel(steps: &[DrawStep], base: u32, x: i32, y: i32) -> u32 {
    let mut color = base;
    for step in steps {
        if let Step::Fill { rect, color: fill } = step {
            if rect.left <= x && x < rect.right && rect.top <= y && y < rect.bottom {
                color = *fill;
            }
        }
    }
    color
}

#[test]
fn a_row_indents_by_depth_and_keeps_the_pin_at_the_right_edge() {
    let rect = Rect { left: 0, top: 26, right: 260, bottom: 52 };
    let top = row_parts(rect, 0, 96);
    let deep = row_parts(rect, 3, 96);
    assert_eq!(top.chevron.left, 8);
    assert_eq!(deep.chevron.left, 8 + 3 * 12);
    assert_eq!(edges(top.pin), (236, 26, 260, 52));
    assert_eq!(edges(deep.pin), edges(top.pin));
    assert!(deep.name.left >= deep.icon.right);
    assert_eq!(deep.name.right, deep.pin.left);
    let cramped = row_parts(Rect { left: 0, top: 0, right: 40, bottom: 26 }, 9, 96);
    assert!(cramped.name.left <= cramped.name.right);
    assert_eq!(row_parts(rect, 1, 192).chevron.left, 16 + 24);
}

#[test]
fn row_parts_stay_inside_a_row_at_the_edge_of_the_screens() {
    for (left, right) in [
        (i32::MAX - 300, i32::MAX),
        (i32::MIN, i32::MIN + 300),
        (i32::MIN, i32::MIN),
        (i32::MAX, i32::MAX),
        (i32::MIN, i32::MAX),
    ] {
        let rect = Rect { left, top: 26, right, bottom: 52 };
        for depth in [0, 3, u16::MAX] {
            let parts = row_parts(rect, depth, 960);
            assert!(left <= parts.chevron.left && parts.chevron.left <= parts.chevron.right);
            assert_eq!(parts.chevron.right, parts.icon.left);
            assert!(parts.icon.left <= parts.icon.right && parts.icon.right <= parts.name.left);
            assert!(parts.name.left <= parts.name.right);
            assert_eq!(parts.name.right, parts.pin.left);
            assert!(parts.pin.left <= right);
            assert_eq!((parts.pin.right, parts.pin.top, parts.pin.bottom), (right, 26, 52));
        }
    }
}

#[test]
fn a_row_is_known_by_its_paths_components() {
    let rows = [row(RowKind::Folder("a".into()), 0), row(RowKind::Note(r"a\b.md".into()), 1)];
    let rows = rows.to_vec();
    let kind = RowKind::Note("a/./b.md".into());
    assert_eq!(follow(&rows, Some(&kind), None), Some(1));
    assert!(is_dragged_row(Some(&DragSource::Row(kind)), &rows, 1));
    let folder = RowKind::Folder("a/b.md".into());
    assert_eq!(follow(&rows, Some(&folder), Some(0)), Some(0), "a note is no folder");
}

#[test]
fn the_no_notebook_state_lists_recent_notebooks_below_its_button() {
    let body = Rect { left: 0, top: 38, right: 260, bottom: 600 };
    let layout = state_layout(body, 96);
    assert!(layout.message.bottom <= layout.button.top);
    assert!(layout.button.bottom <= layout.label.top);
    assert_eq!(layout.list.top, layout.label.bottom);
    assert_eq!(layout.list.bottom, 600);
    let short = state_layout(Rect { left: 0, top: 38, right: 260, bottom: 60 }, 96);
    assert!(short.list.top <= short.list.bottom);
}

#[test]
fn a_vanished_selection_moves_to_the_row_that_took_its_place() {
    let rows = vec![
        row(RowKind::Folder("sub".into()), 0),
        row(RowKind::Note(r"sub\a.md".into()), 1),
        row(RowKind::Note("c.md".into()), 0),
    ];
    let a = RowKind::Note(r"sub\a.md".into());
    assert_eq!(follow(&rows, Some(&a), Some(7)), Some(1), "found by path first");
    let gone = RowKind::Note(r"sub\b.md".into());
    assert_eq!(follow(&rows, Some(&gone), Some(2)), Some(2));
    assert_eq!(follow(&rows, Some(&gone), Some(9)), Some(2));
    assert_eq!(follow(&vec![], Some(&gone), Some(1)), None);
    assert_eq!(follow(&rows, None, Some(1)), None, "nothing selected stays so");
}

#[test]
fn type_ahead_extends_the_prefix_within_a_second_and_starts_over_after() {
    let start = 5_000;
    let mut typed = TypeAhead::default();
    assert_eq!(typed.push('n', start), "n");
    assert_eq!(typed.push('o', start + 900), "no");
    assert_eq!(typed.push('x', start + 2_000), "x");
}

#[test]
fn a_thousand_expanded_folders_of_ten_notes_flatten_within_a_frame() {
    let mut entries = Vec::new();
    for folder in 0..1_000 {
        entries.push(row(RowKind::Folder(format!("Folder {folder}")), 0));
        for note in 0..10 {
            entries.push(row(
                RowKind::Note(format!(r"Folder {folder}\Note {note}.md")),
                1,
            ));
        }
    }
    let tree = NoteTree { entries };
    // Stored in another case: case differences still match.
    let expanded: Vec<String> = (0..1_000).map(|folder| format!("folder {folder}")).collect();
    let started = Instant::now();
    let rows = flatten(&tree, &expanded);
    let elapsed = started.elapsed();
    assert_eq!(rows.len(), 11_000);
    assert!(rows[0].expanded);
    assert_eq!(flatten(&tree, &vec![]).len(), 1_000);
    assert!(elapsed < Duration::from_millis(16), "{elapsed:?}");
}

fn draw(row: &TreeRow, rect: Rect, palette: &Palette, dimmed: bool) -> Vec<DrawStep> {
    let mut drawn = Vec::new();
    draw_tree_row(&mut drawn, Some(row), rect, LOOK, palette, 96, false, None, dimmed);
    drawn
}

#[test]
fn a_clipped_icon_box_draws_part_of_the_icon_not_a_shrunken_one() {
    // At depth 0 and 96 DPI the chevron takes [8, 24), which leaves 6 px for the icon.
    let rect = Rect { left: 0, top: 0, right: 30, bottom: 22 };
    let icon_box = row_parts(rect, 0, 96).icon;
    assert!(
        icon_box.right - icon_box.left < GLYPH_BOX,
        "the row must actually clip the icon box for this test to mean anything"
    );
    let note = row(RowKind::Note("a.md".into()), 0);
    let drawn = draw(&note, rect, &Palette::neutral(), false);
    let icons: Vec<_> = drawn
        .iter()
        .filter_map(|step| match step {
            Step::Icon { rect, px, .. } => Some((*rect, *px)),
            _ => None,
        })
        .collect();
    assert_eq!(icons, [(icon_box, GLYPH_BOX)], "clipped, never resampled");
}

#[test]
fn the_drop_band_covers_the_folders_rows_in_view_or_the_whole_list() {
    let list_rect = Rect { left: 0, top: 100, right: 200, bottom: 230 };
    let mut state = RowListState::new(26);
    state.set_count(20);
    state.top = 3;
    let band = |highlight| band_rect(list_rect, &state, highlight);
    assert_eq!(band(Highlight::Root).map(edges), Some((0, 100, 200, 230)));
    assert_eq!(
        band(Highlight::Rows { start: 4, end: 6 }).map(edges),
        Some((0, 126, 200, 178))
    );
    assert_eq!(
        band(Highlight::Rows { start: 0, end: 5 }).map(edges),
        Some((0, 100, 200, 152)),
        "clipped at the top of the view"
    );
    assert_eq!(
        band(Highlight::Rows { start: 6, end: 20 }).map(edges),
        Some((0, 178, 200, 230)),
        "clipped at the bottom of the list"
    );
    assert!(band(Highlight::Rows { start: 0, end: 2 }).is_none(), "above the view");
}

#[test]
fn the_drop_band_fills_outside_high_contrast_and_outlines_in_it() {
    let band = Rect { left: 10, top: 10, right: 50, bottom: 30 };
    let palette = Palette::neutral();
    let mut drawn = Vec::new();
    paint_band(&mut drawn, band, &palette, 96, true);
    paint_band(&mut drawn, band, &palette, 96, false);
    assert_eq!(
        pixel(&drawn, palette.editor_background, 20, 15),
        palette.inactive_selection_background
    );

    let contrast = Palette { high_contrast: true, ..palette };
    let mut drawn = Vec::new();
    paint_band(&mut drawn, band, &contrast, 96, true);
    assert_eq!(
        pixel(&drawn, contrast.editor_background, 20, 15),
        contrast.editor_background,
        "no blend"
    );
    paint_band(&mut drawn, band, &contrast, 96, false);
    assert_eq!(
        pixel(&drawn, contrast.editor_background, 10, 20),
        contrast.selection_background
    );
    assert_eq!(
        pixel(&drawn, contrast.editor_background, 20, 15),
        contrast.editor_background
    );
}

#[test]
fn the_dragged_row_draws_its_name_dimmed() {
    let rect = Rect { left: 0, top: 0, right: 200, bottom: 22 };
    let name = row_parts(rect, 0, 96).name;
    let note = TreeRow { name: "dragged".into(), ..row(RowKind::Note("a.md".into()), 0) };
    let palette = Palette::neutral();
    let named = |dimmed: bool| -> Vec<DrawStep> {
        draw(&note, rect, &palette, dimmed)
            .into_iter()
            .filter(|step| match step {
                Step::Text { rect, .. } => *rect == name,
                _ => false,
            })
            .collect()
    };
    assert_ne!(named(true), named(false));
    assert_eq!(
        named(true),
        [Step::Text {
            text: "dragged".to_owned(),
            rect: name,
            font: Font::Text,
            color: palette.muted_foreground,
            align: Align::Line,
        }]
    );
}

#[test]
fn the_drag_label_has_a_border_a_fill_an_icon_and_its_name() {
    let size = drag_label_size(80, 96);
    assert_eq!((size.cx, size.cy), (8 + 16 + 6 + 80 + 8, 24));
    let check = |palette: Palette| {
        let (background, border, _) = drag_label_colors(&palette);
        let drawn = paint_drag_label(
            size,
            TreeItem::Note(Some("md".to_owned())),
            "notes.md",
            &palette,
            96,
        );
        assert_eq!(pixel(&drawn, 0, 0, 12), border, "the left border");
        assert_eq!(pixel(&drawn, 0, size.cx - 1, 0), border, "a corner");
        assert_eq!(
            pixel(&drawn, 0, size.cx - 3, 3),
            background,
            "the fill past the name"
        );
        let icon = drawn.iter().any(|step| match step {
            Step::Icon { rect, .. } => (rect.left, rect.right) == (8, 24),
            _ => false,
        });
        assert!(icon, "the icon");
        let name = drawn.iter().any(|step| match step {
            Step::Text { text, rect, .. } => {
                text == "notes.md" && (rect.left, rect.right) == (30, size.cx - 8)
            }
            _ => false,
        });
        assert!(name, "the name");
    };
    check(Palette::neutral());
    check(Palette { high_contrast: true, ..Palette::neutral() });
    let contrast = Palette { high_contrast: true, ..Palette::neutral() };
    assert_eq!(
        drag_label_colors(&contrast),
        (
            contrast.editor_background,
            contrast.editor_foreground,
            contrast.editor_foreground
        )
    );
}

#[test]
fn the_drag_label_shows_a_closed_folder_or_the_note_type() {
    assert_eq!(
        drag_item(&RowKind::Folder("work".into())),
        Some(TreeItem::Folder { expanded: false })
    );
    assert_eq!(
        drag_item(&RowKind::Note(r"work\a.json".into())),
        Some(TreeItem::Note(Some("json".to_owned())))
    );
    assert_eq!(drag_item(&RowKind::Draft), None);
}

#[test]
fn is_dragged_row_never_matches_with_no_drag_even_past_the_last_row() {
    let rows = vec![row(RowKind::Note("a.md".into()), 0)];
    assert!(!is_dragged_row(None, &rows, 0));
    assert!(!is_dragged_row(None, &rows, 5), "past the last row too");
    let dragged = DragSource::Row(RowKind::Note("a.md".into()));
    assert!(is_dragged_row(Some(&dragged), &rows, 0));
    assert!(!is_dragged_row(Some(&dragged), &rows, 5), "no row there");
    let other = DragSource::Row(RowKind::Note("b.md".into()));
    assert!(!is_dragged_row(Some(&other), &rows, 0), "a different row");
    let tab = DragSource::Tab { id: DocumentId(1), path: "a.md".to_owned() };
    assert!(!is_dragged_row(Some(&tab), &rows, 0), "a tab is no row");
}

#[test]
fn an_expanded_folder_shows_its_open_icon_and_a_pinned_note_a_filled_pin() {
    let rect = Rect { left: 0, top: 0, right: 200, bottom: 22 };
    let palette = Palette::neutral();
    let folder = TreeRow { expanded: true, ..row(RowKind::Folder("f".into()), 0) };
    let drawn = draw(&folder, rect, &palette, false);
    assert!(drawn.iter().any(|step| matches!(
        step,
        Step::Icon { item: Item::Folder { expanded: true }, .. }
    )));
    let glyphs = |row: &TreeRow| -> Vec<String> {
        draw(row, rect, &palette, false)
            .into_iter()
            .filter_map(|step| match step {
                Step::Text { text, font: Font::Glyph, .. } => Some(text),
                _ => None,
            })
            .collect()
    };
    assert_eq!(glyphs(&folder), ["\u{E70D}"]);
    let pinned = TreeRow { pinned: true, ..row(RowKind::Note("a.md".into()), 0) };
    assert_eq!(glyphs(&pinned), ["\u{E842}", "\u{E840}"]);
    assert_eq!(glyphs(&row(RowKind::Note("a.md".into()), 0)), Vec::<String>::new());
}

#[test]
fn the_row_after_the_last_says_that_not_every_note_is_listed() {
    let rect = Rect { left: 0, top: 0, right: 200, bottom: 22 };
    let palette = Palette::neutral();
    let mut drawn = Vec::new();
    draw_tree_row(&mut drawn, None, rect, LOOK, &palette, 96, false, None, false);
    assert_eq!(
        drawn,
        [Step::Text {
            text: "Showing the first 10,000 notes".to_owned(),
            rect: Rect { left: 8, ..rect },
            font: Font::Italic,
            color: palette.muted_foreground,
            align: Align::Line,
        }]
    );
}

#[test]
fn a_recent_notebooks_row_tells_two_of_one_name_apart() {
    let rect = Rect { left: 0, top: 0, right: 200, bottom: 22 };
    let texts = |hint: Option<&str>| -> Vec<String> {
        let name = RecentName { name: "Work".to_owned(), hint: hint.map(str::to_owned) };
        let mut drawn = Vec::new();
        draw_recent_row(&mut drawn, Some(&name), rect, LOOK, &Palette::neutral(), 96);
        drawn
            .into_iter()
            .filter_map(|step| match step {
                Step::Text { text, font: Font::Text, .. } => Some(text),
                _ => None,
            })
            .collect()
    };
    assert_eq!(texts(None), ["Work"]);
    assert_eq!(texts(Some("C:\\old")), ["Work  C:\\old"]);
}

#[test]
fn folders_of_any_case_open_and_closed_ones_hide_what_lies_below() {
    let tree = NoteTree {
        entries: vec![
            row(RowKind::Folder("\u{C4}pfel".into()), 0),
            row(RowKind::Folder("\u{C4}pfel\\Sub".into()), 1),
            row(RowKind::Note("\u{C4}pfel\\Sub\\n.md".into()), 2),
            row(RowKind::Note("z.md".into()), 0),
        ],
    };
    let shown = |expanded: &[&str]| -> Vec<RowKind> {
        let expanded: Vec<String> = expanded.iter().map(|path| (*path).to_owned()).collect();
        flatten(&tree, &expanded).into_iter().map(|row| row.kind).collect()
    };
    assert_eq!(
        shown(&[]),
        [RowKind::Folder("\u{C4}pfel".into()), RowKind::Note("z.md".into())]
    );
    assert_eq!(shown(&["\u{E4}PFEL"]).len(), 3, "lowercase letters beyond ASCII too");
    assert_eq!(shown(&["\u{E4}pfel\\sub"]).len(), 2, "its own folder is closed");
    assert_eq!(shown(&["\u{E4}pfel", "\u{E4}pfel\\sub"]).len(), 4);
}

#[test]
fn rows_know_the_folders_above_them() {
    let rows = vec![
        row(RowKind::Folder("a".into()), 0),
        row(RowKind::Note("a\\x.md".into()), 1),
        row(RowKind::Note("z.md".into()), 0),
    ];
    assert_eq!(parent_index(&rows, 1), Some(0));
    assert_eq!(parent_index(&rows, 2), None);
    assert_eq!(parent_index(&rows, 9), None);
    assert_eq!(ancestors("a\\b\\n.md"), ["a", "a\\b"]);
    assert_eq!(ancestors("n.md"), Vec::<String>::new());
}
