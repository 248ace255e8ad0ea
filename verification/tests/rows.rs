use fastpad::geometry::Rect;
use fastpad::palette::Palette;
use fastpad::row_list::{paint, thumb_width, wheel_lines, ListKey, RowListState, RowLook};
use windows_sys::Win32::UI::Input::KeyboardAndMouse::{
    VK_DOWN, VK_END, VK_HOME, VK_LEFT, VK_NEXT, VK_PRIOR, VK_UP,
};

fn listing(count: usize) -> RowListState {
    let mut list = RowListState::new(26);
    list.set_count(count);
    list
}

#[test]
fn a_new_list_is_empty_and_ignores_keys() {
    let mut list = RowListState::new(0);
    assert_eq!(list.row_height, 1, "a zero row height would divide by zero");
    assert_eq!(list.selected, None);
    assert!(!list.move_selection(ListKey::Down, 100));
    list.select(3, 100);
    assert_eq!(list.selected, None);
    assert_eq!(list.visible_rows(100), 0);
    assert_eq!(list.thumb(100), None);
}

#[test]
fn selection_and_hover_are_clamped_when_the_count_shrinks() {
    let mut list = listing(10);
    list.select(9, 26 * 3);
    list.hover = Some(8);
    list.set_count(5);
    assert_eq!(list.selected, Some(4));
    assert_eq!(list.hover, None);
    assert!(list.top <= 4);
    list.set_count(0);
    assert_eq!(list.selected, None);
    assert_eq!(list.top, 0);
}

#[test]
fn a_list_may_have_any_number_of_rows() {
    let height = 26 * 3;
    let mut list = listing(usize::MAX);
    assert!(list.move_selection(ListKey::End, height));
    assert_eq!(list.selected, Some(usize::MAX - 1));
    assert_eq!(list.top, usize::MAX - 3);
    assert_eq!(list.row_at(0), Some(usize::MAX - 3));
    assert!(list.move_selection(ListKey::Home, height));
    assert_eq!((list.selected, list.top), (Some(0), 0));
    assert_eq!(list.thumb(height).map(|(top, _)| top), Some(0));
}

#[test]
fn keyboard_moves_the_selection_and_keeps_it_in_view() {
    let height = 26 * 3;
    let mut list = listing(5);
    assert!(list.move_selection(ListKey::Down, height));
    assert_eq!(
        list.selected,
        Some(0),
        "the first key selects the first row in view"
    );
    assert!(list.move_selection(ListKey::Down, height));
    assert_eq!(list.selected, Some(1));
    assert!(list.move_selection(ListKey::Up, height));
    assert!(!list.move_selection(ListKey::Up, height));
    assert!(list.move_selection(ListKey::End, height));
    assert_eq!((list.selected, list.top), (Some(4), 2));
    assert!(list.move_selection(ListKey::Home, height));
    assert_eq!((list.selected, list.top), (Some(0), 0));
    for _ in 0..3 {
        list.move_selection(ListKey::Down, height);
    }
    assert_eq!((list.selected, list.top), (Some(3), 1));
}

#[test]
fn paging_through_ten_thousand_rows_never_leaves_the_list() {
    let height = 26 * 20 + 13; // 20 whole rows and part of one more
    let mut list = listing(10_000);
    let in_view = |list: &RowListState| {
        let selected = list.selected.unwrap();
        assert!(selected < 10_000);
        assert!(
            list.top <= selected && selected < list.top + 20,
            "selection out of view"
        );
        assert!(list.top <= 10_000 - 20, "top past the last full page");
    };
    assert!(list.move_selection(ListKey::PageDown, height));
    assert_eq!(list.selected, Some(0));
    let mut steps = 0;
    while list.move_selection(ListKey::PageDown, height) {
        steps += 1;
        in_view(&list);
        assert!(steps <= 10_000);
    }
    assert_eq!(list.selected, Some(9_999));
    assert_eq!(list.top, 10_000 - 20);
    assert_eq!(
        steps,
        9_999usize.div_ceil(19),
        "a page moves by the rows in view less one"
    );
    while list.move_selection(ListKey::PageUp, height) {
        in_view(&list);
    }
    assert_eq!((list.selected, list.top), (Some(0), 0));
    assert!(list.move_selection(ListKey::End, height));
    assert_eq!(list.selected, Some(9_999));
    assert!(!list.move_selection(ListKey::Down, height));
    list.set_count(3);
    list.ensure_visible(2, height);
    assert_eq!((list.selected, list.top), (Some(2), 0));
}

#[test]
fn ensure_visible_scrolls_the_least_needed() {
    let height = 26 * 4;
    let mut list = listing(100);
    list.ensure_visible(10, height);
    assert_eq!(list.top, 7, "the row lands on the last full line");
    list.ensure_visible(8, height);
    assert_eq!(list.top, 7, "a row already in view scrolls nothing");
    list.ensure_visible(2, height);
    assert_eq!(list.top, 2);
    list.ensure_visible(1_000, height);
    assert_eq!(list.top, 96);
}

#[test]
fn hit_testing_maps_y_to_rows_and_back() {
    let mut list = listing(10);
    assert_eq!(list.visible_rows(100), 4);
    assert_eq!(list.row_at(0), Some(0));
    assert_eq!(list.row_at(25), Some(0));
    assert_eq!(list.row_at(26), Some(1));
    assert_eq!(list.row_at(-1), None);
    assert_eq!(list.row_at(26 * 10), None);
    assert_eq!(list.row_top(1), Some(26));
    list.top = 2;
    assert_eq!(list.row_at(0), Some(2));
    assert_eq!(list.row_top(1), None);
    assert_eq!(list.row_top(2), Some(0));
    assert_eq!(list.row_top(10), None);
    assert_eq!(list.visible_rows(26 * 20), 8, "never more rows than remain");
    assert!(list.set_hover(Some(3)));
    assert!(!list.set_hover(Some(3)));
}

#[test]
fn wheel_scrolls_whole_lines_and_keeps_touchpad_fractions() {
    let height = 26 * 10;
    let mut list = listing(100);
    assert!(list.wheel(-120, 3, height));
    assert_eq!(list.top, 3);
    assert!(list.wheel(120, 3, height));
    assert_eq!(list.top, 0);
    assert!(!list.wheel(120, 3, height), "already at the top");
    assert!(list.wheel(-40, 3, height));
    assert_eq!(list.top, 1);
    assert!(!list.wheel(-20, 3, height));
    assert!(list.wheel(-20, 3, height));
    assert_eq!(list.top, 2);
    assert!(list.wheel(-120, u32::MAX, height), "page scrolling");
    assert_eq!(list.top, 12);
    assert!(list.scroll_lines(1_000, height));
    assert_eq!(list.top, 90);
    assert!(list.scroll_lines(-1_000, height));
    assert_eq!(list.top, 0);
}

#[test]
fn the_thumb_is_sized_by_the_visible_share_and_tracks_the_scroll() {
    let height = 26 * 10;
    let mut list = listing(100);
    assert_eq!(list.thumb(height), Some((0, 26)));
    list.top = 45;
    assert_eq!(list.thumb(height), Some((117, 26)));
    list.top = 90;
    assert_eq!(list.thumb(height), Some((234, 26)));
    // Ten thousand rows keep a thumb at least one row tall, so it can be grabbed.
    assert_eq!(
        RowListState {
            top: 0,
            ..listing(10_000)
        }
        .thumb(height),
        Some((0, 26))
    );
    assert_eq!(
        listing(10).thumb(height),
        None,
        "no thumb when every row fits"
    );
    let width = 200;
    let bar = width - thumb_width(26);
    assert_eq!(list.thumb_hit(bar, 240, width, height), Some(6));
    assert_eq!(list.thumb_hit(bar - 1, 240, width, height), None);
    assert_eq!(list.thumb_hit(bar, 10, width, height), None);
}

#[test]
fn dragging_the_thumb_scrolls_from_the_first_to_the_last_row() {
    let height = 26 * 10;
    let mut list = listing(10_000);
    assert!(list.drag_thumb(10, 10 + 234, height));
    assert_eq!(list.top, 10_000 - 10);
    assert!(list.drag_thumb(0, 117, height));
    assert_eq!(list.top, 4_995);
    assert_eq!(list.thumb(height).unwrap().0, 117);
    assert!(!list.drag_thumb(0, 117, height));
    assert!(list.drag_thumb(0, -500, height));
    assert_eq!(list.top, 0);
    assert!(list.drag_thumb(0, 10_000, height));
    assert_eq!(list.top, 10_000 - 10);
    assert!(
        !listing(3).drag_thumb(0, 50, height),
        "no thumb, no drag"
    );
}

#[test]
fn virtual_keys_map_to_list_keys() {
    let key = |vk: u16| ListKey::from_virtual_key(u32::from(vk));
    assert_eq!(key(VK_UP), Some(ListKey::Up));
    assert_eq!(key(VK_DOWN), Some(ListKey::Down));
    assert_eq!(key(VK_HOME), Some(ListKey::Home));
    assert_eq!(key(VK_END), Some(ListKey::End));
    assert_eq!(key(VK_PRIOR), Some(ListKey::PageUp));
    assert_eq!(key(VK_NEXT), Some(ListKey::PageDown));
    assert_eq!(key(VK_LEFT), None);
}

#[test]
fn painting_draws_only_the_rows_in_view_with_the_selection_and_hover_backgrounds() {
    let palette = Palette {
        selection_background: 0x0000_00ff,
        inactive_selection_background: 0x0000_ff00,
        hover_background: 0x00ff_0000,
        line_number_foreground: 0x0000_ffff,
        editor_background: 0x0080_8080,
        ..Palette::neutral()
    };
    let mut state = RowListState::new(20);
    state.set_count(10_000);
    state.top = 5_000;
    state.selected = Some(5_001);
    state.hover = Some(5_002);
    let (width, height) = (100, 205);
    let area = Rect { left: 0, top: 0, right: width, bottom: height };
    for focused in [true, false] {
        let plan = paint(area, &state, &palette, focused);
        let drawn: Vec<(usize, i32, RowLook)> = plan
            .rows
            .iter()
            .map(|slot| (slot.index, slot.rect.top, slot.look))
            .collect();
        assert_eq!(
            drawn.iter().map(|(index, ..)| *index).collect::<Vec<_>>(),
            (5_000..5_011).collect::<Vec<_>>(),
            "only the 11 rows at least partly in view"
        );
        assert_eq!(drawn[3].1, 60);
        assert!(drawn[1].2.selected && drawn[1].2.focused == focused);
        assert!(drawn[2].2.hover && !drawn[2].2.selected);
        let selection = if focused {
            palette.selection_background
        } else {
            palette.inactive_selection_background
        };
        // What the rows' backgrounds and the thumb leave at a pixel.
        let pixel = |x: i32, y: i32| {
            let inside = |rect: Rect| {
                rect.left <= x && x < rect.right && rect.top <= y && y < rect.bottom
            };
            let mut color = palette.editor_background;
            for slot in &plan.rows {
                if let (true, Some(background)) = (inside(slot.rect), slot.background) {
                    color = background;
                }
            }
            match plan.thumb {
                Some(thumb) if inside(thumb) => palette.line_number_foreground,
                _ => color,
            }
        };
        assert_eq!(pixel(10, 20 + 5), selection);
        assert_eq!(pixel(10, 40 + 5), palette.hover_background);
        assert_eq!(pixel(10, 5), palette.editor_background);
        let (thumb_top, _) = state.thumb(height).unwrap();
        assert_eq!(
            pixel(width - 1, thumb_top + 1),
            palette.line_number_foreground
        );
    }
}

#[test]
fn a_notch_scrolls_the_lines_the_system_says_or_three() {
    assert_eq!(wheel_lines(Some(7)), 7);
    assert_eq!(wheel_lines(None), 3);
    assert_eq!(wheel_lines(Some(u32::MAX)), u32::MAX);
}

#[test]
fn an_empty_area_paints_nothing() {
    let list = listing(10);
    let plan = paint(
        Rect { left: 0, top: 50, right: 100, bottom: 50 },
        &list,
        &Palette::neutral(),
        true,
    );
    assert!(plan.rows.is_empty() && plan.thumb.is_none());
}
