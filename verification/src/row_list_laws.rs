//! What keys, the wheel and the thumb do to a list, whatever its rows and its height.

use crate::geometry::Rect;
use crate::palette::Palette;
use crate::row_list::{ListKey, RowListState, RowLook, WHEEL_DELTA, WHEEL_PAGESCROLL};
use vstd::prelude::*;

verus! {

/// `rows` rows fit wholly in a view `height` tall, and not one more.
pub open spec fn fits_whole(list: RowListState, rows: int, height: int) -> bool {
    rows * list.row_height <= height < (rows + 1) * list.row_height
}

/// A page is the rows that fit wholly in the view; a view with no room for one shows one all the
/// same.
pub proof fn a_page_is_the_rows_that_fit(list: RowListState, rows: int, height: int)
    requires
        list.wf(),
        fits_whole(list, rows, height),
    ensures
        rows >= 1 ==> list.page(height) == rows,
        rows < 1 ==> list.page(height) == 1,
{
    let tall = list.row_height as int;
    if rows >= 0 {
        assert(height >= 0) by (nonlinear_arith)
            requires
                rows * tall <= height,
                rows >= 0,
                tall >= 1,
        ;
        assert(height / tall == rows) by (nonlinear_arith)
            requires
                rows * tall <= height < (rows + 1) * tall,
                tall >= 1,
        ;
    } else {
        assert(height < 0) by (nonlinear_arith)
            requires
                height < (rows + 1) * tall,
                rows < 0,
                tall >= 1,
        ;
        assert(0int / tall == 0) by (nonlinear_arith)
            requires
                tall >= 1,
        ;
    }
}

/// Page Up and Page Down move the selection by the rows that fit in the view less one, and by one
/// row at least, and stop at the first and the last row.
pub proof fn paging_moves_by_the_rows_in_view_less_one(
    list: RowListState,
    selected: usize,
    rows: int,
    height: int,
)
    requires
        list.wf(),
        list.selected == Some(selected),
        fits_whole(list, rows, height),
    ensures
        ({
            let up = list.after_key(ListKey::PageUp, height).selected;
            let down = list.after_key(ListKey::PageDown, height).selected;
            let step = if rows > 2 {
                rows - 1
            } else {
                1
            };
            &&& up is Some && down is Some
            &&& selected >= step ==> up->0 == selected - step
            &&& selected < step ==> up->0 == 0
            &&& selected + step < list.count ==> down->0 == selected + step
            &&& selected + step >= list.count ==> down->0 == list.count - 1
        }),
{
    a_page_is_the_rows_that_fit(list, rows, height);
}

/// Up and Down move the selection by one row, Home and End to the first and the last.
pub proof fn arrows_move_by_one_row(list: RowListState, selected: usize, height: int)
    requires
        list.wf(),
        list.selected == Some(selected),
    ensures
        selected > 0 ==> list.after_key(ListKey::Up, height).selected == Some(
            (selected - 1) as usize,
        ),
        selected == 0 ==> list.after_key(ListKey::Up, height).selected == Some(0usize),
        selected + 1 < list.count ==> list.after_key(ListKey::Down, height).selected == Some(
            (selected + 1) as usize,
        ),
        selected + 1 == list.count ==> list.after_key(ListKey::Down, height).selected == Some(
            selected,
        ),
        list.after_key(ListKey::Home, height).selected == Some(0usize),
        list.after_key(ListKey::End, height).selected == Some((list.count - 1) as usize),
{
}

proof fn a_key_selects_its_target(list: RowListState, selected: usize, key: ListKey, height: int)
    requires
        list.selected == Some(selected),
        selected < list.count,
    ensures
        ({
            let after = list.after_key(key, height);
            &&& 0 <= list.key_target(key, height) < list.count
            &&& after.selected == Some(list.key_target(key, height) as usize)
            &&& after.count == list.count
            &&& after.page(height) == list.page(height)
        }),
{
}

/// Away from the ends a move is taken back by the opposite one.
#[verifier::rlimit(60)]
pub proof fn opposite_keys_undo_each_other(list: RowListState, selected: usize, height: int)
    requires
        list.wf(),
        list.selected == Some(selected),
        height <= i32::MAX,
    ensures
        ({
            let up = list.after_key(ListKey::Up, height);
            let down = list.after_key(ListKey::Down, height);
            let page_up = list.after_key(ListKey::PageUp, height);
            let page_down = list.after_key(ListKey::PageDown, height);
            &&& up.selected != Some(selected) ==> up.after_key(ListKey::Down, height).selected
                == Some(selected)
            &&& down.selected != Some(selected) ==> down.after_key(ListKey::Up, height).selected
                == Some(selected)
            &&& page_up.selected->0 > 0 ==> page_up.after_key(ListKey::PageDown, height).selected
                == Some(selected)
            &&& page_down.selected->0 < list.count - 1 ==> page_down.after_key(
                ListKey::PageUp,
                height,
            ).selected == Some(selected)
        }),
{
    a_key_selects_its_target(list, selected, ListKey::Up, height);
    a_key_selects_its_target(list, selected, ListKey::Down, height);
    a_key_selects_its_target(list, selected, ListKey::PageUp, height);
    a_key_selects_its_target(list, selected, ListKey::PageDown, height);
    let up = list.after_key(ListKey::Up, height);
    let down = list.after_key(ListKey::Down, height);
    let page_up = list.after_key(ListKey::PageUp, height);
    let page_down = list.after_key(ListKey::PageDown, height);
    a_key_selects_its_target(up, up.selected->0, ListKey::Down, height);
    a_key_selects_its_target(down, down.selected->0, ListKey::Up, height);
    a_key_selects_its_target(page_up, page_up.selected->0, ListKey::PageDown, height);
    a_key_selects_its_target(page_down, page_down.selected->0, ListKey::PageUp, height);
}

/// The first key in a list without a selection selects the first row in view, unless it is Home or
/// End; an empty list ignores keys.
pub proof fn a_first_key_selects_the_first_row_in_view(
    list: RowListState,
    key: ListKey,
    height: int,
)
    requires
        list.wf(),
        list.selected is None,
    ensures
        list.count > 0 && key != ListKey::Home && key != ListKey::End ==> list.after_key(
            key,
            height,
        ).selected == Some(list.top),
        list.count > 0 ==> list.after_key(ListKey::Home, height).selected == Some(0usize),
        list.count > 0 ==> list.after_key(ListKey::End, height).selected == Some(
            (list.count - 1) as usize,
        ),
        list.count == 0 ==> list.after_key(key, height) == list,
{
}

/// A key leaves the selected row wholly in view, whichever it is, and changes nothing but the
/// selection and the scroll.
pub proof fn a_key_keeps_the_selection_in_view(list: RowListState, key: ListKey, height: int)
    requires
        list.wf(),
        list.count > 0,
        height <= i32::MAX,
    ensures
        ({
            let after = list.after_key(key, height);
            &&& after.wf()
            &&& after.selected is Some
            &&& after.top <= after.selected->0 < after.top + after.page(height)
            &&& after == (RowListState { selected: after.selected, top: after.top, ..list })
        }),
{
    list.a_selected_row_is_in_view(list.key_target(key, height), height);
}

/// Scrolling moves the first row in view by as many rows as were asked for, down for more and up
/// for less, as far as the list goes, and nothing else changes.
pub proof fn scrolling_moves_the_view(list: RowListState, lines: int, height: int)
    requires
        list.wf(),
        height <= i32::MAX,
    ensures
        ({
            let after = list.scrolled(lines, height);
            let last = list.count - list.page(height);
            &&& 0 <= list.top + lines <= last ==> after.top == list.top + lines
            &&& list.top + lines < 0 ==> after.top == 0
            &&& list.top + lines > last && last >= 0 ==> after.top == last
            &&& last < 0 ==> after.top == 0
            &&& after == (RowListState { top: after.top, ..list })
        }),
{
}

/// A turn of whole notches scrolls the set rows for each notch: towards the user down, away up.
pub proof fn notches_scroll_the_set_rows(
    list: RowListState,
    notches: int,
    lines_per_notch: u32,
    height: int,
)
    requires
        list.wf(),
        height <= i32::MAX,
        list.wheel_remainder == 0,
        1 <= lines_per_notch <= 1000,
        -1000 <= notches <= 1000,
    ensures
        ({
            let towards = list.wheeled(-WHEEL_DELTA * notches, lines_per_notch, height);
            &&& towards == list.scrolled(notches * lines_per_notch, height)
        }),
{
    let (delta, lines) = (-WHEEL_DELTA * notches, lines_per_notch as int);
    assert(delta * lines == -120 * (notches * lines)) by (nonlinear_arith)
        requires
            delta == -120 * notches,
    ;
    assert(-1000000 <= notches * lines <= 1000000) by (nonlinear_arith)
        requires
            -1000 <= notches <= 1000,
            1 <= lines <= 1000,
    ;
    assert(list.wheel_total(delta, lines_per_notch, height) == -120 * (notches * lines));
    assert(RowListState::whole_lines(-120 * (notches * lines)) == -(notches * lines));
}

/// Where the system scrolls by pages, a notch towards the user scrolls a page down.
pub proof fn a_notch_may_scroll_a_page(list: RowListState, height: int)
    requires
        list.wf(),
        height <= i32::MAX,
        list.wheel_remainder == 0,
        list.page(height) <= 1000,
    ensures
        list.wheeled(-(WHEEL_DELTA as int), WHEEL_PAGESCROLL, height) == list.scrolled(
            list.page(height),
            height,
        ),
        list.wheeled(WHEEL_DELTA as int, WHEEL_PAGESCROLL, height) == list.scrolled(
            -list.page(height),
            height,
        ),
{
    let page = list.page(height);
    assert(page >= 1);
    assert(list.wheel_total(-(WHEEL_DELTA as int), WHEEL_PAGESCROLL, height) == -120 * page);
    assert(list.wheel_total(WHEEL_DELTA as int, WHEEL_PAGESCROLL, height) == 120 * page);
    assert(RowListState::whole_lines(-120 * page) == -page);
    assert(RowListState::whole_lines(120 * page) == page);
}

/// A row is among those in view exactly where some of it is.
pub proof fn rows_in_view_have_a_pixel_in_it(list: RowListState, index: usize, height: int)
    requires
        list.wf(),
        list.top <= index < list.count,
        0 <= height <= i32::MAX,
    ensures
        index < list.top + list.in_view(height) <==> (index - list.top) * list.row_height < height,
{
    let (tall, rows) = (list.row_height as int, index - list.top);
    let fits = (height + tall - 1) / tall;
    assert((rows < fits) == (rows * tall < height)) by (nonlinear_arith)
        requires
            fits == (height + tall - 1) / tall,
            tall >= 1,
            height >= 0,
            rows >= 0,
    ;
}

/// A list that is counted anew keeps the selection, the hover and the first row in view that still
/// are; a selection past the end goes to the last row and a hover past it clears.
pub proof fn a_new_count_keeps_what_is_still_there(list: RowListState, count: usize)
    requires
        list.wf(),
    ensures
        ({
            let after = list.recounted(count);
            &&& after.count == count
            &&& list.selected matches Some(selected) ==> {
                &&& selected < count ==> after.selected == Some(selected)
                &&& 0 < count <= selected ==> after.selected == Some((count - 1) as usize)
            }
            &&& count == 0 ==> after.selected is None
            &&& list.selected is None ==> after.selected is None
            &&& list.hover matches Some(hover) ==> after.hover == (if hover < count {
                Some(hover)
            } else {
                None
            })
            &&& list.hover is None ==> after.hover is None
            &&& list.top < count ==> after.top == list.top
            &&& after.row_height == list.row_height
            &&& after.wheel_remainder == list.wheel_remainder
        }),
{
}

/// The more of the rows are in view, the longer the thumb, and the further the list is scrolled,
/// the lower it starts.
pub proof fn the_thumb_follows_the_scroll(a: RowListState, b: RowListState, height: int)
    requires
        a.wf(),
        b == (RowListState { top: b.top, ..a }),
        b.wf(),
        a.top <= b.top <= a.last_top(height),
        0 < height <= i32::MAX,
        a.count > a.page(height),
    ensures
        a.thumb_length(height) == b.thumb_length(height),
        a.thumb_start(height) <= b.thumb_start(height),
        a.thumb_length(height) >= height * a.page(height) / a.count as int,
        height >= a.row_height ==> a.thumb_length(height) >= a.row_height,
{
    a.thumb_stays_in_its_track(height);
    b.thumb_stays_in_its_track(height);
    let (room, last) = (height - a.thumb_length(height), a.last_top(height));
    assert(room * a.top <= room * b.top) by (nonlinear_arith)
        requires
            room >= 0,
            a.top <= b.top,
    ;
    vstd::arithmetic::div_mod::lemma_div_is_ordered(room * a.top, room * b.top, last);
    let (page, count) = (a.page(height), a.count as int);
    assert(height * page / count <= height) by (nonlinear_arith)
        requires
            0 < height,
            1 <= page < count,
    ;
}

/// The lower the thumb is dragged, the further the list scrolls, and a press that is not on the
/// thumb grabs nothing.
pub proof fn dragging_follows_the_pointer(list: RowListState, a: int, b: int, height: int)
    requires
        list.wf(),
        a <= b,
        0 < height <= i32::MAX,
        list.count > list.page(height),
    ensures
        0 <= list.dragged_top(a, height) <= list.dragged_top(b, height) <= list.last_top(height),
{
    list.thumb_stays_in_its_track(height);
    let travel = vstd::math::max(height - list.thumb_length(height), 1);
    let last = list.last_top(height);
    let (x, y) = (
        vstd::math::max(vstd::math::min(a, travel), 0),
        vstd::math::max(vstd::math::min(b, travel), 0),
    );
    assert(0 <= x * last <= y * last) by (nonlinear_arith)
        requires
            0 <= x <= y,
            last >= 0,
    ;
    vstd::arithmetic::div_mod::lemma_div_is_ordered(
        x * last + travel / 2,
        y * last + travel / 2,
        travel,
    );
    vstd::arithmetic::div_mod::lemma_div_pos_is_pos(x * last + travel / 2, travel);
}

/// A press grabs the thumb exactly where it is: at the right edge, between its ends, by as much as
/// it lies below its start.
pub proof fn a_press_on_the_thumb_grabs_it(
    list: RowListState,
    x: int,
    y: int,
    width: int,
    height: int,
)
    requires
        list.wf(),
        height <= i32::MAX,
    ensures
        match (list.thumb_at(height), list.grab_at(x, y, width, height)) {
            (Some((start, length)), Some(grab)) => {
                &&& x < width
                &&& width - x <= crate::row_list::thumb_wide(list.row_height as int)
                &&& 0 <= grab < length
                &&& start + grab == y
            },
            (Some((start, length)), None) => x >= width || width - x > crate::row_list::thumb_wide(
                list.row_height as int,
            ) || y < start || y >= start + length,
            (None, grab) => grab is None,
        },
{
    if height > 0 && list.count > list.page(height) {
        list.thumb_stays_in_its_track(height);
    }
}

/// A row's text takes the selection's own color only where the row is selected and the list has the
/// focus; its dim parts then take the same color, and are muted everywhere else.
pub proof fn only_the_focused_selection_changes_the_text(look: RowLook, palette: Palette)
    ensures
        ({
            let (text, dim) = (
                crate::row_list::foreground_of(look, palette),
                crate::row_list::muted_of(look, palette),
            );
            &&& !(look.selected && look.focused) ==> text == palette.editor_foreground && dim
                == palette.muted_foreground
            &&& look.selected && look.focused ==> dim == text
            &&& look.selected && look.focused && palette.selection_foreground is Some ==> Some(text)
                == palette.selection_foreground
            &&& palette.selection_foreground is None ==> text == palette.editor_foreground
        }),
{
}

/// A setting that could be read is used as it is; one that could not scrolls three lines.
pub proof fn an_unread_setting_scrolls_three_lines(lines: u32)
    ensures
        crate::row_list::lines_for(Some(lines)) == lines,
        crate::row_list::lines_for(None) == crate::row_list::lines_for(Some(3)),
{
}

/// The thumb is drawn where a press grabs it: a point of the area is on the drawn thumb exactly
/// where it grabs.
pub proof fn the_thumb_is_drawn_where_it_is_grabbed(area: Rect, list: RowListState, x: int, y: int)
    requires
        list.wf(),
        area.drawable(),
        area.left < area.right,
        area.top < area.bottom,
    ensures
        list.grab_at(
            x - area.left,
            y - area.top,
            area.right - area.left,
            area.bottom - area.top,
        ) is Some <==> (crate::row_list::painted_thumb(area, list) matches Some(thumb) && thumb.has(
            x,
            y,
        )),
{
    let height = area.bottom - area.top;
    assert(crate::row_list::thumb_wide(list.row_height as int) <= list.row_height + 2);
    if list.count > list.page(height) {
        list.thumb_stays_in_its_track(height);
    }
}

/// A point that shows a row grabs or hovers only rows that are drawn: the row under a point of the
/// area is one of those drawn in it, and an area without a pixel draws none.
pub proof fn a_row_under_a_point_is_drawn(area: Rect, list: RowListState, y: int)
    requires
        list.wf(),
    ensures
        area.top <= y < area.bottom && area.left < area.right ==> (list.row_under(
            y - area.top,
        ) matches Some(row) ==> list.top <= row < list.top + crate::row_list::painted_rows(
            area,
            list,
        )),
        area.right <= area.left || area.bottom <= area.top ==> crate::row_list::painted_rows(
            area,
            list,
        ) == 0,
{
    let row_height = list.row_height as int;
    let height = area.bottom - area.top;
    let at = y - area.top;
    if 0 <= at < height {
        vstd::arithmetic::div_mod::lemma_fundamental_div_mod(at, row_height);
        vstd::arithmetic::div_mod::lemma_fundamental_div_mod(height + row_height - 1, row_height);
        vstd::arithmetic::div_mod::lemma_mod_bound(at, row_height);
        vstd::arithmetic::div_mod::lemma_mod_bound(height + row_height - 1, row_height);
        let (row, rows) = (at / row_height, (height + row_height - 1) / row_height);
        assert(0 <= row < rows) by (nonlinear_arith)
            requires
                0 < row_height,
                0 <= at < height,
                row_height * row <= at < row_height * row + row_height,
                height + row_height - 1 < row_height * rows + row_height,
        ;
    }
}

/// A thumb dragged to the start of its track shows the start of the list, and one dragged to the end
/// of the track the list's end.
pub proof fn the_track_spans_the_list(list: RowListState, start: int, height: int)
    requires
        list.wf(),
        0 < height <= i32::MAX,
        list.count > list.page(height),
    ensures
        start <= 0 ==> list.dragged_top(start, height) == 0,
        start >= height - list.thumb_length(height) && start >= 1 ==> list.dragged_top(start, height)
            == list.last_top(height),
{
    list.thumb_stays_in_its_track(height);
    let travel = vstd::math::max(height - list.thumb_length(height), 1);
    let last = list.last_top(height);
    if start <= 0 {
        assert(0 * last == 0) by (nonlinear_arith);
        vstd::arithmetic::div_mod::lemma_basic_div(travel / 2, travel);
    } else if start >= travel {
        vstd::arithmetic::div_mod::lemma_basic_div(travel / 2, travel);
        vstd::arithmetic::div_mod::lemma_hoist_over_denominator(travel / 2, last, travel as nat);
        assert(travel * last == last * travel) by (nonlinear_arith);
    }
}

} // verus!
