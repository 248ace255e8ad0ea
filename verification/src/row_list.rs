//! A virtual row list shared by the sidebar's views: selection, hover, scrolling, keyboard
//! paging, hit-testing and a thin scroll thumb over any number of fixed-height rows. `paint`
//! lists only the rows in view.
//!
//! Every `height` is the list area's height in pixels, and every `y` is relative to its top.

use crate::geometry::{saturate, Rect};
use crate::palette::Palette;
use vstd::prelude::*;

verus! {

/// The wheel setting that stands for "one screen at a time".
pub const WHEEL_PAGESCROLL: u32 = u32::MAX;

/// The wheel movement of one notch.
pub const WHEEL_DELTA: i32 = 120;

/// The lines a notch scrolls where the system's setting cannot be read.
pub const DEFAULT_WHEEL_LINES: u32 = 3;

pub const VK_PRIOR: u32 = 0x21;

pub const VK_NEXT: u32 = 0x22;

pub const VK_END: u32 = 0x23;

pub const VK_HOME: u32 = 0x24;

pub const VK_UP: u32 = 0x26;

pub const VK_DOWN: u32 = 0x28;

/// What the system's setting, read or not, comes to.
pub open spec fn lines_for(setting: Option<u32>) -> u32 {
    match setting {
        Some(setting) => setting,
        None => DEFAULT_WHEEL_LINES,
    }
}

/// The lines per wheel notch: the system's setting, or the default when reading it failed.
pub fn wheel_lines(setting: Option<u32>) -> (lines: u32)
    ensures
        lines == lines_for(setting),
{
    match setting {
        Some(setting) => setting,
        None => DEFAULT_WHEEL_LINES,
    }
}

#[derive(Clone, Copy, Debug, PartialEq, Eq, Structural)]
pub enum ListKey {
    Up,
    Down,
    Home,
    End,
    PageUp,
    PageDown,
}

impl ListKey {
    /// The list key that a virtual key means, if any.
    pub open spec fn of_virtual_key(key: u32) -> Option<ListKey> {
        if key == VK_UP {
            Some(ListKey::Up)
        } else if key == VK_DOWN {
            Some(ListKey::Down)
        } else if key == VK_HOME {
            Some(ListKey::Home)
        } else if key == VK_END {
            Some(ListKey::End)
        } else if key == VK_PRIOR {
            Some(ListKey::PageUp)
        } else if key == VK_NEXT {
            Some(ListKey::PageDown)
        } else {
            None
        }
    }

    pub fn from_virtual_key(key: u32) -> (list_key: Option<Self>)
        ensures
            list_key == Self::of_virtual_key(key),
    {
        match key {
            VK_UP => Some(ListKey::Up),
            VK_DOWN => Some(ListKey::Down),
            VK_HOME => Some(ListKey::Home),
            VK_END => Some(ListKey::End),
            VK_PRIOR => Some(ListKey::PageUp),
            VK_NEXT => Some(ListKey::PageDown),
            _ => None,
        }
    }
}

/// How `paint` shows one row.
#[derive(Clone, Copy, Debug, PartialEq, Eq, Structural)]
pub struct RowLook {
    pub selected: bool,
    pub hover: bool,
    pub focused: bool,
}

#[derive(Clone, Copy, Debug, PartialEq, Eq, Structural)]
pub struct RowListState {
    pub count: usize,
    pub selected: Option<usize>,
    pub hover: Option<usize>,
    /// The first row in view.
    pub top: usize,
    pub row_height: i32,
    /// Wheel movement short of one line, kept for the next wheel message.
    pub wheel_remainder: i32,
}

/// The scroll thumb's width for rows `row_height` tall: 6 px for rows of 26 px, at least 2 px.
pub open spec fn thumb_wide(row_height: int) -> int {
    vstd::math::max(row_height * 6 / 26, 2)
}

pub fn thumb_width(row_height: i32) -> (width: i32)
    requires
        0 <= row_height <= crate::geometry::MAX_COORDINATE,
    ensures
        width == thumb_wide(row_height as int),
{
    let width: i32 = row_height * 6 / 26;
    if width < 2 {
        2
    } else {
        width
    }
}

impl RowListState {
    /// The list's invariant: rows have a height, and the selection, the hover and the first row in
    /// view are rows of the list. A list holds any number of rows.
    pub open spec fn wf(self) -> bool {
        &&& 1 <= self.row_height <= crate::geometry::MAX_COORDINATE
        &&& self.selected matches Some(selected) ==> selected < self.count
        &&& self.hover matches Some(hover) ==> hover < self.count
        &&& self.top == 0 || self.top < self.count
        &&& -WHEEL_DELTA < self.wheel_remainder < WHEEL_DELTA
    }

    /// Rows wholly in view, at least one: what a page is measured in.
    pub open spec fn page(self, height: int) -> int {
        vstd::math::max(vstd::math::max(height, 0) / (self.row_height as int), 1)
    }

    /// The last `top` that still fills the view.
    pub open spec fn last_top(self, height: int) -> int {
        vstd::math::max(self.count - self.page(height), 0)
    }

    /// Rows at least partly in view.
    pub open spec fn in_view(self, height: int) -> int {
        let tall = vstd::math::max(height, 0);
        let fits = (tall + self.row_height - 1) / (self.row_height as int);
        vstd::math::min(fits, vstd::math::max(self.count - self.top, 0))
    }

    /// The row at `y`.
    pub open spec fn row_under(self, y: int) -> Option<usize> {
        let index = self.top + y / (self.row_height as int);
        if y >= 0 && index < self.count {
            Some(index as usize)
        } else {
            None
        }
    }

    /// Where row `index` starts, from the list's top; `None` above the view, past the end, or
    /// farther down than `i32` reaches.
    pub open spec fn start_of(self, index: usize) -> Option<i32> {
        let start = (index - self.top) * self.row_height;
        if self.top <= index < self.count && start <= i32::MAX {
            Some(start as i32)
        } else {
            None
        }
    }

    /// The first row in view after the least scrolling that shows row `index` wholly and keeps
    /// the view filled.
    pub open spec fn top_showing(self, index: int, height: int) -> int {
        let page = self.page(height);
        let shown = if index < self.top {
            index
        } else if index >= self.top + page {
            index + 1 - page
        } else {
            self.top as int
        };
        vstd::math::min(shown, self.last_top(height))
    }

    /// The list with row `index` (the last row when past the end) selected and in view.
    pub open spec fn with_selected(self, index: int, height: int) -> RowListState {
        if self.count == 0 {
            RowListState { selected: None, ..self }
        } else {
            let row = vstd::math::min(index, self.count - 1);
            RowListState {
                selected: Some(row as usize),
                top: self.top_showing(row, height) as usize,
                ..self
            }
        }
    }

    /// Where `key` moves the selection of a list with rows.
    pub open spec fn key_target(self, key: ListKey, height: int) -> int {
        let last = self.count - 1;
        let page = vstd::math::max(self.page(height) - 1, 1);
        match (self.selected, key) {
            (_, ListKey::Home) => 0,
            (_, ListKey::End) => last,
            (None, _) => vstd::math::min(self.top as int, last),
            (Some(current), ListKey::Up) => vstd::math::max(current - 1, 0),
            (Some(current), ListKey::Down) => vstd::math::min(current + 1, last),
            (Some(current), ListKey::PageUp) => vstd::math::max(current - page, 0),
            (Some(current), ListKey::PageDown) => vstd::math::min(current + page, last),
        }
    }

    /// The list after `key` moved its selection.
    pub open spec fn after_key(self, key: ListKey, height: int) -> RowListState {
        if self.count == 0 {
            self
        } else {
            self.with_selected(self.key_target(key, height), height)
        }
    }

    /// The first row in view after scrolling by `lines` rows within the list.
    pub open spec fn top_after(self, lines: int, height: int) -> int {
        vstd::math::min(vstd::math::max(self.top + lines, 0), self.last_top(height))
    }

    /// The list scrolled by `lines` rows.
    pub open spec fn scrolled(self, lines: int, height: int) -> RowListState {
        RowListState { top: self.top_after(lines, height) as usize, ..self }
    }

    /// Rows a wheel notch scrolls: the setting, or a page, between 1 and 1,000.
    pub open spec fn per_notch(self, lines_per_notch: u32, height: int) -> int {
        let lines = if lines_per_notch == WHEEL_PAGESCROLL {
            self.page(height)
        } else {
            lines_per_notch as int
        };
        vstd::math::max(vstd::math::min(lines, 1000), 1)
    }

    /// The wheel movement to act on: what was kept, and this turn's.
    pub open spec fn wheel_total(self, delta: int, lines_per_notch: u32, height: int) -> int {
        crate::geometry::saturated(
            self.wheel_remainder + crate::geometry::saturated(
                delta * self.per_notch(lines_per_notch, height),
            ),
        )
    }

    /// Whole lines in a wheel movement, rounded towards zero.
    pub open spec fn whole_lines(total: int) -> int {
        if total >= 0 {
            total / WHEEL_DELTA as int
        } else {
            -((-total) / WHEEL_DELTA as int)
        }
    }

    /// The list after a wheel turn: whole lines scroll against the turn, the rest is kept.
    pub open spec fn wheeled(self, delta: int, lines_per_notch: u32, height: int) -> RowListState {
        let total = self.wheel_total(delta, lines_per_notch, height);
        let lines = Self::whole_lines(total);
        RowListState {
            wheel_remainder: (total - lines * WHEEL_DELTA) as i32,
            ..self.scrolled(-lines, height)
        }
    }

    /// The thumb's length: the share of the rows in view, at least one row (or the whole track,
    /// where that is shorter).
    pub open spec fn thumb_length(self, height: int) -> int {
        let share = height * self.page(height) / self.count as int;
        vstd::math::min(
            vstd::math::max(share, vstd::math::min(self.row_height as int, height)),
            height,
        )
    }

    /// How far down the track the thumb starts.
    pub open spec fn thumb_start(self, height: int) -> int {
        let last = self.last_top(height);
        (height - self.thumb_length(height)) * vstd::math::min(self.top as int, last)
            / vstd::math::max(last, 1)
    }

    /// The thumb's start and length, while some rows are out of view.
    pub open spec fn thumb_at(self, height: int) -> Option<(i32, i32)> {
        if height <= 0 || self.count <= self.page(height) {
            None
        } else {
            Some((self.thumb_start(height) as i32, self.thumb_length(height) as i32))
        }
    }

    /// The first row in view after the thumb was dragged so that it would start at `start`.
    pub open spec fn dragged_top(self, start: int, height: int) -> int {
        let travel = vstd::math::max(height - self.thumb_length(height), 1);
        let at = vstd::math::max(vstd::math::min(start, travel), 0);
        let last = self.last_top(height);
        vstd::math::min((at * last + travel / 2) / travel, last)
    }

    pub fn new(row_height: i32) -> (list: Self)
        requires
            row_height <= crate::geometry::MAX_COORDINATE,
        ensures
            list.wf(),
            list == (RowListState {
                count: 0,
                selected: None,
                hover: None,
                top: 0,
                row_height: vstd::math::max(row_height as int, 1) as i32,
                wheel_remainder: 0,
            }),
    {
        RowListState {
            count: 0,
            selected: None,
            hover: None,
            top: 0,
            row_height: row_height.max(1),
            wheel_remainder: 0,
        }
    }

    /// The list with a new row count. A selection past the end moves to the last row, a hover
    /// past it clears, and `top` stays on a row.
    pub open spec fn recounted(self, count: usize) -> RowListState {
        RowListState {
            count,
            selected: match self.selected {
                Some(selected) if count > 0 => Some(
                    vstd::math::min(selected as int, count - 1) as usize,
                ),
                _ => None,
            },
            hover: match self.hover {
                Some(hover) if hover < count => Some(hover),
                _ => None,
            },
            top: vstd::math::min(self.top as int, vstd::math::max(count - 1, 0)) as usize,
            ..self
        }
    }

    /// A new row count. The next `ensure_visible` or scroll fills the view again.
    pub fn set_count(&mut self, count: usize)
        requires
            old(self).wf(),
        ensures
            final(self).wf(),
            *final(self) == old(self).recounted(count),
    {
        self.count = count;
        self.selected = match self.selected {
            Some(selected) => if count > 0 {
                Some(selected.min(count - 1))
            } else {
                None
            },
            None => None,
        };
        self.hover = match self.hover {
            Some(hover) => if hover < count {
                Some(hover)
            } else {
                None
            },
            None => None,
        };
        self.top = self.top.min(count.saturating_sub(1));
    }

    pub fn full_rows(&self, height: i32) -> (rows: usize)
        requires
            self.wf(),
        ensures
            rows == self.page(height as int),
            1 <= rows <= i32::MAX,
    {
        proof {
            self.page_is_bounded(height as int);
        }
        let rows: i32 = (height.max(0) / self.row_height).max(1);
        rows as usize
    }

    proof fn page_is_bounded(self, height: int)
        requires
            self.wf(),
            height <= i32::MAX,
        ensures
            1 <= self.page(height) <= i32::MAX,
    {
        let tall = vstd::math::max(height, 0);
        vstd::arithmetic::div_mod::lemma_div_is_ordered_by_denominator(
            tall,
            1,
            self.row_height as int,
        );
    }

    pub fn max_top(&self, height: i32) -> (top: usize)
        requires
            self.wf(),
        ensures
            top == self.last_top(height as int),
    {
        self.count.saturating_sub(self.full_rows(height))
    }

    /// Rows at least partly in view from `top`: the rows `paint` lists.
    pub fn visible_rows(&self, height: i32) -> (rows: usize)
        requires
            self.wf(),
        ensures
            rows == self.in_view(height as int),
    {
        let tall: i64 = height.max(0) as i64;
        let row: i64 = self.row_height as i64;
        proof {
            vstd::arithmetic::div_mod::lemma_div_is_ordered_by_denominator(
                tall + row - 1,
                1,
                row as int,
            );
            vstd::arithmetic::div_mod::lemma_div_pos_is_pos(tall + row - 1, row as int);
        }
        let fits: i64 = (tall + row - 1) / row;
        let fits: usize = fits as usize;
        fits.min(self.count.saturating_sub(self.top))
    }

    pub fn row_at(&self, y: i32) -> (index: Option<usize>)
        requires
            self.wf(),
        ensures
            index == self.row_under(y as int),
    {
        if y < 0 {
            return None;
        }
        proof {
            vstd::arithmetic::div_mod::lemma_div_is_ordered_by_denominator(
                y as int,
                1,
                self.row_height as int,
            );
        }
        let rows: usize = (y / self.row_height) as usize;
        if rows < self.count - self.top {
            Some(self.top + rows)
        } else {
            None
        }
    }

    /// `index`'s top edge relative to the list's top, or `None` above the view or past the end.
    /// A row below the view has a top beyond `height`.
    pub fn row_top(&self, index: usize) -> (start: Option<i32>)
        requires
            self.wf(),
        ensures
            start == self.start_of(index),
    {
        if index < self.top || index >= self.count {
            return None;
        }
        let rows: i128 = (index - self.top) as i128;
        let tall: i128 = self.row_height as i128;
        assert(0 <= rows * tall <= 0xffff_ffff_ffff_ffff * 0x1000_0000) by (nonlinear_arith)
            requires
                0 <= rows <= 0xffff_ffff_ffff_ffff,
                0 <= tall <= 0x1000_0000,
        ;
        let start: i128 = rows * tall;
        if start <= i32::MAX as i128 {
            Some(start as i32)
        } else {
            None
        }
    }

    /// The list with a new hover; one past the end is none.
    pub open spec fn hovering(self, hover: Option<usize>) -> RowListState {
        RowListState {
            hover: match hover {
                Some(index) if index < self.count => Some(index),
                _ => None,
            },
            ..self
        }
    }

    /// Sets the hovered row; reports whether it changed.
    pub fn set_hover(&mut self, hover: Option<usize>) -> (changed: bool)
        requires
            old(self).wf(),
        ensures
            final(self).wf(),
            *final(self) == old(self).hovering(hover),
            changed == (final(self).hover != old(self).hover),
    {
        let before: Option<usize> = self.hover;
        self.hover = match hover {
            Some(index) => if index < self.count {
                Some(index)
            } else {
                None
            },
            None => None,
        };
        self.hover != before
    }

    /// Moves the selection for `key`, keeping it in view. With nothing selected, a move selects
    /// the first row in view. Reports whether the selection or the scroll changed.
    pub fn move_selection(&mut self, key: ListKey, height: i32) -> (changed: bool)
        requires
            old(self).wf(),
        ensures
            final(self).wf(),
            *final(self) == old(self).after_key(key, height as int),
            changed == (*final(self) != *old(self)),
    {
        if self.count == 0 {
            return false;
        }
        let last: usize = self.count - 1;
        let page: usize = self.full_rows(height).saturating_sub(1).max(1);
        let target: usize = match (self.selected, key) {
            (_, ListKey::Home) => 0,
            (_, ListKey::End) => last,
            (None, _) => self.top.min(last),
            (Some(current), ListKey::Up) => current.saturating_sub(1),
            (Some(current), ListKey::Down) => current.saturating_add(1).min(last),
            (Some(current), ListKey::PageUp) => current.saturating_sub(page),
            (Some(current), ListKey::PageDown) => current.saturating_add(page).min(last),
        };
        let (selected, top) = (self.selected, self.top);
        self.select(target, height);
        self.selected != selected || self.top != top
    }

    /// Selects `index` (clamped to the last row) and scrolls it into view.
    pub fn select(&mut self, index: usize, height: i32)
        requires
            old(self).wf(),
        ensures
            final(self).wf(),
            *final(self) == old(self).with_selected(index as int, height as int),
    {
        if self.count == 0 {
            self.selected = None;
            return;
        }
        let index: usize = index.min(self.count - 1);
        self.selected = Some(index);
        self.ensure_visible(index, height);
    }

    /// The list with row `index` (the last row when past the end) in view.
    pub open spec fn showing(self, index: int, height: int) -> RowListState {
        if self.count == 0 {
            RowListState { top: 0, ..self }
        } else {
            RowListState {
                top: self.top_showing(vstd::math::min(index, self.count - 1), height) as usize,
                ..self
            }
        }
    }

    /// Scrolls the least needed to show `index` wholly, and keeps the view filled.
    pub fn ensure_visible(&mut self, index: usize, height: i32)
        requires
            old(self).wf(),
        ensures
            final(self).wf(),
            *final(self) == old(self).showing(index as int, height as int),
    {
        if self.count == 0 {
            self.top = 0;
            return;
        }
        let index: usize = index.min(self.count - 1);
        let full: usize = self.full_rows(height);
        let last_top: usize = self.max_top(height);
        if index < self.top {
            self.top = index;
        } else if index - self.top >= full {
            self.top = index - full + 1;
        }
        self.top = self.top.min(last_top);
    }

    /// Scrolls by `lines` rows (negative is up), within the list. Reports whether it moved.
    pub fn scroll_lines(&mut self, lines: i32, height: i32) -> (moved: bool)
        requires
            old(self).wf(),
        ensures
            final(self).wf(),
            *final(self) == old(self).scrolled(lines as int, height as int),
            moved == (final(self).top != old(self).top),
    {
        let before: usize = self.top;
        let last: usize = self.max_top(height);
        let top: i128 = (self.top as i128 + lines as i128).max(0).min(last as i128);
        self.top = top as usize;
        self.top != before
    }

    /// A mouse wheel turn of `delta` (`WHEEL_DELTA` per notch, positive away from the user) at
    /// `lines_per_notch` rows per notch (`u32::MAX` pages). Fractions of a line from precision
    /// touchpads carry over to the next turn.
    pub fn wheel(&mut self, delta: i32, lines_per_notch: u32, height: i32) -> (moved: bool)
        requires
            old(self).wf(),
        ensures
            final(self).wf(),
            *final(self) == old(self).wheeled(delta as int, lines_per_notch, height as int),
            moved == (final(self).top != old(self).top),
    {
        let lines: i64 = if lines_per_notch == WHEEL_PAGESCROLL {
            self.full_rows(height) as i64
        } else {
            lines_per_notch as i64
        };
        let per_notch: i64 = lines.min(1000).max(1);
        assert(-0x8000_0000 * 1000 <= delta * per_notch <= 0x8000_0000 * 1000) by (nonlinear_arith)
            requires
                -0x8000_0000 <= delta <= 0x8000_0000,
                1 <= per_notch <= 1000,
        ;
        let turned: i32 = saturate(delta as i64 * per_notch);
        let total: i32 = saturate(self.wheel_remainder as i64 + turned as i64);
        self.wheel_remainder = total % WHEEL_DELTA;
        self.scroll_lines(-(total / WHEEL_DELTA), height)
    }

    /// The scroll thumb as (top, length) in a track `height` tall, or `None` when every row
    /// fits. The thumb is at least one row tall, so it can always be grabbed.
    pub fn thumb(&self, height: i32) -> (thumb: Option<(i32, i32)>)
        requires
            self.wf(),
        ensures
            thumb == self.thumb_at(height as int),
            thumb matches Some((top, length)) ==> 0 <= top && 0 < length && top + length <= height,
    {
        let full: usize = self.full_rows(height);
        if height <= 0 || self.count <= full {
            return None;
        }
        proof {
            self.thumb_stays_in_its_track(height as int);
        }
        let track: i128 = height as i128;
        let count: i128 = self.count as i128;
        let full: i128 = full as i128;
        assert(0 <= track * full <= 0x7fff_ffff * 0x7fff_ffff) by (nonlinear_arith)
            requires
                0 <= track <= 0x7fff_ffff,
                0 <= full <= 0x7fff_ffff,
        ;
        let row: i128 = self.row_height as i128;
        let length: i128 = (track * full / count).max(row.min(track)).min(track);
        let max_top: usize = self.max_top(height);
        let at: i128 = self.top.min(max_top) as i128;
        let room: i128 = track - length;
        assert(0 <= room * at <= 0x7fff_ffff * 0xffff_ffff_ffff_ffff) by (nonlinear_arith)
            requires
                0 <= room <= 0x7fff_ffff,
                0 <= at <= 0xffff_ffff_ffff_ffff,
        ;
        let top: i128 = room * at / (max_top as i128).max(1);
        Some((top as i32, length as i32))
    }

    /// The thumb lies inside its track, and it is never empty.
    pub proof fn thumb_stays_in_its_track(self, height: int)
        requires
            self.wf(),
            0 < height <= i32::MAX,
            self.count > self.page(height),
        ensures
            0 < self.thumb_length(height) <= height,
            0 <= self.thumb_start(height),
            self.thumb_start(height) + self.thumb_length(height) <= height,
            self.top == 0 ==> self.thumb_start(height) == 0,
            self.top == self.last_top(height) ==> self.thumb_start(height) + self.thumb_length(
                height,
            ) == height,
    {
        self.page_is_bounded(height);
        let page = self.page(height);
        assert(0 <= height * page) by (nonlinear_arith)
            requires
                0 < height,
                1 <= page,
        ;
        vstd::arithmetic::div_mod::lemma_div_pos_is_pos(height * page, self.count as int);
        let room = height - self.thumb_length(height);
        let last = self.last_top(height);
        let at = vstd::math::min(self.top as int, last);
        assert(0 <= room * at <= room * last) by (nonlinear_arith)
            requires
                0 <= room,
                0 <= at <= last,
        ;
        vstd::arithmetic::div_mod::lemma_div_is_ordered(room * at, room * last, last);
        vstd::arithmetic::div_mod::lemma_div_pos_is_pos(room * at, last);
        vstd::arithmetic::div_mod::lemma_div_multiples_vanish(room, last);
        assert(room * last == last * room) by (nonlinear_arith);
        assert(room * 0 == 0);
    }

    /// Where on the thumb a press at `x`, `y` landed (the grab offset for `drag_thumb`), for a
    /// list `width` wide, or `None` off the thumb.
    pub open spec fn grab_at(self, x: int, y: int, width: int, height: int) -> Option<i32> {
        match self.thumb_at(height) {
            Some((top, length)) if width - thumb_wide(self.row_height as int) <= x < width && top
                <= y < top + length => Some((y - top) as i32),
            _ => None,
        }
    }

    pub fn thumb_hit(&self, x: i32, y: i32, width: i32, height: i32) -> (grab: Option<i32>)
        requires
            self.wf(),
            width >= -crate::geometry::MAX_COORDINATE,
        ensures
            grab == self.grab_at(x as int, y as int, width as int, height as int),
    {
        match self.thumb(height) {
            Some((top, length)) => {
                if x >= width - thumb_width(self.row_height) && x < width && y >= top && y < top
                    + length {
                    Some(y - top)
                } else {
                    None
                }
            },
            None => None,
        }
    }

    /// The list with its thumb dragged so that the point `grab_offset` into it sits at `y`.
    pub open spec fn thumb_dragged(self, grab_offset: int, y: int, height: int) -> RowListState {
        if self.thumb_at(height) is None {
            self
        } else {
            let start = crate::geometry::saturated(y - grab_offset);
            RowListState { top: self.dragged_top(start, height) as usize, ..self }
        }
    }

    /// Drags the thumb so the point grabbed `grab_offset` into it sits at `y`. Reports whether
    /// the list scrolled.
    pub fn drag_thumb(&mut self, grab_offset: i32, y: i32, height: i32) -> (moved: bool)
        requires
            old(self).wf(),
        ensures
            final(self).wf(),
            *final(self) == old(self).thumb_dragged(grab_offset as int, y as int, height as int),
            moved == (final(self).top != old(self).top),
    {
        let length: i32 = match self.thumb(height) {
            Some((_, length)) => length,
            None => return false,
        };
        let travel: i128 = (height as i128 - length as i128).max(1);
        let start: i128 = saturate(y as i64 - grab_offset as i64) as i128;
        let at: i128 = start.min(travel).max(0);
        let max_top: usize = self.max_top(height);
        let last: i128 = max_top as i128;
        assert(0 <= at * last <= 0x7fff_ffff * 0xffff_ffff_ffff_ffff) by (nonlinear_arith)
            requires
                0 <= at <= 0x7fff_ffff,
                0 <= last <= 0xffff_ffff_ffff_ffff,
        ;
        let top: i128 = (at * last + travel / 2) / travel;
        proof {
            assert(at * last + travel / 2 <= travel * (last + 1)) by (nonlinear_arith)
                requires
                    0 <= at <= travel,
                    0 <= last,
                    travel / 2 <= travel,
            ;
            assert(travel * (last + 1) == (last + 1) * travel) by (nonlinear_arith);
            vstd::arithmetic::div_mod::lemma_div_is_ordered(
                at * last + travel / 2,
                (last + 1) * travel,
                travel as int,
            );
            vstd::arithmetic::div_mod::lemma_div_multiples_vanish(last + 1, travel as int);
            vstd::arithmetic::div_mod::lemma_div_pos_is_pos(at * last + travel / 2, travel as int);
        }
        let before: usize = self.top;
        let top: i128 = top.min(last);
        self.top = top as usize;
        self.top != before
    }

    /// Selecting a row brings it wholly into view and keeps the view filled.
    pub proof fn a_selected_row_is_in_view(self, index: int, height: int)
        requires
            self.wf(),
            self.count > 0,
            0 <= index,
            height <= i32::MAX,
        ensures
            ({
                let after = self.with_selected(index, height);
                &&& after.wf()
                &&& after.selected == Some(vstd::math::min(index, self.count - 1) as usize)
                &&& after.top <= after.selected->0 < after.top + after.page(height)
                &&& after.top <= after.last_top(height)
            }),
    {
        self.page_is_bounded(height);
    }

    /// A row that is wholly in a filled view already stays where it is.
    pub proof fn a_row_in_view_scrolls_nothing(self, index: int, height: int)
        requires
            self.wf(),
            self.top <= index < self.count,
            index < self.top + self.page(height),
            self.top <= self.last_top(height),
        ensures
            self.showing(index, height) == self,
    {
    }

    /// The pixel at a row's start is that row's, and so are the rest of its pixels.
    pub proof fn rows_are_found_where_they_start(self, index: usize, offset: int)
        requires
            self.wf(),
            self.start_of(index) is Some,
            0 <= offset < self.row_height,
        ensures
            self.row_under(self.start_of(index)->0 + offset) == Some(index),
    {
        let rows = index - self.top;
        let tall = self.row_height as int;
        assert(0 <= rows * tall) by (nonlinear_arith)
            requires
                0 <= rows,
                0 < tall,
        ;
        assert((rows * tall + offset) / tall == rows) by (nonlinear_arith)
            requires
                0 <= offset < tall,
                0 <= rows,
        ;
    }

    /// The row found at `y` starts at or above `y` and ends below it.
    pub proof fn a_found_row_holds_the_pixel(self, y: int)
        requires
            self.wf(),
            0 <= y <= i32::MAX,
            self.row_under(y) is Some,
        ensures
            self.start_of(self.row_under(y)->0) matches Some(start) && start <= y < start
                + self.row_height,
    {
        let tall = self.row_height as int;
        let rows = y / tall;
        assert(rows * tall <= y < rows * tall + tall && 0 <= rows * tall) by (nonlinear_arith)
            requires
                0 <= y,
                0 < tall,
                rows == y / tall,
        ;
        vstd::arithmetic::div_mod::lemma_div_is_ordered_by_denominator(y, 1, tall);
        assert(self.row_under(y)->0 - self.top == rows);
    }

    /// A wheel turn loses no movement: the lines it scrolls for and what it keeps add up to what
    /// was kept before and the turn, unless they pass the range of `i32`.
    pub proof fn a_wheel_turn_loses_nothing(self, delta: int, lines_per_notch: u32, height: int)
        requires
            self.wf(),
            i32::MIN <= delta * self.per_notch(lines_per_notch, height) <= i32::MAX,
            i32::MIN <= self.wheel_remainder + delta * self.per_notch(lines_per_notch, height)
                <= i32::MAX,
        ensures
            ({
                let total = self.wheel_total(delta, lines_per_notch, height);
                let after = self.wheeled(delta, lines_per_notch, height);
                &&& Self::whole_lines(total) * WHEEL_DELTA + after.wheel_remainder
                    == self.wheel_remainder + delta * self.per_notch(lines_per_notch, height)
                &&& -WHEEL_DELTA < after.wheel_remainder < WHEEL_DELTA
                &&& after.top == self.top_after(-Self::whole_lines(total), height)
            }),
    {
    }

    /// Dragging the thumb to the top of its track shows the first row, and to the bottom the last.
    pub proof fn the_thumb_reaches_both_ends(self, height: int)
        requires
            self.wf(),
            0 < height <= i32::MAX,
            self.count > self.page(height),
            self.thumb_length(height) < height,
        ensures
            self.dragged_top(0, height) == 0,
            self.dragged_top(height - self.thumb_length(height), height) == self.last_top(height),
    {
        self.thumb_stays_in_its_track(height);
        let travel = height - self.thumb_length(height);
        let last = self.last_top(height);
        assert(0 * last == 0);
        assert(0 <= travel / 2 < travel);
        vstd::arithmetic::div_mod::lemma_basic_div(travel / 2, travel);
        assert((travel * last + travel / 2) / travel == last) by (nonlinear_arith)
            requires
                0 < travel,
                0 <= travel / 2 < travel,
                0 <= last,
        ;
    }
}

/// A row's text color: the selection's own color only over the focused selection.
pub open spec fn foreground_of(look: RowLook, palette: Palette) -> u32 {
    match palette.selection_foreground {
        Some(color) if look.selected && look.focused => color,
        _ => palette.editor_foreground,
    }
}

/// The color of a row's dim parts: over the focused selection they take its text color, to stay
/// legible.
pub open spec fn muted_of(look: RowLook, palette: Palette) -> u32 {
    if look.selected && look.focused {
        foreground_of(look, palette)
    } else {
        palette.muted_foreground
    }
}

pub fn row_muted(look: RowLook, palette: &Palette) -> (color: u32)
    ensures
        color == muted_of(look, *palette),
{
    if look.selected && look.focused {
        row_foreground(look, palette)
    } else {
        palette.muted_foreground
    }
}

/// A row's text color. An unfocused selection sits on the inactive-selection background and keeps
/// the editor's text color.
pub fn row_foreground(look: RowLook, palette: &Palette) -> (color: u32)
    ensures
        color == foreground_of(look, *palette),
{
    if look.selected && look.focused {
        match palette.selection_foreground {
            Some(color) => color,
            None => palette.editor_foreground,
        }
    } else {
        palette.editor_foreground
    }
}

/// One row to paint: what fills its background, if anything, before it is drawn.
#[derive(Clone, Copy, Debug, PartialEq, Eq, Structural)]
pub struct RowSlot {
    pub index: usize,
    pub rect: Rect,
    pub look: RowLook,
    pub background: Option<u32>,
}

/// The rows in view in the order they are painted, and the scroll thumb painted last.
#[derive(Debug)]
pub struct ListPlan {
    pub rows: Vec<RowSlot>,
    pub thumb: Option<Rect>,
}

/// The row painted `offset` rows below the first in view.
pub open spec fn slot_at(
    area: Rect,
    state: RowListState,
    palette: Palette,
    focused: bool,
    offset: int,
) -> RowSlot {
    let index = (state.top + offset) as usize;
    let top = area.top + offset * state.row_height;
    let look = RowLook {
        selected: state.selected == Some(index),
        hover: state.hover == Some(index),
        focused,
    };
    RowSlot {
        index,
        rect: Rect {
            left: area.left,
            top: top as i32,
            right: area.right,
            bottom: (top + state.row_height) as i32,
        },
        look,
        background: if look.selected {
            Some(
                if focused {
                    palette.selection_background
                } else {
                    palette.inactive_selection_background
                },
            )
        } else if look.hover {
            Some(palette.hover_background)
        } else {
            None
        },
    }
}

/// How many rows `paint` lists: none in an empty area.
pub open spec fn painted_rows(area: Rect, state: RowListState) -> int {
    if area.bottom <= area.top || area.right <= area.left {
        0
    } else {
        state.in_view(area.bottom - area.top)
    }
}

/// The rows `paint` lists.
pub open spec fn painted(
    area: Rect,
    state: RowListState,
    palette: Palette,
    focused: bool,
) -> Seq<RowSlot> {
    Seq::new(
        painted_rows(area, state) as nat,
        |offset: int| slot_at(area, state, palette, focused, offset),
    )
}

/// The scroll thumb at the right edge of `area`.
pub open spec fn painted_thumb(area: Rect, state: RowListState) -> Option<Rect> {
    if area.bottom <= area.top || area.right <= area.left {
        None
    } else {
        match state.thumb_at(area.bottom - area.top) {
            Some((top, length)) => Some(
                Rect {
                    left: (area.right - thumb_wide(state.row_height as int)) as i32,
                    top: (area.top + top) as i32,
                    right: area.right,
                    bottom: (area.top + top + length) as i32,
                },
            ),
            None => None,
        }
    }
}

/// What to paint in `area`, clipped to it: each row in view with its background (the selection's,
/// in the unfocused color when `focused` is false, or the hover's), then the thin scroll thumb at
/// the right edge. Rows out of view are never touched.
pub fn paint(area: Rect, state: &RowListState, palette: &Palette, focused: bool) -> (plan: ListPlan)
    requires
        state.wf(),
        area.in_range(),
    ensures
        plan.rows@ == painted(area, *state, *palette, focused),
        plan.thumb == painted_thumb(area, *state),
{
    let mut rows: Vec<RowSlot> = Vec::new();
    let height: i32 = area.bottom - area.top;
    if height <= 0 || area.right <= area.left {
        return ListPlan { rows, thumb: None };
    }
    let visible: usize = state.visible_rows(height);
    let mut offset: usize = 0;
    while offset < visible
        invariant
            state.wf(),
            area.in_range(),
            height == area.bottom - area.top,
            0 < height,
            area.left < area.right,
            visible == state.in_view(height as int),
            offset <= visible,
            rows@ == painted(area, *state, *palette, focused).take(offset as int),
        decreases visible - offset,
    {
        proof {
            let row = state.row_height as int;
            let fits = (height + row - 1) / row;
            assert(offset * row < height && 0 <= offset * row) by (nonlinear_arith)
                requires
                    0 <= offset < fits,
                    fits == (height + row - 1) / row,
                    0 < row,
                    0 < height,
            ;
        }
        let index: usize = state.top + offset;
        let top: i32 = area.top + (offset as i32) * state.row_height;
        let look = RowLook {
            selected: state.selected == Some(index),
            hover: state.hover == Some(index),
            focused,
        };
        let background: Option<u32> = if look.selected {
            Some(
                if focused {
                    palette.selection_background
                } else {
                    palette.inactive_selection_background
                },
            )
        } else if look.hover {
            Some(palette.hover_background)
        } else {
            None
        };
        rows.push(
            RowSlot {
                index,
                rect: Rect {
                    left: area.left,
                    top,
                    right: area.right,
                    bottom: top + state.row_height,
                },
                look,
                background,
            },
        );
        offset = offset + 1;
        assert(rows@ == painted(area, *state, *palette, focused).take(offset as int));
    }
    let thumb: Option<Rect> = match state.thumb(height) {
        Some((thumb_top, length)) => Some(
            Rect {
                left: area.right - thumb_width(state.row_height),
                top: area.top + thumb_top,
                right: area.right,
                bottom: area.top + thumb_top + length,
            },
        ),
        None => None,
    };
    assert(rows@ == painted(area, *state, *palette, focused));
    ListPlan { rows, thumb }
}

/// Every row that `paint` lists has a pixel in the area, and together they cover consecutive rows
/// from the first in view.
pub proof fn painted_rows_are_in_view(
    area: Rect,
    state: RowListState,
    palette: Palette,
    focused: bool,
    offset: int,
)
    requires
        state.wf(),
        area.in_range(),
        0 <= offset < painted(area, state, palette, focused).len(),
    ensures
        ({
            let slot = painted(area, state, palette, focused)[offset];
            &&& slot.index == state.top + offset
            &&& slot.index < state.count
            &&& area.top <= slot.rect.top < area.bottom
        }),
{
    let row = state.row_height as int;
    let height = area.bottom - area.top;
    let fits = (height + row - 1) / row;
    assert(offset * row < height && 0 <= offset * row) by (nonlinear_arith)
        requires
            0 <= offset < fits,
            fits == (height + row - 1) / row,
            0 < row,
            0 < height,
    ;
}

} // verus!
