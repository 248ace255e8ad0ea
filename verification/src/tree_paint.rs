//! How the notebook's tree is painted: a row's parts, the states without a tree, the label and the
//! band of a drag.

use crate::document::DocumentId;
use crate::drawing::{draw_icon, draw_text, fill, Align, DrawStep, Font, Item, Step, TreeItem};
use crate::geometry::{height, Rect, Size};
use crate::palette::Palette;
use crate::panel::{inset, scale};
use crate::paths::extension;
use crate::row_list::{row_foreground, row_muted, RowListState, RowLook};
use crate::text::join3;
use crate::tree::{row_index, same_kind, Kind, RowKind, TreeRow};
use vstd::prelude::*;
use vstd::string::*;

verus! {

pub const INDENT: i32 = 12;

pub const LEFT_PAD: i32 = 8;

pub const GLYPH_BOX: i32 = 16;

pub const GAP: i32 = 6;

pub const PIN_BOX: i32 = 24;

/// Letters typed within this many milliseconds of each other form one prefix.
pub const TYPE_AHEAD_RESET_MS: u64 = 1000;

pub const TRUNCATED_ROW: &'static str = "Showing the first 10,000 notes";

/// The drag label's height, at 96 DPI.
pub const LABEL_HEIGHT: i32 = 24;

/// The padding at either end of the drag label.
pub const LABEL_PAD: i32 = 8;

/// The widest the drag label's name gets before an ellipsis.
pub const LABEL_MAX_TEXT: i32 = 300;

pub const GLYPH_CHEVRON_RIGHT: &'static str = "\u{E76C}";

pub const GLYPH_CHEVRON_DOWN: &'static str = "\u{E70D}";

pub const GLYPH_FOLDER: &'static str = "\u{E8B7}";

/// The tilted pin's outline, needle included.
pub const GLYPH_PIN: &'static str = "\u{E840}";

/// The tilted pin's head fill, with no needle: drawn under `GLYPH_PIN`.
pub const GLYPH_PINNED: &'static str = "\u{E842}";

/// A tree row's pieces.
#[derive(Clone, Copy, Debug, PartialEq, Eq, Structural)]
pub struct RowParts {
    pub chevron: Rect,
    pub icon: Rect,
    pub name: Rect,
    pub pin: Rect,
}

/// A tree row's pieces: the chevron (folders only) and icon, indented by `depth`, the name, and the
/// pin button at the right edge.
pub open spec fn parts_of(row: Rect, depth: int, dpi: int) -> RowParts {
    let glyph = crate::panel::scaled(GLYPH_BOX as int, dpi);
    let start = vstd::math::min(
        row.left + crate::panel::scaled(LEFT_PAD as int, dpi) + depth * crate::panel::scaled(
            INDENT as int,
            dpi,
        ),
        row.right as int,
    );
    let after_chevron = vstd::math::min(start + glyph, row.right as int);
    let after_icon = vstd::math::min(after_chevron + glyph, row.right as int);
    let pin = vstd::math::max(
        row.right - crate::panel::scaled(PIN_BOX as int, dpi),
        after_icon,
    );
    RowParts {
        chevron: Rect { left: start as i32, right: after_chevron as i32, ..row },
        icon: Rect { left: after_chevron as i32, right: after_icon as i32, ..row },
        name: Rect {
            left: vstd::math::min(
                after_icon + crate::panel::scaled(GAP as int, dpi),
                pin,
            ) as i32,
            right: pin as i32,
            ..row
        },
        pin: Rect { left: pin as i32, ..row },
    }
}

proof fn indents_are_bounded(depth: int, dpi: int)
    requires
        0 <= depth <= 0xffff,
        0 <= dpi <= crate::panel::MAX_DPI,
    ensures
        0 <= depth * crate::panel::scaled(INDENT as int, dpi) <= 0x2000_0000,
        0 <= crate::panel::scaled(LEFT_PAD as int, dpi) <= 0x10_0000,
        0 <= crate::panel::scaled(GLYPH_BOX as int, dpi) <= 0x10_0000,
        0 <= crate::panel::scaled(PIN_BOX as int, dpi) <= 0x10_0000,
        0 <= crate::panel::scaled(GAP as int, dpi) <= 0x10_0000,
{
    crate::panel::scaled_is_bounded(INDENT as int, dpi);
    crate::panel::scaled_is_bounded(LEFT_PAD as int, dpi);
    crate::panel::scaled_is_bounded(GLYPH_BOX as int, dpi);
    crate::panel::scaled_is_bounded(PIN_BOX as int, dpi);
    crate::panel::scaled_is_bounded(GAP as int, dpi);
    let step = crate::panel::scaled(INDENT as int, dpi);
    assert(step <= 0x2000);
    assert(0 <= depth * step <= 0x2000_0000) by (nonlinear_arith)
        requires
            0 <= depth <= 0xffff,
            0 <= step <= 0x2000,
    ;
}

/// A tree row's pieces. Every rectangle stays inside `row`, even in a narrow panel.
pub fn row_parts(row: Rect, depth: u16, dpi: u32) -> (parts: RowParts)
    requires
        dpi <= crate::panel::MAX_DPI,
    ensures
        parts == parts_of(row, depth as int, dpi as int),
{
    proof {
        indents_are_bounded(depth as int, dpi as int);
    }
    let right: i64 = row.right as i64;
    let glyph: i64 = scale(GLYPH_BOX, dpi) as i64;
    let indent: i64 = depth as i64 * scale(INDENT, dpi) as i64;
    let start: i64 = (row.left as i64 + scale(LEFT_PAD, dpi) as i64 + indent).min(right);
    let after_chevron: i64 = (start + glyph).min(right);
    let after_icon: i64 = (after_chevron + glyph).min(right);
    let pin: i64 = (right - scale(PIN_BOX, dpi) as i64).max(after_icon);
    let name: i64 = (after_icon + scale(GAP, dpi) as i64).min(pin);
    RowParts {
        chevron: part(row, start as i32, after_chevron as i32),
        icon: part(row, after_chevron as i32, after_icon as i32),
        name: part(row, name as i32, pin as i32),
        pin: part(row, pin as i32, row.right),
    }
}

/// The part of a row from `left` to `right`.
fn part(row: Rect, left: i32, right: i32) -> (part: Rect)
    ensures
        part == (Rect { left, right, ..row }),
{
    Rect { left, top: row.top, right, bottom: row.bottom }
}

/// Every part of a row lies in it, whatever its depth and the panel's width, and none is inside
/// out.
pub proof fn row_parts_stay_inside(row: Rect, depth: int, dpi: int)
    requires
        row.left <= row.right,
        0 <= depth <= 0xffff,
        0 <= dpi <= crate::panel::MAX_DPI,
    ensures
        ({
            let parts = parts_of(row, depth, dpi);
            &&& parts.chevron.within(row)
            &&& parts.icon.within(row)
            &&& parts.name.within(row)
            &&& parts.pin.within(row)
            &&& parts.chevron.left <= parts.chevron.right == parts.icon.left <= parts.icon.right
            &&& parts.icon.right <= parts.name.left <= parts.name.right == parts.pin.left
                <= parts.pin.right == row.right
            &&& parts.chevron.top == parts.icon.top == parts.name.top == parts.pin.top == row.top
            &&& parts.chevron.bottom == parts.icon.bottom == parts.name.bottom == parts.pin.bottom
                == row.bottom
        }),
{
    indents_are_bounded(depth, dpi);
}

/// Where the states without a tree put what they show.
#[derive(Clone, Copy, Debug, PartialEq, Eq, Structural)]
pub struct StateLayout {
    pub message: Rect,
    pub button: Rect,
    /// "Open notebook" under "Retry", in the failed state.
    pub second: Rect,
    /// "RECENT", in the no-notebook state.
    pub label: Rect,
    /// The recent rows.
    pub list: Rect,
}

/// Where the states without a tree put their message, button and RECENT list, from the top.
pub open spec fn state_boxes(body: Rect, dpi: int) -> StateLayout {
    let pad = crate::panel::scaled(12, dpi);
    let left = body.left + pad;
    let right = vstd::math::max(body.right - pad, left);
    let message_bottom = body.top + crate::panel::scaled(48, dpi);
    let button_top = message_bottom + crate::panel::scaled(4, dpi);
    let button_bottom = message_bottom + crate::panel::scaled(32, dpi);
    let button_right = vstd::math::min(left + crate::panel::scaled(140, dpi), right);
    let second_top = button_bottom + crate::panel::scaled(8, dpi);
    let label_bottom = button_bottom + crate::panel::scaled(36, dpi);
    StateLayout {
        message: Rect {
            left: left as i32,
            top: (body.top + crate::panel::scaled(8, dpi)) as i32,
            right: right as i32,
            bottom: message_bottom as i32,
        },
        button: Rect {
            left: left as i32,
            top: button_top as i32,
            right: button_right as i32,
            bottom: button_bottom as i32,
        },
        second: Rect {
            left: left as i32,
            top: second_top as i32,
            right: button_right as i32,
            bottom: (second_top + (button_bottom - button_top)) as i32,
        },
        label: Rect {
            left: left as i32,
            top: (button_bottom + crate::panel::scaled(16, dpi)) as i32,
            right: right as i32,
            bottom: label_bottom as i32,
        },
        list: Rect {
            left: body.left,
            top: vstd::math::min(label_bottom, body.bottom as int) as i32,
            right: body.right,
            bottom: body.bottom,
        },
    }
}

proof fn state_sizes_are_bounded(dpi: int)
    requires
        0 <= dpi <= crate::panel::MAX_DPI,
    ensures
        0 <= crate::panel::scaled(12, dpi) <= 0x10_0000,
        0 <= crate::panel::scaled(4, dpi) <= crate::panel::scaled(32, dpi) <= 0x10_0000,
        0 <= crate::panel::scaled(8, dpi) <= crate::panel::scaled(48, dpi) <= 0x10_0000,
        0 <= crate::panel::scaled(140, dpi) <= 0x10_0000,
        0 <= crate::panel::scaled(16, dpi) <= crate::panel::scaled(36, dpi) <= 0x10_0000,
{
    crate::panel::scaled_is_bounded(12, dpi);
    crate::panel::scaled_is_bounded(4, dpi);
    crate::panel::scaled_is_bounded(32, dpi);
    crate::panel::scaled_is_bounded(8, dpi);
    crate::panel::scaled_is_bounded(48, dpi);
    crate::panel::scaled_is_bounded(140, dpi);
    crate::panel::scaled_is_bounded(16, dpi);
    crate::panel::scaled_is_bounded(36, dpi);
}

/// Where the states without a tree put their message, button and RECENT list.
pub fn state_layout(body: Rect, dpi: u32) -> (layout: StateLayout)
    requires
        body.drawable(),
        dpi <= crate::panel::MAX_DPI,
    ensures
        layout == state_boxes(body, dpi as int),
{
    proof {
        state_sizes_are_bounded(dpi as int);
    }
    let pad: i32 = scale(12, dpi);
    let left: i32 = body.left + pad;
    let right: i32 = (body.right - pad).max(left);
    let message = Rect {
        left,
        top: body.top + scale(8, dpi),
        right,
        bottom: body.top + scale(48, dpi),
    };
    let button = Rect {
        left,
        top: message.bottom + scale(4, dpi),
        right: (left + scale(140, dpi)).min(right),
        bottom: message.bottom + scale(32, dpi),
    };
    let second_top: i32 = button.bottom + scale(8, dpi);
    let second = Rect {
        left,
        top: second_top,
        right: button.right,
        bottom: second_top + (button.bottom - button.top),
    };
    let label = Rect {
        left,
        top: button.bottom + scale(16, dpi),
        right,
        bottom: button.bottom + scale(36, dpi),
    };
    let list = Rect {
        left: body.left,
        top: label.bottom.min(body.bottom),
        right: body.right,
        bottom: body.bottom,
    };
    StateLayout { message, button, second, label, list }
}

/// The message, the button and the label are one above the other, and the list is below them all
/// and never inside out, however short the panel.
pub proof fn states_stack_from_the_top(body: Rect, dpi: int)
    requires
        body.drawable(),
        0 <= dpi <= crate::panel::MAX_DPI,
    ensures
        ({
            let layout = state_boxes(body, dpi);
            &&& layout.message.top <= layout.message.bottom <= layout.button.top
                <= layout.button.bottom <= layout.label.top <= layout.label.bottom
            &&& layout.button.bottom <= layout.second.top <= layout.second.bottom
            &&& layout.list.top <= layout.list.bottom
            &&& layout.list.top <= layout.label.bottom
            &&& layout.label.bottom <= body.bottom ==> layout.list.top == layout.label.bottom
        }),
{
    state_sizes_are_bounded(dpi);
}

/// The row that stands for `kind` after a rebuild: the same path if it is still there, else the row
/// that took its index (clamped to the list). Nothing selected stays nothing.
pub open spec fn followed(
    rows: Seq<TreeRow>,
    kind: Option<crate::tree::KindModel>,
    old_index: Option<usize>,
) -> Option<usize> {
    match kind {
        Some(kind) => match crate::tree::place(rows, kind) {
            Some(index) => Some(index),
            None => if rows.len() == 0 {
                None
            } else {
                Some(
                    vstd::math::min(
                        match old_index {
                            Some(index) => index as int,
                            None => 0,
                        },
                        rows.len() - 1,
                    ) as usize,
                )
            },
        },
        None => None,
    }
}

pub fn follow(rows: &Vec<TreeRow>, kind: Option<&RowKind>, old_index: Option<usize>) -> (index:
    Option<usize>)
    ensures
        index == followed(
            rows@,
            match kind {
                Some(kind) => Some(crate::tree::kind_model(*kind)),
                None => None,
            },
            old_index,
        ),
        index matches Some(index) ==> index < rows.len(),
{
    match kind {
        Some(kind) => match row_index(rows, kind) {
            Some(index) => Some(index),
            None => if rows.len() == 0 {
                None
            } else {
                let at: usize = match old_index {
                    Some(at) => at,
                    None => 0,
                };
                Some(at.min(rows.len() - 1))
            },
        },
        None => None,
    }
}

/// Letters typed into the tree within a second of each other form one prefix. Times are in
/// milliseconds.
#[derive(Debug)]
pub struct TypeAhead {
    pub text: String,
    pub at: Option<u64>,
}

impl Default for TypeAhead {
    fn default() -> (typed: Self)
        ensures
            typed.text@ == Seq::<char>::empty(),
            typed.at is None,
    {
        TypeAhead { text: String::new(), at: None }
    }
}

impl TypeAhead {
    /// The prefix that another letter makes at `now`.
    pub open spec fn prefix(self, ch: char, now: u64) -> Seq<char> {
        match self.at {
            Some(at) if now - at < TYPE_AHEAD_RESET_MS => self.text@.push(ch),
            _ => seq![ch],
        }
    }

    /// Adds a letter; returns the prefix.
    pub fn push(&mut self, ch: char, now: u64) -> (prefix: String)
        requires
            old(self).at matches Some(at) ==> at <= now,
        ensures
            prefix@ == old(self).prefix(ch, now),
            final(self).text@ == prefix@,
            final(self).at == Some(now),
    {
        let extends: bool = match self.at {
            Some(at) => now - at < TYPE_AHEAD_RESET_MS,
            None => false,
        };
        if !extends {
            self.text = String::new();
        }
        self.text.push(ch);
        self.at = Some(now);
        assert(self.text@ =~= old(self).prefix(ch, now));
        self.text.clone()
    }
}

/// What is dragged over the tree.
#[derive(Debug, PartialEq, Eq)]
pub enum DragSource {
    Row(RowKind),
    /// An open editor's tab with a file.
    Tab { id: DocumentId, path: String },
    /// Files from outside.
    Files(Vec<String>),
}

/// Whether row `index` is the one a started drag carries. Only a dragged row matches: a tab or
/// files are not tree rows, and neither is an index past them.
pub open spec fn carries(dragged: Option<DragSource>, rows: Seq<TreeRow>, index: int) -> bool {
    match dragged {
        Some(DragSource::Row(kind)) => 0 <= index < rows.len() && crate::tree::kind_key(
            crate::tree::kind_model(rows[index].kind),
        ) == crate::tree::kind_key(crate::tree::kind_model(kind)),
        _ => false,
    }
}

pub fn is_dragged_row(dragged: Option<&DragSource>, rows: &Vec<TreeRow>, index: usize) -> (is: bool)
    ensures
        is == carries(
            match dragged {
                Some(dragged) => Some(*dragged),
                None => None,
            },
            rows@,
            index as int,
        ),
{
    match dragged {
        Some(DragSource::Row(kind)) => index < rows.len() && same_kind(&rows[index].kind, kind),
        _ => false,
    }
}

/// The icon of a row: a folder's, open or closed, or the one of the note's type.
pub open spec fn item_of(kind: crate::tree::KindModel, expanded: bool) -> Option<
    crate::drawing::ItemModel,
> {
    match kind {
        Kind::Folder(_) => Some(Item::Folder { expanded }),
        Kind::Note(path) => Some(Item::Note(crate::paths::extension_of(path))),
        _ => None,
    }
}

fn row_item(kind: &RowKind, expanded: bool) -> (item: Option<TreeItem>)
    ensures
        crate::drawing::maybe_item(item) == item_of(crate::tree::kind_model(*kind), expanded),
{
    match kind {
        Kind::Folder(_) => Some(Item::Folder { expanded }),
        Kind::Note(path) => Some(Item::Note(extension(path.as_str()))),
        _ => None,
    }
}

/// The icon a dragged row's label shows: a closed folder or the note's type. `None` for rows that
/// can't be dragged.
pub fn drag_item(kind: &RowKind) -> (item: Option<TreeItem>)
    ensures
        crate::drawing::maybe_item(item) == item_of(crate::tree::kind_model(*kind), false),
{
    row_item(kind, false)
}

/// The row that says that not every note is listed.
pub open spec fn truncated_steps(rect: Rect, look: RowLook, palette: Palette, dpi: int) -> Seq<
    crate::drawing::StepModel,
> {
    seq![
        Step::Text {
            text: TRUNCATED_ROW@,
            rect: Rect {
                left: (rect.left + crate::panel::scaled(LEFT_PAD as int, dpi)) as i32,
                ..rect
            },
            font: Font::Italic,
            color: crate::row_list::muted_of(look, palette),
            align: Align::Line,
        },
    ]
}

/// A row's chevron and icon: a folder has both, a note its type's icon, the row of a name being
/// typed the icon of what is named.
pub open spec fn icon_steps(
    row: TreeRow,
    rect: Rect,
    look: RowLook,
    palette: Palette,
    dpi: int,
    editing: Option<crate::drawing::ItemModel>,
) -> Seq<crate::drawing::StepModel> {
    let parts = parts_of(rect, row.depth as int, dpi);
    let muted = crate::row_list::muted_of(look, palette);
    let icon = |item: crate::drawing::ItemModel|
        Step::Icon {
            item,
            rect: parts.icon,
            px: crate::panel::scaled(GLYPH_BOX as int, dpi) as i32,
            muted,
        };
    match row.kind {
        Kind::Folder(_) => seq![
            Step::Text {
                text: if row.expanded {
                    GLYPH_CHEVRON_DOWN@
                } else {
                    GLYPH_CHEVRON_RIGHT@
                },
                rect: parts.chevron,
                font: Font::Glyph,
                color: muted,
                align: Align::Centered,
            },
            icon(Item::Folder { expanded: row.expanded }),
        ],
        Kind::Note(path) => seq![icon(Item::Note(crate::paths::extension_of(path@)))],
        Kind::Draft => match editing {
            Some(item) => seq![icon(item)],
            None => Seq::empty(),
        },
        Kind::Unsaved(_) => Seq::empty(),
    }
}

/// A note's pin. Pinned is a filled glyph, never color alone; an outline shows on the row that is
/// hovered or selected.
pub open spec fn pin_steps(row: TreeRow, rect: Rect, look: RowLook, palette: Palette, dpi: int, pin_hot: bool) -> Seq<
    crate::drawing::StepModel,
> {
    let pin = parts_of(rect, row.depth as int, dpi).pin;
    let foreground = crate::row_list::foreground_of(look, palette);
    let glyph = |text: Seq<char>, color: u32|
        Step::Text { text, rect: pin, font: Font::Glyph, color, align: Align::Centered };
    if row.kind !is Note {
        Seq::empty()
    } else if row.pinned {
        seq![glyph(GLYPH_PINNED@, foreground), glyph(GLYPH_PIN@, foreground)]
    } else if look.hover || look.selected {
        seq![
            glyph(
                GLYPH_PIN@,
                if pin_hot {
                    foreground
                } else {
                    crate::row_list::muted_of(look, palette)
                },
            ),
        ]
    } else {
        Seq::empty()
    }
}

/// A row's name, unless a field covers it; the dragged row's is dim.
pub open spec fn name_steps(
    row: TreeRow,
    rect: Rect,
    look: RowLook,
    palette: Palette,
    dpi: int,
    editing: bool,
    dimmed: bool,
) -> Seq<crate::drawing::StepModel> {
    if editing {
        Seq::empty()
    } else {
        seq![
            Step::Text {
                text: row.name@,
                rect: parts_of(rect, row.depth as int, dpi).name,
                font: Font::Text,
                color: if dimmed {
                    palette.muted_foreground
                } else {
                    crate::row_list::foreground_of(look, palette)
                },
                align: Align::Line,
            },
        ]
    }
}

/// What is drawn of a row; none is the one after the last, where not every note is listed.
pub open spec fn tree_row_steps(
    row: Option<TreeRow>,
    rect: Rect,
    look: RowLook,
    palette: Palette,
    dpi: int,
    pin_hot: bool,
    editing: Option<crate::drawing::ItemModel>,
    dimmed: bool,
) -> Seq<crate::drawing::StepModel> {
    match row {
        Some(row) => icon_steps(row, rect, look, palette, dpi, editing) + pin_steps(
            row,
            rect,
            look,
            palette,
            dpi,
            pin_hot,
        ) + name_steps(row, rect, look, palette, dpi, editing is Some, dimmed),
        None => truncated_steps(rect, look, palette, dpi),
    }
}

fn draw_row_icon(
    drawn: &mut Vec<DrawStep>,
    row: &TreeRow,
    rect: Rect,
    look: RowLook,
    palette: &Palette,
    dpi: u32,
    editing: Option<TreeItem>,
)
    requires
        dpi <= crate::panel::MAX_DPI,
    ensures
        crate::drawing::steps(final(drawn)@) == crate::drawing::steps(old(drawn)@) + icon_steps(
            *row,
            rect,
            look,
            *palette,
            dpi as int,
            crate::drawing::maybe_item(editing),
        ),
{
    proof {
        indents_are_bounded(row.depth as int, dpi as int);
    }
    let ghost start = crate::drawing::steps(drawn@);
    let ghost model = crate::drawing::maybe_item(editing);
    let parts = row_parts(rect, row.depth, dpi);
    let muted: u32 = row_muted(look, palette);
    let px: i32 = scale(GLYPH_BOX, dpi);
    match &row.kind {
        Kind::Folder(_) => {
            let chevron = if row.expanded {
                GLYPH_CHEVRON_DOWN
            } else {
                GLYPH_CHEVRON_RIGHT
            };
            draw_text(drawn, chevron, parts.chevron, Font::Glyph, muted, Align::Centered);
            draw_icon(drawn, Item::Folder { expanded: row.expanded }, parts.icon, px, muted);
        },
        Kind::Note(path) => {
            draw_icon(drawn, Item::Note(extension(path.as_str())), parts.icon, px, muted);
        },
        Kind::Draft => {
            if let Some(item) = editing {
                draw_icon(drawn, item, parts.icon, px, muted);
            }
        },
        Kind::Unsaved(_) => {},
    }
    assert(crate::drawing::steps(drawn@) =~= start + icon_steps(
        *row,
        rect,
        look,
        *palette,
        dpi as int,
        model,
    ));
}

fn draw_row_pin(
    drawn: &mut Vec<DrawStep>,
    row: &TreeRow,
    rect: Rect,
    look: RowLook,
    palette: &Palette,
    dpi: u32,
    pin_hot: bool,
)
    requires
        dpi <= crate::panel::MAX_DPI,
    ensures
        crate::drawing::steps(final(drawn)@) == crate::drawing::steps(old(drawn)@) + pin_steps(
            *row,
            rect,
            look,
            *palette,
            dpi as int,
            pin_hot,
        ),
{
    let ghost start = crate::drawing::steps(drawn@);
    let pin = row_parts(rect, row.depth, dpi).pin;
    let foreground: u32 = row_foreground(look, palette);
    let is_note: bool = match row.kind {
        Kind::Note(_) => true,
        _ => false,
    };
    if is_note {
        if row.pinned {
            draw_text(drawn, GLYPH_PINNED, pin, Font::Glyph, foreground, Align::Centered);
            draw_text(drawn, GLYPH_PIN, pin, Font::Glyph, foreground, Align::Centered);
        } else if look.hover || look.selected {
            let color: u32 = if pin_hot || (look.selected && look.focused) {
                foreground
            } else {
                palette.muted_foreground
            };
            draw_text(drawn, GLYPH_PIN, pin, Font::Glyph, color, Align::Centered);
        }
    }
    assert(crate::drawing::steps(drawn@) =~= start + pin_steps(
        *row,
        rect,
        look,
        *palette,
        dpi as int,
        pin_hot,
    ));
}

/// Draws a tree row, or, for none, the row that says that not every note is listed. `editing` is
/// what the field over an edited row names; `dimmed` is set for the row being dragged.
pub fn draw_tree_row(
    drawn: &mut Vec<DrawStep>,
    row: Option<&TreeRow>,
    rect: Rect,
    look: RowLook,
    palette: &Palette,
    dpi: u32,
    pin_hot: bool,
    editing: Option<TreeItem>,
    dimmed: bool,
)
    requires
        row is None ==> rect.left + crate::panel::scaled(LEFT_PAD as int, dpi as int) <= i32::MAX,
        dpi <= crate::panel::MAX_DPI,
    ensures
        crate::drawing::steps(final(drawn)@) == crate::drawing::steps(old(drawn)@)
            + tree_row_steps(
            match row {
                Some(row) => Some(*row),
                None => None,
            },
            rect,
            look,
            *palette,
            dpi as int,
            pin_hot,
            crate::drawing::maybe_item(editing),
            dimmed,
        ),
{
    let ghost start = crate::drawing::steps(drawn@);
    match row {
        Some(row) => {
            let covered: bool = editing.is_some();
            let ghost model = crate::drawing::maybe_item(editing);
            draw_row_icon(drawn, row, rect, look, palette, dpi, editing);
            draw_row_pin(drawn, row, rect, look, palette, dpi, pin_hot);
            let ghost so_far = crate::drawing::steps(drawn@);
            if !covered {
                let color: u32 = if dimmed {
                    palette.muted_foreground
                } else {
                    row_foreground(look, palette)
                };
                let name = row_parts(rect, row.depth, dpi).name;
                draw_text(drawn, row.name.as_str(), name, Font::Text, color, Align::Line);
            }
            assert(crate::drawing::steps(drawn@) =~= so_far + name_steps(
                *row,
                rect,
                look,
                *palette,
                dpi as int,
                covered,
                dimmed,
            ));
            assert(crate::drawing::steps(drawn@) =~= start + (icon_steps(
                *row,
                rect,
                look,
                *palette,
                dpi as int,
                model,
            ) + pin_steps(*row, rect, look, *palette, dpi as int, pin_hot) + name_steps(
                *row,
                rect,
                look,
                *palette,
                dpi as int,
                covered,
                dimmed,
            )));
        },
        None => {
            proof {
                indents_are_bounded(0, dpi as int);
            }
            let muted: u32 = row_muted(look, palette);
            let text = Rect {
                left: rect.left + scale(LEFT_PAD, dpi),
                top: rect.top,
                right: rect.right,
                bottom: rect.bottom,
            };
            draw_text(drawn, TRUNCATED_ROW, text, Font::Italic, muted, Align::Line);
            assert(crate::drawing::steps(drawn@) =~= start + truncated_steps(
                rect,
                look,
                *palette,
                dpi as int,
            ));
        },
    }
}

/// A recent notebook's label: its name, and where another has the same name, its parent folder.
pub open spec fn recent_label(name: Seq<char>, hint: Option<Seq<char>>) -> Seq<char> {
    match hint {
        Some(hint) => name + "  "@ + hint,
        None => name,
    }
}

/// A recent notebook and, where two names clash, the hint that tells them apart.
#[derive(Debug, PartialEq, Eq)]
pub struct RecentName {
    pub name: String,
    pub hint: Option<String>,
}

/// A recent notebook's row: a folder's symbol and its label.
pub open spec fn recent_steps(
    name: RecentName,
    rect: Rect,
    look: RowLook,
    palette: Palette,
    dpi: int,
) -> Seq<crate::drawing::StepModel> {
    let parts = parts_of(rect, 0, dpi);
    seq![
        Step::Text {
            text: GLYPH_FOLDER@,
            rect: parts.icon,
            font: Font::Glyph,
            color: palette.muted_foreground,
            align: Align::Centered,
        },
        Step::Text {
            text: recent_label(name.name@, crate::text::maybe(name.hint)),
            rect: Rect {
                right: (rect.right - crate::panel::scaled(LEFT_PAD as int, dpi)) as i32,
                ..parts.name
            },
            font: Font::Text,
            color: crate::row_list::foreground_of(look, palette),
            align: Align::Line,
        },
    ]
}

pub fn draw_recent_row(
    drawn: &mut Vec<DrawStep>,
    name: Option<&RecentName>,
    rect: Rect,
    look: RowLook,
    palette: &Palette,
    dpi: u32,
)
    requires
        rect.right - crate::panel::scaled(LEFT_PAD as int, dpi as int) >= i32::MIN,
        dpi <= crate::panel::MAX_DPI,
    ensures
        crate::drawing::steps(final(drawn)@) == crate::drawing::steps(old(drawn)@) + (match name {
            Some(name) => recent_steps(*name, rect, look, *palette, dpi as int),
            None => Seq::empty(),
        }),
{
    let name: &RecentName = match name {
        Some(name) => name,
        None => return,
    };
    let ghost start = crate::drawing::steps(drawn@);
    proof {
        indents_are_bounded(0, dpi as int);
    }
    let foreground: u32 = row_foreground(look, palette);
    let parts = row_parts(rect, 0, dpi);
    draw_text(
        drawn,
        GLYPH_FOLDER,
        parts.icon,
        Font::Glyph,
        palette.muted_foreground,
        Align::Centered,
    );
    let text = Rect {
        left: parts.name.left,
        top: rect.top,
        right: rect.right - scale(LEFT_PAD, dpi),
        bottom: rect.bottom,
    };
    let label = match &name.hint {
        Some(hint) => join3(name.name.as_str(), "  ", hint.as_str()),
        None => name.name.clone(),
    };
    draw_text(drawn, label.as_str(), text, Font::Text, foreground, Align::Line);
    assert(crate::drawing::steps(drawn@) =~= start + recent_steps(
        *name,
        rect,
        look,
        *palette,
        dpi as int,
    ));
}

/// The drag label's size for a name `text` pixels wide: padding, the icon, a gap, the name,
/// padding.
pub open spec fn label_size(text: int, dpi: int) -> Size {
    Size {
        cx: (2 * crate::panel::scaled(LABEL_PAD as int, dpi) + crate::panel::scaled(
            GLYPH_BOX as int,
            dpi,
        ) + crate::panel::scaled(GAP as int, dpi) + text) as i32,
        cy: crate::panel::scaled(LABEL_HEIGHT as int, dpi) as i32,
    }
}

pub fn drag_label_size(text: i32, dpi: u32) -> (size: Size)
    requires
        -crate::geometry::MAX_COORDINATE <= text <= crate::geometry::MAX_COORDINATE,
        dpi <= crate::panel::MAX_DPI,
    ensures
        size == label_size(text as int, dpi as int),
{
    proof {
        indents_are_bounded(0, dpi as int);
        crate::panel::scaled_is_bounded(LABEL_PAD as int, dpi as int);
        crate::panel::scaled_is_bounded(LABEL_HEIGHT as int, dpi as int);
    }
    Size {
        cx: 2 * scale(LABEL_PAD, dpi) + scale(GLYPH_BOX, dpi) + scale(GAP, dpi) + text,
        cy: scale(LABEL_HEIGHT, dpi),
    }
}

/// The drag label's fill, border and text colors: the hover fill with a muted border, or in high
/// contrast only the system window pair.
pub open spec fn label_colors(palette: Palette) -> (u32, u32, u32) {
    if palette.high_contrast {
        (palette.editor_background, palette.editor_foreground, palette.editor_foreground)
    } else {
        (palette.hover_background, palette.muted_foreground, palette.editor_foreground)
    }
}

pub fn drag_label_colors(palette: &Palette) -> (colors: (u32, u32, u32))
    ensures
        colors == label_colors(*palette),
{
    if palette.high_contrast {
        (palette.editor_background, palette.editor_foreground, palette.editor_foreground)
    } else {
        (palette.hover_background, palette.muted_foreground, palette.editor_foreground)
    }
}

/// How thick a hairline is.
pub open spec fn hairline(dpi: int) -> int {
    vstd::math::max(crate::panel::scaled(1, dpi), 1)
}

/// What the drag label shows: a border, the icon the row shows, and the name, cut with an ellipsis.
pub open spec fn label_steps(
    size: Size,
    item: crate::drawing::ItemModel,
    name: Seq<char>,
    palette: Palette,
    dpi: int,
) -> Seq<crate::drawing::StepModel> {
    let (background, border, text) = label_colors(palette);
    let line = hairline(dpi);
    let pad = crate::panel::scaled(LABEL_PAD as int, dpi);
    let px = crate::panel::scaled(GLYPH_BOX as int, dpi);
    let top = crate::option_toggles::half(size.cy - px);
    seq![
        Step::Fill { rect: Rect { left: 0, top: 0, right: size.cx, bottom: size.cy }, color: border },
        Step::Fill {
            rect: Rect {
                left: line as i32,
                top: line as i32,
                right: (size.cx - line) as i32,
                bottom: (size.cy - line) as i32,
            },
            color: background,
        },
        Step::Icon {
            item,
            rect: Rect {
                left: pad as i32,
                top: top as i32,
                right: (pad + px) as i32,
                bottom: (top + px) as i32,
            },
            px: px as i32,
            muted: palette.muted_foreground,
        },
        Step::Text {
            text: name,
            rect: Rect {
                left: (pad + px + crate::panel::scaled(GAP as int, dpi)) as i32,
                top: 0,
                right: (size.cx - pad) as i32,
                bottom: size.cy,
            },
            font: Font::Text,
            color: text,
            align: Align::Line,
        },
    ]
}

pub fn paint_drag_label(size: Size, item: TreeItem, name: &str, palette: &Palette, dpi: u32) -> (drawn:
    Vec<DrawStep>)
    requires
        -crate::geometry::MAX_COORDINATE <= size.cx <= crate::geometry::MAX_COORDINATE,
        -crate::geometry::MAX_COORDINATE <= size.cy <= crate::geometry::MAX_COORDINATE,
        dpi <= crate::panel::MAX_DPI,
    ensures
        crate::drawing::steps(drawn@) == label_steps(
            size,
            crate::drawing::item_model(item),
            name@,
            *palette,
            dpi as int,
        ),
{
    proof {
        indents_are_bounded(0, dpi as int);
        crate::panel::scaled_is_bounded(LABEL_PAD as int, dpi as int);
        crate::panel::scaled_is_bounded(1, dpi as int);
    }
    let ghost model = crate::drawing::item_model(item);
    let (background, border, text) = drag_label_colors(palette);
    let whole = Rect { left: 0, top: 0, right: size.cx, bottom: size.cy };
    let mut drawn: Vec<DrawStep> = Vec::new();
    fill(&mut drawn, whole, border);
    fill(&mut drawn, inset(whole, scale(1, dpi).max(1)), background);
    let pad: i32 = scale(LABEL_PAD, dpi);
    let px: i32 = scale(GLYPH_BOX, dpi);
    let top: i32 = (size.cy - px) / 2;
    let icon = Rect { left: pad, top, right: pad + px, bottom: top + px };
    draw_icon(&mut drawn, item, icon, px, palette.muted_foreground);
    let name_rect = Rect {
        left: icon.right + scale(GAP, dpi),
        top: 0,
        right: size.cx - pad,
        bottom: size.cy,
    };
    draw_text(&mut drawn, name, name_rect, Font::Text, text, Align::Line);
    assert(crate::drawing::steps(drawn@) =~= label_steps(size, model, name@, *palette, dpi as int));
    drawn
}

/// The drop target that a drag highlights: the whole list for the root, else a folder's rows.
#[derive(Clone, Copy, Debug, PartialEq, Eq, Structural)]
pub enum Highlight {
    Root,
    Rows { start: usize, end: usize },
}

/// Where a highlight shows in the tree's list area: the whole list for the root, else the part of
/// the folder's rows in view; none when none of them is.
pub open spec fn band(list: Rect, state: RowListState, highlight: Highlight) -> Option<Rect> {
    match highlight {
        Highlight::Root => Some(list),
        Highlight::Rows { start, end } => {
            let first = vstd::math::max(start as int, state.top as int);
            let last = vstd::math::min(end as int, state.top + state.in_view(list.tall()));
            if first < last {
                Some(
                    Rect {
                        left: list.left,
                        top: (list.top + (first - state.top) * state.row_height) as i32,
                        right: list.right,
                        bottom: vstd::math::min(
                            list.top + (last - state.top) * state.row_height,
                            list.bottom as int,
                        ) as i32,
                    },
                )
            } else {
                None
            }
        },
    }
}

proof fn offsets_in_view_are_bounded(state: RowListState, tall: int, offset: int)
    requires
        state.wf(),
        0 <= tall <= 0x4000_0000,
        0 <= offset <= state.in_view(tall),
    ensures
        0 <= offset * state.row_height <= 0x5000_0000,
        offset < state.in_view(tall) ==> offset * state.row_height < tall,
{
    let h = state.row_height as int;
    let fits = (tall + h - 1) / h;
    assert(fits * h <= tall + h - 1) by (nonlinear_arith)
        requires
            fits == (tall + h - 1) / h,
            h >= 1,
    ;
    assert(0 <= offset * h <= fits * h) by (nonlinear_arith)
        requires
            0 <= offset <= fits,
            h >= 1,
    ;
    if offset < fits {
        assert(offset * h <= fits * h - h) by (nonlinear_arith)
            requires
                offset <= fits - 1,
                h >= 1,
        ;
    }
}

pub fn band_rect(list: Rect, state: &RowListState, highlight: Highlight) -> (rect: Option<Rect>)
    requires
        state.wf(),
        list.in_range(),
    ensures
        rect == band(list, *state, highlight),
        rect matches Some(rect) ==> rect.in_range(),
{
    match highlight {
        Highlight::Root => Some(list),
        Highlight::Rows { start, end } => {
            let visible: usize = state.visible_rows(height(list));
            let first: usize = start.max(state.top);
            let last: usize = end.min(state.top + visible);
            if first < last {
                proof {
                    offsets_in_view_are_bounded(*state, list.tall(), first - state.top);
                    offsets_in_view_are_bounded(*state, list.tall(), last - state.top);
                }
                let from: i64 = (first - state.top) as i64 * state.row_height as i64;
                let to: i64 = (last - state.top) as i64 * state.row_height as i64;
                Some(
                    Rect {
                        left: list.left,
                        top: (list.top as i64 + from) as i32,
                        right: list.right,
                        bottom: (list.top as i64 + to).min(list.bottom as i64) as i32,
                    },
                )
            } else {
                None
            }
        },
    }
}

/// The four edges of an outline just inside `rect`.
pub open spec fn outline_steps(rect: Rect, color: u32, dpi: int) -> Seq<crate::drawing::StepModel> {
    let line = hairline(dpi);
    seq![
        Step::Fill { rect: Rect { bottom: (rect.top + line) as i32, ..rect }, color },
        Step::Fill { rect: Rect { top: (rect.bottom - line) as i32, ..rect }, color },
        Step::Fill { rect: Rect { right: (rect.left + line) as i32, ..rect }, color },
        Step::Fill { rect: Rect { left: (rect.right - line) as i32, ..rect }, color },
    ]
}

/// A 1 px (scaled) outline just inside `rect`.
pub fn paint_outline(drawn: &mut Vec<DrawStep>, rect: Rect, color: u32, dpi: u32)
    requires
        rect.drawable(),
        dpi <= crate::panel::MAX_DPI,
    ensures
        crate::drawing::steps(final(drawn)@) == crate::drawing::steps(old(drawn)@) + outline_steps(
            rect,
            color,
            dpi as int,
        ),
{
    proof {
        crate::panel::scaled_is_bounded(1, dpi as int);
    }
    let ghost start = crate::drawing::steps(drawn@);
    let line: i32 = scale(1, dpi).max(1);
    fill(
        drawn,
        Rect { left: rect.left, top: rect.top, right: rect.right, bottom: rect.top + line },
        color,
    );
    fill(
        drawn,
        Rect { left: rect.left, top: rect.bottom - line, right: rect.right, bottom: rect.bottom },
        color,
    );
    fill(
        drawn,
        Rect { left: rect.left, top: rect.top, right: rect.left + line, bottom: rect.bottom },
        color,
    );
    fill(
        drawn,
        Rect { left: rect.right - line, top: rect.top, right: rect.right, bottom: rect.bottom },
        color,
    );
    assert(crate::drawing::steps(drawn@) =~= start + outline_steps(rect, color, dpi as int));
}

/// The drop target's band: before the rows it is filled with the softer selection color; after
/// them, in high contrast only, it is outlined in the system highlight, since a blend is not
/// allowed there.
pub open spec fn band_steps(rect: Rect, palette: Palette, dpi: int, before_rows: bool) -> Seq<
    crate::drawing::StepModel,
> {
    if before_rows && !palette.high_contrast {
        seq![Step::Fill { rect, color: palette.inactive_selection_background }]
    } else if !before_rows && palette.high_contrast {
        outline_steps(rect, palette.selection_background, dpi)
    } else {
        Seq::empty()
    }
}

pub fn paint_band(drawn: &mut Vec<DrawStep>, rect: Rect, palette: &Palette, dpi: u32, before_rows: bool)
    requires
        rect.drawable(),
        dpi <= crate::panel::MAX_DPI,
    ensures
        crate::drawing::steps(final(drawn)@) == crate::drawing::steps(old(drawn)@) + band_steps(
            rect,
            *palette,
            dpi as int,
            before_rows,
        ),
{
    let ghost start = crate::drawing::steps(drawn@);
    if before_rows && !palette.high_contrast {
        fill(drawn, rect, palette.inactive_selection_background);
    } else if !before_rows && palette.high_contrast {
        paint_outline(drawn, rect, palette.selection_background, dpi);
    }
    assert(crate::drawing::steps(drawn@) =~= start + band_steps(
        rect,
        *palette,
        dpi as int,
        before_rows,
    ));
}

} // verus!
