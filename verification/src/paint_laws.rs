//! What the panel's parts draw, whatever they show: rows and their parts, bands and outlines,
//! headers and states, and the Search view's results and lines.

use crate::drawing::{Align, Font, Item, ItemModel, Step, StepModel};
use crate::geometry::{Rect, Size};
use crate::notebook_hits::{NEW_NOTE, OPEN_NOTEBOOK, RETRY};
use crate::notebook_paint::{GLYPH_STAR, GLYPH_STAR_FILLED};
use crate::notebook_view::{Frame, HeaderButton, Mode, NotebookView};
use crate::option_toggles::ToggleLook;
use crate::palette::Palette;
use crate::panel_cursor::Cursor;
use crate::row_list::{RowListState, RowLook, RowSlot};
use crate::search_lines::TextHit;
use crate::search_paint::RowText;
use crate::search_view::SearchView;
use crate::tree::{Kind, TreeRow};
use crate::tree_paint::{
    DragSource, Highlight, RecentName, GLYPH_CHEVRON_DOWN, GLYPH_CHEVRON_RIGHT, GLYPH_PIN,
    GLYPH_PINNED,
};
use vstd::prelude::*;

verus! {

/// The text that a step draws.
pub open spec fn drawn_text(step: StepModel) -> Option<Seq<char>> {
    match step {
        Step::Text { text, .. } => Some(text),
        _ => None,
    }
}

/// Where a row has room, each level indents its parts by one step more, and the pin stays at the
/// right edge; chevron, icon and name follow each other.
pub proof fn deeper_rows_are_indented(row: Rect, depth: int, dpi: int)
    requires
        row.in_range(),
        0 <= depth < 100,
        96 <= dpi <= 960,
        row.right - row.left >= 0x1000_0000 - 1,
    ensures
        ({
            let parts = crate::tree_paint::parts_of(row, depth, dpi);
            let deeper = crate::tree_paint::parts_of(row, depth + 1, dpi);
            let step = crate::panel::scaled(crate::tree_paint::INDENT as int, dpi);
            &&& deeper.chevron.left - parts.chevron.left == step
            &&& deeper.icon.left - parts.icon.left == step
            &&& deeper.name.left - parts.name.left == step
            &&& deeper.pin == parts.pin
            &&& parts.pin.right == row.right
            &&& parts.pin.right - parts.pin.left == crate::panel::scaled(24, dpi)
            &&& parts.chevron.right - parts.chevron.left == crate::panel::scaled(16, dpi)
            &&& parts.icon.right - parts.icon.left == crate::panel::scaled(16, dpi)
            &&& parts.name.left - parts.icon.right == crate::panel::scaled(6, dpi)
            &&& parts.name.right == parts.pin.left
            &&& depth == 0 ==> parts.chevron.left - row.left == crate::panel::scaled(8, dpi)
        }),
{
    let step = crate::panel::scaled(crate::tree_paint::INDENT as int, dpi);
    crate::panel::scaled_is_bounded(crate::tree_paint::INDENT as int, dpi);
    crate::panel::scaled_is_bounded(24, dpi);
    crate::panel::scaled_is_bounded(16, dpi);
    crate::panel::scaled_is_bounded(8, dpi);
    crate::panel::scaled_is_bounded(6, dpi);
    assert((depth + 1) * step == depth * step + step) by (nonlinear_arith);
    assert(0 <= depth * step <= 100 * 0x10_0000) by (nonlinear_arith)
        requires
            0 <= depth < 100,
            0 <= step <= 0x10_0000,
    ;
    assert(depth == 0 ==> depth * step == 0) by (nonlinear_arith);
}

/// A folder shows a chevron, down where it is expanded and right where it is not, and a folder's
/// icon as open; a note shows the icon of its type.
pub proof fn a_row_shows_what_it_is(
    row: TreeRow,
    rect: Rect,
    look: RowLook,
    palette: Palette,
    dpi: int,
)
    ensures
        ({
            let steps = crate::tree_paint::icon_steps(row, rect, look, palette, dpi, None);
            let parts = crate::tree_paint::parts_of(rect, row.depth as int, dpi);
            &&& row.kind is Folder ==> steps.len() == 2 && drawn_text(steps[0]) == Some(
                if row.expanded {
                    GLYPH_CHEVRON_DOWN@
                } else {
                    GLYPH_CHEVRON_RIGHT@
                },
            ) && (steps[0] matches Step::Text { rect: at, .. } && at == parts.chevron) && (
            steps[1] matches Step::Icon { item, rect: at, .. } && item == (Item::<
                Seq<char>,
            >::Folder { expanded: row.expanded }) && at == parts.icon)
            &&& row.kind matches Kind::Note(path) ==> steps.len() == 1 && (
            steps[0] matches Step::Icon { item, rect: at, .. } && item == Item::Note(
                crate::paths::extension_of(path@),
            ) && at == parts.icon)
            &&& row.kind is Unsaved || row.kind is Draft ==> steps.len() == 0
            &&& crate::tree_paint::item_of(crate::tree::kind_model(row.kind), row.expanded) is Some
                <==> row.kind is Folder || row.kind is Note
        }),
{
}

/// A pinned note shows its pin, filled, always; another one shows an outline while it is hovered or
/// selected. What is no note shows none, and all of it is in the pin's box.
pub proof fn a_pin_shows_by_its_shape(
    row: TreeRow,
    rect: Rect,
    look: RowLook,
    palette: Palette,
    dpi: int,
    hot: bool,
)
    ensures
        ({
            let steps = crate::tree_paint::pin_steps(row, rect, look, palette, dpi, hot);
            let pin = crate::tree_paint::parts_of(rect, row.depth as int, dpi).pin;
            &&& !(row.kind is Note) ==> steps.len() == 0
            &&& row.kind is Note && row.pinned ==> steps.len() == 2 && drawn_text(steps[0]) == Some(
                GLYPH_PINNED@,
            ) && drawn_text(steps[1]) == Some(GLYPH_PIN@)
            &&& row.kind is Note && !row.pinned && (look.hover || look.selected) ==> steps.len()
                == 1 && drawn_text(steps[0]) == Some(GLYPH_PIN@)
            &&& row.kind is Note && !row.pinned && !look.hover && !look.selected ==> steps.len()
                == 0
            &&& forall|i: int|
                0 <= i < steps.len() ==> (#[trigger] steps[i] matches Step::Text { rect: at, .. }
                    && at == pin)
        }),
{
}

/// A row's name is drawn where no field covers it, dim for the row that is dragged.
pub proof fn a_name_is_drawn_unless_it_is_edited(
    row: TreeRow,
    rect: Rect,
    look: RowLook,
    palette: Palette,
    dpi: int,
    dimmed: bool,
)
    ensures
        crate::tree_paint::name_steps(row, rect, look, palette, dpi, true, dimmed).len() == 0,
        ({
            let steps = crate::tree_paint::name_steps(row, rect, look, palette, dpi, false, dimmed);
            &&& steps.len() == 1
            &&& steps[0] matches Step::Text { text, rect: at, color, .. } && text == row.name@ && at
                == crate::tree_paint::parts_of(rect, row.depth as int, dpi).name && color == (
            if dimmed {
                palette.muted_foreground
            } else {
                crate::row_list::foreground_of(look, palette)
            })
        }),
{
}

/// The dragged row is the one that stands for what is dragged; a dragged tab or file is no row.
pub proof fn only_the_dragged_row_is_dimmed(
    rows: Seq<TreeRow>,
    index: int,
    kind: Kind<String>,
    source: DragSource,
)
    requires
        0 <= index < rows.len(),
    ensures
        crate::tree_paint::carries(Some(DragSource::Row(kind)), rows, index)
            <==> crate::tree::kind_key(crate::tree::kind_model(rows[index].kind))
            == crate::tree::kind_key(crate::tree::kind_model(kind)),
        crate::tree_paint::carries(Some(DragSource::Row(rows[index].kind)), rows, index),
        !(source is Row) ==> !crate::tree_paint::carries(Some(source), rows, index),
        !crate::tree_paint::carries(None, rows, index),
        !crate::tree_paint::carries(Some(DragSource::Row(kind)), rows, rows.len() as int),
{
}

/// A recent notebook reads its name, with its hint after it where another has the same name.
pub proof fn a_recent_row_reads_its_name(
    name: RecentName,
    rect: Rect,
    look: RowLook,
    palette: Palette,
    dpi: int,
)
    ensures
        ({
            let steps = crate::tree_paint::recent_steps(name, rect, look, palette, dpi);
            let label = crate::tree_paint::recent_label(name.name@, crate::text::maybe(name.hint));
            &&& steps.len() == 2
            &&& drawn_text(steps[1]) == Some(label)
            &&& name.name@.is_prefix_of(label)
            &&& name.hint is None ==> label == name.name@
            &&& name.hint matches Some(hint) ==> hint@.is_suffix_of(label) && label.len()
                > name.name@.len() + hint@.len()
        }),
{
    reveal_strlit("  ");
}

/// An outline is four lines just inside its rectangle, one along each edge, as thick as a hairline,
/// which is never less than a pixel.
pub proof fn an_outline_runs_along_the_edges(rect: Rect, color: u32, dpi: int)
    requires
        rect.drawable(),
        0 <= dpi <= crate::panel::MAX_DPI,
    ensures
        ({
            let steps = crate::tree_paint::outline_steps(rect, color, dpi);
            let line = crate::tree_paint::hairline(dpi);
            &&& line >= 1
            &&& steps.len() == 4
            &&& steps[0] matches Step::Fill { rect: top, color: ink } && top.top == rect.top
                && top.bottom - top.top == line && top.left == rect.left && top.right == rect.right
                && ink == color
            &&& steps[1] matches Step::Fill { rect: bottom, color: ink } && bottom.bottom
                == rect.bottom && bottom.bottom - bottom.top == line && bottom.left == rect.left
                && bottom.right == rect.right && ink == color
            &&& steps[2] matches Step::Fill { rect: left, color: ink } && left.left == rect.left
                && left.right - left.left == line && left.top == rect.top && left.bottom
                == rect.bottom && ink == color
            &&& steps[3] matches Step::Fill { rect: right, color: ink } && right.right == rect.right
                && right.right - right.left == line && right.top == rect.top && right.bottom
                == rect.bottom && ink == color
        }),
{
    crate::panel::scaled_is_bounded(1, dpi);
}

/// A drop target is shown once: as a fill under the rows, or in high contrast, where nothing is
/// blended, as an outline over them.
pub proof fn a_target_is_filled_or_outlined(rect: Rect, palette: Palette, dpi: int)
    ensures
        ({
            let under = crate::tree_paint::band_steps(rect, palette, dpi, true);
            let over = crate::tree_paint::band_steps(rect, palette, dpi, false);
            &&& palette.high_contrast ==> under.len() == 0 && over
                == crate::tree_paint::outline_steps(rect, palette.selection_background, dpi)
            &&& !palette.high_contrast ==> over.len() == 0 && under.len() == 1 && under[0] == (
            Step::<Seq<char>>::Fill { rect, color: palette.inactive_selection_background })
        }),
{
}

/// A target's band covers the part of its rows that is in view, from the first to the last of them,
/// and the whole list for the root; none where no row of it is in view.
pub proof fn a_band_covers_the_rows_in_view(
    list: Rect,
    state: RowListState,
    start: usize,
    end: usize,
)
    requires
        state.wf(),
        list.in_range(),
        (state.in_view(list.tall()) + 1) * state.row_height <= 0x4000_0000,
        state.top <= start < end <= state.top + state.in_view(list.tall()),
    ensures
        crate::tree_paint::band(list, state, Highlight::Root) == Some(list),
        ({
            let band = crate::tree_paint::band(list, state, Highlight::Rows { start, end });
            &&& band is Some
            &&& band->0.left == list.left && band->0.right == list.right
            &&& band->0.top == list.top + (start - state.top) * state.row_height
            &&& band->0.bottom <= list.bottom
            &&& list.top + (end - state.top) * state.row_height <= list.bottom ==> band->0.bottom
                - band->0.top == (end - start) * state.row_height
        }),
        crate::tree_paint::band(list, state, Highlight::Rows { start: end, end: start }) is None,
{
    let tall = state.row_height as int;
    let (a, b) = (start - state.top, end - state.top);
    let most = state.in_view(list.tall());
    assert(0 <= a * tall && b * tall <= most * tall && (b - a) * tall == b * tall - a * tall && (most
        + 1) * tall == most * tall + tall && a * tall <= b * tall) by (nonlinear_arith)
        requires
            0 <= a <= b <= most,
            tall >= 1,
    ;
    assert((end - start) * state.row_height == (b - a) * tall);
}

/// A drag's label fits its icon and its name with padding around both, and draws both.
pub proof fn a_drag_label_fits_its_name(text: int, dpi: int)
    requires
        0 <= text <= 0x10_0000,
        0 <= dpi <= crate::panel::MAX_DPI,
    ensures
        ({
            let size = crate::tree_paint::label_size(text, dpi);
            &&& size.cx == text + 2 * crate::panel::scaled(8, dpi) + crate::panel::scaled(16, dpi)
                + crate::panel::scaled(6, dpi)
            &&& size.cy == crate::panel::scaled(24, dpi)
        }),
{
    crate::panel::scaled_is_bounded(8, dpi);
    crate::panel::scaled_is_bounded(16, dpi);
    crate::panel::scaled_is_bounded(6, dpi);
    crate::panel::scaled_is_bounded(24, dpi);
}

/// A drag's label is a framed box with the icon and the name of what is dragged; its text stands out
/// from its fill as the palette's pairs do.
pub proof fn a_drag_label_draws_what_is_dragged(
    size: Size,
    item: crate::drawing::ItemModel,
    name: Seq<char>,
    palette: Palette,
    dpi: int,
)
    ensures
        ({
            let steps = crate::tree_paint::label_steps(size, item, name, palette, dpi);
            let (back, border, ink) = crate::tree_paint::label_colors(palette);
            &&& steps.len() == 4
            &&& steps[0] matches Step::Fill { color, .. } && color == border
            &&& steps[1] matches Step::Fill { color, .. } && color == back
            &&& steps[2] matches Step::Icon { item: shown, .. } && shown == item
            &&& steps[3] matches Step::Text { text, color, .. } && text == name && color == ink
            &&& ink == palette.editor_foreground
            &&& palette.high_contrast ==> back == palette.editor_background && border == ink
            &&& !palette.high_contrast ==> back == palette.hover_background && border
                == palette.muted_foreground
        }),
{
}

/// A list draws inside its area alone: it clips to it first, lets go of it last, and draws nothing
/// at all in an empty one.
pub proof fn a_list_draws_inside_its_area(
    area: Rect,
    state: RowListState,
    palette: Palette,
    focused: bool,
    row: spec_fn(RowSlot) -> Seq<StepModel>,
)
    ensures
        ({
            let steps = crate::list_paint::list_steps(area, state, palette, focused, row);
            &&& area.bottom <= area.top || area.right <= area.left ==> steps.len() == 0
            &&& area.bottom > area.top && area.right > area.left ==> steps.len() >= 2 && steps[0]
                == (Step::<Seq<char>>::Clip { rect: area }) && steps.last() == Step::<
                Seq<char>,
            >::Unclip
        }),
{
}

/// A row is drawn over its background, and the rows one after the other from the first in view.
pub proof fn rows_are_drawn_over_their_background(
    slots: Seq<RowSlot>,
    row: spec_fn(RowSlot) -> Seq<StepModel>,
    count: nat,
)
    requires
        count < slots.len(),
    ensures
        crate::list_paint::rows_steps(slots, row, count + 1) == crate::list_paint::rows_steps(
            slots,
            row,
            count,
        ) + (match slots[count as int].background {
            Some(color) => seq![Step::Fill { rect: slots[count as int].rect, color }],
            None => Seq::empty(),
        }) + row(slots[count as int]),
        crate::list_paint::rows_steps(slots, row, 0) == Seq::<StepModel>::empty(),
{
}

/// A selected row is filled in the selection's color, in the softer one without the focus; a hovered
/// one in the hover's; the others are not filled. Each stands where its row does.
pub proof fn a_slot_is_filled_by_its_state(
    area: Rect,
    state: RowListState,
    palette: Palette,
    focused: bool,
    offset: int,
)
    requires
        area.in_range(),
        0 <= offset,
        (offset + 1) * state.row_height <= 0x4000_0000,
        state.top + offset <= usize::MAX,
        0 <= offset * state.row_height,
        1 <= state.row_height,
    ensures
        ({
            let slot = crate::row_list::slot_at(area, state, palette, focused, offset);
            let index = (state.top + offset) as usize;
            &&& slot.index == index
            &&& slot.look.selected <==> state.selected == Some(index)
            &&& slot.look.hover <==> state.hover == Some(index)
            &&& slot.look.focused == focused
            &&& slot.look.selected && focused ==> slot.background == Some(
                palette.selection_background,
            )
            &&& slot.look.selected && !focused ==> slot.background == Some(
                palette.inactive_selection_background,
            )
            &&& !slot.look.selected && slot.look.hover ==> slot.background == Some(
                palette.hover_background,
            )
            &&& !slot.look.selected && !slot.look.hover ==> slot.background is None
            &&& slot.rect.top == area.top + offset * state.row_height
            &&& slot.rect.bottom - slot.rect.top == state.row_height
        }),
{
    let tall = state.row_height as int;
    assert((offset + 1) * tall == offset * tall + tall) by (nonlinear_arith);
}

/// A section's chevron points down where it is expanded and right where it is not, and the header
/// reads how many tabs there are.
pub proof fn a_header_shows_its_section(
    frame: Frame,
    palette: Palette,
    expanded: bool,
    count: nat,
)
    ensures
        ({
            let steps = crate::notebook_paint::header_steps(frame, palette, expanded, count);
            &&& steps.len() == 2
            &&& drawn_text(steps[0]) == Some(
                if expanded {
                    GLYPH_CHEVRON_DOWN@
                } else {
                    GLYPH_CHEVRON_RIGHT@
                },
            )
            &&& drawn_text(steps[1]) matches Some(text) && "OPEN EDITORS  "@.is_prefix_of(text)
                && crate::text::decimal(count).is_suffix_of(text) && text.len()
                == "OPEN EDITORS  "@.len() + crate::text::decimal(count).len()
        }),
{
}

/// The favorite button's star is filled for a favorite, and a button is filled under the pointer
/// alone.
pub proof fn a_root_button_shows_its_state(
    favorite: bool,
    glyph: Seq<char>,
    rect: Rect,
    palette: Palette,
)
    ensures
        crate::notebook_paint::button_glyph(HeaderButton::Favorite, true) == GLYPH_STAR_FILLED@,
        crate::notebook_paint::button_glyph(HeaderButton::Favorite, false) == GLYPH_STAR@,
        ({
            let hot = crate::notebook_paint::root_button_steps(glyph, rect, true, palette);
            let still = crate::notebook_paint::root_button_steps(glyph, rect, false, palette);
            &&& still.len() == 1 && hot.len() == 2
            &&& drawn_text(still[0]) == Some(glyph) && drawn_text(hot[1]) == Some(glyph)
            &&& hot[0] == (Step::<Seq<char>>::Fill { rect, color: palette.hover_background })
            &&& hot[1] matches Step::Text { color, .. } && color == palette.hover_foreground
            &&& still[0] matches Step::Text { color, .. } && color == palette.muted_foreground
        }),
{
}

/// Every state says what it is and draws the button that leads on, in its own place; loading draws
/// none.
pub proof fn a_state_draws_its_button(
    view: NotebookView,
    frame: Frame,
    palette: Palette,
    focused: bool,
)
    ensures
        ({
            let steps = view.state_steps(frame, palette, focused);
            let boxes = crate::tree_paint::state_boxes(frame.layout.body, frame.dpi as int);
            &&& view.mode == Mode::NoNotebook ==> steps.len() >= 3 && drawn_text(steps[2]) == Some(
                OPEN_NOTEBOOK@,
            ) && (steps[2] matches Step::Text { rect, .. } && rect == boxes.button)
            &&& view.mode == Mode::Empty ==> steps.len() == 3 && drawn_text(steps[2]) == Some(
                NEW_NOTE@,
            ) && (steps[2] matches Step::Text { rect, .. } && rect == boxes.button)
            &&& view.mode == Mode::Failed ==> steps.len() == 5 && drawn_text(steps[2]) == Some(
                RETRY@,
            ) && drawn_text(steps[4]) == Some(OPEN_NOTEBOOK@) && (steps[2] matches Step::Text {
                rect,
                ..
            } && rect == boxes.button) && (steps[4] matches Step::Text { rect, .. } && rect
                == boxes.second)
            &&& view.mode == Mode::Loading ==> steps.len() == 1
        }),
{
}

/// A root row without a notebook says so and has no buttons; with one it shows its chevron, its name
/// and the four buttons.
pub proof fn the_root_row_shows_the_notebook(
    view: NotebookView,
    frame: Frame,
    palette: Palette,
    label: Seq<char>,
)
    ensures
        ({
            let steps = view.root_steps(frame, palette, label);
            &&& view.mode == Mode::NoNotebook ==> steps.len() == 1 && drawn_text(steps[0]) == Some(
                "NO NOTEBOOK"@,
            )
            &&& view.mode != Mode::NoNotebook ==> steps.len() >= 6 && drawn_text(steps[0]) == Some(
                crate::notebook_paint::chevron(view.root_expanded),
            ) && drawn_text(steps[1]) == Some(label)
        }),
{
}

/// The keyboard selection is outlined on a header, on the root row and on a tab's row that shows;
/// on the tree the row's own selection shows it.
pub proof fn the_keyboard_selection_is_outlined(view: NotebookView, frame: Frame)
    ensures
        view.cursor == Cursor::EditorsHeader ==> view.outlined(frame) == Some(
            frame.layout.editors_header,
        ),
        view.cursor == Cursor::Root && view.mode != Mode::NoNotebook ==> view.outlined(frame)
            == Some(frame.layout.root),
        view.cursor == Cursor::Tree ==> view.outlined(frame) is None,
        view.cursor is Editor && !view.editors_expanded ==> view.outlined(frame) is None,
{
}

/// A field's frame is the accent's while the name is fine and the error's while it is not, and only
/// then is there a message.
pub proof fn a_problem_shows_at_the_field(
    field: Rect,
    problem: Seq<char>,
    message: Rect,
    palette: Palette,
    dpi: int,
)
    ensures
        ({
            let fine = crate::notebook_paint::inline_steps(field, None, message, palette, dpi);
            let wrong = crate::notebook_paint::inline_steps(
                field,
                Some(problem),
                message,
                palette,
                dpi,
            );
            &&& fine.len() == 2 && wrong.len() == 5
            &&& fine[0] == (Step::<Seq<char>>::Fill {
                rect: field,
                color: palette.selection_background,
            })
            &&& wrong[0] == (Step::<Seq<char>>::Fill {
                rect: field,
                color: palette.error_foreground,
            })
            &&& drawn_text(wrong[4]) == Some(problem)
            &&& wrong[4] matches Step::Text { color, .. } && color == palette.error_foreground
            &&& wrong[2] == (Step::<Seq<char>>::Fill {
                rect: message,
                color: palette.error_foreground,
            })
        }),
{
}

/// A drop target is highlighted only while a drag is under way that has one.
pub proof fn only_a_targeted_drag_highlights(
    view: NotebookView,
    frame: Frame,
    highlight: Highlight,
)
    ensures
        view.target_band(frame, None) is None,
        !view.dragging() ==> view.target_band(frame, Some(highlight)) is None,
        view.drag matches Some(drag) ==> (drag.target is None ==> view.target_band(
            frame,
            Some(highlight),
        ) is None),
        view.drag matches Some(drag) ==> (drag.started && drag.target is Some ==> view.target_band(
            frame,
            Some(highlight),
        ) == crate::tree_paint::band(frame.layout.body, view.list, highlight)),
{
}

/// A result draws its name, its folder after it unless it is at the root, and its snippet in the
/// line below; the two lines are as tall and stand under each other.
pub proof fn a_result_draws_its_name_and_folder(
    hit: TextHit,
    rect: Rect,
    look: RowLook,
    palette: Palette,
    dpi: int,
    width: int,
)
    requires
        rect.in_range(),
        0 <= dpi <= crate::panel::MAX_DPI,
        0 <= width <= 0x100_0000,
    ensures
        ({
            let steps = crate::search_paint::row_steps(hit, rect, look, palette, dpi, width);
            let name = crate::search_paint::name_box(rect, dpi);
            let second = crate::search_paint::snippet_box(rect, dpi);
            &&& steps.len() == (if hit.folder@.len() == 0 {
                2int
            } else {
                3int
            })
            &&& drawn_text(steps[1]) == Some(hit.name@)
            &&& steps[1] matches Step::Text { rect: at, .. } && at == name
            &&& hit.folder@.len() > 0 ==> drawn_text(steps[2]) == Some(hit.folder@) && (
            steps[2] matches Step::Text { rect: at, .. } && at.left == name.left + width
                + crate::panel::scaled(6, dpi))
            &&& second.top == name.bottom && second.bottom - second.top == name.bottom - name.top
            &&& second.left == name.left && second.right == name.right
            &&& name.right == rect.right - crate::panel::scaled(12, dpi)
            &&& name.left == rect.left + crate::panel::scaled(12, dpi) + crate::panel::scaled(
                20,
                dpi,
            ) + crate::panel::scaled(6, dpi)
        }),
{
    crate::panel::scaled_is_bounded(12, dpi);
    crate::panel::scaled_is_bounded(20, dpi);
    crate::panel::scaled_is_bounded(6, dpi);
    crate::panel::scaled_is_bounded(3, dpi);
    crate::panel::scaled_is_bounded(18, dpi);
}

/// A snippet draws what is before its match, then the match in bold where that ended, then the
/// rest, and stops where the room does.
pub proof fn a_match_is_drawn_in_bold(
    before: Seq<char>,
    matched: Seq<char>,
    after: Seq<char>,
    first: int,
    second: int,
    rect: Rect,
    color: u32,
)
    requires
        rect.in_range(),
        0 <= first <= 0x100_0000,
        0 <= second <= 0x100_0000,
    ensures
        ({
            let steps = crate::search_paint::snippet_steps(
                before,
                matched,
                after,
                first,
                second,
                rect,
                color,
            );
            &&& steps.len() >= 1 && drawn_text(steps[0]) == Some(before)
            &&& steps[0] matches Step::Text { font, rect: at, .. } && font == Font::Text && at
                == rect
            &&& rect.left + first + second < rect.right ==> {
                &&& steps.len() == 3
                &&& steps[1] matches Step::Text { text, font, rect: at, .. } && text == matched
                    && font == Font::TextBold && at.left == rect.left + first
                &&& steps[2] matches Step::Text { text, font, rect: at, .. } && text == after
                    && font == Font::Text && at.left == rect.left + first + second
            }
            &&& rect.left + first >= rect.right ==> steps.len() == 1
        }),
{
}

/// A result without a marked match draws its whole snippet plainly.
pub proof fn an_unmarked_snippet_is_drawn_whole(
    hit: TextHit,
    text: RowText,
    rect: Rect,
    color: u32,
)
    requires
        crate::search_paint::parts_of(hit.snippet) is None,
    ensures
        ({
            let steps = crate::search_paint::second_steps(hit, text, rect, color);
            &&& steps.len() == 1 && drawn_text(steps[0]) == Some(hit.snippet.text@)
            &&& steps[0] matches Step::Text { font, rect: at, .. } && font == Font::Text && at
                == rect
        }),
{
}

/// A toggle draws its glyph in its square, over its fill where it has one, and underlined where its
/// look is.
pub proof fn a_toggle_draws_its_glyph(look: ToggleLook)
    ensures
        ({
            let steps = crate::search_paint::toggle_steps(look);
            &&& steps.len() == (if look.background is Some {
                2int
            } else {
                1int
            })
            &&& drawn_text(steps.last()) == Some(crate::option_toggles::glyph_of(look.option))
            &&& steps.last() matches Step::Text { rect, color, align, .. } && rect == look.rect
                && color == look.color && (align == Align::Underlined <==> look.underlined)
            &&& look.background matches Some(color) ==> steps[0] == (Step::<Seq<char>>::Fill {
                rect: look.rect,
                color,
            })
        }),
{
}

/// The field and its toggles are drawn once the box exists, over the background; a notice stands
/// alone in the summary's place, and an error is drawn as one.
pub proof fn the_lines_are_drawn_in_their_places(
    view: SearchView,
    client: Rect,
    dpi: int,
    palette: Palette,
    background: u32,
)
    ensures
        ({
            let field = view.field_steps(client, dpi, palette, background);
            let lines = view.line_steps(client, dpi, palette);
            let (summary, status) = view.shown().lines();
            &&& field.len() >= 1 && field[0] == (Step::<Seq<char>>::Fill {
                rect: client,
                color: background,
            })
            &&& !view.box_made ==> field.len() == 1
            &&& view.box_made ==> field.len() >= 6
            &&& view.notice_shown() matches Some(notice) ==> lines.len() == 1 && drawn_text(
                lines[0],
            ) == Some(notice)
            &&& summary matches Some((text, error)) ==> (view.notice_shown() is None ==> lines.len()
                >= 1 && drawn_text(lines[0]) == Some(text) && (lines[0] matches Step::Text {
                color,
                rect,
                ..
            } && color == (if error {
                palette.error_foreground
            } else {
                palette.muted_foreground
            }) && rect == crate::search_view::summary_box(client, dpi)))
            &&& view.notice_shown() is None && status is Some ==> lines.len() >= 1 && drawn_text(
                lines.last(),
            ) == status && (lines.last() matches Step::Text { rect, .. } && rect
                == crate::search_view::status_box(client, dpi))
            &&& view.notice_shown() is None && summary is None && status is None ==> lines.len()
                == 0
        }),
{
}

/// The text before a match leaves the match its room, unless a third of the line is more; it is
/// never given more than the line, and a wider match never leaves it more.
pub proof fn a_match_leaves_a_third(rect: Rect, matched: int, wider: int)
    requires
        rect.left <= rect.right,
        0 <= matched <= wider,
    ensures
        ({
            let width = rect.right - rect.left;
            let room = crate::search_paint::left_before(rect, matched);
            &&& 3 * room >= width - 2
            &&& room <= width
            &&& room + matched >= width
            &&& (3 * matched <= 2 * width ==> room + matched == width)
            &&& crate::search_paint::left_before(rect, wider) <= room
        }),
{
}

/// A text takes its own width where the rectangle has that much, and the rectangle's where it has
/// not.
pub proof fn a_text_stays_in_its_rectangle(measured: int, rect: Rect)
    requires
        rect.left <= rect.right,
        0 <= measured,
    ensures
        ({
            let width = crate::search_paint::width_in(measured, rect);
            &&& 0 <= width <= rect.right - rect.left
            &&& width <= measured
            &&& width == measured || width == rect.right - rect.left
        }),
{
}

/// A button is its text in the middle of its own box, over a fill that tells whether the pointer is
/// on it.
pub proof fn a_button_is_filled_by_its_state(text: Seq<char>, rect: Rect, palette: Palette)
    ensures
        ({
            let hot = crate::notebook_paint::button_steps(text, rect, true, palette);
            let still = crate::notebook_paint::button_steps(text, rect, false, palette);
            &&& hot.len() == 2 && still.len() == 2
            &&& hot[0] == (Step::<Seq<char>>::Fill { rect, color: palette.hover_background })
            &&& still[0] == (Step::<Seq<char>>::Fill { rect, color: palette.pressed_background })
            &&& hot[1] == still[1]
            &&& hot[1] matches Step::Text { text: drawn, rect: at, align, .. } && drawn == text && at
                == rect && align == Align::Centered
        }),
{
}

/// Where the pointer is on a row's close button or pin, that row alone shows it: every other row is
/// drawn as if it were not.
pub proof fn only_the_hovered_row_shows_the_pointer(
    view: NotebookView,
    palette: Palette,
    dpi: int,
    icon: ItemModel,
    slot: RowSlot,
)
    requires
        !slot.look.hover,
    ensures
        ({
            let away = NotebookView {
                hover_pin: false,
                editors: crate::open_editors::OpenEditors { hover_close: false, ..view.editors },
                ..view
            };
            &&& view.editor_row(palette, dpi)(slot) == away.editor_row(palette, dpi)(slot)
            &&& view.tree_row(palette, dpi, icon)(slot) == away.tree_row(palette, dpi, icon)(slot)
        }),
{
}

/// A drag is carried once it has started, and as what it was picked up as; a press that may yet
/// become a drag carries nothing.
pub proof fn only_a_started_drag_is_carried(view: NotebookView)
    ensures
        view.carried() is Some <==> (view.drag matches Some(drag) && drag.started),
        view.carried() is Some ==> Some(view.carried()->0) == (match view.drag {
            Some(drag) => Some(drag.source),
            None => None,
        }),
{
}

/// The sections are drawn from the title on. The keyboard selection's outline is drawn last, and
/// only while the panel has the focus.
pub proof fn the_outline_shows_with_the_focus(
    view: NotebookView,
    frame: Frame,
    palette: Palette,
    label: Seq<char>,
)
    ensures
        ({
            let focused = view.section_steps(frame, palette, true, label);
            let blurred = view.section_steps(frame, palette, false, label);
            &&& view.root_steps(frame, palette, label).is_suffix_of(blurred)
            &&& drawn_text(focused[0]) == Some("NOTEBOOK"@)
            &&& drawn_text(blurred[0]) == Some("NOTEBOOK"@)
            &&& view.outlined(frame) is None ==> view.root_steps(frame, palette, label).is_suffix_of(
                focused,
            )
            &&& view.outlined(frame) matches Some(rect) ==> crate::tree_paint::outline_steps(
                rect,
                palette.selection_background,
                frame.dpi as int,
            ).is_suffix_of(focused)
        }),
{
    let root = view.root_steps(frame, palette, label);
    let blurred = view.section_steps(frame, palette, false, label);
    assert(root =~= blurred.subrange(blurred.len() - root.len(), blurred.len() as int));
    let focused = view.section_steps(frame, palette, true, label);
    match view.outlined(frame) {
        Some(rect) => {
            let outline = crate::tree_paint::outline_steps(
                rect,
                palette.selection_background,
                frame.dpi as int,
            );
            assert(outline =~= focused.subrange(
                focused.len() - outline.len(),
                focused.len() as int,
            ));
        },
        None => {
            assert(root =~= focused.subrange(focused.len() - root.len(), focused.len() as int));
        },
    }
}

/// The title is drawn in its own band, indented from the band's left edge and as far as its right.
pub proof fn the_title_stays_in_its_band(frame: Frame, palette: Palette)
    requires
        frame.layout.title.drawable(),
        frame.dpi <= crate::panel::MAX_DPI,
    ensures
        ({
            let steps = crate::notebook_paint::title_steps(frame, palette);
            let title = frame.layout.title;
            &&& steps.len() == 1
            &&& steps[0] matches Step::Text { text, rect, .. } && text == "NOTEBOOK"@ && rect.left
                - title.left == crate::panel::scaled(12, frame.dpi as int) && (
            rect.top,
            rect.right,
            rect.bottom,
        ) == (title.top, title.right, title.bottom)
        }),
{
    crate::panel::scaled_is_bounded(12, frame.dpi as int);
}

/// A row that is edited leaves its name to the field over it; every other row ends in its name.
pub proof fn a_row_ends_in_its_name_unless_it_is_edited(
    row: TreeRow,
    rect: Rect,
    look: RowLook,
    palette: Palette,
    dpi: int,
    pin_hot: bool,
    icon: ItemModel,
    dimmed: bool,
)
    ensures
        ({
            let shown = crate::tree_paint::tree_row_steps(
                Some(row),
                rect,
                look,
                palette,
                dpi,
                pin_hot,
                None,
                dimmed,
            );
            let edited = crate::tree_paint::tree_row_steps(
                Some(row),
                rect,
                look,
                palette,
                dpi,
                pin_hot,
                Some(icon),
                dimmed,
            );
            &&& shown.len() > 0 && drawn_text(shown.last()) == Some(row.name@)
            &&& edited == crate::tree_paint::icon_steps(row, rect, look, palette, dpi, Some(icon))
                + crate::tree_paint::pin_steps(row, rect, look, palette, dpi, pin_hot)
        }),
{
}

} // verus!
