//! What holds of the panel's smaller parts: the one keyboard selection, the search field's toggles,
//! the Open Editors rows, dropped files and scaled sizes.

use crate::document::{Document, DocumentId};
use crate::drawing::{Font, Step};
use crate::geometry::Rect;
use crate::messages::{WM_SYSCHAR, WM_SYSKEYDOWN};
use crate::open_editors::{
    EditorRow, EditorRowModel, OpenEditors, DIRTY_DOT, GLYPH_CLOSE,
};
use crate::option_toggles::{FontMetrics, MatchOptions, SearchOption, ALT_DOWN};
use crate::palette::Palette;
use crate::panel_cursor::{Cursor, Shape};
use crate::panel_drop::{Drop, PanelTarget, DROPEFFECT_COPY};
use crate::row_list::{ListKey, RowLook};
use vstd::prelude::*;

verus! {

/// The parts stand in one order, from the top: the Open Editors header, the tabs in theirs, the
/// root row, then the tree's rows in theirs.
pub proof fn the_parts_stand_in_order(shape: Shape, editor: usize, other: usize, row: usize, next: usize)
    requires
        shape.countable(),
        editor < other < shape.editors,
        row < next < shape.tree,
    ensures
        shape.position(Cursor::EditorsHeader, None) == 0,
        shape.position(Cursor::EditorsHeader, None) < shape.position(Cursor::Editor(editor), None),
        shape.position(Cursor::Editor(other), None) - shape.position(Cursor::Editor(editor), None)
            == other - editor,
        shape.root ==> shape.position(Cursor::Editor(other), None) < shape.position(
            Cursor::Root,
            None,
        ) < shape.position(Cursor::Tree, Some(row)),
        shape.position(Cursor::Editor(other), None) < shape.position(Cursor::Tree, Some(row)),
        shape.position(Cursor::Tree, Some(next)) - shape.position(Cursor::Tree, Some(row)) == next
            - row,
        shape.position(Cursor::Tree, None) == shape.position(Cursor::Tree, Some(0)),
{
}

/// Up and Down go to the row above and below, Home to the header and End to the last row there is:
/// of the tree, else the root's, else the last tab's, else the header. At the ends Up and Down stay.
/// A page key is the section's own.
pub proof fn arrows_go_to_the_next_row(shape: Shape, cursor: Cursor, selected: Option<usize>)
    requires
        shape.countable(),
        shape.has(cursor, selected),
    ensures
        ({
            let now = shape.position(cursor, selected);
            let up = shape.moved(cursor, selected, ListKey::Up)->0;
            let down = shape.moved(cursor, selected, ListKey::Down)->0;
            &&& now > 0 ==> shape.position(up.0, up.1) == now - 1
            &&& now == 0 ==> up == (cursor, selected)
            &&& now < shape.last() ==> shape.position(down.0, down.1) == now + 1
            &&& now == shape.last() ==> down == (cursor, selected)
            &&& shape.moved(cursor, selected, ListKey::Home) == Some(
                (Cursor::EditorsHeader, None::<usize>),
            )
            &&& shape.tree > 0 ==> shape.moved(cursor, selected, ListKey::End) == Some(
                (Cursor::Tree, Some((shape.tree - 1) as usize)),
            )
            &&& shape.tree == 0 && shape.root ==> shape.moved(cursor, selected, ListKey::End)
                == Some((Cursor::Root, None::<usize>))
            &&& shape.tree == 0 && !shape.root && shape.editors > 0 ==> shape.moved(
                cursor,
                selected,
                ListKey::End,
            ) == Some((Cursor::Editor((shape.editors - 1) as usize), None::<usize>))
            &&& shape.moved(cursor, selected, ListKey::PageUp) is None
            &&& shape.moved(cursor, selected, ListKey::PageDown) is None
        }),
{
    crate::panel_cursor::rows_and_positions_match(shape, cursor, selected);
    let now = shape.position(cursor, selected);
    if now > 0 {
        crate::panel_cursor::positions_hold_rows(shape, now - 1);
    }
    if now < shape.last() {
        crate::panel_cursor::positions_hold_rows(shape, now + 1);
    }
}

/// Each toggle is a square of its scaled size, as far from the field's top as from its bottom but
/// for one pixel.
pub proof fn toggles_are_centered_squares(field: Rect, dpi: int, index: int)
    requires
        field.in_range(),
        0 <= dpi <= crate::panel::MAX_DPI,
        0 <= index < 3,
    ensures
        ({
            let toggle = crate::option_toggles::toggle_rect(field, dpi, index);
            let (above, below) = (toggle.top - field.top, field.bottom - toggle.bottom);
            &&& toggle.right - toggle.left == crate::panel::scaled(22, dpi)
            &&& toggle.bottom - toggle.top == crate::panel::scaled(22, dpi)
            &&& -1 <= above - below <= 1
        }),
{
    crate::panel::scaled_is_bounded(22, dpi);
    crate::panel::scaled_is_bounded(2, dpi);
    crate::panel::scaled_is_bounded(3, dpi);
}

/// A point is on the toggle whose square holds it, the same one that is painted there, and on none
/// where no square does.
pub proof fn a_point_is_on_the_toggle_that_holds_it(
    field: Rect,
    rects: Seq<Rect>,
    dpi: int,
    x: int,
    y: int,
    index: int,
)
    requires
        field.in_range(),
        0 <= dpi <= crate::panel::MAX_DPI,
        0 <= index < 3,
        rects.len() == 3,
        forall|i: int|
            0 <= i < 3 ==> #[trigger] rects[i] == crate::option_toggles::toggle_rect(field, dpi, i),
    ensures
        rects[index].has(x, y) <==> crate::option_toggles::option_under(rects, x, y) == Some(
            crate::option_toggles::option_at(index),
        ),
        crate::option_toggles::option_under(rects, x, y) == crate::option_toggles::toggle_under(
            field,
            dpi,
            x,
            y,
        ),
        crate::option_toggles::toggle_under(field, dpi, x, y) is None <==> forall|i: int|
            0 <= i < 3 ==> !(#[trigger] rects[i]).has(x, y),
{
    crate::option_toggles::toggles_never_overlap(field, dpi);
    crate::panel::scaled_is_bounded(22, dpi);
    crate::panel::scaled_is_bounded(2, dpi);
    crate::panel::scaled_is_bounded(3, dpi);
    assert(rects[0] == crate::option_toggles::toggle_rect(field, dpi, 0));
    assert(rects[1] == crate::option_toggles::toggle_rect(field, dpi, 1));
    assert(rects[2] == crate::option_toggles::toggle_rect(field, dpi, 2));
}

/// A toggle that is on looks the same hovered or not, and as a selection does; one that is off is
/// filled only under the pointer. The whole word toggle alone is underlined.
pub proof fn a_toggle_shows_its_state(
    option: SearchOption,
    rect: Rect,
    options: MatchOptions,
    hover: Option<SearchOption>,
    palette: Palette,
)
    ensures
        ({
            let look = crate::option_toggles::look_of(option, rect, options, hover, palette);
            &&& look.option == option && look.rect == rect
            &&& options.on(option) ==> look.background == Some(palette.selection_background)
            &&& options.on(option) && palette.selection_foreground is Some ==> Some(look.color)
                == palette.selection_foreground
            &&& options.on(option) && palette.selection_foreground is None ==> look.color
                == palette.editor_foreground
            &&& !options.on(option) && hover == Some(option) ==> look.background == Some(
                palette.hover_background,
            ) && look.color == palette.hover_foreground
            &&& !options.on(option) && hover != Some(option) ==> look.background is None
                && look.color == palette.muted_foreground
            &&& look.underlined <==> option == SearchOption::WholeWord
        }),
{
}

/// A toggle's tooltip is its name with the Alt letter that flips it, and each letter flips the
/// toggle whose tooltip names it.
pub proof fn tooltips_name_the_key(option: SearchOption, vk: u32)
    requires
        crate::option_toggles::option_of_key(vk) == Some(option),
    ensures
        crate::option_toggles::tip_of(option) == crate::option_toggles::label_of(option)
            + " (Alt+"@ + seq![vk as char] + ")"@,
        crate::option_toggles::alt_toggle(WM_SYSKEYDOWN, vk as usize, ALT_DOWN) == Some(option),
{
    reveal_strlit("Match case (Alt+C)");
    reveal_strlit("Match whole word (Alt+W)");
    reveal_strlit("Use regular expression (Alt+R)");
    reveal_strlit("Match case");
    reveal_strlit("Match whole word");
    reveal_strlit("Use regular expression");
    reveal_strlit(" (Alt+");
    reveal_strlit(")");
    assert(ALT_DOWN & ALT_DOWN != 0) by (bit_vector);
    assert(crate::option_toggles::tip_of(option) =~= crate::option_toggles::label_of(option)
        + " (Alt+"@ + seq![vk as char] + ")"@);
}

/// Every toggle has an Alt letter.
pub proof fn every_toggle_has_a_key(option: SearchOption)
    ensures
        exists|vk: u32| #[trigger] crate::option_toggles::option_of_key(vk) == Some(option),
{
    assert(crate::option_toggles::option_of_key('C' as u32) == Some(SearchOption::Case));
    assert(crate::option_toggles::option_of_key('W' as u32) == Some(SearchOption::WholeWord));
    assert(crate::option_toggles::option_of_key('R' as u32) == Some(SearchOption::Regex));
}

/// A key message flips a toggle only with Alt held and only as a system key; the character that
/// follows is swallowed for the same letters, in either case, and for no other.
pub proof fn only_alt_letters_flip_toggles(message: u32, wparam: usize, lparam: isize)
    ensures
        crate::option_toggles::alt_toggle(message, wparam, lparam) is Some ==> message
            == WM_SYSKEYDOWN && lparam & ALT_DOWN != 0 && wparam <= u32::MAX,
        crate::option_toggles::swallowed(message, wparam, lparam) <==> message == WM_SYSCHAR
            && lparam & ALT_DOWN != 0 && wparam <= u32::MAX && (
        crate::option_toggles::option_of_key(wparam as u32) is Some || (wparam >= 97 && wparam <= 122
            && crate::option_toggles::option_of_key((wparam - 32) as u32) is Some)),
{
}

/// The line under a word is one pixel tall, as wide as the word, as far from the left as from the
/// right but for one pixel, and just below the letters' base line.
pub proof fn an_underline_is_under_its_word(rect: Rect, width: int, font: FontMetrics)
    requires
        rect.in_range(),
        0 <= font.height <= crate::geometry::MAX_COORDINATE,
        0 <= font.ascent <= crate::geometry::MAX_COORDINATE,
        0 < width <= crate::geometry::MAX_COORDINATE,
    ensures
        crate::option_toggles::line_under(rect, width, None) is None,
        crate::option_toggles::line_under(rect, 0, Some(font)) is None,
        ({
            let line = crate::option_toggles::line_under(rect, width, Some(font));
            &&& line is Some
            &&& line->0.bottom - line->0.top == 1
            &&& line->0.right - line->0.left == width
            &&& -1 <= (line->0.left - rect.left) - (rect.right - line->0.right) <= 1
            &&& {
                let top = line->0.top - 1 - font.ascent;
                -1 <= (top - rect.top) - (rect.bottom - (top + font.height)) <= 1
            }
        }),
{
}

/// An untitled document goes by its label, else by its first line; a document with a file by that
/// file's name. A row is modified and active as its document is.
pub proof fn a_row_shows_its_document(document: Document, active: Option<DocumentId>)
    ensures
        ({
            let row = crate::open_editors::row_of(document, active);
            &&& row.id == document.id
            &&& row.dirty == document.dirty
            &&& row.active <==> active == Some(document.id)
            &&& document.path matches Some(path) ==> row.path == Some(path@) && row.name
                == crate::paths::name_of(path@)
            &&& document.path is None ==> row.path is None && row.name
                == crate::open_editors::label_of(document)
            &&& document.untitled_label matches Some(label) ==> crate::open_editors::label_of(
                document,
            ) == label@
            &&& document.untitled_label is None && document.first_line_label is Some
                ==> crate::open_editors::label_of(document) == document.first_line_label->0@
            &&& crate::open_editors::tip_of(row) == (if row.path is Some {
                row.path->0
            } else {
                row.name
            })
        }),
{
}

/// What is spoken of a row starts with its name, and only a modified one is said to be.
pub proof fn a_modified_row_is_spoken_so(row: EditorRowModel)
    ensures
        row.name.is_prefix_of(crate::open_editors::spoken(row)),
        row.dirty ==> ", modified"@.is_suffix_of(crate::open_editors::spoken(row)),
        !row.dirty ==> crate::open_editors::spoken(row) == row.name + ", open editor"@,
        crate::open_editors::spoken((EditorRowModel { dirty: true, ..row }))
            == crate::open_editors::spoken((EditorRowModel { dirty: false, ..row }))
            + ", modified"@,
{
}

/// The close box is at the row's right end, as tall as the row, and never wider than it; the icon
/// is left of it in a row that has room for both, and inside the row in every other.
pub proof fn a_row_holds_its_parts(row: Rect, dpi: int)
    requires
        row.in_range(),
        0 <= dpi <= crate::panel::MAX_DPI,
    ensures
        ({
            let close = crate::open_editors::close_box(row, dpi);
            let icon = crate::open_editors::icon_box(row, dpi);
            &&& close.right == row.right && close.top == row.top && close.bottom == row.bottom
            &&& row.left <= close.left
            &&& row.right - row.left >= crate::panel::scaled(24, dpi) ==> close.right - close.left
                == crate::panel::scaled(24, dpi)
            &&& row.right - row.left < crate::panel::scaled(24, dpi) ==> close.left == row.left
            &&& icon.right <= row.right && icon.left <= row.right
            &&& icon.left <= icon.right
            &&& row.right - row.left >= crate::panel::scaled(24, dpi) + crate::panel::scaled(16, dpi)
                ==> icon.right - icon.left == crate::panel::scaled(16, dpi) && icon.left - row.left
                == crate::panel::scaled(24, dpi)
        }),
{
    crate::panel::scaled_is_bounded(24, dpi);
    crate::panel::scaled_is_bounded(16, dpi);
}

/// A row draws its icon and its name, then the dot of a modified tab, or else, while it is hovered
/// or selected, the close glyph of a clean one. What stands right of the name is in the close box.
pub proof fn a_row_draws_a_dot_or_a_close_glyph(
    row: EditorRowModel,
    rect: Rect,
    look: RowLook,
    palette: Palette,
    dpi: int,
    hot: bool,
)
    requires
        rect.in_range(),
        0 <= dpi <= crate::panel::MAX_DPI,
    ensures
        ({
            let steps = crate::open_editors::row_steps(row, rect, look, palette, dpi, hot);
            let close = crate::open_editors::close_box(rect, dpi);
            &&& steps.len() >= 2
            &&& steps[0] is Icon
            &&& steps[1] matches Step::Text { text, rect: name, font, .. } && text == row.name
                && font == Font::Text && name.right == close.left && name.left <= name.right
            &&& steps.len() == 3 <==> row.dirty || look.hover || look.selected
            &&& row.dirty ==> (steps[2] matches Step::Text { text, rect: at, color, .. } && text
                == DIRTY_DOT@ && at == close && color == crate::row_list::muted_of(look, palette))
            &&& !row.dirty && (look.hover || look.selected) ==> (steps[2] matches Step::Text {
                text,
                rect: at,
                color,
                font,
                ..
            } && text == GLYPH_CLOSE@ && at == close && font == Font::Glyph && color == (if hot {
                crate::row_list::foreground_of(look, palette)
            } else {
                crate::row_list::muted_of(look, palette)
            }))
        }),
{
    crate::panel::scaled_is_bounded(6, dpi);
    a_row_holds_its_parts(rect, dpi);
}

/// New rows are taken where anything shown differs, and then the active one is the list's selection
/// and every row is counted; the same rows change nothing.
pub proof fn the_section_follows_its_rows(
    before: OpenEditors,
    after: OpenEditors,
    rows: Vec<EditorRow>,
    changed: bool,
    index: int,
)
    requires
        before.wf(),
        crate::open_editors::taken(before, after, rows, changed),
    ensures
        rows@ == before.rows@ ==> !changed,
        !changed ==> after == before,
        rows.len() != before.rows.len() ==> changed,
        rows.len() == before.rows.len() && 0 <= index < rows.len() && (rows@[index].id
            != before.rows@[index].id || rows@[index].dirty != before.rows@[index].dirty
            || rows@[index].active != before.rows@[index].active || rows@[index].name@
            != before.rows@[index].name@) ==> changed,
        changed ==> after.rows@ == rows@ && after.list.count == rows.len(),
        changed ==> (after.list.selected matches Some(selected) ==> selected < rows.len()
            && rows@[selected as int].active),
        changed && 0 <= index < rows.len() && rows@[index].active ==> after.list.selected is Some
            && after.list.selected->0 <= index,
{
    let (a, b) = (
        crate::open_editors::row_keys(rows@),
        crate::open_editors::row_keys(before.rows@),
    );
    assert(a.len() == rows.len() && b.len() == before.rows.len());
    if rows.len() == before.rows.len() && 0 <= index < rows.len() && !changed {
        assert(a[index] == b[index]);
        assert(a[index].id == rows@[index].id && b[index].id == before.rows@[index].id);
    }
    let models = crate::open_editors::models(rows@);
    let flags = models.map_values(|row: EditorRowModel| row.active);
    flags.index_of_first_ensures(true);
    if 0 <= index < rows.len() && rows@[index].active {
        assert(flags[index] == true);
        assert(flags.contains(true));
    }
}

/// A drop hands on the files that came with the drag, whole, where the source allows a copy and
/// there are any; the target forgets them with every drop.
pub proof fn a_drop_hands_on_its_files_once(
    before: PanelTarget,
    after: PanelTarget,
    effect: u32,
    offered: Option<u32>,
    dropped: Drop,
)
    requires
        crate::panel_drop::let_go(before, after, offered, dropped),
    ensures
        after.files.len() == 0,
        dropped is Files ==> offered is Some && before.files.len() > 0 && dropped->Files_0@
            == before.files@,
        offered is None ==> dropped is Leave,
        before.files.len() == 0 ==> dropped is Leave,
        before.files.len() > 0 && offered == Some(effect) ==> (dropped is Files <==>
        crate::panel_drop::effect_of(effect, true) == DROPEFFECT_COPY),
{
}

/// A frame's inside is the frame's width smaller on every side.
pub proof fn an_inner_frame_is_even(rect: Rect, by: int)
    requires
        rect.in_range(),
        0 <= by <= crate::geometry::MAX_COORDINATE,
    ensures
        ({
            let inner = crate::panel::within(rect, by);
            &&& inner.left - rect.left == by && rect.right - inner.right == by
            &&& inner.top - rect.top == by && rect.bottom - inner.bottom == by
        }),
{
}

/// A size in pixels is the nearest to its share of the DPI: twice the DPI doubles it, but for one
/// pixel, and it is never half a pixel off.
pub proof fn sizes_round_to_the_nearest_pixel(value: int, dpi: int)
    requires
        0 <= value,
        0 < dpi,
    ensures
        value * dpi - 48 <= 96 * crate::panel::scaled(value, dpi) <= value * dpi + 48,
        crate::panel::scaled(0, dpi) == 0,
{
    assert(0 <= value * dpi) by (nonlinear_arith)
        requires
            0 <= value,
            0 < dpi,
    ;
}

} // verus!
