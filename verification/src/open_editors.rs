//! The Notebook view's Open Editors section: one row per tab in tab-strip order, with its type
//! icon and name, a dot while it has unsaved changes and a close box on hover.

use crate::document::{Document, DocumentId};
use crate::drawing::{draw_icon, draw_text, Align, DrawStep, Font, Item, Step, StepModel, TreeItem};
use crate::geometry::Rect;
use crate::palette::Palette;
use crate::panel::scale;
use crate::paths::{extension, file_name, same_maybe_path};
use crate::row_list::{row_foreground, row_muted, RowListState, RowLook};
use crate::text::join2;
use vstd::prelude::*;
use vstd::string::*;

verus! {

// Sizes at 96 DPI.
pub const LEFT_PAD: i32 = 24;

pub const GLYPH_BOX: i32 = 16;

pub const GAP: i32 = 6;

pub const CLOSE_BOX: i32 = 24;

/// The symbol font's Cancel, the tab strip's close glyph.
pub const GLYPH_CLOSE: &'static str = "\u{E711}";

pub const DIRTY_DOT: &'static str = "\u{25CF}";

/// One tab as the section shows it.
#[derive(Debug, PartialEq, Eq)]
pub struct EditorRow {
    pub id: DocumentId,
    /// The file name with its extension, or an untitled tab's label.
    pub name: String,
    pub path: Option<String>,
    pub dirty: bool,
    pub active: bool,
}

impl Clone for EditorRow {
    fn clone(&self) -> (copy: Self)
        ensures
            copy == *self,
    {
        EditorRow {
            id: self.id,
            name: self.name.clone(),
            path: self.path.clone(),
            dirty: self.dirty,
            active: self.active,
        }
    }
}

/// A row with its texts as characters.
#[verifier::ext_equal]
pub struct EditorRowModel {
    pub id: DocumentId,
    pub name: Seq<char>,
    pub path: Option<Seq<char>>,
    pub dirty: bool,
    pub active: bool,
}

impl View for EditorRow {
    type V = EditorRowModel;

    open spec fn view(&self) -> EditorRowModel {
        EditorRowModel {
            id: self.id,
            name: self.name@,
            path: crate::text::maybe(self.path),
            dirty: self.dirty,
            active: self.active,
        }
    }
}

/// The rows with their texts as characters.
pub open spec fn models(rows: Seq<EditorRow>) -> Seq<EditorRowModel> {
    rows.map_values(|row: EditorRow| row@)
}

/// An untitled document's name: its tab label, else its first line, else "Untitled".
pub open spec fn label_of(document: Document) -> Seq<char> {
    match (document.untitled_label, document.first_line_label) {
        (Some(label), _) => label@,
        (None, Some(line)) => line@,
        (None, None) => "Untitled"@,
    }
}

pub fn unsaved_label(document: &Document) -> (label: String)
    ensures
        label@ == label_of(*document),
{
    match (&document.untitled_label, &document.first_line_label) {
        (Some(label), _) => label.clone(),
        (None, Some(line)) => line.clone(),
        (None, None) => "Untitled".to_owned(),
    }
}

/// The row of `document`: named by its file or its label, active when it is the active one.
pub open spec fn row_of(document: Document, active: Option<DocumentId>) -> EditorRowModel {
    EditorRowModel {
        id: document.id,
        name: match document.path {
            Some(path) => crate::paths::name_of(path@),
            None => label_of(document),
        },
        path: crate::text::maybe(document.path),
        dirty: document.dirty,
        active: Some(document.id) == active,
    }
}

/// One row per document, in the order given (the strip's).
pub fn editor_rows(documents: &Vec<Document>, active: Option<DocumentId>) -> (rows: Vec<EditorRow>)
    ensures
        models(rows@) == documents@.map_values(|document: Document| row_of(document, active)),
{
    let mut rows: Vec<EditorRow> = Vec::new();
    let ghost all = documents@.map_values(|document: Document| row_of(document, active));
    let mut at: usize = 0;
    while at < documents.len()
        invariant
            at <= documents.len(),
            all == documents@.map_values(|document: Document| row_of(document, active)),
            models(rows@) == all.take(at as int),
        decreases documents.len() - at,
    {
        let document = &documents[at];
        let row = EditorRow {
            id: document.id,
            name: match &document.path {
                Some(path) => file_name(path.as_str()),
                None => unsaved_label(document),
            },
            path: document.path.clone(),
            dirty: document.dirty,
            active: Some(document.id) == active,
        };
        assert(row@ == row_of(*document, active));
        let ghost before = rows@;
        rows.push(row);
        at = at + 1;
        assert(models(rows@) == models(before).push(row@));
        assert(all.take(at as int) == all.take(at - 1).push(row@));
    }
    assert(all.take(at as int) == all);
    rows
}

/// What screen readers hear for a row.
pub open spec fn spoken(row: EditorRowModel) -> Seq<char> {
    row.name + ", open editor"@ + (if row.dirty {
        ", modified"@
    } else {
        Seq::empty()
    })
}

pub fn accessible_name(row: &EditorRow) -> (name: String)
    ensures
        name@ == spoken(row@),
{
    let mut name = join2(row.name.as_str(), ", open editor");
    if row.dirty {
        name.append(", modified");
    }
    assert(name@ == spoken(row@));
    name
}

/// What a row's tooltip reads.
pub open spec fn tip_of(row: EditorRowModel) -> Seq<char> {
    match row.path {
        Some(path) => path,
        None => row.name,
    }
}

/// A row's tooltip: the file's full path, or an untitled tab's label.
pub fn tooltip(row: &EditorRow) -> (tip: String)
    ensures
        tip@ == tip_of(row@),
{
    match &row.path {
        Some(path) => path.clone(),
        None => row.name.clone(),
    }
}

/// The close box at a row's right edge.
pub open spec fn close_box(row: Rect, dpi: int) -> Rect {
    Rect {
        left: vstd::math::max(
            row.right - crate::panel::scaled(CLOSE_BOX as int, dpi),
            row.left as int,
        ) as i32,
        ..row
    }
}

pub fn close_rect(row: Rect, dpi: u32) -> (close: Rect)
    requires
        dpi <= crate::panel::MAX_DPI,
    ensures
        close == close_box(row, dpi as int),
{
    proof {
        crate::panel::scaled_is_bounded(CLOSE_BOX as int, dpi as int);
    }
    let left: i64 = (row.right as i64 - scale(CLOSE_BOX, dpi) as i64).max(row.left as i64);
    Rect { left: left as i32, ..row }
}

/// The icon that a file at `path` shows; an untitled one shows a note without a type.
pub open spec fn item_of(path: Option<Seq<char>>) -> crate::drawing::ItemModel {
    Item::Note(
        match path {
            Some(path) => crate::paths::extension_of(path),
            None => None,
        },
    )
}

/// The icon a row (and its drag label) shows.
pub fn tree_item(row: &EditorRow) -> (item: TreeItem)
    ensures
        crate::drawing::item_model(item) == item_of(row@.path),
{
    match &row.path {
        Some(path) => Item::Note(extension(path.as_str())),
        None => Item::Note(None),
    }
}

/// The section's rows and its own list state (scroll, hover, the active row as selected).
#[derive(Debug)]
pub struct OpenEditors {
    pub rows: Vec<EditorRow>,
    pub list: RowListState,
    /// The pointer is over the hovered row's close box.
    pub hover_close: bool,
}

/// The first active row.
pub open spec fn active_place(rows: Seq<EditorRowModel>) -> Option<int> {
    rows.map_values(|row: EditorRowModel| row.active).index_of_first(true)
}

/// The first active row as a row number.
pub open spec fn active_row(rows: Seq<EditorRowModel>) -> Option<usize> {
    match active_place(rows) {
        Some(index) => Some(index as usize),
        None => None,
    }
}

/// What the rows are known by: two rows are the same where their paths are one.
pub open spec fn row_keys(rows: Seq<EditorRow>) -> Seq<EditorRowModel> {
    rows.map_values(
        |row: EditorRow| EditorRowModel { path: crate::paths::maybe_key(row@.path), ..row@ },
    )
}

fn same_rows(a: &Vec<EditorRow>, b: &Vec<EditorRow>) -> (same: bool)
    ensures
        same == (row_keys(a@) == row_keys(b@)),
{
    if a.len() != b.len() {
        assert(row_keys(a@).len() != row_keys(b@).len());
        return false;
    }
    let mut at: usize = 0;
    while at < a.len()
        invariant
            a.len() == b.len(),
            at <= a.len(),
            forall|i: int| 0 <= i < at ==> #[trigger] row_keys(a@)[i] == row_keys(b@)[i],
        decreases a.len() - at,
    {
        let (x, y) = (&a[at], &b[at]);
        if x.id != y.id || x.name != y.name || !same_maybe_path(&x.path, &y.path) || x.dirty
            != y.dirty || x.active != y.active {
            assert(row_keys(a@)[at as int] != row_keys(b@)[at as int]);
            return false;
        }
        at = at + 1;
    }
    assert(row_keys(a@) == row_keys(b@));
    true
}

/// What taking `rows` does.
pub open spec fn taken(
    before: OpenEditors,
    after: OpenEditors,
    rows: Vec<EditorRow>,
    changed: bool,
) -> bool {
    &&& changed == (row_keys(rows@) != row_keys(before.rows@))
    &&& !changed ==> after == before
    &&& changed ==> {
        &&& after.rows == rows
        &&& after.list == (RowListState {
            selected: active_row(models(rows@)),
            ..before.list.recounted(rows.len())
        })
        &&& after.hover_close == before.hover_close
    }
}

impl OpenEditors {
    /// The list has one row per tab.
    pub open spec fn wf(self) -> bool {
        &&& self.list.wf()
        &&& self.list.count == self.rows.len()
    }

    pub fn new(row_height: i32) -> (editors: Self)
        requires
            row_height <= crate::geometry::MAX_COORDINATE,
        ensures
            editors.wf(),
            editors.rows@ == Seq::<EditorRow>::empty(),
            editors.list == (RowListState {
                count: 0,
                selected: None,
                hover: None,
                top: 0,
                row_height: vstd::math::max(row_height as int, 1) as i32,
                wheel_remainder: 0,
            }),
            !editors.hover_close,
    {
        OpenEditors { rows: Vec::new(), list: RowListState::new(row_height), hover_close: false }
    }

    /// Takes `rows`; true when anything shown changed. The list's selection is the active row.
    pub fn set_rows(&mut self, rows: Vec<EditorRow>) -> (changed: bool)
        requires
            old(self).wf(),
        ensures
            final(self).wf(),
            taken(*old(self), *final(self), rows, changed),
    {
        if same_rows(&rows, &self.rows) {
            return false;
        }
        self.rows = rows;
        self.list.set_count(self.rows.len());
        self.list.selected = self.active_index();
        true
    }

    pub fn active_index(&self) -> (index: Option<usize>)
        ensures
            index == active_row(models(self.rows@)),
            index matches Some(index) ==> index < self.rows.len(),
    {
        let ghost flags = models(self.rows@).map_values(|row: EditorRowModel| row.active);
        proof {
            flags.index_of_first_ensures(true);
        }
        let mut at: usize = 0;
        while at < self.rows.len()
            invariant
                at <= self.rows.len(),
                flags == models(self.rows@).map_values(|row: EditorRowModel| row.active),
                forall|i: int| 0 <= i < at ==> flags[i] != true,
                match flags.index_of_first(true) {
                    Some(index) => 0 <= index < flags.len() && flags[index] == true && forall|j: int|
                        0 <= j < index < flags.len() ==> flags[j] != true,
                    None => !flags.contains(true),
                },
            decreases self.rows.len() - at,
        {
            if self.rows[at].active {
                assert(flags[at as int] == true);
                return Some(at);
            }
            at = at + 1;
        }
        None
    }
}

/// A row's icon box: indented, and clipped by the row's right edge.
pub open spec fn icon_box(rect: Rect, dpi: int) -> Rect {
    let left = rect.left + crate::panel::scaled(LEFT_PAD as int, dpi);
    Rect {
        left: vstd::math::min(left, rect.right as int) as i32,
        right: vstd::math::min(
            left + crate::panel::scaled(GLYPH_BOX as int, dpi),
            rect.right as int,
        ) as i32,
        ..rect
    }
}

/// One row: the icon, the name, and at the right the dot of a dirty tab or, on hover or selection,
/// a clean tab's close box.
pub open spec fn row_steps(
    row: EditorRowModel,
    rect: Rect,
    look: RowLook,
    palette: Palette,
    dpi: int,
    close_hot: bool,
) -> Seq<StepModel> {
    let foreground = crate::row_list::foreground_of(look, palette);
    let muted = crate::row_list::muted_of(look, palette);
    let icon = icon_box(rect, dpi);
    let close = close_box(rect, dpi);
    let name = Rect {
        left: vstd::math::min(
            icon.right + crate::panel::scaled(GAP as int, dpi),
            close.left as int,
        ) as i32,
        right: close.left,
        ..rect
    };
    let drawn = seq![
        Step::Icon {
            item: item_of(row.path),
            rect: icon,
            px: crate::panel::scaled(GLYPH_BOX as int, dpi) as i32,
            muted,
        },
        Step::Text {
            text: row.name,
            rect: name,
            font: Font::Text,
            color: foreground,
            align: Align::Line,
        },
    ];
    if row.dirty {
        drawn.push(
            Step::Text {
                text: DIRTY_DOT@,
                rect: close,
                font: Font::Text,
                color: muted,
                align: Align::Centered,
            },
        )
    } else if look.hover || look.selected {
        drawn.push(
            Step::Text {
                text: GLYPH_CLOSE@,
                rect: close,
                font: Font::Glyph,
                color: if close_hot {
                    foreground
                } else {
                    muted
                },
                align: Align::Centered,
            },
        )
    } else {
        drawn
    }
}

/// Draws one row.
pub fn draw_editor_row(
    drawn: &mut Vec<DrawStep>,
    row: &EditorRow,
    rect: Rect,
    look: RowLook,
    palette: &Palette,
    dpi: u32,
    close_hot: bool,
)
    requires
        dpi <= crate::panel::MAX_DPI,
    ensures
        crate::drawing::steps(final(drawn)@) == crate::drawing::steps(old(drawn)@) + row_steps(
            row@,
            rect,
            look,
            *palette,
            dpi as int,
            close_hot,
        ),
{
    proof {
        crate::panel::scaled_is_bounded(LEFT_PAD as int, dpi as int);
        crate::panel::scaled_is_bounded(GLYPH_BOX as int, dpi as int);
        crate::panel::scaled_is_bounded(GAP as int, dpi as int);
        crate::panel::scaled_is_bounded(CLOSE_BOX as int, dpi as int);
    }
    let foreground: u32 = row_foreground(look, palette);
    let muted: u32 = row_muted(look, palette);
    let px: i32 = scale(GLYPH_BOX, dpi);
    let left: i64 = rect.left as i64 + scale(LEFT_PAD, dpi) as i64;
    let icon = Rect {
        left: left.min(rect.right as i64) as i32,
        top: rect.top,
        right: (left + px as i64).min(rect.right as i64) as i32,
        bottom: rect.bottom,
    };
    draw_icon(drawn, tree_item(row), icon, px, muted);
    let close = close_rect(rect, dpi);
    let name = Rect {
        left: (icon.right as i64 + scale(GAP, dpi) as i64).min(close.left as i64) as i32,
        right: close.left,
        ..rect
    };
    draw_text(drawn, row.name.as_str(), name, Font::Text, foreground, Align::Line);
    if row.dirty {
        draw_text(drawn, DIRTY_DOT, close, Font::Text, muted, Align::Centered);
    } else if look.hover || look.selected {
        let color: u32 = if close_hot {
            foreground
        } else {
            muted
        };
        draw_text(drawn, GLYPH_CLOSE, close, Font::Glyph, color, Align::Centered);
    }
    assert(crate::drawing::steps(drawn@) == crate::drawing::steps(old(drawn)@) + row_steps(
        row@,
        rect,
        look,
        *palette,
        dpi as int,
        close_hot,
    ));
}

/// The rows follow the tabs: their names and paths are read off the documents, in order, and at
/// most the row of the active document is active when no two documents share an id.
pub proof fn rows_follow_the_tabs(documents: Seq<Document>, active: Option<DocumentId>, index: int)
    requires
        0 <= index < documents.len(),
        crate::tabs::ids_of(documents).no_duplicates(),
    ensures
        ({
            let rows = documents.map_values(|document: Document| row_of(document, active));
            &&& rows[index].id == documents[index].id
            &&& rows[index].active ==> active_place(rows) == Some(index)
        }),
{
    let rows = documents.map_values(|document: Document| row_of(document, active));
    let flags = rows.map_values(|row: EditorRowModel| row.active);
    let ids = crate::tabs::ids_of(documents);
    flags.index_of_first_ensures(true);
    if rows[index].active {
        assert(flags[index] == true);
        let first = active_place(rows)->0;
        assert(ids[first] == ids[index]);
    }
}

} // verus!
