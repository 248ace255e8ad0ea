//! What the Notebook view paints: its sections, the states without a tree, the tree with a drag's
//! band, and the frame and the problem of an inline name.

use crate::drawing::{draw_text, fill, Align, DrawStep, Font, Item, Step, TreeItem};
use crate::geometry::{height, Rect};
use crate::list_paint::{draw_list, RowPainter};
use crate::notebook_hits::{NEW_NOTE, OPEN_NOTEBOOK, RETRY};
use crate::notebook_view::{row_rect, Frame, HeaderButton, Hit, Mode, NotebookView, ROW_HEIGHT};
use crate::open_editors::draw_editor_row;
use crate::palette::Palette;
use crate::panel::{inset, scale};
use crate::panel_cursor::Cursor;
use crate::row_list::{RowListState, RowSlot};
use crate::text::{decimal_text, join2, join3};
use crate::tree::TreeRow;
use crate::tree_paint::{
    band_rect, draw_recent_row, draw_tree_row, is_dragged_row, paint_band, paint_outline,
    state_layout, DragSource, Highlight, RecentName, GLYPH_CHEVRON_DOWN, GLYPH_CHEVRON_RIGHT,
};
use vstd::prelude::*;
use vstd::string::*;

verus! {

pub const GLYPH_STAR: &'static str = "\u{E734}";

pub const GLYPH_STAR_FILLED: &'static str = "\u{E735}";

pub const GLYPH_ADD: &'static str = "\u{E710}";

pub const GLYPH_MORE: &'static str = "\u{E712}";

pub const GLYPH_NEW_FOLDER: &'static str = "\u{E8F4}";

/// What the view says when a notebook's load failed.
pub const LOAD_FAILED: &'static str = "Couldn't load this notebook.";

/// How far the title stands from the left edge, at 96 DPI.
pub const TITLE_INDENT: i32 = 12;

/// The padding around an inline name's problem, at 96 DPI.
pub const PROBLEM_PAD: i32 = 4;

/// What `str::to_uppercase` gives for a text.
pub uninterp spec fn uppercased(text: Seq<char>) -> Seq<char>;

/// `str::to_uppercase` of std: the text in Unicode uppercase. The mapping is a table of its own, so
/// the result only has a name here.
#[verifier::external_body]
fn to_uppercase(text: &str) -> (upper: String)
    ensures
        upper@ == uppercased(text@),
{
    text.to_uppercase()
}

/// One line of small bold capitals.
pub open spec fn bold(text: Seq<char>, rect: Rect, color: u32) -> crate::drawing::StepModel {
    Step::Text { text, rect, font: Font::Bold, color, align: Align::Line }
}

/// A symbol in the middle of its box.
pub open spec fn symbol(glyph: Seq<char>, rect: Rect, color: u32) -> crate::drawing::StepModel {
    Step::Text { text: glyph, rect, font: Font::Glyph, color, align: Align::Centered }
}

/// An expanded section's chevron points down, a collapsed one's right.
pub open spec fn chevron(expanded: bool) -> Seq<char> {
    if expanded {
        GLYPH_CHEVRON_DOWN@
    } else {
        GLYPH_CHEVRON_RIGHT@
    }
}

/// The title band.
pub open spec fn title_steps(frame: Frame, palette: Palette) -> Seq<crate::drawing::StepModel> {
    let title = frame.layout.title;
    seq![
        bold(
            "NOTEBOOK"@,
            Rect {
                left: (title.left + crate::panel::scaled(TITLE_INDENT as int, frame.dpi as int)) as i32,
                ..title
            },
            palette.muted_foreground,
        ),
    ]
}

/// The Open Editors header: its chevron, its label and how many tabs there are.
pub open spec fn header_steps(frame: Frame, palette: Palette, expanded: bool, count: nat) -> Seq<
    crate::drawing::StepModel,
> {
    seq![
        symbol(chevron(expanded), frame.editors_chevron, palette.muted_foreground),
        bold(
            "OPEN EDITORS  "@ + crate::text::decimal(count),
            Rect { left: frame.editors_chevron.right, ..frame.layout.editors_header },
            palette.muted_foreground,
        ),
    ]
}

/// A root row button's symbol.
pub open spec fn button_glyph(button: HeaderButton, favorite: bool) -> Seq<char> {
    match button {
        HeaderButton::Favorite => if favorite {
            GLYPH_STAR_FILLED@
        } else {
            GLYPH_STAR@
        },
        HeaderButton::NewNote => GLYPH_ADD@,
        HeaderButton::NewFolder => GLYPH_NEW_FOLDER@,
        HeaderButton::More => GLYPH_MORE@,
    }
}

/// A root row button, over the hover's color while the pointer is on it.
pub open spec fn root_button_steps(glyph: Seq<char>, rect: Rect, hot: bool, palette: Palette) -> Seq<
    crate::drawing::StepModel,
> {
    if hot {
        seq![
            Step::Fill { rect, color: palette.hover_background },
            symbol(glyph, rect, palette.hover_foreground),
        ]
    } else {
        seq![symbol(glyph, rect, palette.muted_foreground)]
    }
}

fn draw_root_button(drawn: &mut Vec<DrawStep>, glyph: &str, rect: Rect, hot: bool, palette: &Palette)
    ensures
        crate::drawing::steps(final(drawn)@) == crate::drawing::steps(old(drawn)@)
            + root_button_steps(glyph@, rect, hot, *palette),
{
    let ghost start = crate::drawing::steps(drawn@);
    if hot {
        fill(drawn, rect, palette.hover_background);
    }
    let color: u32 = if hot {
        palette.hover_foreground
    } else {
        palette.muted_foreground
    };
    draw_text(drawn, glyph, rect, Font::Glyph, color, Align::Centered);
    assert(crate::drawing::steps(drawn@) =~= start + root_button_steps(glyph@, rect, hot, *palette));
}

/// A state's push button.
pub open spec fn button_steps(text: Seq<char>, rect: Rect, hot: bool, palette: Palette) -> Seq<
    crate::drawing::StepModel,
> {
    seq![
        Step::Fill {
            rect,
            color: if hot {
                palette.hover_background
            } else {
                palette.pressed_background
            },
        },
        Step::Text {
            text,
            rect,
            font: Font::Text,
            color: palette.editor_foreground,
            align: Align::Centered,
        },
    ]
}

/// A state's message.
pub open spec fn message(text: Seq<char>, rect: Rect, palette: Palette) -> crate::drawing::StepModel {
    Step::Text {
        text,
        rect,
        font: Font::Text,
        color: palette.editor_foreground,
        align: Align::Wrapped,
    }
}

/// The inline field as it is painted: the icon its row shows, where the field's frame is, and the
/// problem with the name, in `message`.
#[derive(Debug)]
pub struct InlinePaint {
    pub icon: TreeItem,
    pub field: Option<Rect>,
    pub problem: Option<String>,
    pub message: Rect,
}

impl InlinePaint {
    pub open spec fn wf(self) -> bool {
        &&& self.field matches Some(field) ==> field.drawable()
        &&& self.message.drawable()
    }
}

pub open spec fn inner(rect: Rect, by: int) -> Rect {
    Rect {
        left: (rect.left + by) as i32,
        top: (rect.top + by) as i32,
        right: (rect.right - by) as i32,
        bottom: (rect.bottom - by) as i32,
    }
}

/// The inline field's frame, in the accent color or the error color while a problem shows, and the
/// problem in a box of its own.
pub open spec fn inline_steps(
    field: Rect,
    problem: Option<Seq<char>>,
    message: Rect,
    palette: Palette,
    dpi: int,
) -> Seq<crate::drawing::StepModel> {
    let framed = seq![
        Step::Fill {
            rect: field,
            color: if problem is Some {
                palette.error_foreground
            } else {
                palette.selection_background
            },
        },
        Step::Fill { rect: inner(field, 1), color: palette.editor_background },
    ];
    match problem {
        Some(problem) => framed + seq![
            Step::Fill { rect: message, color: palette.error_foreground },
            Step::Fill { rect: inner(message, 1), color: palette.editor_background },
            Step::Text {
                text: problem,
                rect: inner(message, crate::panel::scaled(PROBLEM_PAD as int, dpi)),
                font: Font::Text,
                color: palette.error_foreground,
                align: Align::Wrapped,
            },
        ],
        None => framed,
    }
}

fn paint_inline(
    drawn: &mut Vec<DrawStep>,
    field: Rect,
    problem: &Option<String>,
    message: Rect,
    palette: &Palette,
    dpi: u32,
)
    requires
        field.drawable(),
        message.drawable(),
        dpi <= crate::panel::MAX_DPI,
    ensures
        crate::drawing::steps(final(drawn)@) == crate::drawing::steps(old(drawn)@) + inline_steps(
            field,
            crate::text::maybe(*problem),
            message,
            *palette,
            dpi as int,
        ),
{
    proof {
        crate::panel::scaled_is_bounded(PROBLEM_PAD as int, dpi as int);
    }
    let ghost start = crate::drawing::steps(drawn@);
    let outline: u32 = if problem.is_some() {
        palette.error_foreground
    } else {
        palette.selection_background
    };
    fill(drawn, field, outline);
    fill(drawn, inset(field, 1), palette.editor_background);
    if let Some(problem) = problem {
        let pad: i32 = scale(PROBLEM_PAD, dpi);
        fill(drawn, message, palette.error_foreground);
        fill(drawn, inset(message, 1), palette.editor_background);
        draw_text(
            drawn,
            problem.as_str(),
            inset(message, pad),
            Font::Text,
            palette.error_foreground,
            Align::Wrapped,
        );
    }
    assert(crate::drawing::steps(drawn@) =~= start + inline_steps(
        field,
        crate::text::maybe(*problem),
        message,
        *palette,
        dpi as int,
    ));
}

/// How wide a problem's text may get before it wraps, in a field.
pub fn problem_width(field: Rect, dpi: u32) -> (width: i32)
    requires
        field.drawable(),
        dpi <= crate::panel::MAX_DPI,
    ensures
        width == vstd::math::max(
            field.right - field.left - 2 * crate::panel::scaled(PROBLEM_PAD as int, dpi as int),
            1,
        ),
{
    proof {
        crate::panel::scaled_is_bounded(PROBLEM_PAD as int, dpi as int);
    }
    let pad: i32 = scale(PROBLEM_PAD, dpi);
    (field.right - field.left - 2 * pad).max(1)
}

/// The drop target's band, where it shows.
pub open spec fn maybe_band(band: Option<Rect>, palette: Palette, dpi: int, before_rows: bool) -> Seq<
    crate::drawing::StepModel,
> {
    match band {
        Some(rect) => crate::tree_paint::band_steps(rect, palette, dpi, before_rows),
        None => Seq::empty(),
    }
}

fn copy_item(item: &TreeItem) -> (copy: TreeItem)
    ensures
        copy == *item,
{
    match item {
        Item::Folder { expanded } => Item::Folder { expanded: *expanded },
        Item::Note(extension) => Item::Note(extension.clone()),
    }
}

/// The rows of the open editors.
struct EditorRows<'a> {
    view: &'a NotebookView,
    palette: &'a Palette,
    dpi: u32,
}

impl<'a> RowPainter for EditorRows<'a> {
    closed spec fn draws(&self, slot: RowSlot) -> bool {
        slot.index < self.view.editors.rows.len() && self.dpi <= crate::panel::MAX_DPI
    }

    closed spec fn row(&self) -> spec_fn(RowSlot) -> Seq<crate::drawing::StepModel> {
        self.view.editor_row(*self.palette, self.dpi as int)
    }

    fn draw(&self, drawn: &mut Vec<DrawStep>, slot: &RowSlot) {
        let editors = &self.view.editors;
        draw_editor_row(
            drawn,
            &editors.rows[slot.index],
            slot.rect,
            slot.look,
            self.palette,
            self.dpi,
            editors.hover_close && slot.look.hover,
        );
    }
}

/// The rows of the recent notebooks.
struct RecentRows<'a> {
    view: &'a NotebookView,
    palette: &'a Palette,
    dpi: u32,
}

impl<'a> RowPainter for RecentRows<'a> {
    closed spec fn draws(&self, slot: RowSlot) -> bool {
        slot.rect.spans() && self.dpi <= crate::panel::MAX_DPI
    }

    closed spec fn row(&self) -> spec_fn(RowSlot) -> Seq<crate::drawing::StepModel> {
        self.view.recent_row(*self.palette, self.dpi as int)
    }

    fn draw(&self, drawn: &mut Vec<DrawStep>, slot: &RowSlot) {
        let names = &self.view.recent_names;
        let name: Option<&RecentName> = if slot.index < names.len() {
            Some(&names[slot.index])
        } else {
            None
        };
        proof {
            crate::panel::scaled_is_bounded(crate::tree_paint::LEFT_PAD as int, self.dpi as int);
        }
        draw_recent_row(drawn, name, slot.rect, slot.look, self.palette, self.dpi);
    }
}

/// The rows of the tree. The edited one shows `icon`.
struct TreeRows<'a> {
    view: &'a NotebookView,
    palette: &'a Palette,
    dpi: u32,
    icon: &'a TreeItem,
}

impl<'a> RowPainter for TreeRows<'a> {
    closed spec fn draws(&self, slot: RowSlot) -> bool {
        slot.rect.spans() && self.dpi <= crate::panel::MAX_DPI
    }

    closed spec fn row(&self) -> spec_fn(RowSlot) -> Seq<crate::drawing::StepModel> {
        self.view.tree_row(
            *self.palette,
            self.dpi as int,
            crate::drawing::item_model(*self.icon),
        )
    }

    fn draw(&self, drawn: &mut Vec<DrawStep>, slot: &RowSlot) {
        self.view.draw_slot(drawn, slot, self.palette, self.dpi, self.icon);
    }
}

impl NotebookView {
    /// One open editor's row.
    pub open spec fn editor_row(self, palette: Palette, dpi: int) -> spec_fn(RowSlot) -> Seq<
        crate::drawing::StepModel,
    > {
        |slot: RowSlot|
            crate::open_editors::row_steps(
                self.editors.rows@[slot.index as int]@,
                slot.rect,
                slot.look,
                palette,
                dpi,
                self.editors.hover_close && slot.look.hover,
            )
    }

    fn draw_editors(&self, drawn: &mut Vec<DrawStep>, frame: &Frame, palette: &Palette, focused: bool)
        requires
            self.wf(),
            frame.wf(),
        ensures
            crate::drawing::steps(final(drawn)@) == crate::drawing::steps(old(drawn)@)
                + crate::list_paint::list_steps(
                frame.layout.editors_list,
                self.editors.list,
                *palette,
                focused,
                self.editor_row(*palette, frame.dpi as int),
            ),
    {
        let rows = EditorRows { view: self, palette, dpi: frame.dpi };
        draw_list(drawn, frame.layout.editors_list, &self.editors.list, palette, focused, &rows);
    }

    /// One recent notebook's row.
    pub open spec fn recent_row(self, palette: Palette, dpi: int) -> spec_fn(RowSlot) -> Seq<
        crate::drawing::StepModel,
    > {
        |slot: RowSlot|
            if slot.index < self.recent_names.len() {
                crate::tree_paint::recent_steps(
                    self.recent_names@[slot.index as int],
                    slot.rect,
                    slot.look,
                    palette,
                    dpi,
                )
            } else {
                Seq::empty()
            }
    }

    fn draw_recent(&self, drawn: &mut Vec<DrawStep>, area: Rect, palette: &Palette, dpi: u32, focused: bool)
        requires
            self.wf(),
            area.in_range(),
            dpi <= crate::panel::MAX_DPI,
        ensures
            crate::drawing::steps(final(drawn)@) == crate::drawing::steps(old(drawn)@)
                + crate::list_paint::list_steps(
                area,
                self.list,
                *palette,
                focused,
                self.recent_row(*palette, dpi as int),
            ),
    {
        let rows = RecentRows { view: self, palette, dpi };
        draw_list(drawn, area, &self.list, palette, focused, &rows);
    }

    /// What a started drag carries.
    pub open spec fn carried(self) -> Option<DragSource> {
        match self.drag {
            Some(drag) if drag.started => Some(drag.source),
            _ => None,
        }
    }

    /// One row of the tree. The edited row leaves its name to the field and shows the icon for
    /// what is typed so far; the dragged one is dimmed.
    pub open spec fn tree_row(self, palette: Palette, dpi: int, icon: crate::drawing::ItemModel) -> spec_fn(
        RowSlot,
    ) -> Seq<crate::drawing::StepModel> {
        |slot: RowSlot|
            crate::tree_paint::tree_row_steps(
                if slot.index < self.rows.len() {
                    Some(self.rows@[slot.index as int])
                } else {
                    None
                },
                slot.rect,
                slot.look,
                palette,
                dpi,
                self.hover_pin && slot.look.hover,
                if self.inline.row == Some(slot.index) {
                    Some(icon)
                } else {
                    None
                },
                crate::tree_paint::carries(self.carried(), self.rows@, slot.index as int),
            )
    }

    fn draw_slot(
        &self,
        drawn: &mut Vec<DrawStep>,
        slot: &RowSlot,
        palette: &Palette,
        dpi: u32,
        icon: &TreeItem,
    )
        requires
            slot.rect.spans(),
            dpi <= crate::panel::MAX_DPI,
        ensures
            crate::drawing::steps(final(drawn)@) == crate::drawing::steps(old(drawn)@)
                + self.tree_row(*palette, dpi as int, crate::drawing::item_model(*icon))(*slot),
    {
        let row: Option<&TreeRow> = if slot.index < self.rows.len() {
            Some(&self.rows[slot.index])
        } else {
            None
        };
        let editing: Option<TreeItem> = match self.inline.row {
            Some(edited) => if edited == slot.index {
                Some(copy_item(icon))
            } else {
                None
            },
            None => None,
        };
        let carried: Option<&DragSource> = match &self.drag {
            Some(drag) => if drag.started {
                Some(&drag.source)
            } else {
                None
            },
            None => None,
        };
        let dimmed: bool = is_dragged_row(carried, &self.rows, slot.index);
        proof {
            crate::panel::scaled_is_bounded(crate::tree_paint::LEFT_PAD as int, dpi as int);
        }
        draw_tree_row(
            drawn,
            row,
            slot.rect,
            slot.look,
            palette,
            dpi,
            self.hover_pin && slot.look.hover,
            editing,
            dimmed,
        );
    }

    fn draw_tree(
        &self,
        drawn: &mut Vec<DrawStep>,
        area: Rect,
        palette: &Palette,
        dpi: u32,
        focused: bool,
        icon: &TreeItem,
    )
        requires
            self.wf(),
            area.in_range(),
            dpi <= crate::panel::MAX_DPI,
        ensures
            crate::drawing::steps(final(drawn)@) == crate::drawing::steps(old(drawn)@)
                + crate::list_paint::list_steps(
                area,
                self.list,
                *palette,
                focused,
                self.tree_row(*palette, dpi as int, crate::drawing::item_model(*icon)),
            ),
    {
        let rows = TreeRows { view: self, palette, dpi, icon };
        draw_list(drawn, area, &self.list, palette, focused, &rows);
    }

    /// The root row: its chevron, the notebook's name in capitals and its buttons, or that there is
    /// no notebook.
    pub open spec fn root_steps(self, frame: Frame, palette: Palette, label: Seq<char>) -> Seq<
        crate::drawing::StepModel,
    > {
        let parts = frame.root;
        let button = |button: HeaderButton, rect: Rect|
            root_button_steps(
                button_glyph(button, self.favorite),
                rect,
                self.hover == Some(Hit::Header(button)),
                palette,
            );
        if self.mode == Mode::NoNotebook {
            seq![
                bold(
                    "NO NOTEBOOK"@,
                    Rect { left: parts.chevron.right, ..frame.layout.root },
                    palette.muted_foreground,
                ),
            ]
        } else {
            seq![
                symbol(chevron(self.root_expanded), parts.chevron, palette.muted_foreground),
                bold(label, parts.name, palette.muted_foreground),
            ] + button(HeaderButton::Favorite, parts.favorite) + button(
                HeaderButton::NewNote,
                parts.new_note,
            ) + button(HeaderButton::NewFolder, parts.new_folder) + button(
                HeaderButton::More,
                parts.more,
            )
        }
    }

    fn is_hot(&self, button: HeaderButton) -> (hot: bool)
        ensures
            hot == (self.hover == Some(Hit::Header(button))),
    {
        match self.hover {
            Some(hit) => hit == Hit::Header(button),
            None => false,
        }
    }

    fn draw_root(&self, drawn: &mut Vec<DrawStep>, frame: &Frame, palette: &Palette, label: &str)
        ensures
            crate::drawing::steps(final(drawn)@) == crate::drawing::steps(old(drawn)@)
                + self.root_steps(*frame, *palette, label@),
    {
        let ghost start = crate::drawing::steps(drawn@);
        let parts = frame.root;
        let muted: u32 = palette.muted_foreground;
        if self.mode == Mode::NoNotebook {
            let rect = Rect { left: parts.chevron.right, ..frame.layout.root };
            draw_text(drawn, "NO NOTEBOOK", rect, Font::Bold, muted, Align::Line);
            assert(crate::drawing::steps(drawn@) =~= start + self.root_steps(
                *frame,
                *palette,
                label@,
            ));
            return;
        }
        let glyph: &str = if self.root_expanded {
            GLYPH_CHEVRON_DOWN
        } else {
            GLYPH_CHEVRON_RIGHT
        };
        draw_text(drawn, glyph, parts.chevron, Font::Glyph, muted, Align::Centered);
        draw_text(drawn, label, parts.name, Font::Bold, muted, Align::Line);
        let star: &str = if self.favorite {
            GLYPH_STAR_FILLED
        } else {
            GLYPH_STAR
        };
        let hot: bool = self.is_hot(HeaderButton::Favorite);
        draw_root_button(drawn, star, parts.favorite, hot, palette);
        let hot: bool = self.is_hot(HeaderButton::NewNote);
        draw_root_button(drawn, GLYPH_ADD, parts.new_note, hot, palette);
        let hot: bool = self.is_hot(HeaderButton::NewFolder);
        draw_root_button(drawn, GLYPH_NEW_FOLDER, parts.new_folder, hot, palette);
        let hot: bool = self.is_hot(HeaderButton::More);
        draw_root_button(drawn, GLYPH_MORE, parts.more, hot, palette);
        assert(crate::drawing::steps(drawn@) =~= start + self.root_steps(*frame, *palette, label@));
    }

    /// The row that the keyboard selection outlines: a header row, or a tab row cut at its list's
    /// bottom. The tree shows its own selection.
    pub open spec fn outlined(self, frame: Frame) -> Option<Rect> {
        match self.cursor {
            Cursor::EditorsHeader => Some(frame.layout.editors_header),
            Cursor::Editor(index) if self.editors_expanded => {
                let list = frame.layout.editors_list;
                match crate::notebook_view::row_box(list, self.editors.list, index) {
                    Some(row) if row.top < list.bottom => Some(
                        Rect {
                            bottom: vstd::math::min(row.bottom as int, list.bottom as int) as i32,
                            ..row
                        },
                    ),
                    _ => None,
                }
            },
            Cursor::Root if self.mode != Mode::NoNotebook => Some(frame.layout.root),
            _ => None,
        }
    }

    fn outline(&self, frame: &Frame) -> (rect: Option<Rect>)
        requires
            self.wf(),
            frame.wf(),
        ensures
            rect == self.outlined(*frame),
            rect matches Some(rect) ==> rect.drawable(),
    {
        match self.cursor {
            Cursor::EditorsHeader => Some(frame.layout.editors_header),
            Cursor::Editor(index) => {
                if !self.editors_expanded {
                    return None;
                }
                let list = frame.layout.editors_list;
                match row_rect(list, &self.editors.list, index) {
                    Some(row) => if row.top < list.bottom {
                        Some(
                            Rect {
                                left: row.left,
                                top: row.top,
                                right: row.right,
                                bottom: row.bottom.min(list.bottom),
                            },
                        )
                    } else {
                        None
                    },
                    None => None,
                }
            },
            Cursor::Root => if self.mode != Mode::NoNotebook {
                Some(frame.layout.root)
            } else {
                None
            },
            Cursor::Tree => None,
        }
    }

    /// What the sections paint, from the title to the root row.
    pub open spec fn section_steps(
        self,
        frame: Frame,
        palette: Palette,
        focused: bool,
        label: Seq<char>,
    ) -> Seq<crate::drawing::StepModel> {
        title_steps(frame, palette) + header_steps(
            frame,
            palette,
            self.editors_expanded,
            self.editors.rows.len() as nat,
        ) + crate::list_paint::list_steps(
            frame.layout.editors_list,
            self.editors.list,
            palette,
            focused,
            self.editor_row(palette, frame.dpi as int),
        ) + self.root_steps(frame, palette, label) + (match self.outlined(frame) {
            Some(rect) if focused => crate::tree_paint::outline_steps(
                rect,
                palette.selection_background,
                frame.dpi as int,
            ),
            _ => Seq::empty(),
        })
    }

    fn draw_headers(&self, drawn: &mut Vec<DrawStep>, frame: &Frame, palette: &Palette)
        requires
            frame.wf(),
            self.editors.rows.len() <= u64::MAX,
        ensures
            crate::drawing::steps(final(drawn)@) == crate::drawing::steps(old(drawn)@)
                + title_steps(*frame, *palette) + header_steps(
                *frame,
                *palette,
                self.editors_expanded,
                self.editors.rows.len() as nat,
            ),
    {
        proof {
            crate::panel::scaled_is_bounded(TITLE_INDENT as int, frame.dpi as int);
        }
        let ghost start = crate::drawing::steps(drawn@);
        let muted: u32 = palette.muted_foreground;
        let title = Rect {
            left: frame.layout.title.left + scale(TITLE_INDENT, frame.dpi),
            ..frame.layout.title
        };
        draw_text(drawn, "NOTEBOOK", title, Font::Bold, muted, Align::Line);
        let glyph: &str = if self.editors_expanded {
            GLYPH_CHEVRON_DOWN
        } else {
            GLYPH_CHEVRON_RIGHT
        };
        draw_text(drawn, glyph, frame.editors_chevron, Font::Glyph, muted, Align::Centered);
        let count: String = decimal_text(self.editors.rows.len() as u64);
        let text: String = join2("OPEN EDITORS  ", count.as_str());
        let rect = Rect { left: frame.editors_chevron.right, ..frame.layout.editors_header };
        draw_text(drawn, text.as_str(), rect, Font::Bold, muted, Align::Line);
        assert(crate::drawing::steps(drawn@) =~= start + title_steps(*frame, *palette)
            + header_steps(
            *frame,
            *palette,
            self.editors_expanded,
            self.editors.rows.len() as nat,
        ));
    }

    /// Paints the sections, the root row's label given.
    #[verifier::rlimit(30)]
    pub fn paint_sections(
        &self,
        drawn: &mut Vec<DrawStep>,
        frame: &Frame,
        palette: &Palette,
        focused: bool,
        label: &str,
    )
        requires
            self.wf(),
            frame.wf(),
        ensures
            crate::drawing::steps(final(drawn)@) == crate::drawing::steps(old(drawn)@)
                + self.section_steps(*frame, *palette, focused, label@),
    {
        let ghost start = crate::drawing::steps(drawn@);
        self.draw_headers(drawn, frame, palette);
        self.draw_editors(drawn, frame, palette, focused);
        self.draw_root(drawn, frame, palette, label);
        if focused {
            if let Some(rect) = self.outline(frame) {
                paint_outline(drawn, rect, palette.selection_background, frame.dpi);
            }
        }
        assert(crate::drawing::steps(drawn@) =~= start + self.section_steps(
            *frame,
            *palette,
            focused,
            label@,
        ));
    }

    /// What the states without a tree paint under the root row.
    pub open spec fn state_steps(self, frame: Frame, palette: Palette, focused: bool) -> Seq<
        crate::drawing::StepModel,
    > {
        let boxes = crate::tree_paint::state_boxes(frame.layout.body, frame.dpi as int);
        let button = |text: Seq<char>, rect: Rect, hit: Hit|
            button_steps(text, rect, self.hover == Some(hit), palette);
        match self.mode {
            Mode::NoNotebook => seq![
                message("Open a notebook to see its notes."@, boxes.message, palette),
            ] + button(OPEN_NOTEBOOK@, boxes.button, Hit::StateButton) + (if self.recent.len() > 0 {
                seq![bold("RECENT"@, boxes.label, palette.muted_foreground)]
            } else {
                Seq::empty()
            }) + crate::list_paint::list_steps(
                boxes.list,
                self.list,
                palette,
                focused,
                self.recent_row(palette, frame.dpi as int),
            ),
            Mode::Empty => seq![
                message("No notes in "@ + self.name@ + " yet."@, boxes.message, palette),
            ] + button(NEW_NOTE@, boxes.button, Hit::StateButton),
            Mode::Failed => seq![message(LOAD_FAILED@, boxes.message, palette)] + button(
                RETRY@,
                boxes.button,
                Hit::StateButton,
            ) + button(OPEN_NOTEBOOK@, boxes.second, Hit::SecondButton),
            Mode::Loading => seq![
                Step::Text {
                    text: "Loading\u{2026}"@,
                    rect: boxes.message,
                    font: Font::Text,
                    color: palette.muted_foreground,
                    align: Align::Line,
                },
            ],
            Mode::Tree => Seq::empty(),
        }
    }

    fn paint_button(&self, drawn: &mut Vec<DrawStep>, rect: Rect, text: &str, hit: Hit, palette: &Palette)
        ensures
            crate::drawing::steps(final(drawn)@) == crate::drawing::steps(old(drawn)@)
                + button_steps(text@, rect, self.hover == Some(hit), *palette),
    {
        let ghost start = crate::drawing::steps(drawn@);
        let hot: bool = match self.hover {
            Some(hover) => hover == hit,
            None => false,
        };
        let background: u32 = if hot {
            palette.hover_background
        } else {
            palette.pressed_background
        };
        fill(drawn, rect, background);
        draw_text(drawn, text, rect, Font::Text, palette.editor_foreground, Align::Centered);
        assert(crate::drawing::steps(drawn@) =~= start + button_steps(
            text@,
            rect,
            self.hover == Some(hit),
            *palette,
        ));
    }

    fn draw_message(&self, drawn: &mut Vec<DrawStep>, text: &str, rect: Rect, palette: &Palette)
        ensures
            crate::drawing::steps(final(drawn)@) == crate::drawing::steps(old(drawn)@).push(
                message(text@, rect, *palette),
            ),
    {
        draw_text(drawn, text, rect, Font::Text, palette.editor_foreground, Align::Wrapped);
    }

    fn paint_state(&self, drawn: &mut Vec<DrawStep>, frame: &Frame, palette: &Palette, focused: bool)
        requires
            self.wf(),
            frame.wf(),
        ensures
            crate::drawing::steps(final(drawn)@) == crate::drawing::steps(old(drawn)@)
                + self.state_steps(*frame, *palette, focused),
    {
        let ghost start = crate::drawing::steps(drawn@);
        let boxes = state_layout(frame.layout.body, frame.dpi);
        match self.mode {
            Mode::NoNotebook => {
                self.draw_message(drawn, "Open a notebook to see its notes.", boxes.message, palette);
                self.paint_button(drawn, boxes.button, OPEN_NOTEBOOK, Hit::StateButton, palette);
                if self.recent.len() > 0 {
                    draw_text(
                        drawn,
                        "RECENT",
                        boxes.label,
                        Font::Bold,
                        palette.muted_foreground,
                        Align::Line,
                    );
                }
                self.draw_recent(drawn, boxes.list, palette, frame.dpi, focused);
            },
            Mode::Empty => {
                let text: String = join3("No notes in ", self.name.as_str(), " yet.");
                self.draw_message(drawn, text.as_str(), boxes.message, palette);
                self.paint_button(drawn, boxes.button, NEW_NOTE, Hit::StateButton, palette);
            },
            Mode::Failed => {
                self.draw_message(drawn, LOAD_FAILED, boxes.message, palette);
                self.paint_button(drawn, boxes.button, RETRY, Hit::StateButton, palette);
                self.paint_button(drawn, boxes.second, OPEN_NOTEBOOK, Hit::SecondButton, palette);
            },
            Mode::Loading => {
                draw_text(
                    drawn,
                    "Loading\u{2026}",
                    boxes.message,
                    Font::Text,
                    palette.muted_foreground,
                    Align::Line,
                );
            },
            Mode::Tree => {},
        }
        assert(crate::drawing::steps(drawn@) =~= start + self.state_steps(*frame, *palette, focused));
    }

    /// Where the drop target of a started drag shows.
    pub open spec fn target_band(self, frame: Frame, highlight: Option<Highlight>) -> Option<Rect> {
        match (self.drag, highlight) {
            (Some(drag), Some(highlight)) if drag.started && drag.target is Some => {
                crate::tree_paint::band(frame.layout.body, self.list, highlight)
            },
            _ => None,
        }
    }

    fn band(&self, frame: &Frame, highlight: Option<Highlight>) -> (band: Option<Rect>)
        requires
            self.wf(),
            frame.wf(),
        ensures
            band == self.target_band(*frame, highlight),
            band matches Some(band) ==> band.in_range(),
    {
        let targeted: bool = match &self.drag {
            Some(drag) => drag.started && drag.target.is_some(),
            None => false,
        };
        match highlight {
            Some(highlight) => if targeted {
                band_rect(frame.layout.body, &self.list, highlight)
            } else {
                None
            },
            None => None,
        }
    }

    fn draw_band(
        &self,
        drawn: &mut Vec<DrawStep>,
        band: Option<Rect>,
        palette: &Palette,
        dpi: u32,
        before_rows: bool,
    )
        requires
            band matches Some(band) ==> band.in_range(),
            dpi <= crate::panel::MAX_DPI,
        ensures
            crate::drawing::steps(final(drawn)@) == crate::drawing::steps(old(drawn)@)
                + maybe_band(band, *palette, dpi as int, before_rows),
    {
        let ghost start = crate::drawing::steps(drawn@);
        if let Some(band) = band {
            paint_band(drawn, band, palette, dpi, before_rows);
        }
        assert(crate::drawing::steps(drawn@) =~= start + maybe_band(
            band,
            *palette,
            dpi as int,
            before_rows,
        ));
    }

    /// What the tree paints: the band under the rows, the rows, the band's outline, and the inline
    /// field over its row.
    pub open spec fn tree_steps(
        self,
        frame: Frame,
        palette: Palette,
        focused: bool,
        highlight: Option<Highlight>,
        inline: InlinePaint,
    ) -> Seq<crate::drawing::StepModel> {
        let list = frame.layout.body;
        let band = self.target_band(frame, highlight);
        maybe_band(band, palette, frame.dpi as int, true) + crate::list_paint::list_steps(
            list,
            self.list,
            palette,
            focused,
            self.tree_row(palette, frame.dpi as int, crate::drawing::item_model(inline.icon)),
        ) + maybe_band(band, palette, frame.dpi as int, false) + (match inline.field {
            Some(field) if self.edits_in_view(frame) => inline_steps(
                field,
                crate::text::maybe(inline.problem),
                inline.message,
                palette,
                frame.dpi as int,
            ),
            _ => Seq::empty(),
        })
    }

    /// A row is edited, and it does not lie above the view.
    pub open spec fn edits_in_view(self, frame: Frame) -> bool {
        match self.inline.row {
            Some(index) => index < self.rows.len() && crate::notebook_view::row_box(
                frame.layout.body,
                self.list,
                index,
            ) is Some,
            None => false,
        }
    }

    fn paint_tree(
        &self,
        drawn: &mut Vec<DrawStep>,
        frame: &Frame,
        palette: &Palette,
        focused: bool,
        highlight: Option<Highlight>,
        inline: &InlinePaint,
    )
        requires
            self.wf(),
            frame.wf(),
            inline.wf(),
            self.shows_tree(),
        ensures
            crate::drawing::steps(final(drawn)@) == crate::drawing::steps(old(drawn)@)
                + self.tree_steps(*frame, *palette, focused, highlight, *inline),
    {
        let ghost start = crate::drawing::steps(drawn@);
        let list = frame.layout.body;
        let band: Option<Rect> = self.band(frame, highlight);
        self.draw_band(drawn, band, palette, frame.dpi, true);
        self.draw_tree(drawn, list, palette, frame.dpi, focused, &inline.icon);
        self.draw_band(drawn, band, palette, frame.dpi, false);
        if self.inline_row(frame).is_some() {
            if let Some(field) = inline.field {
                paint_inline(drawn, field, &inline.problem, inline.message, palette, frame.dpi);
            }
        }
        assert(crate::drawing::steps(drawn@) =~= start + self.tree_steps(
            *frame,
            *palette,
            focused,
            highlight,
            *inline,
        ));
    }

    /// What is painted under the sections. The states under the root show only while it is
    /// expanded; without a notebook there is no root to collapse.
    pub open spec fn body_steps(
        self,
        frame: Frame,
        palette: Palette,
        focused: bool,
        highlight: Option<Highlight>,
        inline: InlinePaint,
    ) -> Seq<crate::drawing::StepModel> {
        if self.mode != Mode::NoNotebook && !self.root_expanded {
            Seq::empty()
        } else if self.mode == Mode::Tree {
            self.tree_steps(frame, palette, focused, highlight, inline)
        } else {
            self.state_steps(frame, palette, focused)
        }
    }

    /// The view with its rows as tall as `frame` has them, and the open editors' scroll in range.
    pub open spec fn resized(self, frame: Frame) -> NotebookView {
        let row_height = crate::panel::scaled(ROW_HEIGHT as int, frame.dpi as int) as i32;
        let editors = RowListState { row_height, ..self.editors.list };
        let tall = frame.layout.editors_list.tall();
        NotebookView {
            list: RowListState { row_height, ..self.list },
            editors: crate::open_editors::OpenEditors {
                list: if tall > 0 {
                    editors.scrolled(0, tall)
                } else {
                    editors
                },
                ..self.editors
            },
            ..self
        }
    }

    fn resize(&mut self, frame: &Frame)
        requires
            old(self).wf(),
            frame.wf(),
        ensures
            final(self).wf(),
            *final(self) == old(self).resized(*frame),
    {
        proof {
            crate::panel::scaled_is_bounded(ROW_HEIGHT as int, frame.dpi as int);
        }
        let row_height: i32 = scale(ROW_HEIGHT, frame.dpi);
        assert(row_height >= 1);
        let mut editors: RowListState = self.editors.list;
        editors.row_height = row_height;
        let tall: i32 = height(frame.layout.editors_list);
        if tall > 0 {
            let _ = editors.scroll_lines(0, tall);
        }
        self.list.row_height = row_height;
        self.editors.list = editors;
    }

    /// Paints the view, the panel's background already filled. `highlight` is where the drag's
    /// target is among the rows.
    pub fn paint(
        &mut self,
        frame: &Frame,
        palette: &Palette,
        focused: bool,
        highlight: Option<Highlight>,
        inline: &InlinePaint,
    ) -> (drawn: Vec<DrawStep>)
        requires
            old(self).wf(),
            frame.wf(),
            inline.wf(),
        ensures
            final(self).wf(),
            *final(self) == old(self).resized(*frame),
            crate::drawing::steps(drawn@) == final(self).section_steps(
                *frame,
                *palette,
                focused,
                uppercased(old(self).name@),
            ) + final(self).body_steps(*frame, *palette, focused, highlight, *inline),
    {
        self.resize(frame);
        let label: String = to_uppercase(self.name.as_str());
        let mut drawn: Vec<DrawStep> = Vec::new();
        assert(crate::drawing::steps(drawn@) =~= Seq::empty());
        self.paint_sections(&mut drawn, frame, palette, focused, label.as_str());
        let ghost sections = crate::drawing::steps(drawn@);
        assert(sections =~= self.section_steps(*frame, *palette, focused, label@));
        if self.mode != Mode::NoNotebook && !self.root_expanded {
            assert(crate::drawing::steps(drawn@) =~= sections + self.body_steps(
                *frame,
                *palette,
                focused,
                highlight,
                *inline,
            ));
            return drawn;
        }
        if self.mode == Mode::Tree {
            self.paint_tree(&mut drawn, frame, palette, focused, highlight, inline);
        } else {
            self.paint_state(&mut drawn, frame, palette, focused);
        }
        drawn
    }
}

} // verus!
