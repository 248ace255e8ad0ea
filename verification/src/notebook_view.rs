//! The Notebook view: the open editors, the open notebook's folder tree with its pins, and the
//! loading, no-notebook, empty and failed states. It keeps the selection and the scroll by path
//! over every rebuild, and one keyboard selection through all its parts.

use crate::document::DocumentId;
use crate::geometry::{height, saturate, Point, Rect};
use crate::open_editors::{EditorRow, OpenEditors};
use crate::panel::scale;
use crate::panel_cursor::{Cursor, Shape};
use crate::paths::{join, parent, same_maybe_path, same_paths};
use crate::row_list::RowListState;
use crate::tree::{copy_kind, row_index, same_kind, Kind, RowKind, TreeRow};
use crate::tree_paint::{
    follow, state_layout, DragSource, RecentName, TypeAhead,
};
use vstd::prelude::*;

verus! {

/// A row's height, at 96 DPI.
pub const ROW_HEIGHT: i32 = 26;

/// How far right of a row's left edge its menu opens from the keyboard, at 96 DPI.
pub const MENU_INDENT: i32 = 24;

/// What the view shows.
#[derive(Clone, Copy, Debug, PartialEq, Eq, Structural)]
pub enum Mode {
    /// No notebook: a message, a button and the RECENT list.
    NoNotebook,
    /// A notebook is open but its state has not arrived.
    Loading,
    /// Loaded, with no notes.
    Empty,
    Tree,
    /// The notebook's load failed: a message, "Retry" and "Open notebook".
    Failed,
}

#[derive(Clone, Copy, Debug, PartialEq, Eq, Structural)]
pub enum HeaderButton {
    Favorite,
    NewNote,
    NewFolder,
    More,
}

/// How a note row is being opened.
#[derive(Clone, Copy, Debug, PartialEq, Eq, Structural)]
pub enum Activation {
    /// A mouse click: the preview tab, focus stays in the tree.
    Click,
    /// Enter: the preview tab, focus stays in the tree for further browsing.
    Enter,
    /// Ctrl+Enter or a double-click: a normal tab, focus to the editor.
    Permanent,
}

#[derive(Clone, Copy, Debug, PartialEq, Eq, Structural)]
pub enum RowPart {
    Chevron,
    Pin,
    Body,
}

/// What a point of the view is on.
#[derive(Clone, Copy, Debug, PartialEq, Eq, Structural)]
pub enum Hit {
    /// The Open Editors header row: toggles the section.
    EditorsHeader,
    /// An Open Editors row; `close` on a clean tab's close box.
    Editor { index: usize, close: bool },
    /// The root row's chevron or name: toggles the tree.
    Root,
    /// A root row button.
    Header(HeaderButton),
    /// "Open notebook" (no notebook), "New note" (empty notebook) or "Retry" (failed load).
    StateButton,
    /// "Open notebook" under "Retry", after a failed load.
    SecondButton,
    /// The scroll thumb, with where on it the press landed.
    Thumb(i32),
    Row { index: usize, part: RowPart },
    Empty,
}

/// What a drag is over.
#[derive(Clone, Copy, Debug, PartialEq, Eq, Structural)]
pub enum Hover {
    Outside,
    /// The root row.
    Header,
    Row(usize),
    /// Below the rows.
    Below,
}

/// The panel's bands.
#[derive(Clone, Copy, Debug, PartialEq, Eq, Structural)]
pub struct PanelLayout {
    pub title: Rect,
    pub editors_header: Rect,
    pub editors_list: Rect,
    pub root: Rect,
    pub body: Rect,
}

/// The root row's parts: its chevron, its name and its buttons, from the left.
#[derive(Clone, Copy, Debug, PartialEq, Eq, Structural)]
pub struct RootParts {
    pub chevron: Rect,
    pub name: Rect,
    pub favorite: Rect,
    pub new_note: Rect,
    pub new_folder: Rect,
    pub more: Rect,
}

/// Where the panel and its bands are.
#[derive(Clone, Copy, Debug, PartialEq, Eq, Structural)]
pub struct Frame {
    pub client: Rect,
    pub dpi: u32,
    pub layout: PanelLayout,
    pub root: RootParts,
    /// The Open Editors header's chevron.
    pub editors_chevron: Rect,
}

impl Frame {
    pub open spec fn wf(self) -> bool {
        &&& 96 <= self.dpi <= crate::panel::MAX_DPI
        &&& crate::geometry::roomy(self.client)
        &&& crate::geometry::roomy(self.layout.title)
        &&& crate::geometry::roomy(self.layout.editors_header)
        &&& crate::geometry::roomy(self.layout.editors_list)
        &&& crate::geometry::roomy(self.layout.root)
        &&& crate::geometry::roomy(self.layout.body)
        &&& crate::geometry::roomy(self.root.chevron)
        &&& crate::geometry::roomy(self.root.name)
        &&& crate::geometry::roomy(self.root.favorite)
        &&& crate::geometry::roomy(self.root.new_note)
        &&& crate::geometry::roomy(self.root.new_folder)
        &&& crate::geometry::roomy(self.root.more)
        &&& crate::geometry::roomy(self.editors_chevron)
    }
}

/// A point that is not too far from the panel to be measured.
pub open spec fn near(point: Point) -> bool {
    &&& -0x1000_0000 <= point.x <= 0x1000_0000
    &&& -0x1000_0000 <= point.y <= 0x1000_0000
}

/// Where row `index` of a list starts and ends, in the list's rectangle; none above the view or
/// past the end.
pub open spec fn row_box(list: Rect, state: RowListState, index: usize) -> Option<Rect> {
    match state.start_of(index) {
        Some(start) => Some(
            Rect {
                left: list.left,
                top: crate::geometry::saturated(list.top + start) as i32,
                right: list.right,
                bottom: crate::geometry::saturated(list.top + start + state.row_height) as i32,
            },
        ),
        None => None,
    }
}

pub fn row_rect(list: Rect, state: &RowListState, index: usize) -> (rect: Option<Rect>)
    requires
        state.wf(),
    ensures
        rect == row_box(list, *state, index),
        rect matches Some(rect) ==> rect.left == list.left && rect.right == list.right,
{
    match state.row_top(index) {
        Some(start) => {
            let top: i64 = list.top as i64 + start as i64;
            Some(
                Rect {
                    left: list.left,
                    top: saturate(top),
                    right: list.right,
                    bottom: saturate(top + state.row_height as i64),
                },
            )
        },
        None => None,
    }
}

/// Everything the rows depend on besides the library itself. A tab switch that leaves this
/// unchanged selects a row without flattening the tree again.
#[derive(Debug, PartialEq, Eq)]
pub struct RebuildKey {
    pub root: Option<String>,
    pub loaded: bool,
    /// The last load failed.
    pub failed: bool,
    /// Bumped whenever a folder is expanded or collapsed.
    pub expansion: u64,
    pub root_expanded: bool,
}

/// The keys are of the same rows.
pub open spec fn same_key(a: RebuildKey, b: RebuildKey) -> bool {
    crate::paths::maybe_key(crate::text::maybe(a.root)) == crate::paths::maybe_key(
        crate::text::maybe(b.root),
    ) && a.loaded == b.loaded && a.failed == b.failed && a.expansion == b.expansion
        && a.root_expanded == b.root_expanded
}

/// The inline name field: the row it is over, and the draft row, where a new name is typed.
#[derive(Clone, Copy, Debug, PartialEq, Eq, Structural)]
pub struct Inline {
    pub row: Option<usize>,
    pub draft: Option<usize>,
    /// A draft row is to be listed.
    pub wants_draft: bool,
}

impl Inline {
    pub open spec fn idle() -> Inline {
        Inline { row: None, draft: None, wants_draft: false }
    }

    pub fn new() -> (inline: Self)
        ensures
            inline == Self::idle(),
    {
        Inline { row: None, draft: None, wants_draft: false }
    }
}

/// A drag of a row, a tab or files, armed by a press and under way past the drag distance.
#[derive(Debug)]
pub struct Drag {
    pub source: DragSource,
    /// Where the press was.
    pub origin: Point,
    /// Where the pointer is.
    pub pointer: Point,
    pub started: bool,
    /// The folder that a release here moves or copies into; empty for the root.
    pub target: Option<String>,
    /// The collapsed folder the pointer rests on.
    pub resting: Option<String>,
}

/// What a rebuild read from the library, the tabs and the notebook lists.
#[derive(Debug)]
pub struct Snapshot {
    pub mode: Mode,
    pub rows: Vec<TreeRow>,
    /// The scan stopped at its limit: one more row, after the last, says so.
    pub truncated: bool,
    pub recent: Vec<String>,
    /// The recent notebooks' display names.
    pub recent_names: Vec<RecentName>,
    pub root: Option<String>,
    /// The notebook's display name; empty without one.
    pub name: String,
    pub favorite: bool,
    /// The notebook's root row is expanded (true without a notebook).
    pub root_expanded: bool,
    pub editors_expanded: bool,
    pub key: RebuildKey,
}

/// What the view shows of a notebook.
pub open spec fn mode_from(notebook: bool, loaded: bool, failed: bool, rows: nat) -> Mode {
    if !notebook {
        Mode::NoNotebook
    } else if !loaded {
        if failed {
            Mode::Failed
        } else {
            Mode::Loading
        }
    } else if rows == 0 {
        Mode::Empty
    } else {
        Mode::Tree
    }
}

/// The mode of a notebook: none open, not loaded (yet, or at all), without notes, or with them.
pub fn snapshot_mode(notebook: bool, loaded: bool, failed: bool, rows: usize) -> (mode: Mode)
    ensures
        mode == mode_from(notebook, loaded, failed, rows as nat),
{
    if !notebook {
        Mode::NoNotebook
    } else if !loaded {
        if failed {
            Mode::Failed
        } else {
            Mode::Loading
        }
    } else if rows == 0 {
        Mode::Empty
    } else {
        Mode::Tree
    }
}

/// The Notebook view's state.
#[derive(Debug)]
pub struct NotebookView {
    pub mode: Mode,
    pub rows: Vec<TreeRow>,
    pub truncated: bool,
    pub list: RowListState,
    pub recent: Vec<String>,
    pub recent_names: Vec<RecentName>,
    pub root: Option<String>,
    pub name: String,
    pub favorite: bool,
    /// The header button (or state button) under the pointer.
    pub hover: Option<Hit>,
    /// The pointer is over the hovered row's pin button.
    pub hover_pin: bool,
    pub typed: TypeAhead,
    pub thumb_grab: Option<i32>,
    pub drag: Option<Drag>,
    /// The right press that cancelled a drag: its release opens no menu.
    pub eat_right_up: bool,
    pub tracking_leave: bool,
    /// What the rows were last built from (`None` before the first rebuild).
    pub built: Option<RebuildKey>,
    /// Bumped whenever a rebuild changes the rows' order or the RECENT list.
    pub order: u64,
    pub inline: Inline,
    pub editors: OpenEditors,
    pub editors_expanded: bool,
    pub root_expanded: bool,
    /// The tab under a middle press on an Open Editors row: its release there closes it.
    pub middle_press: Option<DocumentId>,
    /// The one keyboard selection through the header rows, the Open Editors rows and the tree.
    /// `Cursor::Tree` leaves it to `list.selected`.
    pub cursor: Cursor,
}

/// What a list index stands for.
#[derive(Debug, PartialEq, Eq)]
pub enum Target {
    Recent(String),
    Row(TreeRow),
    Truncated,
    Nothing,
}

/// The list's rectangle for a mode: the tree rows, the RECENT rows, or an empty band while there
/// are none.
pub open spec fn list_box(mode: Mode, root_expanded: bool, frame: Frame) -> Rect {
    let body = frame.layout.body;
    match mode {
        Mode::Tree if root_expanded => body,
        Mode::NoNotebook => crate::tree_paint::state_boxes(body, frame.dpi as int).list,
        _ => Rect { bottom: body.top, ..body },
    }
}

/// What the list is measured in for paging: its height, and at least one row's.
pub open spec fn paged(list: Rect, row_height: int) -> int {
    vstd::math::max(list.tall(), row_height)
}

/// How many rows a mode lists.
pub open spec fn counted(mode: Mode, rows: nat, truncated: bool, recent: nat) -> int {
    match mode {
        Mode::Tree => rows + if truncated {
            1int
        } else {
            0int
        },
        Mode::NoNotebook => recent as int,
        _ => 0,
    }
}

/// The kind of the row at `index`.
pub open spec fn kind_at(rows: Seq<TreeRow>, index: Option<usize>) -> Option<crate::tree::KindModel> {
    match index {
        Some(index) if index < rows.len() => Some(crate::tree::kind_model(rows[index as int].kind)),
        _ => None,
    }
}

fn copied_kind_at(rows: &Vec<TreeRow>, index: Option<usize>) -> (kind: Option<RowKind>)
    ensures
        crate::tree::maybe_kind(kind) == kind_at(rows@, index),
{
    match index {
        Some(index) => if index < rows.len() {
            Some(copy_kind(&rows[index].kind))
        } else {
            None
        },
        None => None,
    }
}

fn same_kinds(a: &Vec<TreeRow>, b: &Vec<TreeRow>) -> (same: bool)
    ensures
        same == (crate::tree::kinds(a@) == crate::tree::kinds(b@)),
{
    if a.len() != b.len() {
        assert(crate::tree::kinds(a@).len() != crate::tree::kinds(b@).len());
        return false;
    }
    let mut at: usize = 0;
    while at < a.len()
        invariant
            a.len() == b.len(),
            at <= a.len(),
            forall|i: int|
                0 <= i < at ==> crate::tree::kinds(a@)[i] == crate::tree::kinds(b@)[i],
        decreases a.len() - at,
    {
        if !same_kind(&a[at].kind, &b[at].kind) {
            assert(crate::tree::kinds(a@)[at as int] != crate::tree::kinds(b@)[at as int]);
            return false;
        }
        at = at + 1;
    }
    assert(crate::tree::kinds(a@) =~= crate::tree::kinds(b@));
    true
}

/// Where the keyboard selection goes when a rebuild changes what is there: from a tree row hidden
/// by its collapsed root to the root row; from the root row with its notebook, and from a tab row
/// with its section, to the Open Editors header, which is always there.
pub open spec fn settled_cursor(
    cursor: Cursor,
    mode: Mode,
    root_expanded: bool,
    editors_expanded: bool,
) -> Cursor {
    let here = if cursor == Cursor::Tree && mode == Mode::Tree && !root_expanded {
        Cursor::Root
    } else {
        cursor
    };
    match here {
        Cursor::Root if mode == Mode::NoNotebook => Cursor::EditorsHeader,
        Cursor::Editor(_) if !editors_expanded => Cursor::EditorsHeader,
        _ => here,
    }
}

fn settle_cursor(cursor: Cursor, mode: Mode, root_expanded: bool, editors_expanded: bool) -> (settled:
    Cursor)
    ensures
        settled == settled_cursor(cursor, mode, root_expanded, editors_expanded),
{
    let here: Cursor = if cursor == Cursor::Tree && mode == Mode::Tree && !root_expanded {
        Cursor::Root
    } else {
        cursor
    };
    let gone: bool = match here {
        Cursor::Root => mode == Mode::NoNotebook,
        Cursor::Editor(_) => !editors_expanded,
        _ => false,
    };
    if gone {
        Cursor::EditorsHeader
    } else {
        here
    }
}

/// The Open Editors rows' scroll within their list as it is, the active row in view where set.
/// Nothing while the list has no height: it would scroll the active row to the top and leave the
/// rows above it off screen once shown.
pub open spec fn fitted(
    list: RowListState,
    active: Option<usize>,
    active_in_view: bool,
    height: int,
) -> RowListState {
    if height <= 0 {
        list
    } else {
        let shown = match active {
            Some(index) if active_in_view => list.showing(index as int, height),
            _ => list,
        };
        shown.scrolled(0, height)
    }
}

fn fit_list(list: &mut RowListState, active: Option<usize>, active_in_view: bool, height: i32)
    requires
        old(list).wf(),
    ensures
        final(list).wf(),
        *final(list) == fitted(*old(list), active, active_in_view, height as int),
{
    if height <= 0 {
        return;
    }
    if active_in_view {
        if let Some(index) = active {
            list.ensure_visible(index, height);
        }
    }
    list.scroll_lines(0, height);
}

/// The list after a rebuild: the selection and the top row stay on their notes; where one is gone,
/// they stay at its place.
pub open spec fn relisted(
    list: RowListState,
    mode: Mode,
    rows: Seq<TreeRow>,
    count: usize,
    selected: Option<crate::tree::KindModel>,
    top: Option<crate::tree::KindModel>,
    height: int,
) -> RowListState {
    let recounted = list.recounted(count);
    if mode == Mode::Tree {
        RowListState {
            selected: crate::tree_paint::followed(rows, selected, list.selected),
            top: match crate::tree_paint::followed(rows, top, Some(list.top)) {
                Some(top) => top,
                None => 0,
            },
            ..recounted
        }.scrolled(0, height)
    } else {
        recounted
    }
}

fn relist(
    list: &mut RowListState,
    mode: Mode,
    rows: &Vec<TreeRow>,
    count: usize,
    selected: Option<&RowKind>,
    top: Option<&RowKind>,
    height: i32,
)
    requires
        old(list).wf(),
        mode == Mode::Tree ==> rows.len() <= count,
    ensures
        final(list).wf(),
        final(list).count == count,
        *final(list) == relisted(
            *old(list),
            mode,
            rows@,
            count,
            match selected {
                Some(kind) => Some(crate::tree::kind_model(*kind)),
                None => None,
            },
            match top {
                Some(kind) => Some(crate::tree::kind_model(*kind)),
                None => None,
            },
            height as int,
        ),
{
    let old_selected: Option<usize> = list.selected;
    let old_top: usize = list.top;
    list.set_count(count);
    if mode == Mode::Tree {
        list.selected = follow(rows, selected, old_selected);
        list.top = match follow(rows, top, Some(old_top)) {
            Some(top) => top,
            None => 0,
        };
        list.scroll_lines(0, height);
    }
}

/// The tabs' documents, in order.
pub open spec fn ids(rows: Seq<EditorRow>) -> Seq<DocumentId> {
    rows.map_values(|row: EditorRow| row.id)
}

fn same_ids(a: &Vec<EditorRow>, b: &Vec<EditorRow>) -> (same: bool)
    ensures
        same == (ids(a@) == ids(b@)),
{
    if a.len() != b.len() {
        assert(ids(a@).len() != ids(b@).len());
        return false;
    }
    let mut at: usize = 0;
    while at < a.len()
        invariant
            a.len() == b.len(),
            at <= a.len(),
            forall|i: int| 0 <= i < at ==> ids(a@)[i] == ids(b@)[i],
        decreases a.len() - at,
    {
        if a[at].id != b[at].id {
            assert(ids(a@)[at as int] != ids(b@)[at as int]);
            return false;
        }
        at = at + 1;
    }
    assert(ids(a@) =~= ids(b@));
    true
}

/// A tab row that went takes the keyboard selection to the row in its place: the last tab, or the
/// section's header when none is left.
pub open spec fn kept_editor(cursor: Cursor, count: usize) -> Cursor {
    match cursor {
        Cursor::Editor(index) if index >= count => if count > 0 {
            Cursor::Editor((count - 1) as usize)
        } else {
            Cursor::EditorsHeader
        },
        _ => cursor,
    }
}

struct Rebuild {
    mode: Mode,
    reset: bool,
    list: RowListState,
    order: u64,
    cursor: Cursor,
    editors_list: RowListState,
}

/// The rows of all parts together, and the few buttons among them, can be counted.
pub open spec fn countable(editors: usize, rows: usize, recent: usize) -> bool {
    editors + rows + recent + 16 <= usize::MAX
}

/// What a change of the tabs does to the view.
pub open spec fn retabbed(
    before: NotebookView,
    after: NotebookView,
    rows: Vec<EditorRow>,
    frame: Frame,
    changed: bool,
) -> bool {
    let active = crate::open_editors::active_row(crate::open_editors::models(rows@));
    &&& changed == (crate::open_editors::row_keys(rows@) != crate::open_editors::row_keys(
        before.editors.rows@,
    ))
    &&& after.editors.rows == (if changed {
        rows
    } else {
        before.editors.rows
    })
    &&& after.editors.hover_close == before.editors.hover_close
    &&& after.editors.list == (if changed {
        fitted(
            RowListState { selected: active, ..before.editors.list.recounted(rows.len()) },
            active,
            true,
            frame.layout.editors_list.tall(),
        )
    } else {
        before.editors.list
    })
    &&& after.order == (if ids(rows@) != ids(before.editors.rows@) {
        crate::text_search::next(before.order)
    } else {
        before.order
    })
    &&& after.cursor == kept_editor(before.cursor, rows.len())
    &&& after == (NotebookView {
        editors: after.editors,
        order: after.order,
        cursor: after.cursor,
        ..before
    })
}

/// What taking a snapshot does to the view.
pub open spec fn rebuilt(
    before: NotebookView,
    after: NotebookView,
    snapshot: Snapshot,
    edit: Option<Inline>,
    frame: Frame,
) -> bool {
    let mode = before.rebuilt_mode(snapshot, edit);
    let reset = before.resets(snapshot, mode);
    let expanding = snapshot.editors_expanded && !before.editors_expanded;
    &&& after.mode == mode
    &&& after.list == before.list_after(snapshot, edit, frame)
    &&& after.order == (if before.reorders(snapshot, reset) {
        crate::text_search::next(before.order)
    } else {
        before.order
    })
    &&& after.cursor == settled_cursor(
        before.cursor,
        mode,
        snapshot.root_expanded,
        snapshot.editors_expanded,
    )
    &&& after.editors.list == fitted(
        before.editors.list,
        crate::open_editors::active_row(
            crate::open_editors::models(before.editors.rows@),
        ),
        expanding,
        frame.layout.editors_list.tall(),
    )
    &&& after.inline == (match edit {
        Some(inline) => inline,
        None => Inline::idle(),
    })
    &&& reset ==> after.typed.text@ == Seq::<char>::empty()
        && after.typed.at is None
    &&& !reset ==> after.typed == before.typed
    &&& after.editors.rows == before.editors.rows
    &&& after.editors.hover_close == before.editors.hover_close
    &&& after.rows == snapshot.rows
    &&& after.truncated == snapshot.truncated
    &&& after.recent == snapshot.recent
    &&& after.recent_names == snapshot.recent_names
    &&& after.root == snapshot.root
    &&& after.name == snapshot.name
    &&& after.favorite == snapshot.favorite
    &&& after.root_expanded == snapshot.root_expanded
    &&& after.editors_expanded == snapshot.editors_expanded
    &&& after.built == Some(snapshot.key)
    &&& !after.hover_pin
    &&& after.hover == before.hover
    &&& after.thumb_grab == before.thumb_grab
    &&& after.drag == before.drag
    &&& after.eat_right_up == before.eat_right_up
    &&& after.tracking_leave == before.tracking_leave
    &&& after.middle_press == before.middle_press
}

impl NotebookView {
    /// The list shows the mode's rows, a draft row is one of them, and the keyboard selection is on
    /// no tab row that is gone.
    pub open spec fn wf(self) -> bool {
        &&& self.list.wf()
        &&& self.list.count == counted(
            self.mode,
            self.rows.len() as nat,
            self.truncated,
            self.recent.len() as nat,
        )
        &&& self.editors.wf()
        &&& self.inline.draft matches Some(draft) ==> draft < self.rows.len()
        &&& countable(self.editors.rows.len(), self.rows.len(), self.recent.len())
        &&& self.cursor matches Cursor::Editor(index) ==> index < self.editors.rows.len()
    }

    /// The tree is painted and hit: loaded rows under an expanded root.
    pub open spec fn shows_tree(self) -> bool {
        self.mode == Mode::Tree && self.root_expanded
    }

    pub fn new(dpi: u32) -> (view: Self)
        requires
            dpi <= crate::panel::MAX_DPI,
        ensures
            view.wf(),
            view.mode == Mode::Loading,
            view.rows@ == Seq::<TreeRow>::empty(),
            view.recent@ == Seq::<String>::empty(),
            view.recent_names@ == Seq::<RecentName>::empty(),
            view.editors.rows@ == Seq::<EditorRow>::empty(),
            view.editors_expanded && view.root_expanded,
            view.cursor == Cursor::Tree,
            view.root is None && view.built is None && view.drag is None && view.hover is None,
            view.thumb_grab is None && view.middle_press is None,
            view.name@ == Seq::<char>::empty(),
            view.typed.text@ == Seq::<char>::empty() && view.typed.at is None,
            !view.truncated && !view.favorite && !view.hover_pin && !view.editors.hover_close,
            !view.eat_right_up && !view.tracking_leave,
            view.order == 0,
            view.inline == Inline::idle(),
            view.list == view.editors.list,
            view.list == (RowListState {
                count: 0,
                selected: None,
                hover: None,
                top: 0,
                row_height: vstd::math::max(
                    crate::panel::scaled(ROW_HEIGHT as int, dpi as int),
                    1,
                ) as i32,
                wheel_remainder: 0,
            }),
    {
        proof {
            crate::panel::scaled_is_bounded(ROW_HEIGHT as int, dpi as int);
        }
        NotebookView {
            mode: Mode::Loading,
            rows: Vec::new(),
            truncated: false,
            list: RowListState::new(scale(ROW_HEIGHT, dpi)),
            recent: Vec::new(),
            recent_names: Vec::new(),
            root: None,
            name: String::new(),
            favorite: false,
            hover: None,
            hover_pin: false,
            typed: TypeAhead::default(),
            thumb_grab: None,
            drag: None,
            eat_right_up: false,
            tracking_leave: false,
            built: None,
            order: 0,
            inline: Inline::new(),
            editors: OpenEditors::new(scale(ROW_HEIGHT, dpi)),
            editors_expanded: true,
            root_expanded: true,
            middle_press: None,
            cursor: Cursor::Tree,
        }
    }

    /// Where the list is.
    pub open spec fn area(self, frame: Frame) -> Rect {
        list_box(self.mode, self.root_expanded, frame)
    }

    /// The list's rectangle for the current mode: the tree rows, the RECENT rows, or an empty band
    /// while there are none.
    pub fn list_area(&self, frame: &Frame) -> (area: Rect)
        requires
            frame.wf(),
        ensures
            area == self.area(*frame),
            area.in_range(),
    {
        Self::area_of(self.mode, self.root_expanded, frame)
    }

    pub fn tree_shown(&self) -> (shown: bool)
        ensures
            shown == self.shows_tree(),
    {
        self.mode == Mode::Tree && self.root_expanded
    }

    /// Whether the tree has rows the collapsed root hides, which the keyboard must not reach.
    pub fn tree_hidden(&self) -> (hidden: bool)
        ensures
            hidden == (self.mode == Mode::Tree && !self.root_expanded),
    {
        self.mode == Mode::Tree && !self.root_expanded
    }

    /// How many rows the keyboard selection runs through in each part: the Open Editors rows while
    /// they show, the root row, and the RECENT notebooks or the tree's rows.
    pub open spec fn parts(self) -> Shape {
        Shape {
            editors: if self.editors_expanded {
                self.editors.rows.len()
            } else {
                0
            },
            root: self.mode != Mode::NoNotebook,
            tree: if self.mode == Mode::NoNotebook {
                self.recent.len()
            } else if self.shows_tree() {
                self.rows.len()
            } else {
                0
            },
        }
    }

    pub fn shape(&self) -> (shape: Shape)
        ensures
            shape == self.parts(),
    {
        let editors: usize = if self.editors_expanded {
            self.editors.rows.len()
        } else {
            0
        };
        let tree: usize = match self.mode {
            Mode::NoNotebook => self.recent.len(),
            _ => if self.tree_shown() {
                self.rows.len()
            } else {
                0
            },
        };
        Shape { editors, root: self.mode != Mode::NoNotebook, tree }
    }

    /// What a list index stands for.
    pub open spec fn at(self, index: int) -> Target {
        match self.mode {
            Mode::NoNotebook => if 0 <= index < self.recent.len() {
                Target::Recent(self.recent@[index])
            } else {
                Target::Nothing
            },
            Mode::Tree => if 0 <= index < self.rows.len() {
                Target::Row(self.rows@[index])
            } else if self.truncated && index == self.rows.len() {
                Target::Truncated
            } else {
                Target::Nothing
            },
            _ => Target::Nothing,
        }
    }

    pub fn target(&self, index: usize) -> (target: Target)
        ensures
            target == self.at(index as int),
    {
        match self.mode {
            Mode::NoNotebook => if index < self.recent.len() {
                Target::Recent(self.recent[index].clone())
            } else {
                Target::Nothing
            },
            Mode::Tree => if index < self.rows.len() {
                Target::Row(self.rows[index].clone())
            } else if self.truncated && index == self.rows.len() {
                Target::Truncated
            } else {
                Target::Nothing
            },
            _ => Target::Nothing,
        }
    }

    /// What the list is paged in.
    pub open spec fn page_height(self, frame: Frame) -> int {
        paged(self.area(frame), self.list.row_height as int)
    }

    pub fn list_height(&self, frame: &Frame) -> (tall: i32)
        requires
            frame.wf(),
        ensures
            tall == self.page_height(*frame),
    {
        height(self.list_area(frame)).max(self.list.row_height)
    }

    /// The view with row `index` (the last when past the end) selected and in view.
    pub open spec fn selecting(self, index: int, frame: Frame) -> NotebookView {
        NotebookView { list: self.list.with_selected(index, self.page_height(frame)), ..self }
    }

    pub fn select(&mut self, index: usize, frame: &Frame)
        requires
            old(self).wf(),
            frame.wf(),
        ensures
            final(self).wf(),
            *final(self) == old(self).selecting(index as int, *frame),
    {
        let tall: i32 = self.list_height(frame);
        self.list.select(index, tall);
    }

    /// The rows were built from something else, or never.
    pub open spec fn is_stale(self, key: RebuildKey) -> bool {
        match self.built {
            Some(built) => !same_key(built, key),
            None => true,
        }
    }

    /// Whether something the rows are built from, besides the library itself, changed since the
    /// last rebuild.
    pub fn stale(&self, key: &RebuildKey) -> (stale: bool)
        ensures
            stale == self.is_stale(*key),
    {
        match &self.built {
            Some(built) => !(same_maybe_path(&built.root, &key.root) && built.loaded == key.loaded
                && built.failed == key.failed && built.expansion == key.expansion
                && built.root_expanded == key.root_expanded),
            None => true,
        }
    }

    /// The mode a snapshot would show: a draft row needs the tree, even in a notebook with nothing
    /// listed yet.
    pub open spec fn wanted_mode(self, mode: Mode) -> Mode {
        if mode == Mode::Empty && self.inline.wants_draft {
            Mode::Tree
        } else {
            mode
        }
    }

    /// Whether a rebuild may keep the inline edit: it ends with its notebook and when the tree
    /// goes. Where this holds, the edit is kept if its folder or row is still listed.
    pub open spec fn may_keep_edit(self, mode: Mode, root: Option<Seq<char>>) -> bool {
        crate::paths::maybe_key(root) == crate::paths::maybe_key(crate::text::maybe(self.root))
            && self.wanted_mode(mode) == Mode::Tree
    }

    pub fn keeps_edit(&self, mode: Mode, root: &Option<String>) -> (keeps: bool)
        ensures
            keeps == self.may_keep_edit(mode, crate::text::maybe(*root)),
    {
        let wanted: Mode = if mode == Mode::Empty && self.inline.wants_draft {
            Mode::Tree
        } else {
            mode
        };
        same_maybe_path(root, &self.root) && wanted == Mode::Tree
    }

    /// What a rebuild shows, and whether the inline edit is kept.
    pub open spec fn rebuilt_mode(self, snapshot: Snapshot, edit: Option<Inline>) -> Mode {
        if edit is Some {
            self.wanted_mode(snapshot.mode)
        } else {
            snapshot.mode
        }
    }

    /// A rebuild starts the list over: another mode or another notebook.
    pub open spec fn resets(self, snapshot: Snapshot, mode: Mode) -> bool {
        mode != self.mode || crate::paths::maybe_key(crate::text::maybe(snapshot.root))
            != crate::paths::maybe_key(crate::text::maybe(self.root))
    }

    /// The list a rebuild starts from.
    pub open spec fn list_before(self, reset: bool) -> RowListState {
        if reset {
            RowListState {
                count: 0,
                selected: None,
                hover: None,
                top: 0,
                row_height: self.list.row_height,
                wheel_remainder: 0,
            }
        } else {
            self.list
        }
    }

    /// A rebuild changes the order: the rows stand for other things, or the recent notebooks
    /// changed.
    pub open spec fn reorders(self, snapshot: Snapshot, reset: bool) -> bool {
        reset || crate::paths::path_keys(snapshot.recent@) != crate::paths::path_keys(self.recent@)
            || crate::tree::kinds(snapshot.rows@) != crate::tree::kinds(self.rows@)
    }

    /// The list after a rebuild.
    pub open spec fn list_after(self, snapshot: Snapshot, edit: Option<Inline>, frame: Frame) -> RowListState {
        let mode = self.rebuilt_mode(snapshot, edit);
        let reset = self.resets(snapshot, mode);
        let list = self.list_before(reset);
        relisted(
            list,
            mode,
            snapshot.rows@,
            counted(
                mode,
                snapshot.rows.len() as nat,
                snapshot.truncated,
                snapshot.recent.len() as nat,
            ) as usize,
            kind_at(self.rows@, list.selected),
            if reset {
                None
            } else {
                kind_at(self.rows@, Some(self.list.top))
            },
            paged(
                list_box(mode, snapshot.root_expanded, frame),
                self.list.row_height as int,
            ),
        )
    }

    /// What a rebuild changes besides what it takes from the snapshot as it is.
    fn rebuild(&self, snapshot: &Snapshot, edit: &Option<Inline>, frame: &Frame) -> (plan: Rebuild)
        requires
            self.wf(),
            frame.wf(),
            snapshot.rows.len() < usize::MAX,
        ensures
            plan.mode == self.rebuilt_mode(*snapshot, *edit),
            plan.reset == self.resets(*snapshot, plan.mode),
            plan.list == self.list_after(*snapshot, *edit, *frame),
            plan.list.wf(),
            plan.list.count == counted(
                plan.mode,
                snapshot.rows.len() as nat,
                snapshot.truncated,
                snapshot.recent.len() as nat,
            ),
            plan.order == (if self.reorders(*snapshot, plan.reset) {
                crate::text_search::next(self.order)
            } else {
                self.order
            }),
            plan.cursor == settled_cursor(
                self.cursor,
                plan.mode,
                snapshot.root_expanded,
                snapshot.editors_expanded,
            ),
            plan.editors_list == fitted(
                self.editors.list,
                crate::open_editors::active_row(
                    crate::open_editors::models(self.editors.rows@),
                ),
                snapshot.editors_expanded && !self.editors_expanded,
                frame.layout.editors_list.tall(),
            ),
            plan.editors_list.wf(),
            plan.editors_list.count == self.editors.list.count,
    {
        let mode: Mode = if edit.is_some() {
            if snapshot.mode == Mode::Empty && self.inline.wants_draft {
                Mode::Tree
            } else {
                snapshot.mode
            }
        } else {
            snapshot.mode
        };
        let reset: bool = mode != self.mode || !same_maybe_path(&snapshot.root, &self.root);
        let mut list: RowListState = if reset {
            RowListState::new(self.list.row_height)
        } else {
            self.list
        };
        let selected = copied_kind_at(&self.rows, list.selected);
        let top: Option<RowKind> = if reset {
            None
        } else {
            copied_kind_at(&self.rows, Some(list.top))
        };
        let reordered: bool = reset || !same_paths(&snapshot.recent, &self.recent) || !same_kinds(
            &snapshot.rows,
            &self.rows,
        );
        let order: u64 = if reordered {
            self.order.wrapping_add(1)
        } else {
            self.order
        };
        let cursor: Cursor = settle_cursor(
            self.cursor,
            mode,
            snapshot.root_expanded,
            snapshot.editors_expanded,
        );
        let expanding: bool = snapshot.editors_expanded && !self.editors_expanded;
        let active: Option<usize> = self.editors.active_index();
        let count: usize = match mode {
            Mode::Tree => if snapshot.truncated {
                snapshot.rows.len() + 1
            } else {
                snapshot.rows.len()
            },
            Mode::NoNotebook => snapshot.recent.len(),
            _ => 0,
        };
        let area: Rect = Self::area_of(mode, snapshot.root_expanded, frame);
        let tall: i32 = height(area).max(self.list.row_height);
        relist(&mut list, mode, &snapshot.rows, count, selected.as_ref(), top.as_ref(), tall);
        let mut editors_list: RowListState = self.editors.list;
        fit_list(&mut editors_list, active, expanding, height(frame.layout.editors_list));
        Rebuild { mode, reset, list, order, cursor, editors_list }
    }

    /// Takes a snapshot, keeping the selection and the scroll position by path. `edit` is the
    /// inline edit as it fits the snapshot's rows, its draft row among them; none where it ends.
    /// `frame` is laid out for the snapshot's sections.
    pub fn apply(&mut self, snapshot: Snapshot, edit: Option<Inline>, frame: &Frame)
        requires
            old(self).wf(),
            frame.wf(),
            countable(
                old(self).editors.rows.len(),
                snapshot.rows.len(),
                snapshot.recent.len(),
            ),
            edit matches Some(inline) ==> {
                &&& old(self).may_keep_edit(snapshot.mode, crate::text::maybe(snapshot.root))
                &&& inline.draft matches Some(draft) ==> draft < snapshot.rows.len()
            },
        ensures
            final(self).wf(),
            rebuilt(*old(self), *final(self), snapshot, edit, *frame),
    {
        let plan: Rebuild = self.rebuild(&snapshot, &edit, frame);
        let inline: Inline = match edit {
            Some(inline) => inline,
            None => Inline::new(),
        };
        self.take(snapshot, inline, plan);
    }

    fn take(&mut self, snapshot: Snapshot, inline: Inline, plan: Rebuild)
        ensures
            final(self).mode == plan.mode,
            final(self).list == plan.list,
            final(self).order == plan.order,
            final(self).cursor == plan.cursor,
            final(self).editors.list == plan.editors_list,
            final(self).inline == inline,
            plan.reset ==> final(self).typed.text@ == Seq::<char>::empty()
                && final(self).typed.at is None,
            !plan.reset ==> final(self).typed == old(self).typed,
            final(self).editors.rows == old(self).editors.rows,
            final(self).editors.hover_close == old(self).editors.hover_close,
            final(self).rows == snapshot.rows,
            final(self).truncated == snapshot.truncated,
            final(self).recent == snapshot.recent,
            final(self).recent_names == snapshot.recent_names,
            final(self).root == snapshot.root,
            final(self).name == snapshot.name,
            final(self).favorite == snapshot.favorite,
            final(self).root_expanded == snapshot.root_expanded,
            final(self).editors_expanded == snapshot.editors_expanded,
            final(self).built == Some(snapshot.key),
            !final(self).hover_pin,
            final(self).hover == old(self).hover,
            final(self).thumb_grab == old(self).thumb_grab,
            final(self).drag == old(self).drag,
            final(self).eat_right_up == old(self).eat_right_up,
            final(self).tracking_leave == old(self).tracking_leave,
            final(self).middle_press == old(self).middle_press,
    {
        if plan.reset {
            self.typed = TypeAhead::default();
        }
        self.mode = plan.mode;
        self.rows = snapshot.rows;
        self.truncated = snapshot.truncated;
        self.list = plan.list;
        self.recent = snapshot.recent;
        self.recent_names = snapshot.recent_names;
        self.root = snapshot.root;
        self.name = snapshot.name;
        self.favorite = snapshot.favorite;
        self.hover_pin = false;
        self.built = Some(snapshot.key);
        self.order = plan.order;
        self.inline = inline;
        self.editors.list = plan.editors_list;
        self.editors_expanded = snapshot.editors_expanded;
        self.root_expanded = snapshot.root_expanded;
        self.cursor = plan.cursor;
    }

    fn area_of(mode: Mode, root_expanded: bool, frame: &Frame) -> (area: Rect)
        requires
            frame.wf(),
        ensures
            area == list_box(mode, root_expanded, *frame),
            area.in_range(),
    {
        let body = frame.layout.body;
        match mode {
            Mode::Tree => if root_expanded {
                body
            } else {
                Rect { left: body.left, top: body.top, right: body.right, bottom: body.top }
            },
            Mode::NoNotebook => state_layout(body, frame.dpi).list,
            _ => Rect { left: body.left, top: body.top, right: body.right, bottom: body.top },
        }
    }

    /// The drag after a rebuild: its target folder is forgotten when it is no longer listed, and
    /// the folder it rests on is found again at the next move.
    pub open spec fn drag_after(self) -> Option<Drag> {
        match self.drag {
            Some(drag) => Some(
                Drag {
                    resting: None,
                    target: match drag.target {
                        Some(folder) if folder@.len() > 0 && crate::tree::place(
                            self.rows@,
                            Kind::Folder(folder@),
                        ) is None => None,
                        _ => drag.target,
                    },
                    ..drag
                },
            ),
            None => None,
        }
    }

    /// A rebuild loses a dragged row that is no longer listed. Where the notebook itself changed, a
    /// row that happens to have the same path is not the same row. A tab or files are not tree
    /// rows: a rebuild never loses them.
    pub open spec fn loses_drag(self, root_changed: bool) -> bool {
        match self.drag {
            Some(Drag { source: DragSource::Row(kind), .. }) => root_changed || crate::tree::place(
                self.rows@,
                crate::tree::kind_model(kind),
            ) is None,
            _ => false,
        }
    }

    /// After a rebuild: whether it lost the drag, which is then to be cancelled.
    pub fn rebuilt_drag(&mut self, root_changed: bool) -> (lost: bool)
        ensures
            lost == old(self).loses_drag(root_changed),
            *final(self) == (NotebookView {
                drag: if lost {
                    old(self).drag
                } else {
                    old(self).drag_after()
                },
                ..*old(self)
            }),
    {
        let drag = match self.drag.take() {
            Some(drag) => drag,
            None => {
                return false;
            },
        };
        let lost: bool = match &drag.source {
            DragSource::Row(kind) => root_changed || row_index(&self.rows, kind).is_none(),
            _ => false,
        };
        if lost {
            self.drag = Some(drag);
            return true;
        }
        let gone: bool = match &drag.target {
            Some(folder) => {
                let empty = String::new();
                let listed: bool = row_index(&self.rows, &Kind::Folder(folder.clone())).is_some();
                *folder != empty && !listed
            },
            None => false,
        };
        proof {
            if drag.target is Some {
                let folder = drag.target->0;
                assert(folder@.len() == 0 ==> folder@ =~= Seq::<char>::empty());
            }
        }
        let target: Option<String> = if gone {
            None
        } else {
            drag.target
        };
        self.drag = Some(
            Drag {
                source: drag.source,
                origin: drag.origin,
                pointer: drag.pointer,
                started: drag.started,
                target,
                resting: None,
            },
        );
        false
    }

    /// The tabs changed in some way the Open Editors rows show: the rows follow. `frame` is laid
    /// out for the new rows. Whether anything shown changed.
    pub fn editors_changed(&mut self, rows: Vec<EditorRow>, frame: &Frame) -> (changed: bool)
        requires
            old(self).wf(),
            frame.wf(),
            countable(rows.len(), old(self).rows.len(), old(self).recent.len()),
        ensures
            final(self).wf(),
            retabbed(*old(self), *final(self), rows, *frame, changed),
    {
        let reordered: bool = !same_ids(&rows, &self.editors.rows);
        let count: usize = rows.len();
        let mut editors: OpenEditors = OpenEditors::new(self.editors.list.row_height);
        std::mem::swap(&mut editors, &mut self.editors);
        let changed: bool = editors.set_rows(rows);
        proof {
            if !changed {
                assert(crate::open_editors::row_keys(rows@).len() == rows.len());
                assert(crate::open_editors::row_keys(editors.rows@).len() == editors.rows.len());
            }
        }
        if changed {
            let active: Option<usize> = editors.active_index();
            fit_list(&mut editors.list, active, true, height(frame.layout.editors_list));
        }
        let cursor: Cursor = match self.cursor {
            Cursor::Editor(index) => if index >= count {
                if count > 0 {
                    Cursor::Editor(count - 1)
                } else {
                    Cursor::EditorsHeader
                }
            } else {
                self.cursor
            },
            _ => self.cursor,
        };
        if reordered {
            self.order = self.order.wrapping_add(1);
        }
        self.editors = editors;
        self.cursor = cursor;
        changed
    }

    /// The view with the row showing `kind` selected and in view, if one shows it.
    pub open spec fn selecting_kind(self, kind: crate::tree::KindModel, frame: Frame) -> NotebookView {
        match crate::tree::place(self.rows@, kind) {
            Some(index) => self.selecting(index as int, frame),
            None => self,
        }
    }

    /// Selects the row showing `kind` and scrolls it into view; false when no row shows it.
    pub fn select_row(&mut self, kind: &RowKind, frame: &Frame) -> (selected: bool)
        requires
            old(self).wf(),
            frame.wf(),
        ensures
            final(self).wf(),
            selected == (crate::tree::place(old(self).rows@, crate::tree::kind_model(*kind)) is Some),
            *final(self) == old(self).selecting_kind(crate::tree::kind_model(*kind), *frame),
    {
        match row_index(&self.rows, kind) {
            Some(index) => {
                self.select(index, frame);
                true
            },
            None => false,
        }
    }

    /// The view after a tab switch to a note of the notebook, or to something else.
    pub open spec fn following(self, note: Option<Seq<char>>, frame: Frame) -> NotebookView {
        match note {
            Some(note) => self.selecting_kind(Kind::Note(note), frame),
            None => self,
        }
    }

    /// Every tab switch: the active note's row is selected, without moving the keyboard focus.
    /// `note` is the active tab's path in the notebook; none for an untitled tab or a file
    /// elsewhere.
    pub fn active_tab_changed(&mut self, note: Option<String>, frame: &Frame)
        requires
            old(self).wf(),
            frame.wf(),
        ensures
            final(self).wf(),
            *final(self) == old(self).following(crate::text::maybe(note), *frame),
    {
        if let Some(note) = note {
            let kind: RowKind = Kind::Note(note);
            let _ = self.select_row(&kind, frame);
        }
    }

    /// Selects row `index` of the tree (the last row when past the end) and scrolls it into view.
    pub fn select_index(&mut self, index: usize, frame: &Frame)
        requires
            old(self).wf(),
            frame.wf(),
        ensures
            final(self).wf(),
            *final(self) == (if old(self).mode == Mode::Tree {
                old(self).selecting(index as int, *frame)
            } else {
                *old(self)
            }),
    {
        if self.mode == Mode::Tree {
            self.select(index, frame);
        }
    }

    /// What the tree's selected row stands for, while the keyboard selection is on the tree.
    pub open spec fn on_tree(self) -> Option<crate::tree::KindModel> {
        if self.cursor == Cursor::Tree && self.mode == Mode::Tree {
            kind_at(self.rows@, self.list.selected)
        } else {
            None
        }
    }

    fn tree_kind(&self) -> (kind: Option<RowKind>)
        ensures
            crate::tree::maybe_kind(kind) == self.on_tree(),
    {
        if self.cursor == Cursor::Tree && self.mode == Mode::Tree {
            copied_kind_at(&self.rows, self.list.selected)
        } else {
            None
        }
    }

    /// The note that commands act on in place of the active tab's.
    pub open spec fn note_in_focus(self, notebook: Option<Seq<char>>, focused: bool) -> Option<
        Seq<char>,
    > {
        match (notebook, self.on_tree()) {
            (Some(root), Some(Kind::Note(relative))) if focused => Some(
                crate::paths::joined(root, relative),
            ),
            _ => None,
        }
    }

    /// The selected note's path while the panel has the keyboard focus on the tree, so that
    /// commands act on it rather than on the active tab. `notebook` is the open notebook's path.
    pub fn focused_note(&self, notebook: &Option<String>, focused: bool) -> (path: Option<String>)
        ensures
            crate::text::maybe(path) == self.note_in_focus(crate::text::maybe(*notebook), focused),
    {
        if !focused {
            return None;
        }
        match (notebook, self.tree_kind()) {
            (Some(root), Some(Kind::Note(relative))) => Some(
                join(root.as_str(), relative.as_str()),
            ),
            _ => None,
        }
    }

    /// The folder that Rename and Delete act on.
    pub open spec fn folder_in_focus(self, focused: bool) -> Option<Seq<char>> {
        match self.on_tree() {
            Some(Kind::Folder(relative)) if focused => Some(relative),
            _ => None,
        }
    }

    /// The selected folder row's path, relative to the notebook, while the panel has the keyboard
    /// focus on the tree: Rename and Delete act on it.
    pub fn focused_folder(&self, focused: bool) -> (path: Option<String>)
        ensures
            crate::text::maybe(path) == self.folder_in_focus(focused),
    {
        if !focused {
            return None;
        }
        match self.tree_kind() {
            Some(Kind::Folder(relative)) => Some(relative),
            _ => None,
        }
    }

    /// Where a new note goes, outside the root.
    pub open spec fn folder_for_new(self, notebook: Option<Seq<char>>) -> Option<Seq<char>> {
        match (notebook, self.on_tree()) {
            (Some(root), Some(Kind::Folder(relative))) => Some(
                crate::paths::joined(root, relative),
            ),
            (Some(root), Some(Kind::Note(relative))) => crate::paths::parent_of(
                crate::paths::joined(root, relative),
            ),
            _ => None,
        }
    }

    /// The folder a new note goes to: a selected folder row's own folder, or a selected note's
    /// parent. None (the root) for a draft row, no selection, or the keyboard selection outside
    /// the tree.
    pub fn selected_folder(&self, notebook: &Option<String>) -> (path: Option<String>)
        ensures
            crate::text::maybe(path) == self.folder_for_new(crate::text::maybe(*notebook)),
    {
        match (notebook, self.tree_kind()) {
            (Some(root), Some(Kind::Folder(relative))) => Some(
                join(root.as_str(), relative.as_str()),
            ),
            (Some(root), Some(Kind::Note(relative))) => {
                let path: String = join(root.as_str(), relative.as_str());
                parent(path.as_str())
            },
            _ => None,
        }
    }

    /// The view with the edited row in view.
    pub open spec fn revealing_edit(self, frame: Frame) -> NotebookView {
        match self.inline.row {
            Some(index) => if self.inline.draft is Some {
                NotebookView {
                    list: self.list.showing(index as int, self.page_height(frame)),
                    ..self
                }
            } else {
                self.selecting(index as int, frame)
            },
            None => self,
        }
    }

    /// Brings the edited row into view: a draft row scrolled to, a renamed row selected too.
    pub fn reveal_edit(&mut self, frame: &Frame)
        requires
            old(self).wf(),
            frame.wf(),
        ensures
            final(self).wf(),
            *final(self) == old(self).revealing_edit(*frame),
    {
        if let Some(index) = self.inline.row {
            let tall: i32 = self.list_height(frame);
            if self.inline.draft.is_some() {
                self.list.ensure_visible(index, tall);
            } else {
                self.list.select(index, tall);
            }
        }
    }

    /// Where the inline field is, and how deep its row.
    pub open spec fn edited_row(self, frame: Frame) -> Option<(Rect, u16)> {
        match self.inline.row {
            Some(index) if self.shows_tree() && index < self.rows.len() => match row_box(
                frame.layout.body,
                self.list,
                index,
            ) {
                Some(rect) => Some((rect, self.rows@[index as int].depth)),
                None => None,
            },
            _ => None,
        }
    }

    /// The row the inline field is laid out in, with its depth, while the tree shows; none while
    /// nothing is edited or the row is out of view.
    pub fn inline_row(&self, frame: &Frame) -> (row: Option<(Rect, u16)>)
        requires
            self.wf(),
            frame.wf(),
        ensures
            row == self.edited_row(*frame),
    {
        if !self.tree_shown() {
            return None;
        }
        match self.inline.row {
            Some(index) => if index < self.rows.len() {
                match row_rect(frame.layout.body, &self.list, index) {
                    Some(rect) => Some((rect, self.rows[index].depth)),
                    None => None,
                }
            } else {
                None
            },
            None => None,
        }
    }

    /// Under row `index`, for a menu opened from the keyboard; the list itself where the row is
    /// out of view.
    pub open spec fn menu_point(self, index: usize, frame: Frame) -> Point {
        let rect = match row_box(self.area(frame), self.list, index) {
            Some(rect) => rect,
            None => self.area(frame),
        };
        Point {
            x: (rect.left + crate::panel::scaled(MENU_INDENT as int, frame.dpi as int)) as i32,
            y: rect.bottom,
        }
    }

    pub fn row_menu_point(&self, index: usize, frame: &Frame) -> (point: Point)
        requires
            self.wf(),
            frame.wf(),
        ensures
            point == self.menu_point(index, *frame),
    {
        proof {
            crate::panel::scaled_is_bounded(MENU_INDENT as int, frame.dpi as int);
        }
        let list = self.list_area(frame);
        let rect = match row_rect(list, &self.list, index) {
            Some(rect) => rect,
            None => list,
        };
        Point { x: rect.left + scale(MENU_INDENT, frame.dpi), y: rect.bottom }
    }
}

} // verus!
