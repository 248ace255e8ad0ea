//! The Notebook view as screen readers see it: its push buttons, the Open Editors header and its
//! rows, the notebook's root row, then the recent notebooks or the tree's rows, the draft row left
//! out.

use crate::geometry::{contains, height, Point, Rect};
use crate::notebook_view::{Frame, Mode, NotebookView};
use crate::open_editors::accessible_name;
use crate::panel_cursor::Cursor;
use crate::paths::key_of_path;
use crate::sidebar_accessibility::{
    button_item, editor_item, identity_of, list_item, row_rect, section_item, tree_item,
    AccessibleItem,
};
use crate::text::{decimal_text, join2};
use crate::tree::Kind;
use vstd::prelude::*;
use vstd::string::*;

verus! {

/// One child of the view.
#[derive(Clone, Copy, Debug, PartialEq, Eq, Structural)]
pub enum NotebookChild {
    Button(usize),
    EditorsHeader,
    Editor(usize),
    Root,
    Recent(usize),
    Row(usize),
}

/// The first button at a point, from the one at `from` on.
pub open spec fn button_from(buttons: Seq<(Seq<char>, Rect)>, at: Point, from: int) -> Option<usize>
    decreases buttons.len() - from,
{
    if from < 0 || from >= buttons.len() {
        None
    } else if buttons[from].1.has(at.x as int, at.y as int) {
        Some(from as usize)
    } else {
        button_from(buttons, at, from + 1)
    }
}

fn first_button(buttons: &Vec<(String, Rect)>, at: Point) -> (index: Option<usize>)
    ensures
        index == button_from(crate::notebook_hits::named(buttons@), at, 0),
        index matches Some(index) ==> index < buttons.len(),
{
    let mut from: usize = 0;
    while from < buttons.len()
        invariant
            from <= buttons.len(),
            button_from(crate::notebook_hits::named(buttons@), at, 0) == button_from(
                crate::notebook_hits::named(buttons@),
                at,
                from as int,
            ),
        decreases buttons.len() - from,
    {
        if contains(buttons[from].1, at.x, at.y) {
            return Some(from);
        }
        from = from + 1;
    }
    None
}

impl NotebookView {
    /// The push buttons, in paint order.
    pub open spec fn pushes(self, frame: Frame) -> Seq<(Seq<char>, Rect)> {
        self.root_buttons(frame) + self.state_buttons(frame)
    }

    /// How many Open Editors rows show.
    pub open spec fn editors_shown(self) -> int {
        if self.editors_expanded {
            self.editors.rows.len() as int
        } else {
            0
        }
    }

    /// How many root rows there are: one or none.
    pub open spec fn roots(self) -> int {
        if self.mode == Mode::NoNotebook {
            0
        } else {
            1
        }
    }

    /// How many tree rows screen readers see: all but the draft row, while the tree shows.
    pub open spec fn tree_rows(self) -> int {
        if self.shows_tree() {
            self.rows.len() - (if self.inline.draft is Some {
                1int
            } else {
                0int
            })
        } else {
            0
        }
    }

    /// The row that stands at `place` among those that screen readers see.
    pub open spec fn row_seen(self, place: int) -> int {
        match self.inline.draft {
            Some(draft) if place >= draft => place + 1,
            _ => place,
        }
    }

    /// Where a row stands among those that screen readers see; none for the draft row.
    pub open spec fn place_seen(self, row: int) -> Option<int> {
        match self.inline.draft {
            Some(draft) if row == draft => None,
            Some(draft) if row > draft => Some(row - 1),
            _ => Some(row),
        }
    }

    /// How many children there are.
    pub open spec fn children(self, frame: Frame) -> int {
        self.pushes(frame).len() + 1 + self.editors_shown() + self.roots() + self.recent.len()
            + self.tree_rows()
    }

    /// The child at an index.
    pub open spec fn child(self, frame: Frame, index: int) -> Option<NotebookChild> {
        let header = self.pushes(frame).len();
        let editors = header + 1;
        let root = editors + self.editors_shown();
        let recent = root + self.roots();
        let rows = recent + self.recent.len();
        if index < 0 {
            None
        } else if index < header {
            Some(NotebookChild::Button(index as usize))
        } else if index < editors {
            Some(NotebookChild::EditorsHeader)
        } else if index < root {
            Some(NotebookChild::Editor((index - editors) as usize))
        } else if index < recent {
            Some(NotebookChild::Root)
        } else if index < rows {
            Some(NotebookChild::Recent((index - recent) as usize))
        } else if index < rows + self.tree_rows() {
            Some(NotebookChild::Row(self.row_seen(index - rows) as usize))
        } else {
            None
        }
    }

    /// Where a child stands; none for one that is not there.
    pub open spec fn child_place(self, frame: Frame, child: NotebookChild) -> Option<usize> {
        let header = self.pushes(frame).len();
        let editors = header + 1;
        let root = editors + self.editors_shown();
        let recent = root + self.roots();
        let rows = recent + self.recent.len();
        match child {
            NotebookChild::Button(index) if index < header => Some(index),
            NotebookChild::EditorsHeader => Some(header as usize),
            NotebookChild::Editor(index) if index < self.editors_shown() => Some(
                (editors + index) as usize,
            ),
            NotebookChild::Root if self.roots() == 1 => Some(root as usize),
            NotebookChild::Recent(index) if index < self.recent.len() => Some(
                (recent + index) as usize,
            ),
            NotebookChild::Row(row) if self.shows_tree() && row < self.rows.len() => {
                match self.place_seen(row as int) {
                    Some(place) => Some((rows + place) as usize),
                    None => None,
                }
            },
            _ => None,
        }
    }

    fn shown_editors(&self) -> (count: usize)
        ensures
            count == self.editors_shown(),
    {
        if self.editors_expanded {
            self.editors.rows.len()
        } else {
            0
        }
    }

    fn root_count(&self) -> (count: usize)
        ensures
            count == self.roots(),
    {
        if self.mode == Mode::NoNotebook {
            0
        } else {
            1
        }
    }

    fn accessible_tree_rows(&self) -> (count: usize)
        requires
            self.wf(),
        ensures
            count == self.tree_rows(),
    {
        if !self.tree_shown() {
            return 0;
        }
        if self.inline.draft.is_some() {
            self.rows.len() - 1
        } else {
            self.rows.len()
        }
    }

    fn button_count(&self, frame: &Frame) -> (count: usize)
        requires
            frame.wf(),
        ensures
            count == self.pushes(*frame).len(),
            count <= 6,
    {
        let buttons = self.buttons(frame);
        assert(crate::notebook_hits::named(buttons@).len() == buttons.len());
        buttons.len()
    }

    pub fn accessible_count(&self, frame: &Frame) -> (count: usize)
        requires
            self.wf(),
            frame.wf(),
        ensures
            count == self.children(*frame),
    {
        self.button_count(frame) + 1 + self.shown_editors() + self.root_count() + self.recent.len()
            + self.accessible_tree_rows()
    }

    pub fn child_at(&self, frame: &Frame, index: usize) -> (child: Option<NotebookChild>)
        requires
            self.wf(),
            frame.wf(),
        ensures
            child == self.child(*frame, index as int),
            child matches Some(NotebookChild::Button(at)) ==> at < self.pushes(*frame).len(),
            child matches Some(NotebookChild::Editor(at)) ==> at < self.editors.rows.len(),
            child matches Some(NotebookChild::Recent(at)) ==> at < self.recent.len(),
            child matches Some(NotebookChild::Row(at)) ==> at < self.rows.len()
                && self.shows_tree(),
    {
        let header: usize = self.button_count(frame);
        let editors: usize = header + 1;
        let root: usize = editors + self.shown_editors();
        let recent: usize = root + self.root_count();
        let rows: usize = recent + self.recent.len();
        if index < header {
            return Some(NotebookChild::Button(index));
        }
        if index < editors {
            return Some(NotebookChild::EditorsHeader);
        }
        if index < root {
            return Some(NotebookChild::Editor(index - editors));
        }
        if index < recent {
            return Some(NotebookChild::Root);
        }
        if index < rows {
            return Some(NotebookChild::Recent(index - recent));
        }
        if index < rows + self.accessible_tree_rows() {
            let place: usize = index - rows;
            let row: usize = match self.inline.draft {
                Some(draft) => if place >= draft {
                    place + 1
                } else {
                    place
                },
                None => place,
            };
            return Some(NotebookChild::Row(row));
        }
        None
    }

    pub fn child_index(&self, frame: &Frame, child: NotebookChild) -> (index: Option<usize>)
        requires
            self.wf(),
            frame.wf(),
        ensures
            index == self.child_place(*frame, child),
    {
        let header: usize = self.button_count(frame);
        let editors: usize = header + 1;
        let root: usize = editors + self.shown_editors();
        let recent: usize = root + self.root_count();
        let rows: usize = recent + self.recent.len();
        match child {
            NotebookChild::Button(index) => if index < header {
                Some(index)
            } else {
                None
            },
            NotebookChild::EditorsHeader => Some(header),
            NotebookChild::Editor(index) => if index < self.shown_editors() {
                Some(editors + index)
            } else {
                None
            },
            NotebookChild::Root => if self.root_count() == 1 {
                Some(root)
            } else {
                None
            },
            NotebookChild::Recent(index) => if index < self.recent.len() {
                Some(recent + index)
            } else {
                None
            },
            NotebookChild::Row(row) => {
                if !self.tree_shown() || row >= self.rows.len() {
                    return None;
                }
                match self.inline.draft {
                    Some(draft) => if row == draft {
                        None
                    } else if row > draft {
                        Some(rows + (row - 1))
                    } else {
                        Some(rows + row)
                    },
                    None => Some(rows + row),
                }
            },
        }
    }

    /// A child as it is said. The list's selection has the focus only while the keyboard selection
    /// is in it.
    pub open spec fn child_item(self, frame: Frame, child: NotebookChild, focused: bool) -> crate::sidebar_accessibility::ItemModel {
        let layout = frame.layout;
        let in_list = focused && self.cursor == Cursor::Tree;
        match child {
            NotebookChild::Button(index) => crate::sidebar_accessibility::button(
                self.pushes(frame)[index as int].0,
                false,
                false,
                self.pushes(frame)[index as int].1,
            ),
            NotebookChild::EditorsHeader => crate::sidebar_accessibility::section(
                "Open editors, "@ + crate::text::decimal(self.editors.rows.len() as nat),
                self.editors_expanded,
                self.cursor == Cursor::EditorsHeader,
                focused,
                layout.editors_header,
            ),
            NotebookChild::Editor(index) => crate::sidebar_accessibility::editor(
                crate::open_editors::spoken(self.editors.rows@[index as int]@),
                self.cursor == Cursor::Editor(index),
                focused,
                crate::sidebar_accessibility::row_place(
                    layout.editors_list,
                    self.editors.list,
                    index as int,
                ),
                crate::sidebar_accessibility::row_shows(
                    layout.editors_list,
                    self.editors.list,
                    index as int,
                ),
            ),
            NotebookChild::Root => crate::sidebar_accessibility::section(
                self.name@,
                self.root_expanded,
                self.cursor == Cursor::Root,
                focused,
                layout.root,
            ),
            NotebookChild::Recent(index) => crate::sidebar_accessibility::listed(
                self.spoken_recent(index as int),
                self.list.selected == Some(index),
                in_list,
                crate::sidebar_accessibility::row_place(
                    self.area(frame),
                    self.list,
                    index as int,
                ),
                crate::sidebar_accessibility::row_shows(
                    self.area(frame),
                    self.list,
                    index as int,
                ),
            ),
            NotebookChild::Row(index) => crate::sidebar_accessibility::outlined(
                self.rows@[index as int],
                self.list.selected == Some(index),
                in_list,
                crate::sidebar_accessibility::row_place(
                    self.area(frame),
                    self.list,
                    index as int,
                ),
                crate::sidebar_accessibility::row_shows(
                    self.area(frame),
                    self.list,
                    index as int,
                ),
            ),
        }
    }

    fn is_selected(&self, index: usize) -> (selected: bool)
        ensures
            selected == (self.list.selected == Some(index)),
    {
        match self.list.selected {
            Some(selected) => selected == index,
            None => false,
        }
    }

    fn header_item(&self, frame: &Frame, focused: bool) -> (item: AccessibleItem)
        ensures
            item@ == self.child_item(*frame, NotebookChild::EditorsHeader, focused),
    {
        let count: String = decimal_text(self.editors.rows.len() as u64);
        let name: String = join2("Open editors, ", count.as_str());
        section_item(
            name.as_str(),
            self.editors_expanded,
            self.cursor == Cursor::EditorsHeader,
            focused,
            frame.layout.editors_header,
        )
    }

    pub fn accessible_item(&self, index: usize, frame: &Frame, focused: bool) -> (item: Option<
        AccessibleItem,
    >)
        requires
            self.wf(),
            frame.wf(),
        ensures
            crate::sidebar_accessibility::maybe_item(item) == (match self.child(
                *frame,
                index as int,
            ) {
                Some(child) => Some(self.child_item(*frame, child, focused)),
                None => None,
            }),
    {
        let in_list: bool = focused && self.cursor == Cursor::Tree;
        match self.child_at(frame, index) {
            Some(NotebookChild::Button(at)) => {
                let buttons = self.buttons(frame);
                let ghost pushes = self.pushes(*frame);
                assert(crate::notebook_hits::named(buttons@)[at as int] == pushes[at as int]);
                assert(crate::notebook_hits::named(buttons@).len() == buttons.len());
                let (name, rect): (&String, Rect) = (&buttons[at].0, buttons[at].1);
                Some(button_item(name.as_str(), false, false, rect))
            },
            Some(NotebookChild::EditorsHeader) => Some(self.header_item(frame, focused)),
            Some(NotebookChild::Editor(at)) => {
                let name: String = accessible_name(&self.editors.rows[at]);
                let (rect, visible): (Rect, bool) = row_rect(
                    frame.layout.editors_list,
                    &self.editors.list,
                    at,
                );
                let selected: bool = self.cursor == Cursor::Editor(at);
                Some(editor_item(name.as_str(), selected, focused, rect, visible))
            },
            Some(NotebookChild::Root) => Some(
                section_item(
                    self.name.as_str(),
                    self.root_expanded,
                    self.cursor == Cursor::Root,
                    focused,
                    frame.layout.root,
                ),
            ),
            Some(NotebookChild::Recent(at)) => {
                let (rect, visible): (Rect, bool) = row_rect(self.list_area(frame), &self.list, at);
                let name: String = self.recent_name(at);
                let selected: bool = self.is_selected(at);
                Some(list_item(name.as_str(), selected, in_list, rect, visible))
            },
            Some(NotebookChild::Row(at)) => {
                let (rect, visible): (Rect, bool) = row_rect(self.list_area(frame), &self.list, at);
                let selected: bool = self.is_selected(at);
                Some(tree_item(&self.rows[at], selected, in_list, rect, visible))
            },
            None => None,
        }
    }

    /// The child at a point.
    pub open spec fn child_under(self, frame: Frame, at: Point) -> Option<usize> {
        let layout = frame.layout;
        let (x, y) = (at.x as int, at.y as int);
        let area = self.area(frame);
        match button_from(self.pushes(frame), at, 0) {
            Some(index) => Some(index),
            None => if layout.editors_header.has(x, y) {
                self.child_place(frame, NotebookChild::EditorsHeader)
            } else if layout.editors_list.has(x, y) {
                match self.editors.list.row_under(y - layout.editors_list.top) {
                    Some(row) => self.child_place(frame, NotebookChild::Editor(row)),
                    None => None,
                }
            } else if layout.root.has(x, y) {
                self.child_place(frame, NotebookChild::Root)
            } else if area.has(x, y) {
                match self.list.row_under(y - area.top) {
                    Some(row) => if self.mode == Mode::NoNotebook {
                        self.child_place(frame, NotebookChild::Recent(row))
                    } else {
                        self.child_place(frame, NotebookChild::Row(row))
                    },
                    None => None,
                }
            } else {
                None
            },
        }
    }

    pub fn accessible_hit(&self, at: Point, frame: &Frame) -> (index: Option<usize>)
        requires
            self.wf(),
            frame.wf(),
        ensures
            index == self.child_under(*frame, at),
    {
        let buttons = self.buttons(frame);
        if let Some(index) = first_button(&buttons, at) {
            return Some(index);
        }
        let layout = frame.layout;
        if contains(layout.editors_header, at.x, at.y) {
            return self.child_index(frame, NotebookChild::EditorsHeader);
        }
        if contains(layout.editors_list, at.x, at.y) {
            return match self.editors.list.row_at(at.y - layout.editors_list.top) {
                Some(row) => self.child_index(frame, NotebookChild::Editor(row)),
                None => None,
            };
        }
        if contains(layout.root, at.x, at.y) {
            return self.child_index(frame, NotebookChild::Root);
        }
        let area = self.list_area(frame);
        if !contains(area, at.x, at.y) {
            return None;
        }
        match self.list.row_at(at.y - area.top) {
            Some(row) => if self.mode == Mode::NoNotebook {
                self.child_index(frame, NotebookChild::Recent(row))
            } else {
                self.child_index(frame, NotebookChild::Row(row))
            },
            None => None,
        }
    }

    /// The child that the keyboard selection is on.
    pub open spec fn current(self) -> Option<NotebookChild> {
        match self.cursor {
            Cursor::EditorsHeader => Some(NotebookChild::EditorsHeader),
            Cursor::Editor(index) => Some(NotebookChild::Editor(index)),
            Cursor::Root => Some(NotebookChild::Root),
            Cursor::Tree => match self.list.selected {
                Some(row) => Some(
                    if self.mode == Mode::NoNotebook {
                        NotebookChild::Recent(row)
                    } else {
                        NotebookChild::Row(row)
                    },
                ),
                None => None,
            },
        }
    }

    pub fn accessible_current(&self, frame: &Frame) -> (index: Option<usize>)
        requires
            self.wf(),
            frame.wf(),
        ensures
            index == (match self.current() {
                Some(child) => self.child_place(*frame, child),
                None => None,
            }),
    {
        match self.cursor {
            Cursor::EditorsHeader => self.child_index(frame, NotebookChild::EditorsHeader),
            Cursor::Editor(index) => self.child_index(frame, NotebookChild::Editor(index)),
            Cursor::Root => self.child_index(frame, NotebookChild::Root),
            Cursor::Tree => match self.list.selected {
                Some(row) => if self.mode == Mode::NoNotebook {
                    self.child_index(frame, NotebookChild::Recent(row))
                } else {
                    self.child_index(frame, NotebookChild::Row(row))
                },
                None => None,
            },
        }
    }

    /// The view with a row of the list selected for a screen reader.
    pub open spec fn selecting_seen(self, row: usize, frame: Frame) -> NotebookView {
        let area = self.area(frame);
        NotebookView {
            cursor: Cursor::Tree,
            list: self.list.with_selected(row as int, area.bottom - area.top),
            ..self
        }
    }

    /// The view with a child selected.
    pub open spec fn selecting_child(self, child: Option<NotebookChild>, frame: Frame) -> NotebookView {
        match child {
            Some(NotebookChild::EditorsHeader) => NotebookView {
                cursor: Cursor::EditorsHeader,
                ..self
            },
            Some(NotebookChild::Editor(at)) => NotebookView {
                cursor: Cursor::Editor(at),
                editors: crate::open_editors::OpenEditors {
                    list: self.editors.list.showing(at as int, frame.layout.editors_list.tall()),
                    ..self.editors
                },
                ..self
            },
            Some(NotebookChild::Root) => NotebookView { cursor: Cursor::Root, ..self },
            Some(NotebookChild::Recent(at)) if self.mode == Mode::NoNotebook => {
                self.selecting_seen(at, frame)
            },
            Some(NotebookChild::Row(at)) => self.selecting_seen(at, frame),
            _ => self,
        }
    }

    /// Selects the child at an index: the keyboard selection goes there, and the row is in view. A
    /// button cannot be selected, nor can a recent notebook while another one is open.
    pub fn accessible_select(&mut self, index: usize, frame: &Frame)
        requires
            old(self).wf(),
            frame.wf(),
        ensures
            final(self).wf(),
            *final(self) == old(self).selecting_child(
                old(self).child(*frame, index as int),
                *frame,
            ),
    {
        match self.child_at(frame, index) {
            Some(NotebookChild::EditorsHeader) => {
                self.cursor = Cursor::EditorsHeader;
            },
            Some(NotebookChild::Editor(at)) => {
                self.cursor = Cursor::Editor(at);
                self.editors.list.ensure_visible(at, height(frame.layout.editors_list));
            },
            Some(NotebookChild::Root) => {
                self.cursor = Cursor::Root;
            },
            Some(NotebookChild::Recent(at)) => {
                if self.mode == Mode::NoNotebook {
                    let area = self.list_area(frame);
                    self.cursor = Cursor::Tree;
                    self.list.select(at, area.bottom - area.top);
                }
            },
            Some(NotebookChild::Row(at)) => {
                let area = self.list_area(frame);
                self.cursor = Cursor::Tree;
                self.list.select(at, area.bottom - area.top);
            },
            _ => {},
        }
    }

    /// What tells a child from the others: its kind, and what it is of. A button has none.
    pub open spec fn child_named(self, child: NotebookChild) -> Option<(Seq<char>, Seq<char>)> {
        match child {
            NotebookChild::Button(_) => None,
            NotebookChild::EditorsHeader => Some(("open-editors"@, Seq::empty())),
            NotebookChild::Editor(index) => Some(
                ("editor"@, crate::text::decimal(self.editors.rows@[index as int].id.0 as nat)),
            ),
            NotebookChild::Root => Some(("notebook-root"@, Seq::empty())),
            NotebookChild::Recent(index) => Some(
                ("recent"@, crate::paths::path_key(self.recent@[index as int]@)),
            ),
            NotebookChild::Row(index) => Some(
                match self.rows@[index as int].kind {
                    Kind::Folder(path) => ("folder"@, crate::paths::path_key(path@)),
                    Kind::Note(path) => ("note"@, crate::paths::path_key(path@)),
                    Kind::Draft => ("draft"@, Seq::empty()),
                    Kind::Unsaved(id) => ("unsaved"@, crate::text::decimal(id as nat)),
                },
            ),
        }
    }

    /// A number that stays with the child at `index` while the children around it change.
    pub fn accessible_identity(&self, index: usize, frame: &Frame) -> (identity: Option<u64>)
        requires
            self.wf(),
            frame.wf(),
        ensures
            identity == (match self.child(*frame, index as int) {
                Some(child) => match self.child_named(child) {
                    Some((kind, detail)) => Some(
                        crate::sidebar_accessibility::identity(kind, detail),
                    ),
                    None => None,
                },
                None => None,
            }),
    {
        let nothing: String = String::new();
        match self.child_at(frame, index) {
            Some(NotebookChild::EditorsHeader) => Some(
                identity_of("open-editors", nothing.as_str()),
            ),
            Some(NotebookChild::Editor(at)) => {
                let id: String = decimal_text(self.editors.rows[at].id.0);
                Some(identity_of("editor", id.as_str()))
            },
            Some(NotebookChild::Root) => Some(identity_of("notebook-root", nothing.as_str())),
            Some(NotebookChild::Recent(at)) => Some(
                identity_of("recent", key_of_path(self.recent[at].as_str()).as_str()),
            ),
            Some(NotebookChild::Row(at)) => Some(
                match &self.rows[at].kind {
                    Kind::Folder(path) => identity_of("folder", key_of_path(path.as_str()).as_str()),
                    Kind::Note(path) => identity_of("note", key_of_path(path.as_str()).as_str()),
                    Kind::Draft => identity_of("draft", nothing.as_str()),
                    Kind::Unsaved(id) => {
                        let id: String = decimal_text(*id);
                        identity_of("unsaved", id.as_str())
                    },
                },
            ),
            _ => None,
        }
    }

    /// Changes whenever the order of the rows does.
    pub fn accessible_generation(&self) -> (generation: u64)
        ensures
            generation == self.order,
    {
        self.order
    }

    /// A child is found where it is placed, and every index up to the count holds a child that
    /// stands there; the draft row is none of them.
    pub proof fn notebook_children_are_found_where_they_are_placed(self, frame: Frame, index: int)
        requires
            self.wf(),
            frame.wf(),
        ensures
            0 <= index < self.children(frame) <==> self.child(frame, index) is Some,
            self.child(frame, index) matches Some(child) ==> self.child_place(frame, child) == Some(
                index as usize,
            ) && index <= usize::MAX,
            self.child(frame, index) matches Some(NotebookChild::Row(row)) ==> self.inline.draft
                != Some(row),
    {
        assert(self.pushes(frame).len() <= 6);
    }

    /// The draft row has no place among the children.
    pub proof fn the_draft_row_is_not_said(self, frame: Frame, row: usize)
        requires
            self.inline.draft == Some(row),
        ensures
            self.child_place(frame, NotebookChild::Row(row)) is None,
    {
    }

    /// Selecting a child makes it the current one.
    pub proof fn a_selected_child_is_current(self, frame: Frame, index: int)
        requires
            self.wf(),
            frame.wf(),
            self.child(frame, index) matches Some(NotebookChild::Row(_)),
        ensures
            self.child(frame, index) matches Some(NotebookChild::Row(row)) ==> self.selecting_seen(
                row,
                frame,
            ).current() == Some(NotebookChild::Row(row)),
    {
        self.notebook_children_are_found_where_they_are_placed(frame, index);
    }
}

} // verus!
