//! Where things are in the Notebook view: what a point is on, what a drag is over, and the push
//! buttons and tooltips with their rectangles.

use crate::drawing::{Item, TreeItem};
use crate::geometry::{contains, height, Point, Rect};
use crate::notebook_view::{row_rect, Frame, HeaderButton, Hit, Hover, Mode, NotebookView, RootParts, RowPart};
use crate::open_editors::{close_rect, tooltip};
use crate::paths::{extension, file_name};
use crate::text::join3;
use crate::tree::{row_index, Kind, TreeRow};
use crate::tree_paint::{drag_item, row_parts, state_layout, DragSource};
use vstd::prelude::*;
use vstd::string::*;

verus! {

/// The tooltip control's tools.
pub const TOOL_ROW: usize = 1;

pub const TOOL_TITLE: usize = 2;

pub const TOOL_FAVORITE: usize = 3;

pub const TOOL_NEW: usize = 4;

pub const TOOL_MORE: usize = 5;

pub const TOOL_NEW_FOLDER: usize = 6;

pub const ADD_FAVORITE: &'static str = "Add to favorites";

pub const REMOVE_FAVORITE: &'static str = "Remove from favorites";

pub const NEW_NOTE: &'static str = "New note";

pub const NEW_FOLDER: &'static str = "New folder";

pub const MORE_ACTIONS: &'static str = "More actions";

pub const OPEN_NOTEBOOK: &'static str = "Open notebook\u{2026}";

pub const RETRY: &'static str = "Retry";

/// The root row's button at a point.
pub open spec fn button_at(parts: RootParts, at: Point) -> Option<HeaderButton> {
    if parts.favorite.has(at.x as int, at.y as int) {
        Some(HeaderButton::Favorite)
    } else if parts.new_note.has(at.x as int, at.y as int) {
        Some(HeaderButton::NewNote)
    } else if parts.new_folder.has(at.x as int, at.y as int) {
        Some(HeaderButton::NewFolder)
    } else if parts.more.has(at.x as int, at.y as int) {
        Some(HeaderButton::More)
    } else {
        None
    }
}

fn button_under(parts: &RootParts, at: Point) -> (button: Option<HeaderButton>)
    ensures
        button == button_at(*parts, at),
{
    if contains(parts.favorite, at.x, at.y) {
        Some(HeaderButton::Favorite)
    } else if contains(parts.new_note, at.x, at.y) {
        Some(HeaderButton::NewNote)
    } else if contains(parts.new_folder, at.x, at.y) {
        Some(HeaderButton::NewFolder)
    } else if contains(parts.more, at.x, at.y) {
        Some(HeaderButton::More)
    } else {
        None
    }
}

/// The part of a tree row at `x`: a folder's chevron and icon, a note's pin button, or the rest.
pub open spec fn part_at(row: TreeRow, rect: Rect, dpi: int, x: int) -> RowPart {
    let parts = crate::tree_paint::parts_of(rect, row.depth as int, dpi);
    match row.kind {
        Kind::Folder(_) if x < parts.icon.right => RowPart::Chevron,
        Kind::Note(_) if x >= parts.pin.left => RowPart::Pin,
        _ => RowPart::Body,
    }
}

fn part_under(row: &TreeRow, rect: Rect, dpi: u32, x: i32) -> (part: RowPart)
    requires
        dpi <= crate::panel::MAX_DPI,
    ensures
        part == part_at(*row, rect, dpi as int, x as int),
{
    let parts = row_parts(rect, row.depth, dpi);
    match &row.kind {
        Kind::Folder(_) => if x < parts.icon.right {
            RowPart::Chevron
        } else {
            RowPart::Body
        },
        Kind::Note(_) => if x >= parts.pin.left {
            RowPart::Pin
        } else {
            RowPart::Body
        },
        _ => RowPart::Body,
    }
}

/// A tooltip tool.
#[derive(Debug)]
pub struct Tip {
    pub id: usize,
    pub rect: Rect,
    pub text: String,
}

/// A tool, its text as characters.
pub struct TipModel {
    pub id: usize,
    pub rect: Rect,
    pub text: Seq<char>,
}

impl View for Tip {
    type V = TipModel;

    open spec fn view(&self) -> TipModel {
        TipModel { id: self.id, rect: self.rect, text: self.text@ }
    }
}

pub open spec fn tip_models(tools: Seq<Tip>) -> Seq<TipModel> {
    tools.map_values(|tip: Tip| tip@)
}

/// A tip with its place, its text as characters.
pub open spec fn placed(tip: Option<(Rect, String)>) -> Option<(Rect, Seq<char>)> {
    match tip {
        Some((rect, text)) => Some((rect, text@)),
        None => None,
    }
}

/// The buttons, their names as characters.
pub open spec fn named(buttons: Seq<(String, Rect)>) -> Seq<(Seq<char>, Rect)> {
    buttons.map_values(|button: (String, Rect)| (button.0@, button.1))
}

/// What a root row button says.
pub open spec fn button_label(button: HeaderButton, favorite: bool) -> Seq<char> {
    match button {
        HeaderButton::Favorite => if favorite {
            REMOVE_FAVORITE@
        } else {
            ADD_FAVORITE@
        },
        HeaderButton::NewNote => NEW_NOTE@,
        HeaderButton::NewFolder => NEW_FOLDER@,
        HeaderButton::More => MORE_ACTIONS@,
    }
}

pub fn button_name(button: HeaderButton, favorite: bool) -> (name: String)
    ensures
        name@ == button_label(button, favorite),
{
    match button {
        HeaderButton::Favorite => if favorite {
            REMOVE_FAVORITE.to_owned()
        } else {
            ADD_FAVORITE.to_owned()
        },
        HeaderButton::NewNote => NEW_NOTE.to_owned(),
        HeaderButton::NewFolder => NEW_FOLDER.to_owned(),
        HeaderButton::More => MORE_ACTIONS.to_owned(),
    }
}

impl NotebookView {
    /// What a point of the Open Editors list is on.
    pub open spec fn editor_hit(self, frame: Frame, at: Point) -> Hit {
        let list = frame.layout.editors_list;
        match self.editors.list.row_under(at.y - list.top) {
            Some(index) => Hit::Editor {
                index,
                close: !self.editors.rows@[index as int].dirty && (
                match crate::notebook_view::row_box(list, self.editors.list, index) {
                    Some(row) => crate::open_editors::close_box(row, frame.dpi as int).has(
                        at.x as int,
                        at.y as int,
                    ),
                    None => false,
                }),
            },
            None => Hit::Empty,
        }
    }

    fn editor_under(&self, frame: &Frame, at: Point) -> (hit: Hit)
        requires
            self.wf(),
            frame.wf(),
            crate::notebook_view::near(at),
        ensures
            hit == self.editor_hit(*frame, at),
    {
        let list = frame.layout.editors_list;
        match self.editors.list.row_at(at.y - list.top) {
            Some(index) => {
                let over: bool = match row_rect(list, &self.editors.list, index) {
                    Some(row) => contains(close_rect(row, frame.dpi), at.x, at.y),
                    None => false,
                };
                Hit::Editor { index, close: !self.editors.rows[index].dirty && over }
            },
            None => Hit::Empty,
        }
    }

    /// What a point under the root row is on, in the states without a tree.
    pub open spec fn state_hit(self, frame: Frame, at: Point) -> Hit {
        let boxes = crate::tree_paint::state_boxes(frame.layout.body, frame.dpi as int);
        if boxes.button.has(at.x as int, at.y as int) {
            Hit::StateButton
        } else if self.mode == Mode::Failed && boxes.second.has(at.x as int, at.y as int) {
            Hit::SecondButton
        } else if self.mode == Mode::NoNotebook && boxes.list.has(at.x as int, at.y as int) {
            match self.list.row_under(at.y - boxes.list.top) {
                Some(index) => Hit::Row { index, part: RowPart::Body },
                None => Hit::Empty,
            }
        } else {
            Hit::Empty
        }
    }

    fn state_under(&self, frame: &Frame, at: Point) -> (hit: Hit)
        requires
            self.wf(),
            frame.wf(),
        ensures
            hit == self.state_hit(*frame, at),
    {
        let boxes = state_layout(frame.layout.body, frame.dpi);
        if contains(boxes.button, at.x, at.y) {
            return Hit::StateButton;
        }
        if self.mode == Mode::Failed && contains(boxes.second, at.x, at.y) {
            return Hit::SecondButton;
        }
        if self.mode == Mode::NoNotebook && contains(boxes.list, at.x, at.y) {
            if let Some(index) = self.list.row_at(at.y - boxes.list.top) {
                return Hit::Row { index, part: RowPart::Body };
            }
        }
        Hit::Empty
    }

    /// What a point under the root row is on while the tree shows: the scroll thumb before the
    /// rows under it.
    pub open spec fn tree_hit(self, frame: Frame, at: Point) -> Hit {
        let list = frame.layout.body;
        match self.list.grab_at(
            at.x - list.left,
            at.y - list.top,
            list.right - list.left,
            list.tall(),
        ) {
            Some(grab) => Hit::Thumb(grab),
            None => match self.list.row_under(at.y - list.top) {
                Some(index) => Hit::Row {
                    index,
                    part: if index < self.rows.len() {
                        match crate::notebook_view::row_box(list, self.list, index) {
                            Some(rect) => part_at(
                                self.rows@[index as int],
                                rect,
                                frame.dpi as int,
                                at.x as int,
                            ),
                            None => RowPart::Body,
                        }
                    } else {
                        RowPart::Body
                    },
                },
                None => Hit::Empty,
            },
        }
    }

    fn tree_under(&self, frame: &Frame, at: Point) -> (hit: Hit)
        requires
            self.wf(),
            frame.wf(),
            crate::notebook_view::near(at),
        ensures
            hit == self.tree_hit(*frame, at),
    {
        let list = frame.layout.body;
        if let Some(grab) = self.list.thumb_hit(
            at.x - list.left,
            at.y - list.top,
            list.right - list.left,
            height(list),
        ) {
            return Hit::Thumb(grab);
        }
        match self.list.row_at(at.y - list.top) {
            Some(index) => {
                if index < self.rows.len() {
                    if let Some(rect) = row_rect(list, &self.list, index) {
                        let part: RowPart = part_under(&self.rows[index], rect, frame.dpi, at.x);
                        return Hit::Row { index, part };
                    }
                }
                Hit::Row { index, part: RowPart::Body }
            },
            None => Hit::Empty,
        }
    }

    /// What a point is on: nothing in the title band; a section's header row, the rows of the
    /// open editors, the root row and its buttons; below them, the state or the tree. The states
    /// under a collapsed root are not painted, so nothing of them is hit.
    pub open spec fn hit(self, frame: Frame, at: Point) -> Hit {
        let layout = frame.layout;
        let (x, y) = (at.x as int, at.y as int);
        if y < layout.title.bottom {
            Hit::Empty
        } else if layout.editors_header.has(x, y) {
            Hit::EditorsHeader
        } else if layout.editors_list.has(x, y) {
            self.editor_hit(frame, at)
        } else if layout.root.has(x, y) {
            if self.mode == Mode::NoNotebook {
                Hit::Empty
            } else {
                match button_at(frame.root, at) {
                    Some(button) => Hit::Header(button),
                    None => Hit::Root,
                }
            }
        } else if self.mode == Mode::NoNotebook {
            self.state_hit(frame, at)
        } else if !self.root_expanded {
            Hit::Empty
        } else {
            match self.mode {
                Mode::Empty => self.state_hit(frame, at),
                Mode::Failed => self.state_hit(frame, at),
                Mode::Tree => self.tree_hit(frame, at),
                _ => Hit::Empty,
            }
        }
    }

    pub fn hit_test(&self, frame: &Frame, at: Point) -> (hit: Hit)
        requires
            self.wf(),
            frame.wf(),
            crate::notebook_view::near(at),
        ensures
            hit == self.hit(*frame, at),
    {
        let layout = frame.layout;
        if at.y < layout.title.bottom {
            return Hit::Empty;
        }
        if contains(layout.editors_header, at.x, at.y) {
            return Hit::EditorsHeader;
        }
        if contains(layout.editors_list, at.x, at.y) {
            return self.editor_under(frame, at);
        }
        if contains(layout.root, at.x, at.y) {
            if self.mode != Mode::NoNotebook {
                return match button_under(&frame.root, at) {
                    Some(button) => Hit::Header(button),
                    None => Hit::Root,
                };
            }
            return Hit::Empty;
        }
        match self.mode {
            Mode::NoNotebook => self.state_under(frame, at),
            Mode::Empty => if self.root_expanded {
                self.state_under(frame, at)
            } else {
                Hit::Empty
            },
            Mode::Failed => if self.root_expanded {
                self.state_under(frame, at)
            } else {
                Hit::Empty
            },
            Mode::Loading => Hit::Empty,
            Mode::Tree => if self.root_expanded {
                self.tree_under(frame, at)
            } else {
                Hit::Empty
            },
        }
    }

    /// A hit row is a row of its list.
    pub proof fn hits_are_rows(self, frame: Frame, at: Point)
        requires
            self.wf(),
        ensures
            self.hit(frame, at) matches Hit::Row { index, .. } ==> index < self.list.count,
            self.hit(frame, at) matches Hit::Editor { index, .. } ==> index
                < self.editors.rows.len(),
            self.hit(frame, at) matches Hit::Row { part, index } ==> part != RowPart::Body
                ==> index < self.rows.len(),
    {
    }

    /// What a drag is over. The scroll thumb counts as the row under it. A notebook with no notes
    /// has the root row and the space under it, both the root.
    pub open spec fn hovered(self, frame: Frame, at: Point) -> Hover {
        let layout = frame.layout;
        if !(self.mode == Mode::Tree || self.mode == Mode::Empty) || !frame.client.has(
            at.x as int,
            at.y as int,
        ) || at.y < layout.root.top {
            Hover::Outside
        } else if at.y < layout.root.bottom {
            Hover::Header
        } else if !self.shows_tree() {
            Hover::Below
        } else if at.y < layout.body.top {
            Hover::Header
        } else {
            match self.list.row_under(at.y - layout.body.top) {
                Some(index) => Hover::Row(index),
                None => Hover::Below,
            }
        }
    }

    pub fn drag_hover(&self, frame: &Frame, at: Point) -> (hover: Hover)
        requires
            self.wf(),
            frame.wf(),
        ensures
            hover == self.hovered(*frame, at),
    {
        let targets: bool = match self.mode {
            Mode::Tree => true,
            Mode::Empty => true,
            _ => false,
        };
        let layout = frame.layout;
        if !targets || !contains(frame.client, at.x, at.y) || at.y < layout.root.top {
            return Hover::Outside;
        }
        if at.y < layout.root.bottom {
            return Hover::Header;
        }
        if !self.tree_shown() {
            return Hover::Below;
        }
        if at.y < layout.body.top {
            return Hover::Header;
        }
        match self.list.row_at(at.y - layout.body.top) {
            Some(index) => Hover::Row(index),
            None => Hover::Below,
        }
    }

    /// Whether files dropped at a point open rather than being copied: over Open Editors, or
    /// anywhere below the title band with no notebook.
    pub open spec fn opens(self, frame: Frame, at: Point) -> bool {
        let layout = frame.layout;
        let (x, y) = (at.x as int, at.y as int);
        match self.root {
            Some(_) => layout.editors_header.has(x, y) || layout.editors_list.has(x, y),
            None => frame.client.has(x, y) && y >= layout.title.bottom,
        }
    }

    pub fn opens_at(&self, frame: &Frame, at: Point) -> (opens: bool)
        ensures
            opens == self.opens(*frame, at),
    {
        let layout = frame.layout;
        if self.root.is_none() {
            return contains(frame.client, at.x, at.y) && at.y >= layout.title.bottom;
        }
        contains(layout.editors_header, at.x, at.y) || contains(layout.editors_list, at.x, at.y)
    }

    /// Where the hovered row's tip shows and what it says: a note's name in full where it is wider
    /// than its place, or a recent notebook's path. `name_width` is how wide the name is.
    pub open spec fn hovered_tip(self, frame: Frame, name_width: int) -> Option<(Rect, Seq<char>)> {
        match self.list.hover {
            Some(index) => match crate::notebook_view::row_box(self.area(frame), self.list, index) {
                Some(rect) => if self.mode == Mode::NoNotebook && index < self.recent.len() {
                    Some((rect, self.recent@[index as int]@))
                } else if self.mode == Mode::Tree && index < self.rows.len() {
                    let row = self.rows@[index as int];
                    let name = crate::tree_paint::parts_of(
                        rect,
                        row.depth as int,
                        frame.dpi as int,
                    ).name;
                    if name_width > name.right - name.left {
                        Some((name, row.name@))
                    } else {
                        None
                    }
                } else {
                    None
                },
                None => None,
            },
            None => None,
        }
    }

    pub fn row_tip(&self, frame: &Frame, name_width: i32) -> (tip: Option<(Rect, String)>)
        requires
            self.wf(),
            frame.wf(),
        ensures
            placed(tip) == self.hovered_tip(*frame, name_width as int),
    {
        let area = self.list_area(frame);
        let index: usize = match self.list.hover {
            Some(index) => index,
            None => {
                return None;
            },
        };
        let rect = match row_rect(area, &self.list, index) {
            Some(rect) => rect,
            None => {
                return None;
            },
        };
        match self.mode {
            Mode::NoNotebook => if index < self.recent.len() {
                Some((rect, self.recent[index].clone()))
            } else {
                None
            },
            Mode::Tree => {
                if index < self.rows.len() {
                    let row = &self.rows[index];
                    let name = row_parts(rect, row.depth, frame.dpi).name;
                    if name_width as i64 > name.right as i64 - name.left as i64 {
                        return Some((name, row.name.clone()));
                    }
                }
                None
            },
            _ => None,
        }
    }

    /// The tip of the row under the pointer: an open editor's path, else the tree row's.
    pub open spec fn pointed_tip(self, frame: Frame, name_width: int) -> Option<(Rect, Seq<char>)> {
        let editor = match self.editors.list.hover {
            Some(index) => match crate::notebook_view::row_box(
                frame.layout.editors_list,
                self.editors.list,
                index,
            ) {
                Some(rect) => Some(
                    (
                        rect,
                        match self.editors.rows@[index as int].path {
                            Some(path) => path@,
                            None => self.editors.rows@[index as int].name@,
                        },
                    ),
                ),
                None => None,
            },
            None => None,
        };
        match editor {
            Some(tip) => Some(tip),
            None => self.hovered_tip(frame, name_width),
        }
    }

    fn tip_under(&self, frame: &Frame, name_width: i32) -> (tip: Option<(Rect, String)>)
        requires
            self.wf(),
            frame.wf(),
        ensures
            placed(tip) == self.pointed_tip(*frame, name_width as int),
    {
        if let Some(index) = self.editors.list.hover {
            if let Some(rect) = row_rect(frame.layout.editors_list, &self.editors.list, index) {
                return Some((rect, tooltip(&self.editors.rows[index])));
            }
        }
        self.row_tip(frame, name_width)
    }

    /// Every tool with its place and text: the notebook's path over its name, the root row's
    /// buttons, and the row under the pointer. A tool with an empty text shows no tip, so the
    /// buttons show none while they are hidden.
    pub open spec fn tips(self, frame: Frame, name_width: int) -> Seq<TipModel> {
        let shown = |text: Seq<char>|
            if self.mode != Mode::NoNotebook {
                text
            } else {
                Seq::<char>::empty()
            };
        let row = match self.pointed_tip(frame, name_width) {
            Some(tip) => tip,
            None => (Rect { left: 0, top: 0, right: 0, bottom: 0 }, Seq::<char>::empty()),
        };
        seq![
            TipModel {
                id: TOOL_TITLE,
                rect: frame.root.name,
                text: match self.root {
                    Some(root) => root@,
                    None => Seq::empty(),
                },
            },
            TipModel {
                id: TOOL_FAVORITE,
                rect: frame.root.favorite,
                text: shown(button_label(HeaderButton::Favorite, self.favorite)),
            },
            TipModel {
                id: TOOL_NEW,
                rect: frame.root.new_note,
                text: shown(button_label(HeaderButton::NewNote, self.favorite)),
            },
            TipModel {
                id: TOOL_NEW_FOLDER,
                rect: frame.root.new_folder,
                text: shown(button_label(HeaderButton::NewFolder, self.favorite)),
            },
            TipModel {
                id: TOOL_MORE,
                rect: frame.root.more,
                text: shown(button_label(HeaderButton::More, self.favorite)),
            },
            TipModel { id: TOOL_ROW, rect: row.0, text: row.1 },
        ]
    }

    fn button_tip(&self, id: usize, rect: Rect, button: HeaderButton) -> (tip: Tip)
        ensures
            tip@ == (TipModel {
                id,
                rect,
                text: if self.mode != Mode::NoNotebook {
                    button_label(button, self.favorite)
                } else {
                    Seq::empty()
                },
            }),
    {
        let text: String = if self.mode != Mode::NoNotebook {
            button_name(button, self.favorite)
        } else {
            String::new()
        };
        Tip { id, rect, text }
    }

    pub fn tooltip_tools(&self, frame: &Frame, name_width: i32) -> (tools: Vec<Tip>)
        requires
            self.wf(),
            frame.wf(),
        ensures
            tip_models(tools@) == self.tips(*frame, name_width as int),
    {
        let title: String = match &self.root {
            Some(root) => root.clone(),
            None => String::new(),
        };
        let (rect, text): (Rect, String) = match self.tip_under(frame, name_width) {
            Some((rect, text)) => (rect, text),
            None => (Rect { left: 0, top: 0, right: 0, bottom: 0 }, String::new()),
        };
        let mut tools: Vec<Tip> = Vec::new();
        tools.push(Tip { id: TOOL_TITLE, rect: frame.root.name, text: title });
        tools.push(self.button_tip(TOOL_FAVORITE, frame.root.favorite, HeaderButton::Favorite));
        tools.push(self.button_tip(TOOL_NEW, frame.root.new_note, HeaderButton::NewNote));
        tools.push(self.button_tip(TOOL_NEW_FOLDER, frame.root.new_folder, HeaderButton::NewFolder));
        tools.push(self.button_tip(TOOL_MORE, frame.root.more, HeaderButton::More));
        tools.push(Tip { id: TOOL_ROW, rect, text });
        assert(tip_models(tools@) =~= self.tips(*frame, name_width as int));
        tools
    }

    /// The root row's push buttons.
    pub open spec fn root_buttons(self, frame: Frame) -> Seq<(Seq<char>, Rect)> {
        if self.mode == Mode::NoNotebook {
            Seq::empty()
        } else {
            seq![
                (button_label(HeaderButton::Favorite, self.favorite), frame.root.favorite),
                (button_label(HeaderButton::NewNote, self.favorite), frame.root.new_note),
                (button_label(HeaderButton::NewFolder, self.favorite), frame.root.new_folder),
                (button_label(HeaderButton::More, self.favorite), frame.root.more),
            ]
        }
    }

    /// The state's own push buttons. The states under a collapsed root are not painted.
    pub open spec fn state_buttons(self, frame: Frame) -> Seq<(Seq<char>, Rect)> {
        let boxes = crate::tree_paint::state_boxes(frame.layout.body, frame.dpi as int);
        match self.mode {
            Mode::NoNotebook => seq![(OPEN_NOTEBOOK@, boxes.button)],
            Mode::Empty if self.root_expanded => seq![(NEW_NOTE@, boxes.button)],
            Mode::Failed if self.root_expanded => seq![
                (RETRY@, boxes.button),
                (OPEN_NOTEBOOK@, boxes.second),
            ],
            _ => Seq::empty(),
        }
    }

    /// Every push button painted, in paint order, with its accessible name: the root row's star,
    /// New note, New folder and "More actions" (not in the no-notebook state), then the state's
    /// own.
    pub fn buttons(&self, frame: &Frame) -> (buttons: Vec<(String, Rect)>)
        requires
            frame.wf(),
        ensures
            named(buttons@) == self.root_buttons(*frame) + self.state_buttons(*frame),
    {
        let mut buttons: Vec<(String, Rect)> = Vec::new();
        let parts = frame.root;
        if self.mode != Mode::NoNotebook {
            buttons.push((button_name(HeaderButton::Favorite, self.favorite), parts.favorite));
            buttons.push((button_name(HeaderButton::NewNote, self.favorite), parts.new_note));
            buttons.push((button_name(HeaderButton::NewFolder, self.favorite), parts.new_folder));
            buttons.push((button_name(HeaderButton::More, self.favorite), parts.more));
        }
        assert(named(buttons@) =~= self.root_buttons(*frame));
        let boxes = state_layout(frame.layout.body, frame.dpi);
        match self.mode {
            Mode::NoNotebook => {
                buttons.push((OPEN_NOTEBOOK.to_owned(), boxes.button));
            },
            Mode::Empty => if self.root_expanded {
                buttons.push((NEW_NOTE.to_owned(), boxes.button));
            },
            Mode::Failed => if self.root_expanded {
                buttons.push((RETRY.to_owned(), boxes.button));
                buttons.push((OPEN_NOTEBOOK.to_owned(), boxes.second));
            },
            _ => {},
        }
        assert(named(buttons@) =~= self.root_buttons(*frame) + self.state_buttons(*frame));
        buttons
    }

    /// A recent notebook's accessible name, with the parent folder where two names clash.
    pub open spec fn spoken_recent(self, index: int) -> Seq<char> {
        if 0 <= index < self.recent_names.len() {
            let name = self.recent_names@[index];
            match name.hint {
                Some(hint) => name.name@ + ", "@ + hint@,
                None => name.name@,
            }
        } else {
            Seq::empty()
        }
    }

    pub fn recent_name(&self, index: usize) -> (name: String)
        ensures
            name@ == self.spoken_recent(index as int),
    {
        if index < self.recent_names.len() {
            let name = &self.recent_names[index];
            match &name.hint {
                Some(hint) => join3(name.name.as_str(), ", ", hint.as_str()),
                None => name.name.clone(),
            }
        } else {
            String::new()
        }
    }

    /// What a started drag's label shows: the dragged row's icon and name, or the tab's. None for
    /// dropped files, and for a row that is not listed.
    pub open spec fn dragged(self) -> Option<(crate::drawing::ItemModel, Seq<char>)> {
        match self.drag {
            Some(drag) if drag.started => match drag.source {
                DragSource::Row(kind) => match (
                    crate::tree_paint::item_of(crate::tree::kind_model(kind), false),
                    crate::tree::place(self.rows@, crate::tree::kind_model(kind)),
                ) {
                    (Some(item), Some(index)) => Some((item, self.rows@[index as int].name@)),
                    _ => None,
                },
                DragSource::Tab { path, .. } => Some(
                    (
                        Item::Note(crate::paths::extension_of(path@)),
                        crate::paths::name_of(path@),
                    ),
                ),
                DragSource::Files(_) => None,
            },
            _ => None,
        }
    }

    pub fn drag_label(&self) -> (label: Option<(TreeItem, String)>)
        ensures
            (match label {
                Some((item, name)) => Some((crate::drawing::item_model(item), name@)),
                None => None,
            }) == self.dragged(),
    {
        match &self.drag {
            Some(drag) => {
                if !drag.started {
                    return None;
                }
                match &drag.source {
                    DragSource::Row(kind) => match (drag_item(kind), row_index(&self.rows, kind)) {
                        (Some(item), Some(index)) => Some((item, self.rows[index].name.clone())),
                        _ => None,
                    },
                    DragSource::Tab { id: _, path } => Some(
                        (Item::Note(extension(path.as_str())), file_name(path.as_str())),
                    ),
                    DragSource::Files(_) => None,
                }
            },
            None => None,
        }
    }
}

} // verus!
