//! What clicks, menus and keys do in the Notebook view: each changes the selection where it should
//! and names what the program does next.

use crate::document::DocumentId;
use crate::geometry::Point;
use crate::messages::{VK_LEFT, VK_RIGHT};
use crate::notebook_view::{Activation, Frame, HeaderButton, Hit, Mode, NotebookView, RowPart, Target};
use crate::panel_cursor::Cursor;
use crate::paths::join;
use crate::search_actions::OpenMode;
use crate::tree::{copy_kind, row_index, Kind, RowKind, TreeRow};
use crate::tree_paint::DragSource;
use vstd::prelude::*;
use vstd::string::*;

verus! {

/// What the program does next, over paths of type `T`.
#[derive(Debug, PartialEq, Eq)]
pub enum Act<T> {
    Nothing,
    /// Ask for a notebook and open it.
    ChooseNotebook,
    OpenNotebook(T),
    RetryLoad,
    CloseNotebook,
    ToggleFavorite,
    NewNote,
    NewFolder,
    NewNoteIn(T),
    NewFolderIn(T),
    /// The notebook's own menu, at a point.
    MoreMenu(Point),
    OpenNote { path: T, mode: OpenMode, focus: bool },
    ExpandFolder { folder: T, expanded: bool },
    ExpandEditors(bool),
    ExpandRoot(bool),
    /// Switch to a tab; `focus` gives the editor the keyboard too.
    ActivateTab { id: DocumentId, focus: bool },
    CloseTab(DocumentId),
    TogglePin(T),
    MoveToNotebook(T),
    Rename(Kind<T>),
    Reveal(T),
    DeleteNote(T),
    DeleteFolder(T),
    /// Capture the pointer: the scroll thumb is dragged.
    GrabThumb,
}

pub type NotebookAct = Act<String>;

pub type ActModel = Act<Seq<char>>;

/// The action, its paths as characters.
pub open spec fn act_model(act: NotebookAct) -> ActModel {
    match act {
        Act::Nothing => Act::Nothing,
        Act::ChooseNotebook => Act::ChooseNotebook,
        Act::OpenNotebook(path) => Act::OpenNotebook(path@),
        Act::RetryLoad => Act::RetryLoad,
        Act::CloseNotebook => Act::CloseNotebook,
        Act::ToggleFavorite => Act::ToggleFavorite,
        Act::NewNote => Act::NewNote,
        Act::NewFolder => Act::NewFolder,
        Act::NewNoteIn(folder) => Act::NewNoteIn(folder@),
        Act::NewFolderIn(folder) => Act::NewFolderIn(folder@),
        Act::MoreMenu(at) => Act::MoreMenu(at),
        Act::OpenNote { path, mode, focus } => Act::OpenNote { path: path@, mode, focus },
        Act::ExpandFolder { folder, expanded } => Act::ExpandFolder { folder: folder@, expanded },
        Act::ExpandEditors(expanded) => Act::ExpandEditors(expanded),
        Act::ExpandRoot(expanded) => Act::ExpandRoot(expanded),
        Act::ActivateTab { id, focus } => Act::ActivateTab { id, focus },
        Act::CloseTab(id) => Act::CloseTab(id),
        Act::TogglePin(path) => Act::TogglePin(path@),
        Act::MoveToNotebook(path) => Act::MoveToNotebook(path@),
        Act::Rename(kind) => Act::Rename(crate::tree::kind_model(kind)),
        Act::Reveal(path) => Act::Reveal(path@),
        Act::DeleteNote(path) => Act::DeleteNote(path@),
        Act::DeleteFolder(folder) => Act::DeleteFolder(folder@),
        Act::GrabThumb => Act::GrabThumb,
    }
}

pub open spec fn maybe_act(act: Option<NotebookAct>) -> Option<ActModel> {
    match act {
        Some(act) => Some(act_model(act)),
        None => None,
    }
}

/// The menus' commands.
#[derive(Clone, Copy, Debug, PartialEq, Eq, Structural)]
pub enum Command {
    Open,
    TogglePin,
    MoveToNotebook,
    Rename,
    Reveal,
    Delete,
    NewNote,
    NewFolder,
    CloseNotebook,
}

/// One line of a menu, over texts of type `T`.
#[derive(Debug, PartialEq, Eq)]
pub enum Entry<T> {
    Command { text: T, command: Command },
    Separator,
}

pub type MenuEntry = Entry<String>;

pub type EntryModel = Entry<Seq<char>>;

pub open spec fn entry_model(entry: MenuEntry) -> EntryModel {
    match entry {
        Entry::Command { text, command } => Entry::Command { text: text@, command },
        Entry::Separator => Entry::Separator,
    }
}

pub open spec fn entries(menu: Seq<MenuEntry>) -> Seq<EntryModel> {
    menu.map_values(|entry: MenuEntry| entry_model(entry))
}

pub open spec fn line(text: Seq<char>, command: Command) -> EntryModel {
    Entry::Command { text, command }
}

fn entry(text: &str, command: Command) -> (entry: MenuEntry)
    ensures
        entry_model(entry) == line(text@, command),
{
    Entry::Command { text: text.to_owned(), command }
}

/// A row's menu: a note's, a folder's, or none.
pub open spec fn menu_of(row: TreeRow) -> Seq<EntryModel> {
    match row.kind {
        Kind::Note(_) => seq![
            line("Open in new tab"@, Command::Open),
            line(
                if row.pinned {
                    "Unpin"@
                } else {
                    "Pin"@
                },
                Command::TogglePin,
            ),
            Entry::Separator,
            line("Move to notebook...\tCtrl+Shift+M"@, Command::MoveToNotebook),
            line("Rename...\tF2"@, Command::Rename),
            line("Reveal in Explorer"@, Command::Reveal),
            Entry::Separator,
            line("Delete...\tDel"@, Command::Delete),
        ],
        Kind::Folder(_) => seq![
            line("New note here"@, Command::NewNote),
            line("New folder here"@, Command::NewFolder),
            Entry::Separator,
            line("Rename...\tF2"@, Command::Rename),
            line("Reveal in Explorer"@, Command::Reveal),
            Entry::Separator,
            line("Delete...\tDel"@, Command::Delete),
        ],
        _ => Seq::empty(),
    }
}

pub fn row_menu(row: &TreeRow) -> (menu: Vec<MenuEntry>)
    ensures
        entries(menu@) == menu_of(*row),
{
    let mut menu: Vec<MenuEntry> = Vec::new();
    match &row.kind {
        Kind::Note(_) => {
            menu.push(entry("Open in new tab", Command::Open));
            let pin: &str = if row.pinned {
                "Unpin"
            } else {
                "Pin"
            };
            menu.push(entry(pin, Command::TogglePin));
            menu.push(Entry::Separator);
            menu.push(entry("Move to notebook...\tCtrl+Shift+M", Command::MoveToNotebook));
            menu.push(entry("Rename...\tF2", Command::Rename));
            menu.push(entry("Reveal in Explorer", Command::Reveal));
            menu.push(Entry::Separator);
            menu.push(entry("Delete...\tDel", Command::Delete));
        },
        Kind::Folder(_) => {
            menu.push(entry("New note here", Command::NewNote));
            menu.push(entry("New folder here", Command::NewFolder));
            menu.push(Entry::Separator);
            menu.push(entry("Rename...\tF2", Command::Rename));
            menu.push(entry("Reveal in Explorer", Command::Reveal));
            menu.push(Entry::Separator);
            menu.push(entry("Delete...\tDel", Command::Delete));
        },
        _ => {},
    }
    assert(entries(menu@) =~= menu_of(*row));
    menu
}

/// What a choice from a row's menu does: it acts on that row, not on the active tab. Deleting
/// needs the library ready; without a notebook nothing is done.
pub open spec fn chosen(
    kind: crate::tree::KindModel,
    command: Option<Command>,
    notebook: Option<Seq<char>>,
    ready: bool,
) -> ActModel {
    match (kind, command, notebook) {
        (Kind::Note(relative), Some(command), Some(root)) => {
            let path = crate::paths::joined(root, relative);
            match command {
                Command::Open => Act::OpenNote { path, mode: OpenMode::Permanent, focus: true },
                Command::TogglePin => Act::TogglePin(path),
                Command::MoveToNotebook => Act::MoveToNotebook(path),
                Command::Rename => Act::Rename(kind),
                Command::Reveal => Act::Reveal(path),
                Command::Delete if ready => Act::DeleteNote(path),
                _ => Act::Nothing,
            }
        },
        (Kind::Folder(relative), Some(command), Some(root)) => match command {
            Command::NewNote => Act::NewNoteIn(relative),
            Command::NewFolder => Act::NewFolderIn(relative),
            Command::Rename => Act::Rename(kind),
            Command::Reveal => Act::Reveal(crate::paths::joined(root, relative)),
            Command::Delete if ready => Act::DeleteFolder(relative),
            _ => Act::Nothing,
        },
        _ => Act::Nothing,
    }
}

pub fn menu_choice(kind: &RowKind, command: Option<Command>, notebook: &Option<String>, ready: bool) -> (act:
    NotebookAct)
    ensures
        act_model(act) == chosen(
            crate::tree::kind_model(*kind),
            command,
            crate::text::maybe(*notebook),
            ready,
        ),
{
    let (command, root): (Command, &String) = match (command, notebook) {
        (Some(command), Some(root)) => (command, root),
        _ => {
            return Act::Nothing;
        },
    };
    match kind {
        Kind::Note(relative) => {
            let path: String = join(root.as_str(), relative.as_str());
            match command {
                Command::Open => Act::OpenNote { path, mode: OpenMode::Permanent, focus: true },
                Command::TogglePin => Act::TogglePin(path),
                Command::MoveToNotebook => Act::MoveToNotebook(path),
                Command::Rename => Act::Rename(copy_kind(kind)),
                Command::Reveal => Act::Reveal(path),
                Command::Delete => if ready {
                    Act::DeleteNote(path)
                } else {
                    Act::Nothing
                },
                _ => Act::Nothing,
            }
        },
        Kind::Folder(relative) => match command {
            Command::NewNote => Act::NewNoteIn(relative.clone()),
            Command::NewFolder => Act::NewFolderIn(relative.clone()),
            Command::Rename => Act::Rename(copy_kind(kind)),
            Command::Reveal => Act::Reveal(join(root.as_str(), relative.as_str())),
            Command::Delete => if ready {
                Act::DeleteFolder(relative.clone())
            } else {
                Act::Nothing
            },
            _ => Act::Nothing,
        },
        _ => Act::Nothing,
    }
}

/// The notebook's own actions.
pub open spec fn more_entries() -> Seq<EntryModel> {
    seq![line("Reveal in Explorer"@, Command::Reveal), line("Close notebook"@, Command::CloseNotebook)]
}

pub fn more_menu() -> (menu: Vec<MenuEntry>)
    ensures
        entries(menu@) == more_entries(),
{
    let mut menu: Vec<MenuEntry> = Vec::new();
    menu.push(entry("Reveal in Explorer", Command::Reveal));
    menu.push(entry("Close notebook", Command::CloseNotebook));
    assert(entries(menu@) =~= more_entries());
    menu
}

/// What a choice from the notebook's own menu comes to.
pub open spec fn more_chosen(command: Option<Command>, notebook: Option<Seq<char>>) -> ActModel {
    match (command, notebook) {
        (Some(Command::Reveal), Some(root)) => Act::Reveal(root),
        (Some(Command::CloseNotebook), _) => Act::CloseNotebook,
        _ => Act::Nothing,
    }
}

/// What a choice from the notebook's own menu does.
pub fn more_choice(command: Option<Command>, notebook: &Option<String>) -> (act: NotebookAct)
    ensures
        act_model(act) == more_chosen(command, crate::text::maybe(*notebook)),
{
    match command {
        Some(Command::Reveal) => match notebook {
            Some(root) => Act::Reveal(root.clone()),
            None => Act::Nothing,
        },
        Some(Command::CloseNotebook) => Act::CloseNotebook,
        _ => Act::Nothing,
    }
}

/// Whether a header row is expanded after a key.
pub open spec fn expansion_after(key: u32, expanded: bool) -> bool {
    if key == VK_LEFT {
        false
    } else if key == VK_RIGHT {
        true
    } else {
        !expanded
    }
}

/// Whether a header row is expanded after a key: Left collapses it, Right expands it, Enter toggles
/// it.
pub fn expanded_after(key: u32, expanded: bool) -> (after: bool)
    ensures
        after == expansion_after(key, expanded),
{
    match key {
        VK_LEFT => false,
        VK_RIGHT => true,
        _ => !expanded,
    }
}

/// The root row's buttons.
pub fn header_clicked(button: HeaderButton, frame: &Frame) -> (act: NotebookAct)
    ensures
        act_model(act) == clicked_button(button, *frame),
{
    match button {
        HeaderButton::Favorite => Act::ToggleFavorite,
        HeaderButton::NewNote => Act::NewNote,
        HeaderButton::NewFolder => Act::NewFolder,
        HeaderButton::More => Act::MoreMenu(
            Point { x: frame.root.more.left, y: frame.root.more.bottom },
        ),
    }
}

/// What a root row button does; the notebook's own menu opens under its button.
pub open spec fn clicked_button(button: HeaderButton, frame: Frame) -> ActModel {
    match button {
        HeaderButton::Favorite => Act::ToggleFavorite,
        HeaderButton::NewNote => Act::NewNote,
        HeaderButton::NewFolder => Act::NewFolder,
        HeaderButton::More => Act::MoreMenu(
            Point { x: frame.root.more.left, y: frame.root.more.bottom },
        ),
    }
}

/// What the state's own button does.
pub open spec fn state_act(mode: Mode) -> ActModel {
    match mode {
        Mode::NoNotebook => Act::ChooseNotebook,
        Mode::Empty => Act::NewNote,
        Mode::Failed => Act::RetryLoad,
        _ => Act::Nothing,
    }
}

/// What a press does before it acts: an inline edit that is open ends first, unless the press is on
/// the scroll thumb, which only scrolls.
#[derive(Debug, PartialEq, Eq)]
pub enum Press<T> {
    Now(Hit),
    /// End the edit; the row that was hit is then looked up again.
    Commit { hit: Hit, kind: Option<Kind<T>> },
}

/// What a left press does: an action, and then the drag it arms.
#[derive(Debug)]
pub struct Pressed {
    pub act: NotebookAct,
    pub source: Option<DragSource>,
}

/// Where the keyboard selection goes with a press. A root row button leaves it: New note and New
/// folder still go to the tree's selected folder.
pub open spec fn pressed_cursor(hit: Hit) -> Option<Cursor> {
    match hit {
        Hit::EditorsHeader => Some(Cursor::EditorsHeader),
        Hit::Editor { index, .. } => Some(Cursor::Editor(index)),
        Hit::Root => Some(Cursor::Root),
        Hit::Row { .. } => Some(Cursor::Tree),
        _ => None,
    }
}

fn cursor_of(hit: Hit) -> (cursor: Option<Cursor>)
    ensures
        cursor == pressed_cursor(hit),
{
    match hit {
        Hit::EditorsHeader => Some(Cursor::EditorsHeader),
        Hit::Editor { index, close: _ } => Some(Cursor::Editor(index)),
        Hit::Root => Some(Cursor::Root),
        Hit::Row { index: _, part: _ } => Some(Cursor::Tree),
        _ => None,
    }
}

/// The panel has the keyboard focus after a press.
pub open spec fn gives_focus(hit: Option<Hit>, editing: bool) -> bool {
    !(editing && hit matches Some(Hit::Thumb(_)))
}

/// Whether a press gives the panel the keyboard focus: not one on the scroll thumb while an inline
/// edit is open, whose field keeps it.
pub fn takes_focus(hit: Option<Hit>, editing: bool) -> (takes: bool)
    ensures
        takes == gives_focus(hit, editing),
{
    match hit {
        Some(Hit::Thumb(_)) => !editing,
        _ => true,
    }
}

impl NotebookView {
    /// Opens or toggles row `index`: a folder toggles, a note opens, and a recent notebook opens. A
    /// click or Enter keeps the keyboard in the tree and opens the preview tab.
    pub open spec fn activated(self, index: int, how: Activation, notebook: Option<Seq<char>>) -> ActModel {
        match self.at(index) {
            Target::Recent(folder) => Act::OpenNotebook(folder@),
            Target::Row(row) => match (row.kind, notebook) {
                (Kind::Folder(relative), _) => Act::ExpandFolder {
                    folder: relative@,
                    expanded: !row.expanded,
                },
                (Kind::Note(relative), Some(root)) => Act::OpenNote {
                    path: crate::paths::joined(root, relative@),
                    mode: if how == Activation::Permanent {
                        OpenMode::Permanent
                    } else {
                        OpenMode::Preview
                    },
                    focus: how == Activation::Permanent,
                },
                _ => Act::Nothing,
            },
            _ => Act::Nothing,
        }
    }

    pub fn activate(&self, index: usize, how: Activation, notebook: &Option<String>) -> (act: NotebookAct)
        ensures
            act_model(act) == self.activated(index as int, how, crate::text::maybe(*notebook)),
    {
        match self.target(index) {
            Target::Recent(folder) => Act::OpenNotebook(folder),
            Target::Row(row) => match (row.kind, notebook) {
                (Kind::Folder(relative), _) => Act::ExpandFolder {
                    folder: relative,
                    expanded: !row.expanded,
                },
                (Kind::Note(relative), Some(root)) => {
                    let (mode, focus): (OpenMode, bool) = match how {
                        Activation::Click => (OpenMode::Preview, false),
                        Activation::Enter => (OpenMode::Preview, false),
                        Activation::Permanent => (OpenMode::Permanent, true),
                    };
                    Act::OpenNote { path: join(root.as_str(), relative.as_str()), mode, focus }
                },
                _ => Act::Nothing,
            },
            _ => Act::Nothing,
        }
    }

    /// A press on row `index`. `double` is the second press of a double-click, whose first press
    /// already toggled a pin or a folder, or started opening a recent notebook.
    pub open spec fn clicked(self, index: int, part: RowPart, double: bool, notebook: Option<Seq<char>>) -> ActModel {
        match self.at(index) {
            Target::Row(TreeRow { kind: Kind::Note(relative), .. }) if part == RowPart::Pin => {
                match notebook {
                    Some(root) if !double => Act::TogglePin(
                        crate::paths::joined(root, relative@),
                    ),
                    _ => Act::Nothing,
                }
            },
            Target::Row(TreeRow { kind: Kind::Folder(_), .. }) if double => Act::Nothing,
            Target::Recent(_) if double => Act::Nothing,
            _ => self.activated(
                index,
                if double {
                    Activation::Permanent
                } else {
                    Activation::Click
                },
                notebook,
            ),
        }
    }

    pub fn row_clicked(&self, index: usize, part: RowPart, double: bool, notebook: &Option<String>) -> (act:
        NotebookAct)
        ensures
            act_model(act) == self.clicked(
                index as int,
                part,
                double,
                crate::text::maybe(*notebook),
            ),
    {
        match self.target(index) {
            Target::Row(row) => match row.kind {
                Kind::Note(relative) => if part == RowPart::Pin {
                    return match notebook {
                        Some(root) => if !double {
                            Act::TogglePin(join(root.as_str(), relative.as_str()))
                        } else {
                            Act::Nothing
                        },
                        None => Act::Nothing,
                    };
                },
                Kind::Folder(_) => if double {
                    return Act::Nothing;
                },
                _ => {},
            },
            Target::Recent(_) => if double {
                return Act::Nothing;
            },
            _ => {},
        }
        let how: Activation = if double {
            Activation::Permanent
        } else {
            Activation::Click
        };
        self.activate(index, how, notebook)
    }

    /// The state's own button.
    pub fn state_button(&self) -> (act: NotebookAct)
        ensures
            act_model(act) == state_act(self.mode),
    {
        match self.mode {
            Mode::NoNotebook => Act::ChooseNotebook,
            Mode::Empty => Act::NewNote,
            Mode::Failed => Act::RetryLoad,
            _ => Act::Nothing,
        }
    }

    /// The row whose menu opens and where, and the view after it.
    pub open spec fn with_menu(self, index: usize, at: Option<Point>, frame: Frame) -> (
        Option<(TreeRow, Point)>,
        NotebookView,
    ) {
        if self.mode == Mode::Tree {
            let after = self.selecting(index as int, frame);
            (
                if index < self.rows.len() {
                    Some(
                        (
                            self.rows@[index as int],
                            match at {
                                Some(at) => at,
                                None => after.menu_point(index, frame),
                            },
                        ),
                    )
                } else {
                    None
                },
                after,
            )
        } else {
            (None, self)
        }
    }

    /// Row `index`'s menu: the row is selected, and the menu opens at `at`, or under the row when
    /// opened from the keyboard. None outside a tree, or for what is not a row.
    pub fn open_context_menu(&mut self, index: usize, at: Option<Point>, frame: &Frame) -> (menu: Option<
        (TreeRow, Point),
    >)
        requires
            old(self).wf(),
            frame.wf(),
        ensures
            final(self).wf(),
            *final(self) == old(self).with_menu(index, at, *frame).1,
            menu == old(self).with_menu(index, at, *frame).0,
    {
        if self.mode != Mode::Tree {
            return None;
        }
        self.select(index, frame);
        let point: Point = match at {
            Some(at) => at,
            None => self.row_menu_point(index, frame),
        };
        if index < self.rows.len() {
            Some((self.rows[index].clone(), point))
        } else {
            None
        }
    }

    /// Which row's menu opens, if any's.
    pub open spec fn menu_row(self, at: Option<Point>, frame: Frame) -> Option<usize> {
        match at {
            Some(at) => match self.hit(frame, at) {
                Hit::Row { index, .. } => Some(index),
                _ => None,
            },
            None => if self.cursor == Cursor::Tree {
                self.list.selected
            } else {
                None
            },
        }
    }

    /// The row whose menu opens: from the keyboard the tree's selected row, else the row at a
    /// point.
    pub fn context_row(&self, at: Option<Point>, frame: &Frame) -> (index: Option<usize>)
        requires
            self.wf(),
            frame.wf(),
            at matches Some(at) ==> crate::notebook_view::near(at),
        ensures
            index == self.menu_row(at, *frame),
    {
        match at {
            Some(at) => match self.hit_test(frame, at) {
                Hit::Row { index, part: _ } => Some(index),
                _ => None,
            },
            None => if self.cursor == Cursor::Tree {
                self.list.selected
            } else {
                None
            },
        }
    }

    /// What a row hit landed on.
    pub open spec fn hit_kind(self, hit: Hit) -> Option<crate::tree::KindModel> {
        match hit {
            Hit::Row { index, .. } => crate::notebook_view::kind_at(self.rows@, Some(index)),
            _ => None,
        }
    }

    /// How a press on `hit` begins.
    pub open spec fn press_begins(self, hit: Hit, editing: bool, press: Press<String>) -> bool {
        match press {
            Press::Now(now) => now == hit && (!editing || hit is Thumb),
            Press::Commit { hit: first, kind } => first == hit && editing && !(hit is Thumb)
                && crate::tree::maybe_kind(kind) == self.hit_kind(hit),
        }
    }

    /// What a press at a point does first.
    pub fn press(&self, frame: &Frame, at: Point, editing: bool) -> (press: Press<String>)
        requires
            self.wf(),
            frame.wf(),
            crate::notebook_view::near(at),
        ensures
            self.press_begins(self.hit(*frame, at), editing, press),
    {
        let hit: Hit = self.hit_test(frame, at);
        let thumb: bool = match hit {
            Hit::Thumb(_) => true,
            _ => false,
        };
        if !editing || thumb {
            return Press::Now(hit);
        }
        let kind: Option<RowKind> = match hit {
            Hit::Row { index, part: _ } => if index < self.rows.len() {
                Some(copy_kind(&self.rows[index].kind))
            } else {
                None
            },
            _ => None,
        };
        Press::Commit { hit, kind }
    }

    /// What a press is on once the edit it ended has moved the rows.
    pub open spec fn hit_now(self, hit: Hit, kind: Option<crate::tree::KindModel>) -> Option<Hit> {
        match hit {
            Hit::Row { part, .. } => match kind {
                Some(kind) => match crate::tree::place(self.rows@, kind) {
                    Some(index) => Some(Hit::Row { index, part }),
                    None => None,
                },
                None => None,
            },
            _ => Some(hit),
        }
    }

    /// What a press is on after the edit it ended: a row hit follows the row it landed on to
    /// wherever the commit moved it, and is gone with a row that went (the draft row, or the row
    /// just renamed).
    pub fn hit_after_commit(&self, hit: Hit, kind: &Option<RowKind>) -> (after: Option<Hit>)
        ensures
            after == self.hit_now(hit, crate::tree::maybe_kind(*kind)),
    {
        match hit {
            Hit::Row { index: _, part } => match kind {
                Some(kind) => match row_index(&self.rows, kind) {
                    Some(index) => Some(Hit::Row { index, part }),
                    None => None,
                },
                None => None,
            },
            _ => Some(hit),
        }
    }

    /// The view after a left press on `hit`: the keyboard selection follows it, a row is selected,
    /// and the thumb is grabbed.
    pub open spec fn after_press(self, hit: Hit, frame: Frame) -> NotebookView {
        let moved = NotebookView {
            cursor: match pressed_cursor(hit) {
                Some(cursor) => cursor,
                None => self.cursor,
            },
            ..self
        };
        match hit {
            Hit::Thumb(grab) => NotebookView { thumb_grab: Some(grab), ..moved },
            Hit::Row { index, .. } => moved.selecting(index as int, frame),
            _ => moved,
        }
    }

    /// What a left press on `hit` does.
    pub open spec fn press_act(
        self,
        hit: Hit,
        frame: Frame,
        notebook: Option<Seq<char>>,
        root_open: bool,
    ) -> ActModel {
        match hit {
            Hit::EditorsHeader => Act::ExpandEditors(!self.editors_expanded),
            Hit::Editor { index, close } => if index >= self.editors.rows.len() {
                Act::Nothing
            } else if close {
                Act::CloseTab(self.editors.rows@[index as int].id)
            } else {
                Act::ActivateTab { id: self.editors.rows@[index as int].id, focus: false }
            },
            Hit::Root => Act::ExpandRoot(!root_open),
            Hit::Header(button) => clicked_button(button, frame),
            Hit::StateButton => state_act(self.mode),
            Hit::SecondButton => Act::ChooseNotebook,
            Hit::Thumb(_) => Act::GrabThumb,
            Hit::Row { index, part } => self.clicked(index as int, part, false, notebook),
            Hit::Empty => Act::Nothing,
        }
    }

    /// What a left press on `hit` arms a drag of: a row's body, or a tab with a file.
    pub open spec fn press_source(self, hit: Hit) -> Option<DragSource> {
        match hit {
            Hit::Editor { index, close } if !close && index < self.editors.rows.len() => {
                let row = self.editors.rows@[index as int];
                match row.path {
                    Some(path) => Some(DragSource::Tab { id: row.id, path }),
                    None => None,
                }
            },
            Hit::Row { index, part } if part == RowPart::Body && index < self.rows.len() => Some(
                DragSource::Row(self.rows@[index as int].kind),
            ),
            _ => None,
        }
    }

    fn pressed_source(&self, hit: Hit) -> (source: Option<DragSource>)
        ensures
            source == self.press_source(hit),
    {
        match hit {
            Hit::Editor { index, close } => if !close && index < self.editors.rows.len() {
                let row = &self.editors.rows[index];
                match &row.path {
                    Some(path) => Some(DragSource::Tab { id: row.id, path: path.clone() }),
                    None => None,
                }
            } else {
                None
            },
            Hit::Row { index, part } => if part == RowPart::Body && index < self.rows.len() {
                Some(DragSource::Row(copy_kind(&self.rows[index].kind)))
            } else {
                None
            },
            _ => None,
        }
    }

    fn pressed_act(&self, hit: Hit, frame: &Frame, notebook: &Option<String>, root_open: bool) -> (act:
        NotebookAct)
        ensures
            act_model(act) == self.press_act(
                hit,
                *frame,
                crate::text::maybe(*notebook),
                root_open,
            ),
    {
        match hit {
            Hit::EditorsHeader => Act::ExpandEditors(!self.editors_expanded),
            Hit::Editor { index, close } => if index >= self.editors.rows.len() {
                Act::Nothing
            } else if close {
                Act::CloseTab(self.editors.rows[index].id)
            } else {
                Act::ActivateTab { id: self.editors.rows[index].id, focus: false }
            },
            Hit::Root => Act::ExpandRoot(!root_open),
            Hit::Header(button) => header_clicked(button, frame),
            Hit::StateButton => self.state_button(),
            Hit::SecondButton => Act::ChooseNotebook,
            Hit::Thumb(_) => Act::GrabThumb,
            Hit::Row { index, part } => self.row_clicked(index, part, false, notebook),
            Hit::Empty => Act::Nothing,
        }
    }

    /// A left press on `hit`, an open edit already ended. What it does is carried out first; then
    /// `source` is armed as a drag. It is read here, before: opening a note or toggling a folder
    /// can move rows, and a tab may close. `root_open` is set while the notebook's root is
    /// expanded.
    pub fn left_down(&mut self, hit: Hit, frame: &Frame, notebook: &Option<String>, root_open: bool) -> (pressed:
        Pressed)
        requires
            old(self).wf(),
            frame.wf(),
            hit matches Hit::Editor { index, .. } ==> index < old(self).editors.rows.len(),
        ensures
            final(self).wf(),
            *final(self) == old(self).after_press(hit, *frame),
            act_model(pressed.act) == old(self).press_act(
                hit,
                *frame,
                crate::text::maybe(*notebook),
                root_open,
            ),
            pressed.source == old(self).press_source(hit),
    {
        let act: NotebookAct = self.pressed_act(hit, frame, notebook, root_open);
        let source: Option<DragSource> = self.pressed_source(hit);
        if let Some(cursor) = cursor_of(hit) {
            self.cursor = cursor;
        }
        match hit {
            Hit::Thumb(grab) => {
                self.thumb_grab = Some(grab);
            },
            Hit::Row { index, part: _ } => {
                self.select(index, frame);
            },
            _ => {},
        }
        Pressed { act, source }
    }

    /// What the second press of a double-click does, where it is on a row.
    pub open spec fn doubled(self, frame: Frame, at: Point, notebook: Option<Seq<char>>) -> Option<
        ActModel,
    > {
        match self.hit(frame, at) {
            Hit::Row { index, part } => Some(self.clicked(index as int, part, true, notebook)),
            _ => None,
        }
    }

    /// The second press of a double-click on a row opens it in a tab of its own. Anywhere else
    /// (none here) it is one more press.
    pub fn double_click(&self, frame: &Frame, at: Point, notebook: &Option<String>) -> (act: Option<
        NotebookAct,
    >)
        requires
            self.wf(),
            frame.wf(),
            crate::notebook_view::near(at),
        ensures
            maybe_act(act) == self.doubled(*frame, at, crate::text::maybe(*notebook)),
    {
        match self.hit_test(frame, at) {
            Hit::Row { index, part } => Some(self.row_clicked(index, part, true, notebook)),
            _ => None,
        }
    }

    /// The view after a right press.
    pub open spec fn after_right_press(self, hit: Option<Hit>, frame: Frame) -> NotebookView {
        match hit {
            Some(Hit::Row { index, .. }) => (NotebookView {
                cursor: Cursor::Tree,
                ..self
            }).selecting(index as int, frame),
            _ => self,
        }
    }

    /// A right press on a row selects it; its menu opens with the release.
    pub fn right_pressed(&mut self, hit: Option<Hit>, frame: &Frame)
        requires
            old(self).wf(),
            frame.wf(),
        ensures
            final(self).wf(),
            *final(self) == old(self).after_right_press(hit, *frame),
    {
        if let Some(Hit::Row { index, part: _ }) = hit {
            self.cursor = Cursor::Tree;
            self.select(index, frame);
        }
    }
}

} // verus!
