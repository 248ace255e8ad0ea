//! The Notebook view's keyboard: the arrows run one selection through the header rows, the open
//! editors and the tree; other keys act on the row they are on, and letters search the tree.

use crate::geometry::height;
use crate::messages::{VK_DELETE, VK_F2, VK_LEFT, VK_RETURN, VK_RIGHT};
use crate::notebook_actions::{expanded_after, Act, NotebookAct};
use crate::notebook_view::{Activation, Frame, Mode, NotebookView, Target};
use crate::panel_cursor::{self, Cursor};
use crate::paths::join;
use crate::row_list::{ListKey, RowListState};
use crate::tree::{parent_index, Kind};
use vstd::prelude::*;
use vstd::string::*;

verus! {

/// What the keys depend on besides the view: the open notebook, whether Ctrl is down, whether the
/// library is ready, and which sections are set to be expanded.
#[derive(Debug)]
pub struct KeySetting {
    pub notebook: Option<String>,
    pub ctrl: bool,
    pub ready: bool,
    pub editors_open: bool,
    pub root_open: bool,
}

/// The keys that act on a row: the panel keeps them even where they do nothing.
pub open spec fn acts(key: u32) -> bool {
    key == VK_RETURN || key == VK_LEFT || key == VK_RIGHT || key == VK_F2 || key == VK_DELETE
}

fn is_acting(key: u32) -> (acting: bool)
    ensures
        acting == acts(key),
{
    match key {
        VK_RETURN | VK_LEFT | VK_RIGHT | VK_F2 | VK_DELETE => true,
        _ => false,
    }
}

/// A header row after a key: what it is to be, if that is a change.
pub open spec fn toggled(key: u32, expanded: bool) -> Option<bool> {
    if key == VK_RETURN {
        Some(!expanded)
    } else if key == VK_LEFT && expanded {
        Some(false)
    } else if key == VK_RIGHT && !expanded {
        Some(true)
    } else {
        None
    }
}

/// What a letter typed at `now` does: what it makes of the letters before it, and where the search
/// for them starts.
pub open spec fn typing(
    before: NotebookView,
    after: NotebookView,
    ch: char,
    now: u64,
    search: Option<(String, usize)>,
) -> bool {
    &&& after == (NotebookView { typed: after.typed, ..before })
    &&& if before.shows_tree() {
        let prefix = before.typed.prefix(ch, now);
        &&& after.typed.text@ == prefix
        &&& after.typed.at == Some(now)
        &&& search matches Some((text, from)) && text@ == prefix && from == (
        match before.list.selected {
            Some(selected) => if prefix.len() == 1 {
                selected + 1
            } else {
                selected as int
            },
            None => 0,
        })
    } else {
        search is None && after.typed == before.typed
    }
}

impl NotebookView {
    /// The view with the row that a search for letters found selected.
    pub open spec fn finding(self, index: usize, frame: Frame) -> NotebookView {
        (NotebookView { cursor: Cursor::Tree, ..self }).selecting(index as int, frame)
    }

    /// An Up or Down in a list with nothing selected yet selects a row in view, as one list does.
    pub open spec fn own_list(self, key: ListKey) -> bool {
        self.cursor == Cursor::Tree && self.parts().tree > 0 && self.list.selected is None && (key
            == ListKey::Up || key == ListKey::Down)
    }

    /// The view after a page key on an Open Editors row: the keyboard selection pages through the
    /// rows, and the list's own selection, the active tab's row, stays.
    pub open spec fn paged_editors(self, index: usize, key: ListKey, tall: int) -> NotebookView {
        let paged = (RowListState { selected: Some(index), ..self.editors.list }).after_key(key, tall);
        NotebookView {
            editors: crate::open_editors::OpenEditors {
                list: RowListState { selected: self.editors.list.selected, ..paged },
                ..self.editors
            },
            cursor: Cursor::Editor(
                match paged.selected {
                    Some(moved) => moved,
                    None => index,
                },
            ),
            ..self
        }
    }

    /// The view with the keyboard selection moved to a row, which is in view.
    pub open spec fn moved_to(self, cursor: Cursor, tree: Option<usize>, frame: Frame) -> NotebookView {
        let moved = NotebookView { cursor, ..self };
        let selected = match tree {
            Some(index) => moved.selecting(index as int, frame),
            None => moved,
        };
        match cursor {
            Cursor::Editor(index) => NotebookView {
                editors: crate::open_editors::OpenEditors {
                    list: selected.editors.list.showing(
                        index as int,
                        frame.layout.editors_list.tall(),
                    ),
                    ..selected.editors
                },
                ..selected
            },
            _ => selected,
        }
    }

    /// The view after a list key.
    pub open spec fn list_keyed(self, key: ListKey, frame: Frame) -> NotebookView {
        if self.own_list(key) {
            NotebookView { list: self.list.after_key(key, self.page_height(frame)), ..self }
        } else {
            match self.parts().moved(self.cursor, self.list.selected, key) {
                Some((cursor, tree)) => self.moved_to(cursor, tree, frame),
                None => match self.cursor {
                    Cursor::Tree => NotebookView {
                        list: self.list.after_key(key, self.page_height(frame)),
                        ..self
                    },
                    Cursor::Editor(index) => self.paged_editors(
                        index,
                        key,
                        frame.layout.editors_list.tall(),
                    ),
                    _ => self,
                },
            }
        }
    }

    fn page_editors(&mut self, index: usize, key: ListKey, frame: &Frame)
        requires
            old(self).wf(),
            frame.wf(),
            index < old(self).editors.rows.len(),
        ensures
            final(self).wf(),
            *final(self) == old(self).paged_editors(
                index,
                key,
                frame.layout.editors_list.tall(),
            ),
    {
        let mut list: RowListState = self.editors.list;
        let active: Option<usize> = list.selected;
        list.selected = Some(index);
        let _ = list.move_selection(key, height(frame.layout.editors_list));
        let moved: usize = match list.selected {
            Some(moved) => moved,
            None => index,
        };
        list.selected = active;
        self.editors.list = list;
        self.cursor = Cursor::Editor(moved);
    }

    fn move_to(&mut self, cursor: Cursor, tree: Option<usize>, frame: &Frame)
        requires
            old(self).wf(),
            frame.wf(),
            cursor matches Cursor::Editor(index) ==> index < old(self).editors.rows.len(),
        ensures
            final(self).wf(),
            *final(self) == old(self).moved_to(cursor, tree, *frame),
    {
        let tall: i32 = self.list_height(frame);
        let mut list: RowListState = self.list;
        if let Some(index) = tree {
            list.select(index, tall);
        }
        let mut editors: RowListState = self.editors.list;
        if let Cursor::Editor(index) = cursor {
            editors.ensure_visible(index, height(frame.layout.editors_list));
        }
        self.cursor = cursor;
        self.list = list;
        self.editors.list = editors;
    }

    fn list_key(&mut self, key: ListKey, frame: &Frame)
        requires
            old(self).wf(),
            frame.wf(),
        ensures
            final(self).wf(),
            *final(self) == old(self).list_keyed(key, *frame),
    {
        let shape = self.shape();
        let up_or_down: bool = match key {
            ListKey::Up => true,
            ListKey::Down => true,
            _ => false,
        };
        if self.cursor == Cursor::Tree && shape.tree > 0 && self.list.selected.is_none()
            && up_or_down {
            let tall: i32 = self.list_height(frame);
            let _ = self.list.move_selection(key, tall);
            return;
        }
        match panel_cursor::step(self.cursor, self.list.selected, key, shape) {
            Some((cursor, tree)) => {
                proof {
                    crate::panel_cursor::a_move_lands_on_a_row(
                        shape,
                        self.cursor,
                        self.list.selected,
                        key,
                    );
                }
                self.move_to(cursor, tree, frame);
            },
            None => {
                match self.cursor {
                    Cursor::Tree => {
                        let tall: i32 = self.list_height(frame);
                        let _ = self.list.move_selection(key, tall);
                    },
                    Cursor::Editor(index) => {
                        self.page_editors(index, key, frame);
                    },
                    _ => {},
                }
            },
        }
    }

    /// What a key does on a header row or an Open Editors row. F2 and Del do nothing there: they
    /// act on tree rows only.
    pub open spec fn section_act(self, key: u32, setting: KeySetting) -> Option<
        crate::notebook_actions::ActModel,
    > {
        if !acts(key) {
            None
        } else {
            Some(
                match self.cursor {
                    Cursor::Editor(index) if key == VK_RETURN && index < self.editors.rows.len() => {
                        Act::ActivateTab { id: self.editors.rows@[index as int].id, focus: true }
                    },
                    Cursor::EditorsHeader => match toggled(key, setting.editors_open) {
                        Some(expanded) => Act::ExpandEditors(expanded),
                        None => Act::Nothing,
                    },
                    Cursor::Root if setting.notebook is Some => match toggled(
                        key,
                        setting.root_open,
                    ) {
                        Some(expanded) => Act::ExpandRoot(expanded),
                        None => Act::Nothing,
                    },
                    _ => Act::Nothing,
                },
            )
        }
    }

    fn section_key(&self, key: u32, setting: &KeySetting) -> (act: Option<NotebookAct>)
        ensures
            crate::notebook_actions::maybe_act(act) == self.section_act(key, *setting),
    {
        if !is_acting(key) {
            return None;
        }
        let toggles: bool = match key {
            VK_RETURN | VK_LEFT | VK_RIGHT => true,
            _ => false,
        };
        Some(
            match self.cursor {
                Cursor::Editor(index) => if key == VK_RETURN && index < self.editors.rows.len() {
                    Act::ActivateTab { id: self.editors.rows[index].id, focus: true }
                } else {
                    Act::Nothing
                },
                Cursor::EditorsHeader => {
                    let wanted: bool = expanded_after(key, setting.editors_open);
                    if toggles && wanted != setting.editors_open {
                        Act::ExpandEditors(wanted)
                    } else {
                        Act::Nothing
                    }
                },
                Cursor::Root => {
                    let wanted: bool = expanded_after(key, setting.root_open);
                    if setting.notebook.is_some() && toggles && wanted != setting.root_open {
                        Act::ExpandRoot(wanted)
                    } else {
                        Act::Nothing
                    }
                },
                Cursor::Tree => Act::Nothing,
            },
        )
    }

    /// Right expands a folder, or moves into an expanded one.
    pub open spec fn righted(self, index: usize, frame: Frame) -> (
        NotebookView,
        crate::notebook_actions::ActModel,
    ) {
        match self.at(index as int) {
            Target::Row(row) => match row.kind {
                Kind::Folder(folder) => if !row.expanded {
                    (self, Act::ExpandFolder { folder: folder@, expanded: true })
                } else if index + 1 < self.rows.len() && self.rows@[index + 1].depth > row.depth {
                    (self.selecting(index + 1, frame), Act::Nothing)
                } else {
                    (self, Act::Nothing)
                },
                _ => (self, Act::Nothing),
            },
            _ => (self, Act::Nothing),
        }
    }

    fn right(&mut self, index: usize, frame: &Frame) -> (act: NotebookAct)
        requires
            old(self).wf(),
            frame.wf(),
        ensures
            final(self).wf(),
            (*final(self), crate::notebook_actions::act_model(act)) == old(self).righted(
                index,
                *frame,
            ),
    {
        match self.target(index) {
            Target::Row(row) => match row.kind {
                Kind::Folder(folder) => {
                    if !row.expanded {
                        return Act::ExpandFolder { folder, expanded: true };
                    }
                    if index < self.rows.len() - 1 && self.rows[index + 1].depth > row.depth {
                        self.select(index + 1, frame);
                    }
                    Act::Nothing
                },
                _ => Act::Nothing,
            },
            _ => Act::Nothing,
        }
    }

    /// The row that row `index` lies under.
    pub open spec fn parent_row(self, index: usize) -> Option<usize> {
        if exists|parent: int| #[trigger] crate::tree::is_parent(self.rows@, parent, index as int) {
            Some(
                (choose|parent: int| #[trigger]
                    crate::tree::is_parent(self.rows@, parent, index as int)) as usize,
            )
        } else {
            None
        }
    }

    /// Left collapses an expanded folder, or moves to the parent folder; a top-level row's parent
    /// is the notebook's root row.
    pub open spec fn lefted(self, index: usize, frame: Frame) -> (
        NotebookView,
        crate::notebook_actions::ActModel,
    ) {
        match self.at(index as int) {
            Target::Row(row) => match row.kind {
                Kind::Folder(folder) if row.expanded => (
                    self,
                    Act::ExpandFolder { folder: folder@, expanded: false },
                ),
                _ => match self.parent_row(index) {
                    Some(parent) => (self.selecting(parent as int, frame), Act::Nothing),
                    None => (NotebookView { cursor: Cursor::Root, ..self }, Act::Nothing),
                },
            },
            _ => (self, Act::Nothing),
        }
    }

    fn left(&mut self, index: usize, frame: &Frame) -> (act: NotebookAct)
        requires
            old(self).wf(),
            frame.wf(),
        ensures
            final(self).wf(),
            (*final(self), crate::notebook_actions::act_model(act)) == old(self).lefted(
                index,
                *frame,
            ),
    {
        match self.target(index) {
            Target::Row(row) => {
                if let Kind::Folder(folder) = row.kind {
                    if row.expanded {
                        return Act::ExpandFolder { folder, expanded: false };
                    }
                }
                match parent_index(&self.rows, index) {
                    Some(parent) => {
                        self.select(parent, frame);
                    },
                    None => {
                        self.cursor = Cursor::Root;
                    },
                }
                Act::Nothing
            },
            _ => Act::Nothing,
        }
    }

    /// F2 renames the selected row, Del deletes it, once the library is ready.
    pub open spec fn edit_act(self, index: usize, key: u32, setting: KeySetting) -> crate::notebook_actions::ActModel {
        match (self.at(index as int), setting.notebook) {
            (Target::Row(row), Some(root)) => match row.kind {
                Kind::Note(path) => if key == VK_F2 {
                    Act::Rename(Kind::Note(path@))
                } else if setting.ready {
                    Act::DeleteNote(crate::paths::joined(root@, path@))
                } else {
                    Act::Nothing
                },
                Kind::Folder(path) => if key == VK_F2 {
                    Act::Rename(Kind::Folder(path@))
                } else if setting.ready {
                    Act::DeleteFolder(path@)
                } else {
                    Act::Nothing
                },
                _ => Act::Nothing,
            },
            _ => Act::Nothing,
        }
    }

    fn edit_key(&self, index: usize, key: u32, setting: &KeySetting) -> (act: NotebookAct)
        ensures
            crate::notebook_actions::act_model(act) == self.edit_act(index, key, *setting),
    {
        match (self.target(index), &setting.notebook) {
            (Target::Row(row), Some(root)) => match row.kind {
                Kind::Note(path) => if key == VK_F2 {
                    Act::Rename(Kind::Note(path))
                } else if setting.ready {
                    Act::DeleteNote(join(root.as_str(), path.as_str()))
                } else {
                    Act::Nothing
                },
                Kind::Folder(path) => if key == VK_F2 {
                    Act::Rename(Kind::Folder(path))
                } else if setting.ready {
                    Act::DeleteFolder(path)
                } else {
                    Act::Nothing
                },
                _ => Act::Nothing,
            },
            _ => Act::Nothing,
        }
    }

    /// The view after a key that acts on tree row `index`, and what it does.
    pub open spec fn row_keyed(self, index: usize, key: u32, setting: KeySetting, frame: Frame) -> (
        NotebookView,
        crate::notebook_actions::ActModel,
    ) {
        if key == VK_RETURN {
            (
                self,
                self.activated(
                    index as int,
                    if setting.ctrl {
                        Activation::Permanent
                    } else {
                        Activation::Enter
                    },
                    crate::text::maybe(setting.notebook),
                ),
            )
        } else if key == VK_RIGHT {
            self.righted(index, frame)
        } else if key == VK_LEFT {
            self.lefted(index, frame)
        } else {
            (self, self.edit_act(index, key, setting))
        }
    }

    fn row_key(&mut self, index: usize, key: u32, setting: &KeySetting, frame: &Frame) -> (act: NotebookAct)
        requires
            old(self).wf(),
            frame.wf(),
        ensures
            final(self).wf(),
            (*final(self), crate::notebook_actions::act_model(act)) == old(self).row_keyed(
                index,
                key,
                *setting,
                *frame,
            ),
    {
        match key {
            VK_RETURN => {
                let how: Activation = if setting.ctrl {
                    Activation::Permanent
                } else {
                    Activation::Enter
                };
                self.activate(index, how, &setting.notebook)
            },
            VK_RIGHT => self.right(index, frame),
            VK_LEFT => self.left(index, frame),
            _ => self.edit_key(index, key, setting),
        }
    }

    /// The view after a key, and what it does; none for a key left to the panel. A tree row that
    /// the collapsed root hides is not acted on.
    pub open spec fn keyed(self, key: u32, setting: KeySetting, frame: Frame) -> (
        NotebookView,
        Option<crate::notebook_actions::ActModel>,
    ) {
        match ListKey::of_virtual_key(key) {
            Some(list_key) => (self.list_keyed(list_key, frame), Some(Act::Nothing)),
            None => if self.cursor != Cursor::Tree {
                (self, self.section_act(key, setting))
            } else if !acts(key) {
                (self, None)
            } else {
                match self.list.selected {
                    Some(index) if !(self.mode == Mode::Tree && !self.root_expanded) => {
                        let (view, act) = self.row_keyed(index, key, setting, frame);
                        (view, Some(act))
                    },
                    _ => (self, Some(Act::Nothing)),
                }
            },
        }
    }

    pub fn key_down(&mut self, key: u32, setting: &KeySetting, frame: &Frame) -> (act: Option<NotebookAct>)
        requires
            old(self).wf(),
            frame.wf(),
        ensures
            final(self).wf(),
            (*final(self), crate::notebook_actions::maybe_act(act)) == old(self).keyed(
                key,
                *setting,
                *frame,
            ),
    {
        if let Some(list_key) = ListKey::from_virtual_key(key) {
            self.list_key(list_key, frame);
            return Some(Act::Nothing);
        }
        if self.cursor != Cursor::Tree {
            return self.section_key(key, setting);
        }
        if !is_acting(key) {
            return None;
        }
        let hidden: bool = self.tree_hidden();
        match self.list.selected {
            Some(index) => if hidden {
                Some(Act::Nothing)
            } else {
                Some(self.row_key(index, key, setting, frame))
            },
            None => Some(Act::Nothing),
        }
    }

    /// A letter typed at `now`, in milliseconds: the prefix to search the rows for, and the row to
    /// search from. A single letter searches from the row after the selection, so that repeating
    /// it steps through the matches. None while no tree shows.
    pub fn typed(&mut self, ch: char, now: u64) -> (search: Option<(String, usize)>)
        requires
            old(self).wf(),
            old(self).typed.at matches Some(at) ==> at <= now,
        ensures
            final(self).wf(),
            typing(*old(self), *final(self), ch, now, search),
    {
        if !self.tree_shown() {
            return None;
        }
        let prefix: String = self.typed.push(ch, now);
        let single: bool = prefix.as_str().unicode_len() == 1;
        let from: usize = match self.list.selected {
            Some(selected) => if single {
                selected + 1
            } else {
                selected
            },
            None => 0,
        };
        Some((prefix, from))
    }

    /// The search for typed letters found row `index`.
    pub fn found(&mut self, index: usize, frame: &Frame)
        requires
            old(self).wf(),
            frame.wf(),
        ensures
            final(self).wf(),
            *final(self) == old(self).finding(index, *frame),
    {
        self.cursor = Cursor::Tree;
        self.select(index, frame);
    }
}

} // verus!
