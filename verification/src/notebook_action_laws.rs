//! What the Notebook view asks for, whichever row, button or key it is asked by.

use crate::geometry::Point;
use crate::messages::{VK_LEFT, VK_RETURN, VK_RIGHT};
use crate::notebook_actions::{Act, Command, Entry, EntryModel, Press};
use crate::notebook_view::{
    Activation, Frame, HeaderButton, Hit, Mode, NotebookView, RebuildKey, RowPart,
};
use crate::panel_cursor::Cursor;
use crate::search_actions::OpenMode;
use crate::tree::{Kind, TreeRow};
use crate::tree_paint::DragSource;
use vstd::prelude::*;

verus! {

/// The row at `index` is a folder's.
pub open spec fn folder_row(view: NotebookView, index: int, folder: Seq<char>) -> bool {
    &&& view.mode == Mode::Tree
    &&& 0 <= index < view.rows.len()
    &&& crate::tree::kind_model(view.rows@[index].kind) == Kind::Folder(folder)
}

/// The row at `index` is a note's.
pub open spec fn note_row(view: NotebookView, index: int, note: Seq<char>) -> bool {
    &&& view.mode == Mode::Tree
    &&& 0 <= index < view.rows.len()
    &&& crate::tree::kind_model(view.rows@[index].kind) == Kind::Note(note)
}

/// Activating a folder's row, by a click or a key, asks for the opposite of what the row shows: a
/// collapsed folder is expanded and an expanded one collapsed, and always that folder.
pub proof fn a_folder_toggles(
    view: NotebookView,
    index: int,
    folder: Seq<char>,
    how: Activation,
    part: RowPart,
    notebook: Option<Seq<char>>,
)
    requires
        folder_row(view, index, folder),
    ensures
        !view.rows@[index].expanded ==> view.activated(index, how, notebook) == (Act::ExpandFolder {
            folder,
            expanded: true,
        }),
        view.rows@[index].expanded ==> view.activated(index, how, notebook) == (Act::ExpandFolder {
            folder,
            expanded: false,
        }),
        view.clicked(index, part, false, notebook) == view.activated(index, how, notebook),
        view.clicked(index, part, true, notebook) is Nothing,
{
}

/// Activating a note's row opens that note of the notebook. A click and Enter open it as a preview
/// and leave the keyboard in the tree; a double click opens it to stay and moves the keyboard to
/// it. Without a notebook nothing opens.
pub proof fn a_note_opens(
    view: NotebookView,
    index: int,
    note: Seq<char>,
    part: RowPart,
    root: Seq<char>,
)
    requires
        note_row(view, index, note),
        part != RowPart::Pin,
    ensures
        ({
            let path = crate::paths::joined(root, note);
            &&& view.activated(index, Activation::Enter, Some(root)) == (Act::OpenNote {
                path,
                mode: OpenMode::Preview,
                focus: false,
            })
            &&& view.activated(index, Activation::Click, Some(root)) == view.activated(
                index,
                Activation::Enter,
                Some(root),
            )
            &&& view.activated(index, Activation::Permanent, Some(root)) == (Act::OpenNote {
                path,
                mode: OpenMode::Permanent,
                focus: true,
            })
            &&& view.clicked(index, part, false, Some(root)) == view.activated(
                index,
                Activation::Click,
                Some(root),
            )
            &&& view.clicked(index, part, true, Some(root)) == view.activated(
                index,
                Activation::Permanent,
                Some(root),
            )
            &&& view.clicked(index, part, false, None) is Nothing
        }),
{
}

/// A click on a note's pin toggles that note's pin, once for a double click, and opens nothing.
pub proof fn a_pin_toggles(view: NotebookView, index: int, note: Seq<char>, root: Seq<char>)
    requires
        note_row(view, index, note),
    ensures
        view.clicked(index, RowPart::Pin, false, Some(root)) == Act::TogglePin(
            crate::paths::joined(root, note),
        ),
        view.clicked(index, RowPart::Pin, true, Some(root)) is Nothing,
        view.clicked(index, RowPart::Pin, false, None) is Nothing,
{
}

/// A recent notebook opens once, with the first press of a double click; what is no row does
/// nothing.
pub proof fn a_recent_notebook_opens(
    view: NotebookView,
    index: int,
    part: RowPart,
    how: Activation,
    notebook: Option<Seq<char>>,
)
    ensures
        view.mode == Mode::NoNotebook && 0 <= index < view.recent.len() ==> {
            &&& view.activated(index, how, notebook) == Act::OpenNotebook(view.recent@[index]@)
            &&& view.clicked(index, part, false, notebook) == Act::OpenNotebook(
                view.recent@[index]@,
            )
            &&& view.clicked(index, part, true, notebook) is Nothing
        },
        view.mode == Mode::NoNotebook && !(0 <= index < view.recent.len()) ==> view.activated(
            index,
            how,
            notebook,
        ) is Nothing,
        view.mode == Mode::Tree && !(0 <= index < view.rows.len()) ==> view.activated(
            index,
            how,
            notebook,
        ) is Nothing && view.clicked(index, part, false, notebook) is Nothing,
        view.mode != Mode::Tree && view.mode != Mode::NoNotebook ==> view.activated(
            index,
            how,
            notebook,
        ) is Nothing && view.clicked(index, part, false, notebook) is Nothing,
{
}

/// The command of a menu's line.
pub open spec fn offers(menu: Seq<EntryModel>, command: Command) -> bool {
    exists|i: int| 0 <= i < menu.len() && #[trigger] offers_at(menu, i, command)
}

pub open spec fn offers_at(menu: Seq<EntryModel>, index: int, command: Command) -> bool {
    menu[index] matches Entry::Command { command: offered, .. } && offered == command
}

/// A menu offers what a choice from it does: with the library ready and a notebook open each
/// command of a row's menu does something for that row, and a command that is not in it does
/// nothing.
pub proof fn menus_offer_what_they_do(row: TreeRow, command: Command, root: Seq<char>)
    ensures
        ({
            let menu = crate::notebook_actions::menu_of(row);
            let act = crate::notebook_actions::chosen(
                crate::tree::kind_model(row.kind),
                Some(command),
                Some(root),
                true,
            );
            offers(menu, command) <==> !(act is Nothing)
        }),
{
    let menu = crate::notebook_actions::menu_of(row);
    if row.kind is Note {
        assert(offers_at(menu, 0, Command::Open));
        assert(offers_at(menu, 1, Command::TogglePin));
        assert(offers_at(menu, 3, Command::MoveToNotebook));
        assert(offers_at(menu, 4, Command::Rename));
        assert(offers_at(menu, 5, Command::Reveal));
        assert(offers_at(menu, 7, Command::Delete));
    }
    if row.kind is Folder {
        assert(offers_at(menu, 0, Command::NewNote));
        assert(offers_at(menu, 1, Command::NewFolder));
        assert(offers_at(menu, 3, Command::Rename));
        assert(offers_at(menu, 4, Command::Reveal));
        assert(offers_at(menu, 6, Command::Delete));
    }
}

/// A menu's line with this command reads so.
pub open spec fn reads(menu: Seq<EntryModel>, command: Command, text: Seq<char>) -> bool {
    forall|i: int|
        0 <= i < menu.len() && #[trigger] offers_at(menu, i, command) ==> menu[i]->text == text
}

/// A note's menu offers to pin what is not pinned and to unpin what is; it starts with a command,
/// ends with Delete, and no separator follows another.
pub proof fn menus_are_laid_out(row: TreeRow, i: int)
    requires
        row.kind is Note || row.kind is Folder,
    ensures
        ({
            let menu = crate::notebook_actions::menu_of(row);
            &&& menu.len() > 0
            &&& offers_at(menu, menu.len() - 1, Command::Delete)
            &&& !(menu[0] is Separator)
            &&& 0 <= i < menu.len() - 1 && menu[i] is Separator ==> !(menu[i + 1] is Separator)
            &&& row.kind is Note ==> offers_at(menu, 0, Command::Open)
            &&& row.kind is Folder ==> offers_at(menu, 0, Command::NewNote)
            &&& row.kind is Note && row.pinned ==> reads(menu, Command::TogglePin, "Unpin"@)
            &&& row.kind is Note && !row.pinned ==> reads(menu, Command::TogglePin, "Pin"@)
            &&& reads(menu, Command::Rename, "Rename...\tF2"@)
            &&& reads(menu, Command::Reveal, "Reveal in Explorer"@)
            &&& reads(menu, Command::Delete, "Delete...\tDel"@)
        }),
{
}

/// A choice acts on the row whose menu it is: every path in what follows is that row's, in its
/// notebook where the program needs it whole. Nothing is deleted before the library is ready,
/// nothing is done without a choice or without a notebook.
pub proof fn a_choice_acts_on_its_row(
    path: Seq<char>,
    command: Command,
    root: Seq<char>,
    ready: bool,
)
    ensures
        ({
            let note = crate::notebook_actions::chosen(
                Kind::Note(path),
                Some(command),
                Some(root),
                ready,
            );
            let folder = crate::notebook_actions::chosen(
                Kind::Folder(path),
                Some(command),
                Some(root),
                ready,
            );
            let whole = crate::paths::joined(root, path);
            &&& command == Command::Open ==> note == (Act::OpenNote {
                path: whole,
                mode: OpenMode::Permanent,
                focus: true,
            })
            &&& command == Command::TogglePin ==> note == Act::TogglePin(whole)
            &&& command == Command::MoveToNotebook ==> note == Act::MoveToNotebook(whole)
            &&& command == Command::Rename ==> note == Act::Rename(Kind::Note(path)) && folder
                == Act::Rename(Kind::Folder(path))
            &&& command == Command::Reveal ==> note == Act::Reveal(whole) && folder == note
            &&& command == Command::Delete && ready ==> note == Act::DeleteNote(whole) && folder
                == Act::DeleteFolder(path)
            &&& command == Command::Delete && !ready ==> note is Nothing && folder is Nothing
            &&& command == Command::NewNote ==> folder == Act::NewNoteIn(path)
            &&& command == Command::NewFolder ==> folder == Act::NewFolderIn(path)
            &&& crate::notebook_actions::chosen(Kind::Note(path), None, Some(root), ready)
                is Nothing
            &&& crate::notebook_actions::chosen(Kind::Folder(path), Some(command), None, ready)
                is Nothing
            &&& crate::notebook_actions::chosen(Kind::Note(path), Some(command), None, ready)
                is Nothing
        }),
{
}

/// The notebook's own menu offers two things and does them for the notebook itself: it is revealed
/// where one is open, and closed.
pub proof fn the_notebook_menu_acts_on_the_notebook(command: Command, root: Seq<char>)
    ensures
        ({
            let act = crate::notebook_actions::more_chosen(Some(command), Some(root));
            &&& offers(crate::notebook_actions::more_entries(), command) <==> !(act is Nothing)
            &&& act is Reveal <==> command == Command::Reveal
            &&& act matches Act::Reveal(path) ==> path == root
            &&& act is CloseNotebook <==> command == Command::CloseNotebook
            &&& crate::notebook_actions::more_chosen(None, Some(root)) is Nothing
            &&& crate::notebook_actions::more_chosen(Some(Command::Reveal), None) is Nothing
        }),
{
    let menu = crate::notebook_actions::more_entries();
    assert(offers_at(menu, 0, Command::Reveal));
    assert(offers_at(menu, 1, Command::CloseNotebook));
}

/// Left collapses and Right expands a header row, whatever it was, and Enter twice leaves it as it
/// was.
pub proof fn header_keys_expand_and_collapse(expanded: bool)
    ensures
        !crate::notebook_actions::expansion_after(VK_LEFT, expanded),
        crate::notebook_actions::expansion_after(VK_RIGHT, expanded),
        crate::notebook_actions::expansion_after(VK_RETURN, expanded) != expanded,
{
}

/// Each button of the root row does what it is for, and the menu opens at its button's lower left.
pub proof fn root_buttons_do_what_they_say(frame: Frame)
    ensures
        crate::notebook_actions::clicked_button(HeaderButton::Favorite, frame) is ToggleFavorite,
        crate::notebook_actions::clicked_button(HeaderButton::NewNote, frame) is NewNote,
        crate::notebook_actions::clicked_button(HeaderButton::NewFolder, frame) is NewFolder,
        crate::notebook_actions::clicked_button(HeaderButton::More, frame) matches Act::MoreMenu(
            at,
        ) && at.x == frame.root.more.left && at.y == frame.root.more.bottom,
{
}

/// Outside the tree the view offers one way on: a notebook to open where there is none, a note to
/// make where there are none, and the load to try again where it failed. A notebook that is loaded
/// and has rows shows its tree.
pub proof fn every_state_leads_on(notebook: bool, loaded: bool, failed: bool, rows: nat)
    ensures
        ({
            let mode = crate::notebook_view::mode_from(notebook, loaded, failed, rows);
            let act = crate::notebook_actions::state_act(mode);
            &&& act is ChooseNotebook <==> !notebook
            &&& act is NewNote <==> notebook && loaded && rows == 0
            &&& act is RetryLoad <==> notebook && !loaded && failed
            &&& mode == Mode::Tree <==> notebook && loaded && rows > 0
            &&& mode == Mode::Loading <==> notebook && !loaded && !failed
        }),
{
}

/// A press moves the keyboard selection to what it is on, where that is a row of any part; a button
/// and the thumb leave it.
pub proof fn a_press_moves_the_keyboard_selection(
    view: NotebookView,
    hit: Hit,
    frame: Frame,
)
    requires
        view.wf(),
        frame.wf(),
    ensures
        ({
            let after = view.after_press(hit, frame);
            &&& hit is EditorsHeader ==> after.cursor == Cursor::EditorsHeader
            &&& hit matches Hit::Editor { index, .. } ==> after.cursor == Cursor::Editor(index)
            &&& hit is Root ==> after.cursor == Cursor::Root
            &&& hit is Row ==> after.cursor == Cursor::Tree
            &&& hit is Header || hit is StateButton || hit is SecondButton || hit is Thumb || hit
                is Empty ==> after.cursor == view.cursor
            &&& hit matches Hit::Row { index, .. } ==> (index < view.list.count ==> after.list.selected
                == Some(index))
            &&& !(hit is Row) ==> after.list == view.list
            &&& hit matches Hit::Thumb(grab) ==> after.thumb_grab == Some(grab)
            &&& !(hit is Thumb) ==> after.thumb_grab == view.thumb_grab
            &&& after.rows == view.rows && after.mode == view.mode && after.editors == view.editors
        }),
{
}

/// What a press asks for depends on what it is on: the sections toggle, a tab is shown or closed, a
/// row is clicked once, and an empty spot does nothing.
pub proof fn a_press_asks_for_what_it_is_on(
    view: NotebookView,
    frame: Frame,
    index: usize,
    part: RowPart,
    close: bool,
    notebook: Option<Seq<char>>,
    root_open: bool,
)
    ensures
        view.press_act(Hit::EditorsHeader, frame, notebook, root_open) == Act::<
            Seq<char>,
        >::ExpandEditors(!view.editors_expanded),
        view.press_act(Hit::Root, frame, notebook, root_open) == Act::<Seq<char>>::ExpandRoot(
            !root_open,
        ),
        view.press_act(Hit::Empty, frame, notebook, root_open) is Nothing,
        view.press_act(Hit::SecondButton, frame, notebook, root_open) is ChooseNotebook,
        view.press_act(Hit::Row { index, part }, frame, notebook, root_open) == view.clicked(
            index as int,
            part,
            false,
            notebook,
        ),
        index < view.editors.rows.len() ==> {
            let id = view.editors.rows@[index as int].id;
            let act = view.press_act(Hit::Editor { index, close }, frame, notebook, root_open);
            &&& close ==> act == Act::<Seq<char>>::CloseTab(id)
            &&& !close ==> act == (Act::<Seq<char>>::ActivateTab { id, focus: false })
        },
        index >= view.editors.rows.len() ==> view.press_act(
            Hit::Editor { index, close },
            frame,
            notebook,
            root_open,
        ) is Nothing,
{
}

/// A drag is armed by a press on a row's body, for that row, and by one on a tab that has a file,
/// for that tab and file; by no other press.
pub proof fn a_press_arms_a_drag_of_what_it_is_on(
    view: NotebookView,
    hit: Hit,
    index: usize,
)
    ensures
        index < view.rows.len() ==> view.press_source(Hit::Row { index, part: RowPart::Body })
            == Some(DragSource::Row(view.rows@[index as int].kind)),
        view.press_source(Hit::Row { index, part: RowPart::Pin }) is None,
        view.press_source(Hit::Row { index, part: RowPart::Chevron }) is None,
        view.press_source(Hit::Editor { index, close: true }) is None,
        index < view.editors.rows.len() ==> {
            let source = view.press_source(Hit::Editor { index, close: false });
            let row = view.editors.rows@[index as int];
            &&& source is Some <==> row.path is Some
            &&& source matches Some(DragSource::Tab { id, path }) ==> id == row.id && Some(path)
                == row.path
            &&& source is Some ==> source->0 is Tab
        },
        !(hit is Row) && !(hit is Editor) ==> view.press_source(hit) is None,
{
}

/// A press ends an open edit first, unless it is on the thumb, which alone leaves the keyboard to
/// the edit's field. Without an edit every press acts at once.
pub proof fn a_press_ends_the_edit(
    view: NotebookView,
    hit: Hit,
    editing: bool,
    press: Press<String>,
)
    requires
        view.press_begins(hit, editing, press),
    ensures
        press is Commit <==> editing && !(hit is Thumb),
        press matches Press::Commit { hit: first, .. } ==> first == hit,
        press matches Press::Now(now) ==> now == hit,
        crate::notebook_actions::gives_focus(Some(hit), editing) <==> !editing || press is Commit,
        crate::notebook_actions::gives_focus(None, editing),
{
}

/// After the edit, a press on a row goes on with the row it was on, wherever that is now, and is
/// gone with the row; a press on anything else goes on as it was.
pub proof fn a_press_follows_its_row(
    before: NotebookView,
    after: NotebookView,
    index: usize,
    part: RowPart,
)
    requires
        index < before.rows.len(),
        after.rows.len() <= usize::MAX,
    ensures
        ({
            let kind = before.hit_kind(Hit::Row { index, part });
            let now = after.hit_now(Hit::Row { index, part }, kind);
            &&& kind == Some(crate::tree::kind_model(before.rows@[index as int].kind))
            &&& now matches Some(hit) ==> hit is Row && hit->part == part && hit->Row_index
                < after.rows.len() && crate::tree::kind_key(
                crate::tree::kind_model(after.rows@[hit->Row_index as int].kind),
            ) == crate::tree::kind_key(kind->0)
            &&& now is None ==> forall|i: int|
                0 <= i < after.rows.len() ==> crate::tree::kind_key(
                    crate::tree::kind_model((#[trigger] after.rows@[i]).kind),
                ) != crate::tree::kind_key(kind->0)
            &&& after.hit_now(Hit::Root, kind) == Some(Hit::Root)
            &&& after.hit_now(Hit::Empty, None) == Some(Hit::Empty)
            &&& after.hit_now(Hit::Row { index, part }, None) is None
        }),
{
    let key = crate::tree::kind_key(crate::tree::kind_model(before.rows@[index as int].kind));
    let kinds = crate::tree::kinds(after.rows@);
    kinds.index_of_first_ensures(key);
    assert forall|i: int| 0 <= i < after.rows.len() implies kinds[i] == crate::tree::kind_key(
        crate::tree::kind_model((#[trigger] after.rows@[i]).kind),
    ) by {}
    if kinds.index_of_first(key) is None {
        assert forall|i: int| 0 <= i < after.rows.len() implies crate::tree::kind_key(
            crate::tree::kind_model((#[trigger] after.rows@[i]).kind),
        ) != key by {
            assert(kinds[i] != key);
        }
    }
}

/// A menu opens for a row of the tree and for no other, at the point of the press or under the row,
/// and the row is selected with it.
pub proof fn a_menu_opens_on_its_row(
    view: NotebookView,
    index: usize,
    at: Point,
    frame: Frame,
)
    requires
        view.wf(),
        frame.wf(),
    ensures
        ({
            let (menu, after) = view.with_menu(index, Some(at), frame);
            let (keyed, _) = view.with_menu(index, None, frame);
            &&& menu is Some <==> view.mode == Mode::Tree && index < view.rows.len()
            &&& menu matches Some((row, point)) ==> row == view.rows@[index as int] && point == at
            &&& menu is Some ==> after.list.selected == Some(index)
            &&& menu is None && view.mode != Mode::Tree ==> after == view
            &&& keyed is Some <==> menu is Some
            &&& keyed matches Some((row, point)) ==> row == view.rows@[index as int] && point
                == after.menu_point(index, frame)
        }),
{
}

/// From the keyboard a menu opens for the selected row, while the selection is on the tree.
pub proof fn the_menu_key_opens_the_selected_row(view: NotebookView, frame: Frame)
    ensures
        view.cursor == Cursor::Tree ==> view.menu_row(None, frame) == view.list.selected,
        view.cursor != Cursor::Tree ==> view.menu_row(None, frame) is None,
{
}

/// The pointer's menu opens for the row that a press there is on, and a right press selects it.
pub proof fn a_right_press_selects_the_row(view: NotebookView, frame: Frame, at: Point)
    requires
        view.wf(),
        frame.wf(),
    ensures
        ({
            let hit = view.hit(frame, at);
            let after = view.after_right_press(Some(hit), frame);
            &&& view.menu_row(Some(at), frame) is Some <==> hit is Row
            &&& view.menu_row(Some(at), frame) matches Some(index) ==> hit->Row_index == index
            &&& hit is Row ==> after.cursor == Cursor::Tree
            &&& hit is Row && hit->Row_index < view.list.count ==> after.list.selected == Some(
                hit->Row_index,
            )
            &&& !(hit is Row) ==> after == view
            &&& view.after_right_press(None, frame) == view
            &&& view.doubled(frame, at, None) is Some <==> hit is Row
        }),
{
}

/// A double click on a row opens to stay what one click on it previews.
pub proof fn a_double_click_keeps_what_it_opens(
    view: NotebookView,
    frame: Frame,
    at: Point,
    root: Seq<char>,
)
    requires
        view.hit(frame, at) is Row,
        view.hit(frame, at)->part != RowPart::Pin,
        view.press_act(view.hit(frame, at), frame, Some(root), true) is OpenNote,
    ensures
        ({
            let once = view.press_act(view.hit(frame, at), frame, Some(root), true);
            let twice = view.doubled(frame, at, Some(root));
            &&& twice matches Some(act) && act is OpenNote
            &&& twice->0->OpenNote_path == once->OpenNote_path
            &&& once->mode == OpenMode::Preview && !once->OpenNote_focus
            &&& twice->0->mode == OpenMode::Permanent && twice->0->OpenNote_focus
        }),
{
}

/// Commands act on the selected row of the tree exactly while the keyboard is there: on a note or on
/// a folder, never on both, and on neither where the selection is elsewhere.
pub proof fn commands_act_on_the_focused_row(
    view: NotebookView,
    index: usize,
    path: Seq<char>,
    root: Seq<char>,
)
    requires
        view.list.selected == Some(index),
    ensures
        note_row(view, index as int, path) && view.cursor == Cursor::Tree ==> {
            &&& view.note_in_focus(Some(root), true) == Some(crate::paths::joined(root, path))
            &&& view.folder_in_focus(true) is None
            &&& view.folder_for_new(Some(root)) == crate::paths::parent_of(
                crate::paths::joined(root, path),
            )
        },
        folder_row(view, index as int, path) && view.cursor == Cursor::Tree ==> {
            &&& view.folder_in_focus(true) == Some(path)
            &&& view.note_in_focus(Some(root), true) is None
            &&& view.folder_for_new(Some(root)) == Some(crate::paths::joined(root, path))
        },
        view.cursor != Cursor::Tree || view.mode != Mode::Tree ==> view.note_in_focus(
            Some(root),
            true,
        ) is None && view.folder_in_focus(true) is None && view.folder_for_new(Some(root)) is None,
        view.note_in_focus(Some(root), false) is None,
        view.note_in_focus(None, true) is None,
        view.folder_in_focus(false) is None,
        view.folder_for_new(None) is None,
{
}

/// A tab switch to a listed note selects its row, in view; one to anything else changes nothing.
pub proof fn the_selection_follows_the_active_tab(
    view: NotebookView,
    note: Seq<char>,
    frame: Frame,
    index: int,
)
    requires
        view.wf(),
        frame.wf(),
        view.mode == Mode::Tree,
        note_row(view, index, note),
    ensures
        ({
            let after = view.following(Some(note), frame);
            let now = crate::notebook_view::kind_at(view.rows@, after.list.selected);
            &&& view.following(None, frame) == view
            &&& now is Some && crate::tree::kind_key(now->0) == crate::tree::kind_key(
                Kind::Note(note),
            )
            &&& after.cursor == view.cursor
            &&& after.rows == view.rows
        }),
{
    let key = crate::tree::kind_key(Kind::Note(note));
    let kinds = crate::tree::kinds(view.rows@);
    kinds.index_of_first_ensures(key);
    assert(kinds[index] == key);
    assert(kinds.contains(key));
}

/// The row under edit is brought into view: a row that is renamed is selected, a draft row is only
/// scrolled to. The field is over that row, at its depth, while the tree shows.
pub proof fn the_edited_row_is_in_view(view: NotebookView, frame: Frame, index: usize)
    requires
        view.wf(),
        frame.wf(),
        view.inline.row == Some(index),
        index < view.list.count,
    ensures
        ({
            let after = view.revealing_edit(frame);
            &&& view.inline.draft is None ==> after.list.selected == Some(index)
            &&& view.inline.draft is Some ==> after.list.selected == view.list.selected
            &&& after.list.top <= index < after.list.top + after.list.page(view.page_height(frame))
            &&& after.inline == view.inline && after.rows == view.rows
            &&& after.edited_row(frame) matches Some((rect, depth)) ==> view.shows_tree() && depth
                == view.rows@[index as int].depth && Some(rect) == crate::notebook_view::row_box(
                frame.layout.body,
                after.list,
                index,
            )
            &&& view.shows_tree() && index < view.rows.len() ==> after.edited_row(frame) is Some
        }),
{
    let height = view.page_height(frame);
    let after = view.revealing_edit(frame);
    view.list.a_selected_row_is_in_view(index as int, height);
    let (rows, tall, page) = (
        index - after.list.top,
        after.list.row_height as int,
        after.list.page(height),
    );
    assert(page > 1 ==> page == height / tall);
    assert(rows * tall <= i32::MAX) by (nonlinear_arith)
        requires
            0 <= rows < page,
            page > 1 ==> page == height / tall,
            tall >= 1,
            height <= i32::MAX,
    ;
}

/// The rows are built again where the notebook, what is known of it or what is expanded changed, and
/// where they never were; not because the notebook's path is written in another case.
pub proof fn rows_are_built_again_when_something_changed(view: NotebookView, key: RebuildKey)
    requires
        view.built is Some,
    ensures
        view.built->0.loaded != key.loaded ==> view.is_stale(key),
        view.built->0.failed != key.failed ==> view.is_stale(key),
        view.built->0.expansion != key.expansion ==> view.is_stale(key),
        view.built->0.root_expanded != key.root_expanded ==> view.is_stale(key),
        (view.built->0.root is Some) != (key.root is Some) ==> view.is_stale(key),
        view.built->0.root is Some && key.root is Some && crate::paths::path_key(
            view.built->0.root->0@,
        ) != crate::paths::path_key(key.root->0@) ==> view.is_stale(key),
        !view.is_stale(view.built->0),
        (NotebookView { built: None, ..view }).is_stale(key),
{
}

/// The keyboard selection runs through the tabs' rows while their section shows, through the root
/// row of a notebook, and through the tree's rows while they show; without a notebook through the
/// recent ones.
pub proof fn the_keyboard_reaches_what_shows(view: NotebookView)
    ensures
        ({
            let shape = view.parts();
            &&& view.editors_expanded ==> shape.editors == view.editors.rows.len()
            &&& !view.editors_expanded ==> shape.editors == 0
            &&& shape.root <==> view.mode != Mode::NoNotebook
            &&& view.mode == Mode::NoNotebook ==> shape.tree == view.recent.len()
            &&& view.mode == Mode::Tree && view.root_expanded ==> shape.tree == view.rows.len()
            &&& view.mode == Mode::Tree && !view.root_expanded ==> shape.tree == 0
            &&& view.mode == Mode::Loading || view.mode == Mode::Failed || view.mode == Mode::Empty
                ==> shape.tree == 0
        }),
{
}

/// A tab row that is gone hands the keyboard selection to the last tab, or to the header where no
/// tab is left; every other selection stays.
pub proof fn a_closed_tab_hands_on_the_selection(cursor: Cursor, count: usize)
    ensures
        ({
            let kept = crate::notebook_view::kept_editor(cursor, count);
            &&& kept matches Cursor::Editor(index) ==> index < count
            &&& cursor matches Cursor::Editor(index) ==> {
                &&& index < count ==> kept == cursor
                &&& index >= count && count > 0 ==> (kept matches Cursor::Editor(last) && last + 1
                    == count)
                &&& count == 0 ==> kept == Cursor::EditorsHeader
            }
            &&& !(cursor is Editor) ==> kept == cursor
        }),
{
}

/// A rebuild moves the keyboard selection only off what no longer shows: from the tree to the root
/// row that hides it, from a gone root row and from a hidden tab to the header above.
pub proof fn a_rebuild_keeps_the_selection_that_shows(
    cursor: Cursor,
    mode: Mode,
    root_expanded: bool,
    editors_expanded: bool,
)
    ensures
        ({
            let settled = crate::notebook_view::settled_cursor(
                cursor,
                mode,
                root_expanded,
                editors_expanded,
            );
            &&& cursor == Cursor::Tree && mode == Mode::Tree && !root_expanded ==> settled
                == Cursor::Root
            &&& cursor == Cursor::Tree && !(mode == Mode::Tree && !root_expanded) ==> settled
                == cursor
            &&& cursor == Cursor::Root ==> settled == (if mode == Mode::NoNotebook {
                Cursor::EditorsHeader
            } else {
                cursor
            })
            &&& cursor is Editor ==> settled == (if editors_expanded {
                cursor
            } else {
                Cursor::EditorsHeader
            })
            &&& cursor == Cursor::EditorsHeader ==> settled == cursor
        }),
{
}

/// A rebuild loses the drag of a row that is no longer listed, or that another notebook lists; a
/// dragged tab or file is never lost. A target that is no longer listed is forgotten, and the root
/// never is.
pub proof fn a_rebuild_loses_only_drags_of_gone_rows(view: NotebookView, root_changed: bool)
    ensures
        view.drag is None ==> !view.loses_drag(root_changed) && view.drag_after() is None,
        view.drag matches Some(drag) ==> {
            &&& !(drag.source is Row) ==> !view.loses_drag(root_changed)
            &&& drag.source is Row && root_changed ==> view.loses_drag(root_changed)
            &&& drag.source matches DragSource::Row(kind) ==> (!root_changed ==> (
            view.loses_drag(root_changed) <==> !crate::tree::kinds(view.rows@).contains(
                crate::tree::kind_key(crate::tree::kind_model(kind)),
            )))
            &&& view.drag_after() matches Some(after) && after.resting is None && after.source
                == drag.source && after.origin == drag.origin && after.started == drag.started
            &&& drag.target is None ==> view.drag_after()->0.target is None
            &&& drag.target matches Some(folder) ==> {
                &&& folder@.len() == 0 ==> view.drag_after()->0.target == drag.target
                &&& folder@.len() > 0 ==> (view.drag_after()->0.target is None
                    <==> !crate::tree::kinds(view.rows@).contains(
                    crate::tree::kind_key(Kind::Folder(folder@)),
                ))
            }
        },
{
    if let Some(drag) = view.drag {
        if let DragSource::Row(kind) = drag.source {
            crate::tree::kinds(view.rows@).index_of_first_ensures(
                crate::tree::kind_key(crate::tree::kind_model(kind)),
            );
        }
        if let Some(folder) = drag.target {
            crate::tree::kinds(view.rows@).index_of_first_ensures(
                crate::tree::kind_key(Kind::Folder(folder@)),
            );
        }
    }
}

} // verus!
