//! What keys, letters, drags and the pointer do in the Notebook view, whatever it shows.

use crate::geometry::{Point, Rect};
use crate::messages::{VK_DELETE, VK_F2, VK_LEFT, VK_RETURN, VK_RIGHT};
use crate::notebook_action_laws::{folder_row, note_row};
use crate::notebook_actions::Act;
use crate::notebook_drag::{DragMove, Dropped, ExternalDrop, ExternalOver};
use crate::notebook_hits::{ADD_FAVORITE, REMOVE_FAVORITE};
use crate::notebook_keys::KeySetting;
use crate::notebook_view::{
    Activation, Frame, HeaderButton, Hit, Hover, Mode, NotebookView, RootParts, RowPart,
};
use crate::panel_cursor::Cursor;
use crate::row_list::ListKey;
use crate::tree::{Kind, TreeRow};
use crate::tree_paint::{DragSource, TypeAhead};
use vstd::prelude::*;

verus! {

/// Right on a collapsed folder expands it and Left on an expanded one collapses it; Right on an
/// expanded one goes to what it holds, and Left on a collapsed one to the row it lies under, the
/// root row at the top.
pub proof fn arrows_open_and_close_folders(
    view: NotebookView,
    index: usize,
    folder: Seq<char>,
    frame: Frame,
)
    requires
        view.wf(),
        frame.wf(),
        folder_row(view, index as int, folder),
    ensures
        ({
            let row = view.rows@[index as int];
            let (right, opened) = view.righted(index, frame);
            let (left, closed) = view.lefted(index, frame);
            &&& !row.expanded ==> opened == (Act::ExpandFolder { folder, expanded: true }) && right
                == view
            &&& row.expanded ==> closed == (Act::ExpandFolder { folder, expanded: false }) && left
                == view
            &&& row.expanded ==> opened is Nothing
            &&& !row.expanded ==> closed is Nothing
            &&& row.expanded && index + 1 < view.rows.len() && view.rows@[index + 1].depth
                > row.depth ==> right.list.selected == Some((index + 1) as usize)
            &&& row.expanded && !(index + 1 < view.rows.len() && view.rows@[index + 1].depth
                > row.depth) ==> right == view
        }),
{
    view.list.a_selected_row_is_in_view(index + 1, view.page_height(frame));
}

/// Left on a row that is no expanded folder goes to the row it lies under, the nearest above that
/// is less deep; where there is none, to the root row. The rows stay as they are.
pub proof fn left_goes_to_the_parent(
    view: NotebookView,
    index: usize,
    parent: usize,
    frame: Frame,
)
    requires
        view.wf(),
        frame.wf(),
        view.mode == Mode::Tree,
        index < view.rows.len(),
        !(view.rows@[index as int].kind is Folder && view.rows@[index as int].expanded),
    ensures
        crate::tree::is_parent(view.rows@, parent as int, index as int) ==> view.lefted(
            index,
            frame,
        ).0.list.selected == Some(parent),
        (forall|above: int| !#[trigger] crate::tree::is_parent(view.rows@, above, index as int))
            ==> view.lefted(index, frame).0.cursor == Cursor::Root,
        view.lefted(index, frame).1 is Nothing,
        view.lefted(index, frame).0.rows == view.rows,
{
    if crate::tree::is_parent(view.rows@, parent as int, index as int) {
        let chosen = choose|above: int| #[trigger]
            crate::tree::is_parent(view.rows@, above, index as int);
        assert(chosen == parent) by {
            if chosen < parent {
                assert(view.rows@[parent as int].depth >= view.rows@[index as int].depth);
            }
            if parent < chosen {
                assert(view.rows@[chosen].depth >= view.rows@[index as int].depth);
            }
        }
        view.list.a_selected_row_is_in_view(parent as int, view.page_height(frame));
    }
}

/// F2 renames and Del deletes the row itself, a note by its whole path; nothing is deleted before
/// the library is ready, and neither key does anything without a notebook.
pub proof fn edit_keys_act_on_the_row(
    view: NotebookView,
    index: usize,
    path: Seq<char>,
    setting: KeySetting,
)
    ensures
        note_row(view, index as int, path) && setting.notebook is Some ==> {
            &&& view.edit_act(index, VK_F2, setting) == Act::Rename(Kind::Note(path))
            &&& setting.ready ==> view.edit_act(index, VK_DELETE, setting) == Act::DeleteNote(
                crate::paths::joined(setting.notebook->0@, path),
            )
            &&& !setting.ready ==> view.edit_act(index, VK_DELETE, setting) is Nothing
        },
        folder_row(view, index as int, path) && setting.notebook is Some ==> {
            &&& view.edit_act(index, VK_F2, setting) == Act::Rename(Kind::Folder(path))
            &&& setting.ready ==> view.edit_act(index, VK_DELETE, setting) == Act::DeleteFolder(
                path,
            )
            &&& !setting.ready ==> view.edit_act(index, VK_DELETE, setting) is Nothing
        },
        setting.notebook is None ==> view.edit_act(index, VK_F2, setting) is Nothing
            && view.edit_act(index, VK_DELETE, setting) is Nothing,
{
}

/// Enter on the selected row activates it, with Ctrl to stay; the arrows and the edit keys act on
/// it too. While the root hides the tree, and with nothing selected, none of them does anything.
pub proof fn keys_act_on_the_selected_row(
    view: NotebookView,
    index: usize,
    setting: KeySetting,
    frame: Frame,
)
    requires
        view.cursor == Cursor::Tree,
    ensures
        ({
            let enter = view.keyed(VK_RETURN, setting, frame);
            let how = if setting.ctrl {
                Activation::Permanent
            } else {
                Activation::Enter
            };
            let hidden = view.mode == Mode::Tree && !view.root_expanded;
            &&& view.list.selected == Some(index) && !hidden ==> {
                &&& enter == (
                    view,
                    Some(view.activated(index as int, how, crate::text::maybe(setting.notebook))),
                )
                &&& view.keyed(VK_F2, setting, frame) == (
                    view,
                    Some(view.edit_act(index, VK_F2, setting)),
                )
                &&& view.keyed(VK_DELETE, setting, frame) == (
                    view,
                    Some(view.edit_act(index, VK_DELETE, setting)),
                )
                &&& view.keyed(VK_RIGHT, setting, frame).0 == view.righted(index, frame).0
                &&& view.keyed(VK_LEFT, setting, frame).0 == view.lefted(index, frame).0
            }
            &&& view.list.selected is None || hidden ==> enter == (
                view,
                Some(Act::<Seq<char>>::Nothing),
            )
        }),
{
}

/// On a header row Enter toggles its section, and Left and Right collapse and expand it where that
/// is a change; on a tab's row Enter goes to the tab. F2 and Del do nothing on either.
pub proof fn keys_act_on_the_sections(
    view: NotebookView,
    setting: KeySetting,
    frame: Frame,
    index: usize,
)
    ensures
        view.cursor == Cursor::EditorsHeader ==> {
            let open = setting.editors_open;
            &&& view.keyed(VK_RETURN, setting, frame).1 == Some(
                Act::<Seq<char>>::ExpandEditors(!open),
            )
            &&& open ==> view.keyed(VK_LEFT, setting, frame).1 == Some(
                Act::<Seq<char>>::ExpandEditors(false),
            ) && view.keyed(VK_RIGHT, setting, frame).1 == Some(Act::<Seq<char>>::Nothing)
            &&& !open ==> view.keyed(VK_RIGHT, setting, frame).1 == Some(
                Act::<Seq<char>>::ExpandEditors(true),
            ) && view.keyed(VK_LEFT, setting, frame).1 == Some(Act::<Seq<char>>::Nothing)
        },
        view.cursor == Cursor::Root && setting.notebook is Some ==> {
            let open = setting.root_open;
            &&& view.keyed(VK_RETURN, setting, frame).1 == Some(Act::<Seq<char>>::ExpandRoot(!open))
            &&& open ==> view.keyed(VK_LEFT, setting, frame).1 == Some(
                Act::<Seq<char>>::ExpandRoot(false),
            ) && view.keyed(VK_RIGHT, setting, frame).1 == Some(Act::<Seq<char>>::Nothing)
            &&& !open ==> view.keyed(VK_RIGHT, setting, frame).1 == Some(
                Act::<Seq<char>>::ExpandRoot(true),
            ) && view.keyed(VK_LEFT, setting, frame).1 == Some(Act::<Seq<char>>::Nothing)
        },
        view.cursor == Cursor::Editor(index) && index < view.editors.rows.len() ==> view.keyed(
            VK_RETURN,
            setting,
            frame,
        ).1 == Some(
            Act::<Seq<char>>::ActivateTab {
                id: view.editors.rows@[index as int].id,
                focus: true,
            },
        ),
        view.cursor != Cursor::Tree ==> view.keyed(VK_F2, setting, frame) == (
            view,
            Some(Act::<Seq<char>>::Nothing),
        ) && view.keyed(VK_DELETE, setting, frame) == (view, Some(Act::<Seq<char>>::Nothing)),
        view.cursor != Cursor::Tree ==> view.keyed(VK_RETURN, setting, frame).0 == view,
{
}

/// Moving the keyboard selection to a tree row selects it, and moving it to a tab's row brings that
/// into view; the active tab stays the section's selection.
pub proof fn the_keyboard_selection_is_in_view(
    view: NotebookView,
    tree: usize,
    editor: usize,
    frame: Frame,
)
    requires
        view.wf(),
        frame.wf(),
        tree < view.list.count,
        editor < view.editors.rows.len(),
    ensures
        ({
            let row = view.moved_to(Cursor::Tree, Some(tree), frame);
            let tab = view.moved_to(Cursor::Editor(editor), None, frame);
            let tall = frame.layout.editors_list.tall();
            &&& row.cursor == Cursor::Tree && row.list.selected == Some(tree)
            &&& tab.cursor == Cursor::Editor(editor)
            &&& tab.list == view.list
            &&& tab.editors.list.selected == view.editors.list.selected
            &&& tab.editors.list.top <= editor < tab.editors.list.top + tab.editors.list.page(tall)
            &&& row.editors == view.editors
        }),
{
    let tall = frame.layout.editors_list.tall();
    view.list.a_selected_row_is_in_view(tree as int, view.page_height(frame));
    view.editors.list.a_selected_row_is_in_view(editor as int, tall);
}

/// A page key on a tab's row pages through the tabs and leaves the active one the section's
/// selection.
pub proof fn paging_tabs_moves_the_keyboard_alone(
    view: NotebookView,
    index: usize,
    key: ListKey,
    tall: int,
)
    requires
        view.wf(),
        index < view.editors.rows.len(),
        tall <= i32::MAX,
    ensures
        ({
            let after = view.paged_editors(index, key, tall);
            let list = crate::row_list::RowListState {
                selected: Some(index),
                ..view.editors.list
            };
            &&& after.editors.list.selected == view.editors.list.selected
            &&& after.cursor matches Cursor::Editor(moved) && Some(moved) == list.after_key(
                key,
                tall,
            ).selected && moved < view.editors.rows.len()
            &&& after.list == view.list && after.editors.rows == view.editors.rows
        }),
{
    let list = crate::row_list::RowListState { selected: Some(index), ..view.editors.list };
    crate::row_list_laws::a_key_keeps_the_selection_in_view(list, key, tall);
}

/// Letters typed in quick succession make a longer prefix, and after a pause a new one; one letter
/// searches from the row after the selection, so that it steps on, and more from the selection
/// itself. Nothing is searched while no tree shows.
pub proof fn letters_search_from_the_selection(
    before: NotebookView,
    after: NotebookView,
    ch: char,
    now: u64,
    search: Option<(String, usize)>,
    selected: usize,
)
    requires
        before.wf(),
        before.typed.at matches Some(at) ==> at <= now,
        crate::notebook_keys::typing(before, after, ch, now, search),
    ensures
        search is Some <==> before.mode == Mode::Tree && before.root_expanded,
        search matches Some((text, from)) ==> {
            &&& text@.len() > 0 && text@.last() == ch
            &&& before.list.selected == Some(selected) && text@.len() == 1 ==> from == selected + 1
            &&& before.list.selected == Some(selected) && text@.len() > 1 ==> from == selected
            &&& before.list.selected is None ==> from == 0
            &&& after.typed.text@ == text@
        },
        after.list == before.list && after.rows == before.rows && after.cursor == before.cursor,
{
}

/// The letters typed so far grow with each letter that comes soon enough, and start over with one
/// that does not.
pub proof fn a_pause_starts_a_new_prefix(typed: TypeAhead, ch: char, now: u64, at: u64)
    requires
        typed.at == Some(at),
        at <= now,
    ensures
        now - at < 1000 ==> typed.prefix(ch, now) == typed.text@ + seq![ch],
        now - at >= 1000 ==> typed.prefix(ch, now) == seq![ch],
        (TypeAhead { at: None, ..typed }).prefix(ch, now) == seq![ch],
{
}

/// A row that letters found is selected and has the keyboard.
pub proof fn a_found_row_is_selected(view: NotebookView, index: usize, frame: Frame)
    requires
        view.wf(),
        frame.wf(),
        index < view.list.count,
    ensures
        view.finding(index, frame).cursor == Cursor::Tree,
        view.finding(index, frame).list.selected == Some(index),
{
    view.list.a_selected_row_is_in_view(index as int, view.page_height(frame));
}

/// A release moves a dragged row, and copies a dragged tab's file, into the folder it was let go
/// over; without such a folder, and from outside, nothing is dropped. An armed drag drops nothing.
pub proof fn a_release_drops_what_was_dragged(
    view: NotebookView,
    at: Point,
    folder: String,
    resting: Option<String>,
)
    requires
        view.drag is Some,
    ensures
        ({
            let drag = view.drag->0;
            let over = view.targeting(at, Some(folder), resting);
            let off = view.targeting(at, None, resting);
            &&& !drag.started ==> over.release_drops() is None && off.release_drops() is None
            &&& drag.started ==> off.release_drops() == Some(Dropped::<Seq<char>>::Nowhere)
            &&& drag.started ==> (drag.source matches DragSource::Row(kind)
                ==> over.release_drops() == Some(
                Dropped::Move { kind: crate::tree::kind_model(kind), folder: folder@ },
            ))
            &&& drag.started ==> (drag.source matches DragSource::Tab { id, path }
                ==> over.release_drops() == Some(
                Dropped::Copy { id, path: path@, folder: folder@ },
            ))
            &&& drag.started && drag.source is Files ==> over.release_drops() == Some(
                Dropped::<Seq<char>>::Nowhere,
            )
            &&& over.without_drag().release_drops() is None
            &&& over.drag->0.pointer == at && over.drag->0.source == drag.source
                && over.drag->0.started == drag.started
        }),
{
}

/// A press arms a drag of a note's or a folder's row, of a tab and of files, but of no other row,
/// and of nothing while a name is edited; it starts nothing yet.
pub proof fn a_press_arms_a_drag(
    view: NotebookView,
    source: DragSource,
    at: Point,
    kind: Kind<String>,
)
    ensures
        view.arming(source, at, true) == view,
        !view.arming(source, at, false).dragging(),
        view.arming(source, at, false).drag is Some <==> !(source matches DragSource::Row(kind)
            && !(kind is Note || kind is Folder)),
        view.arming(source, at, false).drag matches Some(drag) ==> drag.source == source
            && drag.origin == at && drag.target is None,
        view.arming(source, at, false).release_drops() is None,
{
}

/// A drag under way goes on while the button is down and ends without it; it is targeted again
/// where it is, and an armed one never is.
pub proof fn a_drag_goes_on_while_the_button_is_down(view: NotebookView, past: bool)
    ensures
        view.dragging() ==> view.drag_moved(true, past) == (view, DragMove::Moved),
        view.dragging() ==> view.drag_moved(false, past).1 == DragMove::Cancelled,
        !view.dragging() ==> view.drag_moved(false, past).1 == DragMove::Ignored,
        view.drag_moved(false, past).0.drag is None,
        view.targeted_again() is Some <==> view.dragging(),
        view.targeted_again() matches Some((point, outside)) ==> point == view.drag->0.pointer
            && outside == (view.drag->0.source is Files),
        view.drag_moved(true, true).1 == DragMove::Started ==> view.drag_moved(
            true,
            true,
        ).0.list.hover is None && view.drag_moved(true, true).0.hover is None,
{
}

/// A right press cancels a drag, and then its own release opens no menu; without a drag it ends a
/// wait for such a release.
pub proof fn a_right_press_cancels_a_drag(view: NotebookView)
    ensures
        ({
            let ((cancelled, ended), after) = view.after_right_down();
            &&& cancelled <==> view.dragging()
            &&& after.eat_right_up <==> cancelled
            &&& after.drag is None
            &&& ended <==> view.eat_right_up && !view.dragging()
            &&& !after.after_right_down().1.eat_right_up
        }),
{
}

/// When the capture goes elsewhere a held thumb, a wait for a release and a drag all end.
pub proof fn a_lost_capture_ends_everything(view: NotebookView)
    ensures
        view.uncaptured().drag is None,
        view.uncaptured().thumb_grab is None,
        !view.uncaptured().eat_right_up,
        view.uncaptured().release_drops() is None,
        view.uncaptured().list == view.list && view.uncaptured().rows == view.rows,
{
}

/// The drag timer scrolls the list by as many rows as it is told and forgets the folder that
/// expands; without a drag under way it does nothing.
pub proof fn the_drag_timer_scrolls(view: NotebookView, lines: int, expand: bool, frame: Frame)
    ensures
        !view.dragging() ==> view.ticked(lines, expand, frame) == view,
        view.dragging() && lines == 0 ==> view.ticked(lines, expand, frame).list == view.list,
        view.dragging() && lines != 0 ==> view.ticked(lines, expand, frame).list
            == view.list.scrolled(lines, view.area(frame).tall()),
        view.dragging() && expand ==> view.ticked(lines, expand, frame).drag->0.resting is None,
        view.dragging() ==> view.ticked(lines, expand, frame).dragging() && view.ticked(
            lines,
            expand,
            frame,
        ).drag->0.target == view.drag->0.target,
        view.dragging() && !expand ==> view.ticked(lines, expand, frame).drag == view.drag,
{
}

/// Files from outside open over the Open Editors section, and anywhere below the title without a
/// notebook; over the tree they are copied into the folder the drag targets there, and refused
/// without one. The drag is kept from the first time they are over the tree until they leave it.
pub proof fn files_open_or_are_copied(
    view: NotebookView,
    frame: Frame,
    at: Point,
    paths: Vec<String>,
)
    ensures
        ({
            let (after, over) = view.over(frame, at, paths);
            let layout = frame.layout;
            let (x, y) = (at.x as int, at.y as int);
            let editors = layout.editors_header.has(x, y) || layout.editors_list.has(x, y);
            &&& view.root is Some ==> (over == ExternalOver::Opens <==> editors)
            &&& view.root is None ==> (over == ExternalOver::Opens <==> frame.client.has(x, y) && y
                >= layout.title.bottom)
            &&& over == ExternalOver::Opens ==> !after.dragging_files() && view.external_drop_of(
                frame,
                at,
            ) is Open
            &&& over is Tree ==> after.dragging_files() && (over->fresh <==> !view.dragging_files())
            &&& over is Tree && over->fresh ==> after.dragging() && after.drag->0.source
                == DragSource::Files(paths)
            &&& over is Tree ==> (after.external_drop_of(frame, at) is Refused
                <==> after.drag->0.target is None)
            &&& over is Tree && after.drag->0.target is Some ==> after.external_drop_of(frame, at)
                == ExternalDrop::CopyInto(after.drag->0.target->0@)
        }),
{
}

/// A point of the root row is on the button whose rectangle holds it, the first where two do, and on
/// none where none does.
pub proof fn a_root_button_holds_its_points(parts: RootParts, at: Point)
    ensures
        ({
            let (x, y) = (at.x as int, at.y as int);
            match crate::notebook_hits::button_at(parts, at) {
                Some(HeaderButton::Favorite) => parts.favorite.has(x, y),
                Some(HeaderButton::NewNote) => parts.new_note.has(x, y),
                Some(HeaderButton::NewFolder) => parts.new_folder.has(x, y),
                Some(HeaderButton::More) => parts.more.has(x, y),
                None => !parts.favorite.has(x, y) && !parts.new_note.has(x, y)
                    && !parts.new_folder.has(x, y) && !parts.more.has(x, y),
            }
        }),
{
}

/// The favorite button reads what it will do: add what is no favorite, remove what is one.
pub proof fn the_favorite_button_reads_what_it_does(button: HeaderButton, other: HeaderButton)
    ensures
        crate::notebook_hits::button_label(HeaderButton::Favorite, true) == REMOVE_FAVORITE@,
        crate::notebook_hits::button_label(HeaderButton::Favorite, false) == ADD_FAVORITE@,
        button != HeaderButton::Favorite ==> crate::notebook_hits::button_label(button, true)
            == crate::notebook_hits::button_label(button, false),
        button != other && button != HeaderButton::Favorite ==> crate::notebook_hits::button_label(
            button,
            true,
        ) != crate::notebook_hits::button_label(other, false),
{
    reveal_strlit("Add to favorites");
    reveal_strlit("New note");
    reveal_strlit("New folder");
    reveal_strlit("More actions");
    assert("Add to favorites"@.len() == 16);
    assert("New note"@.len() == 8);
    assert("New folder"@.len() == 10);
    assert("More actions"@.len() == 12);
}

/// Only a folder has a chevron and only a note has a pin: what is left of the icon's end, and what
/// is right of where the pin starts.
pub proof fn chevrons_are_folders_and_pins_notes(row: TreeRow, rect: Rect, dpi: int, x: int)
    ensures
        ({
            let part = crate::notebook_hits::part_at(row, rect, dpi, x);
            let parts = crate::tree_paint::parts_of(rect, row.depth as int, dpi);
            &&& part == RowPart::Chevron <==> row.kind is Folder && x < parts.icon.right
            &&& part == RowPart::Pin <==> row.kind is Note && x >= parts.pin.left
        }),
{
}

/// A press is on the header, the tabs or the root row exactly in their bands, whatever the mode; a
/// tab's close box is hit only on a clean tab, and a state's own buttons only in that state.
pub proof fn a_hit_is_in_its_band(view: NotebookView, frame: Frame, at: Point)
    ensures
        ({
            let hit = view.hit(frame, at);
            let layout = frame.layout;
            let (x, y) = (at.x as int, at.y as int);
            &&& y < layout.title.bottom ==> hit == Hit::Empty
            &&& hit == Hit::EditorsHeader ==> layout.editors_header.has(x, y)
            &&& y >= layout.title.bottom && layout.editors_header.has(x, y) ==> hit
                == Hit::EditorsHeader
            &&& hit is Editor ==> layout.editors_list.has(x, y)
            &&& hit matches Hit::Editor { index, close } ==> (close
                ==> !view.editors.rows@[index as int].dirty)
            &&& hit is Header || hit == Hit::Root ==> layout.root.has(x, y) && view.mode
                != Mode::NoNotebook
            &&& hit == Hit::SecondButton ==> view.mode == Mode::Failed
            &&& hit == Hit::StateButton ==> view.mode == Mode::Failed || view.mode == Mode::Empty
                || view.mode == Mode::NoNotebook
            &&& hit is Thumb ==> view.mode == Mode::Tree && view.root_expanded
            &&& hit is Row ==> view.mode == Mode::NoNotebook || (view.mode == Mode::Tree
                && view.root_expanded)
            &&& view.mode == Mode::Loading ==> !(hit is Row) && !(hit is StateButton)
        }),
{
}

/// A drag is over the tree's rows, the root row above them or the room below; outside the panel,
/// above the root row, and where nothing can be dropped, it is over none of it.
pub proof fn a_drag_is_over_the_tree_or_outside(view: NotebookView, frame: Frame, at: Point)
    ensures
        ({
            let over = view.hovered(frame, at);
            let drops = view.mode == Mode::Tree || view.mode == Mode::Empty;
            &&& over == Hover::Outside <==> !drops || !frame.client.has(at.x as int, at.y as int)
                || at.y < frame.layout.root.top
            &&& over is Row ==> view.mode == Mode::Tree && view.root_expanded && at.y
                >= frame.layout.root.bottom && at.y >= frame.layout.body.top
            &&& over == Hover::Header ==> at.y < frame.layout.root.bottom || at.y
                < frame.layout.body.top
            &&& over != Hover::Outside && at.y < frame.layout.root.bottom ==> over == Hover::Header
        }),
{
}

} // verus!
