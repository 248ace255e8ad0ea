//! What holds of the Notebook view over its rebuilds and over every point of the panel.

use crate::geometry::Point;
use crate::notebook_view::{Frame, Hit, Inline, Mode, NotebookView, Snapshot};
use crate::panel_cursor::Cursor;
use vstd::prelude::*;

verus! {

/// The row at a place stands for what was looked up.
proof fn a_place_holds_its_kind(rows: Seq<crate::tree::TreeRow>, kind: crate::tree::KindModel)
    ensures
        match crate::tree::place(rows, kind) {
            Some(index) => rows.len() <= usize::MAX ==> index < rows.len()
                && crate::tree::kind_key(crate::tree::kind_model(rows[index as int].kind))
                == crate::tree::kind_key(kind),
            None => !crate::tree::kinds(rows).contains(crate::tree::kind_key(kind)),
        },
{
    crate::tree::kinds(rows).index_of_first_ensures(crate::tree::kind_key(kind));
}

/// The selection stays on its note over every rebuild that still lists it, wherever its row moved.
pub proof fn the_selection_stays_on_its_note(
    view: NotebookView,
    snapshot: Snapshot,
    edit: Option<Inline>,
    frame: Frame,
)
    requires
        view.wf(),
        view.rebuilt_mode(snapshot, edit) == Mode::Tree,
        !view.resets(snapshot, Mode::Tree),
        snapshot.rows.len() < usize::MAX,
    ensures
        ({
            let kind = crate::notebook_view::kind_at(view.rows@, view.list.selected);
            let after = view.list_after(snapshot, edit, frame);
            kind is Some && crate::tree::kinds(snapshot.rows@).contains(
                crate::tree::kind_key(kind->0),
            ) ==> {
                let now = crate::notebook_view::kind_at(snapshot.rows@, after.selected);
                now is Some && crate::tree::kind_key(now->0) == crate::tree::kind_key(kind->0)
            }
        }),
{
    if let Some(kind) = crate::notebook_view::kind_at(view.rows@, view.list.selected) {
        a_place_holds_its_kind(snapshot.rows@, kind);
    }
}

/// Where the selected note is gone, the selection stays at its place, or on the last row.
pub proof fn a_gone_selection_keeps_its_place(
    view: NotebookView,
    snapshot: Snapshot,
    edit: Option<Inline>,
    frame: Frame,
)
    requires
        view.wf(),
        view.rebuilt_mode(snapshot, edit) == Mode::Tree,
        !view.resets(snapshot, Mode::Tree),
        0 < snapshot.rows.len() < usize::MAX,
    ensures
        ({
            let kind = crate::notebook_view::kind_at(view.rows@, view.list.selected);
            let after = view.list_after(snapshot, edit, frame);
            kind is Some && !crate::tree::kinds(snapshot.rows@).contains(
                crate::tree::kind_key(kind->0),
            ) ==> after.selected == Some(
                vstd::math::min(view.list.selected->0 as int, snapshot.rows.len() - 1) as usize,
            )
        }),
{
    if let Some(kind) = crate::notebook_view::kind_at(view.rows@, view.list.selected) {
        crate::tree::kinds(snapshot.rows@).index_of_first_ensures(crate::tree::kind_key(kind));
    }
}

/// A rebuild into another notebook, or another state, starts with nothing selected at the top.
pub proof fn another_notebook_starts_afresh(
    view: NotebookView,
    snapshot: Snapshot,
    edit: Option<Inline>,
    frame: Frame,
)
    requires
        view.wf(),
        view.resets(snapshot, view.rebuilt_mode(snapshot, edit)),
    ensures
        view.list_after(snapshot, edit, frame).selected is None,
        view.list_after(snapshot, edit, frame).top == 0,
        view.reorders(snapshot, true),
{
}

/// A rebuild that lists the same things in the same order tells screen readers of no reorder.
pub proof fn the_same_rows_are_no_reorder(view: NotebookView, snapshot: Snapshot)
    requires
        crate::paths::path_keys(snapshot.recent@) == crate::paths::path_keys(view.recent@),
        crate::tree::kinds(snapshot.rows@) == crate::tree::kinds(view.rows@),
    ensures
        !view.reorders(snapshot, false),
{
}

/// The keyboard selection never rests on a row that does not show: no tree row under a collapsed
/// root, no root row without a notebook, no tab row in a collapsed section.
pub proof fn the_keyboard_selection_is_on_what_shows(
    cursor: Cursor,
    mode: Mode,
    root_expanded: bool,
    editors_expanded: bool,
)
    ensures
        ({
            let settled = crate::notebook_view::settled_cursor(
                cursor,
                mode,
                root_expanded,
                editors_expanded,
            );
            &&& settled == Cursor::Tree ==> !(mode == Mode::Tree && !root_expanded)
            &&& settled == Cursor::Root ==> mode != Mode::NoNotebook
            &&& settled is Editor ==> editors_expanded
            &&& crate::notebook_view::settled_cursor(
                settled,
                mode,
                root_expanded,
                editors_expanded,
            ) == settled
        }),
{
}

/// Under a collapsed root nothing is hit: what is not painted takes no click.
pub proof fn a_collapsed_root_hides_what_is_under_it(view: NotebookView, frame: Frame, at: Point)
    requires
        view.mode != Mode::NoNotebook,
        !view.root_expanded,
    ensures
        !(view.hit(frame, at) is Row),
        !(view.hit(frame, at) is Thumb),
        view.hit(frame, at) != Hit::StateButton,
        view.hit(frame, at) != Hit::SecondButton,
{
}

/// A hit row holds the point: its top is at or above it and its bottom is below.
pub proof fn a_hit_row_holds_the_point(view: NotebookView, frame: Frame, at: Point)
    requires
        view.wf(),
        frame.wf(),
        crate::notebook_view::near(at),
        view.mode == Mode::Tree,
        view.hit(frame, at) is Row,
    ensures
        view.hit(frame, at) matches Hit::Row { index, .. } ==> {
            let rect = crate::notebook_view::row_box(frame.layout.body, view.list, index);
            rect is Some && rect->0.top <= at.y < rect->0.bottom
        },
{
    let list = frame.layout.body;
    if let Hit::Row { index, .. } = view.hit(frame, at) {
        view.list.a_found_row_holds_the_pixel(at.y - list.top);
    }
}

/// An inline edit is kept only in its own notebook and while there is a tree.
pub proof fn an_edit_ends_with_its_notebook(view: NotebookView, mode: Mode, root: Option<Seq<char>>)
    ensures
        view.may_keep_edit(mode, root) ==> crate::paths::maybe_key(root)
            == crate::paths::maybe_key(crate::text::maybe(view.root)),
        view.may_keep_edit(mode, root) ==> mode == Mode::Tree || (mode == Mode::Empty
            && view.inline.wants_draft),
{
}

} // verus!
