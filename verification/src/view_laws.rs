//! What a rebuild, a change of the tabs and a batch keep of what a view showed, what a snapshot
//! reads, and that the models the contracts speak of are the values themselves.

use crate::geometry::Rect;
use crate::notebook_actions::{Act, Entry, NotebookAct};
use crate::notebook_drag::{Drop, Dropped};
use crate::notebook_snapshot::LibraryFacts;
use crate::notebook_view::{Frame, Inline, Mode, NotebookView, Snapshot};
use crate::open_editors::EditorRow;
use crate::palette::Palette;
use crate::panel_cursor::Cursor;
use crate::preview_host::{PreviewButton, PreviewHost, FULL_HINT, SIDE_HINT};
use crate::row_list::{
    ListKey, RowListState, VK_DOWN, VK_END, VK_HOME, VK_NEXT, VK_PRIOR, VK_UP,
};
use crate::search_lines::{Progress, State, TextHit};
use crate::search_view::Shown;
use crate::side_panel::SidebarView;
use crate::text_search::RunEnd;
use crate::tree::{Kind, NoteTree, TreeRow};
use crate::tree_paint::{Highlight, RecentName};
use vstd::prelude::*;

verus! {

/// What is told of an action is the action itself, its paths as characters.
pub proof fn an_action_is_told_as_it_is(act: NotebookAct)
    ensures
        ({
            let told = crate::notebook_actions::act_model(act);
            match act {
                Act::Nothing => told is Nothing,
                Act::ChooseNotebook => told is ChooseNotebook,
                Act::OpenNotebook(path) => told == Act::OpenNotebook(path@),
                Act::RetryLoad => told is RetryLoad,
                Act::CloseNotebook => told is CloseNotebook,
                Act::ToggleFavorite => told is ToggleFavorite,
                Act::NewNote => told is NewNote,
                Act::NewFolder => told is NewFolder,
                Act::NewNoteIn(path) => told == Act::NewNoteIn(path@),
                Act::NewFolderIn(path) => told == Act::NewFolderIn(path@),
                Act::MoreMenu(at) => told == Act::<Seq<char>>::MoreMenu(at),
                Act::OpenNote { path, mode, focus } => told == (Act::OpenNote {
                    path: path@,
                    mode,
                    focus,
                }),
                Act::ExpandFolder { folder, expanded } => told == (Act::ExpandFolder {
                    folder: folder@,
                    expanded,
                }),
                Act::ExpandEditors(expanded) => told == Act::<Seq<char>>::ExpandEditors(expanded),
                Act::ExpandRoot(expanded) => told == Act::<Seq<char>>::ExpandRoot(expanded),
                Act::ActivateTab { id, focus } => told == (Act::<Seq<char>>::ActivateTab {
                    id,
                    focus,
                }),
                Act::CloseTab(id) => told == Act::<Seq<char>>::CloseTab(id),
                Act::TogglePin(path) => told == Act::TogglePin(path@),
                Act::MoveToNotebook(path) => told == Act::MoveToNotebook(path@),
                Act::Rename(Kind::Note(path)) => told == Act::Rename(Kind::Note(path@)),
                Act::Rename(Kind::Folder(path)) => told == Act::Rename(Kind::Folder(path@)),
                Act::Rename(_) => told is Rename,
                Act::Reveal(path) => told == Act::Reveal(path@),
                Act::DeleteNote(path) => told == Act::DeleteNote(path@),
                Act::DeleteFolder(path) => told == Act::DeleteFolder(path@),
                Act::GrabThumb => told is GrabThumb,
            }
        }),
{
}

/// What is told of the Search view's actions, of a drop and of a menu's line is that itself, its
/// texts as characters.
pub proof fn drops_and_lines_are_told_as_they_are(
    act: crate::search_actions::SearchAct,
    dropped: Drop,
    entry: crate::notebook_actions::MenuEntry,
)
    ensures
        ({
            let told = crate::search_actions::act_model(act);
            match act {
                crate::search_actions::Act::Done { repaint } => told
                    == crate::search_actions::Act::<Seq<char>>::Done { repaint },
                crate::search_actions::Act::Moved { repaint } => told
                    == crate::search_actions::Act::<Seq<char>>::Moved { repaint },
                crate::search_actions::Act::Toggle(option) => told == crate::search_actions::Act::<
                    Seq<char>,
                >::Toggle(option),
                crate::search_actions::Act::FocusBox => told is FocusBox,
                crate::search_actions::Act::Capture => told is Capture,
                crate::search_actions::Act::Release => told is Release,
                crate::search_actions::Act::Open { path, mode, focus_editor } => told
                    == crate::search_actions::Act::Open { path: path@, mode, focus_editor },
                crate::search_actions::Act::TypeInBox => told is TypeInBox,
            }
        }),
        match dropped {
            Dropped::Move { kind, folder } => crate::notebook_drag::drop_model(dropped) == (
            Dropped::Move { kind: crate::tree::kind_model(kind), folder: folder@ }),
            Dropped::Copy { id, path, folder } => crate::notebook_drag::drop_model(dropped) == (
            Dropped::Copy { id, path: path@, folder: folder@ }),
            Dropped::Nowhere => crate::notebook_drag::drop_model(dropped) is Nowhere,
        },
        match entry {
            Entry::Command { text, command } => crate::notebook_actions::entry_model(entry) == (
            Entry::Command { text: text@, command }),
            Entry::Separator => crate::notebook_actions::entry_model(entry) is Separator,
        },
{
}

/// What is told of a row's kind and of a search's state is that itself, its text as characters.
pub proof fn kinds_and_states_are_told_as_they_are(
    kind: Kind<String>,
    state: crate::search_lines::SearchState,
)
    ensures
        match kind {
            Kind::Folder(path) => crate::tree::kind_model(kind) == Kind::Folder(path@),
            Kind::Note(path) => crate::tree::kind_model(kind) == Kind::Note(path@),
            Kind::Draft => crate::tree::kind_model(kind) is Draft,
            Kind::Unsaved(id) => crate::tree::kind_model(kind) == Kind::<Seq<char>>::Unsaved(id),
        },
        match state {
            State::Idle => crate::search_lines::state_model(state) is Idle,
            State::TooShort => crate::search_lines::state_model(state) is TooShort,
            State::Running(progress) => crate::search_lines::state_model(state) == State::<
                Seq<char>,
            >::Running(progress),
            State::Done { progress, capped } => crate::search_lines::state_model(state) == (State::<
                Seq<char>,
            >::Done { progress, capped }),
            State::PatternError(message) => crate::search_lines::state_model(state)
                == State::PatternError(message@),
        },
{
}

/// Each list key stands for one movement, and no other key moves in a list.
pub proof fn list_keys_move_as_they_are_named(key: u32)
    ensures
        ListKey::of_virtual_key(VK_UP) == Some(ListKey::Up),
        ListKey::of_virtual_key(VK_DOWN) == Some(ListKey::Down),
        ListKey::of_virtual_key(VK_HOME) == Some(ListKey::Home),
        ListKey::of_virtual_key(VK_END) == Some(ListKey::End),
        ListKey::of_virtual_key(VK_PRIOR) == Some(ListKey::PageUp),
        ListKey::of_virtual_key(VK_NEXT) == Some(ListKey::PageDown),
        ListKey::of_virtual_key(key) is Some ==> key == VK_UP || key == VK_DOWN || key == VK_HOME
            || key == VK_END || key == VK_PRIOR || key == VK_NEXT,
{
}

/// A list key moves the one keyboard selection through all parts; in a tree with nothing selected an
/// arrow selects a row in view first, and a page key pages the part it is in.
pub proof fn a_list_key_moves_the_one_selection(
    view: NotebookView,
    key: ListKey,
    frame: Frame,
    index: usize,
)
    ensures
        ({
            let after = view.list_keyed(key, frame);
            let paging = key == ListKey::PageUp || key == ListKey::PageDown;
            let fresh = view.cursor == Cursor::Tree && view.list.selected is None
                && view.parts().tree > 0 && (key == ListKey::Up || key == ListKey::Down);
            &&& fresh || (paging && view.cursor == Cursor::Tree) ==> after.list
                == view.list.after_key(key, view.page_height(frame)) && after.cursor == view.cursor
            &&& paging && view.cursor == Cursor::Editor(index) ==> after == view.paged_editors(
                index,
                key,
                frame.layout.editors_list.tall(),
            )
            &&& paging && (view.cursor == Cursor::EditorsHeader || view.cursor == Cursor::Root)
                ==> after == view
            &&& !paging && !fresh ==> (view.parts().moved(
                view.cursor,
                view.list.selected,
                key,
            ) matches Some((cursor, tree)) && after == view.moved_to(cursor, tree, frame))
        }),
{
}

/// A snapshot of a notebook holds its tree's rows once it is loaded and no recent notebooks; without
/// a notebook it holds the recent ones and no row.
pub proof fn a_snapshot_reads_the_notebook_or_the_recent_ones(
    taken: Snapshot,
    root: Option<String>,
    name: String,
    facts: LibraryFacts,
    tree: NoteTree,
    expanded: Seq<String>,
    recent: Vec<String>,
    names: Vec<RecentName>,
)
    requires
        crate::notebook_snapshot::read_off(
            taken,
            root,
            name,
            facts,
            tree,
            expanded,
            recent,
            names,
        ),
    ensures
        root is None ==> taken.rows@.len() == 0 && taken.recent == recent && taken.recent_names
            == names && taken.mode == Mode::NoNotebook && taken.root_expanded && !taken.favorite
            && taken.name@.len() == 0,
        root is Some ==> taken.recent.len() == 0 && taken.name == name && taken.favorite
            == facts.favorite && taken.root_expanded == facts.root_expanded,
        !facts.loaded ==> taken.rows@.len() == 0,
        root is Some && facts.loaded ==> taken.rows@ == crate::tree::visible(
            tree.entries@,
            crate::tree::open_keys(expanded),
            tree.entries.len() as int,
        ),
        taken.mode == Mode::Tree <==> taken.rows@.len() > 0,
        taken.truncated ==> facts.truncated && taken.rows@.len() > 0,
        taken.root == root && taken.editors_expanded == facts.editors_expanded,
        taken.key.expansion == facts.expansion && taken.key.loaded == facts.loaded
            && taken.key.failed == facts.failed && taken.key.root_expanded == facts.root_expanded,
{
}

/// After a rebuild the view shows what the snapshot holds and is not stale for it; the tabs, a drag
/// and what is held stay, an edit stays only where it was kept, and the letters typed end with the
/// notebook.
pub proof fn a_rebuild_shows_the_snapshot(
    before: NotebookView,
    after: NotebookView,
    snapshot: Snapshot,
    edit: Option<Inline>,
    frame: Frame,
)
    requires
        crate::notebook_view::rebuilt(before, after, snapshot, edit, frame),
    ensures
        after.rows == snapshot.rows && after.recent == snapshot.recent && after.name
            == snapshot.name && after.root == snapshot.root && after.favorite == snapshot.favorite,
        after.root_expanded == snapshot.root_expanded && after.editors_expanded
            == snapshot.editors_expanded && after.truncated == snapshot.truncated,
        !after.is_stale(snapshot.key),
        after.editors.rows == before.editors.rows && after.drag == before.drag && after.thumb_grab
            == before.thumb_grab,
        edit is None ==> after.inline.row is None && after.inline.draft is None
            && !after.inline.wants_draft && after.mode == snapshot.mode,
        edit matches Some(inline) ==> after.inline == inline,
        snapshot.mode != before.mode && edit is None ==> after.typed.text@.len() == 0
            && after.list.selected is None,
        after.order != before.order ==> before.reorders(
            snapshot,
            before.resets(snapshot, after.mode),
        ),
        before.reorders(snapshot, before.resets(snapshot, after.mode)) ==> after.order
            != before.order,
        after.cursor is Editor ==> snapshot.editors_expanded,
{
}

/// A change of the tabs shows them as they are, keeps the tree as it was, and brings the active tab
/// into view where the section has room.
pub proof fn a_change_of_tabs_keeps_the_tree(
    before: NotebookView,
    after: NotebookView,
    rows: Vec<EditorRow>,
    frame: Frame,
    changed: bool,
)
    requires
        before.wf(),
        crate::notebook_view::retabbed(before, after, rows, frame, changed),
        frame.wf(),
    ensures
        after.rows == before.rows && after.list == before.list && after.mode == before.mode,
        changed ==> after.editors.rows == rows,
        !changed ==> after.editors.rows == before.editors.rows,
        after.cursor matches Cursor::Editor(index) ==> index < rows.len(),
        !(before.cursor is Editor) ==> after.cursor == before.cursor,
        crate::notebook_view::ids(rows@) == crate::notebook_view::ids(before.editors.rows@)
            ==> after.order == before.order,
        rows.len() != before.editors.rows.len() ==> after.order != before.order,
{
    assert(crate::notebook_view::ids(rows@).len() == rows.len());
    assert(crate::notebook_view::ids(before.editors.rows@).len() == before.editors.rows.len());
}

/// The active tab is brought into view where that is asked for and the list has height; a list
/// without any stays as it is.
pub proof fn the_active_tab_comes_into_view(list: RowListState, active: usize, height: int)
    requires
        list.wf(),
        active < list.count,
        0 < height <= i32::MAX,
    ensures
        ({
            let fitted = crate::notebook_view::fitted(list, Some(active), true, height);
            &&& fitted.top <= active < fitted.top + fitted.page(height)
            &&& fitted.selected == list.selected && fitted.count == list.count
            &&& crate::notebook_view::fitted(list, Some(active), true, 0) == list
            &&& crate::notebook_view::fitted(list, None, true, height) == list.scrolled(0, height)
        }),
{
    list.a_selected_row_is_in_view(active as int, height);
}

/// A row is followed to where what it stands for is now; where that is gone, to the row in its place,
/// or the last; nothing followed stays nothing.
pub proof fn a_row_is_followed_by_what_it_stands_for(
    rows: Seq<TreeRow>,
    kind: crate::tree::KindModel,
    index: usize,
)
    requires
        rows.len() <= usize::MAX,
    ensures
        ({
            let now = crate::tree_paint::followed(rows, Some(kind), Some(index));
            let listed = crate::tree::kinds(rows).contains(crate::tree::kind_key(kind));
            &&& listed ==> (now matches Some(at) && at < rows.len() && crate::tree::kind_key(
                crate::tree::kind_model(rows[at as int].kind),
            ) == crate::tree::kind_key(kind))
            &&& !listed && index < rows.len() ==> now == Some(index)
            &&& !listed && 0 < rows.len() <= index ==> now == Some((rows.len() - 1) as usize)
            &&& rows.len() == 0 ==> now is None
            &&& crate::tree_paint::followed(rows, None, Some(index)) is None
        }),
{
    crate::tree::kinds(rows).index_of_first_ensures(crate::tree::kind_key(kind));
    assert(crate::tree::kinds(rows).len() == rows.len());
}

/// What is painted under the sections is the tree, or the state that shows instead; nothing under a
/// collapsed root.
pub proof fn the_body_paints_what_shows(
    view: NotebookView,
    frame: Frame,
    palette: Palette,
    focused: bool,
    highlight: Option<Highlight>,
    inline: crate::notebook_paint::InlinePaint,
)
    ensures
        ({
            let body = view.body_steps(frame, palette, focused, highlight, inline);
            &&& view.mode != Mode::NoNotebook && !view.root_expanded ==> body.len() == 0
            &&& view.mode == Mode::Tree && view.root_expanded ==> body == view.tree_steps(
                frame,
                palette,
                focused,
                highlight,
                inline,
            )
            &&& view.mode == Mode::NoNotebook ==> body == view.state_steps(frame, palette, focused)
            &&& view.mode == Mode::Empty && view.root_expanded ==> body == view.state_steps(
                frame,
                palette,
                focused,
            )
            &&& view.edits_in_view(frame) ==> view.inline.row is Some && view.inline.row->0
                < view.rows.len()
        }),
{
}

/// A change of DPI makes the rows of both lists as tall as it says and keeps what is selected.
pub proof fn rows_follow_the_dpi(view: NotebookView, frame: Frame)
    ensures
        ({
            let after = view.resized(frame);
            let tall = crate::panel::scaled(
                crate::notebook_view::ROW_HEIGHT as int,
                frame.dpi as int,
            ) as i32;
            &&& after.list.row_height == tall && after.editors.list.row_height == tall
            &&& after.list.selected == view.list.selected && after.list.top == view.list.top
            &&& after.editors.list.selected == view.editors.list.selected
            &&& after.rows == view.rows && after.cursor == view.cursor
        }),
{
}

/// A batch selects the note waited for where it has come, else the one that was selected, else the
/// first; and an empty list selects none.
pub proof fn a_batch_selects_a_listed_note(
    results: Seq<TextHit>,
    restore: Seq<char>,
    selected: Seq<char>,
)
    requires
        results.len() <= usize::MAX,
    ensures
        ({
            let chosen = crate::search_view::choice(results, Some(restore), Some(selected));
            let waited = crate::search_laws::lists(results, restore);
            let there = crate::search_laws::lists(results, selected);
            &&& waited ==> (chosen matches Some(at) && at < results.len() && crate::paths::path_key(
                results[at as int].path@,
            ) == crate::paths::path_key(restore))
            &&& !waited && there ==> (chosen matches Some(at) && at < results.len()
                && crate::paths::path_key(results[at as int].path@) == crate::paths::path_key(
                selected,
            ))
            &&& !waited && !there && results.len() > 0 ==> chosen == Some(0usize)
            &&& results.len() == 0 ==> chosen is None
        }),
{
    a_place_is_of_its_note(results, restore);
    a_place_is_of_its_note(results, selected);
}

proof fn a_place_is_of_its_note(results: Seq<TextHit>, path: Seq<char>)
    requires
        results.len() <= usize::MAX,
    ensures
        match crate::search_view::place_of(results, path) {
            Some(at) => at < results.len() && crate::paths::path_key(results[at as int].path@)
                == crate::paths::path_key(path),
            None => !crate::search_laws::lists(results, path),
        },
    decreases results.len(),
{
    if results.len() > 0 {
        a_place_is_of_its_note(results.drop_last(), path);
        if crate::search_view::place_of(results, path) is None {
            assert forall|i: int| 0 <= i < results.len() implies crate::paths::path_key(
                (#[trigger] results[i]).path@,
            ) != crate::paths::path_key(path) by {
                if i < results.len() - 1 {
                    assert(results.drop_last()[i] == results[i]);
                }
            }
        }
    }
}

/// A batch without an end leaves the search running with its progress, and one with an end leaves it
/// done, capped where it was; from then on no note is waited for.
pub proof fn a_batch_tells_how_far_the_search_is(
    view: Shown,
    hits: Seq<TextHit>,
    progress: Progress,
    end: RunEnd,
    height: int,
)
    ensures
        view.after_batch(hits, progress, None, height).search == State::<Seq<char>>::Running(
            progress,
        ),
        view.after_batch(hits, progress, Some(end), height).search == (State::<Seq<char>>::Done {
            progress,
            capped: end == RunEnd::Capped,
        }),
        view.after_batch(hits, progress, Some(end), height).restore is None,
        !view.after_batch(hits, progress, Some(end), height).replace_on_batch,
        hits.len() > 0 ==> view.after_batch(hits, progress, None, height).order != view.order,
        view.replace_on_batch && hits.len() > 0 ==> view.after_batch(
            hits,
            progress,
            None,
            height,
        ).results == crate::search_hits::merged(Seq::empty(), hits),
        !view.replace_on_batch ==> view.after_batch(hits, progress, None, height).results
            == crate::search_hits::merged(view.results, hits),
        view.cleared().results.len() == 0 && view.cleared().list.selected is None
            && view.cleared().list.top == 0 && view.cleared().restore is None,
{
}

/// The status bar hints at a hovered button before it shows a link, each button by its own hint.
pub proof fn buttons_are_hinted_at_before_links(host: PreviewHost)
    ensures
        host.button_hint == Some(PreviewButton::Side) ==> host.hinted() == Some(SIDE_HINT@),
        host.button_hint == Some(PreviewButton::Full) ==> host.hinted() == Some(FULL_HINT@),
        host.button_hint is None && host.hover_text is None ==> host.hinted() is None,
        host.button_hint is None ==> (host.hover_text matches Some(link) ==> host.hinted() == Some(
            link@,
        )),
{
}

/// Each view's panel is told under its own name, the Notebook view under its notebook's; and as an
/// outline, a list, or, closed, as a pane.
pub proof fn each_panel_is_told_by_its_view(a: SidebarView, b: SidebarView, notebook: Seq<char>)
    ensures
        crate::side_panel::container_name(SidebarView::Notebook, notebook) == notebook,
        a != b && a != SidebarView::Notebook && b != SidebarView::Notebook
            ==> crate::side_panel::container_name(a, notebook)
            != crate::side_panel::container_name(b, notebook),
        crate::side_panel::container_role(SidebarView::Search)
            == crate::side_panel::container_role(SidebarView::Favorites),
        crate::side_panel::container_role(SidebarView::Notebook)
            != crate::side_panel::container_role(SidebarView::Search),
        crate::side_panel::container_role(SidebarView::Hidden)
            != crate::side_panel::container_role(SidebarView::Search),
{
    reveal_strlit("Search results");
    reveal_strlit("Favorite notebooks");
    reveal_strlit("Side panel");
    assert("Search results"@.len() == 14);
    assert("Favorite notebooks"@.len() == 18);
    assert("Side panel"@.len() == 10);
}

/// The box names the notebook it searches.
pub proof fn the_box_names_its_notebook(path: Seq<char>)
    ensures
        crate::search_lines::placeholder_for(Some(path)) == "Search text in "@
            + crate::paths::name_of(path),
        crate::search_lines::placeholder_for(None) == "Search text"@,
{
}

/// A file's name is its stem, a dot and its extension, where it has one; else it is its stem.
pub proof fn a_name_is_its_stem_and_extension(path: Seq<char>)
    ensures
        crate::paths::extension_of(path) matches Some(extension) ==> crate::paths::name_of(path)
            == crate::paths::stem_of(path).push('.') + extension && (forall|i: int|
            0 <= i < extension.len() ==> #[trigger] extension[i] != '.')
            && crate::paths::stem_of(path).len() > 0,
        crate::paths::extension_of(path) is None ==> crate::paths::stem_of(path)
            == crate::paths::name_of(path),
{
    if let Some(name) = crate::paths::file_name_of(path) {
        the_last_dot_is_found(name);
        if crate::paths::last_dot(name) > 0 {
            let dot = crate::paths::last_dot(name);
            assert(name =~= name.subrange(0, dot).push('.') + name.subrange(
                dot + 1,
                name.len() as int,
            ));
        }
    }
}

proof fn the_last_dot_is_found(name: Seq<char>)
    ensures
        -1 <= crate::paths::last_dot(name) < name.len(),
        crate::paths::last_dot(name) >= 0 ==> name[crate::paths::last_dot(name)] == '.',
        forall|i: int| crate::paths::last_dot(name) < i < name.len() ==> #[trigger] name[i] != '.',
    decreases name.len(),
{
    if name.len() > 0 && name.last() != '.' {
        the_last_dot_is_found(name.drop_last());
        assert forall|i: int| crate::paths::last_dot(name) < i < name.len() implies
            #[trigger] name[i] != '.' by {
            if i < name.len() - 1 {
                assert(name.drop_last()[i] == name[i]);
            }
        }
    }
}

/// A count reads one thing in the singular and every other number in the plural.
pub proof fn amounts_read_in_singular_and_plural(count: nat, one: Seq<char>, many: Seq<char>)
    ensures
        crate::text_replace::amount(1, one, many) == "1 "@ + one,
        count != 1 ==> crate::text_replace::amount(count, one, many)
            == crate::search_lines::grouped(count) + " "@ + many,
        crate::text_replace::skipped_part(0).len() == 0,
        crate::text_replace::failed_part(0).len() == 0,
        count > 0 ==> "changed since the search."@.is_suffix_of(
            crate::text_replace::skipped_part(count),
        ),
        count > 0 ==> "couldn't be written."@.is_suffix_of(crate::text_replace::failed_part(count)),
{
    reveal_strlit("changed since the search.");
    reveal_strlit("couldn't be written.");
    reveal_strlit(" 1 note was skipped because it changed since the search.");
    reveal_strlit(" notes were skipped because they changed since the search.");
    reveal_strlit(" 1 note couldn't be written.");
    reveal_strlit(" notes couldn't be written.");
}

/// A blended color's channels are its colors' channels blended.
pub proof fn a_blend_blends_each_channel(top: u32, bottom: u32, alpha: u8, index: int)
    requires
        0 <= index < 3,
    ensures
        crate::theme::channel(crate::theme::blended(top, bottom, alpha), index)
            == crate::theme::mixed(
            crate::theme::channel(top, index),
            crate::theme::channel(bottom, index),
            alpha as int,
        ),
{
    let mix = |i: int|
        crate::theme::mixed(
            crate::theme::channel(top, i),
            crate::theme::channel(bottom, i),
            alpha as int,
        );
    crate::side_panel_laws::a_blend_lies_between(
        crate::theme::channel(top, 0),
        crate::theme::channel(bottom, 0),
        alpha as int,
    );
    crate::side_panel_laws::a_blend_lies_between(
        crate::theme::channel(top, 1),
        crate::theme::channel(bottom, 1),
        alpha as int,
    );
    crate::side_panel_laws::a_blend_lies_between(
        crate::theme::channel(top, 2),
        crate::theme::channel(bottom, 2),
        alpha as int,
    );
    let (r, g, u) = (mix(0), mix(1), mix(2));
    assert(0 <= r < 0x100 && 0 <= g < 0x100 && 0 <= u < 0x100);
    let whole = r + 0x100 * g + 0x1_0000 * u;
    assert(crate::theme::blended(top, bottom, alpha) == whole);
    assert(whole % 0x100 == r && whole / 0x100 % 0x100 == g && whole / 0x1_0000 % 0x100 == u);
}

/// Paging takes a list at its height, and one too low for a row as if it had one.
pub proof fn paging_has_room_for_a_row(list: Rect, row_height: int)
    requires
        0 < row_height,
    ensures
        ({
            let height = crate::notebook_view::paged(list, row_height);
            &&& height >= row_height
            &&& list.tall() >= row_height ==> height == list.tall()
            &&& list.tall() < row_height ==> height == row_height
        }),
{
}

} // verus!
