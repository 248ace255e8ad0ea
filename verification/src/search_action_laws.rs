//! What the Search view does with a press, a key, a new query, a library change and a new search,
//! whatever it lists, and what its lines read.

use crate::geometry::{Point, Rect};
use crate::messages::{
    VK_ESCAPE, VK_RETURN, WM_CAPTURECHANGED, WM_CHAR, WM_KEYDOWN, WM_LBUTTONDBLCLK, WM_LBUTTONDOWN,
    WM_LBUTTONUP, WM_MOUSEMOVE, WM_PAINT, WM_PASTE,
};
use crate::option_toggles::SearchOption;
use crate::row_list::{ListKey, VK_DOWN, VK_NEXT, VK_UP};
use crate::search_actions::{
    Act, BoxStep, LibraryStep, OpenMode, QueryChange, Setting,
};
use crate::search_lines::{Progress, State, StateModel, NO_MATCH, TOO_SHORT};
use crate::search_view::{SearchView, Tool};
use crate::text_replace::Candidate;
use vstd::prelude::*;

verus! {

/// A press on a toggle flips it and changes nothing else; one on the rest of the field puts the
/// caret there.
pub proof fn a_press_on_the_field(
    view: SearchView,
    at: Point,
    double: bool,
    client: Rect,
    dpi: u32,
)
    requires
        view.box_made,
    ensures
        ({
            let (after, act) = view.pressed(at, double, client, dpi);
            let field = crate::search_view::field_box(client, dpi as int);
            let toggle = crate::option_toggles::toggle_under(
                field,
                dpi as int,
                at.x as int,
                at.y as int,
            );
            &&& toggle matches Some(option) ==> act == Act::<Seq<char>>::Toggle(option) && after
                == view
            &&& toggle is None && field.has(at.x as int, at.y as int) ==> act == Act::<
                Seq<char>,
            >::FocusBox && after == view
            &&& toggle is None && !field.has(at.x as int, at.y as int) ==> !(act is Toggle) && !(act
                is FocusBox)
        }),
{
}

/// A press on a result selects it and opens that note: one as a preview, the second of a double
/// click to stay. A press on the thumb grabs it, and one beside everything selects nothing.
pub proof fn a_press_on_a_result_opens_it(
    view: SearchView,
    at: Point,
    client: Rect,
    dpi: u32,
    index: usize,
)
    requires
        view.wf(),
        view.toggle_hit(at, client, dpi) is None,
        !crate::search_view::field_box(client, dpi as int).has(at.x as int, at.y as int),
        view.thumb_under(at, client, dpi) is None,
        index < view.results.len(),
        view.area(client, dpi).tall() <= i32::MAX,
    ensures
        ({
            let (once, act) = view.pressed(at, false, client, dpi);
            let (twice, again) = view.pressed(at, true, client, dpi);
            let path = view.results@[index as int].path@;
            &&& view.result_under(at, client, dpi) == Some(index) ==> {
                &&& act == (Act::Open { path, mode: OpenMode::Preview, focus_editor: true })
                &&& again == (Act::Open { path, mode: OpenMode::Permanent, focus_editor: true })
                &&& once.list.selected == Some(index)
                &&& twice.list.selected == Some(index)
            }
            &&& view.result_under(at, client, dpi) is None ==> act == (Act::<Seq<char>>::Done {
                repaint: true,
            }) && once.list == view.list
            &&& once.results == view.results && once.search == view.search && once.query
                == view.query
            &&& once.thumb_grab is None
        }),
{
    view.list.a_selected_row_is_in_view(index as int, view.area(client, dpi).tall());
}

/// A press on the thumb grabs it where it was pressed, and a double click never does.
pub proof fn a_press_on_the_thumb_grabs_it(view: SearchView, at: Point, client: Rect, dpi: u32)
    requires
        view.toggle_hit(at, client, dpi) is None,
        !(view.box_made && crate::search_view::field_box(client, dpi as int).has(
            at.x as int,
            at.y as int,
        )),
        view.thumb_under(at, client, dpi) is Some,
    ensures
        ({
            let (after, act) = view.pressed(at, false, client, dpi);
            &&& act is Capture
            &&& after.thumb_grab == view.thumb_under(at, client, dpi)
            &&& after.list == view.list
            &&& !(view.pressed(at, true, client, dpi).1 is Capture)
            &&& view.pressed(at, true, client, dpi).0.thumb_grab == view.thumb_grab
        }),
{
}

/// A point is on a result only inside the results' area, on the row that holds it.
pub proof fn a_result_is_under_its_own_pixels(
    view: SearchView,
    at: Point,
    client: Rect,
    dpi: u32,
)
    requires
        view.wf(),
        crate::geometry::roomy(client),
        dpi <= crate::panel::MAX_DPI,
        -0x8000 <= at.y < 0x8000,
    ensures
        view.result_under(at, client, dpi) matches Some(index) ==> {
            let area = view.area(client, dpi);
            let y = at.y - area.top;
            &&& area.has(at.x as int, at.y as int)
            &&& index < view.results.len()
            &&& view.list.top <= index
            &&& (index - view.list.top) * view.list.row_height <= y
            &&& y < (index - view.list.top + 1) * view.list.row_height
        },
{
    crate::panel::scaled_is_bounded(38, dpi as int);
    crate::panel::scaled_is_bounded(22, dpi as int);
    let area = view.area(client, dpi);
    if view.result_under(at, client, dpi) is Some {
        view.list.a_found_row_holds_the_pixel(at.y - area.top);
        let rows = view.result_under(at, client, dpi)->0 - view.list.top;
        let tall = view.list.row_height as int;
        assert((rows + 1) * tall == rows * tall + tall) by (nonlinear_arith);
    }
}

/// Moving the pointer hovers what is under it; while the thumb is held it scrolls instead and
/// hovers nothing new. The selection and the results stay.
pub proof fn the_pointer_hovers_or_drags(view: SearchView, at: Point, client: Rect, dpi: u32)
    requires
        view.wf(),
        crate::geometry::roomy(client),
        dpi <= crate::panel::MAX_DPI,
        -0x8000 <= at.y < 0x8000,
    ensures
        ({
            let after = view.pointed(at, client, dpi);
            &&& after.list.selected == view.list.selected
            &&& after.results == view.results && after.search == view.search
            &&& view.thumb_grab is None ==> after.toggle_hover == view.toggle_hit(at, client, dpi)
                && after.list.hover == view.result_under(at, client, dpi) && after.list.top
                == view.list.top
            &&& view.thumb_grab is Some ==> after.toggle_hover == view.toggle_hover
                && after.list.hover == view.list.hover && after.thumb_grab == view.thumb_grab
            &&& view.unpointed().toggle_hover is None && view.unpointed().list.hover is None
            &&& view.unpointed().list.selected == view.list.selected
            &&& view.unpointed().list.top == view.list.top
        }),
{
    crate::panel::scaled_is_bounded(38, dpi as int);
    crate::panel::scaled_is_bounded(22, dpi as int);
    let area = view.area(client, dpi);
    if view.result_under(at, client, dpi) is Some {
        view.list.a_found_row_holds_the_pixel(at.y - area.top);
    }
}

/// Enter opens the selected note, and the first one where none is selected: as a preview with the
/// keyboard left in the list, with Ctrl to stay with the keyboard moved to it. Without results it
/// opens nothing.
pub proof fn enter_opens_the_selected_note(
    view: SearchView,
    client: Rect,
    dpi: u32,
    ctrl: bool,
)
    requires
        view.wf(),
    ensures
        ({
            let (after, act) = view.keyed(VK_RETURN, ctrl, client, dpi);
            let mode = if ctrl {
                OpenMode::Permanent
            } else {
                OpenMode::Preview
            };
            &&& after == view
            &&& view.list.selected matches Some(index) ==> act == Some(
                Act::Open { path: view.results@[index as int].path@, mode, focus_editor: ctrl },
            )
            &&& view.list.selected is None && view.results.len() > 0 ==> act == Some(
                Act::Open { path: view.results@[0].path@, mode, focus_editor: ctrl },
            )
            &&& view.results.len() == 0 ==> act == Some(Act::<Seq<char>>::Done { repaint: false })
            &&& view.opened(mode, ctrl) == act->0
        }),
{
}

/// Up on the first result goes back to the box; the other list keys move the selection as they do
/// in every list; a key that moves nothing is left to the panel.
pub proof fn keys_move_through_the_results(
    view: SearchView,
    client: Rect,
    dpi: u32,
    ctrl: bool,
    key: u32,
)
    requires
        view.wf(),
        view.box_made,
        key != VK_RETURN,
    ensures
        ({
            let (after, act) = view.keyed(key, ctrl, client, dpi);
            let at_top = view.list.selected is None || view.list.selected == Some(0usize);
            &&& key == VK_UP && at_top ==> act == Some(Act::<Seq<char>>::FocusBox) && after == view
            &&& !(key == VK_UP && at_top) ==> (ListKey::of_virtual_key(key) matches Some(movement)
                ==> act == Some(Act::<Seq<char>>::Done { repaint: true }) && after.list
                == view.list.after_key(movement, view.area(client, dpi).tall()))
            &&& ListKey::of_virtual_key(key) is None ==> act is None && after == view
            &&& after.results == view.results && after.search == view.search
        }),
{
}

/// Releasing the pointer lets a held thumb go, and only then lets the mouse go; the capture lost
/// elsewhere lets it go too. A character typed in the list goes on in the box, where there is one.
pub proof fn the_thumb_is_held_until_the_release(
    view: SearchView,
    wparam: usize,
    lparam: isize,
    setting: Setting,
)
    ensures
        ({
            let up = view.handled(WM_LBUTTONUP, wparam, lparam, setting);
            let lost = view.handled(WM_CAPTURECHANGED, wparam, lparam, setting);
            &&& up.0.thumb_grab is None && lost.0.thumb_grab is None
            &&& up.1 == Some(Act::<Seq<char>>::Release) <==> view.thumb_grab is Some
            &&& lost.1 == Some(Act::<Seq<char>>::Done { repaint: false })
            &&& up.0.list == view.list && lost.0.list == view.list
            &&& view.handled(WM_CHAR, wparam, lparam, setting).1 is Some ==> view.box_made
            &&& view.box_made && 0x20 <= wparam < 0x7f ==> view.handled(
                WM_CHAR,
                wparam,
                lparam,
                setting,
            ).1 == Some(Act::<Seq<char>>::TypeInBox)
            &&& wparam < 0x20 ==> view.handled(WM_CHAR, wparam, lparam, setting).1 is None
        }),
{
}

/// Presses and moves are handled where the pointer is, a double click as one.
pub proof fn pointer_messages_are_handled_where_they_are(
    view: SearchView,
    wparam: usize,
    lparam: isize,
    setting: Setting,
)
    ensures
        ({
            let at = crate::messages::point_in(lparam);
            let (client, dpi) = (setting.client, setting.dpi);
            &&& view.handled(WM_LBUTTONDOWN, wparam, lparam, setting) == (
                view.pressed(at, false, client, dpi).0,
                Some(view.pressed(at, false, client, dpi).1),
            )
            &&& view.handled(WM_LBUTTONDBLCLK, wparam, lparam, setting) == (
                view.pressed(at, true, client, dpi).0,
                Some(view.pressed(at, true, client, dpi).1),
            )
            &&& view.handled(WM_MOUSEMOVE, wparam, lparam, setting).0 == view.pointed(
                at,
                client,
                dpi,
            )
        }),
{
}

/// A query that cannot run empties the list and stops the search; one that can leaves everything as
/// it is until its search begins, but for the hint to type more.
pub proof fn a_query_keeps_the_results_until_it_runs(
    before: SearchView,
    after: SearchView,
    query: String,
    change: QueryChange,
)
    requires
        crate::search_actions::retyped(before, after, query, change),
    ensures
        after.box_text@ == query@,
        change == QueryChange::Cancel <==> !crate::text_search::runs(query@),
        change is Schedule ==> after.results == before.results && after.list == before.list
            && after.query == before.query && !(after.search is TooShort),
        change is Schedule && !(before.search is TooShort) ==> after.search == before.search,
        change == QueryChange::Cancel ==> after.shown().results.len() == 0
            && after.list.selected is None && after.list.top == 0,
        change == QueryChange::Cancel && crate::text_search::blank(query@) ==> after.shown().search
            is Idle,
        change == QueryChange::Cancel && !crate::text_search::blank(query@)
            ==> after.shown().search is TooShort,
        after.options == before.options && after.notebook == before.notebook && after.replace_open
            == before.replace_open,
{
}

/// Another notebook empties the list and the query and forgets the search; the same one, written in
/// any case, keeps them. A change while the view is hidden is remembered until it shows.
pub proof fn another_notebook_starts_over(
    before: SearchView,
    after: SearchView,
    notebook: Option<String>,
    loaded: bool,
    failed: bool,
    visible: bool,
    step: LibraryStep,
)
    requires
        crate::search_actions::relisted(before, after, notebook, loaded, failed, visible, step),
    ensures
        step == LibraryStep::Forget <==> match (before.notebook, notebook) {
            (Some(a), Some(b)) => crate::tree::lowercased(a@) != crate::tree::lowercased(b@),
            (None, None) => false,
            _ => true,
        },
        step == LibraryStep::Forget ==> after.shown().results.len() == 0 && after.query@.len() == 0
            && after.shown().search is Idle && !after.stale && after.notebook == notebook,
        step == LibraryStep::Check ==> visible && after.stale == before.stale,
        step == LibraryStep::Wait ==> !visible && after.stale,
        step != LibraryStep::Forget ==> after.results == before.results && after.query
            == before.query && after.search == before.search && after.list == before.list,
        after.loaded == loaded && after.failed == failed,
        after.box_text == before.box_text && after.options == before.options,
{
}

/// A pattern's error shows in place of the summary and keeps the results; taking it back clears no
/// other state.
pub proof fn an_error_keeps_the_results(view: SearchView, message: String)
    ensures
        ({
            let shown = view.with_error(Some(message));
            &&& crate::search_lines::summary_of(shown.shown().search, 0) == Some((message@, true))
            &&& shown.results == view.results && shown.list == view.list && shown.query
                == view.query
            &&& shown.with_error(None).search is Idle
            &&& !(view.search is PatternError) ==> view.with_error(None) == view
            &&& shown.options == view.options
        }),
{
}

/// Flipping an option changes that one and no result, and flipping it back gives the view back.
pub proof fn options_flip_back(view: SearchView, option: SearchOption, other: SearchOption)
    ensures
        view.with_flipped(option).options.on(option) == !view.options.on(option),
        other != option ==> view.with_flipped(option).options.on(other) == view.options.on(other),
        view.with_flipped(option).with_flipped(option) == view,
        view.with_flipped(option).results == view.results,
        view.with_flipped(option).run_options == view.run_options,
{
}

/// The replace shortcut opens the field wherever it is pressed but in the field itself, where it
/// closes it, and tells whether that changed anything.
pub proof fn the_replace_key_opens_and_closes(view: SearchView, in_field: bool)
    ensures
        ({
            let (changed, after) = view.after_replace_key(in_field);
            &&& after.replace_open <==> !in_field
            &&& changed <==> after.replace_open != view.replace_open
            &&& !after.after_replace_key(in_field).0
            &&& after.results == view.results && after.options == view.options
        }),
{
}

/// Going down from the box selects the result that was selected, or the first, and is refused
/// without one.
pub proof fn the_results_are_entered_where_they_were_left(
    view: SearchView,
    client: Rect,
    dpi: u32,
)
    requires
        view.wf(),
        view.area(client, dpi).tall() <= i32::MAX,
    ensures
        ({
            let (entered, after) = view.entering(client, dpi);
            &&& entered <==> view.results.len() > 0
            &&& !entered ==> after == view
            &&& entered && view.list.selected is Some ==> after.list.selected == view.list.selected
            &&& entered && view.list.selected is None ==> after.list.selected == Some(0usize)
            &&& after.results == view.results
        }),
{
    if view.results.len() > 0 {
        let index = match view.list.selected {
            Some(index) => index as int,
            None => 0,
        };
        view.list.a_selected_row_is_in_view(index, view.area(client, dpi).tall());
    }
}

/// The tooltip's tools are set where they differ, and always on a new tooltip; then the same tools
/// again are not.
pub proof fn tools_are_set_when_they_change(view: SearchView, tools: Vec<Tool>, created: bool)
    ensures
        ({
            let (sets, after) = view.retooled(tools, created);
            &&& created ==> sets
            &&& sets ==> after.tools_shown == tools
            &&& !sets ==> after == view
            &&& sets ==> !after.retooled(tools, false).0
            &&& tools.len() != view.tools_shown.len() ==> sets
        }),
{
    assert(crate::search_actions::tool_models(tools@).len() == tools.len());
    assert(crate::search_actions::tool_models(view.tools_shown@).len() == view.tools_shown.len());
}

/// A replace is offered every listed note once, in order, with the stamp its search read, and is
/// told whether more match.
pub proof fn a_replace_is_offered_the_listed_notes(
    view: SearchView,
    candidates: Seq<Candidate>,
    capped: bool,
    index: int,
)
    requires
        view.offers(candidates, capped),
        0 <= index < view.results.len(),
    ensures
        candidates.len() == view.results.len(),
        candidates[index].path == view.results@[index].path,
        candidates[index].name == view.results@[index].name,
        candidates[index].stamp == view.results@[index].stamp,
        capped ==> view.search is Done,
        view.search is Running ==> !capped,
{
}

/// The same query with the same options keeps its rows until its first batch; any other empties the
/// list at once. Either way the selected note is remembered and the search counts from nothing.
pub proof fn a_new_query_empties_the_list(view: SearchView, query: Seq<char>, total: usize)
    ensures
        ({
            let begun = view.begun(query, total);
            let again = view.query@ == query && view.run_options == view.options;
            &&& again ==> begun.results == view.results@
            &&& again && view.results.len() > 0 ==> begun.list == view.list
                && begun.replace_on_batch
            &&& !again ==> begun.results.len() == 0 && begun.list.selected is None
                && !begun.replace_on_batch && begun.list.top == 0
            &&& begun.restore == (match view.list.selected {
                Some(index) if index < view.results.len() => Some(
                    view.results@[index as int].path@,
                ),
                _ => None,
            })
            &&& begun.search matches State::Running(progress) && progress.visited == 0
                && progress.total == total && progress.all_skipped() == 0
        }),
{
}

/// The header's field, the summary line, the results and the status line stand under each other
/// and, in a panel that is tall enough, never overlap and leave no gap between them.
pub proof fn the_lines_stand_under_each_other(client: Rect, dpi: int)
    requires
        crate::geometry::roomy(client),
        96 <= dpi <= crate::panel::MAX_DPI,
        client.top + crate::panel::scaled(38, dpi) + 2 * crate::panel::scaled(22, dpi)
            <= client.bottom,
        client.left + 2 * crate::panel::scaled(12, dpi) <= client.right,
    ensures
        ({
            let field = crate::search_view::field_box(client, dpi);
            let summary = crate::search_view::summary_box(client, dpi);
            let status = crate::search_view::status_box(client, dpi);
            let alone = crate::search_view::list_box(client, dpi, false);
            let list = crate::search_view::list_box(client, dpi, true);
            &&& client.top <= field.top && field.bottom <= summary.top
            &&& field.bottom - field.top == crate::panel::scaled(28, dpi)
            &&& field.left - client.left == client.right - field.right
            &&& summary.top == client.top + crate::panel::scaled(38, dpi)
            &&& summary.bottom == list.top
            &&& summary.bottom - summary.top == crate::panel::scaled(22, dpi)
            &&& list.bottom == status.top
            &&& status.bottom == client.bottom
            &&& status.bottom - status.top == crate::panel::scaled(22, dpi)
            &&& alone.top == list.top && alone.bottom == client.bottom
            &&& list.left == client.left && list.right == client.right
            &&& summary.left == status.left && summary.right == status.right
            &&& summary.left - client.left == crate::panel::scaled(12, dpi)
            &&& client.right - summary.right == crate::panel::scaled(12, dpi)
        }),
{
    crate::panel::scaled_is_bounded(38, dpi);
    crate::panel::scaled_is_bounded(22, dpi);
    crate::panel::scaled_is_bounded(28, dpi);
    crate::panel::scaled_is_bounded(12, dpi);
    crate::panel::scaled_is_bounded(8, dpi);
    crate::panel::scaling_is_monotone(28, 38, dpi, dpi);
    crate::panel::scaling_is_monotone(8, 12, dpi, dpi);
}

/// The box is inside its field, left of the toggles with their gap, and as tall as its text where
/// that fits, as far from the top as from the bottom but for one pixel.
pub proof fn the_box_fits_its_field(field: Rect, text: int, dpi: int)
    requires
        field.in_range(),
        0 <= dpi <= crate::panel::MAX_DPI,
        1 <= text <= field.bottom - field.top - 2,
        field.left + crate::panel::scaled(8, dpi) + crate::option_toggles::reserved(dpi)
            <= field.right,
    ensures
        ({
            let rect = crate::search_actions::box_in(field, text, dpi);
            &&& rect.left == field.left + crate::panel::scaled(8, dpi)
            &&& rect.right == field.right - crate::option_toggles::reserved(dpi)
            &&& rect.bottom - rect.top == text
            &&& -1 <= (rect.top - field.top) - (field.bottom - rect.bottom) <= 1
            &&& rect.right <= crate::option_toggles::toggle_rect(field, dpi, 0).left
        }),
{
    crate::panel::scaled_is_bounded(8, dpi);
    crate::panel::scaled_is_bounded(22, dpi);
    crate::panel::scaled_is_bounded(2, dpi);
    crate::panel::scaled_is_bounded(3, dpi);
    crate::option_toggles::toggles_never_overlap(field, dpi);
}

/// The summary counts what is listed, and says so where a finished search found nothing; only a
/// pattern's error is marked as one. Nothing typed reads nothing.
pub proof fn the_summary_counts_the_results(state: StateModel, results: nat)
    ensures
        ({
            let summary = crate::search_lines::summary_of(state, results);
            &&& summary matches Some((_, error)) ==> (error <==> state is PatternError)
            &&& state is Idle ==> summary is None
            &&& state is TooShort ==> summary == Some((TOO_SHORT@, false))
            &&& state is Running && results == 0 ==> summary is None
            &&& state is Done && results == 0 ==> summary == Some((NO_MATCH@, false))
            &&& state is Running && results > 0 ==> summary == Some(
                (crate::search_lines::counted(results, false), false),
            )
            &&& (state matches State::Done { capped, .. } && !capped) && results > 0 ==> summary
                == Some((crate::search_lines::counted(results, false), false))
            &&& (state matches State::Done { capped, .. } && capped) && results > 0 ==> summary
                == Some((crate::search_lines::counted(results, true), false))
        }),
{
}

/// A count reads as one note for one and as notes for any other number; a capped search reads the
/// same whatever is listed.
pub proof fn counts_read_in_singular_and_plural(count: nat, other: nat)
    ensures
        crate::search_lines::counted(count, true) == crate::search_lines::counted(other, true),
        "+ notes"@.is_suffix_of(crate::search_lines::counted(count, true)),
        count != 1 ==> crate::search_lines::counted(count, false) == crate::search_lines::grouped(
            count,
        ) + " notes"@,
        crate::search_lines::counted(1, false) == "1 note"@,
{
}

/// The status line tells how far a search is while it runs, and what it left out once it is done;
/// where it left nothing out there is none.
pub proof fn the_status_line_tells_of_skipped_notes(progress: Progress, capped: bool)
    ensures
        crate::search_lines::status_of(State::Running(progress)) is Some,
        crate::search_lines::status_of(State::Done { progress, capped }) is Some
            <==> progress.skipped@[0] > 0 || progress.skipped@[1] > 0 || progress.skipped@[2] > 0
            || progress.skipped@[3] > 0,
        progress.all_skipped() > 1 ==> crate::search_lines::status_of(
            State::Done { progress, capped },
        ) == Some(
            crate::search_lines::grouped(progress.all_skipped() as nat)
                + " notes weren't searched"@,
        ),
        progress.all_skipped() == 0 ==> crate::search_lines::skipped_lines(progress, 4)
            == Seq::<char>::empty(),
{
    reveal_with_fuel(crate::search_lines::skipped_lines, 5);
}

/// Where one reason alone skipped notes, the tooltip is that reason's line.
pub proof fn one_reason_is_one_line(progress: Progress, index: int)
    requires
        0 <= index < 4,
        progress.skipped@[index] > 0,
        forall|i: int| 0 <= i < 4 && i != index ==> #[trigger] progress.skipped@[i] == 0,
    ensures
        crate::search_lines::skipped_lines(progress, 4) == crate::search_lines::grouped(
            progress.skipped@[index] as nat,
        ) + crate::search_lines::reason(index),
{
    reveal_with_fuel(crate::search_lines::skipped_lines, 5);
    assert(index == 0 || progress.skipped@[0] == 0);
    assert(index == 1 || progress.skipped@[1] == 0);
    assert(index == 2 || progress.skipped@[2] == 0);
    assert(index == 3 || progress.skipped@[3] == 0);
    let line = crate::search_lines::grouped(progress.skipped@[index] as nat)
        + crate::search_lines::reason(index);
    assert(Seq::<char>::empty() + Seq::<char>::empty() + crate::search_lines::grouped(
        progress.skipped@[index] as nat,
    ) + crate::search_lines::reason(index) =~= line);
}

/// A notice stands in place of the results until a notebook is open and loaded, and where its load
/// failed; the tools of the toggles are there while the field is.
pub proof fn a_notice_stands_until_the_notebook_is_loaded(
    open: bool,
    loaded: bool,
    failed: bool,
    view: SearchView,
)
    ensures
        crate::search_lines::notice_for(open, loaded, failed) is None <==> open && loaded
            && !failed,
        crate::search_lines::notice_for(false, loaded, failed) == Some(
            crate::search_lines::NO_NOTEBOOK@,
        ),
        open && failed ==> crate::search_lines::notice_for(open, loaded, failed)
            == crate::search_lines::notice_for(open, !loaded, failed),
        view.tips().len() == 4,
        view.box_made ==> view.tips()[0] == crate::option_toggles::tip_of(SearchOption::Case)
            && view.tips()[1] == crate::option_toggles::tip_of(SearchOption::WholeWord)
            && view.tips()[2] == crate::option_toggles::tip_of(SearchOption::Regex),
        !view.box_made ==> view.tips()[0].len() == 0 && view.tips()[1].len() == 0
            && view.tips()[2].len() == 0,
        !(view.search is Done) ==> view.tips()[3].len() == 0,
        view.notice_shown() is Some ==> view.tips()[3].len() == 0,
{
}

/// In the box Enter opens, Down and Page Down go into the results, and Escape empties the box, or
/// where it is empty returns to the editor. Their characters are swallowed; what edits the text is
/// left to the box.
pub proof fn the_box_answers_its_keys(wparam: usize, lparam: isize, empty: bool, ctrl: bool)
    ensures
        ({
            let key = crate::messages::low_word(wparam);
            let down = crate::search_actions::box_answer(WM_KEYDOWN, wparam, lparam, empty, ctrl);
            let typed = crate::search_actions::box_answer(WM_CHAR, wparam, lparam, empty, ctrl);
            &&& key == VK_RETURN ==> down == (BoxStep::OpenSelected {
                mode: if ctrl {
                    OpenMode::Permanent
                } else {
                    OpenMode::Preview
                },
                focus_editor: ctrl,
            })
            &&& key == VK_DOWN || key == VK_NEXT ==> down == BoxStep::EnterResults
            &&& key == VK_ESCAPE && empty ==> down == BoxStep::FocusContent
            &&& key == VK_ESCAPE && !empty ==> down == BoxStep::Clear
            &&& key != VK_RETURN && key != VK_DOWN && key != VK_NEXT && key != VK_ESCAPE ==> down
                == BoxStep::Edit
            &&& typed == BoxStep::Swallow <==> key == VK_RETURN || key == VK_ESCAPE
            &&& typed == BoxStep::Swallow || typed == BoxStep::Edit
            &&& crate::search_actions::box_answer(WM_PASTE, wparam, lparam, empty, ctrl)
                == BoxStep::Edit
            &&& crate::search_actions::box_answer(WM_PAINT, wparam, lparam, empty, ctrl)
                == BoxStep::PaintPlaceholder <==> empty
        }),
{
}

/// A dragged thumb follows the pointer over the results' own area: held by the point it was grabbed
/// at, it shows the list's start where it is back at the area's top, and the end where it has
/// reached the bottom.
pub proof fn a_grabbed_thumb_scrolls_the_results(
    view: SearchView,
    grab: i32,
    at: Point,
    client: Rect,
    dpi: u32,
)
    requires
        view.wf(),
        view.thumb_grab == Some(grab),
        crate::geometry::roomy(client),
        0 < view.area(client, dpi).tall(),
        view.list.count > view.list.page(view.area(client, dpi).tall()),
        -0x8000 <= at.y < 0x8000,
        0 <= grab <= 0x8000,
    ensures
        ({
            let area = view.area(client, dpi);
            let after = view.pointed(at, client, dpi);
            let start = at.y - area.top - grab;
            &&& start <= 0 ==> after.list.top == 0
            &&& start >= area.tall() ==> after.list.top == view.list.last_top(area.tall())
        }),
{
    let area = view.area(client, dpi);
    let start = crate::geometry::saturated(at.y - area.top - grab);
    view.list.thumb_stays_in_its_track(area.tall());
    crate::row_list_laws::the_track_spans_the_list(view.list, start as int, area.tall());
}

} // verus!
