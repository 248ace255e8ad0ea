//! What screen readers find among the children of the two views, what each child is told as, and
//! the tips and labels that the Notebook view shows.

use crate::drawing::Item;
use crate::geometry::{Point, Rect};
use crate::notebook_children::NotebookChild;
use crate::notebook_hits::{NEW_NOTE, OPEN_NOTEBOOK, RETRY};
use crate::notebook_view::{Frame, HeaderButton, Mode, NotebookView};
use crate::option_toggles::SearchOption;
use crate::panel_cursor::Cursor;
use crate::search_children::{
    SearchChild, ROLE_SYSTEM_CHECKBUTTON, ROLE_SYSTEM_STATICTEXT, ROLE_SYSTEM_TEXT, STATE_CHECKED,
    STATE_READONLY,
};
use crate::search_lines::TextHit;
use crate::search_view::SearchView;
use crate::sidebar_accessibility::{
    ROLE_SYSTEM_LISTITEM, ROLE_SYSTEM_OUTLINEITEM, ROLE_SYSTEM_PUSHBUTTON, STATE_FOCUSABLE,
    STATE_FOCUSED,
};
use crate::tree::Kind;
use crate::tree_paint::DragSource;
use vstd::prelude::*;

verus! {

/// The children stand in the order they are painted: the buttons, the Open Editors header and its
/// rows, the root row, the recent notebooks and the tree's rows.
pub proof fn notebook_children_stand_in_order(view: NotebookView, frame: Frame, index: usize)
    requires
        view.wf(),
    ensures
        ({
            let buttons = view.pushes(frame).len();
            let header = view.child_place(frame, NotebookChild::EditorsHeader);
            &&& header == Some(buttons as usize)
            &&& index < buttons ==> view.child_place(frame, NotebookChild::Button(index)) == Some(
                index,
            )
            &&& view.editors_expanded && index < view.editors.rows.len() ==> view.child_place(
                frame,
                NotebookChild::Editor(index),
            ) == Some((buttons + 1 + index) as usize)
            &&& !view.editors_expanded ==> view.child_place(frame, NotebookChild::Editor(index))
                is None
            &&& view.mode == Mode::NoNotebook ==> view.child_place(frame, NotebookChild::Root)
                is None
            &&& view.mode != Mode::NoNotebook && !view.editors_expanded ==> view.child_place(
                frame,
                NotebookChild::Root,
            ) == Some((buttons + 1) as usize)
            &&& !view.shows_tree() ==> view.child_place(frame, NotebookChild::Row(index)) is None
            &&& index >= view.recent.len() ==> view.child_place(
                frame,
                NotebookChild::Recent(index),
            ) is None
        }),
{
}

/// The current child is what the keyboard selection is on: a header, a tab's row, the root row, or
/// the selected row of what is listed.
pub proof fn the_current_child_has_the_keyboard(view: NotebookView, index: usize)
    ensures
        view.cursor == Cursor::EditorsHeader ==> view.current() == Some(
            NotebookChild::EditorsHeader,
        ),
        view.cursor == Cursor::Editor(index) ==> view.current() == Some(
            NotebookChild::Editor(index),
        ),
        view.cursor == Cursor::Root ==> view.current() == Some(NotebookChild::Root),
        view.cursor == Cursor::Tree && view.list.selected is None ==> view.current() is None,
        view.cursor == Cursor::Tree && view.list.selected == Some(index) && view.mode
            == Mode::NoNotebook ==> view.current() == Some(NotebookChild::Recent(index)),
        view.cursor == Cursor::Tree && view.list.selected == Some(index) && view.mode
            != Mode::NoNotebook ==> view.current() == Some(NotebookChild::Row(index)),
{
}

/// Selecting a child moves the keyboard selection to it: a tab's row and a tree row come into view;
/// a button cannot be selected, nor a recent notebook while one is open.
pub proof fn a_selected_child_takes_the_keyboard(view: NotebookView, frame: Frame, index: usize)
    requires
        view.wf(),
        frame.wf(),
    ensures
        view.selecting_child(Some(NotebookChild::EditorsHeader), frame).cursor
            == Cursor::EditorsHeader,
        view.selecting_child(Some(NotebookChild::Root), frame).cursor == Cursor::Root,
        view.selecting_child(Some(NotebookChild::Editor(index)), frame).cursor == Cursor::Editor(
            index,
        ),
        view.selecting_child(Some(NotebookChild::Button(index)), frame) == view,
        view.selecting_child(None, frame) == view,
        index < view.list.count ==> view.selecting_child(
            Some(NotebookChild::Row(index)),
            frame,
        ).list.selected == Some(index) && view.selecting_child(
            Some(NotebookChild::Row(index)),
            frame,
        ).cursor == Cursor::Tree,
        view.mode != Mode::NoNotebook ==> view.selecting_child(
            Some(NotebookChild::Recent(index)),
            frame,
        ) == view,
        view.mode == Mode::NoNotebook && index < view.list.count ==> view.selecting_child(
            Some(NotebookChild::Recent(index)),
            frame,
        ).list.selected == Some(index),
        index < view.editors.rows.len() ==> {
            let list = view.selecting_child(Some(NotebookChild::Editor(index)), frame).editors.list;
            list.top <= index < list.top + list.page(frame.layout.editors_list.tall())
        },
{
    let area = view.area(frame);
    if index < view.list.count {
        view.list.a_selected_row_is_in_view(index as int, area.bottom - area.top);
    }
    if index < view.editors.rows.len() {
        view.editors.list.a_selected_row_is_in_view(
            index as int,
            frame.layout.editors_list.tall(),
        );
    }
}

/// Each child is told as what it is: a button as a button, a header as an item that expands, a tab
/// and a row as items, a recent notebook as a list item, each with its own name and place.
pub proof fn notebook_children_are_told_as_they_are(
    view: NotebookView,
    frame: Frame,
    index: usize,
    focused: bool,
)
    ensures
        ({
            let item = |child: NotebookChild| view.child_item(frame, child, focused);
            let button = item(NotebookChild::Button(index));
            let header = item(NotebookChild::EditorsHeader);
            let root = item(NotebookChild::Root);
            let tab = item(NotebookChild::Editor(index));
            let recent = item(NotebookChild::Recent(index));
            let row = item(NotebookChild::Row(index));
            &&& button.role == ROLE_SYSTEM_PUSHBUTTON && button.name == view.pushes(
                frame,
            )[index as int].0 && button.rect == view.pushes(frame)[index as int].1
            &&& header.role == ROLE_SYSTEM_OUTLINEITEM && header.rect
                == frame.layout.editors_header && header.name == "Open editors, "@
                + crate::text::decimal(view.editors.rows.len() as nat)
            &&& root.role == ROLE_SYSTEM_OUTLINEITEM && root.name == view.name@ && root.rect
                == frame.layout.root
            &&& tab.role == ROLE_SYSTEM_OUTLINEITEM && tab.name == crate::open_editors::spoken(
                view.editors.rows@[index as int]@,
            )
            &&& recent.role == ROLE_SYSTEM_LISTITEM && recent.name == view.spoken_recent(
                index as int,
            )
            &&& row.role == ROLE_SYSTEM_OUTLINEITEM && row.name
                == crate::sidebar_accessibility::row_name(view.rows@[index as int])
            &&& row.rect == crate::sidebar_accessibility::row_place(
                view.area(frame),
                view.list,
                index as int,
            )
        }),
{
}

/// A child keeps its identity by what it is of: a tab by its document, a row and a recent notebook by
/// its path; a folder and a note of one path are told apart, and a button has none.
pub proof fn identities_follow_what_children_are_of(view: NotebookView, index: usize)
    ensures
        view.child_named(NotebookChild::Button(index)) is None,
        view.child_named(NotebookChild::Editor(index)) matches Some((kind, detail)) && kind
            == "editor"@ && detail == crate::text::decimal(
            view.editors.rows@[index as int].id.0 as nat,
        ),
        view.child_named(NotebookChild::Recent(index)) matches Some((kind, detail)) && kind
            == "recent"@ && detail == crate::paths::path_key(view.recent@[index as int]@),
        view.rows@[index as int].kind matches Kind::Folder(path) ==> view.child_named(
            NotebookChild::Row(index),
        ) == Some(("folder"@, crate::paths::path_key(path@))),
        view.rows@[index as int].kind matches Kind::Note(path) ==> view.child_named(
            NotebookChild::Row(index),
        ) == Some(("note"@, crate::paths::path_key(path@))),
        view.child_named(NotebookChild::EditorsHeader) != view.child_named(NotebookChild::Root),
{
    reveal_strlit("open-editors");
    reveal_strlit("notebook-root");
    assert("open-editors"@.len() != "notebook-root"@.len());
}

/// A point is on the first button that holds it; below the buttons on the child whose place holds
/// it, and a row's is found in its own list.
pub proof fn a_point_finds_its_child(view: NotebookView, frame: Frame, at: Point, index: int)
    requires
        0 <= index < view.pushes(frame).len(),
        view.pushes(frame)[index].1.has(at.x as int, at.y as int),
        forall|i: int|
            0 <= i < index ==> !(#[trigger] view.pushes(frame)[i]).1.has(at.x as int, at.y as int),
    ensures
        view.child_under(frame, at) == Some(index as usize),
{
    the_first_button_is_found(view.pushes(frame), at, 0, index);
}

proof fn the_first_button_is_found(
    buttons: Seq<(Seq<char>, Rect)>,
    at: Point,
    from: int,
    index: int,
)
    requires
        0 <= from <= index < buttons.len(),
        buttons[index].1.has(at.x as int, at.y as int),
        forall|i: int| from <= i < index ==> !(#[trigger] buttons[i]).1.has(at.x as int, at.y as int),
    ensures
        crate::notebook_children::button_from(buttons, at, from) == Some(index as usize),
    decreases index - from,
{
    if from < index {
        assert(!buttons[from].1.has(at.x as int, at.y as int));
        the_first_button_is_found(buttons, at, from + 1, index);
    }
}

proof fn no_button_is_found(buttons: Seq<(Seq<char>, Rect)>, at: Point, from: int)
    requires
        0 <= from <= buttons.len(),
        forall|i: int|
            from <= i < buttons.len() ==> !(#[trigger] buttons[i]).1.has(at.x as int, at.y as int),
    ensures
        crate::notebook_children::button_from(buttons, at, from) is None,
    decreases buttons.len() - from,
{
    if from < buttons.len() {
        assert(!buttons[from].1.has(at.x as int, at.y as int));
        no_button_is_found(buttons, at, from + 1);
    }
}

/// Beside the buttons a point is on the header, the root row or a row, in whose band it is, and on
/// nothing where it is in none.
pub proof fn a_point_beside_the_buttons_finds_its_band(
    view: NotebookView,
    frame: Frame,
    at: Point,
)
    requires
        forall|i: int|
            0 <= i < view.pushes(frame).len() ==> !(#[trigger] view.pushes(frame)[i]).1.has(
                at.x as int,
                at.y as int,
            ),
    ensures
        ({
            let found = view.child_under(frame, at);
            let layout = frame.layout;
            let (x, y) = (at.x as int, at.y as int);
            &&& layout.editors_header.has(x, y) ==> found == view.child_place(
                frame,
                NotebookChild::EditorsHeader,
            )
            &&& !layout.editors_header.has(x, y) && !layout.editors_list.has(x, y)
                && layout.root.has(x, y) ==> found == view.child_place(frame, NotebookChild::Root)
            &&& !layout.editors_header.has(x, y) && !layout.editors_list.has(x, y)
                && !layout.root.has(x, y) && !view.area(frame).has(x, y) ==> found is None
            &&& !layout.editors_header.has(x, y) && layout.editors_list.has(x, y) ==> (
            view.editors.list.row_under(y - layout.editors_list.top) matches Some(row) ==> found
                == view.child_place(frame, NotebookChild::Editor(row)))
        }),
{
    no_button_is_found(view.pushes(frame), at, 0);
}

/// The push buttons are those that are painted: the root row's four with a notebook, and the one or
/// two of the state that shows.
pub proof fn push_buttons_are_those_painted(view: NotebookView, frame: Frame)
    ensures
        ({
            let root = view.root_buttons(frame);
            let state = view.state_buttons(frame);
            let boxes = crate::tree_paint::state_boxes(frame.layout.body, frame.dpi as int);
            &&& view.mode == Mode::NoNotebook ==> root.len() == 0 && state == seq![
                (OPEN_NOTEBOOK@, boxes.button),
            ]
            &&& view.mode != Mode::NoNotebook ==> root.len() == 4 && root[0].1
                == frame.root.favorite && root[1].1 == frame.root.new_note && root[2].1
                == frame.root.new_folder && root[3].1 == frame.root.more
            &&& view.mode != Mode::NoNotebook ==> root[0].0 == crate::notebook_hits::button_label(
                HeaderButton::Favorite,
                view.favorite,
            ) && root[1].0 == NEW_NOTE@
            &&& view.mode == Mode::Empty && view.root_expanded ==> state == seq![
                (NEW_NOTE@, boxes.button),
            ]
            &&& view.mode == Mode::Failed && view.root_expanded ==> state == seq![
                (RETRY@, boxes.button),
                (OPEN_NOTEBOOK@, boxes.second),
            ]
            &&& view.mode == Mode::Tree || view.mode == Mode::Loading ==> state.len() == 0
            &&& view.mode != Mode::NoNotebook && !view.root_expanded ==> state.len() == 0
        }),
{
}

/// The tips are those of what shows: the notebook's path over its name, the buttons' names with a
/// notebook, a tab's path, and a row's name only where it does not fit.
pub proof fn tips_tell_what_does_not_show(view: NotebookView, frame: Frame, width: int)
    ensures
        ({
            let tips = view.tips(frame, width);
            &&& tips.len() == 6
            &&& tips[0].text == (if view.root is Some {
                view.root->0@
            } else {
                Seq::empty()
            })
            &&& tips[0].rect == frame.root.name && tips[1].rect == frame.root.favorite
            &&& view.mode == Mode::NoNotebook ==> tips[1].text.len() == 0 && tips[2].text.len() == 0
                && tips[3].text.len() == 0 && tips[4].text.len() == 0
            &&& view.mode != Mode::NoNotebook ==> tips[1].text
                == crate::notebook_hits::button_label(HeaderButton::Favorite, view.favorite)
                && tips[2].text == NEW_NOTE@
            &&& view.editors.list.hover is None && view.list.hover is None ==> tips[5].text.len()
                == 0
        }),
        view.list.hover matches Some(index) ==> (view.mode == Mode::Tree && index < view.rows.len()
            ==> match crate::notebook_view::row_box(view.area(frame), view.list, index) {
            Some(rect) => {
                let name = crate::tree_paint::parts_of(
                    rect,
                    view.rows@[index as int].depth as int,
                    frame.dpi as int,
                ).name;
                &&& width <= name.right - name.left ==> view.hovered_tip(frame, width) is None
                &&& width > name.right - name.left ==> view.hovered_tip(frame, width) == Some(
                    (name, view.rows@[index as int].name@),
                )
            },
            None => view.hovered_tip(frame, width) is None,
        }),
{
}

/// A recent notebook is spoken with its hint where it has one, and a dragged thing is labelled with
/// its own icon and name.
pub proof fn names_are_spoken_and_dragged(view: NotebookView, index: int)
    requires
        0 <= index < view.recent_names.len(),
    ensures
        view.recent_names@[index].hint is None ==> view.spoken_recent(index)
            == view.recent_names@[index].name@,
        view.recent_names@[index].hint matches Some(hint) ==> view.spoken_recent(index)
            == view.recent_names@[index].name@ + ", "@ + hint@,
        !view.dragging() ==> view.dragged() is None,
        view.drag matches Some(drag) ==> (drag.source is Files ==> view.dragged() is None),
        view.drag matches Some(drag) ==> (drag.started ==> (drag.source matches DragSource::Tab {
            path,
            ..
        } ==> view.dragged() == Some(
            (Item::Note(crate::paths::extension_of(path@)), crate::paths::name_of(path@)),
        ))),
        view.dragged() matches Some((item, _)) ==> (view.drag->0.source matches DragSource::Row(kind)
            ==> Some(item) == crate::tree_paint::item_of(crate::tree::kind_model(kind), false)),
{
}

/// In the Search view the box and its toggles come first, then the lines that show, then the results
/// in their order.
pub proof fn search_children_stand_in_order(view: SearchView, index: usize)
    ensures
        view.box_shown ==> view.place(SearchChild::Box) == Some(0int) && view.place(
            SearchChild::Toggle(SearchOption::Case),
        ) == Some(1int) && view.place(SearchChild::Toggle(SearchOption::WholeWord)) == Some(2int)
            && view.place(SearchChild::Toggle(SearchOption::Regex)) == Some(3int),
        !view.box_shown ==> view.place(SearchChild::Box) is None,
        view.said().0 is Some && view.box_shown ==> view.place(SearchChild::Summary) == Some(4int),
        view.said().0 is Some && !view.box_shown ==> view.place(SearchChild::Summary) == Some(0int),
        view.said().0 is None ==> view.place(SearchChild::Summary) is None,
        view.said().1 is None ==> view.place(SearchChild::Status) is None,
        view.said().0 is Some && view.said().1 is Some ==> view.place(SearchChild::Status)->0
            == view.place(SearchChild::Summary)->0 + 1,
        index < view.results.len() && view.said().1 is Some ==> view.place(
            SearchChild::Result(index),
        ) == Some(view.place(SearchChild::Status)->0 + 1 + index),
        index + 1 < view.results.len() ==> view.place(SearchChild::Result((index + 1) as usize))->0
            == view.place(SearchChild::Result(index))->0 + 1,
        index >= view.results.len() ==> view.place(SearchChild::Result(index)) is None,
        view.notice_shown() is Some ==> view.said() == (view.notice_shown(), None::<Seq<char>>),
{
}

/// Each child of the Search view is told as what it is: the box with its text, a toggle with whether
/// it is on, a line with what it reads, a result with its note's name, folder and snippet.
pub proof fn search_children_are_told_as_they_are(
    view: SearchView,
    client: Rect,
    dpi: u32,
    typing: bool,
    focused: bool,
    option: SearchOption,
    row: usize,
)
    ensures
        ({
            let item = |child: SearchChild| view.item(child, client, dpi, typing, focused);
            let field = crate::search_view::field_box(client, dpi as int);
            let toggle = item(SearchChild::Toggle(option));
            let result = item(SearchChild::Result(row));
            let summary = item(SearchChild::Summary);
            &&& item(SearchChild::Box).role == ROLE_SYSTEM_TEXT && item(SearchChild::Box).value
                == view.box_text@ && item(SearchChild::Box).name == view.placeholder@ && item(
                SearchChild::Box,
            ).rect == field
            &&& toggle.role == ROLE_SYSTEM_CHECKBUTTON && toggle.name
                == crate::option_toggles::label_of(option)
            &&& toggle.state == (if view.options.on(option) {
                STATE_CHECKED
            } else {
                0
            })
            &&& exists|i: int|
                0 <= i < 3 && crate::option_toggles::option_at(i) == option && toggle.rect
                    == #[trigger] crate::option_toggles::toggle_rect(field, dpi as int, i)
            &&& summary.role == ROLE_SYSTEM_STATICTEXT && summary.state == STATE_READONLY
                && summary.rect == crate::search_view::summary_box(client, dpi as int)
            &&& view.said().0 matches Some(text) ==> summary.name == text
            &&& view.said().1 matches Some(text) ==> item(SearchChild::Status).name == text && item(
                SearchChild::Status,
            ).rect == crate::search_view::status_box(client, dpi as int)
            &&& result.role == ROLE_SYSTEM_LISTITEM && result.name
                == crate::search_lines::spoken_result(view.results@[row as int])
        }),
{
    let field = crate::search_view::field_box(client, dpi as int);
    let place = crate::search_children::toggle_place(option);
    assert(crate::option_toggles::option_at(place) == option);
    assert(view.item(SearchChild::Toggle(option), client, dpi, typing, focused).rect
        == crate::option_toggles::toggle_rect(field, dpi as int, place));
}

/// A result is spoken with its name first and its snippet last, and with its folder between them
/// where it is in one.
pub proof fn a_result_is_spoken_with_its_folder(hit: TextHit)
    ensures
        hit.name@.is_prefix_of(crate::search_lines::spoken_result(hit)),
        hit.snippet.text@.is_suffix_of(crate::search_lines::spoken_result(hit)),
        hit.folder@.len() == 0 ==> crate::search_lines::spoken_result(hit) == hit.name@ + ": "@
            + hit.snippet.text@,
        hit.folder@.len() > 0 ==> crate::search_lines::spoken_result(hit) == hit.name@ + ", "@
            + hit.folder@ + ": "@ + hit.snippet.text@,
{
}

/// A point of the field is on the toggle that holds it, else on the box; below it on the line or the
/// result it is on.
pub proof fn a_point_finds_its_search_child(view: SearchView, at: Point, client: Rect, dpi: u32)
    ensures
        ({
            let (x, y) = (at.x as int, at.y as int);
            let field = crate::search_view::field_box(client, dpi as int);
            let found = view.child_under(at, client, dpi);
            let toggle = crate::option_toggles::toggle_under(field, dpi as int, x, y);
            &&& view.box_shown && field.has(x, y) && toggle is Some ==> found == Some(
                SearchChild::Toggle(toggle->0),
            )
            &&& view.box_shown && field.has(x, y) && toggle is None ==> found == Some(
                SearchChild::Box,
            )
            &&& found == Some(SearchChild::Summary) ==> view.said().0 is Some
                && crate::search_view::summary_box(client, dpi as int).has(x, y)
            &&& found == Some(SearchChild::Status) ==> view.said().1 is Some
                && crate::search_view::status_box(client, dpi as int).has(x, y)
            &&& found matches Some(SearchChild::Result(row)) ==> view.result_under(at, client, dpi)
                == Some(row)
            &&& found is None ==> view.result_under(at, client, dpi) is None
        }),
{
}

/// Selecting a result's child selects that result; no other child can be selected.
pub proof fn only_results_are_selected(view: SearchView, index: int, client: Rect, dpi: u32)
    requires
        view.wf(),
        crate::geometry::roomy(client),
        dpi <= crate::panel::MAX_DPI,
    ensures
        view.child(index) matches Some(SearchChild::Result(row)) ==> view.selecting_child(
            index,
            client,
            dpi,
        ).list.selected == Some(row),
        !(view.child(index) matches Some(SearchChild::Result(_))) ==> view.selecting_child(
            index,
            client,
            dpi,
        ) == view,
{
    let area = view.area(client, dpi);
    crate::panel::scaled_is_bounded(38, dpi as int);
    crate::panel::scaled_is_bounded(22, dpi as int);
    if let Some(SearchChild::Result(row)) = view.child(index) {
        view.list.a_selected_row_is_in_view(row as int, area.bottom - area.top);
    }
}

/// The lines speak where what they say changed, while the view shows: a running search at most once
/// in an interval, and its end always. What was spoken is remembered, so it is not spoken again.
pub proof fn the_lines_speak_when_they_change(
    before: SearchView,
    after: SearchView,
    settled: bool,
    visible: bool,
    now: u64,
    changed: Seq<usize>,
)
    requires
        crate::search_children::announced(before, after, settled, visible, now, changed),
        before.spoken.at matches Some(at) ==> at <= now,
    ensures
        ({
            let same = (match before.said().0 {
                Some(text) => text,
                None => Seq::empty(),
            }) == before.spoken.summary@ && (match before.said().1 {
                Some(text) => text,
                None => Seq::empty(),
            }) == before.spoken.status@;
            &&& !visible || same ==> changed.len() == 0 && after == before
            &&& visible && !same && (settled || !(before.search is Running)) ==> after.spoken.at
                == Some(now)
            &&& before.search is Running && !settled && (before.spoken.at matches Some(at) && now
                - at < 1000) ==> changed.len() == 0
            &&& after.spoken.at == Some(now) && before.spoken.at != Some(now) ==> !after.speaks(
                settled,
                now,
            )
            &&& before.said().0 matches Some(text) ==> (visible && settled && text
                != before.spoken.summary@ ==> changed.len() > 0 && Some(changed[0] as int)
                == before.place(SearchChild::Summary))
            &&& after.results == before.results && after.search == before.search
        }),
{
}

/// A field is told to have the focus exactly where it has it, and holds the text it shows; a toggle
/// is told to be checked exactly where it is.
pub proof fn fields_and_toggles_tell_their_state(
    name: Seq<char>,
    text: Seq<char>,
    on: bool,
    rect: Rect,
)
    ensures
        ({
            let field = crate::search_children::field_model(name, text, on, rect);
            &&& (field.state & STATE_FOCUSED != 0) == on
            &&& field.state & STATE_FOCUSABLE != 0
            &&& (field.name, field.value, field.rect) == (name, text, rect)
        }),
        ({
            let toggle = crate::search_children::check_model(name, on, rect);
            &&& (toggle.state & STATE_CHECKED != 0) == on
            &&& (toggle.name, toggle.rect) == (name, rect)
        }),
{
    assert((0x0010_0000u32 | 0x0000_0004u32) & 0x0000_0004u32 != 0) by (bit_vector);
    assert((0x0010_0000u32 | 0x0000_0004u32) & 0x0010_0000u32 != 0) by (bit_vector);
    assert(0x0010_0000u32 & 0x0000_0004u32 == 0) by (bit_vector);
    assert(0x0010_0000u32 & 0x0010_0000u32 != 0) by (bit_vector);
    assert(0x0000_0010u32 & 0x0000_0010u32 != 0) by (bit_vector);
    assert(0u32 & 0x0000_0010u32 == 0) by (bit_vector);
}

} // verus!
