//! What screen readers are told of the sidebar, and what the pointer's messages mean to the
//! Notebook view.

use crate::document::DocumentId;
use crate::geometry::{Point, Rect};
use crate::messages::{WM_CHAR, WM_CONTEXTMENU, WM_KEYDOWN, WM_LBUTTONDOWN, WM_MOUSEMOVE};
use crate::notebook_input::{Input, Wheeled};
use crate::notebook_view::{Frame, Hit, NotebookView, RowPart};
use crate::row_list::RowListState;
use crate::sidebar_accessibility::{
    AccessibleMark, Action, ItemModel, Named, Reply, EVENT_OBJECT_FOCUS, EVENT_OBJECT_NAMECHANGE,
    EVENT_OBJECT_REORDER, EVENT_OBJECT_SELECTION, EVENT_OBJECT_STATECHANGE, NAVDIR_DOWN,
    NAVDIR_FIRSTCHILD, NAVDIR_LASTCHILD, NAVDIR_NEXT, NAVDIR_PREVIOUS, NAVDIR_UP,
    ROLE_SYSTEM_LISTITEM, ROLE_SYSTEM_OUTLINEITEM, ROLE_SYSTEM_PUSHBUTTON, SELFLAG_TAKEFOCUS,
    SELFLAG_TAKESELECTION, STATE_COLLAPSED, STATE_EXPANDED, STATE_FOCUSABLE, STATE_FOCUSED,
    STATE_OFFSCREEN, STATE_PRESSED, STATE_SELECTED,
};
use crate::tree::TreeRow;
use vstd::prelude::*;

verus! {

/// A row that expands is offered to be collapsed where it is expanded and expanded where it is
/// collapsed; a button is pressed and everything else opened. The offer is for what the row shows.
pub proof fn rows_offer_the_opposite_of_what_they_show(
    row: TreeRow,
    selected: bool,
    focused: bool,
    rect: Rect,
    visible: bool,
    name: Seq<char>,
)
    ensures
        ({
            let item = crate::sidebar_accessibility::outlined(
                row,
                selected,
                focused,
                rect,
                visible,
            );
            let action = crate::sidebar_accessibility::action_of(item.role, item.state);
            &&& row.kind is Folder && row.expanded ==> action == "Collapse"@
            &&& row.kind is Folder && !row.expanded ==> action == "Expand"@
            &&& !(row.kind is Folder) ==> action == "Open"@
            &&& item.role == ROLE_SYSTEM_OUTLINEITEM
            &&& item.rect == rect
            &&& item.value == crate::text::decimal(row.depth as nat)
            &&& (item.state & STATE_SELECTED != 0) == selected
            &&& (item.state & STATE_OFFSCREEN != 0) == !visible
            &&& crate::sidebar_accessibility::action_of(
                ROLE_SYSTEM_PUSHBUTTON,
                item.state,
            ) == "Press"@
        }),
{
    crate::sidebar_accessibility::row_states_can_be_read_back(selected, focused, visible);
    let bits = crate::sidebar_accessibility::row_bits(selected, focused, visible);
    let expansion = crate::sidebar_accessibility::expansion(row);
    let whole = bits | expansion;
    expansions_are_read_back(bits, expansion);
}

proof fn expansions_are_read_back(bits: u32, expansion: u32)
    requires
        bits & (STATE_EXPANDED | STATE_COLLAPSED | STATE_PRESSED) == 0,
        expansion == 0 || expansion == STATE_EXPANDED || expansion == STATE_COLLAPSED,
    ensures
        ((bits | expansion) & STATE_EXPANDED != 0) == (expansion == STATE_EXPANDED),
        ((bits | expansion) & STATE_COLLAPSED != 0) == (expansion == STATE_COLLAPSED),
        ((bits | expansion) & STATE_SELECTED != 0) == (bits & STATE_SELECTED != 0),
        ((bits | expansion) & STATE_OFFSCREEN != 0) == (bits & STATE_OFFSCREEN != 0),
        ((bits | expansion) & STATE_FOCUSED != 0) == (bits & STATE_FOCUSED != 0),
{
    assert((((bits | expansion) & 0x200u32 != 0) == (expansion == 0x200u32)) && (((bits | expansion)
        & 0x400u32 != 0) == (expansion == 0x400u32)) && (((bits | expansion) & 2u32 != 0) == (bits
        & 2u32 != 0)) && (((bits | expansion) & 0x1_0000u32 != 0) == (bits & 0x1_0000u32 != 0))
        && (((bits | expansion) & 4u32 != 0) == (bits & 4u32 != 0))) by (bit_vector)
        requires
            bits & (0x200u32 | 0x400u32 | 8u32) == 0,
            expansion == 0 || expansion == 0x200u32 || expansion == 0x400u32,
    ;
}

/// A section's header is expanded or collapsed, as it is, and stands above its rows by one level.
pub proof fn sections_stand_above_their_rows(
    name: Seq<char>,
    expanded: bool,
    selected: bool,
    focused: bool,
    rect: Rect,
)
    ensures
        ({
            let header = crate::sidebar_accessibility::section(
                name,
                expanded,
                selected,
                focused,
                rect,
            );
            let row = crate::sidebar_accessibility::editor(name, selected, focused, rect, true);
            &&& (header.state & STATE_EXPANDED != 0) == expanded
            &&& (header.state & STATE_COLLAPSED != 0) == !expanded
            &&& (header.state & STATE_SELECTED != 0) == selected
            &&& header.role == ROLE_SYSTEM_OUTLINEITEM && row.role == header.role
            &&& header.value == crate::text::decimal(0) && row.value == crate::text::decimal(1)
            &&& row.state & (STATE_EXPANDED | STATE_COLLAPSED | STATE_PRESSED) == 0
            &&& header.name == name && row.name == name
        }),
{
    crate::sidebar_accessibility::row_states_can_be_read_back(selected, focused, true);
    let bits = crate::sidebar_accessibility::row_bits(selected, focused, true);
    expansions_are_read_back(
        bits,
        if expanded {
            STATE_EXPANDED
        } else {
            STATE_COLLAPSED
        },
    );
    reveal_strlit("0");
    reveal_strlit("1");
    reveal_with_fuel(crate::text::decimal, 2);
    assert("0"@ =~= crate::text::decimal(0));
    assert("1"@ =~= crate::text::decimal(1));
}

/// A list item says whether it is selected and in view, and a button whether it is pressed and
/// focused.
pub proof fn items_say_what_they_are(
    name: Seq<char>,
    selected: bool,
    focused: bool,
    rect: Rect,
    visible: bool,
    pressed: bool,
)
    ensures
        ({
            let item = crate::sidebar_accessibility::listed(name, selected, focused, rect, visible);
            let button = crate::sidebar_accessibility::button(name, pressed, focused, rect);
            &&& item.role == ROLE_SYSTEM_LISTITEM && item.name == name && item.rect == rect
            &&& (item.state & STATE_SELECTED != 0) == selected
            &&& (item.state & STATE_FOCUSED != 0) == (selected && focused)
            &&& (item.state & STATE_OFFSCREEN != 0) == !visible
            &&& button.role == ROLE_SYSTEM_PUSHBUTTON && button.name == name && button.rect == rect
            &&& (button.state & STATE_PRESSED != 0) == pressed
            &&& (button.state & STATE_FOCUSED != 0) == focused
            &&& button.state & STATE_FOCUSABLE != 0
        }),
{
    crate::sidebar_accessibility::row_states_can_be_read_back(selected, focused, visible);
    let a = crate::sidebar_accessibility::flag(pressed, 8u32);
    let b = crate::sidebar_accessibility::flag(focused, 4u32);
    let state = 0x10_0000u32 | a | b;
    assert((state & 8 != 0) == (a == 8) && (state & 4 != 0) == (b == 4) && state & 0x10_0000 != 0)
        by (bit_vector)
        requires
            state == 0x10_0000u32 | a | b,
            a == 0 || a == 8,
            b == 0 || b == 4,
    ;
}

/// What is spoken of a row starts with its name; a pin and an unsaved text are told in words.
pub proof fn a_row_is_spoken_with_its_state(row: TreeRow)
    ensures
        ({
            let name = crate::sidebar_accessibility::row_name(row);
            &&& row.name@.is_prefix_of(name)
            &&& !row.pinned && !(row.kind is Unsaved) ==> name == row.name@
            &&& row.pinned && !(row.kind is Unsaved) ==> name == row.name@ + ", pinned"@
            &&& !row.pinned && row.kind is Unsaved ==> name == row.name@ + ", unsaved"@
            &&& row.pinned && row.kind is Unsaved ==> name == row.name@ + ", pinned"@
                + ", unsaved"@
        }),
{
}

/// A row in view is told to be where it is painted, and rows follow each other without a gap.
pub proof fn rows_are_told_where_they_are(
    area: Rect,
    list: RowListState,
    index: int,
)
    requires
        list.wf(),
        area.in_range(),
        list.top <= index < list.count,
        (index - list.top + 1) * list.row_height <= 0x1000_0000,
    ensures
        ({
            let rect = crate::sidebar_accessibility::row_place(area, list, index);
            let next = crate::sidebar_accessibility::row_place(area, list, index + 1);
            &&& rect.top == area.top + (index - list.top) * list.row_height
            &&& rect.bottom - rect.top == list.row_height
            &&& next.top == rect.bottom
            &&& rect.left == area.left && rect.right == area.right
            &&& area.top < area.bottom && index == list.top
                ==> crate::sidebar_accessibility::row_shows(area, list, index)
            &&& crate::sidebar_accessibility::row_shows(area, list, index) ==> rect.top
                < area.bottom
        }),
{
    let (rows, tall) = (index - list.top, list.row_height as int);
    assert(rows * tall + tall == (rows + 1) * tall) by (nonlinear_arith);
    assert((index + 1 - list.top) * list.row_height == (rows + 1) * tall);
    assert(rows == 0 ==> rows * tall == 0) by (nonlinear_arith);
    assert(0 <= rows * tall) by (nonlinear_arith)
        requires
            rows >= 0,
            tall >= 1,
    ;
}

/// The middle of an item is in it, so that a press there is a press on it.
pub proof fn a_press_lands_on_the_item(rect: Rect)
    requires
        0 <= rect.left < rect.right <= crate::geometry::MAX_COORDINATE,
        0 <= rect.top < rect.bottom <= crate::geometry::MAX_COORDINATE,
    ensures
        ({
            let at = crate::sidebar_accessibility::center_of(rect);
            &&& rect.has(at.x as int, at.y as int)
            &&& -1 <= (at.x - rect.left) - (rect.right - at.x) <= 1
            &&& -1 <= (at.y - rect.top) - (rect.bottom - at.y) <= 1
        }),
{
}

/// An ID is the place of its child, counted from 1; 0 is the window itself, and no other ID names a
/// child.
pub proof fn ids_name_children(index: usize, id: i32, count: int)
    requires
        index < i32::MAX,
    ensures
        crate::sidebar_accessibility::named_by(
            Some(crate::sidebar_accessibility::id_of(Some(index)) as i32),
        ) == Named::Child(index),
        crate::sidebar_accessibility::named_by(
            Some(crate::sidebar_accessibility::id_of(None) as i32),
        ) == Named::Window,
        id < 0 ==> crate::sidebar_accessibility::named_by(Some(id)) == Named::Nothing,
        crate::sidebar_accessibility::named_by(None) == Named::Nothing,
        crate::sidebar_accessibility::child_of(
            crate::sidebar_accessibility::id_of(Some(index)) as i32,
            count,
        ) == (if index < count {
            Some(index)
        } else {
            None
        }),
        crate::sidebar_accessibility::child_of(0, count) is None,
        id < 0 ==> crate::sidebar_accessibility::child_of(id, count) is None,
{
}

/// From the window the first and the last child are reached, and from a child those beside it; Down
/// goes where Next does and Up where Previous does, and a stranger's ID leads nowhere.
pub proof fn navigation_goes_to_the_neighbours(id: int, count: int)
    requires
        0 <= count <= i32::MAX,
    ensures
        count > 0 ==> crate::sidebar_accessibility::neighbour(NAVDIR_FIRSTCHILD, 0, count)
            == Reply::Id(1),
        count > 0 ==> crate::sidebar_accessibility::neighbour(NAVDIR_LASTCHILD, 0, count)
            == Reply::Id(count as i32),
        count == 0 ==> crate::sidebar_accessibility::neighbour(NAVDIR_FIRSTCHILD, 0, count)
            == Reply::Nothing && crate::sidebar_accessibility::neighbour(
            NAVDIR_LASTCHILD,
            0,
            count,
        ) == Reply::Nothing,
        crate::sidebar_accessibility::neighbour(NAVDIR_DOWN, id, count)
            == crate::sidebar_accessibility::neighbour(NAVDIR_NEXT, id, count),
        crate::sidebar_accessibility::neighbour(NAVDIR_UP, id, count)
            == crate::sidebar_accessibility::neighbour(NAVDIR_PREVIOUS, id, count),
        1 <= id < count ==> crate::sidebar_accessibility::neighbour(NAVDIR_NEXT, id, count)
            == Reply::Id((id + 1) as i32),
        1 < id <= count ==> crate::sidebar_accessibility::neighbour(NAVDIR_PREVIOUS, id, count)
            == Reply::Id((id - 1) as i32),
        id < 0 || id > count ==> crate::sidebar_accessibility::neighbour(NAVDIR_NEXT, id, count)
            == Reply::Invalid,
        1 <= id <= count ==> crate::sidebar_accessibility::neighbour(NAVDIR_FIRSTCHILD, id, count)
            == Reply::Nothing,
{
}

/// Events are raised for what changed and for nothing else: a new order, a new current item and the
/// focus it takes in a focused window, a new state, a new name.
pub proof fn events_tell_what_changed(
    before: AccessibleMark,
    after: AccessibleMark,
    focused: bool,
    event: u32,
    id: i32,
)
    requires
        crate::sidebar_accessibility::events(before, after, focused).contains((event, id)),
    ensures
        event == EVENT_OBJECT_REORDER ==> id == 0 && (before.count != after.count
            || before.generation != after.generation),
        event == EVENT_OBJECT_SELECTION ==> after.current is Some && (before.current
            != after.current || !crate::sidebar_accessibility::same_item(before, after)),
        event == EVENT_OBJECT_FOCUS ==> focused && after.current is Some,
        event == EVENT_OBJECT_STATECHANGE ==> crate::sidebar_accessibility::same_item(
            before,
            after,
        ) && (before.state != after.state || before.name@ != after.name@),
        event == EVENT_OBJECT_NAMECHANGE ==> crate::sidebar_accessibility::same_item(before, after)
            && before.name@ != after.name@,
        event != EVENT_OBJECT_REORDER ==> after.current is Some && id == (after.current->0
            + 1) as i32,
        event == EVENT_OBJECT_REORDER || event == EVENT_OBJECT_SELECTION || event
            == EVENT_OBJECT_FOCUS || event == EVENT_OBJECT_STATECHANGE || event
            == EVENT_OBJECT_NAMECHANGE,
{
    let pair = (event, id);
    let reordered = crate::sidebar_accessibility::event_if(
        before.count != after.count || before.generation != after.generation,
        EVENT_OBJECT_REORDER,
        0,
    );
    if let Some(current) = after.current {
        let place = (current + 1) as i32;
        let same = crate::sidebar_accessibility::same_item(before, after);
        let moved = before.current != after.current || !same;
        let selected = crate::sidebar_accessibility::event_if(moved, EVENT_OBJECT_SELECTION, place);
        let focus = crate::sidebar_accessibility::event_if(
            moved && focused,
            EVENT_OBJECT_FOCUS,
            place,
        );
        let changed = crate::sidebar_accessibility::event_if(
            same && (before.state != after.state || before.name@ != after.name@),
            EVENT_OBJECT_STATECHANGE,
            place,
        );
        let renamed = crate::sidebar_accessibility::event_if(
            same && before.name@ != after.name@,
            EVENT_OBJECT_NAMECHANGE,
            place,
        );
        an_event_is_in_a_part(reordered + selected + focus + changed, renamed, pair);
        an_event_is_in_a_part(reordered + selected + focus, changed, pair);
        an_event_is_in_a_part(reordered + selected, focus, pair);
        an_event_is_in_a_part(reordered, selected, pair);
    }
}

proof fn an_event_is_in_a_part(a: Seq<(u32, i32)>, b: Seq<(u32, i32)>, pair: (u32, i32))
    ensures
        (a + b).contains(pair) ==> a.contains(pair) || b.contains(pair),
{
    if (a + b).contains(pair) {
        let at = choose|at: int| 0 <= at < (a + b).len() && (a + b)[at] == pair;
        if at < a.len() {
            assert(a[at] == pair);
        } else {
            assert(b[at - a.len()] == pair);
        }
    }
}

/// A change of order, of the focused current item and of its name is always told.
pub proof fn changes_are_told(before: AccessibleMark, after: AccessibleMark)
    requires
        after.current is Some,
    ensures
        ({
            let told = crate::sidebar_accessibility::events(before, after, true);
            let id = (after.current->0 + 1) as i32;
            &&& before.count != after.count || before.generation != after.generation
                ==> told.contains((EVENT_OBJECT_REORDER, 0i32))
            &&& before.current != after.current ==> told.contains((EVENT_OBJECT_FOCUS, id))
            &&& crate::sidebar_accessibility::same_item(before, after) && before.state
                != after.state ==> told.contains((EVENT_OBJECT_STATECHANGE, id))
        }),
{
    let told = crate::sidebar_accessibility::events(before, after, true);
    let id = (after.current->0 + 1) as i32;
    let same = crate::sidebar_accessibility::same_item(before, after);
    let reordered = crate::sidebar_accessibility::event_if(
        before.count != after.count || before.generation != after.generation,
        EVENT_OBJECT_REORDER,
        0,
    );
    let moved = before.current != after.current || !same;
    if before.count != after.count || before.generation != after.generation {
        assert(told[0] == (EVENT_OBJECT_REORDER, 0i32));
    }
    if before.current != after.current {
        assert(told[(reordered.len() + 1) as int] == (EVENT_OBJECT_FOCUS, id));
    }
    if same && before.state != after.state {
        let start = reordered.len() + if moved {
            2int
        } else {
            0int
        };
        assert(told[start] == (EVENT_OBJECT_STATECHANGE, id));
    }
}

/// The mark of a current item keeps its name and its state, but for the focus and the scrolling,
/// which have events of their own; without a current item it keeps none.
pub proof fn a_mark_leaves_focus_and_scrolling_out(
    mark: AccessibleMark,
    current: Option<usize>,
    item: ItemModel,
    count: usize,
    identity: Option<u64>,
    generation: u64,
)
    requires
        crate::sidebar_accessibility::marks(mark, current, Some(item), count, identity, generation),
    ensures
        mark.name@ == item.name && mark.count == count && mark.generation == generation
            && mark.current == current,
        mark.state & STATE_FOCUSED == 0,
        mark.state & STATE_OFFSCREEN == 0,
        mark.state & STATE_SELECTED == item.state & STATE_SELECTED,
        mark.state & STATE_EXPANDED == item.state & STATE_EXPANDED,
        mark.state & STATE_PRESSED == item.state & STATE_PRESSED,
        current is Some ==> mark.identity == identity,
        current is None ==> mark.identity is None,
{
    let (state, kept) = (item.state, mark.state);
    assert(kept & 4 == 0 && kept & 0x1_0000 == 0 && kept & 2 == state & 2 && kept & 0x200 == state
        & 0x200 && kept & 8 == state & 8) by (bit_vector)
        requires
            kept == state & !(4u32 | 0x1_0000u32),
    ;
}

/// Taking the focus wins over taking the selection, and a request for neither asks for nothing.
pub proof fn the_focus_is_asked_for_first(flags: u32)
    ensures
        flags & SELFLAG_TAKEFOCUS != 0 ==> crate::sidebar_accessibility::asked_for(flags) == Some(
            Action::Focus,
        ),
        flags & SELFLAG_TAKEFOCUS == 0 && flags & SELFLAG_TAKESELECTION != 0
            ==> crate::sidebar_accessibility::asked_for(flags) == Some(Action::Select),
        flags & SELFLAG_TAKEFOCUS == 0 && flags & SELFLAG_TAKESELECTION == 0
            ==> crate::sidebar_accessibility::asked_for(flags) is None,
{
    assert((flags & (1u32 | 2u32) == 0) == (flags & 1u32 == 0 && flags & 2u32 == 0))
        by (bit_vector);
}

/// An action is carried out while its child is there: activating presses it, the others select it,
/// and only taking the focus moves the focus.
pub proof fn an_action_needs_its_child(index: int, count: int, action: Action)
    ensures
        crate::sidebar_accessibility::plan_for(index, count, action) is Some <==> index < count,
        crate::sidebar_accessibility::plan_for(index, count, action) matches Some(plan) ==> {
            &&& plan.activate <==> action == Action::Activate
            &&& plan.select <==> action == Action::Select || action == Action::Focus
            &&& plan.focus_window <==> action == Action::Focus
        },
{
}

/// A point of the window is on the child there, or on the window itself; outside it on nothing.
pub proof fn a_point_is_on_a_child_or_the_window(point: Point, client: Rect, index: usize)
    requires
        index < i32::MAX,
    ensures
        client.has(point.x as int, point.y as int) ==> crate::sidebar_accessibility::reply_at(
            point,
            client,
            Some(index),
        ) == Reply::Id((index + 1) as i32),
        client.has(point.x as int, point.y as int) ==> crate::sidebar_accessibility::reply_at(
            point,
            client,
            None,
        ) == Reply::Id(0),
        !client.has(point.x as int, point.y as int) ==> crate::sidebar_accessibility::reply_at(
            point,
            client,
            Some(index),
        ) == Reply::Nothing,
{
}

/// A registered call is live until it is forgotten as often as it was registered; forgetting one
/// leaves every other.
pub proof fn forgetting_a_call_leaves_the_others(waiting: Seq<usize>, call: usize, other: usize)
    requires
        call != other,
    ensures
        waiting.push(call).contains(call),
        crate::sidebar_accessibility::without_call(waiting, call).contains(other)
            <==> waiting.contains(other),
        waiting.contains(call) ==> crate::sidebar_accessibility::without_call(waiting, call).len()
            == waiting.len() - 1,
        !waiting.contains(call) ==> crate::sidebar_accessibility::without_call(waiting, call)
            == waiting,
{
    assert(waiting.push(call)[waiting.len() as int] == call);
    waiting.index_of_first_ensures(call);
    if let Some(index) = waiting.index_of_first(call) {
        let rest = waiting.remove(index);
        if waiting.contains(other) {
            let at = choose|at: int| 0 <= at < waiting.len() && waiting[at] == other;
            if at < index {
                assert(rest[at] == other);
            } else {
                assert(rest[at - 1] == other);
            }
        }
        if rest.contains(other) {
            let at = choose|at: int| 0 <= at < rest.len() && rest[at] == other;
            if at < index {
                assert(waiting[at] == other);
            } else {
                assert(waiting[at + 1] == other);
            }
        }
    }
}

/// While a drag is under way keys and letters are swallowed; else a key is a key, and a character a
/// letter unless it is a control character.
pub proof fn a_drag_swallows_the_keyboard(wparam: usize, lparam: isize)
    ensures
        crate::notebook_input::input_of(WM_KEYDOWN, wparam, lparam, true) == Input::Swallowed,
        crate::notebook_input::input_of(WM_CHAR, wparam, lparam, true) == Input::Swallowed,
        crate::notebook_input::input_of(WM_KEYDOWN, wparam, lparam, false) == Input::Key(
            crate::messages::low_word(wparam),
        ),
        wparam < 0x20 ==> crate::notebook_input::input_of(WM_CHAR, wparam, lparam, false)
            == Input::Other,
        0x20 <= wparam < 0x7f ==> crate::notebook_input::input_of(WM_CHAR, wparam, lparam, false)
            == Input::Letter(wparam as u32),
        crate::notebook_input::input_of(WM_LBUTTONDOWN, wparam, lparam, true) == Input::Press(
            crate::messages::point_in(lparam),
        ),
        crate::notebook_input::input_of(WM_MOUSEMOVE, wparam, lparam, true) == (Input::Move {
            at: crate::messages::point_in(lparam),
            left: wparam % 2 == 1,
        }),
        crate::notebook_input::input_of(WM_CONTEXTMENU, wparam, lparam, false) is Menu,
{
}

/// The pointer hovers one thing at a time: a row, a tab's row, or a button or header; and leaving
/// hovers none. The pin and the close box are hovered with their rows only.
pub proof fn one_thing_is_hovered(view: NotebookView, hit: Hit)
    requires
        view.wf(),
        hit matches Hit::Row { index, .. } ==> index < view.list.count,
        hit matches Hit::Editor { index, .. } ==> index < view.editors.rows.len(),
    ensures
        ({
            let after = view.pointing(hit);
            &&& hit matches Hit::Row { index, part } ==> after.list.hover == Some(index)
                && after.hover_pin == (part == RowPart::Pin)
            &&& hit matches Hit::Editor { index, close } ==> after.editors.list.hover == Some(index)
                && after.editors.hover_close == close
            &&& !(hit is Row) ==> after.list.hover is None && !after.hover_pin
            &&& !(hit is Editor) ==> after.editors.list.hover is None && !after.editors.hover_close
            &&& hit is Header || hit is StateButton || hit is SecondButton || hit is EditorsHeader
                || hit is Root ==> after.hover == Some(hit)
            &&& hit is Row || hit is Editor || hit is Thumb || hit is Empty ==> after.hover is None
            &&& after.list.selected == view.list.selected && after.list.top == view.list.top
            &&& view.unpointed().hover is None && view.unpointed().list.hover is None
                && view.unpointed().editors.list.hover is None
        }),
{
}

/// While the thumb is held a move scrolls and hovers nothing new; else it hovers what it is on.
pub proof fn a_held_thumb_follows_the_pointer(view: NotebookView, frame: Frame, at: Point)
    ensures
        view.thumb_grab is None ==> view.moving(frame, at) == view.pointing(view.hit(frame, at)),
        view.thumb_grab is Some ==> view.moving(frame, at).hover == view.hover && view.moving(
            frame,
            at,
        ).list == view.list.thumb_dragged(
            view.thumb_grab->0 as int,
            at.y - view.area(frame).top,
            view.area(frame).tall(),
        ) && view.moving(frame, at).thumb_grab == view.thumb_grab,
{
}

/// A middle click closes the tab it is pressed and released on, and none where it is released on
/// another or beside them.
pub proof fn a_middle_click_closes_its_tab(
    view: NotebookView,
    frame: Frame,
    pressed: Point,
    released: Point,
    id: DocumentId,
)
    ensures
        ({
            let down = NotebookView { middle_press: view.tab_at(frame, pressed), ..view };
            let closes = down.closed_by_release(frame, released);
            &&& view.tab_at(frame, pressed) == Some(id) && view.tab_at(frame, released) == Some(id)
                ==> closes == Some(id)
            &&& view.tab_at(frame, pressed) is None ==> closes is None
            &&& view.tab_at(frame, pressed) != view.tab_at(frame, released) ==> closes is None
            &&& view.tab_at(frame, released) is None ==> closes is None
        }),
{
    let down = NotebookView { middle_press: view.tab_at(frame, pressed), ..view };
    assert(down.tab_at(frame, released) == view.tab_at(frame, released));
}

/// The wheel scrolls what the pointer is over: the tabs over their section, else the tree; the other
/// stays.
pub proof fn the_wheel_scrolls_what_it_is_over(
    view: NotebookView,
    delta: int,
    lines: u32,
    pointer: Point,
    frame: Frame,
)
    ensures
        ({
            let (after, wheeled) = view.turned(delta, lines, pointer, frame);
            let over = frame.layout.editors_list.has(pointer.x as int, pointer.y as int);
            &&& over ==> after.list == view.list && wheeled is Editors && after.editors.list
                == view.editors.list.wheeled(delta, lines, frame.layout.editors_list.tall())
            &&& !over ==> after.editors == view.editors && wheeled is Tree && after.list
                == view.list.wheeled(delta, lines, view.page_height(frame))
            &&& wheeled matches Wheeled::Tree { moved } ==> (moved <==> after.list.top
                != view.list.top)
            &&& wheeled matches Wheeled::Editors { moved } ==> (moved <==> after.editors.list.top
                != view.editors.list.top)
        }),
{
}

/// A child is the same as itself, the first of two is the same as the second exactly where the
/// second is the same as the first, and two that are told by what they are of are the same wherever
/// they stand.
pub proof fn sameness_goes_both_ways(a: AccessibleMark, b: AccessibleMark)
    ensures
        crate::sidebar_accessibility::same_item(a, a),
        crate::sidebar_accessibility::same_item(a, b) == crate::sidebar_accessibility::same_item(
            b,
            a,
        ),
        a.identity is Some && a.identity != b.identity
            ==> !crate::sidebar_accessibility::same_item(a, b),
        a.identity is Some && a.identity == b.identity ==> crate::sidebar_accessibility::same_item(
            a,
            b,
        ),
        a.identity is None && b.identity is None && a.current != b.current
            ==> !crate::sidebar_accessibility::same_item(a, b),
{
}

} // verus!
