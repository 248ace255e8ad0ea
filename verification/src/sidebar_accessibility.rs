//! What screen readers are told about the sidebar's painted windows. The activity bar is a toolbar
//! of push buttons. The panel is an outline of outline items (Notebook view) or a list of list
//! items (Search and Favorites), with its header buttons as push buttons. Children are flat child
//! IDs: 0 is the window itself, and child `index` has ID `index + 1`.

use crate::geometry::{contains, Point, Rect};
use crate::row_list::RowListState;
use crate::text::decimal_text;
use crate::tree::{RowKind, TreeRow};
use crate::text_search::write_text;
use std::hash::{DefaultHasher, Hasher};
use vstd::prelude::*;
use vstd::std_specs::hash::DefaultHasherAdditionalSpecFns;
use vstd::string::*;

verus! {

/// The window message that carries an accessible question to the window's own thread.
pub const WM_FASTPAD_SIDEBAR_ACCESSIBLE: u32 = 0x8060;

/// The window message that carries an accessible action there.
pub const WM_FASTPAD_SIDEBAR_ACTION: u32 = 0x8061;

pub const STATE_SELECTED: u32 = 0x0000_0002;

pub const STATE_FOCUSED: u32 = 0x0000_0004;

pub const STATE_PRESSED: u32 = 0x0000_0008;

pub const STATE_EXPANDED: u32 = 0x0000_0200;

pub const STATE_COLLAPSED: u32 = 0x0000_0400;

pub const STATE_OFFSCREEN: u32 = 0x0001_0000;

pub const STATE_FOCUSABLE: u32 = 0x0010_0000;

pub const STATE_SELECTABLE: u32 = 0x0020_0000;

pub const ROLE_SYSTEM_PANE: u32 = 16;

pub const ROLE_SYSTEM_LIST: u32 = 33;

pub const ROLE_SYSTEM_LISTITEM: u32 = 34;

pub const ROLE_SYSTEM_OUTLINE: u32 = 35;

pub const ROLE_SYSTEM_OUTLINEITEM: u32 = 36;

pub const ROLE_SYSTEM_PUSHBUTTON: u32 = 43;

pub const EVENT_OBJECT_REORDER: u32 = 0x8004;

pub const EVENT_OBJECT_FOCUS: u32 = 0x8005;

pub const EVENT_OBJECT_SELECTION: u32 = 0x8006;

pub const EVENT_OBJECT_STATECHANGE: u32 = 0x800A;

pub const EVENT_OBJECT_NAMECHANGE: u32 = 0x800C;

pub const NAVDIR_UP: u32 = 1;

pub const NAVDIR_DOWN: u32 = 2;

pub const NAVDIR_NEXT: u32 = 5;

pub const NAVDIR_PREVIOUS: u32 = 6;

pub const NAVDIR_FIRSTCHILD: u32 = 7;

pub const NAVDIR_LASTCHILD: u32 = 8;

pub const SELFLAG_TAKEFOCUS: u32 = 1;

pub const SELFLAG_TAKESELECTION: u32 = 2;

/// A number that stands for a kind of child and what it is of.
pub open spec fn identity(kind: Seq<char>, detail: Seq<char>) -> u64 {
    DefaultHasher::spec_finish(
        crate::text_search::ended(kind) + crate::text_search::ended(detail),
    )
}

pub fn identity_of(kind: &str, detail: &str) -> (number: u64)
    ensures
        number == identity(kind@, detail@),
{
    let mut hasher = DefaultHasher::new();
    write_text(&mut hasher, kind);
    write_text(&mut hasher, detail);
    assert(hasher@ == crate::text_search::ended(kind@) + crate::text_search::ended(detail@));
    hasher.finish()
}

/// One child of a sidebar window, in the window's client coordinates.
#[derive(Debug, PartialEq, Eq)]
pub struct AccessibleItem {
    pub name: String,
    pub role: u32,
    pub state: u32,
    pub rect: Rect,
    /// An outline item's level (0 for the root's children). Empty otherwise.
    pub value: String,
}

/// A child with its texts as characters.
#[verifier::ext_equal]
pub struct ItemModel {
    pub name: Seq<char>,
    pub role: u32,
    pub state: u32,
    pub rect: Rect,
    pub value: Seq<char>,
}

impl View for AccessibleItem {
    type V = ItemModel;

    open spec fn view(&self) -> ItemModel {
        ItemModel {
            name: self.name@,
            role: self.role,
            state: self.state,
            rect: self.rect,
            value: self.value@,
        }
    }
}

/// A child that may be none, with its texts as characters.
pub open spec fn maybe_item(item: Option<AccessibleItem>) -> Option<ItemModel> {
    match item {
        Some(item) => Some(item@),
        None => None,
    }
}

/// The flag where a condition holds.
pub open spec fn flag(on: bool, bit: u32) -> u32 {
    if on {
        bit
    } else {
        0
    }
}

fn flagged(on: bool, bit: u32) -> (bits: u32)
    ensures
        bits == flag(on, bit),
{
    if on {
        bit
    } else {
        0
    }
}

/// A push button.
pub open spec fn button(name: Seq<char>, pressed: bool, focused: bool, rect: Rect) -> ItemModel {
    ItemModel {
        name,
        role: ROLE_SYSTEM_PUSHBUTTON,
        state: STATE_FOCUSABLE | flag(pressed, STATE_PRESSED) | flag(focused, STATE_FOCUSED),
        rect,
        value: Seq::empty(),
    }
}

pub fn button_item(name: &str, pressed: bool, focused: bool, rect: Rect) -> (item: AccessibleItem)
    ensures
        item@ == button(name@, pressed, focused, rect),
{
    let state: u32 = STATE_FOCUSABLE | flagged(pressed, STATE_PRESSED) | flagged(
        focused,
        STATE_FOCUSED,
    );
    AccessibleItem {
        name: name.to_owned(),
        role: ROLE_SYSTEM_PUSHBUTTON,
        state,
        rect,
        value: String::new(),
    }
}

/// A row's state. `focused` means that the list has the focus: only the selected row is then
/// focused.
pub open spec fn row_bits(selected: bool, focused: bool, visible: bool) -> u32 {
    STATE_SELECTABLE | STATE_FOCUSABLE | flag(selected, STATE_SELECTED) | flag(
        selected && focused,
        STATE_FOCUSED,
    ) | flag(!visible, STATE_OFFSCREEN)
}

pub fn row_state(selected: bool, focused: bool, visible: bool) -> (state: u32)
    ensures
        state == row_bits(selected, focused, visible),
{
    STATE_SELECTABLE | STATE_FOCUSABLE | flagged(selected, STATE_SELECTED) | flagged(
        selected && focused,
        STATE_FOCUSED,
    ) | flagged(!visible, STATE_OFFSCREEN)
}

/// A row's state says what it was made of.
pub proof fn row_states_can_be_read_back(selected: bool, focused: bool, visible: bool)
    ensures
        ({
            let state = row_bits(selected, focused, visible);
            &&& (state & STATE_SELECTED != 0) == selected
            &&& (state & STATE_FOCUSED != 0) == (selected && focused)
            &&& (state & STATE_OFFSCREEN != 0) == !visible
            &&& state & STATE_SELECTABLE != 0
            &&& state & STATE_FOCUSABLE != 0
            &&& state & (STATE_EXPANDED | STATE_COLLAPSED | STATE_PRESSED) == 0
        }),
{
    let a = flag(selected, 2u32);
    let b = flag(selected && focused, 4u32);
    let c = flag(!visible, 0x1_0000u32);
    let state = 0x20_0000u32 | 0x10_0000u32 | a | b | c;
    assert((state & 2 != 0) == (a == 2) && (state & 4 != 0) == (b == 4) && (state & 0x1_0000 != 0)
        == (c == 0x1_0000) && state & 0x20_0000 != 0 && state & 0x10_0000 != 0 && state & (0x200u32
        | 0x400u32 | 8u32) == 0) by (bit_vector)
        requires
            state == 0x20_0000u32 | 0x10_0000u32 | a | b | c,
            a == 0 || a == 2,
            b == 0 || b == 4,
            c == 0 || c == 0x1_0000,
    ;
}

/// A search result, favorite or recent notebook.
pub open spec fn listed(
    name: Seq<char>,
    selected: bool,
    focused: bool,
    rect: Rect,
    visible: bool,
) -> ItemModel {
    ItemModel {
        name,
        role: ROLE_SYSTEM_LISTITEM,
        state: row_bits(selected, focused, visible),
        rect,
        value: Seq::empty(),
    }
}

pub fn list_item(name: &str, selected: bool, focused: bool, rect: Rect, visible: bool) -> (item: AccessibleItem)
    ensures
        item@ == listed(name@, selected, focused, rect, visible),
{
    AccessibleItem {
        name: name.to_owned(),
        role: ROLE_SYSTEM_LISTITEM,
        state: row_state(selected, focused, visible),
        rect,
        value: String::new(),
    }
}

/// What a tree row is called: its name, and whether it is pinned or unsaved, so that neither is
/// conveyed by the icon alone.
pub open spec fn row_name(row: TreeRow) -> Seq<char> {
    row.name@ + (if row.pinned {
        ", pinned"@
    } else {
        Seq::empty()
    }) + (if row.kind is Unsaved {
        ", unsaved"@
    } else {
        Seq::empty()
    })
}

/// A folder's expansion, as a flag; other rows have none.
pub open spec fn expansion(row: TreeRow) -> u32 {
    if row.kind is Folder {
        if row.expanded {
            STATE_EXPANDED
        } else {
            STATE_COLLAPSED
        }
    } else {
        0
    }
}

/// A Notebook-view row.
pub open spec fn outlined(
    row: TreeRow,
    selected: bool,
    focused: bool,
    rect: Rect,
    visible: bool,
) -> ItemModel {
    ItemModel {
        name: row_name(row),
        role: ROLE_SYSTEM_OUTLINEITEM,
        state: row_bits(selected, focused, visible) | expansion(row),
        rect,
        value: crate::text::decimal(row.depth as nat),
    }
}

pub fn tree_item(row: &TreeRow, selected: bool, focused: bool, rect: Rect, visible: bool) -> (item: AccessibleItem)
    ensures
        item@ == outlined(*row, selected, focused, rect, visible),
{
    let mut name = row.name.clone();
    if row.pinned {
        name.append(", pinned");
    }
    let unsaved: bool = match row.kind {
        RowKind::Unsaved(_) => true,
        _ => false,
    };
    if unsaved {
        name.append(", unsaved");
    }
    let folder: bool = match row.kind {
        RowKind::Folder(_) => true,
        _ => false,
    };
    let expansion: u32 = if folder {
        if row.expanded {
            STATE_EXPANDED
        } else {
            STATE_COLLAPSED
        }
    } else {
        0
    };
    assert(name@ == row_name(*row));
    AccessibleItem {
        name,
        role: ROLE_SYSTEM_OUTLINEITEM,
        state: row_state(selected, focused, visible) | expansion,
        rect,
        value: decimal_text(row.depth as u64),
    }
}

/// A section's header row: an outline item that expands and collapses.
pub open spec fn section(
    name: Seq<char>,
    expanded: bool,
    selected: bool,
    focused: bool,
    rect: Rect,
) -> ItemModel {
    ItemModel {
        name,
        role: ROLE_SYSTEM_OUTLINEITEM,
        state: row_bits(selected, focused, true) | (if expanded {
            STATE_EXPANDED
        } else {
            STATE_COLLAPSED
        }),
        rect,
        value: "0"@,
    }
}

pub fn section_item(name: &str, expanded: bool, selected: bool, focused: bool, rect: Rect) -> (item: AccessibleItem)
    ensures
        item@ == section(name@, expanded, selected, focused, rect),
{
    let expansion: u32 = if expanded {
        STATE_EXPANDED
    } else {
        STATE_COLLAPSED
    };
    AccessibleItem {
        name: name.to_owned(),
        role: ROLE_SYSTEM_OUTLINEITEM,
        state: row_state(selected, focused, true) | expansion,
        rect,
        value: "0".to_owned(),
    }
}

/// An Open Editors row: an outline item one level below its header.
pub open spec fn editor(
    name: Seq<char>,
    selected: bool,
    focused: bool,
    rect: Rect,
    visible: bool,
) -> ItemModel {
    ItemModel {
        name,
        role: ROLE_SYSTEM_OUTLINEITEM,
        state: row_bits(selected, focused, visible),
        rect,
        value: "1"@,
    }
}

pub fn editor_item(name: &str, selected: bool, focused: bool, rect: Rect, visible: bool) -> (item: AccessibleItem)
    ensures
        item@ == editor(name@, selected, focused, rect, visible),
{
    AccessibleItem {
        name: name.to_owned(),
        role: ROLE_SYSTEM_OUTLINEITEM,
        state: row_state(selected, focused, visible),
        rect,
        value: "1".to_owned(),
    }
}

/// The farthest that a row out of view is said to be.
pub const FAR_ROW: i64 = 0x3fff_ffff;

/// Where row `index` of `list` is in `area`, scrolled or not.
pub open spec fn row_place(area: Rect, list: RowListState, index: int) -> Rect {
    let at = area.top + (index - list.top) * list.row_height;
    let top = vstd::math::max(vstd::math::min(at, FAR_ROW as int), -FAR_ROW - 1);
    Rect {
        left: area.left,
        top: top as i32,
        right: area.right,
        bottom: crate::geometry::saturated(top + list.row_height) as i32,
    }
}

/// Whether any of a row shows in `area`.
pub open spec fn row_shows(area: Rect, list: RowListState, index: int) -> bool {
    let rect = row_place(area, list, index);
    rect.bottom > area.top && rect.top < area.bottom
}

/// Where row `index` of `list` is, scrolled or not, and whether any of it shows in `area`.
pub fn row_rect(area: Rect, list: &RowListState, index: usize) -> (place: (Rect, bool))
    requires
        list.wf(),
    ensures
        place.0 == row_place(area, *list, index as int),
        place.1 == row_shows(area, *list, index as int),
{
    let rows: i128 = index as i128 - list.top as i128;
    let tall: i64 = list.row_height as i64;
    assert(-0x1_0000_0000_0000_0000 * 0x1000_0000 <= rows * tall <= 0x1_0000_0000_0000_0000
        * 0x1000_0000) by (nonlinear_arith)
        requires
            -0x1_0000_0000_0000_0000 <= rows <= 0x1_0000_0000_0000_0000,
            0 <= tall <= 0x1000_0000,
    ;
    let at: i128 = area.top as i128 + rows * tall as i128;
    let top: i128 = at.min(FAR_ROW as i128).max(-(FAR_ROW as i128) - 1);
    let top: i64 = top as i64;
    let rect = Rect {
        left: area.left,
        top: top as i32,
        right: area.right,
        bottom: crate::geometry::saturate(top + tall),
    };
    let visible: bool = rect.bottom > area.top && rect.top < area.bottom;
    (rect, visible)
}

/// What pressing an item does.
pub open spec fn action_of(role: u32, state: u32) -> Seq<char> {
    if role == ROLE_SYSTEM_PUSHBUTTON {
        "Press"@
    } else if state & STATE_EXPANDED != 0 {
        "Collapse"@
    } else if state & STATE_COLLAPSED != 0 {
        "Expand"@
    } else {
        "Open"@
    }
}

pub fn default_action(item: &AccessibleItem) -> (action: &'static str)
    ensures
        action@ == action_of(item.role, item.state),
{
    if item.role == ROLE_SYSTEM_PUSHBUTTON {
        "Press"
    } else if item.state & STATE_EXPANDED != 0 {
        "Collapse"
    } else if item.state & STATE_COLLAPSED != 0 {
        "Expand"
    } else {
        "Open"
    }
}

/// Whether an item is scrolled out of view: a press on it first brings it in.
pub fn is_offscreen(item: &AccessibleItem) -> (offscreen: bool)
    ensures
        offscreen == (item.state & STATE_OFFSCREEN != 0),
{
    item.state & STATE_OFFSCREEN != 0
}

/// The middle of a rectangle, rounded towards the origin.
pub open spec fn center_of(rect: Rect) -> Point {
    Point {
        x: crate::option_toggles::half(rect.left + rect.right) as i32,
        y: crate::option_toggles::half(rect.top + rect.bottom) as i32,
    }
}

/// The middle of a rectangle, where a press on an item lands.
pub fn click_point(rect: Rect) -> (center: Point)
    requires
        i32::MIN <= rect.left + rect.right <= i32::MAX,
        i32::MIN <= rect.top + rect.bottom <= i32::MAX,
    ensures
        center == center_of(rect),
{
    Point { x: (rect.left + rect.right) / 2, y: (rect.top + rect.bottom) / 2 }
}

/// What screen readers last knew about the current child, compared across a change.
#[derive(Debug, PartialEq, Eq)]
pub struct AccessibleMark {
    pub current: Option<usize>,
    /// Focus and scrolling aside: those raise their own events.
    pub state: u32,
    pub name: String,
    pub count: usize,
    /// The current child's identity, which survives a re-sort; `None` for children with none.
    pub identity: Option<u64>,
    /// Changes whenever the children's order does, even at the same count.
    pub generation: u64,
}

impl Clone for AccessibleMark {
    fn clone(&self) -> (copy: Self)
        ensures
            copy == *self,
    {
        AccessibleMark {
            current: self.current,
            state: self.state,
            name: self.name.clone(),
            count: self.count,
            identity: self.identity,
            generation: self.generation,
        }
    }
}

impl Default for AccessibleMark {
    fn default() -> (mark: Self)
        ensures
            mark.current is None,
            mark.state == 0,
            mark.name@ == Seq::<char>::empty(),
            mark.count == 0,
            mark.identity is None,
            mark.generation == 0,
    {
        AccessibleMark {
            current: None,
            state: 0,
            name: String::new(),
            count: 0,
            identity: None,
            generation: 0,
        }
    }
}

/// The mark says what the window's current child is.
pub open spec fn marks(
    mark: AccessibleMark,
    current: Option<usize>,
    item: Option<ItemModel>,
    count: usize,
    identity: Option<u64>,
    generation: u64,
) -> bool {
    &&& mark.current == current
    &&& match item {
        Some(item) => mark.state == item.state & !(STATE_FOCUSED | STATE_OFFSCREEN) && mark.name@
            == item.name,
        None => mark.state == 0 && mark.name@ == Seq::<char>::empty(),
    }
    &&& mark.count == count
    &&& mark.identity == (if current is Some {
        identity
    } else {
        None
    })
    &&& mark.generation == generation
}

impl AccessibleMark {
    /// The mark of a window whose current child is `item`.
    pub fn read(
        current: Option<usize>,
        item: Option<&AccessibleItem>,
        count: usize,
        identity: Option<u64>,
        generation: u64,
    ) -> (mark: Self)
        ensures
            marks(
                mark,
                current,
                match item {
                    Some(item) => Some(item@),
                    None => None,
                },
                count,
                identity,
                generation,
            ),
    {
        let (state, name): (u32, String) = match item {
            Some(item) => (item.state & !(STATE_FOCUSED | STATE_OFFSCREEN), item.name.clone()),
            None => (0, String::new()),
        };
        AccessibleMark {
            current,
            state,
            name,
            count,
            identity: if current.is_some() {
                identity
            } else {
                None
            },
            generation,
        }
    }
}

/// The same item is current: by identity where the children have one, else by index.
pub open spec fn same_item(before: AccessibleMark, after: AccessibleMark) -> bool {
    match (before.identity, after.identity) {
        (Some(old), Some(new)) => old == new,
        (None, None) => before.current == after.current,
        _ => false,
    }
}

/// An event where a condition holds.
pub open spec fn event_if(raised: bool, event: u32, id: i32) -> Seq<(u32, i32)> {
    if raised {
        seq![(event, id)]
    } else {
        Seq::empty()
    }
}

/// The events that a change raises, as (event, child ID): a reorder of the window's children, a
/// selection (and its focus, while the window has it), and a state or name change of the item that
/// stays current. A renamed item raises both, since a pin changes only the name.
pub open spec fn events(before: AccessibleMark, after: AccessibleMark, focused: bool) -> Seq<
    (u32, i32),
> {
    let reordered = event_if(
        before.count != after.count || before.generation != after.generation,
        EVENT_OBJECT_REORDER,
        0,
    );
    match after.current {
        None => reordered,
        Some(current) => {
            let id = (current + 1) as i32;
            let same = same_item(before, after);
            let moved = before.current != after.current || !same;
            reordered + event_if(moved, EVENT_OBJECT_SELECTION, id) + event_if(
                moved && focused,
                EVENT_OBJECT_FOCUS,
                id,
            ) + event_if(
                same && (before.state != after.state || before.name@ != after.name@),
                EVENT_OBJECT_STATECHANGE,
                id,
            ) + event_if(same && before.name@ != after.name@, EVENT_OBJECT_NAMECHANGE, id)
        },
    }
}

/// The win events a change from `before` to `after` raises, as (event, child ID).
pub fn events_between(before: &AccessibleMark, after: &AccessibleMark, focused: bool) -> (raised: Vec<
    (u32, i32),
>)
    requires
        after.current matches Some(current) ==> current < i32::MAX,
    ensures
        raised@ == events(*before, *after, focused),
{
    let mut raised: Vec<(u32, i32)> = Vec::new();
    // A re-sort at the same count still gives every moved sibling a new child ID.
    if before.count != after.count || before.generation != after.generation {
        raised.push((EVENT_OBJECT_REORDER, 0));
    }
    let current: usize = match after.current {
        Some(current) => current,
        None => {
            assert(raised@ == events(*before, *after, focused));
            return raised;
        },
    };
    let id: i32 = current as i32 + 1;
    let same: bool = match (before.identity, after.identity) {
        (Some(old), Some(new)) => old == new,
        (None, None) => before.current == after.current,
        _ => false,
    };
    let renamed: bool = before.name != after.name;
    if before.current != after.current || !same {
        raised.push((EVENT_OBJECT_SELECTION, id));
        if focused {
            raised.push((EVENT_OBJECT_FOCUS, id));
        }
    }
    if same {
        if before.state != after.state || renamed {
            raised.push((EVENT_OBJECT_STATECHANGE, id));
        }
        if renamed {
            raised.push((EVENT_OBJECT_NAMECHANGE, id));
        }
    }
    assert(raised@ == events(*before, *after, focused));
    raised
}

/// Nothing is announced where nothing changed.
pub proof fn an_unchanged_window_is_silent(mark: AccessibleMark, focused: bool)
    ensures
        events(mark, mark, focused) == Seq::<(u32, i32)>::empty(),
{
    assert(events(mark, mark, focused) == Seq::<(u32, i32)>::empty());
}

/// A current item that moved in the list is announced as the new selection and, when its name
/// changed on the way, as changed too.
pub proof fn a_moved_item_is_announced(before: AccessibleMark, after: AccessibleMark, focused: bool)
    requires
        after.current is Some,
        before.current != after.current,
    ensures
        events(before, after, focused).contains(
            (EVENT_OBJECT_SELECTION, (after.current->0 + 1) as i32),
        ),
        same_item(before, after) && before.name@ != after.name@ ==> events(
            before,
            after,
            focused,
        ).contains((EVENT_OBJECT_NAMECHANGE, (after.current->0 + 1) as i32)),
{
    let id = (after.current->0 + 1) as i32;
    let all = events(before, after, focused);
    let reordered = event_if(
        before.count != after.count || before.generation != after.generation,
        EVENT_OBJECT_REORDER,
        0,
    );
    assert(all[reordered.len() as int] == (EVENT_OBJECT_SELECTION, id));
    if same_item(before, after) && before.name@ != after.name@ {
        assert(all[all.len() - 1] == (EVENT_OBJECT_NAMECHANGE, id));
    }
}

/// The child ID of an index; `None` is the window itself.
pub open spec fn id_of(index: Option<usize>) -> int {
    match index {
        Some(index) => index + 1,
        None => 0,
    }
}

pub fn child_id(index: Option<usize>) -> (id: i32)
    requires
        index matches Some(index) ==> index < i32::MAX,
    ensures
        id == id_of(index),
{
    match index {
        Some(index) => index as i32 + 1,
        None => 0,
    }
}

/// What a child ID names in a window.
#[derive(Clone, Copy, Debug, PartialEq, Eq, Structural)]
pub enum Named {
    Window,
    Child(usize),
    Nothing,
}

/// What an ID stands for.
pub open spec fn named_by(id: Option<i32>) -> Named {
    match id {
        Some(id) if id == 0 => Named::Window,
        Some(id) if id > 0 => Named::Child((id - 1) as usize),
        _ => Named::Nothing,
    }
}

/// Child `id`'s index; no ID, a negative one and a stranger's name nothing. Whether the child
/// still exists is asked of the window.
pub fn target(id: Option<i32>) -> (named: Named)
    ensures
        named == named_by(id),
{
    match id {
        Some(id) => if id == 0 {
            Named::Window
        } else if id > 0 {
            Named::Child((id - 1) as usize)
        } else {
            Named::Nothing
        },
        None => Named::Nothing,
    }
}

/// How many children a window tells of: `i32::MAX` at most.
pub fn child_count(children: usize) -> (count: i32)
    ensures
        count == vstd::math::min(children as int, i32::MAX as int),
{
    if children > i32::MAX as usize {
        i32::MAX
    } else {
        children as i32
    }
}

/// An answer to a screen reader: an error, a value, or a success with nothing to give.
#[derive(Clone, Copy, Debug, PartialEq, Eq, Structural)]
pub enum Reply {
    Invalid,
    Id(i32),
    Nothing,
}

/// Where navigating from child `id` of `count` in `direction` leads.
pub open spec fn neighbour(direction: u32, id: int, count: int) -> Reply {
    if id < 0 || id > count {
        Reply::Invalid
    } else if direction == NAVDIR_FIRSTCHILD {
        if id == 0 && count > 0 {
            Reply::Id(1)
        } else {
            Reply::Nothing
        }
    } else if direction == NAVDIR_LASTCHILD {
        if id == 0 && count > 0 {
            Reply::Id(count as i32)
        } else {
            Reply::Nothing
        }
    } else if direction == NAVDIR_NEXT || direction == NAVDIR_DOWN {
        if 0 < id < count {
            Reply::Id((id + 1) as i32)
        } else {
            Reply::Nothing
        }
    } else if direction == NAVDIR_PREVIOUS || direction == NAVDIR_UP {
        if id > 1 {
            Reply::Id((id - 1) as i32)
        } else {
            Reply::Nothing
        }
    } else {
        Reply::Invalid
    }
}

/// Where navigating from `start` in `direction` leads, among `children`.
pub fn navigate(direction: u32, start: Option<i32>, children: usize) -> (reply: Reply)
    ensures
        reply == (match start {
            Some(id) => neighbour(
                direction,
                id as int,
                vstd::math::min(children as int, i32::MAX as int),
            ),
            None => Reply::Invalid,
        }),
{
    let id: i32 = match start {
        Some(id) => id,
        None => return Reply::Invalid,
    };
    let count: i32 = child_count(children);
    if id < 0 || id > count {
        return Reply::Invalid;
    }
    if direction == NAVDIR_FIRSTCHILD {
        if id == 0 && count > 0 {
            Reply::Id(1)
        } else {
            Reply::Nothing
        }
    } else if direction == NAVDIR_LASTCHILD {
        if id == 0 && count > 0 {
            Reply::Id(count)
        } else {
            Reply::Nothing
        }
    } else if direction == NAVDIR_NEXT || direction == NAVDIR_DOWN {
        if id > 0 && id < count {
            Reply::Id(id + 1)
        } else {
            Reply::Nothing
        }
    } else if direction == NAVDIR_PREVIOUS || direction == NAVDIR_UP {
        if id > 1 {
            Reply::Id(id - 1)
        } else {
            Reply::Nothing
        }
    } else {
        Reply::Invalid
    }
}

/// Going to the next child and back leads home, and the first and last children are the ends.
pub proof fn navigation_leads_back(id: int, count: int)
    requires
        1 <= id < count <= i32::MAX,
    ensures
        neighbour(NAVDIR_NEXT, id, count) matches Reply::Id(next) && neighbour(
            NAVDIR_PREVIOUS,
            next as int,
            count,
        ) == Reply::Id(id as i32),
        neighbour(NAVDIR_PREVIOUS, 1, count) == Reply::Nothing,
        neighbour(NAVDIR_NEXT, count, count) == Reply::Nothing,
{
}

/// What a client asks of a child.
#[derive(Clone, Copy, Debug, PartialEq, Eq, Structural)]
pub enum Action {
    Activate,
    Select,
    Focus,
}

/// What the flags of a selection request ask for.
pub open spec fn asked_for(flags: u32) -> Option<Action> {
    if flags & (SELFLAG_TAKEFOCUS | SELFLAG_TAKESELECTION) == 0 {
        None
    } else if flags & SELFLAG_TAKEFOCUS != 0 {
        Some(Action::Focus)
    } else {
        Some(Action::Select)
    }
}

/// The action a selection request's flags mean: taking the focus wins over taking the selection.
pub fn selection_action(flags: u32) -> (action: Option<Action>)
    ensures
        action == asked_for(flags),
{
    if flags & (SELFLAG_TAKEFOCUS | SELFLAG_TAKESELECTION) == 0 {
        None
    } else if flags & SELFLAG_TAKEFOCUS != 0 {
        Some(Action::Focus)
    } else {
        Some(Action::Select)
    }
}

/// The child that `id` is of, among `count`.
pub open spec fn child_of(id: i32, count: int) -> Option<usize> {
    if 0 < id <= count {
        Some((id - 1) as usize)
    } else {
        None
    }
}

/// The index of a child to act on, where `id` is one of `count` children.
pub fn post_action(id: i32, count: usize) -> (index: Option<usize>)
    ensures
        index == child_of(id, count as int),
{
    if id <= 0 || id as usize > count {
        None
    } else {
        Some(id as usize - 1)
    }
}

/// What running an action on a child does to its window.
#[derive(Clone, Copy, Debug, PartialEq, Eq, Structural)]
pub struct ActionPlan {
    pub activate: bool,
    pub select: bool,
    pub focus_window: bool,
}

/// What an action comes to, while its child is there.
pub open spec fn plan_for(index: int, count: int, action: Action) -> Option<ActionPlan> {
    if index >= count {
        None
    } else {
        Some(
            ActionPlan {
                activate: action == Action::Activate,
                select: action != Action::Activate,
                focus_window: action == Action::Focus,
            },
        )
    }
}

/// What running `action` on child `index` of `count` does. The children may have changed since the
/// client asked: an index past the end is dropped.
pub fn run_action(index: usize, count: usize, action: Action) -> (plan: Option<ActionPlan>)
    ensures
        plan == plan_for(index as int, count as int, action),
{
    if index >= count {
        return None;
    }
    Some(
        ActionPlan {
            activate: action == Action::Activate,
            select: action != Action::Activate,
            focus_window: action == Action::Focus,
        },
    )
}

/// What is at a point of the window.
pub open spec fn reply_at(point: Point, client: Rect, child: Option<usize>) -> Reply {
    if client.has(point.x as int, point.y as int) {
        Reply::Id(id_of(child) as i32)
    } else {
        Reply::Nothing
    }
}

/// The child ID for a screen point in client coordinates: nothing outside the client area, else
/// the child there or the window itself.
pub fn hit_test(point: Point, client: Rect, child: Option<usize>) -> (reply: Reply)
    requires
        child matches Some(index) ==> index < i32::MAX,
    ensures
        reply == reply_at(point, client, child),
{
    if !contains(client, point.x, point.y) {
        return Reply::Nothing;
    }
    Reply::Id(child_id(child))
}

/// A child's place on the screen: its rectangle moved by the client area's origin, as its corner
/// and its size.
pub fn location(rect: Rect, origin: Point) -> (place: (Point, crate::geometry::Size))
    requires
        rect.in_range(),
        -crate::geometry::MAX_COORDINATE <= origin.x <= crate::geometry::MAX_COORDINATE,
        -crate::geometry::MAX_COORDINATE <= origin.y <= crate::geometry::MAX_COORDINATE,
    ensures
        place.0.x == rect.left + origin.x,
        place.0.y == rect.top + origin.y,
        place.1.cx == rect.right - rect.left,
        place.1.cy == rect.bottom - rect.top,
{
    (
        Point { x: rect.left + origin.x, y: rect.top + origin.y },
        crate::geometry::Size { cx: rect.right - rect.left, cy: rect.bottom - rect.top },
    )
}

/// The queries whose senders wait for an answer, by number. A message is trusted only while its
/// number is registered: any window can send any number.
#[derive(Debug)]
pub struct LiveCalls {
    waiting: Vec<usize>,
}

impl View for LiveCalls {
    type V = Seq<usize>;

    closed spec fn view(&self) -> Seq<usize> {
        self.waiting@
    }
}

/// The waiting calls with one registration of `call` less.
pub open spec fn without_call(waiting: Seq<usize>, call: usize) -> Seq<usize> {
    match waiting.index_of_first(call) {
        Some(index) => waiting.remove(index),
        None => waiting,
    }
}

impl LiveCalls {
    pub fn new() -> (calls: Self)
        ensures
            calls@ == Seq::<usize>::empty(),
    {
        LiveCalls { waiting: Vec::new() }
    }

    pub fn register(&mut self, call: usize)
        ensures
            final(self)@ == old(self)@.push(call),
    {
        self.waiting.push(call);
    }

    pub fn is_live(&self, call: usize) -> (live: bool)
        ensures
            live == self@.contains(call),
    {
        let mut at: usize = 0;
        while at < self.waiting.len()
            invariant
                at <= self.waiting.len(),
                forall|i: int| 0 <= i < at ==> self.waiting@[i] != call,
            decreases self.waiting.len() - at,
        {
            if self.waiting[at] == call {
                return true;
            }
            at = at + 1;
        }
        false
    }

    /// Forgets one registration of `call`.
    pub fn unregister(&mut self, call: usize)
        ensures
            final(self)@ == without_call(old(self)@, call),
    {
        let ghost before = self.waiting@;
        proof {
            before.index_of_first_ensures(call);
        }
        let mut at: usize = 0;
        while at < self.waiting.len()
            invariant
                at <= self.waiting.len(),
                self.waiting@ == before,
                before == old(self)@,
                forall|i: int| 0 <= i < at ==> before[i] != call,
                match before.index_of_first(call) {
                    Some(index) => 0 <= index < before.len() && before[index] == call && forall|j: int|
                        0 <= j < index < before.len() ==> before[j] != call,
                    None => !before.contains(call),
                },
            decreases self.waiting.len() - at,
        {
            if self.waiting[at] == call {
                self.waiting.remove(at);
                return;
            }
            at = at + 1;
        }
    }
}

/// A query that was answered and forgotten is answered no more, unless it was registered again.
pub proof fn forgotten_calls_are_refused(waiting: Seq<usize>, call: usize)
    requires
        waiting.no_duplicates(),
    ensures
        match waiting.index_of_first(call) {
            Some(index) => !waiting.remove(index).contains(call),
            None => !waiting.contains(call),
        },
{
    waiting.index_of_first_ensures(call);
    if let Some(index) = waiting.index_of_first(call) {
        let rest = waiting.remove(index);
        assert forall|i: int| 0 <= i < rest.len() implies rest[i] != call by {
            let at = if i < index { i } else { i + 1 };
            assert(rest[i] == waiting[at]);
            assert(waiting[at] != waiting[index]);
        }
    }
}

} // verus!
