//! What the Search view does: its answer to the pointer, the keys, the box's text, a library change
//! and a search's messages. Each step changes the view and says what the program does next.

use crate::geometry::{contains, height, Point, Rect};
use crate::messages::{
    key_of, point_of, wheel_delta, EM_REPLACESEL, EM_UNDO, VK_ESCAPE, VK_RETURN,
    WM_CAPTURECHANGED, WM_CHAR, WM_CLEAR, WM_CUT, WM_KEYDOWN, WM_LBUTTONDBLCLK, WM_LBUTTONDOWN,
    WM_LBUTTONUP, WM_MOUSELEAVE, WM_MOUSEMOVE, WM_MOUSEWHEEL, WM_PAINT, WM_PASTE, WM_SETTEXT,
    WM_UNDO,
};
use crate::option_toggles::{
    alt_option, hit, is_toggle_char, reserved_width, toggle_rects, tooltip, SearchOption,
};
use crate::panel::scale;
use crate::row_list::{ListKey, RowListState, VK_DOWN, VK_NEXT, VK_UP};
use crate::search_lines::{placeholder, skipped_tooltip, SearchState, State};
use crate::search_view::{SearchView, Tool, FIELD_TEXT_INSET_AT_96_DPI, ROW_AT_96_DPI, STATUS_TOOL};
use crate::text_replace::Candidate;
use crate::text_search::{is_blank, searchable};
use crate::tree::expanded_key;
use vstd::prelude::*;
use vstd::string::*;

verus! {

/// How a note opens: in the preview tab, which the next preview replaces, or in a tab of its own.
#[derive(Clone, Copy, Debug, PartialEq, Eq, Structural)]
pub enum OpenMode {
    Preview,
    Permanent,
}

/// What the program does after the view took a message, over paths of type `T`.
#[derive(Debug, PartialEq, Eq)]
pub enum Act<T> {
    /// Nothing more; repaint where set.
    Done { repaint: bool },
    /// The pointer moved: track it leaving, bring the tooltips up to date, repaint where set.
    Moved { repaint: bool },
    /// Flip the option and run the query again.
    Toggle(SearchOption),
    /// Put the caret in the search box.
    FocusBox,
    /// Take the mouse: the scroll thumb is dragged.
    Capture,
    /// Let the mouse go.
    Release,
    /// Repaint and open the note, in the editor where set.
    Open { path: T, mode: OpenMode, focus_editor: bool },
    /// Put the caret in the box and hand it the character.
    TypeInBox,
}

pub type SearchAct = Act<String>;

pub type ActModel = Act<Seq<char>>;

pub open spec fn act_model(act: SearchAct) -> ActModel {
    match act {
        Act::Done { repaint } => Act::Done { repaint },
        Act::Moved { repaint } => Act::Moved { repaint },
        Act::Toggle(option) => Act::Toggle(option),
        Act::FocusBox => Act::FocusBox,
        Act::Capture => Act::Capture,
        Act::Release => Act::Release,
        Act::Open { path, mode, focus_editor } => Act::Open { path: path@, mode, focus_editor },
        Act::TypeInBox => Act::TypeInBox,
    }
}

pub open spec fn maybe_act(act: Option<SearchAct>) -> Option<ActModel> {
    match act {
        Some(act) => Some(act_model(act)),
        None => None,
    }
}

/// Where the view is, the keys that are down and the wheel's setting, as a message finds them.
#[derive(Clone, Copy, Debug, PartialEq, Eq, Structural)]
pub struct Setting {
    pub client: Rect,
    pub dpi: u32,
    pub ctrl: bool,
    pub wheel_lines: u32,
}

impl Setting {
    pub open spec fn wf(self) -> bool {
        crate::geometry::roomy(self.client) && self.dpi <= crate::panel::MAX_DPI
    }
}

/// The tools, their texts as characters.
pub open spec fn tool_models(tools: Seq<Tool>) -> Seq<(usize, Rect, Seq<char>)> {
    tools.map_values(|tool: Tool| (tool.id, tool.rect, tool.text@))
}

fn same_tools(a: &Vec<Tool>, b: &Vec<Tool>) -> (same: bool)
    ensures
        same == (tool_models(a@) == tool_models(b@)),
{
    if a.len() != b.len() {
        assert(tool_models(a@).len() != tool_models(b@).len());
        return false;
    }
    let mut at: usize = 0;
    while at < a.len()
        invariant
            a.len() == b.len(),
            at <= a.len(),
            forall|i: int| 0 <= i < at ==> tool_models(a@)[i] == tool_models(b@)[i],
        decreases a.len() - at,
    {
        if a[at].id != b[at].id || a[at].rect != b[at].rect || a[at].text != b[at].text {
            assert(tool_models(a@)[at as int] != tool_models(b@)[at as int]);
            return false;
        }
        at = at + 1;
    }
    assert(tool_models(a@) =~= tool_models(b@));
    true
}

impl SearchView {
    /// Where the results are.
    pub open spec fn area(self, client: Rect, dpi: u32) -> Rect {
        crate::search_view::list_box(client, dpi as int, self.shown().lines().1 is Some)
    }

    /// The toggle at `point`, while the field shows.
    pub open spec fn toggle_hit(self, point: Point, client: Rect, dpi: u32) -> Option<SearchOption> {
        if self.box_made {
            crate::option_toggles::toggle_under(
                crate::search_view::field_box(client, dpi as int),
                dpi as int,
                point.x as int,
                point.y as int,
            )
        } else {
            None
        }
    }

    /// The toggle under `point`, while the field shows.
    pub fn toggle_at(&self, point: Point, client: Rect, dpi: u32) -> (toggle: Option<SearchOption>)
        requires
            crate::geometry::roomy(client),
            dpi <= crate::panel::MAX_DPI,
        ensures
            toggle == self.toggle_hit(point, client, dpi),
    {
        if !self.box_made {
            return None;
        }
        let rects = toggle_rects(SearchView::field_rect(client, dpi), dpi);
        hit(&rects, point)
    }

    /// The result at `point`.
    pub open spec fn result_under(self, point: Point, client: Rect, dpi: u32) -> Option<usize> {
        let area = self.area(client, dpi);
        if area.has(point.x as int, point.y as int) {
            self.list.row_under(point.y - area.top)
        } else {
            None
        }
    }

    pub fn row_under(&self, point: Point, client: Rect, dpi: u32) -> (row: Option<usize>)
        requires
            self.wf(),
            crate::geometry::roomy(client),
            dpi <= crate::panel::MAX_DPI,
        ensures
            row == self.result_under(point, client, dpi),
            row matches Some(row) ==> row < self.results.len(),
    {
        let area = self.list_area(client, dpi);
        if !contains(area, point.x, point.y) {
            return None;
        }
        self.list.row_at(point.y - area.top)
    }

    /// Where on the scroll thumb `point` is.
    pub open spec fn thumb_under(self, point: Point, client: Rect, dpi: u32) -> Option<i32> {
        let area = self.area(client, dpi);
        self.list.grab_at(
            point.x - area.left,
            point.y - area.top,
            area.right - area.left,
            area.tall(),
        )
    }

    /// Where on the scroll thumb a press at `point` landed, if it landed on it.
    pub fn thumb_at(&self, point: Point, client: Rect, dpi: u32) -> (grab: Option<i32>)
        requires
            self.wf(),
            crate::geometry::roomy(client),
            dpi <= crate::panel::MAX_DPI,
            -0x8000 <= point.x < 0x8000,
            -0x8000 <= point.y < 0x8000,
        ensures
            grab == self.thumb_under(point, client, dpi),
    {
        let area = self.list_area(client, dpi);
        self.list.thumb_hit(
            point.x - area.left,
            point.y - area.top,
            area.right - area.left,
            height(area),
        )
    }

    /// The view after the pointer moved to `at`: a grabbed thumb follows it, otherwise what lies
    /// under it is hovered.
    pub open spec fn pointed(self, at: Point, client: Rect, dpi: u32) -> SearchView {
        let area = self.area(client, dpi);
        match self.thumb_grab {
            Some(grab) => SearchView {
                list: self.list.thumb_dragged(grab as int, at.y - area.top, area.tall()),
                ..self
            },
            None => SearchView {
                toggle_hover: self.toggle_hit(at, client, dpi),
                list: self.list.hovering(self.result_under(at, client, dpi)),
                ..self
            },
        }
    }

    pub fn mouse_move(&mut self, at: Point, client: Rect, dpi: u32) -> (changed: bool)
        requires
            old(self).wf(),
            crate::geometry::roomy(client),
            dpi <= crate::panel::MAX_DPI,
            -0x8000 <= at.x < 0x8000,
            -0x8000 <= at.y < 0x8000,
        ensures
            final(self).wf(),
            *final(self) == old(self).pointed(at, client, dpi),
            changed == (final(self).toggle_hover != old(self).toggle_hover || final(self).list.hover
                != old(self).list.hover || final(self).list.top != old(self).list.top),
    {
        let area = self.list_area(client, dpi);
        match self.thumb_grab {
            Some(grab) => self.list.drag_thumb(grab, at.y - area.top, height(area)),
            None => {
                let toggle = self.toggle_at(at, client, dpi);
                let toggle_changed: bool = self.toggle_hover != toggle;
                let hover = self.row_under(at, client, dpi);
                self.toggle_hover = toggle;
                let row_changed: bool = self.list.set_hover(hover);
                toggle_changed || row_changed
            },
        }
    }

    /// The view with nothing hovered.
    pub open spec fn unpointed(self) -> SearchView {
        SearchView { toggle_hover: None, list: self.list.hovering(None), ..self }
    }

    /// The pointer left: nothing is hovered.
    pub fn mouse_leave(&mut self) -> (changed: bool)
        requires
            old(self).wf(),
        ensures
            final(self).wf(),
            *final(self) == old(self).unpointed(),
            changed == (old(self).toggle_hover is Some || old(self).list.hover is Some),
    {
        let toggle_changed: bool = self.toggle_hover.is_some();
        self.toggle_hover = None;
        let row_changed: bool = self.list.set_hover(None);
        toggle_changed || row_changed
    }

    /// The view after a press at `at`, and what follows. A toggle flips, the field's padding takes
    /// the caret, the scroll thumb is grabbed (on a single press), and a result is selected and
    /// opened.
    pub open spec fn pressed(self, at: Point, double: bool, client: Rect, dpi: u32) -> (
        SearchView,
        ActModel,
    ) {
        let area = self.area(client, dpi);
        match self.toggle_hit(at, client, dpi) {
            Some(option) => (self, Act::Toggle(option)),
            None => if self.box_made && crate::search_view::field_box(client, dpi as int).has(
                at.x as int,
                at.y as int,
            ) {
                (self, Act::FocusBox)
            } else if !double && self.thumb_under(at, client, dpi) is Some {
                (
                    SearchView { thumb_grab: self.thumb_under(at, client, dpi), ..self },
                    Act::Capture,
                )
            } else {
                let view = if double {
                    self
                } else {
                    SearchView { thumb_grab: None, ..self }
                };
                match self.result_under(at, client, dpi) {
                    Some(index) => (
                        SearchView {
                            list: self.list.with_selected(index as int, area.tall()),
                            ..view
                        },
                        Act::Open {
                            path: self.results@[index as int].path@,
                            mode: if double {
                                OpenMode::Permanent
                            } else {
                                OpenMode::Preview
                            },
                            focus_editor: true,
                        },
                    ),
                    None => (view, Act::Done { repaint: true }),
                }
            },
        }
    }

    pub fn press(&mut self, at: Point, double: bool, client: Rect, dpi: u32) -> (act: SearchAct)
        requires
            old(self).wf(),
            crate::geometry::roomy(client),
            dpi <= crate::panel::MAX_DPI,
            -0x8000 <= at.x < 0x8000,
            -0x8000 <= at.y < 0x8000,
        ensures
            final(self).wf(),
            *final(self) == old(self).pressed(at, double, client, dpi).0,
            act_model(act) == old(self).pressed(at, double, client, dpi).1,
    {
        if let Some(option) = self.toggle_at(at, client, dpi) {
            return Act::Toggle(option);
        }
        if self.header_hit(at.x, at.y, client, dpi) {
            return Act::FocusBox;
        }
        if !double {
            let grab = self.thumb_at(at, client, dpi);
            self.thumb_grab = grab;
            if grab.is_some() {
                return Act::Capture;
            }
        }
        let area = self.list_area(client, dpi);
        match self.row_under(at, client, dpi) {
            Some(index) => {
                self.list.select(index, height(area));
                let path = self.results[index].path.clone();
                let mode = if double {
                    OpenMode::Permanent
                } else {
                    OpenMode::Preview
                };
                Act::Open { path, mode, focus_editor: true }
            },
            None => Act::Done { repaint: true },
        }
    }

    /// Whether the point (`x`, `y`) is on the painted search field, which is client area, not
    /// window caption. The field shows once the box exists.
    pub fn header_hit(&self, x: i32, y: i32, client: Rect, dpi: u32) -> (on_field: bool)
        requires
            crate::geometry::roomy(client),
            dpi <= crate::panel::MAX_DPI,
        ensures
            on_field == (self.box_made && crate::search_view::field_box(client, dpi as int).has(
                x as int,
                y as int,
            )),
    {
        self.box_made && contains(SearchView::field_rect(client, dpi), x, y)
    }

    /// The selected result, or the first one: what Enter opens.
    pub open spec fn to_open(self) -> Option<Seq<char>> {
        crate::search_view::path_of(
            self.results@,
            Some(
                match self.list.selected {
                    Some(index) => index,
                    None => 0usize,
                },
            ),
        )
    }

    /// What opening the selected result, or the first one, comes to.
    pub open spec fn opened(self, mode: OpenMode, focus_editor: bool) -> ActModel {
        match self.to_open() {
            Some(path) => Act::Open { path, mode, focus_editor },
            None => Act::Done { repaint: false },
        }
    }

    /// Opens the selected result, or the first one, as the preview tab or a normal tab.
    pub fn open_selected(&self, mode: OpenMode, focus_editor: bool) -> (act: SearchAct)
        ensures
            act_model(act) == self.opened(mode, focus_editor),
    {
        let index: usize = match self.list.selected {
            Some(index) => index,
            None => 0,
        };
        match self.path_at(Some(index)) {
            Some(path) => Act::Open { path, mode, focus_editor },
            None => Act::Done { repaint: false },
        }
    }

    /// What Enter opens: with Ctrl a tab of its own, which takes the focus; else the preview tab,
    /// the focus staying in the list, so arrows and Enter browse.
    pub open spec fn entered(self, ctrl: bool) -> ActModel {
        match self.to_open() {
            Some(path) => Act::Open {
                path,
                mode: if ctrl {
                    OpenMode::Permanent
                } else {
                    OpenMode::Preview
                },
                focus_editor: ctrl,
            },
            None => Act::Done { repaint: false },
        }
    }

    fn enter(&self, ctrl: bool) -> (act: SearchAct)
        ensures
            act_model(act) == self.entered(ctrl),
    {
        if ctrl {
            self.open_selected(OpenMode::Permanent, true)
        } else {
            self.open_selected(OpenMode::Preview, false)
        }
    }

    /// The view after a key in the results, and what follows; `None` leaves the key to the panel.
    pub open spec fn keyed(self, key: u32, ctrl: bool, client: Rect, dpi: u32) -> (
        SearchView,
        Option<ActModel>,
    ) {
        if key == VK_RETURN {
            (self, Some(self.entered(ctrl)))
        } else if key == VK_UP && (self.list.selected is None || self.list.selected == Some(
            0usize,
        )) {
            (
                self,
                Some(
                    if self.box_made {
                        Act::FocusBox
                    } else {
                        Act::Done { repaint: false }
                    },
                ),
            )
        } else {
            match ListKey::of_virtual_key(key) {
                Some(movement) => (
                    SearchView {
                        list: self.list.after_key(movement, self.area(client, dpi).tall()),
                        ..self
                    },
                    Some(Act::Done { repaint: true }),
                ),
                None => (self, None),
            }
        }
    }

    pub fn key(&mut self, key: u32, ctrl: bool, client: Rect, dpi: u32) -> (act: Option<SearchAct>)
        requires
            old(self).wf(),
            crate::geometry::roomy(client),
            dpi <= crate::panel::MAX_DPI,
        ensures
            final(self).wf(),
            *final(self) == old(self).keyed(key, ctrl, client, dpi).0,
            maybe_act(act) == old(self).keyed(key, ctrl, client, dpi).1,
    {
        if key == VK_RETURN {
            return Some(self.enter(ctrl));
        }
        let at_top: bool = match self.list.selected {
            Some(index) => index == 0,
            None => true,
        };
        if key == VK_UP && at_top {
            return Some(
                if self.box_made {
                    Act::FocusBox
                } else {
                    Act::Done { repaint: false }
                },
            );
        }
        match ListKey::from_virtual_key(key) {
            Some(movement) => {
                let area = self.list_area(client, dpi);
                self.list.move_selection(movement, height(area));
                Some(Act::Done { repaint: true })
            },
            None => None,
        }
    }

    /// The view after a message, and what follows; `None` leaves the message to the panel.
    pub open spec fn handled(
        self,
        message: u32,
        wparam: usize,
        lparam: isize,
        setting: Setting,
    ) -> (SearchView, Option<ActModel>) {
        let (client, dpi) = (setting.client, setting.dpi);
        let at = crate::messages::point_in(lparam);
        if let Some(option) = crate::option_toggles::alt_toggle(message, wparam, lparam) {
            (self, Some(Act::Toggle(option)))
        } else if crate::option_toggles::swallowed(message, wparam, lparam) {
            (self, Some(Act::Done { repaint: false }))
        } else if message == WM_MOUSEMOVE {
            let after = self.pointed(at, client, dpi);
            let repaint = after.toggle_hover != self.toggle_hover || after.list.hover
                != self.list.hover || after.list.top != self.list.top;
            (after, Some(Act::Moved { repaint }))
        } else if message == WM_MOUSELEAVE {
            (
                SearchView { toggle_hover: None, list: self.list.hovering(None), ..self },
                Some(
                    Act::Done { repaint: self.toggle_hover is Some || self.list.hover is Some },
                ),
            )
        } else if message == WM_LBUTTONDOWN || message == WM_LBUTTONDBLCLK {
            let (view, act) = self.pressed(at, message == WM_LBUTTONDBLCLK, client, dpi);
            (view, Some(act))
        } else if message == WM_LBUTTONUP {
            (
                SearchView { thumb_grab: None, ..self },
                Some(
                    if self.thumb_grab is Some {
                        Act::Release
                    } else {
                        Act::Done { repaint: false }
                    },
                ),
            )
        } else if message == WM_CAPTURECHANGED {
            (SearchView { thumb_grab: None, ..self }, Some(Act::Done { repaint: false }))
        } else if message == WM_MOUSEWHEEL {
            let list = self.list.wheeled(
                crate::messages::wheel_turn(wparam),
                setting.wheel_lines,
                self.area(client, dpi).tall(),
            );
            (
                SearchView { list, ..self },
                Some(Act::Done { repaint: list.top != self.list.top }),
            )
        } else if message == WM_KEYDOWN {
            self.keyed(crate::messages::low_word(wparam), setting.ctrl, client, dpi)
        } else if message == WM_CHAR && typed(wparam) && self.box_made {
            (self, Some(Act::TypeInBox))
        } else {
            (self, None)
        }
    }

    /// Input for the Search view's field and result list. Alt+C, Alt+W and Alt+R flip the toggles,
    /// and the character that follows is swallowed before the menu band sees it. Typing in the
    /// list goes on in the box.
    pub fn handle(&mut self, message: u32, wparam: usize, lparam: isize, setting: &Setting) -> (act:
        Option<SearchAct>)
        requires
            old(self).wf(),
            setting.wf(),
        ensures
            final(self).wf(),
            *final(self) == old(self).handled(message, wparam, lparam, *setting).0,
            maybe_act(act) == old(self).handled(message, wparam, lparam, *setting).1,
    {
        if let Some(option) = alt_option(message, wparam, lparam) {
            return Some(Act::Toggle(option));
        }
        if is_toggle_char(message, wparam, lparam) {
            return Some(Act::Done { repaint: false });
        }
        let (client, dpi) = (setting.client, setting.dpi);
        match message {
            WM_MOUSEMOVE => Some(
                Act::Moved { repaint: self.mouse_move(point_of(lparam), client, dpi) },
            ),
            WM_MOUSELEAVE => Some(Act::Done { repaint: self.mouse_leave() }),
            WM_LBUTTONDOWN => Some(self.press(point_of(lparam), false, client, dpi)),
            WM_LBUTTONDBLCLK => Some(self.press(point_of(lparam), true, client, dpi)),
            WM_LBUTTONUP => {
                let grabbed: bool = self.thumb_grab.is_some();
                self.thumb_grab = None;
                Some(
                    if grabbed {
                        Act::Release
                    } else {
                        Act::Done { repaint: false }
                    },
                )
            },
            WM_CAPTURECHANGED => {
                self.thumb_grab = None;
                Some(Act::Done { repaint: false })
            },
            WM_MOUSEWHEEL => {
                let area = self.list_area(client, dpi);
                let repaint: bool = self.list.wheel(
                    wheel_delta(wparam),
                    setting.wheel_lines,
                    height(area),
                );
                Some(Act::Done { repaint })
            },
            WM_KEYDOWN => self.key(key_of(wparam), setting.ctrl, client, dpi),
            WM_CHAR => if is_typed(wparam) && self.box_made {
                Some(Act::TypeInBox)
            } else {
                None
            },
            _ => None,
        }
    }
}

/// What the program does after the box's text changed.
#[derive(Clone, Copy, Debug, PartialEq, Eq, Structural)]
pub enum QueryChange {
    /// Restart the debounce; repaint and announce the lines where set.
    Schedule { repaint: bool },
    /// Cancel the search, repaint and announce the lines.
    Cancel,
}

/// What the program does after the library changed.
#[derive(Clone, Copy, Debug, PartialEq, Eq, Structural)]
pub enum LibraryStep {
    /// Another notebook: forget the search and clear the box.
    Forget,
    /// The same one, the view showing: run the query again if its notes changed.
    Check,
    /// The same one, the view hidden: nothing until it shows.
    Wait,
}

/// Whether two optional paths name different folders, ignoring case.
pub open spec fn moved_on(old: Option<Seq<char>>, new: Option<Seq<char>>) -> bool {
    match (old, new) {
        (Some(old), Some(new)) => crate::tree::lowercased(old) != crate::tree::lowercased(new),
        (None, None) => false,
        _ => true,
    }
}

/// What a change of the box's text does: a query that can run changes nothing but the hint, one
/// that can't clears the list.
pub open spec fn retyped(
    before: SearchView,
    after: SearchView,
    query: String,
    change: QueryChange,
) -> bool {
    &&& after.box_text == query
    &&& crate::text_search::runs(query@) ==> {
        &&& change == (QueryChange::Schedule { repaint: before.search is TooShort })
        &&& after == (SearchView {
            box_text: query,
            search: if before.search is TooShort {
                State::Idle
            } else {
                before.search
            },
            ..before
        })
    }
    &&& !crate::text_search::runs(query@) ==> {
        &&& change == QueryChange::Cancel
        &&& after.shown() == (crate::search_view::Shown {
            search: if crate::text_search::blank(query@) {
                State::Idle
            } else {
                State::TooShort
            },
            ..before.shown().cleared()
        })
        &&& after.query@ == query@
        &&& after.run_options == before.run_options
        &&& after.searched(SearchView { box_text: query, ..before })
    }
}

/// What a library change does: another notebook clears the view, the same one is taken note of.
pub open spec fn relisted(
    before: SearchView,
    after: SearchView,
    notebook: Option<String>,
    loaded: bool,
    failed: bool,
    visible: bool,
    step: LibraryStep,
) -> bool {
    let moved = moved_on(crate::text::maybe(before.notebook), crate::text::maybe(notebook));
    &&& after.loaded == loaded
    &&& after.failed == failed
    &&& moved ==> {
        &&& step == LibraryStep::Forget
        &&& after.notebook == notebook
        &&& after.placeholder@ == crate::search_lines::placeholder_for(
            crate::text::maybe(notebook),
        )
        &&& after.shown() == (crate::search_view::Shown {
            search: State::Idle,
            ..before.shown().cleared()
        })
        &&& after.query@ == Seq::<char>::empty()
        &&& after.run_options == before.run_options
        &&& after.searched(
            SearchView {
                loaded,
                failed,
                notebook,
                placeholder: after.placeholder,
                stale: false,
                ..before
            },
        )
    }
    &&& !moved ==> {
        &&& step == (if visible {
            LibraryStep::Check
        } else {
            LibraryStep::Wait
        })
        &&& after == (SearchView { loaded, failed, stale: before.stale || !visible, ..before })
    }
}

impl SearchView {
    /// The view with a pattern's error in place of the summary, or without one.
    pub open spec fn with_error(self, error: Option<String>) -> SearchView {
        SearchView {
            search: match error {
                Some(message) => State::PatternError(message),
                None => if self.search is PatternError {
                    State::Idle
                } else {
                    self.search
                },
            },
            ..self
        }
    }

    /// The view with an option flipped.
    pub open spec fn with_flipped(self, option: SearchOption) -> SearchView {
        SearchView { options: self.options.flipped(option), ..self }
    }

    /// Whether the replace field comes or goes with its shortcut, and the view after it.
    pub open spec fn after_replace_key(self, in_field: bool) -> (bool, SearchView) {
        (self.replace_open == in_field, SearchView { replace_open: !in_field, ..self })
    }

    /// Whether there is a result to go into from the box, and the view with it selected.
    pub open spec fn entering(self, client: Rect, dpi: u32) -> (bool, SearchView) {
        if self.results.len() > 0 {
            (
                true,
                SearchView {
                    list: self.list.with_selected(
                        match self.list.selected {
                            Some(index) => index as int,
                            None => 0,
                        },
                        self.area(client, dpi).tall(),
                    ),
                    ..self
                },
            )
        } else {
            (false, self)
        }
    }

    /// Whether the tooltip's tools are to be set, and the view that has them.
    pub open spec fn retooled(self, tools: Vec<Tool>, created: bool) -> (bool, SearchView) {
        if created || tool_models(tools@) != tool_models(self.tools_shown@) {
            (true, SearchView { tools_shown: tools, ..self })
        } else {
            (false, self)
        }
    }

    /// What a replace may change, and whether more notes match than are listed.
    pub open spec fn offers(self, candidates: Seq<Candidate>, capped: bool) -> bool {
        &&& candidates.len() == self.results.len()
        &&& forall|i: int|
            0 <= i < self.results.len() ==> #[trigger] candidates[i] == (Candidate {
                path: self.results@[i].path,
                name: self.results@[i].name,
                stamp: self.results@[i].stamp,
            })
        &&& capped == (self.search matches State::Done { capped, .. } && capped)
    }
}

fn other_folder(old: &Option<String>, new: &Option<String>) -> (other: bool)
    ensures
        other == moved_on(crate::text::maybe(*old), crate::text::maybe(*new)),
{
    match (old, new) {
        (Some(old), Some(new)) => expanded_key(old) != expanded_key(new),
        (None, None) => false,
        _ => true,
    }
}

impl SearchView {
    /// The box's text changed. A query that can run restarts the debounce and nothing else, but
    /// for the hint to type more, which goes at once. One that can't (empty, all white space or
    /// one character) clears the list.
    pub fn query_changed(&mut self, query: String) -> (change: QueryChange)
        requires
            old(self).wf(),
        ensures
            final(self).wf(),
            retyped(*old(self), *final(self), query, change),
    {
        if searchable(query.as_str()) {
            self.box_text = query;
            let short: bool = match self.search {
                State::TooShort => true,
                _ => false,
            };
            if short {
                self.search = State::Idle;
            }
            return QueryChange::Schedule { repaint: short };
        }
        let state: SearchState = if is_blank(query.as_str()) {
            State::Idle
        } else {
            State::TooShort
        };
        self.clear_results();
        self.query = query.clone();
        self.box_text = query;
        self.search = state;
        QueryChange::Cancel
    }

    /// The library changed. A new notebook clears the query and the results. The same notebook
    /// runs the query again if its notes changed, or, while the view is hidden, checks once it
    /// shows again.
    pub fn library_changed(
        &mut self,
        notebook: Option<String>,
        loaded: bool,
        failed: bool,
        visible: bool,
    ) -> (step: LibraryStep)
        requires
            old(self).wf(),
        ensures
            final(self).wf(),
            relisted(*old(self), *final(self), notebook, loaded, failed, visible, step),
    {
        self.loaded = loaded;
        self.failed = failed;
        if other_folder(&self.notebook, &notebook) {
            self.placeholder = placeholder(notebook.as_ref());
            self.notebook = notebook;
            self.clear_results();
            self.query = String::new();
            self.search = State::Idle;
            self.stale = false;
            LibraryStep::Forget
        } else if visible {
            LibraryStep::Check
        } else {
            self.stale = true;
            LibraryStep::Wait
        }
    }

    /// Shows a pattern's error in place of the summary, keeping the results, or clears it.
    pub fn set_pattern_error(&mut self, error: Option<String>)
        requires
            old(self).wf(),
        ensures
            final(self).wf(),
            *final(self) == old(self).with_error(error),
    {
        match error {
            Some(message) => {
                self.search = State::PatternError(message);
            },
            None => {
                let shown: bool = match self.search {
                    State::PatternError(_) => true,
                    _ => false,
                };
                if shown {
                    self.search = State::Idle;
                }
            },
        }
    }

    /// Flips `option`.
    pub fn toggle_option(&mut self, option: SearchOption)
        ensures
            *final(self) == old(self).with_flipped(option),
    {
        self.options = self.options.toggled(option);
    }

    /// Opens the replace field; reports whether it was closed.
    pub fn open_replace(&mut self) -> (opened: bool)
        ensures
            (opened, *final(self)) == old(self).after_replace_key(false),
    {
        let opened: bool = !self.replace_open;
        self.replace_open = true;
        opened
    }

    /// The replace shortcut: it opens the replace field, and closes it when pressed in the field.
    /// Reports whether the field came or went.
    pub fn replace_pressed(&mut self, in_field: bool) -> (changed: bool)
        ensures
            (changed, *final(self)) == old(self).after_replace_key(in_field),
    {
        if in_field {
            let changed: bool = self.replace_open;
            self.replace_open = false;
            changed
        } else {
            self.open_replace()
        }
    }

    /// The view shows: reports whether the library changed while it was hidden.
    pub fn take_stale(&mut self) -> (stale: bool)
        ensures
            stale == old(self).stale,
            *final(self) == (SearchView { stale: false, ..*old(self) }),
    {
        let stale: bool = self.stale;
        self.stale = false;
        stale
    }

    /// Down from the box: selects a result, so that the focus can move into them. Reports whether
    /// there is one.
    pub fn enter_results(&mut self, client: Rect, dpi: u32) -> (entered: bool)
        requires
            old(self).wf(),
            crate::geometry::roomy(client),
            dpi <= crate::panel::MAX_DPI,
        ensures
            final(self).wf(),
            (entered, *final(self)) == old(self).entering(client, dpi),
    {
        if self.results.len() == 0 {
            return false;
        }
        let area = self.list_area(client, dpi);
        let index: usize = match self.list.selected {
            Some(index) => index,
            None => 0,
        };
        self.list.select(index, height(area));
        true
    }

    /// Rows follow the monitor's DPI.
    pub fn set_dpi(&mut self, dpi: u32)
        requires
            old(self).wf(),
            1 < dpi <= crate::panel::MAX_DPI,
        ensures
            final(self).wf(),
            *final(self) == (SearchView {
                list: RowListState {
                    row_height: crate::panel::scaled(ROW_AT_96_DPI as int, dpi as int) as i32,
                    ..old(self).list
                },
                ..*old(self)
            }),
    {
        proof {
            crate::panel::scaled_is_bounded(ROW_AT_96_DPI as int, dpi as int);
        }
        self.list.row_height = scale(ROW_AT_96_DPI, dpi);
    }

    /// The tooltip's tools: the toggles while the field shows, and the status line while it says
    /// notes were skipped.
    pub open spec fn tips(self) -> Seq<Seq<char>> {
        let toggle = |option: SearchOption|
            if self.box_made {
                crate::option_toggles::tip_of(option)
            } else {
                Seq::<char>::empty()
            };
        seq![
            toggle(SearchOption::Case),
            toggle(SearchOption::WholeWord),
            toggle(SearchOption::Regex),
            match self.search {
                State::Done { progress, .. } if self.notice_shown() is None => {
                    crate::search_lines::skipped_lines(progress, 4)
                },
                _ => Seq::empty(),
            },
        ]
    }

    fn toggle_tip(&self, option: SearchOption) -> (text: String)
        ensures
            text@ == (if self.box_made {
                crate::option_toggles::tip_of(option)
            } else {
                Seq::empty()
            }),
    {
        if self.box_made {
            tooltip(option).to_owned()
        } else {
            String::new()
        }
    }

    /// The tooltip's tools: the toggles while the field shows, and the status line while it says
    /// notes were skipped. An empty text removes a tool.
    pub fn tooltip_tools(&self, client: Rect, dpi: u32) -> (tools: Vec<Tool>)
        requires
            crate::geometry::roomy(client),
            dpi <= crate::panel::MAX_DPI,
        ensures
            tools.len() == STATUS_TOOL + 1,
            forall|id: int|
                0 <= id < tools.len() ==> {
                    &&& (#[trigger] tools@[id]).id == id
                    &&& tools@[id].text@ == self.tips()[id]
                    &&& tools@[id].rect == (if id < STATUS_TOOL {
                        crate::option_toggles::toggle_rect(
                            crate::search_view::field_box(client, dpi as int),
                            dpi as int,
                            id,
                        )
                    } else {
                        crate::search_view::status_box(client, dpi as int)
                    })
                },
    {
        let rects = toggle_rects(SearchView::field_rect(client, dpi), dpi);
        let skipped: String = match &self.search {
            State::Done { progress, .. } => if self.notice().is_none() {
                skipped_tooltip(progress)
            } else {
                String::new()
            },
            _ => String::new(),
        };
        let mut tools: Vec<Tool> = Vec::new();
        tools.push(Tool { id: 0, rect: rects[0], text: self.toggle_tip(SearchOption::Case) });
        tools.push(Tool { id: 1, rect: rects[1], text: self.toggle_tip(SearchOption::WholeWord) });
        tools.push(Tool { id: 2, rect: rects[2], text: self.toggle_tip(SearchOption::Regex) });
        tools.push(
            Tool { id: STATUS_TOOL, rect: SearchView::status_rect(client, dpi), text: skipped },
        );
        tools
    }

    /// The tooltip is to have `tools`: whether they are to be set on it. They are where they
    /// changed, and on a tooltip just created.
    pub fn retool(&mut self, tools: Vec<Tool>, created: bool) -> (sets: bool)
        ensures
            (sets, *final(self)) == old(self).retooled(tools, created),
    {
        let sets: bool = created || !same_tools(&tools, &self.tools_shown);
        if sets {
            self.tools_shown = tools;
        }
        sets
    }

    /// The view is hidden: the tools to take off the tooltip, or they would show over another
    /// view.
    pub fn take_tools(&mut self) -> (tools: Vec<Tool>)
        ensures
            tools == old(self).tools_shown,
            final(self).tools_shown@ == Seq::<Tool>::empty(),
            *final(self) == (SearchView {
                tools_shown: final(self).tools_shown,
                ..*old(self)
            }),
    {
        let mut tools: Vec<Tool> = Vec::new();
        std::mem::swap(&mut tools, &mut self.tools_shown);
        tools
    }

    /// The listed notes' paths, relative to the notebook, in list order.
    pub fn result_paths(&self) -> (paths: Vec<String>)
        ensures
            paths.len() == self.results.len(),
            forall|i: int|
                0 <= i < paths.len() ==> #[trigger] paths@[i] == self.results@[i].path,
    {
        let mut paths: Vec<String> = Vec::new();
        let mut at: usize = 0;
        while at < self.results.len()
            invariant
                at <= self.results.len(),
                paths.len() == at,
                forall|i: int| 0 <= i < at ==> #[trigger] paths@[i] == self.results@[i].path,
            decreases self.results.len() - at,
        {
            paths.push(self.results[at].path.clone());
            at = at + 1;
        }
        paths
    }

    /// The notes a replace may change: those listed. The flag is whether the search was capped.
    pub fn replace_candidates(&self) -> (candidates: (Vec<Candidate>, bool))
        ensures
            self.offers(candidates.0@, candidates.1),
    {
        let mut candidates: Vec<Candidate> = Vec::new();
        let mut at: usize = 0;
        while at < self.results.len()
            invariant
                at <= self.results.len(),
                candidates.len() == at,
                forall|i: int|
                    0 <= i < at ==> #[trigger] candidates@[i] == (Candidate {
                        path: self.results@[i].path,
                        name: self.results@[i].name,
                        stamp: self.results@[i].stamp,
                    }),
            decreases self.results.len() - at,
        {
            let hit = &self.results[at];
            candidates.push(
                Candidate { path: hit.path.clone(), name: hit.name.clone(), stamp: hit.stamp },
            );
            at = at + 1;
        }
        let capped: bool = match &self.search {
            State::Done { capped, .. } => *capped,
            _ => false,
        };
        (candidates, capped)
    }
}

/// Where the box is in its field.
pub open spec fn box_in(field: Rect, text_height: int, dpi: int) -> Rect {
    let room = vstd::math::max(field.bottom - field.top - 2, 1);
    let text = vstd::math::max(vstd::math::min(text_height, room), 1);
    let left = field.left + crate::panel::scaled(FIELD_TEXT_INSET_AT_96_DPI as int, dpi);
    let top = field.top + crate::option_toggles::half(field.bottom - field.top - text);
    let width = vstd::math::max(field.right - left - crate::option_toggles::reserved(dpi), 0);
    Rect {
        left: left as i32,
        top: top as i32,
        right: (left + width) as i32,
        bottom: (top + text) as i32,
    }
}

/// Where the box is in the field: inset from its left, short of the toggles, its text height
/// centered.
pub fn box_rect(field: Rect, text_height: i32, dpi: u32) -> (rect: Rect)
    requires
        field.in_range(),
        dpi <= crate::panel::MAX_DPI,
    ensures
        rect == box_in(field, text_height as int, dpi as int),
{
    proof {
        crate::panel::scaled_is_bounded(FIELD_TEXT_INSET_AT_96_DPI as int, dpi as int);
        crate::panel::scaled_is_bounded(
            crate::option_toggles::SIZE_AT_96_DPI as int,
            dpi as int,
        );
        crate::panel::scaled_is_bounded(crate::option_toggles::GAP_AT_96_DPI as int, dpi as int);
        crate::panel::scaled_is_bounded(
            crate::option_toggles::RIGHT_PADDING_AT_96_DPI as int,
            dpi as int,
        );
    }
    let room: i32 = (field.bottom - field.top - 2).max(1);
    let text: i32 = text_height.min(room).max(1);
    let left: i32 = field.left + scale(FIELD_TEXT_INSET_AT_96_DPI, dpi);
    let top: i32 = field.top + (field.bottom - field.top - text) / 2;
    let width: i32 = (field.right - left - reserved_width(dpi)).max(0);
    Rect { left, top, right: left + width, bottom: top + text }
}

/// What the search box does with a message.
#[derive(Clone, Copy, Debug, PartialEq, Eq, Structural)]
pub enum BoxStep {
    /// Nothing more.
    Swallow,
    Toggle(SearchOption),
    /// Paint the placeholder over the empty box.
    PaintPlaceholder,
    /// Move the focus into the results.
    EnterResults,
    /// Open the selected result; with Ctrl in a tab of its own that takes the focus.
    OpenSelected { mode: OpenMode, focus_editor: bool },
    /// Empty the box.
    Clear,
    /// Go back to the editor.
    FocusContent,
    /// Leave the message to the edit control; repaint all of it if its emptiness changes.
    Edit,
    /// Leave the message to the edit control.
    Pass,
}

/// Messages that may change the box's text.
pub open spec fn edits_text(message: u32) -> bool {
    message == WM_CHAR || message == WM_KEYDOWN || message == WM_PASTE || message == WM_CUT
        || message == WM_CLEAR || message == WM_UNDO || message == WM_SETTEXT || message
        == EM_UNDO || message == EM_REPLACESEL
}

/// What the search box does with a message. Enter and Escape characters are swallowed: a
/// single-line edit control beeps at them, and both are handled on key down.
pub open spec fn box_answer(
    message: u32,
    wparam: usize,
    lparam: isize,
    empty: bool,
    ctrl: bool,
) -> BoxStep {
    let key = crate::messages::low_word(wparam);
    if message == WM_CHAR && (key == 0x0d || key == 0x1b) {
        BoxStep::Swallow
    } else if let Some(option) = crate::option_toggles::alt_toggle(message, wparam, lparam) {
        BoxStep::Toggle(option)
    } else if crate::option_toggles::swallowed(message, wparam, lparam) {
        BoxStep::Swallow
    } else if message == WM_PAINT && empty {
        BoxStep::PaintPlaceholder
    } else if message == WM_KEYDOWN && (key == VK_DOWN || key == VK_NEXT) {
        BoxStep::EnterResults
    } else if message == WM_KEYDOWN && key == VK_RETURN {
        BoxStep::OpenSelected {
            mode: if ctrl {
                OpenMode::Permanent
            } else {
                OpenMode::Preview
            },
            focus_editor: ctrl,
        }
    } else if message == WM_KEYDOWN && key == VK_ESCAPE {
        if empty {
            BoxStep::FocusContent
        } else {
            BoxStep::Clear
        }
    } else if edits_text(message) {
        BoxStep::Edit
    } else {
        BoxStep::Pass
    }
}

pub fn box_step(message: u32, wparam: usize, lparam: isize, empty: bool, ctrl: bool) -> (step:
    BoxStep)
    ensures
        step == box_answer(message, wparam, lparam, empty, ctrl),
{
    let key: u32 = key_of(wparam);
    if message == WM_CHAR && (key == 0x0d || key == 0x1b) {
        return BoxStep::Swallow;
    }
    if let Some(option) = alt_option(message, wparam, lparam) {
        return BoxStep::Toggle(option);
    }
    if is_toggle_char(message, wparam, lparam) {
        return BoxStep::Swallow;
    }
    match message {
        WM_PAINT => if empty {
            BoxStep::PaintPlaceholder
        } else {
            BoxStep::Pass
        },
        WM_KEYDOWN => if key == VK_DOWN || key == VK_NEXT {
            BoxStep::EnterResults
        } else if key == VK_RETURN {
            let mode = if ctrl {
                OpenMode::Permanent
            } else {
                OpenMode::Preview
            };
            BoxStep::OpenSelected { mode, focus_editor: ctrl }
        } else if key == VK_ESCAPE {
            if empty {
                BoxStep::FocusContent
            } else {
                BoxStep::Clear
            }
        } else {
            BoxStep::Edit
        },
        WM_CHAR | WM_PASTE | WM_CUT | WM_CLEAR | WM_UNDO | WM_SETTEXT | EM_UNDO
        | EM_REPLACESEL => BoxStep::Edit,
        _ => BoxStep::Pass,
    }
}

/// A character that types, and no control character.
pub open spec fn typed(wparam: usize) -> bool {
    (wparam as u32) >= 0x20 && (wparam as u32) != 0x7f
}

fn is_typed(wparam: usize) -> (types: bool)
    ensures
        types == typed(wparam),
{
    (wparam as u32) >= 0x20 && (wparam as u32) != 0x7f
}

} // verus!
