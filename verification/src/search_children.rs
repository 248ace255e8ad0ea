//! The Search view's accessible children: the box, the three toggles, the summary and status lines
//! while they show, then the results. The status line comes before the results so that its child
//! ID stays put while results stream in.

use crate::geometry::{contains, Point, Rect};
use crate::option_toggles::{hit, label, toggle_rects, SearchOption};
use crate::paths::key_of_path;
use crate::search_lines::{result_name, State};
use crate::search_view::{SearchView, Spoken, ANNOUNCE_INTERVAL_MS};
use crate::sidebar_accessibility::{
    identity_of, list_item, row_rect, AccessibleItem, STATE_FOCUSABLE, STATE_FOCUSED,
};
use vstd::prelude::*;
use vstd::string::*;

verus! {

pub const ROLE_SYSTEM_STATICTEXT: u32 = 41;

pub const ROLE_SYSTEM_TEXT: u32 = 42;

pub const ROLE_SYSTEM_CHECKBUTTON: u32 = 44;

pub const STATE_CHECKED: u32 = 0x0000_0010;

pub const STATE_READONLY: u32 = 0x0000_0040;

#[derive(Clone, Copy, Debug, PartialEq, Eq, Structural)]
pub enum SearchChild {
    Box,
    Toggle(SearchOption),
    Summary,
    Status,
    Result(usize),
}

/// A text field's child: its label, what it holds, and whether it has the focus.
pub open spec fn field_model(
    name: Seq<char>,
    text: Seq<char>,
    focused: bool,
    rect: Rect,
) -> crate::sidebar_accessibility::ItemModel {
    crate::sidebar_accessibility::ItemModel {
        name,
        role: ROLE_SYSTEM_TEXT,
        state: if focused {
            STATE_FOCUSABLE | STATE_FOCUSED
        } else {
            STATE_FOCUSABLE
        },
        rect,
        value: text,
    }
}

pub fn field_item(name: &str, text: &str, focused: bool, rect: Rect) -> (item: AccessibleItem)
    ensures
        item@ == field_model(name@, text@, focused, rect),
{
    AccessibleItem {
        name: name.to_owned(),
        role: ROLE_SYSTEM_TEXT,
        state: if focused {
            STATE_FOCUSABLE | STATE_FOCUSED
        } else {
            STATE_FOCUSABLE
        },
        rect,
        value: text.to_owned(),
    }
}

/// A toggle's child: its name and whether it is on.
pub open spec fn check_model(name: Seq<char>, checked: bool, rect: Rect) -> crate::sidebar_accessibility::ItemModel {
    crate::sidebar_accessibility::ItemModel {
        name,
        role: ROLE_SYSTEM_CHECKBUTTON,
        state: if checked {
            STATE_CHECKED
        } else {
            0
        },
        rect,
        value: Seq::empty(),
    }
}

pub fn check_item(name: &str, checked: bool, rect: Rect) -> (item: AccessibleItem)
    ensures
        item@ == check_model(name@, checked, rect),
{
    AccessibleItem {
        name: name.to_owned(),
        role: ROLE_SYSTEM_CHECKBUTTON,
        state: if checked {
            STATE_CHECKED
        } else {
            0
        },
        rect,
        value: String::new(),
    }
}

/// A line's child: what it says.
pub open spec fn text_model(text: Seq<char>, rect: Rect) -> crate::sidebar_accessibility::ItemModel {
    crate::sidebar_accessibility::ItemModel {
        name: text,
        role: ROLE_SYSTEM_STATICTEXT,
        state: STATE_READONLY,
        rect,
        value: Seq::empty(),
    }
}

pub fn text_item(text: &str, rect: Rect) -> (item: AccessibleItem)
    ensures
        item@ == text_model(text@, rect),
{
    AccessibleItem {
        name: text.to_owned(),
        role: ROLE_SYSTEM_STATICTEXT,
        state: STATE_READONLY,
        rect,
        value: String::new(),
    }
}

/// A line, or nothing.
pub open spec fn or_empty(text: Option<Seq<char>>) -> Seq<char> {
    match text {
        Some(text) => text,
        None => Seq::empty(),
    }
}

fn unwrapped(text: Option<String>) -> (line: String)
    ensures
        line@ == or_empty(crate::text::maybe(text)),
{
    match text {
        Some(text) => text,
        None => String::new(),
    }
}

/// What announcing the lines does: what they say is remembered, and the children whose name changed
/// are named.
pub open spec fn announced(
    before: SearchView,
    after: SearchView,
    settled: bool,
    visible: bool,
    now: u64,
    changed: Seq<usize>,
) -> bool {
    let summary = or_empty(before.said().0);
    let status = or_empty(before.said().1);
    &&& after == (SearchView { spoken: after.spoken, ..before })
    &&& visible && before.speaks(settled, now) ==> {
        &&& after.spoken.summary@ == summary
        &&& after.spoken.status@ == status
        &&& after.spoken.at == Some(now)
        &&& changed == before.renamed_lines()
    }
    &&& !(visible && before.speaks(settled, now)) ==> {
        &&& changed == Seq::<usize>::empty()
        &&& after.spoken == before.spoken
    }
}

/// A toggle's place, from the left.
pub open spec fn toggle_place(option: SearchOption) -> int {
    match option {
        SearchOption::Case => 0,
        SearchOption::WholeWord => 1,
        SearchOption::Regex => 2,
    }
}

impl SearchView {
    /// The summary line's text (or the notice painted in its place) and the status line's: while a
    /// notice shows, there is no status line.
    pub open spec fn said(self) -> (Option<Seq<char>>, Option<Seq<char>>) {
        match self.notice_shown() {
            Some(notice) => (Some(notice), None),
            None => (
                match self.shown().lines().0 {
                    Some((text, _)) => Some(text),
                    None => None,
                },
                self.shown().lines().1,
            ),
        }
    }

    pub fn shown_lines(&self) -> (lines: (Option<String>, Option<String>))
        requires
            self.wf(),
        ensures
            crate::text::maybe(lines.0) == self.said().0,
            crate::text::maybe(lines.1) == self.said().1,
    {
        match self.notice() {
            Some(notice) => (Some(notice.to_owned()), None),
            None => {
                let summary = match self.summary() {
                    Some((text, _)) => Some(text),
                    None => None,
                };
                (summary, self.status_line())
            },
        }
    }

    /// How many children come before the lines: the box and its toggles, while it shows.
    pub open spec fn box_children(self) -> int {
        if self.box_shown {
            4
        } else {
            0
        }
    }

    /// How many children come before the results.
    pub open spec fn head(self) -> int {
        self.box_children() + (if self.said().0 is Some {
            1int
        } else {
            0int
        }) + (if self.said().1 is Some {
            1int
        } else {
            0int
        })
    }

    /// The child at `index`.
    pub open spec fn child(self, index: int) -> Option<SearchChild> {
        let base = self.box_children();
        let lines = if self.said().0 is Some {
            base + 1
        } else {
            base
        };
        if index < 0 {
            None
        } else if index < base {
            Some(
                if index == 0 {
                    SearchChild::Box
                } else {
                    SearchChild::Toggle(crate::option_toggles::option_at(index - 1))
                },
            )
        } else if index < lines {
            Some(SearchChild::Summary)
        } else if index < self.head() {
            Some(SearchChild::Status)
        } else if index < self.head() + self.results.len() {
            Some(SearchChild::Result((index - self.head()) as usize))
        } else {
            None
        }
    }

    /// Where a child is among the children.
    pub open spec fn place(self, child: SearchChild) -> Option<int> {
        let base = self.box_children();
        match child {
            SearchChild::Box => if self.box_shown {
                Some(0)
            } else {
                None
            },
            SearchChild::Toggle(option) => if self.box_shown {
                Some(1 + toggle_place(option))
            } else {
                None
            },
            SearchChild::Summary => if self.said().0 is Some {
                Some(base)
            } else {
                None
            },
            SearchChild::Status => if self.said().1 is Some {
                Some(self.head() - 1)
            } else {
                None
            },
            SearchChild::Result(index) => if index < self.results.len() {
                Some(self.head() + index)
            } else {
                None
            },
        }
    }

    /// The children before the results.
    pub fn head_children(&self) -> (head: Vec<SearchChild>)
        requires
            self.wf(),
        ensures
            head.len() == self.head(),
            forall|i: int| 0 <= i < head.len() ==> Some(#[trigger] head@[i]) == self.child(i),
    {
        let mut head: Vec<SearchChild> = Vec::new();
        if self.box_shown {
            head.push(SearchChild::Box);
            head.push(SearchChild::Toggle(SearchOption::Case));
            head.push(SearchChild::Toggle(SearchOption::WholeWord));
            head.push(SearchChild::Toggle(SearchOption::Regex));
        }
        let (summary, status) = self.shown_lines();
        if summary.is_some() {
            head.push(SearchChild::Summary);
        }
        if status.is_some() {
            head.push(SearchChild::Status);
        }
        head
    }

    pub fn child_at(&self, index: usize) -> (child: Option<SearchChild>)
        requires
            self.wf(),
        ensures
            child == self.child(index as int),
    {
        let head = self.head_children();
        if index < head.len() {
            Some(head[index])
        } else {
            let result: usize = index - head.len();
            if result < self.results.len() {
                Some(SearchChild::Result(result))
            } else {
                None
            }
        }
    }

    pub fn child_index(&self, child: SearchChild) -> (index: Option<usize>)
        requires
            self.wf(),
        ensures
            match index {
                Some(index) => self.place(child) == Some(index as int),
                None => self.place(child) is None,
            },
    {
        let (summary, status) = self.shown_lines();
        let base: usize = if self.box_shown {
            4
        } else {
            0
        };
        let lines: usize = if summary.is_some() {
            base + 1
        } else {
            base
        };
        let head: usize = if status.is_some() {
            lines + 1
        } else {
            lines
        };
        match child {
            SearchChild::Result(index) => if index < self.results.len() {
                Some(head + index)
            } else {
                None
            },
            SearchChild::Summary => if summary.is_some() {
                Some(base)
            } else {
                None
            },
            SearchChild::Status => if status.is_some() {
                Some(lines)
            } else {
                None
            },
            SearchChild::Box => if self.box_shown {
                Some(0)
            } else {
                None
            },
            SearchChild::Toggle(option) => if self.box_shown {
                Some(
                    match option {
                        SearchOption::Case => 1,
                        SearchOption::WholeWord => 2,
                        SearchOption::Regex => 3,
                    },
                )
            } else {
                None
            },
        }
    }

    /// How many children the view has.
    pub fn accessible_count(&self) -> (count: usize)
        requires
            self.wf(),
        ensures
            count == self.head() + self.results.len(),
    {
        self.head_children().len() + self.results.len()
    }

    /// What a child is told as.
    pub open spec fn item(
        self,
        child: SearchChild,
        client: Rect,
        dpi: u32,
        box_focused: bool,
        focused: bool,
    ) -> crate::sidebar_accessibility::ItemModel {
        let field = crate::search_view::field_box(client, dpi as int);
        match child {
            SearchChild::Box => field_model(
                self.placeholder@,
                self.box_text@,
                box_focused,
                field,
            ),
            SearchChild::Toggle(option) => check_model(
                crate::option_toggles::label_of(option),
                self.options.on(option),
                crate::option_toggles::toggle_rect(field, dpi as int, toggle_place(option)),
            ),
            SearchChild::Summary => text_model(
                or_empty(self.said().0),
                crate::search_view::summary_box(client, dpi as int),
            ),
            SearchChild::Status => text_model(
                or_empty(self.said().1),
                crate::search_view::status_box(client, dpi as int),
            ),
            SearchChild::Result(row) => crate::sidebar_accessibility::listed(
                crate::search_lines::spoken_result(self.results@[row as int]),
                self.list.selected == Some(row),
                focused,
                crate::sidebar_accessibility::row_place(
                    self.area(client, dpi),
                    self.list,
                    row as int,
                ),
                crate::sidebar_accessibility::row_shows(
                    self.area(client, dpi),
                    self.list,
                    row as int,
                ),
            ),
        }
    }

    /// The child at `index`; `None` past the last, and for a box that is not made.
    pub fn accessible_item(
        &self,
        index: usize,
        client: Rect,
        dpi: u32,
        box_focused: bool,
        focused: bool,
    ) -> (item: Option<AccessibleItem>)
        requires
            self.wf(),
            crate::geometry::roomy(client),
            dpi <= crate::panel::MAX_DPI,
        ensures
            match item {
                Some(item) => (self.child(index as int) matches Some(child) && (child
                    == SearchChild::Box ==> self.box_made) && item@ == self.item(
                    child,
                    client,
                    dpi,
                    box_focused,
                    focused,
                )),
                None => self.child(index as int) is None || (self.child(index as int) == Some(
                    SearchChild::Box,
                ) && !self.box_made),
            },
    {
        let field = SearchView::field_rect(client, dpi);
        let child: SearchChild = match self.child_at(index) {
            Some(child) => child,
            None => return None,
        };
        match child {
            SearchChild::Box => if self.box_made {
                Some(
                    field_item(
                        self.placeholder.as_str(),
                        self.box_text.as_str(),
                        box_focused,
                        field,
                    ),
                )
            } else {
                None
            },
            SearchChild::Toggle(option) => {
                let rects = toggle_rects(field, dpi);
                let rect = match option {
                    SearchOption::Case => rects[0],
                    SearchOption::WholeWord => rects[1],
                    SearchOption::Regex => rects[2],
                };
                Some(check_item(label(option), self.options.get(option), rect))
            },
            SearchChild::Summary => Some(
                text_item(
                    unwrapped(self.shown_lines().0).as_str(),
                    SearchView::summary_rect(client, dpi),
                ),
            ),
            SearchChild::Status => Some(
                text_item(
                    unwrapped(self.shown_lines().1).as_str(),
                    SearchView::status_rect(client, dpi),
                ),
            ),
            SearchChild::Result(row) => {
                let area = self.list_area(client, dpi);
                let (rect, visible) = row_rect(area, &self.list, row);
                let selected: bool = self.list.selected == Some(row);
                Some(
                    list_item(
                        result_name(&self.results[row]).as_str(),
                        selected,
                        focused,
                        rect,
                        visible,
                    ),
                )
            },
        }
    }

    /// The child at a point.
    pub open spec fn child_under(self, point: Point, client: Rect, dpi: u32) -> Option<SearchChild> {
        let (x, y) = (point.x as int, point.y as int);
        let field = crate::search_view::field_box(client, dpi as int);
        if self.box_shown && field.has(x, y) {
            Some(
                match crate::option_toggles::toggle_under(field, dpi as int, x, y) {
                    Some(option) => SearchChild::Toggle(option),
                    None => SearchChild::Box,
                },
            )
        } else if self.said().0 is Some && crate::search_view::summary_box(client, dpi as int).has(
            x,
            y,
        ) {
            Some(SearchChild::Summary)
        } else if self.said().1 is Some && crate::search_view::status_box(client, dpi as int).has(
            x,
            y,
        ) {
            Some(SearchChild::Status)
        } else {
            match self.result_under(point, client, dpi) {
                Some(row) => Some(SearchChild::Result(row)),
                None => None,
            }
        }
    }

    /// The child under `point`.
    pub fn accessible_hit(&self, point: Point, client: Rect, dpi: u32) -> (index: Option<usize>)
        requires
            self.wf(),
            crate::geometry::roomy(client),
            dpi <= crate::panel::MAX_DPI,
        ensures
            match index {
                Some(index) => (self.child_under(point, client, dpi) matches Some(child)
                    && self.place(child) == Some(index as int)),
                None => self.child_under(point, client, dpi) is None,
            },
    {
        let field = SearchView::field_rect(client, dpi);
        let (summary, status) = self.shown_lines();
        let child: SearchChild = if self.box_shown && contains(field, point.x, point.y) {
            match hit(&toggle_rects(field, dpi), point) {
                Some(option) => SearchChild::Toggle(option),
                None => SearchChild::Box,
            }
        } else if summary.is_some() && contains(
            SearchView::summary_rect(client, dpi),
            point.x,
            point.y,
        ) {
            SearchChild::Summary
        } else if status.is_some() && contains(
            SearchView::status_rect(client, dpi),
            point.x,
            point.y,
        ) {
            SearchChild::Status
        } else {
            match self.row_under(point, client, dpi) {
                Some(row) => SearchChild::Result(row),
                None => return None,
            }
        };
        self.child_index(child)
    }

    /// The child of the selected result.
    pub fn accessible_current(&self) -> (index: Option<usize>)
        requires
            self.wf(),
        ensures
            match (index, self.list.selected) {
                (Some(index), Some(row)) => self.place(SearchChild::Result(row)) == Some(
                    index as int,
                ),
                (None, None) => true,
                _ => false,
            },
    {
        match self.list.selected {
            Some(row) => self.child_index(SearchChild::Result(row)),
            None => None,
        }
    }

    /// The view with the result that is the child at `index` selected.
    pub open spec fn selecting_child(self, index: int, client: Rect, dpi: u32) -> SearchView {
        match self.child(index) {
            Some(SearchChild::Result(row)) => SearchView {
                list: self.list.with_selected(
                    row as int,
                    self.area(client, dpi).bottom - self.area(client, dpi).top,
                ),
                ..self
            },
            _ => self,
        }
    }

    /// Selects the result that is the child at `index`.
    pub fn accessible_select(&mut self, index: usize, client: Rect, dpi: u32)
        requires
            old(self).wf(),
            crate::geometry::roomy(client),
            dpi <= crate::panel::MAX_DPI,
        ensures
            final(self).wf(),
            *final(self) == old(self).selecting_child(index as int, client, dpi),
    {
        let child = self.child_at(index);
        if let Some(SearchChild::Result(row)) = child {
            let area = self.list_area(client, dpi);
            self.list.select(row, area.bottom - area.top);
        }
    }

    /// What tells a child from the others: its kind, and what it is of.
    pub open spec fn named(self, child: SearchChild) -> (Seq<char>, Seq<char>) {
        match child {
            SearchChild::Box => ("search box"@, Seq::empty()),
            SearchChild::Toggle(option) => (
                "toggle"@,
                crate::option_toggles::label_of(option),
            ),
            SearchChild::Summary => ("summary"@, Seq::empty()),
            SearchChild::Status => ("status"@, Seq::empty()),
            SearchChild::Result(row) => (
                "result"@,
                crate::paths::path_key(self.results@[row as int].path@),
            ),
        }
    }

    /// A number that stays with the child at `index` while the children around it change.
    pub fn accessible_identity(&self, index: usize) -> (identity: Option<u64>)
        requires
            self.wf(),
        ensures
            identity == (match self.child(index as int) {
                Some(child) => Some(
                    crate::sidebar_accessibility::identity(
                        self.named(child).0,
                        self.named(child).1,
                    ),
                ),
                None => None,
            }),
    {
        match self.child_at(index) {
            Some(SearchChild::Box) => Some(identity_of("search box", String::new().as_str())),
            Some(SearchChild::Toggle(option)) => Some(identity_of("toggle", label(option))),
            Some(SearchChild::Summary) => Some(identity_of("summary", String::new().as_str())),
            Some(SearchChild::Status) => Some(identity_of("status", String::new().as_str())),
            Some(SearchChild::Result(row)) => Some(
                identity_of("result", key_of_path(self.results[row].path.as_str()).as_str()),
            ),
            None => None,
        }
    }

    /// Changes whenever the results do.
    pub fn accessible_generation(&self) -> (generation: u64)
        ensures
            generation == self.order,
    {
        self.order
    }

    /// Whether the lines speak now: something changed, and a running search that has not settled
    /// waits out the interval since they last spoke.
    pub open spec fn speaks(self, settled: bool, now: u64) -> bool {
        let summary = or_empty(self.said().0);
        let status = or_empty(self.said().1);
        let recent = self.spoken.at matches Some(at) && now - at < ANNOUNCE_INTERVAL_MS;
        (summary != self.spoken.summary@ || status != self.spoken.status@) && !(self.search
            is Running && !settled && recent)
    }

    /// The lines' children whose name is another one than was last spoken.
    pub open spec fn renamed_lines(self) -> Seq<usize> {
        (if or_empty(self.said().0) != self.spoken.summary@ && self.said().0 is Some {
            seq![self.box_children() as usize]
        } else {
            Seq::empty()
        }) + (if or_empty(self.said().1) != self.spoken.status@ && self.said().1 is Some {
            seq![(self.head() - 1) as usize]
        } else {
            Seq::empty()
        })
    }

    /// Announces the summary and status lines whose text changed: the children whose name changed.
    /// While a search runs they speak at most once in an interval; `settled` (the search finished,
    /// failed or can't run) always speaks, so the limit never swallows the final count. A line
    /// that went away has no child left to name.
    pub fn announce_lines(&mut self, settled: bool, visible: bool, now: u64) -> (changed: Vec<usize>)
        requires
            old(self).wf(),
            old(self).spoken.at matches Some(at) ==> at <= now,
        ensures
            final(self).wf(),
            announced(*old(self), *final(self), settled, visible, now, changed@),
    {
        let mut changed: Vec<usize> = Vec::new();
        if !visible {
            return changed;
        }
        let (summary, status) = self.shown_lines();
        let (summary, status) = (unwrapped(summary), unwrapped(status));
        let summary_changed: bool = summary != self.spoken.summary;
        let status_changed: bool = status != self.spoken.status;
        if !summary_changed && !status_changed {
            return changed;
        }
        let running: bool = match self.search {
            State::Running(_) => true,
            _ => false,
        };
        let recent: bool = match self.spoken.at {
            Some(at) => now - at < ANNOUNCE_INTERVAL_MS,
            None => false,
        };
        if running && !settled && recent {
            return changed;
        }
        if summary_changed {
            if let Some(index) = self.child_index(SearchChild::Summary) {
                changed.push(index);
            }
        }
        if status_changed {
            if let Some(index) = self.child_index(SearchChild::Status) {
                changed.push(index);
            }
        }
        assert(changed@ =~= self.renamed_lines());
        self.spoken = Spoken { summary, status, at: Some(now) };
        changed
    }

    /// The child whose state changes when `option` flips, while the view shows.
    pub fn announce_toggle(&self, option: SearchOption, visible: bool) -> (index: Option<usize>)
        requires
            self.wf(),
        ensures
            index == (if visible && self.box_shown {
                Some((1 + toggle_place(option)) as usize)
            } else {
                None
            }),
    {
        if visible {
            self.child_index(SearchChild::Toggle(option))
        } else {
            None
        }
    }
}

/// Every child is found where it is placed, and nothing else is there.
pub proof fn children_are_found_where_they_are_placed(view: SearchView, child: SearchChild, index: int)
    ensures
        view.place(child) == Some(index) <==> view.child(index) == Some(child),
{
}

/// The lines' places do not move while results stream in: neither depends on how many there are.
pub proof fn lines_stay_put_while_results_arrive(before: SearchView, after: SearchView)
    requires
        before.box_shown == after.box_shown,
        before.said().0 is Some == after.said().0 is Some,
        before.said().1 is Some == after.said().1 is Some,
    ensures
        before.place(SearchChild::Summary) == after.place(SearchChild::Summary),
        before.place(SearchChild::Status) == after.place(SearchChild::Status),
{
}

} // verus!
