//! The Search view: a search box over the text of the open notebook's notes, a summary line, the
//! matching notes with their folders and the first match, and a status line. Batches of hits are
//! put in sorted place, and the selection follows its note.

use crate::geometry::{height, Rect};
use crate::option_toggles::{self, MatchOptions, SearchOption};
use crate::panel::scale;
use crate::row_list::RowListState;
use crate::search_hits::merge;
use crate::search_lines::{
    notice_text, placeholder, status_text, summary_text, Progress, SearchState, State, TextHit,
};
use crate::paths::{same_maybe_path, same_path};
use crate::text::same_maybe;
use crate::text_search::RunEnd;
use vstd::prelude::*;
use vstd::string::*;

verus! {

pub const HEADER_AT_96_DPI: i32 = 38;

/// The summary line, the notice and the status line.
pub const LINE_AT_96_DPI: i32 = 22;

/// A result: two line slots with a little room above and below.
pub const ROW_AT_96_DPI: i32 = 42;

pub const ROW_LINE_AT_96_DPI: i32 = 18;

pub const ROW_INSET_AT_96_DPI: i32 = 3;

pub const PADDING_AT_96_DPI: i32 = 12;

pub const FIELD_MARGIN_AT_96_DPI: i32 = 8;

pub const FIELD_HEIGHT_AT_96_DPI: i32 = 28;

pub const FIELD_TEXT_INSET_AT_96_DPI: i32 = 8;

/// The status line's tooltip. The toggles are the tools before it, from the left.
pub const STATUS_TOOL: usize = 3;

pub const TOOLTIP_WIDTH_AT_96_DPI: i32 = 300;

/// How often the summary and status lines may announce a change while a search runs, in
/// milliseconds.
pub const ANNOUNCE_INTERVAL_MS: u64 = 1000;

/// What screen readers last heard the summary and status lines say, and when.
#[derive(Debug)]
pub struct Spoken {
    pub summary: String,
    pub status: String,
    pub at: Option<u64>,
}

/// A tooltip's tool: its number, where it is, and its text. An empty text removes it.
#[derive(Debug)]
pub struct Tool {
    pub id: usize,
    pub rect: Rect,
    pub text: String,
}

/// Where the first result of this path is.
pub open spec fn place_of(results: Seq<TextHit>, path: Seq<char>) -> Option<usize>
    decreases results.len(),
{
    if results.len() == 0 {
        None
    } else {
        match place_of(results.drop_last(), path) {
            Some(index) => Some(index),
            None => if crate::paths::path_key(results.last().path@) == crate::paths::path_key(
                path,
            ) {
                Some((results.len() - 1) as usize)
            } else {
                None
            },
        }
    }
}

/// The path of the result at `index`.
pub open spec fn path_of(results: Seq<TextHit>, index: Option<usize>) -> Option<Seq<char>> {
    match index {
        Some(index) if index < results.len() => Some(results[index as int].path@),
        _ => None,
    }
}

/// Where the note with an optional path is listed.
pub open spec fn maybe_place(results: Seq<TextHit>, path: Option<Seq<char>>) -> Option<usize> {
    match path {
        Some(path) => place_of(results, path),
        None => None,
    }
}

/// What a search changes of the view.
#[verifier::ext_equal]
pub struct Shown {
    pub results: Seq<TextHit>,
    pub list: RowListState,
    pub search: crate::search_lines::StateModel,
    /// The same query is running again: its first batch replaces the results.
    pub replace_on_batch: bool,
    /// The note to select again when it arrives.
    pub restore: Option<Seq<char>>,
    /// The note the last batch left selected.
    pub selected_by_batch: Option<Seq<char>>,
    /// Bumped whenever the results change.
    pub order: u64,
}

impl Shown {
    /// The selected note.
    pub open spec fn current(self) -> Option<Seq<char>> {
        path_of(self.results, self.list.selected)
    }

    /// With no results, selection or scroll.
    pub open spec fn cleared(self) -> Shown {
        Shown {
            results: Seq::empty(),
            list: RowListState { top: 0, selected: None, ..self.list.recounted(0) },
            replace_on_batch: false,
            restore: None,
            selected_by_batch: None,
            order: if self.results.len() > 0 {
                crate::text_search::next(self.order)
            } else {
                self.order
            },
            ..self
        }
    }

    /// A batch replaces the results of a query that runs again once it brings a hit or the end.
    pub open spec fn replaces(self, hits: nat, end: Option<RunEnd>) -> bool {
        self.replace_on_batch && (hits > 0 || end is Some)
    }

    /// The note to select again, as a batch finds it: where a batch replaces the results, the note
    /// selected now; where the user moved the selection since the last batch, none.
    pub open spec fn restore_now(self, replacing: bool) -> Option<Seq<char>> {
        if replacing {
            match self.current() {
                Some(path) => Some(path),
                None => self.restore,
            }
        } else if crate::paths::maybe_key(self.current()) != crate::paths::maybe_key(
            self.selected_by_batch,
        ) {
            None
        } else {
            self.restore
        }
    }

    /// The list a batch starts from.
    pub open spec fn list_now(self, replacing: bool) -> RowListState {
        if replacing {
            RowListState { top: 0, selected: None, ..self.list }
        } else {
            self.list
        }
    }

    /// The results a batch starts from.
    pub open spec fn results_now(self, replacing: bool) -> Seq<TextHit> {
        if replacing {
            Seq::empty()
        } else {
            self.results
        }
    }

    /// The note at the top of the list, where a batch keeps it there.
    pub open spec fn top_now(self, replacing: bool) -> Option<Seq<char>> {
        if replacing {
            None
        } else {
            path_of(self.results, Some(self.list.top))
        }
    }

    /// The selected note, where a batch keeps it selected.
    pub open spec fn selected_now(self, replacing: bool) -> Option<Seq<char>> {
        if replacing {
            None
        } else {
            self.current()
        }
    }

    /// The view after a batch of a running search, for a list area `height` tall.
    pub open spec fn after_batch(
        self,
        hits: Seq<TextHit>,
        progress: Progress,
        end: Option<RunEnd>,
        height: int,
    ) -> Shown {
        let replacing = self.replaces(hits.len(), end);
        if self.replace_on_batch && !replacing {
            Shown { search: State::Running(progress), ..self }
        } else {
            let results = crate::search_hits::merged(self.results_now(replacing), hits);
            let restore = self.restore_now(replacing);
            let list = settled(
                self.list_now(replacing),
                results,
                self.top_now(replacing),
                choice(results, restore, self.selected_now(replacing)),
                height,
            );
            Shown {
                results,
                list,
                search: match end {
                    None => State::Running(progress),
                    Some(end) => State::Done { progress, capped: end == RunEnd::Capped },
                },
                replace_on_batch: false,
                restore: if end is Some || maybe_place(results, restore) is Some {
                    None
                } else {
                    restore
                },
                selected_by_batch: path_of(results, list.selected),
                order: if hits.len() > 0 || replacing {
                    crate::text_search::next(self.order)
                } else {
                    self.order
                },
            }
        }
    }

    /// The summary and status lines.
    pub open spec fn lines(self) -> (Option<(Seq<char>, bool)>, Option<Seq<char>>) {
        (
            crate::search_lines::summary_of(self.search, self.results.len()),
            crate::search_lines::status_of(self.search),
        )
    }

    /// Whether a batch changes anything painted: a row in view, the selection, the scroll, the
    /// summary or the status line.
    pub open spec fn repaints(
        self,
        hits: Seq<TextHit>,
        progress: Progress,
        end: Option<RunEnd>,
        height: int,
    ) -> bool {
        let after = self.after_batch(hits, progress, end, height);
        let replacing = self.replaces(hits.len(), end);
        if self.replace_on_batch && !replacing {
            after.lines() != self.lines()
        } else {
            let limit = self.list_now(replacing).top + rows_in(height, self.list.row_height as int);
            ||| replacing
            ||| crate::search_hits::lands_before(self.results_now(replacing), hits, limit)
            ||| after.list.top != self.list.top
            ||| after.list.selected != self.list.selected
            ||| after.lines() != self.lines()
        }
    }
}

/// The rows at least partly in a list `height` tall.
pub open spec fn rows_in(height: int, row_height: int) -> int {
    let tall = vstd::math::max(height, 0);
    (tall + row_height - 1) / row_height
}

/// The state of the Search view. Times are in milliseconds of a clock that never goes back.
#[derive(Debug)]
pub struct SearchView {
    /// The search box exists: it is made the first time the Search view shows a notebook.
    pub box_made: bool,
    /// Making the box failed and was reported; it is not tried again.
    pub box_failed: bool,
    pub box_shown: bool,
    pub notebook: Option<String>,
    /// The library's state has loaded.
    pub loaded: bool,
    /// The notebook's load failed.
    pub failed: bool,
    /// The library changed while the view was hidden: showing it checks whether the query must
    /// run again.
    pub stale: bool,
    /// The query the results are for: the one the last search began with.
    pub query: String,
    /// The box's text.
    pub box_text: String,
    pub spoken: Spoken,
    /// The options the results are for: the view's options when the last search began.
    pub run_options: MatchOptions,
    pub results: Vec<TextHit>,
    /// Match case, whole word and regex, for the session.
    pub options: MatchOptions,
    pub replace_open: bool,
    pub search: SearchState,
    pub replace_on_batch: bool,
    pub restore: Option<String>,
    pub selected_by_batch: Option<String>,
    pub list: RowListState,
    pub placeholder: String,
    /// While the scroll thumb is dragged: how far below its top it was grabbed.
    pub thumb_grab: Option<i32>,
    pub order: u64,
    /// The toggle under the pointer.
    pub toggle_hover: Option<SearchOption>,
    /// The tools the tooltip has.
    pub tools_shown: Vec<Tool>,
}

/// Where the search field is, border included.
pub open spec fn field_box(client: Rect, dpi: int) -> Rect {
    let margin = crate::panel::scaled(FIELD_MARGIN_AT_96_DPI as int, dpi);
    let tall = crate::panel::scaled(FIELD_HEIGHT_AT_96_DPI as int, dpi);
    let top = client.top + option_toggles::half(
        crate::panel::scaled(HEADER_AT_96_DPI as int, dpi) - tall,
    );
    Rect {
        left: (client.left + margin) as i32,
        top: top as i32,
        right: vstd::math::max(client.right - margin, client.left + margin) as i32,
        bottom: (top + tall) as i32,
    }
}

/// Where the summary line is.
pub open spec fn summary_box(client: Rect, dpi: int) -> Rect {
    let pad = crate::panel::scaled(PADDING_AT_96_DPI as int, dpi);
    let top = vstd::math::min(
        client.top + crate::panel::scaled(HEADER_AT_96_DPI as int, dpi),
        client.bottom as int,
    );
    Rect {
        left: (client.left + pad) as i32,
        top: top as i32,
        right: (client.right - pad) as i32,
        bottom: vstd::math::min(
            top + crate::panel::scaled(LINE_AT_96_DPI as int, dpi),
            client.bottom as int,
        ) as i32,
    }
}

/// Where the status line is.
pub open spec fn status_box(client: Rect, dpi: int) -> Rect {
    let pad = crate::panel::scaled(PADDING_AT_96_DPI as int, dpi);
    Rect {
        left: (client.left + pad) as i32,
        top: vstd::math::max(
            client.bottom - crate::panel::scaled(LINE_AT_96_DPI as int, dpi),
            client.top as int,
        ) as i32,
        right: (client.right - pad) as i32,
        bottom: client.bottom,
    }
}

/// Where the results are: under the header and the summary line, above the status line when it
/// shows.
pub open spec fn list_box(client: Rect, dpi: int, status: bool) -> Rect {
    let line = crate::panel::scaled(LINE_AT_96_DPI as int, dpi);
    let top = vstd::math::min(
        client.top + crate::panel::scaled(HEADER_AT_96_DPI as int, dpi) + line,
        client.bottom as int,
    );
    Rect {
        top: top as i32,
        bottom: if status {
            vstd::math::max(client.bottom - line, top) as i32
        } else {
            client.bottom
        },
        ..client
    }
}

proof fn sizes_are_bounded(dpi: int)
    requires
        0 <= dpi <= crate::panel::MAX_DPI,
    ensures
        0 <= crate::panel::scaled(HEADER_AT_96_DPI as int, dpi) <= 0x10_0000,
        0 <= crate::panel::scaled(LINE_AT_96_DPI as int, dpi) <= 0x10_0000,
        1 <= crate::panel::scaled(ROW_AT_96_DPI as int, dpi) <= 0x10_0000 || dpi <= 1,
        0 <= crate::panel::scaled(ROW_AT_96_DPI as int, dpi) <= 0x10_0000,
        0 <= crate::panel::scaled(PADDING_AT_96_DPI as int, dpi) <= 0x10_0000,
        0 <= crate::panel::scaled(FIELD_MARGIN_AT_96_DPI as int, dpi) <= 0x10_0000,
        0 <= crate::panel::scaled(FIELD_HEIGHT_AT_96_DPI as int, dpi) <= 0x10_0000,
        0 <= crate::panel::scaled(FIELD_TEXT_INSET_AT_96_DPI as int, dpi) <= 0x10_0000,
{
    crate::panel::scaled_is_bounded(HEADER_AT_96_DPI as int, dpi);
    crate::panel::scaled_is_bounded(LINE_AT_96_DPI as int, dpi);
    crate::panel::scaled_is_bounded(ROW_AT_96_DPI as int, dpi);
    crate::panel::scaled_is_bounded(PADDING_AT_96_DPI as int, dpi);
    crate::panel::scaled_is_bounded(FIELD_MARGIN_AT_96_DPI as int, dpi);
    crate::panel::scaled_is_bounded(FIELD_HEIGHT_AT_96_DPI as int, dpi);
    crate::panel::scaled_is_bounded(FIELD_TEXT_INSET_AT_96_DPI as int, dpi);
}

fn same_summary(a: &Option<(String, bool)>, b: &Option<(String, bool)>) -> (same: bool)
    ensures
        same == (crate::search_lines::marked(*a) == crate::search_lines::marked(*b)),
{
    match (a, b) {
        (Some(a), Some(b)) => a.0 == b.0 && a.1 == b.1,
        (None, None) => true,
        _ => false,
    }
}

/// Where the note at `path` is listed.
fn position_in(results: &Vec<TextHit>, path: &Option<String>) -> (index: Option<usize>)
    ensures
        index == maybe_place(results@, crate::text::maybe(*path)),
        index matches Some(index) ==> index < results.len(),
{
    let wanted: &String = match path {
        Some(wanted) => wanted,
        None => return None,
    };
    let mut at: usize = 0;
    assert(results@.take(0) == Seq::<TextHit>::empty());
    while at < results.len()
        invariant
            at <= results.len(),
            crate::text::maybe(*path) == Some(wanted@),
            place_of(results@.take(at as int), wanted@) is None,
        decreases results.len() - at,
    {
        let ghost now = results@.take(at + 1);
        assert(now.drop_last() == results@.take(at as int));
        assert(now.last() == results@[at as int]);
        if same_path(results[at].path.as_str(), wanted.as_str()) {
            assert(place_of(now, wanted@) == Some(at));
            proof {
                first_place_is_kept(results@, wanted@, at + 1);
            }
            return Some(at);
        }
        at = at + 1;
    }
    assert(results@.take(at as int) == results@);
    None
}

/// The path of the result at `index`.
fn path_in(results: &Vec<TextHit>, index: Option<usize>) -> (path: Option<String>)
    ensures
        crate::text::maybe(path) == path_of(results@, index),
{
    match index {
        Some(index) => if index < results.len() {
            Some(results[index].path.clone())
        } else {
            None
        },
        None => None,
    }
}

/// Puts the hits in their places; reports whether one landed on a row in view.
fn take_hits(results: &mut Vec<TextHit>, hits: Vec<TextHit>, list: &RowListState, height: i32) -> (landed:
    bool)
    requires
        list.wf(),
        list.top <= i32::MAX,
        crate::search_hits::sorted(old(results)@),
        old(results).len() + hits.len() <= i32::MAX,
    ensures
        final(results)@ == crate::search_hits::merged(old(results)@, hits@),
        final(results).len() <= i32::MAX,
        crate::search_hits::sorted(final(results)@),
        landed == crate::search_hits::lands_before(
            old(results)@,
            hits@,
            list.top + rows_in(height as int, list.row_height as int),
        ),
{
    proof {
        crate::search_hits::merging_keeps_the_order(results@, hits@);
        rows_are_bounded(height as int, list.row_height as int);
    }
    let fits: i64 = (height.max(0) as i64 + list.row_height as i64 - 1) / list.row_height as i64;
    let limit: usize = list.top + fits as usize;
    merge(results, hits, limit)
}

/// The list over new results: the note that was at the top back there, and row `chosen` selected.
pub open spec fn settled(
    list: RowListState,
    results: Seq<TextHit>,
    top: Option<Seq<char>>,
    chosen: Option<usize>,
    height: int,
) -> RowListState {
    let counted = list.recounted(results.len() as usize);
    let placed = match maybe_place(results, top) {
        Some(index) => RowListState { top: index, ..counted },
        None => counted,
    };
    match chosen {
        Some(index) => placed.with_selected(index as int, height),
        None => RowListState { selected: None, ..placed },
    }
}

/// The row to select: the remembered note, else the one selected before, else the first.
pub open spec fn choice(
    results: Seq<TextHit>,
    restore: Option<Seq<char>>,
    selected: Option<Seq<char>>,
) -> Option<usize> {
    match maybe_place(results, restore) {
        Some(index) => Some(index),
        None => match maybe_place(results, selected) {
            Some(index) => Some(index),
            None => if results.len() > 0 {
                Some(0usize)
            } else {
                None
            },
        },
    }
}

/// Counts the results again, brings the note that was at the top back there, and selects the
/// remembered note, else the one that was selected, else the first. Returns whether the remembered
/// note has arrived, and the note that is selected now.
fn settle(
    results: &Vec<TextHit>,
    list: &mut RowListState,
    top: &Option<String>,
    selected: &Option<String>,
    restore: &Option<String>,
    height: i32,
) -> (settled: (bool, Option<String>))
    requires
        old(list).wf(),
        results.len() <= i32::MAX,
    ensures
        final(list).wf(),
        final(list).count == results.len(),
        *final(list) == self::settled(
            *old(list),
            results@,
            crate::text::maybe(*top),
            choice(results@, crate::text::maybe(*restore), crate::text::maybe(*selected)),
            height as int,
        ),
        settled.0 == (maybe_place(results@, crate::text::maybe(*restore)) is Some),
        crate::text::maybe(settled.1) == path_of(results@, final(list).selected),
{
    let count: usize = results.len();
    list.set_count(count);
    if let Some(index) = position_in(results, top) {
        list.top = index;
    }
    let restored: Option<usize> = position_in(results, restore);
    let index: Option<usize> = match restored {
        Some(index) => Some(index),
        None => match position_in(results, selected) {
            Some(index) => Some(index),
            None => if count > 0 {
                Some(0)
            } else {
                None
            },
        },
    };
    match index {
        Some(index) => {
            list.select(index, height);
        },
        None => {
            list.selected = None;
        },
    }
    (restored.is_some(), path_in(results, list.selected))
}

impl SearchView {
    /// The list shows the results, which are in order and few enough for the `i32` by which screen
    /// readers know them, and the progress can be counted.
    pub open spec fn wf(self) -> bool {
        &&& self.list.wf()
        &&& self.list.count == self.results.len()
        &&& self.results.len() <= i32::MAX
        &&& crate::search_hits::sorted(self.results@)
        &&& crate::search_lines::countable(crate::search_lines::state_model(self.search))
    }

    /// What a search changes of the view.
    pub open spec fn shown(self) -> Shown {
        Shown {
            results: self.results@,
            list: self.list,
            search: crate::search_lines::state_model(self.search),
            replace_on_batch: self.replace_on_batch,
            restore: crate::text::maybe(self.restore),
            selected_by_batch: crate::text::maybe(self.selected_by_batch),
            order: self.order,
        }
    }

    /// Nothing changed but what a search changes, the query and the options it ran with.
    pub open spec fn searched(self, before: SearchView) -> bool {
        self == (SearchView {
            query: self.query,
            run_options: self.run_options,
            results: self.results,
            list: self.list,
            search: self.search,
            replace_on_batch: self.replace_on_batch,
            restore: self.restore,
            selected_by_batch: self.selected_by_batch,
            order: self.order,
            ..before
        })
    }

    /// A view that has searched nothing. Its search box waits until it first shows a notebook.
    pub fn new(dpi: u32) -> (view: Self)
        requires
            dpi <= crate::panel::MAX_DPI,
        ensures
            view.wf(),
            view.shown() == (Shown {
                results: Seq::empty(),
                list: RowListState {
                    count: 0,
                    selected: None,
                    hover: None,
                    top: 0,
                    row_height: vstd::math::max(
                        crate::panel::scaled(ROW_AT_96_DPI as int, dpi as int),
                        1,
                    ) as i32,
                    wheel_remainder: 0,
                },
                search: State::Idle,
                replace_on_batch: false,
                restore: None,
                selected_by_batch: None,
                order: 0,
            }),
            view.query@ == Seq::<char>::empty(),
            view.box_text@ == Seq::<char>::empty(),
            view.placeholder@ == crate::search_lines::placeholder_for(None),
            view.notebook is None,
            !view.box_made && !view.box_failed && !view.box_shown,
            !view.loaded && !view.failed && !view.stale && !view.replace_open,
            view.run_options == view.options,
            view.options == (MatchOptions { case: false, whole_word: false, regex: false }),
            view.spoken.at is None,
            view.spoken.summary@ == Seq::<char>::empty(),
            view.spoken.status@ == Seq::<char>::empty(),
            view.thumb_grab is None,
            view.toggle_hover is None,
            view.tools_shown@ == Seq::<Tool>::empty(),
    {
        proof {
            sizes_are_bounded(dpi as int);
        }
        SearchView {
            box_made: false,
            box_failed: false,
            box_shown: false,
            notebook: None,
            loaded: false,
            failed: false,
            stale: false,
            query: String::new(),
            box_text: String::new(),
            spoken: Spoken { summary: String::new(), status: String::new(), at: None },
            run_options: MatchOptions::default(),
            results: Vec::new(),
            options: MatchOptions::default(),
            replace_open: false,
            search: State::Idle,
            replace_on_batch: false,
            restore: None,
            selected_by_batch: None,
            list: RowListState::new(scale(ROW_AT_96_DPI, dpi)),
            placeholder: placeholder(None),
            thumb_grab: None,
            order: 0,
            toggle_hover: None,
            tools_shown: Vec::new(),
        }
    }

    /// The painted search field, border included.
    pub fn field_rect(client: Rect, dpi: u32) -> (field: Rect)
        requires
            crate::geometry::roomy(client),
            dpi <= crate::panel::MAX_DPI,
        ensures
            field == field_box(client, dpi as int),
            field.in_range(),
    {
        proof {
            sizes_are_bounded(dpi as int);
        }
        let margin: i32 = scale(FIELD_MARGIN_AT_96_DPI, dpi);
        let tall: i32 = scale(FIELD_HEIGHT_AT_96_DPI, dpi);
        let top: i32 = client.top + (scale(HEADER_AT_96_DPI, dpi) - tall) / 2;
        Rect {
            left: client.left + margin,
            top,
            right: (client.right - margin).max(client.left + margin),
            bottom: top + tall,
        }
    }

    /// Where the results are: under the header and the summary line, above the status line when it
    /// shows.
    pub fn list_area(&self, client: Rect, dpi: u32) -> (area: Rect)
        requires
            self.wf(),
            crate::geometry::roomy(client),
            dpi <= crate::panel::MAX_DPI,
        ensures
            area == list_box(client, dpi as int, self.shown().lines().1 is Some),
            area.in_range(),
    {
        proof {
            sizes_are_bounded(dpi as int);
        }
        let line: i32 = scale(LINE_AT_96_DPI, dpi);
        let top: i32 = (client.top + scale(HEADER_AT_96_DPI, dpi) + line).min(client.bottom);
        let bottom: i32 = if self.status_line().is_some() {
            (client.bottom - line).max(top)
        } else {
            client.bottom
        };
        Rect { left: client.left, top, right: client.right, bottom }
    }

    /// The summary line under the box, where the notice shows too.
    pub fn summary_rect(client: Rect, dpi: u32) -> (rect: Rect)
        requires
            crate::geometry::roomy(client),
            dpi <= crate::panel::MAX_DPI,
        ensures
            rect == summary_box(client, dpi as int),
            rect.in_range(),
    {
        proof {
            sizes_are_bounded(dpi as int);
        }
        let pad: i32 = scale(PADDING_AT_96_DPI, dpi);
        let top: i32 = (client.top + scale(HEADER_AT_96_DPI, dpi)).min(client.bottom);
        Rect {
            left: client.left + pad,
            top,
            right: client.right - pad,
            bottom: (top + scale(LINE_AT_96_DPI, dpi)).min(client.bottom),
        }
    }

    /// The status line along the bottom.
    pub fn status_rect(client: Rect, dpi: u32) -> (rect: Rect)
        requires
            crate::geometry::roomy(client),
            dpi <= crate::panel::MAX_DPI,
        ensures
            rect == status_box(client, dpi as int),
            rect.in_range(),
    {
        proof {
            sizes_are_bounded(dpi as int);
        }
        let pad: i32 = scale(PADDING_AT_96_DPI, dpi);
        Rect {
            left: client.left + pad,
            top: (client.bottom - scale(LINE_AT_96_DPI, dpi)).max(client.top),
            right: client.right - pad,
            bottom: client.bottom,
        }
    }

    /// The path of the result at `index`.
    pub fn path_at(&self, index: Option<usize>) -> (path: Option<String>)
        ensures
            crate::text::maybe(path) == path_of(self.results@, index),
    {
        path_in(&self.results, index)
    }

    /// Where the note at `path` is listed.
    pub fn position(&self, path: &Option<String>) -> (index: Option<usize>)
        ensures
            index == maybe_place(self.results@, crate::text::maybe(*path)),
            index matches Some(index) ==> index < self.results.len(),
    {
        position_in(&self.results, path)
    }

    /// Empties the list and forgets its selection and scroll.
    pub fn clear_results(&mut self)
        requires
            old(self).wf(),
        ensures
            final(self).wf(),
            final(self).shown() == old(self).shown().cleared(),
            final(self).searched(*old(self)),
            final(self).query == old(self).query,
            final(self).run_options == old(self).run_options,
    {
        if self.results.len() > 0 {
            self.order = self.order.wrapping_add(1);
        }
        self.results.clear();
        self.list.set_count(0);
        self.list.top = 0;
        self.list.selected = None;
        self.replace_on_batch = false;
        self.restore = None;
        self.selected_by_batch = None;
    }

    /// What shows when a search begins.
    pub open spec fn begun(self, query: Seq<char>, total: usize) -> Shown {
        let again = self.query@ == query && self.run_options == self.options && self.results.len()
            > 0;
        let kept = if again {
            Shown { replace_on_batch: true, ..self.shown() }
        } else {
            self.shown().cleared()
        };
        Shown {
            restore: self.shown().current(),
            selected_by_batch: None,
            search: State::Running(Progress { visited: 0, total, skipped: [0, 0, 0, 0] }),
            ..kept
        }
    }

    /// A search for `query` over `total` notes began, with the view's options. The same query and
    /// options again keep the results until its first batch with a hit or its end; a new one
    /// clears them. Either way the selected note is remembered, to be selected again when it
    /// arrives.
    pub fn begin(&mut self, query: &str, total: usize)
        requires
            old(self).wf(),
        ensures
            final(self).wf(),
            final(self).shown() == old(self).begun(query@, total),
            final(self).searched(*old(self)),
            final(self).query@ == query@,
            final(self).run_options == old(self).options,
    {
        let selected = self.path_at(self.list.selected);
        let wanted = query.to_owned();
        if self.query == wanted && self.run_options == self.options && self.results.len()
            > 0 {
            self.replace_on_batch = true;
        } else {
            self.clear_results();
            self.query = wanted;
        }
        self.run_options = self.options;
        self.restore = selected;
        self.selected_by_batch = None;
        let progress = Progress { visited: 0, total, skipped: [0, 0, 0, 0] };
        self.search = State::Running(progress);
    }

    /// Puts a batch's hits in sorted place, keeping the selection and the top row by path, for a
    /// list area `height` tall. Reports whether anything painted changed.
    pub fn apply(
        &mut self,
        hits: Vec<TextHit>,
        progress: Progress,
        end: Option<RunEnd>,
        height: i32,
    ) -> (changed: bool)
        requires
            old(self).wf(),
            progress.countable(),
            old(self).results.len() + hits.len() <= i32::MAX,
        ensures
            final(self).wf(),
            final(self).shown() == old(self).shown().after_batch(
                hits@,
                progress,
                end,
                height as int,
            ),
            final(self).searched(*old(self)),
            final(self).query == old(self).query,
            final(self).run_options == old(self).run_options,
            changed == old(self).shown().repaints(hits@, progress, end, height as int),
    {
        let summary = self.summary();
        let status = self.status_line();
        let replacing: bool = self.replace_on_batch && (hits.len() > 0 || end.is_some());
        if self.replace_on_batch && !replacing {
            self.search = State::Running(progress);
            return self.relined(&summary, &status);
        }
        let moved: bool = self.land(hits, progress, end, height, replacing);
        moved || self.relined(&summary, &status)
    }

    /// Whether the summary or the status line is another one now.
    fn relined(&self, summary: &Option<(String, bool)>, status: &Option<String>) -> (relined: bool)
        requires
            self.wf(),
        ensures
            relined == (self.shown().lines() != (
                crate::search_lines::marked(*summary),
                crate::text::maybe(*status),
            )),
    {
        !same_summary(&self.summary(), summary) || !same_maybe(&self.status_line(), status)
    }

    /// Puts a batch's hits among the results or, `replacing`, in their place. Reports whether a row
    /// in view, the selection or the scroll changed.
    #[verifier::rlimit(30)]
    fn land(
        &mut self,
        hits: Vec<TextHit>,
        progress: Progress,
        end: Option<RunEnd>,
        height: i32,
        replacing: bool,
    ) -> (moved: bool)
        requires
            old(self).wf(),
            progress.countable(),
            old(self).results.len() + hits.len() <= i32::MAX,
            replacing == old(self).shown().replaces(hits@.len(), end),
            !old(self).replace_on_batch || replacing,
        ensures
            final(self).wf(),
            final(self).shown() == old(self).shown().after_batch(
                hits@,
                progress,
                end,
                height as int,
            ),
            final(self).searched(*old(self)),
            final(self).query == old(self).query,
            final(self).run_options == old(self).run_options,
            moved == (replacing || crate::search_hits::lands_before(
                old(self).shown().results_now(replacing),
                hits@,
                old(self).shown().list_now(replacing).top + rows_in(
                    height as int,
                    old(self).list.row_height as int,
                ),
            ) || final(self).list.top != old(self).list.top || final(self).list.selected != old(
                self,
            ).list.selected),
    {
        let ghost before = self.shown();
        let ghost all = hits@;
        let arrived: bool = hits.len() > 0;
        let (top, selected, restore) = self.kept(replacing);
        let mut results: Vec<TextHit> = Vec::new();
        if !replacing {
            std::mem::swap(&mut self.results, &mut results);
        }
        let start: RowListState = self.list;
        let mut list: RowListState = start;
        if replacing {
            list.top = 0;
            list.selected = None;
        }
        let landed: bool = take_hits(&mut results, hits, &list, height);
        let (restored, by_batch) = settle(&results, &mut list, &top, &selected, &restore, height);
        let order: u64 = if arrived || replacing {
            self.order.wrapping_add(1)
        } else {
            self.order
        };
        let restore: Option<String> = if end.is_some() || restored {
            None
        } else {
            restore
        };
        self.results = results;
        self.list = list;
        self.restore = restore;
        self.selected_by_batch = by_batch;
        self.replace_on_batch = false;
        self.order = order;
        self.search = match end {
            None => State::Running(progress),
            Some(end) => State::Done { progress, capped: end == RunEnd::Capped },
        };
        assert(self.shown() =~= before.after_batch(all, progress, end, height as int));
        replacing || landed || list.top != start.top || list.selected != start.selected
    }

    /// The notes at the top and selected that the list keeps over a batch, and the one to select
    /// again when it arrives.
    fn kept(&self, replacing: bool) -> (kept: (Option<String>, Option<String>, Option<String>))
        requires
            self.wf(),
        ensures
            crate::text::maybe(kept.0) == self.shown().top_now(replacing),
            crate::text::maybe(kept.1) == self.shown().selected_now(replacing),
            crate::text::maybe(kept.2) == self.shown().restore_now(replacing),
    {
        let current = self.path_at(self.list.selected);
        if replacing {
            if current.is_some() {
                (None, None, current)
            } else {
                (None, None, self.restore.clone())
            }
        } else {
            let top = self.path_at(Some(self.list.top));
            let restore = if same_maybe_path(&current, &self.selected_by_batch) {
                self.restore.clone()
            } else {
                None
            };
            (top, current, restore)
        }
    }

    /// The line shown instead of the results.
    pub open spec fn notice_shown(self) -> Option<Seq<char>> {
        crate::search_lines::notice_for(self.notebook is Some, self.loaded, self.failed)
    }

    pub fn notice(&self) -> (notice: Option<&'static str>)
        ensures
            self.notice_shown() == (match notice {
                Some(notice) => Some(notice@),
                None => None,
            }),
    {
        notice_text(self.notebook.is_some(), self.loaded, self.failed)
    }

    pub fn summary(&self) -> (summary: Option<(String, bool)>)
        ensures
            crate::search_lines::marked(summary) == self.shown().lines().0,
    {
        summary_text(&self.search, self.results.len())
    }

    pub fn status_line(&self) -> (status: Option<String>)
        requires
            self.wf(),
        ensures
            crate::text::maybe(status) == self.shown().lines().1,
    {
        status_text(&self.search)
    }
}

proof fn rows_are_bounded(height: int, row_height: int)
    requires
        height <= i32::MAX,
        1 <= row_height <= i32::MAX,
    ensures
        0 <= rows_in(height, row_height) <= i32::MAX,
{
    let tall = vstd::math::max(height, 0);
    assert(0 <= (tall + row_height - 1) / row_height <= 0x7fff_ffff) by (nonlinear_arith)
        requires
            0 <= tall <= 0x7fff_ffff,
            1 <= row_height,
    ;
}

proof fn first_place_is_kept(results: Seq<TextHit>, path: Seq<char>, upto: int)
    requires
        0 <= upto <= results.len(),
        place_of(results.take(upto), path) is Some,
    ensures
        place_of(results, path) == place_of(results.take(upto), path),
    decreases results.len(),
{
    if upto < results.len() {
        assert(results.drop_last().take(upto) == results.take(upto));
        first_place_is_kept(results.drop_last(), path, upto);
    } else {
        assert(results.take(upto) == results);
    }
}

} // verus!
