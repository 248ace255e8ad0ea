//! What the Search view reads: its placeholder, notice, summary and status lines, the tooltip of
//! skipped notes, a snippet's cut start, and a result's spoken name.

use crate::notebook_paint::LOAD_FAILED;
use crate::paths::file_name;
use crate::text::{chars_of, decimal_text, join2, join3, text_of};
use vstd::prelude::*;
use vstd::string::*;

verus! {

pub const NO_NOTEBOOK: &'static str = "Open a notebook to search it.";

pub const NO_MATCH: &'static str = "No notes match.";

pub const LOADING: &'static str = "Loading\u{2026}";

pub const TOO_SHORT: &'static str = "Type at least 2 characters.";

pub const ELLIPSIS: &'static str = "\u{2026}";

/// The most results a search lists.
pub const RESULT_CAP: usize = 500;

/// How far a search is: notes visited of all, and those skipped for each reason (online only, too
/// large, unreadable, not text).
#[derive(Clone, Copy, Debug, PartialEq, Eq)]
pub struct Progress {
    pub visited: usize,
    pub total: usize,
    pub skipped: [usize; 4],
}

impl Default for Progress {
    fn default() -> (progress: Self)
        ensures
            progress.visited == 0,
            progress.total == 0,
            progress.skipped@ == seq![0usize, 0, 0, 0],
    {
        Progress { visited: 0, total: 0, skipped: [0, 0, 0, 0] }
    }
}

impl Progress {
    /// The notes skipped, whatever the reason.
    pub open spec fn all_skipped(self) -> int {
        self.skipped@[0] + self.skipped@[1] + self.skipped@[2] + self.skipped@[3]
    }

    /// The skipped notes can be counted.
    pub open spec fn countable(self) -> bool {
        self.all_skipped() <= usize::MAX
    }

    pub fn skipped_total(&self) -> (count: usize)
        requires
            self.countable(),
        ensures
            count == self.all_skipped(),
    {
        self.skipped[0] + self.skipped[1] + self.skipped[2] + self.skipped[3]
    }
}

/// The search's progress, as the summary and status lines read it, over messages of type `T`.
#[derive(Debug, PartialEq, Eq)]
pub enum State<T> {
    /// Nothing typed, or only white space.
    Idle,
    /// One character: text search starts at two.
    TooShort,
    Running(Progress),
    Done { progress: Progress, capped: bool },
    /// The pattern can't run. The previous results stay.
    PatternError(T),
}

pub type SearchState = State<String>;

pub type StateModel = State<Seq<char>>;

pub open spec fn state_model(state: SearchState) -> StateModel {
    match state {
        State::Idle => State::Idle,
        State::TooShort => State::TooShort,
        State::Running(progress) => State::Running(progress),
        State::Done { progress, capped } => State::Done { progress, capped },
        State::PatternError(message) => State::PatternError(message@),
    }
}

/// The search's skipped notes can be counted.
pub open spec fn countable(state: StateModel) -> bool {
    match state {
        State::Running(progress) => progress.countable(),
        State::Done { progress, .. } => progress.countable(),
        _ => true,
    }
}

/// The box's placeholder: which notebook's text it searches.
pub open spec fn placeholder_for(notebook: Option<Seq<char>>) -> Seq<char> {
    match notebook {
        Some(path) => "Search text in "@ + crate::paths::name_of(path),
        None => "Search text"@,
    }
}

pub fn placeholder(notebook: Option<&String>) -> (text: String)
    ensures
        text@ == placeholder_for(
            match notebook {
                Some(path) => Some(path@),
                None => None,
            },
        ),
{
    match notebook {
        Some(path) => join2("Search text in ", file_name(path.as_str()).as_str()),
        None => "Search text".to_owned(),
    }
}

/// The line shown instead of the results, if any.
pub open spec fn notice_for(notebook_open: bool, loaded: bool, failed: bool) -> Option<Seq<char>> {
    if !notebook_open {
        Some(NO_NOTEBOOK@)
    } else if failed {
        Some(LOAD_FAILED@)
    } else if !loaded {
        Some(LOADING@)
    } else {
        None
    }
}

/// The line shown instead of the results, if any. `failed` is a notebook whose load failed.
pub fn notice_text(notebook_open: bool, loaded: bool, failed: bool) -> (notice: Option<&'static str>)
    ensures
        notice_for(notebook_open, loaded, failed) == (match notice {
            Some(notice) => Some(notice@),
            None => None,
        }),
{
    if !notebook_open {
        Some(NO_NOTEBOOK)
    } else if failed {
        Some(LOAD_FAILED)
    } else if !loaded {
        Some(LOADING)
    } else {
        None
    }
}

/// The last three digits of `value`, zeros included.
pub open spec fn three_digits(value: nat) -> Seq<char> {
    seq![
        crate::text::digit(value / 100 % 10),
        crate::text::digit(value / 10 % 10),
        crate::text::digit(value % 10),
    ]
}

/// `value` in decimal with a comma between each group of three digits.
pub open spec fn grouped(value: nat) -> Seq<char>
    decreases value,
{
    if value < 1000 {
        crate::text::decimal(value)
    } else {
        grouped(value / 1000) + seq![','] + three_digits(value % 1000)
    }
}

/// `value` with a comma between each group of three digits.
pub fn thousands(value: usize) -> (text: String)
    ensures
        text@ == grouped(value as nat),
    decreases value,
{
    if value < 1000 {
        decimal_text(value as u64)
    } else {
        let mut text = thousands(value / 1000);
        let rest: u64 = (value % 1000) as u64;
        text.push(',');
        // Three digits always: those of 1000 more, without its 1.
        let digits = chars_of(decimal_text(1000 + rest).as_str());
        proof {
            four_digits(rest as nat);
        }
        text.push(digits[1]);
        text.push(digits[2]);
        text.push(digits[3]);
        assert(text@ == grouped(value as nat));
        text
    }
}

proof fn four_digits(rest: nat)
    requires
        rest < 1000,
    ensures
        crate::text::decimal(1000 + rest) == seq!['1'] + three_digits(rest),
{
    let n = 1000 + rest;
    reveal_with_fuel(crate::text::decimal, 4);
    assert(n / 10 / 10 / 10 == 1);
    assert(n % 10 == rest % 10);
    assert(n / 10 % 10 == rest / 10 % 10);
    assert(n / 10 / 10 % 10 == rest / 100 % 10);
    assert(crate::text::decimal(n) == seq!['1'] + three_digits(rest));
}

/// `text` without its commas.
pub open spec fn uncommaed(text: Seq<char>) -> Seq<char>
    decreases text.len(),
{
    if text.len() == 0 {
        Seq::empty()
    } else if text.last() == ',' {
        uncommaed(text.drop_last())
    } else {
        uncommaed(text.drop_last()).push(text.last())
    }
}

proof fn no_commas(text: Seq<char>)
    requires
        forall|i: int| 0 <= i < text.len() ==> text[i] != ',',
    ensures
        uncommaed(text) == text,
    decreases text.len(),
{
    if text.len() > 0 {
        no_commas(text.drop_last());
        assert(text.drop_last().push(text.last()) == text);
    }
}

proof fn decimals_have_no_commas(value: nat)
    ensures
        forall|i: int|
            0 <= i < crate::text::decimal(value).len() ==> crate::text::decimal(value)[i] != ',',
    decreases value,
{
    let all = crate::text::decimal(value);
    if value >= 10 {
        let front = crate::text::decimal(value / 10);
        let last = crate::text::digit(value % 10);
        decimals_have_no_commas(value / 10);
        assert(last != ',');
        assert(all == front.push(last));
        assert forall|i: int| 0 <= i < all.len() implies all[i] != ',' by {
            if i < front.len() {
                assert(all[i] == front[i]);
            }
        }
    } else {
        assert(crate::text::digit(value) != ',');
        assert(all == seq![crate::text::digit(value)]);
    }
}

/// The commas only group: without them a count reads as its plain decimal.
pub proof fn grouping_keeps_the_digits(value: nat)
    ensures
        uncommaed(grouped(value)) == crate::text::decimal(value),
    decreases value,
{
    if value < 1000 {
        decimals_have_no_commas(value);
        no_commas(crate::text::decimal(value));
    } else {
        let (high, low) = (value / 1000, value % 1000);
        grouping_keeps_the_digits(high);
        let front = grouped(high).push(',');
        let (a, b, c) = (three_digits(low)[0], three_digits(low)[1], three_digits(low)[2]);
        let whole = grouped(value);
        assert(whole == front.push(a).push(b).push(c));
        assert(front.push(a).push(b).push(c).drop_last() == front.push(a).push(b));
        assert(front.push(a).push(b).drop_last() == front.push(a));
        assert(front.push(a).drop_last() == front);
        assert(front.drop_last() == grouped(high));
        assert(uncommaed(front) == crate::text::decimal(high));
        assert(uncommaed(front.push(a)) == crate::text::decimal(high).push(a));
        assert(uncommaed(front.push(a).push(b)) == crate::text::decimal(high).push(a).push(b));
        assert(uncommaed(whole) == crate::text::decimal(high).push(a).push(b).push(c));
        assert(value / 10 / 10 / 10 == high);
        assert(value % 10 == low % 10);
        assert(value / 10 % 10 == low / 10 % 10);
        assert(value / 10 / 10 % 10 == low / 100 % 10);
        assert(crate::text::decimal(value / 10 / 10) == crate::text::decimal(high).push(a));
        assert(crate::text::decimal(value / 10) == crate::text::decimal(high).push(a).push(b));
    }
}

/// How many notes are listed; a capped search lists the cap's number and more.
pub open spec fn counted(count: nat, capped: bool) -> Seq<char> {
    if capped {
        grouped(RESULT_CAP as nat) + "+ notes"@
    } else if count == 1 {
        "1 note"@
    } else {
        grouped(count) + " notes"@
    }
}

pub fn note_count(count: usize, capped: bool) -> (text: String)
    ensures
        text@ == counted(count as nat, capped),
{
    if capped {
        join2(thousands(RESULT_CAP).as_str(), "+ notes")
    } else if count == 1 {
        "1 note".to_owned()
    } else {
        join2(thousands(count).as_str(), " notes")
    }
}

/// The summary line under the box and whether it is an error: the note count while results arrive
/// and when the search is done, "No notes match." for a finished search without one.
pub open spec fn summary_of(state: StateModel, results: nat) -> Option<(Seq<char>, bool)> {
    match state {
        State::Idle => None,
        State::TooShort => Some((TOO_SHORT@, false)),
        State::PatternError(message) => Some((message, true)),
        State::Running(_) => if results > 0 {
            Some((counted(results, false), false))
        } else {
            None
        },
        State::Done { capped, .. } => Some(
            (
                if results == 0 {
                    NO_MATCH@
                } else {
                    counted(results, capped)
                },
                false,
            ),
        ),
    }
}

/// A line and its error mark, the text as characters.
pub open spec fn marked(line: Option<(String, bool)>) -> Option<(Seq<char>, bool)> {
    match line {
        Some((text, error)) => Some((text@, error)),
        None => None,
    }
}

pub fn summary_text(state: &SearchState, results: usize) -> (summary: Option<(String, bool)>)
    ensures
        marked(summary) == summary_of(state_model(*state), results as nat),
{
    match state {
        State::Idle => None,
        State::TooShort => Some((TOO_SHORT.to_owned(), false)),
        State::PatternError(message) => Some((message.clone(), true)),
        State::Running(_) => if results > 0 {
            Some((note_count(results, false), false))
        } else {
            None
        },
        State::Done { capped, .. } => {
            let text = if results == 0 {
                NO_MATCH.to_owned()
            } else {
                note_count(results, *capped)
            };
            Some((text, false))
        },
    }
}

/// The status line at the bottom: progress while the search runs, what it skipped once done.
pub open spec fn status_of(state: StateModel) -> Option<Seq<char>> {
    match state {
        State::Running(progress) => Some(
            "Searching\u{2026} "@ + grouped(progress.visited as nat) + " of "@ + grouped(
                progress.total as nat,
            ),
        ),
        State::Done { progress, .. } => {
            let skipped = progress.all_skipped();
            if skipped == 0 {
                None
            } else if skipped == 1 {
                Some("1 note wasn't searched"@)
            } else {
                Some(grouped(skipped as nat) + " notes weren't searched"@)
            }
        },
        _ => None,
    }
}

pub fn status_text(state: &SearchState) -> (status: Option<String>)
    requires
        countable(state_model(*state)),
    ensures
        crate::text::maybe(status) == status_of(state_model(*state)),
{
    match state {
        State::Running(progress) => {
            let mut text = join3(
                "Searching\u{2026} ",
                thousands(progress.visited).as_str(),
                " of ",
            );
            text.append(thousands(progress.total).as_str());
            Some(text)
        },
        State::Done { progress, .. } => {
            let skipped: usize = progress.skipped_total();
            if skipped == 0 {
                None
            } else if skipped == 1 {
                Some("1 note wasn't searched".to_owned())
            } else {
                Some(join2(thousands(skipped).as_str(), " notes weren't searched"))
            }
        },
        _ => None,
    }
}

/// Why a note was skipped.
pub open spec fn reason(index: int) -> Seq<char> {
    if index == 0 {
        " online only"@
    } else if index == 1 {
        " larger than 4 MB"@
    } else if index == 2 {
        " couldn't be read"@
    } else {
        " not text"@
    }
}

/// One line per reason, of the first `upto`, that skipped a note.
pub open spec fn skipped_lines(progress: Progress, upto: int) -> Seq<char>
    decreases upto,
{
    if upto <= 0 {
        Seq::empty()
    } else {
        let before = skipped_lines(progress, upto - 1);
        let count = progress.skipped@[upto - 1];
        if count == 0 {
            before
        } else {
            before + (if before.len() == 0 {
                Seq::empty()
            } else {
                "\r\n"@
            }) + grouped(count as nat) + reason(upto - 1)
        }
    }
}

fn add_reason(text: &mut String, count: usize, why: &str)
    ensures
        final(text)@ == (if count == 0 {
            old(text)@
        } else {
            old(text)@ + (if old(text)@.len() == 0 {
                Seq::empty()
            } else {
                "\r\n"@
            }) + grouped(count as nat) + why@
        }),
{
    if count > 0 {
        if !text.as_str().is_empty() {
            text.append("\r\n");
        } else {
            assert(text@ + Seq::<char>::empty() == text@);
        }
        text.append(thousands(count).as_str());
        text.append(why);
    }
}

/// The status line's tooltip: one line per reason that skipped a note.
pub fn skipped_tooltip(progress: &Progress) -> (tip: String)
    ensures
        tip@ == skipped_lines(*progress, 4),
{
    proof {
        reveal_with_fuel(skipped_lines, 5);
    }
    let mut tip = String::new();
    add_reason(&mut tip, progress.skipped[0], " online only");
    add_reason(&mut tip, progress.skipped[1], " larger than 4 MB");
    add_reason(&mut tip, progress.skipped[2], " couldn't be read");
    add_reason(&mut tip, progress.skipped[3], " not text");
    tip
}

/// The text cut before its character `start`, with an ellipsis in place of what went.
pub open spec fn cut(before: Seq<char>, start: int) -> Seq<char> {
    ELLIPSIS@ + before.subrange(start, before.len() as int)
}

/// `measure` gave a width of at most `room` for a text.
pub open spec fn measured_in<F: Fn(&str) -> i32>(measure: F, text: Seq<char>, room: i32) -> bool {
    exists|shown: &str, width: i32|
        shown@ == text && #[trigger] call_ensures(measure, (shown,), width) && width <= room
}

/// `measure` gave a width of more than `room` for a text.
pub open spec fn measured_over<F: Fn(&str) -> i32>(measure: F, text: Seq<char>, room: i32) -> bool {
    exists|shown: &str, width: i32|
        shown@ == text && #[trigger] call_ensures(measure, (shown,), width) && width > room
}

/// The cut at `start` fits, or `start` is past the last cut; and the cut one character earlier, if
/// there is one, does not.
pub open spec fn is_first_fit<F: Fn(&str) -> i32>(
    measure: F,
    before: Seq<char>,
    room: i32,
    start: int,
) -> bool {
    &&& 1 <= start
    &&& start <= before.len() || start == 1
    &&& start < before.len() ==> measured_in(measure, cut(before, start), room)
    &&& 1 < start <= before.len() ==> measured_over(measure, cut(before, start - 1), room)
}

/// What is kept of a text cut at `start`: nothing past the last cut.
pub open spec fn kept(before: Seq<char>, start: int) -> Seq<char> {
    if start < before.len() {
        cut(before, start)
    } else {
        Seq::empty()
    }
}

/// `shown` is `before` where it fits, else what the first cut that fits keeps.
pub open spec fn is_fitted<F: Fn(&str) -> i32>(
    measure: F,
    before: Seq<char>,
    room: i32,
    shown: Seq<char>,
) -> bool {
    ||| measured_in(measure, before, room) && shown == before
    ||| measured_over(measure, before, room) && exists|start: int| #[trigger]
        is_first_fit(measure, before, room, start) && shown == kept(before, start)
}

/// The widest end of a text that fits: the whole text, else its longest proper end after an
/// ellipsis, and nothing where not even its last character does.
pub open spec fn is_longest_fit(
    width: spec_fn(Seq<char>) -> int,
    before: Seq<char>,
    room: int,
    shown: Seq<char>,
) -> bool {
    if width(before) <= room {
        shown == before
    } else {
        ||| exists|start: int|
            #![trigger cut(before, start)]
            {
                &&& 1 <= start < before.len()
                &&& shown == cut(before, start)
                &&& width(cut(before, start)) <= room
                &&& forall|earlier: int|
                    1 <= earlier < start ==> width(#[trigger] cut(before, earlier)) > room
            }
        ||| shown == Seq::<char>::empty() && forall|start: int|
            1 <= start < before.len() ==> width(#[trigger] cut(before, start)) > room
    }
}

/// Where a text's width depends on the text alone and a later cut is never wider, the longest end
/// that fits is kept.
pub proof fn the_longest_end_that_fits_is_kept<F: Fn(&str) -> i32>(
    measure: F,
    width: spec_fn(Seq<char>) -> int,
    before: Seq<char>,
    room: i32,
    shown: Seq<char>,
)
    requires
        forall|text: &str, measured: i32| #[trigger]
            call_ensures(measure, (text,), measured) ==> measured == width(text@),
        forall|first: int, second: int|
            1 <= first <= second < before.len() ==> width(#[trigger] cut(before, second)) <= width(
                #[trigger] cut(before, first),
            ),
        is_fitted(measure, before, room, shown),
    ensures
        is_longest_fit(width, before, room as int, shown),
{
    if width(before) > room {
        let start = choose|start: int| #[trigger]
            is_first_fit(measure, before, room, start) && shown == kept(before, start);
        assert forall|earlier: int| 1 <= earlier < start && earlier < before.len() implies width(
            #[trigger] cut(before, earlier),
        ) > room by {
            assert(width(cut(before, start - 1)) <= width(cut(before, earlier)));
        }
        if start < before.len() {
            assert(shown == cut(before, start));
        }
    }
}

fn cut_text(chars: &Vec<char>, start: usize) -> (text: String)
    requires
        start <= chars.len(),
    ensures
        text@ == cut(chars@, start as int),
{
    join2(ELLIPSIS, text_of(chars, start, chars.len()).as_str())
}

/// The part of a snippet before its match, cut from the start (with an ellipsis) until it is at
/// most `room` pixels wide, so the match stays in view in a narrow panel. `measure` gives a text's
/// width, and a later cut is never wider. Empty when not even the ellipsis and one character fit.
pub fn fit_before<F: Fn(&str) -> i32>(before: &str, room: i32, measure: F) -> (shown: String)
    requires
        forall|text: &str| #[trigger] call_requires(measure, (text,)),
    ensures
        is_fitted(measure, before@, room, shown@),
{
    let whole: i32 = measure(before);
    if whole <= room {
        return before.to_owned();
    }
    let chars = chars_of(before);
    // The first start that fits lies from `low` to `high`; an earlier one does not fit.
    let mut low: usize = 1;
    let mut high: usize = if chars.len() > 1 {
        chars.len()
    } else {
        1
    };
    while low < high
        invariant
            forall|text: &str| #[trigger] call_requires(measure, (text,)),
            chars@ == before@,
            1 <= low <= high,
            high <= chars.len() || high == 1,
            high < chars.len() ==> measured_in(measure, cut(before@, high as int), room),
            1 < low ==> measured_over(measure, cut(before@, low - 1), room),
        decreases high - low,
    {
        let middle: usize = low + (high - low) / 2;
        let text = cut_text(&chars, middle);
        let width: i32 = measure(text.as_str());
        if width > room {
            assert(measured_over(measure, cut(before@, middle as int), room));
            low = middle + 1;
        } else {
            assert(measured_in(measure, cut(before@, middle as int), room));
            high = middle;
        }
    }
    assert(is_first_fit(measure, before@, room, low as int));
    if low < chars.len() {
        cut_text(&chars, low)
    } else {
        String::new()
    }
}

/// Where a search found its first match in a note: the line it is in, and the match's bytes.
#[derive(Debug, PartialEq, Eq)]
pub struct Snippet {
    pub text: String,
    pub start: usize,
    pub end: usize,
}

/// A file's size and time when it was read.
#[derive(Clone, Copy, Debug, PartialEq, Eq, Structural)]
pub struct Stamp {
    pub size: u64,
    pub mtime: u64,
}

/// A note with a match.
#[derive(Debug, PartialEq, Eq)]
pub struct TextHit {
    /// Relative to the notebook.
    pub path: String,
    pub name: String,
    pub folder: String,
    pub snippet: Snippet,
    /// The searched file's stamp; `None` where a tab's text was searched instead.
    pub stamp: Option<Stamp>,
}

/// A result's accessible name: its name, its folder unless it is at the notebook's root, and the
/// snippet.
pub open spec fn spoken_result(hit: TextHit) -> Seq<char> {
    if hit.folder@.len() == 0 {
        hit.name@ + ": "@ + hit.snippet.text@
    } else {
        hit.name@ + ", "@ + hit.folder@ + ": "@ + hit.snippet.text@
    }
}

pub fn result_name(hit: &TextHit) -> (name: String)
    ensures
        name@ == spoken_result(*hit),
{
    let mut name = hit.name.clone();
    if !hit.folder.as_str().is_empty() {
        name.append(", ");
        name.append(hit.folder.as_str());
    }
    name.append(": ");
    name.append(hit.snippet.text.as_str());
    name
}

/// A finished search always has a summary, and one still running only with a result.
pub proof fn summaries_never_say_nothing_matches_early(progress: Progress, results: nat)
    ensures
        summary_of(State::Running(progress), results) is Some <==> results > 0,
        summary_of(State::Done { progress, capped: false }, 0) == Some((NO_MATCH@, false)),
        status_of(State::Running(progress)) is Some,
{
}

} // verus!
