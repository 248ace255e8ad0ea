//! Text search scheduling and replacing: when a query runs, the generation that makes a late batch
//! stale, what a longer query may narrow to, and the steps of a replace from its count to its
//! report. The worker threads and timers are the program's; this decides.

use crate::option_toggles::MatchOptions;
use crate::paths::key_of_path;
use crate::text::{chars_of, has_text};
use crate::tree::{expanded_key, lower_keys};
use std::hash::{DefaultHasher, Hasher};
use vstd::prelude::*;
use vstd::std_specs::hash::DefaultHasherAdditionalSpecFns;
use vstd::string::*;

verus! {

pub const DEBOUNCE_MS: u32 = 150;

/// The shortest query that runs, in characters.
pub const MIN_QUERY_CHARS: usize = 2;

/// How long a count that came at a bad time waits before it is tried again.
pub const REPLACE_RETRY_MS: u32 = 50;

/// How a search ended.
#[derive(Clone, Copy, Debug, PartialEq, Eq, Structural)]
pub enum RunEnd {
    Completed,
    Capped,
    Cancelled,
}

/// White space, as Unicode has it.
pub open spec fn is_white(ch: char) -> bool {
    ('\u{9}' <= ch && ch <= '\u{D}') || ch == ' ' || ch == '\u{85}' || ch == '\u{A0}' || ch
        == '\u{1680}' || ('\u{2000}' <= ch && ch <= '\u{200A}') || ch == '\u{2028}' || ch
        == '\u{2029}' || ch == '\u{202F}' || ch == '\u{205F}' || ch == '\u{3000}'
}

fn white(ch: char) -> (is: bool)
    ensures
        is == is_white(ch),
{
    ('\u{9}' <= ch && ch <= '\u{D}') || ch == ' ' || ch == '\u{85}' || ch == '\u{A0}' || ch
        == '\u{1680}' || ('\u{2000}' <= ch && ch <= '\u{200A}') || ch == '\u{2028}' || ch
        == '\u{2029}' || ch == '\u{202F}' || ch == '\u{205F}' || ch == '\u{3000}'
}

/// Nothing but white space.
pub open spec fn blank(text: Seq<char>) -> bool {
    forall|i: int| 0 <= i < text.len() ==> is_white(#[trigger] text[i])
}

pub fn is_blank(text: &str) -> (blank_text: bool)
    ensures
        blank_text == blank(text@),
{
    let chars = chars_of(text);
    let mut at: usize = 0;
    while at < chars.len()
        invariant
            at <= chars.len(),
            chars@ == text@,
            forall|i: int| 0 <= i < at ==> is_white(#[trigger] chars@[i]),
        decreases chars.len() - at,
    {
        if !white(chars[at]) {
            assert(!is_white(text@[at as int]));
            return false;
        }
        at = at + 1;
    }
    true
}

/// A query that runs: long enough, and not all white space.
pub open spec fn runs(query: Seq<char>) -> bool {
    query.len() >= MIN_QUERY_CHARS && !blank(query)
}

pub fn searchable(query: &str) -> (searchable: bool)
    ensures
        searchable == runs(query@),
{
    query.unicode_len() >= MIN_QUERY_CHARS && !is_blank(query)
}

/// A note of the library.
#[derive(Debug, PartialEq, Eq)]
pub struct NoteEntry {
    pub path: String,
    pub size: u64,
    pub mtime: u64,
    pub online_only: bool,
}

/// A text's bytes, and the byte that ends it: no text holds it.
pub open spec fn ended(text: Seq<char>) -> Seq<Seq<u8>> {
    seq![vstd::utf8::encode_utf8(text), seq![0xFFu8]]
}

pub fn write_text(hasher: &mut DefaultHasher, text: &str)
    ensures
        final(hasher)@ == old(hasher)@ + ended(text@),
{
    hasher.write(text.as_bytes());
    let end: [u8; 1] = [0xFF];
    assert(end@ == seq![0xFFu8]);
    hasher.write(end.as_slice());
}

/// One byte for a truth value.
pub open spec fn bit(value: bool) -> Seq<u8> {
    seq![
        if value {
            1u8
        } else {
            0u8
        },
    ]
}

/// What a mark of the note list is made of: how many there are, and of each its path and whether
/// it is online-only; a strict one also takes its size and time.
pub open spec fn note_writes(notes: Seq<NoteEntry>, strict: bool) -> Seq<Seq<u8>>
    decreases notes.len(),
{
    if notes.len() == 0 {
        Seq::empty()
    } else {
        let note = notes.last();
        let listed = (note_writes(notes.drop_last(), strict) + ended(crate::paths::path_key(note.path@))).push(
            bit(note.online_only),
        );
        if strict {
            listed.push(vstd::bytes::spec_u64_to_le_bytes(note.size)).push(
                vstd::bytes::spec_u64_to_le_bytes(note.mtime),
            )
        } else {
            listed
        }
    }
}

/// The mark of a note list.
pub open spec fn mark_of(notes: Seq<NoteEntry>, strict: bool) -> u64 {
    DefaultHasher::spec_finish(
        seq![vstd::bytes::spec_u64_to_le_bytes(notes.len() as u64)] + note_writes(notes, strict),
    )
}

fn mark(notes: &Vec<NoteEntry>, strict: bool) -> (mark: u64)
    ensures
        mark == mark_of(notes@, strict),
{
    let mut hasher = DefaultHasher::new();
    let count = vstd::bytes::u64_to_le_bytes(notes.len() as u64);
    hasher.write(count.as_slice());
    let ghost head = seq![vstd::bytes::spec_u64_to_le_bytes(notes.len() as u64)];
    assert(hasher@ == head + note_writes(notes@.take(0), strict));
    let mut at: usize = 0;
    while at < notes.len()
        invariant
            at <= notes.len(),
            hasher@ == head + note_writes(notes@.take(at as int), strict),
        decreases notes.len() - at,
    {
        let note = &notes[at];
        let ghost now = notes@.take(at + 1);
        assert(now.drop_last() == notes@.take(at as int));
        assert(now.last() == *note);
        write_text(&mut hasher, key_of_path(note.path.as_str()).as_str());
        let flag: [u8; 1] = [if note.online_only { 1 } else { 0 }];
        assert(flag@ == bit(note.online_only));
        hasher.write(flag.as_slice());
        if strict {
            let size = vstd::bytes::u64_to_le_bytes(note.size);
            hasher.write(size.as_slice());
            let time = vstd::bytes::u64_to_le_bytes(note.mtime);
            hasher.write(time.as_slice());
        }
        at = at + 1;
        assert(hasher@ == head + note_writes(now, strict));
    }
    assert(notes@.take(at as int) == notes@);
    hasher.finish()
}

/// A mark of the note list: the paths in order and whether each is online-only. Sizes and times
/// are left out, so the program's own save of a listed note is no change.
pub fn list_mark(notes: &Vec<NoteEntry>) -> (marked: u64)
    ensures
        marked == mark_of(notes@, false),
{
    mark(notes, false)
}

/// A strict mark of the notes, for narrowing: `list_mark` plus each note's size and time, so a
/// save (which may add the phrase a longer query looks for) ends narrowing.
pub fn note_mark(notes: &Vec<NoteEntry>) -> (marked: u64)
    ensures
        marked == mark_of(notes@, true),
{
    mark(notes, true)
}

/// Saving a listed note, which changes its size and time, leaves the list's mark as it is.
pub proof fn a_save_is_no_list_change(before: Seq<NoteEntry>, after: Seq<NoteEntry>)
    requires
        before.len() == after.len(),
        forall|i: int|
            0 <= i < before.len() ==> crate::paths::path_key((#[trigger] before[i]).path@)
                == crate::paths::path_key(after[i].path@) && before[i].online_only
                == after[i].online_only,
    ensures
        mark_of(before, false) == mark_of(after, false),
{
    same_lists_write_the_same(before, after);
}

proof fn same_lists_write_the_same(before: Seq<NoteEntry>, after: Seq<NoteEntry>)
    requires
        before.len() == after.len(),
        forall|i: int|
            0 <= i < before.len() ==> crate::paths::path_key((#[trigger] before[i]).path@)
                == crate::paths::path_key(after[i].path@) && before[i].online_only
                == after[i].online_only,
    ensures
        note_writes(before, false) == note_writes(after, false),
    decreases before.len(),
{
    if before.len() > 0 {
        same_lists_write_the_same(before.drop_last(), after.drop_last());
        assert(crate::paths::path_key(before[before.len() - 1].path@) == crate::paths::path_key(
            after[before.len() - 1].path@,
        ));
    }
}

/// A dirty tab's text, by its note's path.
#[derive(Debug)]
pub struct Overlay {
    pub path: String,
    pub text: String,
}

/// The hash of one overlay: its path ignoring case, and its text.
pub open spec fn overlay_hash(overlay: Overlay) -> u64 {
    DefaultHasher::spec_finish(overlay_writes(overlay))
}

/// What the hash of one overlay is made of.
pub open spec fn overlay_writes(overlay: Overlay) -> Seq<Seq<u8>> {
    ended(crate::tree::lowercased(overlay.path@)) + ended(overlay.text@)
}

/// A sum that starts over past the last `u64`.
pub open spec fn wrapped(a: u64, b: u64) -> u64 {
    if a + b > u64::MAX {
        (a + b - u64::MAX - 1) as u64
    } else {
        (a + b) as u64
    }
}

/// The mark of the dirty tabs' texts: how many there are and their hashes, added up.
pub open spec fn overlays_mark(overlays: Seq<Overlay>) -> u64 {
    overlays.fold_left(
        overlays.len() as u64,
        |sum: u64, overlay: Overlay| wrapped(sum, overlay_hash(overlay)),
    )
}

/// A mark of the dirty tabs' texts, the same whatever order they come in.
pub fn overlay_mark(overlays: &Vec<Overlay>) -> (marked: u64)
    ensures
        marked == overlays_mark(overlays@),
{
    let mut sum: u64 = overlays.len() as u64;
    let mut at: usize = 0;
    let ghost more = |sum: u64, overlay: Overlay| wrapped(sum, overlay_hash(overlay));
    assert(overlays@.take(0).fold_left(sum, more) == sum) by {
        reveal_with_fuel(Seq::fold_left, 1);
    }
    let ghost start = sum;
    while at < overlays.len()
        invariant
            at <= overlays.len(),
            start == overlays.len() as u64,
            more == (|sum: u64, overlay: Overlay| wrapped(sum, overlay_hash(overlay))),
            sum == overlays@.take(at as int).fold_left(start, more),
        decreases overlays.len() - at,
    {
        let overlay = &overlays[at];
        let key = expanded_key(&overlay.path);
        let mut hasher = DefaultHasher::new();
        write_text(&mut hasher, key.as_str());
        write_text(&mut hasher, overlay.text.as_str());
        assert(hasher@ == ended(crate::tree::lowercased(overlay.path@)) + ended(overlay.text@));
        let hash: u64 = hasher.finish();
        proof {
            let now = overlays@.take(at + 1);
            assert(now.drop_last() == overlays@.take(at as int));
            assert(now.last() == *overlay);
            reveal_with_fuel(Seq::fold_left, 2);
            assert(now.fold_left(start, more) == more(
                overlays@.take(at as int).fold_left(start, more),
                *overlay,
            ));
        }
        sum = sum.wrapping_add(hash);
        at = at + 1;
    }
    assert(overlays@.take(at as int) == overlays@);
    sum
}

/// The overlays' mark does not depend on the order they are listed in.
pub proof fn overlay_marks_ignore_order(a: Seq<Overlay>, b: Seq<Overlay>)
    requires
        a.to_multiset() == b.to_multiset(),
    ensures
        overlays_mark(a) == overlays_mark(b),
{
    vstd::seq_lib::to_multiset_len(a);
    vstd::seq_lib::to_multiset_len(b);
    let more = |sum: u64, overlay: Overlay| wrapped(sum, overlay_hash(overlay));
    assert forall|x: Overlay, y: Overlay, v: u64| #[trigger] more(more(v, x), y) == more(
        more(v, y),
        x,
    ) by {}
    vstd::seq_lib::lemma_fold_left_permutation(a, b, more, a.len() as u64);
}

/// What the last completed search found, so a longer plain query visits only those notes.
#[derive(Debug)]
pub struct Narrowing {
    pub query: String,
    pub options: MatchOptions,
    /// Its hits and the notes it skipped.
    pub paths: Vec<String>,
    /// The `note_mark` of the notes it searched and the `overlay_mark` of the tab texts it read.
    pub notes: u64,
    pub overlays: u64,
}

/// The search that is running, recorded as `Narrowing` if it completes.
#[derive(Debug)]
pub struct Running {
    pub query: String,
    pub options: MatchOptions,
    pub notes: u64,
    pub overlays: u64,
}

/// `part` occurs in `whole`.
pub open spec fn holds(whole: Seq<char>, part: Seq<char>) -> bool {
    exists|at: int| is_at(whole, part, at)
}

/// `part` occurs in `whole` at `at`.
pub open spec fn is_at(whole: Seq<char>, part: Seq<char>, at: int) -> bool {
    0 <= at && at + part.len() <= whole.len() && whole.subrange(at, at + part.len()) == part
}

fn contains_text(whole: &str, part: &str) -> (found: bool)
    ensures
        found == holds(whole@, part@),
{
    let (text, wanted) = (chars_of(whole), chars_of(part));
    if wanted.len() > text.len() {
        return false;
    }
    let mut at: usize = 0;
    let last: usize = text.len() - wanted.len();
    while at <= last
        invariant
            text@ == whole@,
            wanted@ == part@,
            wanted.len() <= text.len(),
            last == text.len() - wanted.len(),
            at <= last + 1,
            forall|i: int| 0 <= i < at ==> !#[trigger] is_at(whole@, part@, i),
        decreases last + 1 - at,
    {
        let mut same: usize = 0;
        while same < wanted.len() && text[at + same] == wanted[same]
            invariant
                text@ == whole@,
                wanted@ == part@,
                wanted.len() <= text.len(),
                last == text.len() - wanted.len(),
                at <= last,
                same <= wanted.len(),
                forall|i: int| 0 <= i < same ==> whole@[at + i] == part@[i],
            decreases wanted.len() - same,
        {
            same = same + 1;
        }
        if same == wanted.len() {
            assert(whole@.subrange(at as int, at + part@.len()) == part@);
            assert(is_at(whole@, part@, at as int));
            return true;
        }
        proof {
            if is_at(whole@, part@, at as int) {
                let here = whole@.subrange(at as int, at + part@.len());
                assert(here[same as int] == whole@[at + same]);
            }
        }
        if at == last {
            assert forall|i: int| !#[trigger] is_at(whole@, part@, i) by {}
            return false;
        }
        at = at + 1;
    }
    false
}

/// Whether a query may visit only a previous search's hits: a plain query without whole word (a
/// longer whole word can match where the shorter one was no whole word), the same options,
/// containing the previous query, over the same tab texts.
pub open spec fn may_narrow(
    previous: Narrowing,
    query: Seq<char>,
    options: MatchOptions,
    overlays: u64,
) -> bool {
    !options.regex && !options.whole_word && previous.options == options && holds(
        query,
        previous.query@,
    ) && previous.overlays == overlays
}

/// Whether `query` may visit only `previous`'s hits. The note list is checked when it starts.
pub fn narrows(previous: &Narrowing, query: &str, options: MatchOptions, overlays: u64) -> (may: bool)
    ensures
        may == may_narrow(*previous, query@, options, overlays),
{
    !options.regex && !options.whole_word && previous.options == options && contains_text(
        query,
        previous.query.as_str(),
    ) && previous.overlays == overlays
}

/// The text search's and the replace's state.
#[derive(Debug)]
pub struct TextSearchHost {
    /// Bumped by every start and every cancel: a batch of any other generation is stale.
    pub generation: u64,
    /// A worker runs, which a cancel must stop.
    pub searching: bool,
    pub previous: Option<Narrowing>,
    pub running: Option<Running>,
    /// The `list_mark` of the note list the last search started over. `None` after a reload,
    /// which always runs the query again.
    pub list: Option<u64>,
    /// Bumped by every replace start and by `cancel_replace`.
    pub replace_generation: u64,
    /// A count or a write runs, which a cancel must stop.
    pub replace_worker: bool,
    /// A replace is between its start and its report, or its question's No.
    pub replacing: bool,
    /// The generation of a count that waits for a modal loop or a file population to end.
    pub held: Option<u64>,
}

impl Default for TextSearchHost {
    fn default() -> (host: Self)
        ensures
            host == (TextSearchHost {
                generation: 0,
                searching: false,
                previous: None,
                running: None,
                list: None,
                replace_generation: 0,
                replace_worker: false,
                replacing: false,
                held: None,
            }),
    {
        TextSearchHost {
            generation: 0,
            searching: false,
            previous: None,
            running: None,
            list: None,
            replace_generation: 0,
            replace_worker: false,
            replacing: false,
            held: None,
        }
    }
}

/// The generation after `generation`.
pub open spec fn next(generation: u64) -> u64 {
    wrapped(generation, 1)
}

/// What `run_now` does first.
#[derive(Clone, Copy, Debug, PartialEq, Eq, Structural)]
pub enum RunStep {
    /// Wait for the debounce timer: a modal loop runs or a file is being populated.
    Wait,
    /// Nothing to run.
    Nothing,
    /// Show the pattern's error.
    ShowError,
    /// Start the search.
    Start,
}

/// Whether a search visits a note: any note, or one that a narrowing keeps.
pub open spec fn visits(notes: Seq<NoteEntry>, keep: Option<Seq<Seq<char>>>) -> spec_fn(
    int,
) -> bool {
    |index: int|
        match keep {
            Some(keys) => keys.contains(crate::tree::lowercased(notes[index].path@)),
            None => true,
        }
}

/// What keeps a new search's notes: a previous search that it may narrow, over unchanged notes.
pub open spec fn kept_by(
    previous: Option<Narrowing>,
    query: Seq<char>,
    options: MatchOptions,
    notes: u64,
    overlays: u64,
) -> Option<Seq<Seq<char>>> {
    match previous {
        Some(previous) if may_narrow(previous, query, options, overlays) && previous.notes
            == notes => Some(crate::tree::open_keys(previous.paths@)),
        _ => None,
    }
}

/// The notes that a search for `query` visits, in the order they are listed.
pub open spec fn to_visit(
    previous: Option<Narrowing>,
    query: Seq<char>,
    options: MatchOptions,
    notes: Seq<NoteEntry>,
    overlays: Seq<Overlay>,
) -> Seq<usize> {
    let keep = kept_by(previous, query, options, mark_of(notes, true), overlays_mark(overlays));
    crate::select::picked(notes.len() as int, visits(notes, keep))
}

/// The first step for the box's query.
pub open spec fn first_step(
    busy: bool,
    query: Option<Seq<char>>,
    pattern_ok: bool,
    notebook_open: bool,
    loaded: bool,
) -> RunStep {
    if busy {
        RunStep::Wait
    } else {
        match query {
            Some(query) if runs(query) => if !pattern_ok {
                RunStep::ShowError
            } else if notebook_open && loaded {
                RunStep::Start
            } else {
                RunStep::Nothing
            },
            _ => RunStep::Nothing,
        }
    }
}

/// What the end of a search leaves: nothing runs, and only a search that completed, and that no
/// reload has overtaken, is recorded.
pub open spec fn finished(
    before: TextSearchHost,
    after: TextSearchHost,
    end: RunEnd,
    paths: Seq<String>,
    skipped: Seq<String>,
) -> bool {
    &&& after == (TextSearchHost {
        searching: false,
        running: None,
        previous: after.previous,
        ..before
    })
    &&& match (end, before.running) {
        (RunEnd::Completed, Some(run)) => {
            &&& after.previous matches Some(narrowing)
            &&& narrowing.query == run.query
            &&& narrowing.options == run.options
            &&& narrowing.notes == run.notes
            &&& narrowing.overlays == run.overlays
            &&& narrowing.paths@ == paths + skipped
        },
        _ => after.previous is None,
    }
}

impl TextSearchHost {
    /// The state after a search for `query` starts.
    pub open spec fn started(
        self,
        query: String,
        options: MatchOptions,
        notes: Seq<NoteEntry>,
        overlays: Seq<Overlay>,
    ) -> TextSearchHost {
        TextSearchHost {
            generation: next(self.generation),
            searching: true,
            list: Some(mark_of(notes, false)),
            running: Some(
                Running {
                    query,
                    options,
                    notes: mark_of(notes, true),
                    overlays: overlays_mark(overlays),
                },
            ),
            ..self
        }
    }

    /// The state after a search is cancelled.
    pub open spec fn cancelled(self) -> TextSearchHost {
        TextSearchHost {
            generation: next(self.generation),
            searching: false,
            running: None,
            ..self
        }
    }

    /// The state after the notebook is changed or closed.
    pub open spec fn forgotten(self) -> TextSearchHost {
        TextSearchHost {
            generation: next(self.generation),
            searching: false,
            previous: None,
            running: None,
            list: None,
            replace_generation: next(self.replace_generation),
            replace_worker: false,
            replacing: false,
            held: None,
        }
    }

    /// The state after the library is loaded or rescanned.
    pub open spec fn reloaded(self) -> TextSearchHost {
        TextSearchHost { previous: None, running: None, list: None, ..self }
    }

    /// Whether a library change runs the query again.
    pub open spec fn arms(self, query: Option<Seq<char>>, notes: Option<Seq<NoteEntry>>) -> bool {
        match (query, notes) {
            (Some(query), Some(notes)) => runs(query) && self.list != Some(mark_of(notes, false)),
            _ => false,
        }
    }

    /// The state after a replace starts.
    pub open spec fn replace_started(self) -> TextSearchHost {
        TextSearchHost {
            replace_generation: next(self.replace_generation),
            replace_worker: true,
            replacing: true,
            ..self
        }
    }

    /// What a count that arrives leads to, and the state after it.
    pub open spec fn counted(self, generation: u64, busy: bool) -> (CountStep, TextSearchHost) {
        if generation != self.replace_generation {
            (CountStep::Drop, self)
        } else if busy {
            (CountStep::Hold, TextSearchHost { held: Some(generation), ..self })
        } else {
            (CountStep::Ask, self)
        }
    }

    /// What the retry timer leads to, and the state after it.
    pub open spec fn retried(self, busy: bool) -> (TimerStep, TextSearchHost) {
        if busy {
            (TimerStep::KeepArmed, self)
        } else {
            (
                if self.held == Some(self.replace_generation) {
                    TimerStep::Ask
                } else {
                    TimerStep::Stop
                },
                TextSearchHost { held: None, ..self },
            )
        }
    }

    /// The state after the replace in hand ends.
    pub open spec fn replace_finished(self) -> TextSearchHost {
        TextSearchHost { replacing: false, replace_worker: false, ..self }
    }

    /// Whether an answer applies the plan, and the state after it.
    pub open spec fn after_answer(self, generation: u64, confirmed: bool) -> (
        bool,
        TextSearchHost,
    ) {
        if generation != self.replace_generation {
            (false, self)
        } else if confirmed {
            (true, self)
        } else {
            (false, self.replace_finished())
        }
    }

    /// The state after a replace is stopped.
    pub open spec fn replace_cancelled(self) -> TextSearchHost {
        TextSearchHost {
            replace_generation: next(self.replace_generation),
            replace_worker: false,
            replacing: false,
            held: None,
            ..self
        }
    }

    /// Whether a replace may start.
    pub open spec fn lets_replace(self, replace_open: bool, enabled: bool, busy: bool) -> bool {
        replace_open && enabled && !busy && !self.replacing
    }

    /// What `run_now` does for the box's query. The pattern is compiled first, so a bad one shows
    /// even while the notebook loads or none is open.
    pub fn run_step(
        busy: bool,
        query: Option<&String>,
        pattern_ok: bool,
        notebook_open: bool,
        loaded: bool,
    ) -> (step: RunStep)
        ensures
            step == first_step(
                busy,
                match query {
                    Some(query) => Some(query@),
                    None => None,
                },
                pattern_ok,
                notebook_open,
                loaded,
            ),
    {
        if busy {
            return RunStep::Wait;
        }
        match query {
            Some(query) => if !searchable(query.as_str()) {
                RunStep::Nothing
            } else if !pattern_ok {
                RunStep::ShowError
            } else if notebook_open && loaded {
                RunStep::Start
            } else {
                RunStep::Nothing
            },
            None => RunStep::Nothing,
        }
    }

    /// Starts a search for `query`: a new generation over the notes that narrowing leaves. Returns
    /// the generation and the notes to visit.
    pub fn start(
        &mut self,
        query: String,
        options: MatchOptions,
        notes: &Vec<NoteEntry>,
        overlays: &Vec<Overlay>,
    ) -> (started: (u64, Vec<usize>))
        ensures
            started.0 == next(old(self).generation),
            started.1@ == to_visit(old(self).previous, query@, options, notes@, overlays@),
            *final(self) == old(self).started(query, options, notes@, overlays@),
    {
        let overlays: u64 = overlay_mark(overlays);
        let list: u64 = list_mark(notes);
        let marked: u64 = note_mark(notes);
        let keep: Option<Vec<String>> = match &self.previous {
            Some(previous) => if narrows(previous, query.as_str(), options, overlays)
                && previous.notes == marked {
                Some(lower_keys(&previous.paths))
            } else {
                None
            },
            None => None,
        };
        let ghost kept = kept_by(self.previous, query@, options, marked, overlays);
        assert(kept == (match keep {
            Some(keys) => Some(crate::text::texts(keys@)),
            None => None,
        }));
        let mut chosen: Vec<usize> = Vec::new();
        let mut at: usize = 0;
        while at < notes.len()
            invariant
                at <= notes.len(),
                kept == (match keep {
                    Some(keys) => Some(crate::text::texts(keys@)),
                    None => None,
                }),
                chosen@ == crate::select::picked(at as int, visits(notes@, kept)),
            decreases notes.len() - at,
        {
            let take: bool = match &keep {
                Some(keys) => has_text(keys, &expanded_key(&notes[at].path)),
                None => true,
            };
            if take {
                chosen.push(at);
            }
            at = at + 1;
        }
        self.generation = self.generation.wrapping_add(1);
        self.searching = true;
        self.list = Some(list);
        self.running = Some(Running { query, options, notes: marked, overlays });
        (self.generation, chosen)
    }

    /// Whether a batch is the current search's.
    pub fn is_current(&self, generation: u64) -> (current: bool)
        ensures
            current == (self.generation == generation),
    {
        self.generation == generation
    }

    /// The current search ended: a completed one is recorded for narrowing with the paths it
    /// listed and skipped.
    pub fn finish(&mut self, end: RunEnd, mut paths: Vec<String>, mut skipped: Vec<String>)
        ensures
            finished(*old(self), *final(self), end, paths@, skipped@),
    {
        self.searching = false;
        let mut running: Option<Running> = None;
        std::mem::swap(&mut self.running, &mut running);
        self.previous = match (end, running) {
            (RunEnd::Completed, Some(run)) => {
                paths.append(&mut skipped);
                Some(
                    Narrowing {
                        query: run.query,
                        options: run.options,
                        paths,
                        notes: run.notes,
                        overlays: run.overlays,
                    },
                )
            },
            _ => None,
        };
    }

    /// Stops the running search and the debounce; returns whether a worker must be stopped.
    /// Batches it already posted are stale from here on.
    pub fn cancel(&mut self) -> (stop: bool)
        ensures
            stop == old(self).searching,
            *final(self) == old(self).cancelled(),
    {
        let stop: bool = self.searching;
        self.searching = false;
        self.generation = self.generation.wrapping_add(1);
        self.running = None;
        stop
    }

    /// A notebook change or close: cancels the search and any replace, and forgets what the old
    /// notebook's searches found. Returns whether a search and a replace worker must be stopped.
    pub fn forget(&mut self) -> (stop: (bool, bool))
        ensures
            stop == (old(self).searching, old(self).replace_worker),
            *final(self) == old(self).forgotten(),
    {
        let search: bool = self.cancel();
        let replace: bool = self.cancel_replace();
        self.previous = None;
        self.list = None;
        (search, replace)
    }

    /// The library was loaded or rescanned: the next library change runs the query again even if
    /// no note was added or removed. A search still running read the files before, so its end
    /// records no narrowing.
    pub fn notes_reloaded(&mut self)
        ensures
            *final(self) == old(self).reloaded(),
    {
        self.previous = None;
        self.running = None;
        self.list = None;
    }

    /// Whether a library change arms the debounce timer to run the query again: a query that runs,
    /// over a note list that moved on since the last search.
    pub fn library_changed(&self, query: Option<&String>, notes: Option<&Vec<NoteEntry>>) -> (arm: bool)
        ensures
            arm == self.arms(
                match query {
                    Some(query) => Some(query@),
                    None => None,
                },
                match notes {
                    Some(notes) => Some(notes@),
                    None => None,
                },
            ),
    {
        match (query, notes) {
            (Some(query), Some(notes)) => searchable(query.as_str()) && self.list != Some(
                list_mark(notes),
            ),
            _ => false,
        }
    }

    /// Whether a replace may start: the field is open, a replace is possible, nothing else is
    /// going on, and the last one has ended.
    pub fn may_replace(&self, replace_open: bool, enabled: bool, busy: bool) -> (may: bool)
        ensures
            may == self.lets_replace(replace_open, enabled, busy),
    {
        replace_open && enabled && !busy && !self.replacing
    }

    /// Starts a replace; returns its generation.
    pub fn start_replace(&mut self) -> (generation: u64)
        ensures
            generation == next(old(self).replace_generation),
            *final(self) == old(self).replace_started(),
    {
        self.replace_generation = self.replace_generation.wrapping_add(1);
        self.replace_worker = true;
        self.replacing = true;
        self.replace_generation
    }

    /// A count arrived.
    pub fn replace_counted(&mut self, generation: u64, busy: bool) -> (step: CountStep)
        ensures
            (step, *final(self)) == old(self).counted(generation, busy),
    {
        if generation != self.replace_generation {
            return CountStep::Drop;
        }
        if busy {
            self.held = Some(generation);
            return CountStep::Hold;
        }
        CountStep::Ask
    }

    /// The retry timer: asks about a held count once nothing else is going on; until then the
    /// timer stays armed.
    pub fn replace_timer(&mut self, busy: bool) -> (step: TimerStep)
        ensures
            (step, *final(self)) == old(self).retried(busy),
    {
        if busy {
            return TimerStep::KeepArmed;
        }
        let held: Option<u64> = self.held;
        self.held = None;
        if held == Some(self.replace_generation) {
            TimerStep::Ask
        } else {
            TimerStep::Stop
        }
    }

    /// Ends the replace in hand: another may start.
    pub fn finish_replace(&mut self)
        ensures
            *final(self) == old(self).replace_finished(),
    {
        self.replacing = false;
        self.replace_worker = false;
    }

    /// The answer to the question came: a plan that is still current goes on, and a No ends the
    /// replace if it is. Returns whether to apply the plan.
    pub fn answered(&mut self, generation: u64, confirmed: bool) -> (apply: bool)
        ensures
            (apply, *final(self)) == old(self).after_answer(generation, confirmed),
    {
        if generation != self.replace_generation {
            return false;
        }
        if !confirmed {
            self.finish_replace();
        }
        confirmed
    }

    /// Stops a replace; returns whether its worker must be stopped. Whatever it posts is stale,
    /// and a held count is dropped.
    pub fn cancel_replace(&mut self) -> (stop: bool)
        ensures
            stop == old(self).replace_worker,
            *final(self) == old(self).replace_cancelled(),
    {
        let stop: bool = self.replace_worker;
        self.replace_worker = false;
        self.replace_generation = self.replace_generation.wrapping_add(1);
        self.replacing = false;
        self.held = None;
        stop
    }
}

/// A start or a cancel makes every batch posted before stale.
pub proof fn a_cancelled_search_is_stale(generation: u64)
    ensures
        next(generation) != generation,
{
}

#[derive(Clone, Copy, Debug, PartialEq, Eq, Structural)]
pub enum CountStep {
    /// A stale count: nothing happens.
    Drop,
    /// Hold the count and arm the retry timer.
    Hold,
    Ask,
}

#[derive(Clone, Copy, Debug, PartialEq, Eq, Structural)]
pub enum TimerStep {
    KeepArmed,
    Stop,
    Ask,
}

/// A narrowed search visits every note of the library that the previous search listed or skipped,
/// and no other; any other search visits them all.
pub proof fn narrowing_visits_exactly_what_was_found(
    notes: Seq<NoteEntry>,
    previous: Narrowing,
    index: int,
)
    requires
        0 <= index < notes.len() <= usize::MAX,
    ensures
        crate::select::picked(
            notes.len() as int,
            visits(notes, Some(crate::tree::open_keys(previous.paths@))),
        ).contains(index as usize) <==> crate::tree::open_keys(previous.paths@).contains(
            crate::tree::lowercased(notes[index].path@),
        ),
        crate::select::picked(notes.len() as int, visits(notes, None)).contains(index as usize),
{
    crate::select::picking_is_exact(
        notes.len() as int,
        visits(notes, Some(crate::tree::open_keys(previous.paths@))),
        index,
    );
    crate::select::picking_is_exact(notes.len() as int, visits(notes, None), index);
}

/// A query that contains an earlier one is found only where the earlier one is: what holds the
/// longer text holds the shorter.
pub proof fn a_longer_query_matches_less(text: Seq<char>, longer: Seq<char>, shorter: Seq<char>)
    requires
        holds(text, longer),
        holds(longer, shorter),
    ensures
        holds(text, shorter),
{
    let outer = choose|at: int| is_at(text, longer, at);
    let inner = choose|at: int| is_at(longer, shorter, at);
    assert(text.subrange(outer + inner, outer + inner + shorter.len()) =~= shorter) by {
        assert forall|i: int| 0 <= i < shorter.len() implies text[outer + inner + i] == shorter[i] by {
            assert(text.subrange(outer, outer + longer.len())[inner + i] == longer[inner + i]);
            assert(longer.subrange(inner, inner + shorter.len())[i] == shorter[i]);
        }
    }
    assert(is_at(text, shorter, outer + inner));
}

} // verus!
