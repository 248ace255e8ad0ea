//! Replacing what a search found: which notes a replace changes in their tabs, which it writes to
//! their files and which it leaves alone, and what it asks and reports.

use crate::document::Document;
use crate::paths::file_stem;
use crate::search_lines::{thousands, Stamp};
use crate::text::{has_text, join3};
use crate::tree::{expanded_key, lower_keys};
use vstd::prelude::*;
use vstd::string::*;

verus! {

/// The most note names a replace report lists before it only counts the rest.
pub const REPORT_NAMES: usize = 3;

/// What a count found: the matches, the notes that hold them, and those of the notes whose file
/// was read.
#[derive(Clone, Copy, Debug, PartialEq, Eq, Structural)]
pub struct ReplaceCount {
    pub matches: usize,
    pub notes: usize,
    pub closed_notes: usize,
}

/// A listed note a replace may change: its path relative to the notebook, its name for the
/// question and the report, and the stamp the search read (`None` when the hit came from a tab's
/// text).
#[derive(Debug, PartialEq, Eq)]
pub struct Candidate {
    pub path: String,
    pub name: String,
    pub stamp: Option<Stamp>,
}

/// A note to write: its path and the stamp its file must still have.
#[derive(Debug, PartialEq, Eq)]
pub struct ReplaceTarget {
    pub path: String,
    pub stamp: Stamp,
}

/// What writing the closed notes came to.
#[derive(Debug, PartialEq, Eq)]
pub struct ReplaceReport {
    pub matches: usize,
    pub written: Vec<String>,
    /// Changed since the search, and left as they are.
    pub changed: Vec<String>,
    pub failed: Vec<String>,
}

impl ReplaceReport {
    /// Takes the notes that were left alone before the writing began: they are reported as changed
    /// too, after those that the writing found changed.
    pub fn take_stale(&mut self, mut stale: Vec<String>)
        ensures
            final(self).changed@ == old(self).changed@ + stale@,
            *final(self) == (ReplaceReport { changed: final(self).changed, ..*old(self) }),
    {
        self.changed.append(&mut stale);
    }
}

/// The targets are what a count reads of the candidates.
pub open spec fn counts(
    candidates: Seq<Candidate>,
    unread: Stamp,
    targets: Seq<ReplaceTarget>,
) -> bool {
    &&& targets.len() == candidates.len()
    &&& forall|i: int|
        0 <= i < targets.len() ==> #[trigger] targets[i] == (ReplaceTarget {
            path: candidates[i].path,
            stamp: match candidates[i].stamp {
                Some(stamp) => stamp,
                None => unread,
            },
        })
}

/// What the count reads of the candidates: each one's path with the stamp the search read, or
/// `unread` where it read a tab's text.
pub fn count_targets(candidates: &Vec<Candidate>, unread: Stamp) -> (targets: Vec<ReplaceTarget>)
    ensures
        counts(candidates@, unread, targets@),
{
    let mut targets: Vec<ReplaceTarget> = Vec::new();
    let mut at: usize = 0;
    while at < candidates.len()
        invariant
            at <= candidates.len(),
            targets.len() == at,
            forall|i: int|
                0 <= i < at ==> #[trigger] targets@[i] == (ReplaceTarget {
                    path: candidates@[i].path,
                    stamp: match candidates@[i].stamp {
                        Some(stamp) => stamp,
                        None => unread,
                    },
                }),
        decreases candidates.len() - at,
    {
        let stamp: Stamp = match candidates[at].stamp {
            Some(stamp) => stamp,
            None => unread,
        };
        targets.push(ReplaceTarget { path: candidates[at].path.clone(), stamp });
        at = at + 1;
    }
    targets
}

/// Whether the document at `index` is a note's tab: `relative` holds the path of each document
/// relative to the notebook, for those inside it.
pub open spec fn is_note(relative: Seq<Option<String>>, index: int) -> bool {
    relative[index] is Some
}

/// The lower-case path of the note that the document at `index` shows.
pub open spec fn note_key(relative: Seq<Option<String>>, index: int) -> Seq<char> {
    crate::tree::lowercased(relative[index]->0@)
}

/// The tabs with unsaved changes to a note.
pub open spec fn dirty_note(documents: Seq<Document>, relative: Seq<Option<String>>) -> spec_fn(
    int,
) -> bool {
    |index: int| documents[index].dirty && is_note(relative, index)
}

/// The tabs whose unsaved text a search reads in place of the note's file. Clean and untitled tabs
/// are left out: the disk has their text, or they are no note.
pub fn dirty_notes(documents: &Vec<Document>, relative: &Vec<Option<String>>) -> (tabs: Vec<usize>)
    requires
        documents.len() == relative.len(),
    ensures
        tabs@ == crate::select::picked(documents.len() as int, dirty_note(documents@, relative@)),
{
    let mut tabs: Vec<usize> = Vec::new();
    let mut at: usize = 0;
    while at < documents.len()
        invariant
            documents.len() == relative.len(),
            at <= documents.len(),
            tabs@ == crate::select::picked(at as int, dirty_note(documents@, relative@)),
        decreases documents.len() - at,
    {
        if documents[at].dirty && relative[at].is_some() {
            tabs.push(at);
        }
        at = at + 1;
    }
    tabs
}

/// The last tab below `upto` that shows the note with this key.
pub open spec fn tab_on(relative: Seq<Option<String>>, key: Seq<char>, upto: int) -> Option<int>
    decreases upto,
{
    if upto <= 0 {
        None
    } else if is_note(relative, upto - 1) && note_key(relative, upto - 1) == key {
        Some(upto - 1)
    } else {
        tab_on(relative, key, upto - 1)
    }
}

/// The tab that shows the note with this path, ignoring case.
pub fn open_note(relative: &Vec<Option<String>>, path: &String) -> (tab: Option<usize>)
    ensures
        match tab {
            Some(tab) => tab_on(relative@, crate::tree::lowercased(path@), relative.len() as int)
                == Some(tab as int) && tab < relative.len(),
            None => tab_on(relative@, crate::tree::lowercased(path@), relative.len() as int)
                is None,
        },
{
    let key = expanded_key(path);
    let mut at: usize = relative.len();
    while at > 0
        invariant
            at <= relative.len(),
            key@ == crate::tree::lowercased(path@),
            tab_on(relative@, key@, relative.len() as int) == tab_on(relative@, key@, at as int),
        decreases at,
    {
        let here: bool = match &relative[at - 1] {
            Some(relative) => expanded_key(relative) == key,
            None => false,
        };
        if here {
            return Some(at - 1);
        }
        at = at - 1;
    }
    None
}

/// Whether the candidate at `index` is open in a tab.
pub open spec fn is_open(
    candidates: Seq<Candidate>,
    relative: Seq<Option<String>>,
) -> spec_fn(int) -> bool {
    |index: int|
        tab_on(
            relative,
            crate::tree::lowercased(candidates[index].path@),
            relative.len() as int,
        ) is Some
}

/// The candidates that a tab shows: the count reads its text instead of the file.
pub fn open_candidates(candidates: &Vec<Candidate>, relative: &Vec<Option<String>>) -> (open: Vec<
    usize,
>)
    ensures
        open@ == crate::select::picked(candidates.len() as int, is_open(candidates@, relative@)),
{
    let mut open: Vec<usize> = Vec::new();
    let mut at: usize = 0;
    while at < candidates.len()
        invariant
            at <= candidates.len(),
            open@ == crate::select::picked(at as int, is_open(candidates@, relative@)),
        decreases candidates.len() - at,
    {
        if open_note(relative, &candidates[at].path).is_some() {
            open.push(at);
        }
        at = at + 1;
    }
    open
}

/// The clean tabs on a note that was written.
pub open spec fn clean_on(
    documents: Seq<Document>,
    relative: Seq<Option<String>>,
    written: Seq<String>,
) -> spec_fn(int) -> bool {
    |index: int|
        !documents[index].dirty && is_note(relative, index) && crate::tree::open_keys(
            written,
        ).contains(note_key(relative, index))
}

/// The clean tabs that show one of the written notes: they are read again from their files. A
/// dirty one keeps its text.
pub fn clean_tabs_on(
    documents: &Vec<Document>,
    relative: &Vec<Option<String>>,
    written: &Vec<String>,
) -> (tabs: Vec<usize>)
    requires
        documents.len() == relative.len(),
    ensures
        tabs@ == crate::select::picked(
            documents.len() as int,
            clean_on(documents@, relative@, written@),
        ),
{
    let keys = lower_keys(written);
    let mut tabs: Vec<usize> = Vec::new();
    let mut at: usize = 0;
    while at < documents.len()
        invariant
            documents.len() == relative.len(),
            at <= documents.len(),
            crate::text::texts(keys@) == crate::tree::open_keys(written@),
            tabs@ == crate::select::picked(
                at as int,
                clean_on(documents@, relative@, written@),
            ),
        decreases documents.len() - at,
    {
        let here: bool = match &relative[at] {
            Some(relative) => has_text(&keys, &expanded_key(relative)),
            None => false,
        };
        if !documents[at].dirty && here {
            tabs.push(at);
        }
        at = at + 1;
    }
    tabs
}

/// What a replace does to one candidate.
#[derive(Clone, Copy, Debug, PartialEq, Eq, Structural)]
pub enum Route {
    /// Change the text in this tab's editor, as one undo action, and save nothing.
    Edit(usize),
    /// Write the note's file if it still has this stamp.
    Write(Stamp),
    /// Leave the note alone and report it as changed since the search.
    Stale,
}

/// Where a candidate goes. One that a tab shows is changed there. One whose tab closed since the
/// count read it is not written unless the question warned that notes are saved, nor is one that
/// was found in a tab's text only: its file was never read.
pub open spec fn routed(
    candidate: Candidate,
    relative: Seq<Option<String>>,
    counted_open: Seq<String>,
    warned: bool,
) -> Route {
    let key = crate::tree::lowercased(candidate.path@);
    match tab_on(relative, key, relative.len() as int) {
        Some(tab) => Route::Edit(tab as usize),
        None => if !warned && crate::tree::open_keys(counted_open).contains(key) {
            Route::Stale
        } else {
            match candidate.stamp {
                Some(stamp) => Route::Write(stamp),
                None => Route::Stale,
            }
        },
    }
}

/// Where a candidate goes, as the tabs are now. `warned` is whether the question said that notes
/// that aren't open are saved.
pub fn route(
    candidate: &Candidate,
    relative: &Vec<Option<String>>,
    counted_open: &Vec<String>,
    warned: bool,
) -> (route: Route)
    ensures
        route == routed(*candidate, relative@, counted_open@, warned),
{
    match open_note(relative, &candidate.path) {
        Some(tab) => Route::Edit(tab),
        None => if !warned && has_text(&lower_keys(counted_open), &expanded_key(&candidate.path)) {
            Route::Stale
        } else {
            match candidate.stamp {
                Some(stamp) => Route::Write(stamp),
                None => Route::Stale,
            }
        },
    }
}

/// What a plan has come to so far.
#[derive(Debug)]
pub struct Applied {
    pub tab_matches: usize,
    pub tab_notes: usize,
    pub closed: Vec<ReplaceTarget>,
    pub stale: Vec<String>,
}

/// What taking one candidate does: matches in a tab are counted, and the note too where there were
/// any, a note to write joins those to write with its stamp, and one that is left alone joins those
/// reported as changed.
pub open spec fn took(
    before: Applied,
    after: Applied,
    candidate: Candidate,
    route: Route,
    replaced: Option<usize>,
) -> bool {
    match (route, replaced) {
        (Route::Edit(_), Some(count)) => after == (Applied {
            tab_matches: (before.tab_matches + count) as usize,
            tab_notes: (before.tab_notes + if count > 0 {
                1int
            } else {
                0int
            }) as usize,
            ..before
        }),
        (Route::Edit(_), None) | (Route::Stale, _) => {
            &&& after.stale@ == before.stale@.push(candidate.path)
            &&& after == (Applied { stale: after.stale, ..before })
        },
        (Route::Write(stamp), _) => {
            &&& after.closed@ == before.closed@.push(
                (ReplaceTarget { path: candidate.path, stamp }),
            )
            &&& after == (Applied { closed: after.closed, ..before })
        },
    }
}

/// What is reported at once where nothing is to be written.
pub open spec fn unwritten(applied: Applied, report: Option<ReplaceReport>) -> bool {
    match report {
        Some(report) => applied.closed.len() == 0 && report.matches == 0 && report.written@
            == Seq::<String>::empty() && report.changed == applied.stale && report.failed@
            == Seq::<String>::empty(),
        None => applied.closed.len() > 0,
    }
}

impl Applied {
    pub fn new() -> (applied: Self)
        ensures
            applied.tab_matches == 0,
            applied.tab_notes == 0,
            applied.closed@ == Seq::<ReplaceTarget>::empty(),
            applied.stale@ == Seq::<String>::empty(),
    {
        Applied { tab_matches: 0, tab_notes: 0, closed: Vec::new(), stale: Vec::new() }
    }

    /// Takes one candidate: `replaced` is how many matches the editor replaced where the route is
    /// a tab, `None` if its text could not be reached.
    pub fn take(&mut self, candidate: Candidate, route: Route, replaced: Option<usize>)
        requires
            route is Edit ==> (replaced matches Some(count) ==> old(self).tab_matches + count
                <= usize::MAX) && old(self).tab_notes < usize::MAX,
        ensures
            took(*old(self), *final(self), candidate, route, replaced),
    {
        match route {
            Route::Edit(_) => match replaced {
                Some(count) => {
                    if count > 0 {
                        self.tab_matches = self.tab_matches + count;
                        self.tab_notes = self.tab_notes + 1;
                    }
                },
                None => {
                    self.stale.push(candidate.path);
                },
            },
            Route::Stale => {
                self.stale.push(candidate.path);
            },
            Route::Write(stamp) => {
                self.closed.push(ReplaceTarget { path: candidate.path, stamp });
            },
        }
    }

    /// Where nothing is to be written, what is reported at once.
    pub fn without_writing(self) -> (report: Option<ReplaceReport>)
        ensures
            unwritten(self, report),
    {
        if self.closed.len() == 0 {
            Some(
                ReplaceReport {
                    matches: 0,
                    written: Vec::new(),
                    changed: self.stale,
                    failed: Vec::new(),
                },
            )
        } else {
            None
        }
    }
}

/// A file is written only where the search read it, it is open in no tab, and the question warned
/// of it or the count read the file and not a tab.
pub proof fn only_read_and_closed_notes_are_written(
    candidate: Candidate,
    relative: Seq<Option<String>>,
    counted_open: Seq<String>,
    warned: bool,
)
    requires
        routed(candidate, relative, counted_open, warned) is Write,
    ensures
        candidate.stamp == Some(routed(candidate, relative, counted_open, warned)->Write_0),
        forall|i: int|
            0 <= i < relative.len() && is_note(relative, i) ==> #[trigger] note_key(relative, i)
                != crate::tree::lowercased(candidate.path@),
        warned || !crate::tree::open_keys(counted_open).contains(
            crate::tree::lowercased(candidate.path@),
        ),
{
    no_tab_shows_it(relative, crate::tree::lowercased(candidate.path@), relative.len() as int);
}

proof fn no_tab_shows_it(relative: Seq<Option<String>>, key: Seq<char>, upto: int)
    requires
        tab_on(relative, key, upto) is None,
        upto <= relative.len(),
    ensures
        forall|i: int|
            0 <= i < upto && is_note(relative, i) ==> #[trigger] note_key(relative, i) != key,
    decreases upto,
{
    if upto > 0 {
        no_tab_shows_it(relative, key, upto - 1);
    }
}

/// A note's name as the results show it: the file name without its extension.
pub fn note_name(path: &String) -> (name: String)
    ensures
        name@ == crate::paths::stem_of(path@),
{
    file_stem(path.as_str())
}

/// A count and what it counts.
pub open spec fn amount(count: nat, one: Seq<char>, many: Seq<char>) -> Seq<char> {
    if count == 1 {
        "1 "@ + one
    } else {
        crate::search_lines::grouped(count) + " "@ + many
    }
}

pub fn count_of(count: usize, one: &str, many: &str) -> (text: String)
    ensures
        text@ == amount(count as nat, one@, many@),
{
    if count == 1 {
        crate::text::join2("1 ", one)
    } else {
        join3(thousands(count).as_str(), " ", many)
    }
}

/// The warning that closed notes are written, where any is.
pub open spec fn warning(closed_notes: nat) -> Seq<char> {
    if closed_notes > 0 {
        "\nNotes that aren't open are saved and can't be undone."@
    } else {
        Seq::empty()
    }
}

/// The question before every listed note is changed.
pub open spec fn question(
    count: ReplaceCount,
    listed: nat,
    capped: bool,
    template: Seq<char>,
) -> Seq<char> {
    let matches = amount(count.matches as nat, "match"@, "matches"@);
    let asked = if capped {
        "Replace "@ + matches + " in the "@ + crate::search_lines::grouped(listed)
            + " listed notes with \""@ + template
            + "\"? More notes match; search again to replace in the rest."@
    } else {
        "Replace "@ + matches + " in "@ + amount(count.notes as nat, "note"@, "notes"@)
            + " with \""@ + template + "\"?"@
    };
    asked + warning(count.closed_notes as nat)
}

/// Replace all's question. `listed` is how many notes the results list; a capped search names them
/// instead of the notes that matched. The second line, that notes are saved, comes only when the
/// count read a match from a note's file.
pub fn confirm_text(count: ReplaceCount, listed: usize, capped: bool, template: &str) -> (text:
    String)
    ensures
        text@ == question(count, listed as nat, capped, template@),
{
    let matches = count_of(count.matches, "match", "matches");
    let mut text = join3("Replace ", matches.as_str(), if capped { " in the " } else { " in " });
    if capped {
        text.append(thousands(listed).as_str());
        text.append(" listed notes with \"");
        text.append(template);
        text.append("\"? More notes match; search again to replace in the rest.");
    } else {
        text.append(count_of(count.notes, "note", "notes").as_str());
        text.append(" with \"");
        text.append(template);
        text.append("\"?");
    }
    if count.closed_notes > 0 {
        text.append("\nNotes that aren't open are saved and can't be undone.");
    }
    assert(text@ =~= question(count, listed as nat, capped, template@));
    text
}

/// The question before one closed note is changed.
pub open spec fn row_question(matches: nat, name: Seq<char>, template: Seq<char>) -> Seq<char> {
    "Replace "@ + amount(matches, "match"@, "matches"@) + " in \""@ + name + "\" with \""@
        + template + "\"? The note is saved and this can't be undone."@
}

/// A row's question, asked only for a note that isn't open.
pub fn row_confirm_text(matches: usize, name: &str, template: &str) -> (text: String)
    ensures
        text@ == row_question(matches as nat, name@, template@),
{
    let mut text = join3("Replace ", count_of(matches, "match", "matches").as_str(), " in \"");
    text.append(name);
    text.append("\" with \"");
    text.append(template);
    text.append("\"? The note is saved and this can't be undone.");
    text
}

/// What follows a count.
#[derive(Debug, PartialEq, Eq)]
pub enum Decision {
    /// Nothing matches any more: end the replace and run the query again.
    Refresh,
    /// Ask first.
    Ask(String),
    /// Apply without asking.
    Apply,
}

/// What follows a count, for each decision.
pub open spec fn decided(
    count: ReplaceCount,
    candidates: Seq<Candidate>,
    capped: bool,
    single: bool,
    template: Seq<char>,
    decision: Decision,
) -> bool {
    match decision {
        Decision::Refresh => count.matches == 0,
        Decision::Ask(text) => count.matches > 0 && (single ==> count.closed_notes > 0) && text@
            == (if single {
            row_question(
                count.matches as nat,
                if candidates.len() > 0 {
                    candidates[0].name@
                } else {
                    Seq::empty()
                },
                template,
            )
        } else {
            question(count, candidates.len(), capped, template)
        }),
        Decision::Apply => count.matches > 0 && single && count.closed_notes == 0,
    }
}

/// What follows a count: nothing matched, a question, or (for one open note) the change at once.
pub fn decide(
    count: ReplaceCount,
    candidates: &Vec<Candidate>,
    capped: bool,
    single: bool,
    template: &str,
) -> (decision: Decision)
    ensures
        decided(count, candidates@, capped, single, template@, decision),
{
    if count.matches == 0 {
        return Decision::Refresh;
    }
    if single {
        if count.closed_notes == 0 {
            return Decision::Apply;
        }
        if candidates.len() > 0 {
            Decision::Ask(row_confirm_text(count.matches, candidates[0].name.as_str(), template))
        } else {
            let name = String::new();
            Decision::Ask(row_confirm_text(count.matches, name.as_str(), template))
        }
    } else {
        Decision::Ask(confirm_text(count, candidates.len(), capped, template))
    }
}

/// The texts, with a comma and a space between them.
pub open spec fn comma_list(names: Seq<Seq<char>>) -> Seq<char>
    decreases names.len(),
{
    if names.len() == 0 {
        Seq::empty()
    } else if names.len() == 1 {
        names[0]
    } else {
        comma_list(names.drop_last()) + ", "@ + names.last()
    }
}

/// The notes that were skipped because they changed.
pub open spec fn skipped_part(count: nat) -> Seq<char> {
    if count == 0 {
        Seq::empty()
    } else if count == 1 {
        " 1 note was skipped because it changed since the search."@
    } else {
        " "@ + crate::search_lines::grouped(count)
            + " notes were skipped because they changed since the search."@
    }
}

/// The notes that could not be written.
pub open spec fn failed_part(count: nat) -> Seq<char> {
    if count == 0 {
        Seq::empty()
    } else if count == 1 {
        " 1 note couldn't be written."@
    } else {
        " "@ + crate::search_lines::grouped(count) + " notes couldn't be written."@
    }
}

/// The first names of the notes that were left, and how many more there are.
pub open spec fn names_part(names: Seq<Seq<char>>) -> Seq<char> {
    if names.len() == 0 {
        Seq::empty()
    } else if names.len() <= REPORT_NAMES {
        " ("@ + comma_list(names) + ")"@
    } else {
        " ("@ + comma_list(names.take(REPORT_NAMES as int)) + ", and "@
            + crate::search_lines::grouped((names.len() - REPORT_NAMES) as nat) + " more)"@
    }
}

/// The report: what was replaced, what was skipped and what couldn't be written, then the names.
pub open spec fn reported(
    matches: nat,
    notes: nat,
    changed: Seq<Seq<char>>,
    failed: Seq<Seq<char>>,
) -> Seq<char> {
    "Replaced "@ + amount(matches, "match"@, "matches"@) + " in "@ + amount(
        notes,
        "note"@,
        "notes"@,
    ) + "."@ + skipped_part(changed.len()) + failed_part(failed.len()) + names_part(
        changed + failed,
    )
}

fn skipped_text(count: usize) -> (text: String)
    ensures
        text@ == skipped_part(count as nat),
{
    if count == 0 {
        String::new()
    } else if count == 1 {
        " 1 note was skipped because it changed since the search.".to_owned()
    } else {
        join3(
            " ",
            thousands(count).as_str(),
            " notes were skipped because they changed since the search.",
        )
    }
}

fn failed_text(count: usize) -> (text: String)
    ensures
        text@ == failed_part(count as nat),
{
    if count == 0 {
        String::new()
    } else if count == 1 {
        " 1 note couldn't be written.".to_owned()
    } else {
        join3(" ", thousands(count).as_str(), " notes couldn't be written.")
    }
}

/// The first `shown` of the names, with a comma and a space between them.
fn first_names(changed: &Vec<String>, failed: &Vec<String>, shown: usize) -> (names: String)
    requires
        shown <= changed.len() + failed.len(),
    ensures
        names@ == comma_list(
            (crate::text::texts(changed@) + crate::text::texts(failed@)).take(shown as int),
        ),
{
    let ghost all = crate::text::texts(changed@) + crate::text::texts(failed@);
    let mut names = String::new();
    let mut at: usize = 0;
    while at < shown
        invariant
            at <= shown <= changed.len() + failed.len(),
            all == crate::text::texts(changed@) + crate::text::texts(failed@),
            names@ == comma_list(all.take(at as int)),
        decreases shown - at,
    {
        if at > 0 {
            names.append(", ");
        }
        if at < changed.len() {
            names.append(changed[at].as_str());
        } else {
            names.append(failed[at - changed.len()].as_str());
        }
        at = at + 1;
        proof {
            let now = all.take(at as int);
            assert(now.drop_last() =~= all.take(at - 1));
            if at == 1 {
                assert(names@ =~= comma_list(now));
            }
        }
    }
    names
}

fn names_text(changed: &Vec<String>, failed: &Vec<String>) -> (text: String)
    requires
        changed.len() + failed.len() <= usize::MAX,
    ensures
        text@ == names_part(crate::text::texts(changed@) + crate::text::texts(failed@)),
{
    let total: usize = changed.len() + failed.len();
    let ghost all = crate::text::texts(changed@) + crate::text::texts(failed@);
    if total == 0 {
        String::new()
    } else if total <= REPORT_NAMES {
        assert(all.take(total as int) =~= all);
        join3(" (", first_names(changed, failed, total).as_str(), ")")
    } else {
        let mut text = join3(" (", first_names(changed, failed, REPORT_NAMES).as_str(), ", and ");
        text.append(thousands(total - REPORT_NAMES).as_str());
        text.append(" more)");
        text
    }
}

/// The report notification, on one line: what was replaced, what was skipped and what couldn't be
/// written, then the skipped and failed notes' names in brackets, at most `REPORT_NAMES`, then
/// how many more there are.
pub fn report_text(matches: usize, notes: usize, changed: &Vec<String>, failed: &Vec<String>) -> (text:
    String)
    requires
        changed.len() + failed.len() <= usize::MAX,
    ensures
        text@ == reported(
            matches as nat,
            notes as nat,
            crate::text::texts(changed@),
            crate::text::texts(failed@),
        ),
{
    let mut text = join3(
        "Replaced ",
        count_of(matches, "match", "matches").as_str(),
        " in ",
    );
    text.append(count_of(notes, "note", "notes").as_str());
    text.append(".");
    text.append(skipped_text(changed.len()).as_str());
    text.append(failed_text(failed.len()).as_str());
    text.append(names_text(changed, failed).as_str());
    text
}

/// The names of the notes at `paths`.
pub open spec fn names_of(paths: Seq<String>) -> Seq<Seq<char>> {
    paths.map_values(|path: String| crate::paths::stem_of(path@))
}

fn note_names(paths: &Vec<String>) -> (names: Vec<String>)
    ensures
        crate::text::texts(names@) == names_of(paths@),
        names.len() == paths.len(),
{
    let mut names: Vec<String> = Vec::new();
    let mut at: usize = 0;
    while at < paths.len()
        invariant
            at <= paths.len(),
            names.len() == at,
            crate::text::texts(names@) == names_of(paths@).take(at as int),
        decreases paths.len() - at,
    {
        let ghost before = names@;
        let name = note_name(&paths[at]);
        names.push(name);
        at = at + 1;
        assert(crate::text::texts(names@) == crate::text::texts(before).push(name@));
        assert(names_of(paths@).take(at as int) == names_of(paths@).take(at - 1).push(name@));
    }
    assert(names_of(paths@).take(at as int) == names_of(paths@));
    names
}

/// What the end of a replace reports: the closed notes' report and what the open tabs took.
pub fn end_report(report: &ReplaceReport, tab_matches: usize, tab_notes: usize) -> (text: String)
    requires
        tab_matches + report.matches <= usize::MAX,
        tab_notes + report.written.len() <= usize::MAX,
        report.changed.len() + report.failed.len() <= usize::MAX,
    ensures
        text@ == reported(
            (tab_matches + report.matches) as nat,
            (tab_notes + report.written.len()) as nat,
            names_of(report.changed@),
            names_of(report.failed@),
        ),
{
    let changed = note_names(&report.changed);
    let failed = note_names(&report.failed);
    report_text(
        tab_matches + report.matches,
        tab_notes + report.written.len(),
        &changed,
        &failed,
    )
}

/// The candidates a row's button replaces in: those with the row's path, ignoring case.
pub open spec fn on_path(candidates: Seq<Candidate>, path: Seq<char>) -> spec_fn(int) -> bool {
    |index: int|
        crate::tree::lowercased(candidates[index].path@) == crate::tree::lowercased(path)
}

pub fn candidates_on(candidates: &Vec<Candidate>, path: &String) -> (chosen: Vec<usize>)
    ensures
        chosen@ == crate::select::picked(candidates.len() as int, on_path(candidates@, path@)),
{
    let key = expanded_key(path);
    let mut chosen: Vec<usize> = Vec::new();
    let mut at: usize = 0;
    while at < candidates.len()
        invariant
            at <= candidates.len(),
            key@ == crate::tree::lowercased(path@),
            chosen@ == crate::select::picked(at as int, on_path(candidates@, path@)),
        decreases candidates.len() - at,
    {
        if expanded_key(&candidates[at].path) == key {
            chosen.push(at);
        }
        at = at + 1;
    }
    chosen
}

} // verus!
