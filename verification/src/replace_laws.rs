//! What a replace does to a note, whichever tabs are open: what it edits, what it writes, what it
//! asks first and what it reports.

use crate::document::Document;
use crate::search_lines::Stamp;
use crate::text_replace::{
    Applied, Candidate, Decision, ReplaceCount, ReplaceReport, ReplaceTarget, Route, REPORT_NAMES,
};
use vstd::prelude::*;

verus! {

/// The tab at `tab` shows the note with this path, whatever the case of either.
pub open spec fn shows_note(relative: Seq<Option<String>>, tab: int, path: Seq<char>) -> bool {
    &&& 0 <= tab < relative.len()
    &&& relative[tab] matches Some(shown)
    &&& crate::tree::lowercased(shown@) == crate::tree::lowercased(path)
}

/// One of the paths is this one, whatever the case of either.
pub open spec fn names_note(paths: Seq<String>, path: Seq<char>) -> bool {
    exists|i: int|
        0 <= i < paths.len() && crate::tree::lowercased((#[trigger] paths[i])@)
            == crate::tree::lowercased(path)
}

proof fn the_last_tab_is_found(relative: Seq<Option<String>>, path: Seq<char>, upto: int)
    requires
        0 <= upto <= relative.len(),
    ensures
        match crate::text_replace::tab_on(relative, crate::tree::lowercased(path), upto) {
            Some(tab) => tab < upto && shows_note(relative, tab, path) && forall|i: int|
                tab < i < upto ==> !#[trigger] shows_note(relative, i, path),
            None => forall|i: int| 0 <= i < upto ==> !#[trigger] shows_note(relative, i, path),
        },
    decreases upto,
{
    if upto > 0 {
        the_last_tab_is_found(relative, path, upto - 1);
    }
}

proof fn keys_are_the_paths(paths: Seq<String>, path: Seq<char>)
    ensures
        crate::tree::open_keys(paths).contains(crate::tree::lowercased(path)) <==> names_note(
            paths,
            path,
        ),
{
    let (keys, key) = (crate::tree::open_keys(paths), crate::tree::lowercased(path));
    if keys.contains(key) {
        let i = choose|i: int| 0 <= i < keys.len() && keys[i] == key;
        assert(crate::tree::lowercased(paths[i]@) == key);
    }
    if names_note(paths, path) {
        let i = choose|i: int|
            0 <= i < paths.len() && crate::tree::lowercased((#[trigger] paths[i])@) == key;
        assert(keys[i] == key);
    }
}

/// A note that no tab shows and whose file the search read is written, with the stamp that was
/// read, wherever the question warned of it and wherever the count did not read it from a tab.
pub proof fn a_closed_note_is_written(
    candidate: Candidate,
    relative: Seq<Option<String>>,
    counted_open: Seq<String>,
    warned: bool,
    stamp: Stamp,
)
    requires
        forall|i: int| !#[trigger] shows_note(relative, i, candidate.path@),
        candidate.stamp == Some(stamp),
        warned || !names_note(counted_open, candidate.path@),
    ensures
        crate::text_replace::routed(candidate, relative, counted_open, warned) == Route::Write(
            stamp,
        ),
{
    the_last_tab_is_found(relative, candidate.path@, relative.len() as int);
    keys_are_the_paths(counted_open, candidate.path@);
}

/// A note that a tab shows is changed there and never written, and where several tabs show it, in
/// the last of them.
pub proof fn an_open_note_is_edited(
    candidate: Candidate,
    relative: Seq<Option<String>>,
    counted_open: Seq<String>,
    warned: bool,
    tab: int,
)
    requires
        shows_note(relative, tab, candidate.path@),
        relative.len() <= usize::MAX,
    ensures
        ({
            let route = crate::text_replace::routed(candidate, relative, counted_open, warned);
            &&& route is Edit
            &&& shows_note(relative, route->Edit_0 as int, candidate.path@)
            &&& tab <= route->Edit_0
        }),
{
    the_last_tab_is_found(relative, candidate.path@, relative.len() as int);
}

/// A note is left alone exactly where no tab shows it and its file may not be written: the search
/// never read it, or the count read it from a tab that has since closed and the question did not
/// warn that notes are saved.
pub proof fn a_note_is_left_alone_exactly_where_it_may_not_be_written(
    candidate: Candidate,
    relative: Seq<Option<String>>,
    counted_open: Seq<String>,
    warned: bool,
)
    ensures
        crate::text_replace::routed(candidate, relative, counted_open, warned) == Route::Stale
            <==> (forall|i: int| !#[trigger] shows_note(relative, i, candidate.path@)) && (
        candidate.stamp is None || (!warned && names_note(counted_open, candidate.path@))),
{
    the_last_tab_is_found(relative, candidate.path@, relative.len() as int);
    keys_are_the_paths(counted_open, candidate.path@);
}

/// The candidates whose text the count reads from a tab are those that a tab shows.
pub proof fn the_count_reads_the_tabs(
    candidates: Seq<Candidate>,
    relative: Seq<Option<String>>,
    index: usize,
)
    requires
        candidates.len() <= usize::MAX,
        index < candidates.len(),
    ensures
        crate::select::picked(
            candidates.len() as int,
            crate::text_replace::is_open(candidates, relative),
        ).contains(index) <==> exists|tab: int|
            #[trigger] shows_note(relative, tab, candidates[index as int].path@),
{
    let keep = crate::text_replace::is_open(candidates, relative);
    crate::select::picking_is_exact(candidates.len() as int, keep, index as int);
    the_last_tab_is_found(relative, candidates[index as int].path@, relative.len() as int);
}

/// A search reads a tab's text in place of the file exactly where the tab is a note's and has
/// unsaved changes; after a replace a tab is read again exactly where it has none and its note was
/// written.
pub proof fn unsaved_text_is_read_and_kept(
    documents: Seq<Document>,
    relative: Seq<Option<String>>,
    written: Seq<String>,
    index: usize,
)
    requires
        documents.len() == relative.len() <= usize::MAX,
        index < documents.len(),
    ensures
        ({
            let read = crate::select::picked(
                documents.len() as int,
                crate::text_replace::dirty_note(documents, relative),
            );
            let again = crate::select::picked(
                documents.len() as int,
                crate::text_replace::clean_on(documents, relative, written),
            );
            &&& read.contains(index) <==> documents[index as int].dirty && relative[index as int]
                is Some
            &&& again.contains(index) <==> !documents[index as int].dirty && relative[index as int]
                is Some && names_note(written, relative[index as int]->0@)
        }),
{
    crate::select::picking_is_exact(
        documents.len() as int,
        crate::text_replace::dirty_note(documents, relative),
        index as int,
    );
    crate::select::picking_is_exact(
        documents.len() as int,
        crate::text_replace::clean_on(documents, relative, written),
        index as int,
    );
    if relative[index as int] is Some {
        keys_are_the_paths(written, relative[index as int]->0@);
    }
}

/// A row's button replaces in the candidates with the row's path, whatever its case, and no other.
pub proof fn a_row_replaces_in_its_own_note(
    candidates: Seq<Candidate>,
    path: Seq<char>,
    index: usize,
)
    requires
        candidates.len() <= usize::MAX,
        index < candidates.len(),
    ensures
        crate::select::picked(
            candidates.len() as int,
            crate::text_replace::on_path(candidates, path),
        ).contains(index) <==> crate::tree::lowercased(candidates[index as int].path@)
            == crate::tree::lowercased(path),
{
    crate::select::picking_is_exact(
        candidates.len() as int,
        crate::text_replace::on_path(candidates, path),
        index as int,
    );
}

/// Every candidate is accounted for in one place: its matches are counted, or it is written, or it
/// is reported as left alone. What was there before stays, and only a tab's replacements count.
pub proof fn each_candidate_is_accounted_for_once(
    before: Applied,
    after: Applied,
    candidate: Candidate,
    route: Route,
    replaced: Option<usize>,
)
    requires
        crate::text_replace::took(before, after, candidate, route, replaced),
        route is Edit && replaced is Some ==> before.tab_matches + replaced->0 <= usize::MAX
            && before.tab_notes < usize::MAX,
    ensures
        before.closed@.is_prefix_of(after.closed@),
        before.stale@.is_prefix_of(after.stale@),
        (after.closed.len() - before.closed.len()) + (after.stale.len() - before.stale.len()) == (
        if route is Edit && replaced is Some {
            0int
        } else {
            1int
        }),
        route matches Route::Write(stamp) ==> after.closed.len() == before.closed.len() + 1
            && after.closed@.last().path == candidate.path && after.closed@.last().stamp == stamp,
        after.stale.len() > before.stale.len() ==> after.stale@.last() == candidate.path,
        after.tab_matches - before.tab_matches == (if route is Edit && replaced is Some {
            replaced->0 as int
        } else {
            0
        }),
        after.tab_notes - before.tab_notes == (if after.tab_matches > before.tab_matches {
            1int
        } else {
            0int
        }),
{
}

/// What follows a count: nothing where nothing matches any more; the change at once only for one
/// note that is open; in every other case a question first, which ends in the warning that notes
/// are saved exactly where the file of one would be.
pub proof fn closed_notes_are_asked_for(
    count: ReplaceCount,
    candidates: Seq<Candidate>,
    capped: bool,
    single: bool,
    template: Seq<char>,
    decision: Decision,
)
    requires
        crate::text_replace::decided(count, candidates, capped, single, template, decision),
    ensures
        decision is Refresh <==> count.matches == 0,
        decision is Apply <==> count.matches > 0 && single && count.closed_notes == 0,
        decision is Ask <==> count.matches > 0 && !(single && count.closed_notes == 0),
        decision matches Decision::Ask(text) ==> {
            &&& "Replace "@.is_prefix_of(text@)
            &&& single ==> "The note is saved and this can't be undone."@.is_suffix_of(text@)
            &&& !single && count.closed_notes > 0
                ==> "\nNotes that aren't open are saved and can't be undone."@.is_suffix_of(text@)
            &&& !single && count.closed_notes == 0 && !capped ==> (template
                + "\"?"@).is_suffix_of(text@)
            &&& !single && count.closed_notes == 0 && capped
                ==> "search again to replace in the rest."@.is_suffix_of(text@)
        },
{
    reveal_strlit("\"? The note is saved and this can't be undone.");
    reveal_strlit("The note is saved and this can't be undone.");
    reveal_strlit("\"? More notes match; search again to replace in the rest.");
    reveal_strlit("search again to replace in the rest.");
}

/// A report names the notes that were left, those that changed before those that failed, the first
/// few and then how many more; where none was left it ends after the counts.
#[verifier::rlimit(80)]
#[verifier::spinoff_prover]
pub proof fn a_report_names_what_was_left(
    matches: nat,
    notes: nat,
    changed: Seq<Seq<char>>,
    failed: Seq<Seq<char>>,
)
    ensures
        ({
            let report = crate::text_replace::reported(matches, notes, changed, failed);
            let left = changed + failed;
            &&& "Replaced "@.is_prefix_of(report)
            &&& left.len() == 0 ==> "."@.is_suffix_of(report)
            &&& left.len() == 1 ==> (" ("@ + left[0] + ")"@).is_suffix_of(report)
            &&& left.len() == 2 ==> (" ("@ + left[0] + ", "@ + left[1] + ")"@).is_suffix_of(report)
            &&& left.len() == 3 ==> (" ("@ + left[0] + ", "@ + left[1] + ", "@ + left[2]
                + ")"@).is_suffix_of(report)
            &&& left.len() > 3 ==> (", "@ + left[2] + ", and "@ + crate::search_lines::grouped(
                (left.len() - 3) as nat,
            ) + " more)"@).is_suffix_of(report)
        }),
{
    let report = crate::text_replace::reported(matches, notes, changed, failed);
    let left = changed + failed;
    reveal_with_fuel(crate::text_replace::comma_list, 4);
    let shown = if left.len() <= 3 {
        left
    } else {
        left.take(REPORT_NAMES as int)
    };
    if shown.len() >= 2 {
        assert(shown.drop_last().last() == shown[shown.len() - 2]);
    }
    if left.len() == 3 {
        assert(left.drop_last().drop_last()[0] == left[0]);
    }
    if left.len() == 0 {
        assert(report =~= report.take(report.len() - 1) + "."@) by {
            reveal_strlit(".");
        }
    }
}

/// A replace with nothing to write is reported at once, and one with something to write is not:
/// nothing was written or failed, and every note that was left alone is told of.
pub proof fn a_replace_that_writes_nothing_says_so(applied: Applied, report: Option<ReplaceReport>)
    requires
        crate::text_replace::unwritten(applied, report),
    ensures
        report is Some <==> applied.closed@.len() == 0,
        report matches Some(report) ==> {
            &&& report.matches == 0
            &&& report.written@.len() == 0 && report.failed@.len() == 0
            &&& report.changed@ == applied.stale@
        },
{
}

/// A count reads each candidate once, in the order they are listed, by its own path and against its
/// own stamp; one whose stamp is not known is read against the stamp that no file has.
pub proof fn a_count_reads_each_candidate(
    candidates: Seq<Candidate>,
    unread: Stamp,
    targets: Seq<ReplaceTarget>,
    i: int,
)
    requires
        crate::text_replace::counts(candidates, unread, targets),
        0 <= i < candidates.len(),
    ensures
        targets.len() == candidates.len(),
        targets[i].path == candidates[i].path,
        candidates[i].stamp is Some ==> Some(targets[i].stamp) == candidates[i].stamp,
        candidates[i].stamp is None ==> targets[i].stamp == unread,
{
}

/// A question says how much is replaced, where and with what: for one note the note's name and then
/// the text that takes the place of its matches; for more how many notes, or that those listed are
/// not all.
#[verifier::rlimit(40)]
pub proof fn a_question_says_what_is_replaced(
    count: ReplaceCount,
    candidates: Seq<Candidate>,
    capped: bool,
    single: bool,
    template: Seq<char>,
    decision: Decision,
)
    requires
        crate::text_replace::decided(count, candidates, capped, single, template, decision),
    ensures
        decision matches Decision::Ask(text) ==> {
            let matches = if count.matches == 1 {
                "1 match"@
            } else {
                crate::search_lines::grouped(count.matches as nat) + " matches"@
            };
            let notes = if count.notes == 1 {
                "1 note"@
            } else {
                crate::search_lines::grouped(count.notes as nat) + " notes"@
            };
            let with = " with \""@ + template + "\"?"@;
            &&& single && candidates.len() > 0 ==> ("Replace "@ + matches + " in \""@
                + candidates[0].name@ + "\""@ + with).is_prefix_of(text@)
            &&& !single && !capped ==> ("Replace "@ + matches + " in "@ + notes
                + with).is_prefix_of(text@)
            &&& !single && capped ==> ("Replace "@ + matches + " in the "@
                + crate::search_lines::grouped(candidates.len()) + " listed notes"@
                + with).is_prefix_of(text@)
        },
{
    reveal_strlit("1 ");
    reveal_strlit(" ");
    reveal_strlit("match");
    reveal_strlit("matches");
    reveal_strlit("1 match");
    reveal_strlit(" matches");
    reveal_strlit("note");
    reveal_strlit("notes");
    reveal_strlit("1 note");
    reveal_strlit(" notes");
    reveal_strlit("\"");
    reveal_strlit("\"?");
    reveal_strlit(" with \"");
    reveal_strlit("\" with \"");
    reveal_strlit(" listed notes");
    reveal_strlit(" listed notes with \"");
    reveal_strlit("\"? The note is saved and this can't be undone.");
    reveal_strlit("\"? More notes match; search again to replace in the rest.");
    let grouped = crate::search_lines::grouped(count.matches as nat);
    let notes = crate::search_lines::grouped(count.notes as nat);
    assert("1 "@ + "match"@ =~= "1 match"@);
    assert("1 "@ + "note"@ =~= "1 note"@);
    assert(grouped + " "@ + "matches"@ =~= grouped + " matches"@);
    assert(notes + " "@ + "notes"@ =~= notes + " notes"@);
}

} // verus!
