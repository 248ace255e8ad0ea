//! What the text search and the replace keep from one call to the next: which notes a search
//! visits, whose batches count, and how one replace at a time comes from its start to its end.

use crate::option_toggles::MatchOptions;
use crate::replace_laws::names_note;
use crate::text_search::{
    CountStep, Narrowing, NoteEntry, Overlay, RunEnd, RunStep, TextSearchHost, TimerStep,
};
use vstd::prelude::*;

verus! {

/// The last search that completed answers for this one: it read the same notes and the same tab
/// texts with the same options, neither of them a pattern or a whole word, and its query occurs in
/// the new one.
pub open spec fn answers_for(
    previous: Option<Narrowing>,
    query: Seq<char>,
    options: MatchOptions,
    notes: Seq<NoteEntry>,
    overlays: Seq<Overlay>,
) -> bool {
    &&& previous matches Some(last)
    &&& last.notes == crate::text_search::mark_of(notes, true)
    &&& last.overlays == crate::text_search::overlays_mark(overlays)
    &&& last.options == options
    &&& !options.regex
    &&& !options.whole_word
    &&& exists|at: int|
        0 <= at && at + last.query@.len() <= query.len() && #[trigger] query.subrange(
            at,
            at + last.query@.len(),
        ) == last.query@
}

/// A search visits every note, unless the last completed one answers for it: then it visits the
/// notes that one listed or skipped and no other. Where the notes changed since, where a tab's text
/// did, where the options differ or the query does not hold the last one, every note is visited.
pub proof fn a_search_visits_every_note_unless_the_last_one_answers_for_it(
    previous: Option<Narrowing>,
    query: Seq<char>,
    options: MatchOptions,
    notes: Seq<NoteEntry>,
    overlays: Seq<Overlay>,
    index: usize,
)
    requires
        index < notes.len() <= usize::MAX,
    ensures
        ({
            let visited = crate::text_search::to_visit(previous, query, options, notes, overlays);
            &&& !answers_for(previous, query, options, notes, overlays) ==> visited.contains(index)
            &&& answers_for(previous, query, options, notes, overlays) ==> (visited.contains(index)
                <==> names_note(previous->0.paths@, notes[index as int].path@))
        }),
{
    let keep = crate::text_search::kept_by(
        previous,
        query,
        options,
        crate::text_search::mark_of(notes, true),
        crate::text_search::overlays_mark(overlays),
    );
    crate::select::picking_is_exact(
        notes.len() as int,
        crate::text_search::visits(notes, keep),
        index as int,
    );
    if previous is Some {
        let last = previous->0;
        assert(crate::text_search::holds(query, last.query@) <==> exists|at: int|
            0 <= at && at + last.query@.len() <= query.len() && #[trigger] query.subrange(
                at,
                at + last.query@.len(),
            ) == last.query@) by {
            if crate::text_search::holds(query, last.query@) {
                let at = choose|at: int| crate::text_search::is_at(query, last.query@, at);
                assert(query.subrange(at, at + last.query@.len()) == last.query@);
            }
            if exists|at: int|
                0 <= at && at + last.query@.len() <= query.len() && #[trigger] query.subrange(
                    at,
                    at + last.query@.len(),
                ) == last.query@ {
                let at = choose|at: int|
                    0 <= at && at + last.query@.len() <= query.len() && #[trigger] query.subrange(
                        at,
                        at + last.query@.len(),
                    ) == last.query@;
                assert(crate::text_search::is_at(query, last.query@, at));
            }
        }
        let (keys, key) = (
            crate::tree::open_keys(last.paths@),
            crate::tree::lowercased(notes[index as int].path@),
        );
        if keys.contains(key) {
            let i = choose|i: int| 0 <= i < keys.len() && keys[i] == key;
            assert(crate::tree::lowercased(last.paths@[i]@) == key);
        }
        if names_note(last.paths@, notes[index as int].path@) {
            let i = choose|i: int|
                0 <= i < last.paths@.len() && crate::tree::lowercased((#[trigger] last.paths@[i])@)
                    == key;
            assert(keys[i] == key);
        }
    }
}

/// What a mark of the note list is made of tells apart two lists that differ in a path or in
/// whether a note is online-only; a strict one also those that differ in a size or a time.
pub proof fn marks_read_what_a_search_reads(
    a: Seq<NoteEntry>,
    b: Seq<NoteEntry>,
    strict: bool,
    index: int,
)
    requires
        a.len() == b.len(),
        crate::text_search::note_writes(a, strict) == crate::text_search::note_writes(b, strict),
        0 <= index < a.len(),
    ensures
        crate::paths::path_key(a[index].path@) == crate::paths::path_key(b[index].path@),
        a[index].online_only == b[index].online_only,
        strict ==> a[index].size == b[index].size && a[index].mtime == b[index].mtime,
    decreases a.len(),
{
    let (x, y) = (
        crate::text_search::note_writes(a, strict),
        crate::text_search::note_writes(b, strict),
    );
    let (p, q) = (
        crate::text_search::note_writes(a.drop_last(), strict),
        crate::text_search::note_writes(b.drop_last(), strict),
    );
    let (m, n) = (a.last(), b.last());
    let more = if strict {
        5int
    } else {
        3int
    };
    assert(x.len() == p.len() + more);
    assert(y.len() == q.len() + more);
    assert(x.take(p.len() as int) =~= p);
    assert(y.take(q.len() as int) =~= q);
    assert(x[p.len() as int] == vstd::utf8::encode_utf8(crate::paths::path_key(m.path@)));
    assert(y[q.len() as int] == vstd::utf8::encode_utf8(crate::paths::path_key(n.path@)));
    vstd::utf8::encode_utf8_decode_utf8(crate::paths::path_key(m.path@));
    vstd::utf8::encode_utf8_decode_utf8(crate::paths::path_key(n.path@));
    assert(x[(p.len() + 2) as int] == crate::text_search::bit(m.online_only));
    assert(y[(q.len() + 2) as int] == crate::text_search::bit(n.online_only));
    assert(crate::text_search::bit(m.online_only)[0] == crate::text_search::bit(n.online_only)[0]);
    if strict {
        assert(x[(p.len() + 3) as int] == vstd::bytes::spec_u64_to_le_bytes(m.size));
        assert(y[(q.len() + 3) as int] == vstd::bytes::spec_u64_to_le_bytes(n.size));
        assert(x[(p.len() + 4) as int] == vstd::bytes::spec_u64_to_le_bytes(m.mtime));
        assert(y[(q.len() + 4) as int] == vstd::bytes::spec_u64_to_le_bytes(n.mtime));
        vstd::bytes::lemma_auto_spec_u64_to_from_le_bytes();
    }
    if index < a.len() - 1 {
        marks_read_what_a_search_reads(a.drop_last(), b.drop_last(), strict, index);
    }
}

/// What the hash of a tab's text is made of tells apart two texts and, but for their case, two
/// paths.
pub proof fn overlay_hashes_read_the_path_and_the_text(a: Overlay, b: Overlay)
    requires
        crate::text_search::overlay_writes(a) == crate::text_search::overlay_writes(b),
    ensures
        crate::tree::lowercased(a.path@) == crate::tree::lowercased(b.path@),
        a.text@ == b.text@,
{
    let (x, y) = (crate::text_search::overlay_writes(a), crate::text_search::overlay_writes(b));
    assert(x[0] == vstd::utf8::encode_utf8(crate::tree::lowercased(a.path@)));
    assert(y[0] == vstd::utf8::encode_utf8(crate::tree::lowercased(b.path@)));
    assert(x[2] == vstd::utf8::encode_utf8(a.text@));
    assert(y[2] == vstd::utf8::encode_utf8(b.text@));
    vstd::utf8::encode_utf8_decode_utf8(crate::tree::lowercased(a.path@));
    vstd::utf8::encode_utf8_decode_utf8(crate::tree::lowercased(b.path@));
    vstd::utf8::encode_utf8_decode_utf8(a.text@);
    vstd::utf8::encode_utf8_decode_utf8(b.text@);
}

/// The notes of a search come in the order they are listed, each once.
pub proof fn notes_are_visited_in_order(
    previous: Option<Narrowing>,
    query: Seq<char>,
    options: MatchOptions,
    notes: Seq<NoteEntry>,
    overlays: Seq<Overlay>,
    i: int,
    j: int,
)
    requires
        notes.len() <= usize::MAX,
        0 <= i < j < crate::text_search::to_visit(previous, query, options, notes, overlays).len(),
    ensures
        ({
            let visited = crate::text_search::to_visit(previous, query, options, notes, overlays);
            visited[i] < visited[j] < notes.len()
        }),
{
    let keep = crate::text_search::kept_by(
        previous,
        query,
        options,
        crate::text_search::mark_of(notes, true),
        crate::text_search::overlays_mark(overlays),
    );
    crate::select::picking_keeps_order(
        notes.len() as int,
        crate::text_search::visits(notes, keep),
    );
}

/// A plain search that ran to its end answers for the next one that holds its query over the same
/// notes and texts: only what it listed or skipped is visited again.
pub proof fn a_completed_search_answers_for_the_next(
    host: TextSearchHost,
    after: TextSearchHost,
    query: String,
    longer: Seq<char>,
    options: MatchOptions,
    notes: Seq<NoteEntry>,
    overlays: Seq<Overlay>,
    paths: Seq<String>,
    skipped: Seq<String>,
    index: usize,
    at: int,
)
    requires
        crate::text_search::finished(
            host.started(query, options, notes, overlays),
            after,
            RunEnd::Completed,
            paths,
            skipped,
        ),
        !options.regex,
        !options.whole_word,
        0 <= at && at + query@.len() <= longer.len(),
        longer.subrange(at, at + query@.len()) == query@,
        index < notes.len() <= usize::MAX,
    ensures
        crate::text_search::to_visit(after.previous, longer, options, notes, overlays).contains(
            index,
        ) <==> names_note(paths, notes[index as int].path@) || names_note(
            skipped,
            notes[index as int].path@,
        ),
{
    a_search_visits_every_note_unless_the_last_one_answers_for_it(
        after.previous,
        longer,
        options,
        notes,
        overlays,
        index,
    );
    let path = notes[index as int].path@;
    let key = crate::tree::lowercased(path);
    let all = paths + skipped;
    if names_note(all, path) {
        let i = choose|i: int|
            0 <= i < all.len() && crate::tree::lowercased((#[trigger] all[i])@) == key;
        if i < paths.len() {
            assert(paths[i] == all[i]);
        } else {
            assert(skipped[i - paths.len()] == all[i]);
        }
    }
    if names_note(paths, path) {
        let i = choose|i: int|
            0 <= i < paths.len() && crate::tree::lowercased((#[trigger] paths[i])@) == key;
        assert(all[i] == paths[i]);
    }
    if names_note(skipped, path) {
        let i = choose|i: int|
            0 <= i < skipped.len() && crate::tree::lowercased((#[trigger] skipped[i])@) == key;
        assert(all[paths.len() + i] == skipped[i]);
    }
}

/// What is not known to be whole is never built on: after a search that stopped early, after the
/// library was loaded again (even where the search that ran then completes), and after the notebook
/// was changed, the next search visits every note.
pub proof fn only_whole_searches_are_built_on(
    host: TextSearchHost,
    after: TextSearchHost,
    end: RunEnd,
    paths: Seq<String>,
    skipped: Seq<String>,
    query: Seq<char>,
    options: MatchOptions,
    notes: Seq<NoteEntry>,
    overlays: Seq<Overlay>,
    index: usize,
)
    requires
        ({
            ||| end != RunEnd::Completed && crate::text_search::finished(
                host,
                after,
                end,
                paths,
                skipped,
            )
            ||| crate::text_search::finished(host.reloaded(), after, end, paths, skipped)
            ||| crate::text_search::finished(host.cancelled(), after, end, paths, skipped)
            ||| after == host.reloaded()
            ||| after == host.forgotten()
        }),
        index < notes.len() <= usize::MAX,
    ensures
        crate::text_search::to_visit(after.previous, query, options, notes, overlays).contains(
            index,
        ),
{
    a_search_visits_every_note_unless_the_last_one_answers_for_it(
        after.previous,
        query,
        options,
        notes,
        overlays,
        index,
    );
}

/// What a search reads while it runs is what it is recorded with: cancelling keeps what the search
/// before it found, and so does starting.
pub proof fn an_unfinished_search_changes_no_record(
    host: TextSearchHost,
    query: String,
    options: MatchOptions,
    notes: Seq<NoteEntry>,
    overlays: Seq<Overlay>,
)
    ensures
        host.started(query, options, notes, overlays).previous == host.previous,
        host.cancelled().previous == host.previous,
        host.replace_started().previous == host.previous,
        host.replace_cancelled().previous == host.previous,
        host.started(query, options, notes, overlays).running->0.query == query,
{
}

/// A batch counts only for the search that posted it: a start, a cancel and a change of notebook
/// each make every batch before stale, and the end of a search, a reload and all that a replace
/// does make none.
pub proof fn batches_of_another_search_are_stale(
    host: TextSearchHost,
    after: TextSearchHost,
    query: String,
    options: MatchOptions,
    notes: Seq<NoteEntry>,
    overlays: Seq<Overlay>,
    end: RunEnd,
    paths: Seq<String>,
    skipped: Seq<String>,
)
    requires
        crate::text_search::finished(host, after, end, paths, skipped),
    ensures
        host.started(query, options, notes, overlays).generation != host.generation,
        host.cancelled().generation != host.generation,
        host.forgotten().generation != host.generation,
        host.started(query, options, notes, overlays).cancelled().generation != host.generation,
        host.reloaded().generation == host.generation,
        after.generation == host.generation,
        host.replace_started().generation == host.generation,
        host.replace_cancelled().generation == host.generation,
{
}

/// A worker is there to be stopped from the start of a search until its end or its cancelling.
pub proof fn a_search_runs_from_its_start_to_its_end(
    host: TextSearchHost,
    after: TextSearchHost,
    query: String,
    options: MatchOptions,
    notes: Seq<NoteEntry>,
    overlays: Seq<Overlay>,
    end: RunEnd,
    paths: Seq<String>,
    skipped: Seq<String>,
)
    requires
        crate::text_search::finished(host, after, end, paths, skipped),
    ensures
        host.started(query, options, notes, overlays).searching,
        host.started(query, options, notes, overlays).reloaded().searching,
        !host.cancelled().searching,
        !host.forgotten().searching,
        !after.searching,
        host.cancelled().running is None,
        after.running is None,
        host.forgotten().running is None,
{
}

/// A library change runs the query again exactly where the notes moved on since the last search
/// started, or the library was loaded anew since. The program's own save of a listed note is no
/// such change, whatever it does to the note's size and time, and a query too short to run never is
/// run again.
pub proof fn a_query_runs_again_when_the_list_moved_on(
    host: TextSearchHost,
    started: String,
    query: Seq<char>,
    options: MatchOptions,
    before: Seq<NoteEntry>,
    now: Seq<NoteEntry>,
    overlays: Seq<Overlay>,
)
    ensures
        ({
            let ran = host.started(started, options, before, overlays);
            &&& before.len() == now.len() && (forall|i: int|
                0 <= i < now.len() ==> (#[trigger] before[i]).path@ == now[i].path@
                    && before[i].online_only == now[i].online_only) ==> !ran.arms(
                Some(query),
                Some(now),
            )
            &&& crate::text_search::mark_of(before, false) != crate::text_search::mark_of(
                now,
                false,
            ) && crate::text_search::runs(query) ==> ran.arms(Some(query), Some(now))
            &&& crate::text_search::runs(query) ==> ran.reloaded().arms(Some(query), Some(now))
            &&& crate::text_search::runs(query) ==> ran.forgotten().arms(Some(query), Some(now))
            &&& !crate::text_search::runs(query) ==> !ran.reloaded().arms(Some(query), Some(now))
            &&& !ran.reloaded().arms(None, Some(now))
            &&& !ran.reloaded().arms(Some(query), None)
        }),
{
    if before.len() == now.len() && (forall|i: int|
        0 <= i < now.len() ==> (#[trigger] before[i]).path@ == now[i].path@ && before[i].online_only
            == now[i].online_only) {
        crate::text_search::a_save_is_no_list_change(before, now);
    }
}

/// A query runs from its second character on, unless it is all white space; one that runs still
/// does with more before or after it.
pub proof fn longer_queries_run_too(query: Seq<char>, before: Seq<char>, after: Seq<char>, i: int)
    ensures
        query.len() < 2 ==> !crate::text_search::runs(query),
        query.len() >= 2 && 0 <= i < query.len() && !crate::text_search::is_white(query[i])
            ==> crate::text_search::runs(query),
        (forall|i: int| 0 <= i < query.len() ==> #[trigger] query[i] == ' ')
            ==> !crate::text_search::runs(query),
        crate::text_search::runs(query) ==> crate::text_search::runs(before + query + after),
{
    let whole = before + query + after;
    if crate::text_search::runs(query) {
        let at = choose|at: int|
            0 <= at < query.len() && !crate::text_search::is_white(#[trigger] query[at]);
        assert(whole[before.len() + at] == query[at]);
    }
    if query.len() >= 2 && 0 <= i < query.len() && !crate::text_search::is_white(query[i]) {
        assert(!crate::text_search::blank(query));
    }
    if forall|i: int| 0 <= i < query.len() ==> #[trigger] query[i] == ' ' {
        assert(crate::text_search::blank(query));
    }
}

/// A search starts only for a query that runs, with a pattern that compiles, over a notebook that
/// is open and loaded, and with nothing else going on. A pattern that does not compile is shown
/// whether a notebook is open or not, and what comes at a bad time waits.
pub proof fn a_search_starts_when_all_is_ready(
    busy: bool,
    query: Option<Seq<char>>,
    pattern_ok: bool,
    notebook_open: bool,
    loaded: bool,
)
    ensures
        ({
            let step = crate::text_search::first_step(
                busy,
                query,
                pattern_ok,
                notebook_open,
                loaded,
            );
            let runs = query is Some && crate::text_search::runs(query->0);
            &&& step == RunStep::Wait <==> busy
            &&& step == RunStep::Start <==> !busy && runs && pattern_ok && notebook_open && loaded
            &&& step == RunStep::ShowError <==> !busy && runs && !pattern_ok
        }),
{
}

/// One replace at a time: from its start on no other may start, until it ends, is stopped, is
/// answered with No, or its notebook goes. An answer to an older question ends nothing.
pub proof fn one_replace_at_a_time(
    host: TextSearchHost,
    open: bool,
    enabled: bool,
    busy: bool,
    other: u64,
)
    requires
        host.lets_replace(open, enabled, busy),
        other != host.replace_started().replace_generation,
    ensures
        ({
            let started = host.replace_started();
            let own = started.replace_generation;
            &&& open && enabled && !busy
            &&& !started.lets_replace(open, enabled, busy)
            &&& !started.after_answer(own, true).1.lets_replace(open, enabled, busy)
            &&& !started.after_answer(other, false).1.lets_replace(open, enabled, busy)
            &&& !started.counted(own, true).1.lets_replace(open, enabled, busy)
            &&& !started.retried(false).1.lets_replace(open, enabled, busy)
            &&& started.after_answer(own, false).1.lets_replace(open, enabled, busy)
            &&& started.replace_finished().lets_replace(open, enabled, busy)
            &&& started.replace_cancelled().lets_replace(open, enabled, busy)
            &&& started.forgotten().lets_replace(open, enabled, busy)
        }),
{
}

/// A plan is applied only where its own question was answered with Yes.
pub proof fn only_a_confirmed_current_plan_is_applied(
    host: TextSearchHost,
    generation: u64,
    confirmed: bool,
)
    ensures
        host.after_answer(generation, confirmed).0 ==> confirmed,
        host.after_answer(host.replace_started().replace_generation, true).0 == false,
        host.after_answer(host.replace_generation, true).0,
        !host.replace_started().after_answer(host.replace_generation, true).0,
        !host.replace_cancelled().after_answer(host.replace_generation, true).0,
        !host.forgotten().after_answer(host.replace_generation, true).0,
{
}

/// A count is asked about once: at once where nothing else is going on, else when the timer finds
/// that so, and from then on the timer stops. A count of another replace is dropped and changes
/// nothing, and one that was held is dropped with its replace.
pub proof fn a_count_is_asked_about_once(host: TextSearchHost, other: u64)
    requires
        other != host.replace_generation,
    ensures
        ({
            let own = host.replace_generation;
            let held = host.counted(own, true).1;
            &&& host.counted(own, false).0 == CountStep::Ask
            &&& host.counted(own, false).1 == host
            &&& host.counted(own, true).0 == CountStep::Hold
            &&& host.counted(other, false) == (CountStep::Drop, host)
            &&& host.counted(other, true) == (CountStep::Drop, host)
            &&& held.retried(true) == (TimerStep::KeepArmed, held)
            &&& held.retried(false).0 == TimerStep::Ask
            &&& held.retried(false).1.retried(false).0 == TimerStep::Stop
            &&& held.replace_cancelled().retried(false).0 == TimerStep::Stop
            &&& held.replace_started().retried(false).0 == TimerStep::Stop
            &&& held.forgotten().retried(false).0 == TimerStep::Stop
            &&& held.retried(false).1 == (TextSearchHost { held: None, ..host })
        }),
{
}

/// A worker is there to be stopped from the start of a replace until it ends or is stopped, and
/// what a replace does leaves the search alone.
pub proof fn a_replace_runs_from_its_start_to_its_end(host: TextSearchHost)
    ensures
        host.replace_started().replace_worker,
        !host.replace_finished().replace_worker,
        !host.replace_cancelled().replace_worker,
        !host.forgotten().replace_worker,
        host.replace_started().searching == host.searching,
        host.replace_finished().searching == host.searching,
        host.replace_cancelled().searching == host.searching,
        host.replace_cancelled().running == host.running,
        host.replace_cancelled().list == host.list,
        host.cancelled().replacing == host.replacing,
        host.cancelled().replace_worker == host.replace_worker,
        host.cancelled().replace_generation == host.replace_generation,
        host.cancelled().held == host.held,
        host.cancelled().list == host.list,
        host.reloaded().replacing == host.replacing,
{
}

/// A sum past the largest number goes on from zero: what is lost is that number and one more, and
/// nothing else.
pub proof fn sums_go_round(a: u64, b: u64)
    ensures
        ({
            let sum = crate::text_search::wrapped(a, b);
            ||| sum == a + b
            ||| sum + u64::MAX + 1 == a + b
        }),
        crate::text_search::wrapped(a, b) == crate::text_search::wrapped(b, a),
        crate::text_search::wrapped(a, 0) == a,
{
}

/// A replace may start only while its line is open, the library is ready, nothing else is under way
/// and no replace is.
pub proof fn a_replace_waits_its_turn(
    host: TextSearchHost,
    open: bool,
    enabled: bool,
    busy: bool,
)
    ensures
        host.lets_replace(open, enabled, busy) ==> open && enabled && !busy && !host.replacing,
        !host.replacing ==> host.lets_replace(true, true, false),
{
}

} // verus!
