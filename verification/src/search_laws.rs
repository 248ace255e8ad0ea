//! What holds of the Search view over the batches of a search.

use crate::search_lines::{Progress, State, TextHit};
use crate::search_view::Shown;
use crate::text_search::RunEnd;
use vstd::prelude::*;

verus! {

proof fn codes_are_positive_and_distinct(a: char, b: char)
    ensures
        (a as u32 + 1) as u32 >= 1,
        (a as u32 + 1) as u32 == (b as u32 + 1) as u32 ==> a == b,
{
}

/// Two hits with one sort key are of one note.
pub proof fn one_key_is_one_note(a: TextHit, b: TextHit)
    requires
        crate::search_hits::hit_key(a) == crate::search_hits::hit_key(b),
    ensures
        crate::paths::path_key(a.path@) == crate::paths::path_key(b.path@),
{
    let (key_a, key_b) = (crate::search_hits::hit_key(a), crate::search_hits::hit_key(b));
    let (path_a, path_b) = (
        crate::paths::path_key(a.path@),
        crate::paths::path_key(b.path@),
    );
    let n = key_a.len() as int;
    assert forall|i: int| 0 <= i < path_a.len() implies #[trigger] key_a[n - path_a.len() + i] == (
    path_a[i] as u32 + 1) as u32 by {}
    assert forall|i: int| 0 <= i < path_b.len() implies #[trigger] key_b[n - path_b.len() + i] == (
    path_b[i] as u32 + 1) as u32 by {}
    assert(key_a[n - path_a.len() - 1] == 0);
    assert(key_b[n - path_b.len() - 1] == 0);
    if path_a.len() < path_b.len() {
        let i = path_b.len() - path_a.len() - 1;
        assert(key_b[n - path_b.len() + i] == (path_b[i] as u32 + 1) as u32);
        codes_are_positive_and_distinct(path_b[i], path_b[i]);
    } else if path_b.len() < path_a.len() {
        let i = path_a.len() - path_b.len() - 1;
        assert(key_a[n - path_a.len() + i] == (path_a[i] as u32 + 1) as u32);
        codes_are_positive_and_distinct(path_a[i], path_a[i]);
    } else {
        assert forall|i: int| 0 <= i < path_a.len() implies path_a[i] == path_b[i] by {
            assert(key_a[n - path_a.len() + i] == (path_a[i] as u32 + 1) as u32);
            assert(key_b[n - path_b.len() + i] == (path_b[i] as u32 + 1) as u32);
            codes_are_positive_and_distinct(path_a[i], path_b[i]);
        }
        assert(path_a =~= path_b);
    }
}

/// A result is of the note at `path`.
pub open spec fn is_of(hit: TextHit, path: Seq<char>) -> bool {
    crate::paths::path_key(hit.path@) == crate::paths::path_key(path)
}

/// A note is listed.
pub open spec fn lists(results: Seq<TextHit>, path: Seq<char>) -> bool {
    exists|i: int| 0 <= i < results.len() && is_of(#[trigger] results[i], path)
}

/// A listed note has a place, which holds it.
pub proof fn a_listed_note_has_a_place(results: Seq<TextHit>, path: Seq<char>)
    requires
        results.len() <= usize::MAX,
    ensures
        lists(results, path) <==> crate::search_view::place_of(results, path) is Some,
        crate::search_view::place_of(results, path) matches Some(index) ==> index < results.len()
            && is_of(results[index as int], path),
    decreases results.len(),
{
    if results.len() > 0 {
        let rest = results.drop_last();
        a_listed_note_has_a_place(rest, path);
        if lists(results, path) {
            let i = choose|i: int| 0 <= i < results.len() && is_of(#[trigger] results[i], path);
            if i < rest.len() {
                assert(is_of(rest[i], path));
            }
        }
        if crate::search_view::place_of(rest, path) is Some {
            let index = crate::search_view::place_of(rest, path)->0;
            assert(results[index as int] == rest[index as int]);
        } else if is_of(results.last(), path) {
            assert(is_of(results[results.len() - 1], path));
        }
    }
}

proof fn placing_keeps_the_notes(results: Seq<TextHit>, hit: TextHit, path: Seq<char>)
    requires
        crate::search_hits::sorted(results),
        lists(results, path),
    ensures
        lists(crate::search_hits::placed(results, hit), path),
{
    let key = crate::search_hits::hit_key(hit);
    let place = crate::search_hits::rank(results, key);
    let after = crate::search_hits::placed(results, hit);
    let i = choose|i: int| 0 <= i < results.len() && is_of(#[trigger] results[i], path);
    rank_is_a_place(results, key);
    if crate::search_hits::is_listed(results, key) {
        if i == place {
            one_key_is_one_note(results[i], hit);
            assert(is_of(after[i], path));
        } else {
            assert(after[i] == results[i]);
        }
    } else if i < place {
        assert(after[i] == results[i]);
    } else {
        assert(after[i + 1] == results[i]);
    }
}

proof fn rank_is_a_place(results: Seq<TextHit>, key: Seq<u32>)
    ensures
        0 <= crate::search_hits::rank(results, key) <= results.len(),
    decreases results.len(),
{
    if results.len() > 0 {
        rank_is_a_place(results.drop_first(), key);
    }
}

/// A batch takes no note off the list.
pub proof fn merging_keeps_the_notes(results: Seq<TextHit>, hits: Seq<TextHit>, path: Seq<char>)
    requires
        crate::search_hits::sorted(results),
        lists(results, path),
    ensures
        lists(crate::search_hits::merged(results, hits), path),
    decreases hits.len(),
{
    if hits.len() > 0 {
        merging_keeps_the_notes(results, hits.drop_last(), path);
        crate::search_hits::merging_keeps_the_order(results, hits.drop_last());
        placing_keeps_the_notes(
            crate::search_hits::merged(results, hits.drop_last()),
            hits.last(),
            path,
        );
    }
}

/// A batch lists every note it brings.
pub proof fn merging_lists_the_hits(results: Seq<TextHit>, hits: Seq<TextHit>, index: int)
    requires
        crate::search_hits::sorted(results),
        0 <= index < hits.len(),
    ensures
        lists(crate::search_hits::merged(results, hits), hits[index].path@),
    decreases hits.len(),
{
    let before = crate::search_hits::merged(results, hits.drop_last());
    crate::search_hits::merging_keeps_the_order(results, hits.drop_last());
    if index == hits.len() - 1 {
        crate::search_hits::placing_keeps_the_order(before, hits.last());
        let after = crate::search_hits::placed(before, hits.last());
        let i = choose|i: int| 0 <= i < after.len() && after[i] == hits.last();
        assert(is_of(after[i], hits[index].path@));
    } else {
        merging_lists_the_hits(results, hits.drop_last(), index);
        placing_keeps_the_notes(before, hits.last(), hits[index].path@);
    }
}

/// A row arriving above or below the selection leaves the selected note selected, unless another
/// note is waited for.
pub proof fn the_selection_follows_its_note(
    view: Shown,
    hits: Seq<TextHit>,
    progress: Progress,
    end: Option<RunEnd>,
    height: int,
)
    requires
        view.list.wf(),
        view.list.count == view.results.len(),
        crate::search_hits::sorted(view.results),
        crate::search_hits::merged(view.results, hits).len() <= i32::MAX,
        !view.replaces(hits.len(), end),
        view.current() is Some,
        view.restore_now(false) is None,
    ensures
        crate::paths::maybe_key(view.after_batch(hits, progress, end, height).current())
            == crate::paths::maybe_key(view.current()),
{
    if !view.replace_on_batch {
        let path = view.current()->0;
        let results = crate::search_hits::merged(view.results, hits);
        let selected = view.list.selected->0;
        assert(is_of(view.results[selected as int], path));
        merging_keeps_the_notes(view.results, hits, path);
        a_listed_note_has_a_place(results, path);
    }
}

/// A selection the user moved since the last batch stays: the note waited for gives way.
pub proof fn a_moved_selection_wins(
    view: Shown,
    hits: Seq<TextHit>,
    progress: Progress,
    end: Option<RunEnd>,
    height: int,
)
    requires
        view.list.wf(),
        view.list.count == view.results.len(),
        crate::search_hits::sorted(view.results),
        crate::search_hits::merged(view.results, hits).len() <= i32::MAX,
        !view.replace_on_batch,
        view.current() is Some,
        crate::paths::maybe_key(view.current()) != crate::paths::maybe_key(view.selected_by_batch),
    ensures
        crate::paths::maybe_key(view.after_batch(hits, progress, end, height).current())
            == crate::paths::maybe_key(view.current()),
{
    the_selection_follows_its_note(view, hits, progress, end, height);
}

/// The note selected when a search began, or when the same query's results are replaced, is
/// selected again as soon as it is listed.
pub proof fn a_remembered_note_is_selected_again(
    view: Shown,
    hits: Seq<TextHit>,
    progress: Progress,
    end: Option<RunEnd>,
    height: int,
    path: Seq<char>,
)
    requires
        view.list.wf(),
        ({
            let replacing = view.replaces(hits.len(), end);
            let results = crate::search_hits::merged(view.results_now(replacing), hits);
            &&& results.len() <= i32::MAX
            &&& view.replace_on_batch ==> replacing
            &&& view.restore_now(replacing) == Some(path)
            &&& lists(results, path)
        }),
    ensures
        view.after_batch(hits, progress, end, height).current() is Some,
        crate::paths::path_key(view.after_batch(hits, progress, end, height).current()->0)
            == crate::paths::path_key(path),
        view.after_batch(hits, progress, end, height).restore is None,
{
    let replacing = view.replaces(hits.len(), end);
    let results = crate::search_hits::merged(view.results_now(replacing), hits);
    a_listed_note_has_a_place(results, path);
}

/// A query that runs again keeps its rows, its selection and its scroll while its batches bring
/// only progress.
pub proof fn progress_alone_keeps_the_rows(view: Shown, progress: Progress, height: int)
    requires
        view.replace_on_batch,
    ensures
        view.after_batch(Seq::empty(), progress, None, height) == (Shown {
            search: State::Running(progress),
            ..view
        }),
{
}

/// A query that runs again and ends without a hit empties the list.
pub proof fn a_rerun_without_hits_empties_the_list(
    view: Shown,
    progress: Progress,
    end: RunEnd,
    height: int,
)
    requires
        view.replace_on_batch,
    ensures
        view.after_batch(Seq::empty(), progress, Some(end), height).results.len() == 0,
        view.after_batch(Seq::empty(), progress, Some(end), height).list.selected is None,
{
}

/// A batch that brings nothing and moves no count repaints nothing.
pub proof fn an_empty_batch_repaints_nothing(view: Shown, progress: Progress, height: int)
    requires
        view.list.wf(),
        view.list.count == view.results.len(),
        !view.replace_on_batch,
        view.search == State::<Seq<char>>::Running(progress),
        view.results.len() > 0 ==> view.current() is Some && view.restore_now(false) is None,
        forall|i: int, j: int|
            0 <= i < j < view.results.len() ==> !is_of(
                #[trigger] view.results[i],
                (#[trigger] view.results[j]).path@,
            ),
        view.list.selected matches Some(selected) ==> view.list.with_selected(
            selected as int,
            height,
        ) == view.list,
    ensures
        !view.repaints(Seq::empty(), progress, None, height),
{
    let results = view.results;
    assert(crate::search_hits::merged(results, Seq::<TextHit>::empty()) == results);
    if results.len() > 0 {
        let selected = view.list.selected->0;
        a_listed_note_has_a_place(results, results[selected as int].path@);
        assert(lists(results, results[selected as int].path@));
        let top = view.list.top;
        a_listed_note_has_a_place(results, results[top as int].path@);
        assert(lists(results, results[top as int].path@));
    }
    assert(view.list.recounted(results.len() as usize) == view.list);
}

proof fn a_rank_is_a_place(results: Seq<TextHit>, key: Seq<u32>)
    ensures
        0 <= crate::search_hits::rank(results, key) <= results.len(),
    decreases results.len(),
{
    if results.len() > 0 {
        a_rank_is_a_place(results.drop_first(), key);
    }
}

/// A batch none of whose hits lands before a row leaves every row before it as it was.
pub proof fn hits_below_change_nothing_above(
    results: Seq<TextHit>,
    hits: Seq<TextHit>,
    limit: int,
    row: int,
)
    requires
        !crate::search_hits::lands_before(results, hits, limit),
        0 <= row < limit,
    ensures
        ({
            let merged = crate::search_hits::merged(results, hits);
            &&& row < merged.len() <==> row < results.len()
            &&& row < results.len() ==> merged[row] == results[row]
        }),
    decreases hits.len(),
{
    if hits.len() > 0 {
        hits_below_change_nothing_above(results, hits.drop_last(), limit, row);
        let before = crate::search_hits::merged(results, hits.drop_last());
        a_rank_is_a_place(before, crate::search_hits::hit_key(hits.last()));
    }
}

/// A hit lands before a row exactly where the list that it is placed in holds it there.
pub proof fn a_hit_lands_where_it_is_listed(results: Seq<TextHit>, hit: TextHit, limit: int)
    requires
        crate::search_hits::sorted(results),
    ensures
        crate::search_hits::lands_before(results, seq![hit], limit) <==> exists|place: int|
            0 <= place < limit && place < crate::search_hits::placed(results, hit).len()
                && #[trigger] crate::search_hits::placed(results, hit)[place] == hit,
{
    let key = crate::search_hits::hit_key(hit);
    let rank = crate::search_hits::rank(results, key);
    let listed = crate::search_hits::placed(results, hit);
    a_rank_is_a_place(results, key);
    crate::search_hits::placing_keeps_the_order(results, hit);
    assert(seq![hit].drop_last() =~= Seq::<TextHit>::empty());
    assert(seq![hit].last() == hit);
    assert(crate::search_hits::merged(results, Seq::<TextHit>::empty()) == results);
    assert(!crate::search_hits::lands_before(results, Seq::<TextHit>::empty(), limit));
    assert(crate::search_hits::lands_before(results, seq![hit], limit) == (rank < limit));
    assert(listed[rank] == hit);
    if exists|place: int|
        0 <= place < limit && place < listed.len() && #[trigger] listed[place] == hit {
        let place = choose|place: int|
            0 <= place < limit && place < listed.len() && #[trigger] listed[place] == hit;
        if place < rank {
            crate::search_hits::less_is_irreflexive(key);
            assert(crate::search_hits::less(
                crate::search_hits::hit_key(listed[place]),
                crate::search_hits::hit_key(listed[rank]),
            ));
        }
    }
}

/// A row of a list is among those at least partly in view exactly where its first pixel is.
pub proof fn a_row_counts_by_its_first_pixel(row: int, height: int, row_height: int)
    requires
        0 <= row,
        0 <= height,
        0 < row_height,
    ensures
        row < crate::search_view::rows_in(height, row_height) <==> row * row_height < height,
{
    let rows = crate::search_view::rows_in(height, row_height);
    vstd::arithmetic::div_mod::lemma_fundamental_div_mod(height + row_height - 1, row_height);
    vstd::arithmetic::div_mod::lemma_mod_bound(height + row_height - 1, row_height);
    assert(row < rows <==> row * row_height < height) by (nonlinear_arith)
        requires
            0 < row_height,
            row_height * rows <= height + row_height - 1 < row_height * rows + row_height,
    ;
}

/// Where a batch repaints nothing, nothing that is painted changed: the list stands where it stood
/// with the same row selected under the same lines, and every row with a pixel in view shows the
/// result that it showed.
pub proof fn what_changes_in_view_is_repainted(
    view: Shown,
    hits: Seq<TextHit>,
    progress: Progress,
    end: Option<RunEnd>,
    height: int,
    row: int,
)
    requires
        view.list.row_height > 0,
        0 <= height,
        !view.repaints(hits, progress, end, height),
        view.list.top <= row,
        (row - view.list.top) * view.list.row_height < height,
    ensures
        ({
            let after = view.after_batch(hits, progress, end, height);
            &&& after.list.top == view.list.top
            &&& after.list.selected == view.list.selected
            &&& after.lines() == view.lines()
            &&& row < after.results.len() <==> row < view.results.len()
            &&& row < view.results.len() ==> after.results[row] == view.results[row]
        }),
{
    let replacing = view.replaces(hits.len(), end);
    let row_height = view.list.row_height as int;
    if !(view.replace_on_batch && !replacing) {
        let limit = view.list.top + crate::search_view::rows_in(height, row_height);
        a_row_counts_by_its_first_pixel(row - view.list.top, height, row_height);
        hits_below_change_nothing_above(view.results, hits, limit, row);
    }
}

/// The results of another query are shown from the first: the list stands at its top unless the note
/// that is selected again lies further down than a page.
pub proof fn a_new_list_starts_at_its_top(
    view: Shown,
    hits: Seq<TextHit>,
    progress: Progress,
    end: Option<RunEnd>,
    height: int,
)
    requires
        view.list.wf(),
        view.replaces(hits.len(), end),
        crate::search_hits::merged(Seq::empty(), hits).len() <= usize::MAX,
    ensures
        ({
            let list = view.after_batch(hits, progress, end, height).list;
            match list.selected {
                Some(selected) => selected < list.page(height) ==> list.top == 0,
                None => list.top == 0,
            }
        }),
{
}

} // verus!
