//! What edits, reviews and renames do to the tabs: which document each changes, which it leaves
//! alone, and that no unsaved change is ever closed away.

use crate::document::{CloseCancelled, CloseDecision, Document, DocumentId, Language};
use crate::tabs::{
    CloseReview, CloseReviewError, CloseReviewKey, DuplicateDocumentPath, PathKeys, TabSelection,
    TabsView,
};
use vstd::prelude::*;

verus! {

/// The tabs after differ from those before in the tab at `place` alone.
pub open spec fn only_changes(before: TabsView, after: TabsView, place: int) -> bool {
    &&& after.documents.len() == before.documents.len()
    &&& forall|i: int|
        0 <= i < before.documents.len() && i != place ==> #[trigger] after.documents[i]
            == before.documents[i]
    &&& after.documents[place].id == before.documents[place].id
    &&& after.recent == before.recent
    &&& after.selection == before.selection
    &&& after.preview_buttons == before.preview_buttons
}

proof fn a_tab_is_at_its_place(tabs: TabsView, index: int)
    requires
        tabs.consistent(),
        0 <= index < tabs.documents.len(),
    ensures
        tabs.place(tabs.documents[index].id) == Some(index),
{
    let ids = crate::tabs::ids_of(tabs.documents);
    let id = tabs.documents[index].id;
    assert(ids[index] == id);
    ids.index_of_first_ensures(id);
    let first = tabs.place(id)->0;
    assert(ids.contains(id));
    assert(ids[first] == ids[index]);
}

/// A tab closes only as it was reviewed: it is the selected one, at the generation that was seen,
/// nobody cancelled, and after a Save it has no unsaved change left. Where all that holds it does
/// close; where it does not, nothing changes and the reason is told.
pub proof fn a_tab_closes_only_as_reviewed(
    before: TabsView,
    after: TabsView,
    decision: CloseDecision,
    generation: u64,
    closed: Result<Document, CloseReviewError>,
)
    requires
        before.consistent(),
        before.documents.len() > 0,
        crate::tabs::closed_reviewed(
            before,
            after,
            CloseReview { id: before.active_document()->0.id, generation },
            decision,
            closed,
        ),
    ensures
        ({
            let document = before.active_document()->0;
            &&& decision == CloseDecision::Cancel ==> closed == Err::<Document, _>(
                CloseReviewError::Cancelled,
            )
            &&& decision != CloseDecision::Cancel && generation != document.generation ==> closed
                == Err::<Document, _>(CloseReviewError::Stale)
            &&& decision == CloseDecision::Save && generation == document.generation
                && document.dirty ==> closed == Err::<Document, _>(CloseReviewError::Unsaved)
            &&& decision == CloseDecision::Save && generation == document.generation
                && !document.dirty ==> closed == Ok::<_, CloseReviewError>(document)
            &&& decision == CloseDecision::Discard && generation == document.generation ==> closed
                == Ok::<_, CloseReviewError>(document)
            &&& closed is Err ==> after == before
            &&& closed is Ok ==> after.documents.len() == before.documents.len() - 1
        }),
{
    a_tab_is_at_its_place(before, before.selection.active as int);
}

/// A review of another tab than the selected one closes nothing.
pub proof fn a_review_of_another_tab_is_stale(
    before: TabsView,
    after: TabsView,
    index: int,
    decision: CloseDecision,
    closed: Result<Document, CloseReviewError>,
)
    requires
        before.consistent(),
        0 <= index < before.documents.len(),
        index != before.selection.active,
        decision != CloseDecision::Cancel,
        crate::tabs::closed_reviewed(
            before,
            after,
            crate::tabs::review_of(before.documents[index]),
            decision,
            closed,
        ),
    ensures
        closed == Err::<Document, _>(CloseReviewError::Stale),
        after == before,
{
    a_tab_is_at_its_place(before, index);
}

/// Behind the selected tab only a clean one closes, as it was reviewed, and never the selected one.
pub proof fn only_clean_tabs_close_unseen(
    before: TabsView,
    after: TabsView,
    index: int,
    generation: u64,
    closed: Result<Document, CloseReviewError>,
)
    requires
        before.consistent(),
        0 <= index < before.documents.len(),
        crate::tabs::closed_unseen(
            before,
            after,
            CloseReview { id: before.documents[index].id, generation },
            closed,
        ),
    ensures
        ({
            let document = before.documents[index];
            let current = index != before.selection.active && document.generation == generation;
            &&& !current ==> closed == Err::<Document, _>(CloseReviewError::Stale)
            &&& current && document.dirty ==> closed == Err::<Document, _>(
                CloseReviewError::Unsaved,
            )
            &&& current && !document.dirty ==> closed == Ok::<_, CloseReviewError>(document)
            &&& closed is Err ==> after == before
            &&& closed is Ok ==> after.documents == before.documents.remove(index)
                && after.active_document() == before.active_document()
        }),
{
    a_tab_is_at_its_place(before, index);
    let active = before.selection.active as int;
    if closed is Ok {
        let rest = before.documents.remove(index);
        if index < active {
            assert(rest[active - 1] == before.documents[active]);
        } else {
            assert(rest[active] == before.documents[active]);
        }
    }
}

/// An edit after a review makes it stale: a close on it is refused.
pub proof fn an_edit_outdates_a_review(
    before: TabsView,
    after: TabsView,
    decision: CloseDecision,
    closed: Result<Document, CloseReviewError>,
)
    requires
        before.consistent(),
        before.documents.len() > 0,
        before.active_document()->0.generation < u64::MAX,
        decision != CloseDecision::Cancel,
        crate::tabs::closed_reviewed(
            before.text_changed().1,
            after,
            crate::tabs::review_of(before.active_document()->0),
            decision,
            closed,
        ),
    ensures
        closed == Err::<Document, _>(CloseReviewError::Stale),
{
}

/// Reviews go through the documents with unsaved changes, each at its generation, from the left:
/// one that was reviewed is not asked for again, and when none is left every such document was.
pub proof fn every_unsaved_document_is_reviewed_once(
    documents: Seq<Document>,
    reviewed: Seq<CloseReviewKey>,
    review: Option<CloseReview>,
    next: Option<CloseReview>,
    index: int,
)
    requires
        crate::tabs::reviewed_next(documents, reviewed, review),
        review matches Some(review) ==> crate::tabs::reviewed_next(
            documents,
            reviewed.push(CloseReviewKey { id: review.id, generation: review.generation }),
            next,
        ),
        0 <= index < documents.len(),
    ensures
        review matches Some(found) ==> next != review && exists|i: int|
            0 <= i < documents.len() && (#[trigger] documents[i]).dirty && documents[i].id
                == found.id && documents[i].generation == found.generation,
        review is None && documents[index].dirty ==> reviewed.contains(
            CloseReviewKey { id: documents[index].id, generation: documents[index].generation },
        ),
{
    if let Some(found) = review {
        let key = CloseReviewKey { id: found.id, generation: found.generation };
        let more = reviewed.push(key);
        assert(more[reviewed.len() as int] == key);
        assert(more.contains(key));
        if next == review {
            let i = choose|i: int|
                {
                    &&& 0 <= i < documents.len()
                    &&& found == crate::tabs::review_of(#[trigger] documents[i])
                    &&& crate::tabs::awaits_review(documents[i], more)
                    &&& forall|j: int|
                        0 <= j < i ==> !crate::tabs::awaits_review(#[trigger] documents[j], more)
                };
            assert(crate::tabs::key_of_review(crate::tabs::review_of(documents[i])) == key);
        }
    } else {
        assert(!crate::tabs::awaits_review(documents[index], reviewed));
    }
}

/// A review stays current while its document keeps its unsaved changes and its generation; an edit
/// or a save ends it.
pub proof fn a_review_is_current_until_the_document_changes(tabs: TabsView, generation: u64)
    requires
        tabs.consistent(),
        tabs.documents.len() > 0,
    ensures
        ({
            let document = tabs.active_document()->0;
            let review = CloseReview { id: document.id, generation };
            &&& tabs.still_dirty(review) <==> document.dirty && document.generation == generation
            &&& document.recovery_origin is None ==> !tabs.marked(false).1.still_dirty(review)
            &&& document.generation < u64::MAX ==> !tabs.text_changed().1.still_dirty(
                crate::tabs::review_of(document),
            )
        }),
{
    let active = tabs.selection.active as int;
    a_tab_is_at_its_place(tabs, active);
    let (clean, edited) = (tabs.marked(false).1, tabs.text_changed().1);
    assert(crate::tabs::ids_of(clean.documents) =~= crate::tabs::ids_of(tabs.documents));
    assert(crate::tabs::ids_of(edited.documents) =~= crate::tabs::ids_of(tabs.documents));
}

/// Marking the selected document changes it once: the mark is what was asked for, at a new
/// generation, and the same mark again changes nothing. A recovered document stays dirty until
/// where it came from is taken.
pub proof fn a_mark_is_set_once(tabs: TabsView, dirty: bool)
    requires
        tabs.consistent(),
        tabs.documents.len() > 0,
    ensures
        ({
            let document = tabs.active_document()->0;
            let (changed, after) = tabs.marked(dirty);
            let now = after.active_document()->0;
            &&& only_changes(tabs, after, tabs.selection.active as int)
            &&& changed ==> now.dirty == dirty && document.dirty != dirty
            &&& changed && document.generation < u64::MAX ==> now.generation > document.generation
            &&& !after.marked(dirty).0
            &&& dirty || document.recovery_origin is None ==> now.dirty == dirty
            &&& !dirty && document.recovery_origin is Some ==> !changed && now.dirty
                == document.dirty
            &&& tabs.without_origin().1.marked(false).1.active_document()->0.dirty == false
            &&& !changed ==> after == tabs
            &&& changed ==> after.in_step()
            &&& now.path == document.path && now.preview == document.preview && now.language
                == document.language && now.recovery_origin == document.recovery_origin
        }),
{
}

/// The origin of a recovered document is handed out once, and nothing else of it changes.
pub proof fn an_origin_is_taken_once(tabs: TabsView)
    requires
        tabs.consistent(),
        tabs.documents.len() > 0,
    ensures
        ({
            let document = tabs.active_document()->0;
            let (origin, after) = tabs.without_origin();
            let now = after.active_document()->0;
            &&& origin == document.recovery_origin
            &&& only_changes(tabs, after, tabs.selection.active as int)
            &&& after.without_origin().0 is None
            &&& now == (Document { recovery_origin: None, ..document })
        }),
{
}

/// The first text change makes a preview a normal tab, and only the first; every one raises the
/// generation. No other tab changes, and neither does what is saved.
pub proof fn an_edit_keeps_the_preview(tabs: TabsView)
    requires
        tabs.consistent(),
        tabs.documents.len() > 0,
    ensures
        ({
            let document = tabs.active_document()->0;
            let (promoted, after) = tabs.text_changed();
            let now = after.active_document()->0;
            &&& only_changes(tabs, after, tabs.selection.active as int)
            &&& promoted <==> document.preview
            &&& !now.preview
            &&& !after.text_changed().0
            &&& document.generation < u64::MAX ==> now.generation == document.generation + 1
            &&& now.dirty == document.dirty && now.path == document.path
            &&& promoted ==> after.in_step()
            &&& tabs.in_step() ==> after.in_step()
        }),
{
    let after = tabs.text_changed().1;
    if tabs.in_step() && !tabs.text_changed().0 {
        assert(crate::tabs::tabs_of(after.documents) =~= crate::tabs::tabs_of(tabs.documents)) by {
            let document = tabs.active_document()->0;
            let now = after.active_document()->0;
            assert(crate::tabs::tab_of(now) == crate::tabs::tab_of(document));
        }
    }
}

/// An edit behind the selected tab leaves its document unsaved and no preview, at a new generation,
/// and reaches no other tab; the strip changes with the first one only.
pub proof fn an_unseen_edit_is_unsaved(tabs: TabsView, index: int)
    requires
        tabs.consistent(),
        0 <= index < tabs.documents.len(),
    ensures
        ({
            let document = tabs.documents[index];
            let (changed, after) = tabs.edited_unseen(document.id);
            let now = after.documents[index];
            &&& only_changes(tabs, after, index)
            &&& now.dirty && !now.preview
            &&& document.generation < u64::MAX ==> now.generation == document.generation + 1
            &&& changed <==> !document.dirty || document.preview
            &&& !after.edited_unseen(document.id).0
            &&& now.path == document.path && now.recovery_origin == document.recovery_origin
            &&& changed ==> after.in_step()
        }),
{
    a_tab_is_at_its_place(tabs, index);
    let after = tabs.edited_unseen(tabs.documents[index].id).1;
    assert(crate::tabs::ids_of(after.documents) =~= crate::tabs::ids_of(tabs.documents));
}

/// Keeping a preview makes it a normal tab, once, and changes nothing else.
pub proof fn a_preview_is_kept_once(tabs: TabsView, index: int)
    requires
        tabs.consistent(),
        0 <= index < tabs.documents.len(),
    ensures
        ({
            let document = tabs.documents[index];
            let (kept, after) = tabs.promoted(document.id);
            &&& kept <==> document.preview
            &&& only_changes(tabs, after, index)
            &&& after.documents[index] == (Document { preview: false, ..document })
            &&& !after.promoted(document.id).0
            &&& kept ==> after.in_step()
            &&& !kept ==> after == tabs
        }),
{
    a_tab_is_at_its_place(tabs, index);
    let after = tabs.promoted(tabs.documents[index].id).1;
    assert(crate::tabs::ids_of(after.documents) =~= crate::tabs::ids_of(tabs.documents));
    if !tabs.promoted(tabs.documents[index].id).0 {
        assert(after.documents[index] == (Document { preview: false, ..tabs.documents[index] }));
    }
}

/// A language is recorded once, for the selected document alone, and nothing else of it changes.
pub proof fn a_language_is_set_once(tabs: TabsView, language: Language)
    requires
        tabs.consistent(),
        tabs.documents.len() > 0,
    ensures
        ({
            let document = tabs.active_document()->0;
            let (changed, after) = tabs.in_language(language);
            &&& changed <==> document.language != language
            &&& only_changes(tabs, after, tabs.selection.active as int)
            &&& after.active_document()->0.language == language
            &&& !after.in_language(language).0
            &&& after.active_document()->0.generation == document.generation
            &&& after.active_document()->0.dirty == document.dirty
            &&& after.shown == tabs.shown && after.revision == tabs.revision
        }),
{
}

/// What recovery stored of a document is recorded for that document, and nothing else changes.
pub proof fn what_recovery_stored_is_recorded(tabs: TabsView, index: int, generation: u64)
    requires
        tabs.consistent(),
        0 <= index < tabs.documents.len(),
    ensures
        ({
            let after = tabs.stored_at(tabs.documents[index].id, generation);
            &&& only_changes(tabs, after, index)
            &&& after.documents[index] == (Document {
                recovery_generation: Some(generation),
                ..tabs.documents[index]
            })
            &&& after.shown == tabs.shown && after.revision == tabs.revision
        }),
{
    a_tab_is_at_its_place(tabs, index);
}

/// A new path is refused exactly where another tab has its file, and then nothing changes; else the
/// document has it, shows it, and is otherwise as it was. Reverting it gives the old path back.
pub proof fn a_rename_changes_the_path_alone(
    before: TabsView,
    after: TabsView,
    index: int,
    path: String,
    keys: PathKeys,
    result: Result<(), DuplicateDocumentPath>,
)
    requires
        0 <= index < before.documents.len(),
        crate::tabs::renamed(before, after, Some(index), path, keys, result),
    ensures
        result is Err <==> keys.key(path@) is Some && exists|other: int|
            0 <= other < before.documents.len() && other != index && keys.key_of(
                #[trigger] before.documents[other],
            ) == Some(crate::paths::path_key(keys.key(path@)->0)),
        result is Err ==> after == before,
        result is Ok ==> only_changes(before, after, index) && after.documents[index] == (Document {
            path: Some(path),
            ..before.documents[index]
        }) && after.in_step(),
        result is Ok && index == before.selection.active ==> after.path_reverted(
            before.documents[index].path,
        ).documents == before.documents,
{
    if result is Ok && index == before.selection.active {
        let back = after.path_reverted(before.documents[index].path);
        assert(back.documents[index] == before.documents[index]);
        assert(back.documents =~= before.documents);
    }
}

/// A document that is no tab gets no path, and a path that was taken back is what it was.
pub proof fn reverting_a_path_sets_it(tabs: TabsView, original: Option<String>)
    requires
        tabs.consistent(),
        tabs.documents.len() > 0,
    ensures
        ({
            let after = tabs.path_reverted(original);
            &&& only_changes(tabs, after, tabs.selection.active as int)
            &&& after.active_document() == Some(
                Document { path: original, ..tabs.active_document()->0 },
            )
            &&& after.in_step()
        }),
{
}

/// Restarting the activation order puts the selected tab first and keeps the others in strip
/// order.
pub proof fn a_restarted_order_follows_the_strip(tabs: TabsView, i: int, j: int)
    requires
        tabs.consistent(),
        0 <= i < j < tabs.documents.len(),
        i != tabs.selection.active,
        j != tabs.selection.active,
    ensures
        ({
            let order = tabs.order_restarted().recent;
            &&& order[0] == tabs.active_document()->0.id
            &&& exists|a: int, b: int|
                0 < a < b < order.len() && order[a] == tabs.documents[i].id && order[b]
                    == tabs.documents[j].id
            &&& tabs.order_restarted().documents == tabs.documents
            &&& tabs.order_restarted().selection == tabs.selection
        }),
{
    let ids = crate::tabs::ids_of(tabs.documents);
    let active = tabs.active_document()->0.id;
    let order = tabs.order_restarted().recent;
    let rest = crate::tabs::without(ids, active);
    assert(ids[i] != active) by {
        assert(ids[tabs.selection.active as int] == active);
    }
    assert(ids[j] != active) by {
        assert(ids[tabs.selection.active as int] == active);
    }
    assert(order =~= seq![active] + rest);
    let (a, b) = the_rest_keeps_its_order(ids, active, i, j);
    assert(order[a + 1] == tabs.documents[i].id && order[b + 1] == tabs.documents[j].id);
}

proof fn the_rest_keeps_its_order(ids: Seq<DocumentId>, id: DocumentId, i: int, j: int) -> (at: (
    int,
    int,
))
    requires
        0 <= i < j < ids.len(),
        ids[i] != id,
        ids[j] != id,
    ensures
        ({
            let rest = crate::tabs::without(ids, id);
            &&& 0 <= at.0 < at.1 < rest.len()
            &&& rest[at.0] == ids[i]
            &&& rest[at.1] == ids[j]
        }),
    decreases ids.len(),
{
    reveal(Seq::filter);
    let front = ids.drop_last();
    if j < ids.len() - 1 {
        let at = the_rest_keeps_its_order(front, id, i, j);
        at
    } else {
        let a = a_kept_id_stays(front, id, i);
        (a, crate::tabs::without(front, id).len() as int)
    }
}

proof fn a_kept_id_stays(ids: Seq<DocumentId>, id: DocumentId, i: int) -> (at: int)
    requires
        0 <= i < ids.len(),
        ids[i] != id,
    ensures
        0 <= at < crate::tabs::without(ids, id).len(),
        crate::tabs::without(ids, id)[at] == ids[i],
    decreases ids.len(),
{
    reveal(Seq::filter);
    if i < ids.len() - 1 {
        a_kept_id_stays(ids.drop_last(), id, i)
    } else {
        crate::tabs::without(ids.drop_last(), id).len() as int
    }
}

/// Clearing the tabs leaves none, none selected and none shown.
pub proof fn clearing_leaves_no_tab(tabs: TabsView)
    ensures
        ({
            let after = tabs.cleared();
            &&& after.documents.len() == 0 && after.recent.len() == 0 && after.shown.len() == 0
            &&& after.active_document() is None
            &&& after.consistent()
        }),
{
    let after = tabs.cleared();
    assert(crate::tabs::ids_of(after.documents).len() == 0);
}

/// A tab reads what its row in the panel reads, and every change that the strip shows raises its
/// revision.
pub proof fn the_strip_and_the_panel_agree(tabs: TabsView, active: Option<DocumentId>, index: int)
    requires
        0 <= index < tabs.documents.len(),
    ensures
        ({
            let tab = tabs.refreshed().shown[index];
            let row = crate::open_editors::row_of(tabs.documents[index], active);
            &&& tab.id == row.id
            &&& tab.title == row.name
            &&& tab.preview == tabs.documents[index].preview
            &&& tabs.revision < u64::MAX ==> tabs.refreshed().revision > tabs.revision
        }),
{
}

/// A closed tab hands the selection to the tab after it, or to the one before where it was the last.
pub proof fn the_next_tab_is_selected(tabs: TabsView, index: int)
    requires
        tabs.consistent(),
        tabs.documents.len() >= 2,
        index == tabs.selection.active,
    ensures
        ({
            let after = tabs.closed(index);
            &&& index + 1 < tabs.documents.len() ==> after.active_document() == Some(
                tabs.documents[index + 1],
            )
            &&& index + 1 == tabs.documents.len() ==> after.active_document() == Some(
                tabs.documents[index - 1],
            )
            &&& after.recent.len() > 0 && after.recent[0] == after.active_document()->0.id
        }),
{
}

/// A tab that a document takes over is the same tab: at its place, selected, with the document it
/// was given, and the one it held is gone from the activation order unless it is back.
pub proof fn a_taken_tab_holds_the_document(tabs: TabsView, index: int, document: Document)
    requires
        tabs.consistent(),
        0 <= index < tabs.documents.len() <= usize::MAX,
    ensures
        ({
            let after = tabs.replaced(index, document);
            &&& after.documents.len() == tabs.documents.len()
            &&& after.active_document() == Some(document)
            &&& after.selection.active == index
            &&& after.recent[0] == document.id
            &&& forall|i: int|
                0 <= i < tabs.documents.len() && i != index ==> #[trigger] after.documents[i]
                    == tabs.documents[i]
        }),
{
}

/// The selected tab closes unless the decision was to cancel or there is none: it is handed out as
/// it was, and of the others none is lost. What is not closed is left as it was.
pub proof fn the_selected_tab_closes_unless_cancelled(
    before: TabsView,
    after: TabsView,
    decision: CloseDecision,
    closed: Result<Document, CloseCancelled>,
    i: int,
)
    requires
        before.consistent(),
        crate::tabs::closed_selected(before, after, decision, closed),
        0 <= i < before.documents.len(),
    ensures
        closed is Err <==> decision == CloseDecision::Cancel,
        closed is Err ==> after == before,
        closed matches Ok(document) ==> {
            &&& document == before.documents[before.selection.active as int]
            &&& after.documents.len() + 1 == before.documents.len()
            &&& (i < before.selection.active ==> after.documents[i] == before.documents[i])
            &&& (i > before.selection.active ==> after.documents[i - 1] == before.documents[i])
        },
{
}

/// The tab that is found for a path is the first whose file is the same: a document that is open
/// is found by its own path, and a path that is found names the file of the tab it is found in.
pub proof fn an_open_file_is_found(
    documents: Seq<Document>,
    path: Seq<char>,
    keys: PathKeys,
    id: Option<DocumentId>,
    i: int,
)
    requires
        crate::tabs::found(documents, path, keys, id),
        0 <= i < documents.len(),
        documents[i].path is Some,
    ensures
        keys.key(path) is None ==> id is None,
        keys.key(path) is Some && documents[i].path->0@ == path ==> id is Some,
        id matches Some(id) ==> exists|at: int|
            {
                &&& 0 <= at < documents.len()
                &&& (#[trigger] documents[at]).id == id
                &&& keys.key_of(documents[at]) == crate::paths::maybe_key(keys.key(path))
                &&& (keys.key_of(documents[i]) == keys.key_of(documents[at]) ==> at <= i)
            },
{
    let all = keys.keys_of(documents);
    if keys.key(path) is Some {
        let wanted = Some(crate::paths::path_key(keys.key(path)->0));
        all.index_of_first_ensures(wanted);
        assert(all[i] == keys.key_of(documents[i]));
        if id is Some {
            let at = all.index_of_first(wanted)->0;
            assert(all[at] == keys.key_of(documents[at]));
            assert(documents[at].id == id->0);
        }
    }
}

/// A stored path is found whether its file is there or not: in the first tab that stores a path of
/// the same components, in whatever case, and in none only where no tab does.
pub proof fn a_stored_path_is_found(
    documents: Seq<Document>,
    path: Seq<char>,
    keys: PathKeys,
    id: Option<DocumentId>,
    i: int,
)
    requires
        crate::tabs::found_stored(documents, path, keys, id),
        0 <= i < documents.len(),
        documents[i].path is Some,
    ensures
        documents[i].path->0@ == path ==> id is Some,
        keys.stored(documents[i].path->0@) == keys.stored(path) ==> id is Some,
        id matches Some(id) ==> exists|at: int|
            {
                &&& 0 <= at < documents.len()
                &&& (#[trigger] documents[at]).id == id
                &&& documents[at].path is Some
                &&& keys.stored(documents[at].path->0@) == keys.stored(path)
                &&& (keys.stored(documents[i].path->0@) == keys.stored(path) ==> at <= i)
            },
{
    let all = keys.stored_of(documents);
    let wanted = Some(keys.stored(path));
    all.index_of_first_ensures(wanted);
    assert(all[i] == Some(keys.stored(documents[i].path->0@)));
    if id is Some {
        let at = all.index_of_first(wanted)->0;
        assert(all[at] == wanted);
        assert(documents[at].id == id->0);
    }
}

/// A tab that exists can be selected, and no other; selecting moves neither the strip nor what of
/// it is scrolled away, and moving those selects nothing. A strip starts and scrolls where it is
/// told to, but never before its edge.
pub proof fn a_selection_is_one_of_the_tabs(
    selection: TabSelection,
    index: usize,
    count: usize,
    x: i32,
)
    ensures
        ({
            let (selected, after) = selection.choosing(index, count);
            &&& selected <==> index < count
            &&& selected ==> after.active == index
            &&& !selected ==> after.active == selection.active
            &&& (after.scroll, after.strip_left) == (selection.scroll, selection.strip_left)
        }),
        ({
            let after = selection.starting_at(x as int);
            &&& after.strip_left >= 0 && after.strip_left >= x
            &&& after.strip_left == 0 || after.strip_left == x
            &&& (after.active, after.scroll) == (selection.active, selection.scroll)
        }),
        ({
            let after = selection.scrolled_to(x as int);
            &&& after.scroll >= 0 && after.scroll >= x
            &&& after.scroll == 0 || after.scroll == x
            &&& (after.active, after.strip_left) == (selection.active, selection.strip_left)
        }),
{
}

} // verus!
