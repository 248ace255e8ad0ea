//! What holds of the tabs whatever is done to them: every tab is in the activation order exactly
//! once with the selected one in front, no file is open in two tabs, at most one tab is a preview,
//! and the strip shows exactly the open documents.

use crate::document::{Document, DocumentId};
use crate::tabs::{PathKeys, TabsView};
use vstd::prelude::*;

verus! {

impl TabsView {
    /// Every document is a tab once, the activation order lists every tab once, and the selected
    /// tab leads it.
    pub open spec fn consistent(self) -> bool {
        &&& self.wf()
        &&& crate::tabs::ids_of(self.documents).no_duplicates()
        &&& self.recent.no_duplicates()
        &&& forall|id: DocumentId| #[trigger]
            self.recent.contains(id) <==> crate::tabs::ids_of(self.documents).contains(id)
        &&& self.documents.len() > 0 ==> self.recent.len() > 0 && self.recent[0]
            == self.documents[self.selection.active as int].id
    }

    /// The strip shows the open documents, in order, and nothing else.
    pub open spec fn in_step(self) -> bool {
        self.shown == crate::tabs::tabs_of(self.documents)
    }

    /// No file is open in two tabs.
    pub open spec fn one_tab_per_file(self, keys: PathKeys) -> bool {
        forall|i: int, j: int|
            0 <= i < j < self.documents.len() && keys.key_of(self.documents[i]) is Some
                ==> keys.key_of(#[trigger] self.documents[i]) != keys.key_of(
                #[trigger] self.documents[j],
            )
    }

    /// At most one tab is a preview.
    pub open spec fn one_preview(self) -> bool {
        forall|i: int, j: int|
            0 <= i < j < self.documents.len() ==> !((#[trigger] self.documents[i]).preview && (
            #[trigger] self.documents[j]).preview)
    }
}

proof fn without_keeps_the_rest(order: Seq<DocumentId>, id: DocumentId)
    ensures
        forall|other: DocumentId| #[trigger]
            crate::tabs::without(order, id).contains(other) <==> order.contains(other) && other
                != id,
        order.no_duplicates() ==> crate::tabs::without(order, id).no_duplicates(),
    decreases order.len(),
{
    reveal(Seq::filter);
    let rest = crate::tabs::without(order, id);
    if order.len() > 0 {
        let front = order.drop_last();
        without_keeps_the_rest(front, id);
        let kept = crate::tabs::without(front, id);
        assert(order == front.push(order.last()));
        assert forall|other: DocumentId| #[trigger] rest.contains(other) <==> order.contains(other)
            && other != id by {
            if rest.contains(other) {
                let i = choose|i: int| 0 <= i < rest.len() && rest[i] == other;
                if i < kept.len() {
                    assert(kept[i] == other);
                    assert(kept.contains(other));
                    let j = choose|j: int| 0 <= j < front.len() && front[j] == other;
                    assert(order[j] == other);
                } else {
                    assert(order[order.len() - 1] == other);
                }
            }
            if order.contains(other) && other != id {
                let i = choose|i: int| 0 <= i < order.len() && order[i] == other;
                if i < front.len() {
                    assert(front[i] == other);
                    assert(front.contains(other));
                    assert(kept.contains(other));
                    let j = choose|j: int| 0 <= j < kept.len() && kept[j] == other;
                    assert(rest[j] == other);
                } else {
                    assert(rest[rest.len() - 1] == other);
                }
            }
        }
        if order.no_duplicates() {
            assert(front.no_duplicates());
            if order.last() != id {
                assert(!kept.contains(order.last())) by {
                    if front.contains(order.last()) {
                        let i = choose|i: int| 0 <= i < front.len() && front[i] == order.last();
                        assert(order[i] == order[order.len() - 1]);
                    }
                }
                assert forall|i: int, j: int|
                    0 <= i < rest.len() && 0 <= j < rest.len() && i != j implies rest[i]
                    != rest[j] by {
                    if i < kept.len() && j < kept.len() {
                        assert(kept[i] != kept[j]);
                    } else if i < kept.len() {
                        assert(kept.contains(kept[i]));
                    } else {
                        assert(kept.contains(kept[j]));
                    }
                }
            }
        }
    }
}

proof fn with_front_keeps_all(order: Seq<DocumentId>, id: DocumentId)
    ensures
        forall|other: DocumentId| #[trigger]
            crate::tabs::with_front(order, id).contains(other) <==> order.contains(other) || other
                == id,
        order.no_duplicates() ==> crate::tabs::with_front(order, id).no_duplicates(),
        crate::tabs::with_front(order, id)[0] == id,
{
    without_keeps_the_rest(order, id);
    let rest = crate::tabs::without(order, id);
    let all = crate::tabs::with_front(order, id);
    assert forall|other: DocumentId| #[trigger] all.contains(other) <==> order.contains(other)
        || other == id by {
        if all.contains(other) {
            let i = choose|i: int| 0 <= i < all.len() && all[i] == other;
            if i > 0 {
                assert(rest[i - 1] == other);
                assert(rest.contains(other));
            }
        }
        if order.contains(other) && other != id {
            assert(rest.contains(other));
            let i = choose|i: int| 0 <= i < rest.len() && rest[i] == other;
            assert(all[i + 1] == other);
        }
        if other == id {
            assert(all[0] == other);
        }
    }
    if order.no_duplicates() {
        assert forall|i: int, j: int|
            0 <= i < all.len() && 0 <= j < all.len() && i != j implies all[i] != all[j] by {
            if i == 0 {
                assert(rest.contains(rest[j - 1]));
            } else if j == 0 {
                assert(rest.contains(rest[i - 1]));
            } else {
                assert(rest[i - 1] != rest[j - 1]);
            }
        }
    }
}

/// Fresh tabs of distinct documents are consistent.
pub proof fn new_tabs_are_consistent(documents: Seq<Document>)
    requires
        crate::tabs::ids_of(documents).no_duplicates(),
    ensures
        crate::tabs::tabs_with(documents).consistent(),
{
}

/// Activating a tab keeps the tabs consistent.
pub proof fn activating_keeps_the_tabs_consistent(tabs: TabsView, index: int)
    requires
        tabs.consistent(),
        0 <= index < tabs.documents.len(),
        tabs.documents.len() <= usize::MAX,
    ensures
        tabs.activated(index).consistent(),
        tabs.activated(index).documents == tabs.documents,
{
    let id = tabs.documents[index].id;
    with_front_keeps_all(tabs.recent, id);
    assert(crate::tabs::ids_of(tabs.documents)[index] == id);
}

proof fn without_keeps_the_first(order: Seq<DocumentId>, id: DocumentId)
    requires
        order.len() > 0,
        order[0] != id,
    ensures
        crate::tabs::without(order, id).len() > 0,
        crate::tabs::without(order, id)[0] == order[0],
    decreases order.len(),
{
    reveal(Seq::filter);
    if order.len() > 1 {
        without_keeps_the_first(order.drop_last(), id);
    } else {
        assert(order.drop_last() == Seq::<DocumentId>::empty());
    }
}

/// The tab that was left is the next one in the activation order, so going to the second tab of the
/// order goes back.
pub proof fn the_tab_left_comes_second(tabs: TabsView, index: int)
    requires
        tabs.consistent(),
        0 <= index < tabs.documents.len(),
        index != tabs.selection.active,
        tabs.documents.len() <= usize::MAX,
    ensures
        ({
            let after = tabs.activated(index);
            &&& after.recent.len() > 1
            &&& after.recent[0] == tabs.documents[index].id
            &&& after.recent[1] == tabs.documents[tabs.selection.active as int].id
            &&& after.place(after.recent[1]) == Some(tabs.selection.active as int)
            &&& after.activated(tabs.selection.active as int).selection == tabs.selection
        }),
{
    let ids = crate::tabs::ids_of(tabs.documents);
    let left = tabs.selection.active as int;
    assert(ids[index] != ids[left]);
    without_keeps_the_first(tabs.recent, tabs.documents[index].id);
    ids.index_of_first_ensures(ids[left]);
}

/// Activating a tab again changes nothing.
pub proof fn activating_twice_is_activating_once(tabs: TabsView, index: int)
    requires
        0 <= index < tabs.documents.len(),
    ensures
        tabs.activated(index).activated(index) == tabs.activated(index),
{
    fronting_twice(tabs.recent, tabs.documents[index].id);
}

proof fn fronting_twice(order: Seq<DocumentId>, id: DocumentId)
    ensures
        crate::tabs::with_front(crate::tabs::with_front(order, id), id) == crate::tabs::with_front(
            order,
            id,
        ),
{
    without_keeps_the_rest(order, id);
    let rest = crate::tabs::without(order, id);
    dropping_the_front(rest, id);
    all_kept(rest, id);
}

proof fn dropping_the_front(rest: Seq<DocumentId>, id: DocumentId)
    ensures
        crate::tabs::without(seq![id] + rest, id) == crate::tabs::without(rest, id),
    decreases rest.len(),
{
    reveal_with_fuel(Seq::filter, 2);
    let all = seq![id] + rest;
    if rest.len() > 0 {
        dropping_the_front(rest.drop_last(), id);
        assert(all.drop_last() == seq![id] + rest.drop_last());
        assert(all.last() == rest.last());
    } else {
        assert(all.drop_last() == Seq::<DocumentId>::empty());
        assert(rest == Seq::<DocumentId>::empty());
    }
}

proof fn all_kept(order: Seq<DocumentId>, id: DocumentId)
    requires
        !order.contains(id),
    ensures
        crate::tabs::without(order, id) == order,
    decreases order.len(),
{
    reveal(Seq::filter);
    if order.len() > 0 {
        assert(order[order.len() - 1] != id);
        assert forall|i: int| 0 <= i < order.len() - 1 implies order.drop_last()[i] != id by {
            assert(order.contains(order[i]));
        }
        all_kept(order.drop_last(), id);
        assert(order == order.drop_last().push(order.last()));
    }
}

/// Opening a document that is not a tab yet keeps the tabs consistent: it is the last tab,
/// selected, and leads the activation order; the other tabs stay where they are.
pub proof fn opening_keeps_the_tabs_consistent(tabs: TabsView, document: Document)
    requires
        tabs.consistent(),
        !crate::tabs::ids_of(tabs.documents).contains(document.id),
        tabs.documents.len() < usize::MAX,
    ensures
        tabs.pushed(document).consistent(),
        tabs.pushed(document).active_document() == Some(document),
        tabs.pushed(document).documents == tabs.documents.push(document),
{
    let after = tabs.pushed(document);
    let ids = crate::tabs::ids_of(tabs.documents);
    with_front_keeps_all(tabs.recent, document.id);
    assert(crate::tabs::ids_of(after.documents) == ids.push(document.id));
    assert forall|id: DocumentId| #[trigger] after.recent.contains(id) <==> ids.push(
        document.id,
    ).contains(id) by {
        vstd::seq_lib::lemma_seq_contains_after_push(ids, document.id, id);
    }
    assert(ids.push(document.id).no_duplicates());
}

proof fn ids_after_removal(documents: Seq<Document>, index: int)
    requires
        0 <= index < documents.len(),
        crate::tabs::ids_of(documents).no_duplicates(),
    ensures
        ({
            let ids = crate::tabs::ids_of(documents);
            let rest = crate::tabs::ids_of(documents.remove(index));
            &&& rest.no_duplicates()
            &&& forall|id: DocumentId| #[trigger]
                rest.contains(id) <==> ids.contains(id) && id != documents[index].id
        }),
{
    let ids = crate::tabs::ids_of(documents);
    let rest = crate::tabs::ids_of(documents.remove(index));
    assert(rest == ids.remove(index));
    assert forall|id: DocumentId| #[trigger] rest.contains(id) <==> ids.contains(id) && id
        != documents[index].id by {
        if rest.contains(id) {
            let i = choose|i: int| 0 <= i < rest.len() && rest[i] == id;
            let at = if i < index { i } else { i + 1 };
            assert(ids[at] == id);
            assert(ids[at] != ids[index]);
        }
        if ids.contains(id) && id != documents[index].id {
            let i = choose|i: int| 0 <= i < ids.len() && ids[i] == id;
            assert(i != index);
            let at = if i < index { i } else { i - 1 };
            assert(rest[at] == id);
        }
    }
}

/// Closing the selected tab keeps the tabs consistent: the closed document leaves both the strip
/// and the activation order, and the tab that takes its place is selected.
pub proof fn closing_keeps_the_tabs_consistent(tabs: TabsView, index: int)
    requires
        tabs.consistent(),
        0 <= index < tabs.documents.len(),
        tabs.documents.len() <= usize::MAX,
    ensures
        tabs.closed(index).consistent(),
        !tabs.closed(index).recent.contains(tabs.documents[index].id),
        tabs.closed(index).documents == tabs.documents.remove(index),
        index + 1 < tabs.documents.len() ==> tabs.closed(index).active_document() == Some(
            tabs.documents[index + 1],
        ),
        index > 0 && index + 1 == tabs.documents.len() ==> tabs.closed(index).active_document()
            == Some(tabs.documents[index - 1]),
{
    let id = tabs.documents[index].id;
    let after = tabs.closed(index);
    let rest = crate::tabs::without(tabs.recent, id);
    without_keeps_the_rest(tabs.recent, id);
    ids_after_removal(tabs.documents, index);
    if after.documents.len() > 0 {
        let next = after.documents[after.selection.active as int].id;
        with_front_keeps_all(rest, next);
        assert(crate::tabs::ids_of(after.documents)[after.selection.active as int] == next);
        assert(crate::tabs::ids_of(after.documents).contains(next));
    }
}

/// Closing a tab in the background keeps the tabs consistent, and the selected document stays
/// selected and in front.
pub proof fn closing_in_the_background_keeps_the_selection(tabs: TabsView, index: int)
    requires
        tabs.consistent(),
        0 <= index < tabs.documents.len(),
        index != tabs.selection.active,
        tabs.documents.len() <= usize::MAX,
    ensures
        tabs.closed_behind(index).consistent(),
        tabs.closed_behind(index).active_document() == tabs.active_document(),
        tabs.closed_behind(index).recent[0] == tabs.recent[0],
        !tabs.closed_behind(index).recent.contains(tabs.documents[index].id),
{
    let id = tabs.documents[index].id;
    let active = tabs.documents[tabs.selection.active as int].id;
    let ids = crate::tabs::ids_of(tabs.documents);
    without_keeps_the_rest(tabs.recent, id);
    ids_after_removal(tabs.documents, index);
    assert(ids[index] == id && ids[tabs.selection.active as int] == active);
    assert(active != id);
    without_keeps_the_first(tabs.recent, id);
}

/// Putting a document that is not a tab yet in a tab's place keeps the tabs consistent: the tab
/// stays where it is and the others are untouched.
pub proof fn replacing_keeps_the_tabs_consistent(tabs: TabsView, index: int, document: Document)
    requires
        tabs.consistent(),
        0 <= index < tabs.documents.len(),
        tabs.documents.len() <= usize::MAX,
        !crate::tabs::ids_of(tabs.documents).contains(document.id),
    ensures
        tabs.replaced(index, document).consistent(),
        tabs.replaced(index, document).active_document() == Some(document),
        tabs.replaced(index, document).documents == tabs.documents.update(index, document),
        !tabs.replaced(index, document).recent.contains(tabs.documents[index].id),
{
    let id = tabs.documents[index].id;
    let ids = crate::tabs::ids_of(tabs.documents);
    let after = tabs.replaced(index, document);
    let now = crate::tabs::ids_of(after.documents);
    assert(now == ids.update(index, document.id));
    without_keeps_the_rest(tabs.recent, id);
    with_front_keeps_all(crate::tabs::without(tabs.recent, id), document.id);
    assert(ids[index] == id);
    assert(ids.contains(id));
    assert forall|i: int, j: int| 0 <= i < now.len() && 0 <= j < now.len() && i != j implies now[i]
        != now[j] by {
        assert(ids.contains(ids[i]));
        assert(ids.contains(ids[j]));
    }
    assert forall|other: DocumentId| #[trigger] after.recent.contains(other) <==> now.contains(
        other,
    ) by {
        if now.contains(other) {
            let i = choose|i: int| 0 <= i < now.len() && now[i] == other;
            if i != index {
                assert(ids[i] == other);
                assert(ids.contains(other));
                assert(ids[i] != ids[index]);
            }
        }
        if after.recent.contains(other) {
            if other == document.id {
                assert(now[index] == other);
            } else {
                assert(ids.contains(other) && other != id);
                let i = choose|i: int| 0 <= i < ids.len() && ids[i] == other;
                assert(now[i] == other);
            }
        }
    }
}

/// Changing a document in place keeps the tabs consistent.
pub proof fn editing_keeps_the_tabs_consistent(tabs: TabsView, index: int, document: Document)
    requires
        tabs.consistent(),
        0 <= index < tabs.documents.len(),
        document.id == tabs.documents[index].id,
    ensures
        tabs.edited(index, document).consistent(),
        tabs.refreshed().consistent(),
{
    assert(crate::tabs::ids_of(tabs.edited(index, document).documents) == crate::tabs::ids_of(
        tabs.documents,
    ));
}

/// Restarting the activation order from the strip keeps the tabs consistent.
pub proof fn restarting_the_order_keeps_the_tabs_consistent(tabs: TabsView)
    requires
        tabs.wf(),
        crate::tabs::ids_of(tabs.documents).no_duplicates(),
        tabs.documents.len() > 0,
    ensures
        (TabsView {
            recent: crate::tabs::with_front(
                crate::tabs::ids_of(tabs.documents),
                tabs.active_document()->0.id,
            ),
            ..tabs
        }).consistent(),
{
    let ids = crate::tabs::ids_of(tabs.documents);
    let id = tabs.active_document()->0.id;
    with_front_keeps_all(ids, id);
    assert(ids[tabs.selection.active as int] == id);
}

/// Showing a preview keeps the tabs consistent. A clean preview is replaced in its place; one
/// with unsaved edits is kept, so no edit is ever dropped.
pub proof fn previewing_keeps_the_tabs_consistent(tabs: TabsView, document: Document, keys: PathKeys)
    requires
        tabs.consistent(),
        !crate::tabs::ids_of(tabs.documents).contains(document.id),
        tabs.documents.len() < usize::MAX,
    ensures
        tabs.previewing(document, keys).consistent(),
        tabs.previewing(document, keys).documents.len() >= tabs.documents.len(),
        forall|i: int|
            0 <= i < tabs.documents.len() && (#[trigger] tabs.documents[i]).dirty ==> {
                let kept = tabs.previewing(document, keys).documents[i];
                kept == tabs.documents[i] || kept == (Document {
                    preview: false,
                    ..tabs.documents[i]
                })
            },
{
    tabs.documents.map_values(|document: Document| document.preview).index_of_first_ensures(true);
    match tabs.preview_place() {
        Some(index) if !tabs.documents[index].dirty => {
            replacing_keeps_the_tabs_consistent(tabs, index, document);
        },
        edited => {
            let kept = match edited {
                Some(index) => tabs.edited(
                    index,
                    Document { preview: false, ..tabs.documents[index] },
                ),
                None => tabs,
            };
            if let Some(index) = edited {
                let normal = Document { preview: false, ..tabs.documents[index] };
                editing_keeps_the_tabs_consistent(tabs, index, normal);
                assert(crate::tabs::ids_of(kept.documents) == crate::tabs::ids_of(tabs.documents));
            }
            opening_keeps_the_tabs_consistent(kept, document);
        },
    }
}

/// Opening a document keeps one tab per file, and the file is then found in the new tab.
pub proof fn opening_keeps_one_tab_per_file(tabs: TabsView, document: Document, keys: PathKeys)
    requires
        tabs.one_tab_per_file(keys),
        tabs.collision(document, keys) is None,
    ensures
        tabs.pushed(document).one_tab_per_file(keys),
        keys.key_of(document) matches Some(key) ==> keys.keys_of(
            tabs.pushed(document).documents,
        ).index_of_first(Some(key)) == Some(tabs.documents.len() as int),
{
    let after = tabs.pushed(document).documents;
    let all = keys.keys_of(tabs.documents);
    assert forall|i: int, j: int|
        0 <= i < j < after.len() && keys.key_of(after[i]) is Some implies keys.key_of(
        #[trigger] after[i],
    ) != keys.key_of(#[trigger] after[j]) by {
        if j == tabs.documents.len() {
            assert(all[i] == keys.key_of(after[i]));
            assert(all.contains(all[i]));
        }
    }
    if let Some(key) = keys.key_of(document) {
        let now = keys.keys_of(after);
        now.index_of_first_ensures(Some(key));
        assert(now[tabs.documents.len() as int] == Some(key));
        assert forall|i: int| 0 <= i < tabs.documents.len() implies now[i] != Some(key) by {
            assert(all[i] == now[i]);
            assert(all.contains(all[i]));
        }
    }
}

/// Renaming a document keeps one tab per file.
pub proof fn renaming_keeps_one_tab_per_file(
    tabs: TabsView,
    index: int,
    path: String,
    keys: PathKeys,
)
    requires
        tabs.one_tab_per_file(keys),
        0 <= index < tabs.documents.len(),
        tabs.rename_collision(index, path@, keys) is None,
    ensures
        tabs.edited(
            index,
            Document { path: Some(path), ..tabs.documents[index] },
        ).one_tab_per_file(keys),
{
    let after = tabs.documents.update(
        index,
        Document { path: Some(path), ..tabs.documents[index] },
    );
    assert forall|i: int, j: int|
        0 <= i < j < after.len() && keys.key_of(after[i]) is Some implies keys.key_of(
        #[trigger] after[i],
    ) != keys.key_of(#[trigger] after[j]) by {
        assert(keys.key_of(tabs.documents[i]) == keys.key_of(tabs.documents[i]));
        assert(keys.key_of(tabs.documents[j]) == keys.key_of(tabs.documents[j]));
    }
}

/// Documents that were accepted as tabs together have one tab per file.
pub proof fn accepted_documents_have_one_tab_per_file(documents: Seq<Document>, keys: PathKeys)
    requires
        crate::tabs::first_collision(documents, keys) is None,
    ensures
        crate::tabs::tabs_with(documents).one_tab_per_file(keys),
    decreases documents.len(),
{
    if documents.len() > 0 {
        let front = documents.drop_last();
        accepted_documents_have_one_tab_per_file(front, keys);
        let all = keys.keys_of(front);
        let before = crate::tabs::tabs_with(front);
        assert forall|i: int, j: int|
            0 <= i < j < documents.len() && keys.key_of(documents[i]) is Some implies keys.key_of(
            #[trigger] documents[i],
        ) != keys.key_of(#[trigger] documents[j]) by {
            assert(all[i] == keys.key_of(documents[i]));
            if j == documents.len() - 1 {
                assert(all.contains(all[i]));
            } else {
                assert(before.documents[i] == documents[i] && before.documents[j] == documents[j]);
            }
        }
    }
}

/// Closing a tab, selected or in the background, keeps one tab per file.
pub proof fn closing_keeps_one_tab_per_file(tabs: TabsView, index: int, keys: PathKeys)
    requires
        tabs.one_tab_per_file(keys),
        0 <= index < tabs.documents.len(),
    ensures
        tabs.closed(index).one_tab_per_file(keys),
        tabs.closed_behind(index).one_tab_per_file(keys),
{
    let after = tabs.documents.remove(index);
    assert forall|i: int, j: int|
        0 <= i < j < after.len() && keys.key_of(after[i]) is Some implies keys.key_of(
        #[trigger] after[i],
    ) != keys.key_of(#[trigger] after[j]) by {
        let was = |place: int| if place < index { place } else { place + 1 };
        assert(after[i] == tabs.documents[was(i)] && after[j] == tabs.documents[was(j)]);
    }
}

/// Showing a document that no tab has yet as a preview keeps one tab per file.
pub proof fn previewing_keeps_one_tab_per_file(tabs: TabsView, document: Document, keys: PathKeys)
    requires
        tabs.one_tab_per_file(keys),
        keys.key_of(document) is Some ==> !keys.keys_of(tabs.documents).contains(
            keys.key_of(document),
        ),
    ensures
        tabs.previewing(document, keys).one_tab_per_file(keys),
{
    let all = keys.keys_of(tabs.documents);
    tabs.documents.map_values(|document: Document| document.preview).index_of_first_ensures(true);
    match tabs.preview_place() {
        Some(index) if !tabs.documents[index].dirty => {
            let after = tabs.documents.update(index, document);
            assert forall|i: int, j: int|
                0 <= i < j < after.len() && keys.key_of(after[i]) is Some implies keys.key_of(
                #[trigger] after[i],
            ) != keys.key_of(#[trigger] after[j]) by {
                assert(all[i] == keys.key_of(tabs.documents[i]));
                assert(all[j] == keys.key_of(tabs.documents[j]));
                assert(all.contains(all[i]) && all.contains(all[j]));
            }
        },
        edited => {
            let kept = match edited {
                Some(index) => tabs.edited(
                    index,
                    Document { preview: false, ..tabs.documents[index] },
                ),
                None => tabs,
            };
            assert(keys.keys_of(kept.documents) == all);
            assert(kept.one_tab_per_file(keys)) by {
                assert forall|i: int, j: int|
                    0 <= i < j < kept.documents.len() && keys.key_of(
                        kept.documents[i],
                    ) is Some implies keys.key_of(#[trigger] kept.documents[i]) != keys.key_of(
                    #[trigger] kept.documents[j],
                ) by {
                    assert(all[i] == keys.key_of(tabs.documents[i]));
                    assert(all[j] == keys.key_of(tabs.documents[j]));
                    assert(keys.keys_of(kept.documents)[i] == keys.key_of(kept.documents[i]));
                    assert(keys.keys_of(kept.documents)[j] == keys.key_of(kept.documents[j]));
                }
            }
            if kept.collision(document, keys) is None {
                opening_keeps_one_tab_per_file(kept, document, keys);
            }
        },
    }
}

/// Whatever is done to the tabs, at most one is a preview: a new preview takes the old one's place
/// or leaves it a normal tab, and nothing else makes a preview.
pub proof fn at_most_one_tab_is_a_preview(
    tabs: TabsView,
    document: Document,
    index: int,
    keys: PathKeys,
)
    requires
        tabs.one_preview(),
    ensures
        tabs.previewing(document, keys).one_preview(),
        !document.preview ==> tabs.pushed(document).one_preview(),
        0 <= index < tabs.documents.len() ==> {
            &&& tabs.activated(index).one_preview()
            &&& tabs.closed(index).one_preview()
            &&& tabs.closed_behind(index).one_preview()
            &&& (document.preview ==> tabs.documents[index].preview) ==> tabs.edited(
                index,
                document,
            ).one_preview() && tabs.replaced(index, document).one_preview()
        },
{
    let previews = tabs.documents.map_values(|document: Document| document.preview);
    previews.index_of_first_ensures(true);
    match tabs.preview_place() {
        Some(place) => {
            assert(previews[place]);
            assert forall|i: int| 0 <= i < tabs.documents.len() && i != place implies !(
            #[trigger] tabs.documents[i]).preview by {
                assert(tabs.documents[place].preview);
            }
        },
        None => {
            assert forall|i: int| 0 <= i < tabs.documents.len() implies !(
            #[trigger] tabs.documents[i]).preview by {
                assert(previews[i] == tabs.documents[i].preview);
                assert(previews.contains(previews[i]));
            }
        },
    }
    if 0 <= index < tabs.documents.len() {
        let after = tabs.documents.remove(index);
        assert forall|i: int, j: int| 0 <= i < j < after.len() implies !((
        #[trigger] after[i]).preview && (#[trigger] after[j]).preview) by {
            let was = |place: int| if place < index { place } else { place + 1 };
            assert(after[i] == tabs.documents[was(i)] && after[j] == tabs.documents[was(j)]);
        }
    }
}

/// The strip shows exactly the open documents: it does so for new tabs, whatever is opened, closed
/// or put in a tab's place is shown or gone with the same step, and selecting a tab changes nothing
/// of it.
pub proof fn the_strip_shows_the_open_documents(
    tabs: TabsView,
    index: int,
    document: Document,
    keys: PathKeys,
)
    requires
        0 <= index < tabs.documents.len(),
    ensures
        crate::tabs::tabs_with(tabs.documents).in_step(),
        tabs.refreshed().in_step(),
        tabs.pushed(document).in_step(),
        tabs.previewing(document, keys).in_step(),
        tabs.closed(index).in_step(),
        tabs.closed_behind(index).in_step(),
        tabs.replaced(index, document).in_step(),
        tabs.in_step() ==> tabs.activated(index).in_step(),
{
}

} // verus!
