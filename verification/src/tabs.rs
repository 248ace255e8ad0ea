//! The open documents: their order in the tab strip, the selected one, the order in which they
//! were last activated, and what the strip shows of them.

use crate::document::{
    CloseCancelled, CloseDecision, Document, DocumentId, Language, RecoveryOrigin,
};
use crate::paths::{key_of_path, rewrite};
use crate::text::has_text;
use vstd::prelude::*;

verus! {

broadcast use vstd::seq_lib::group_seq_properties;

/// The selected tab, how far the strip is scrolled and where it starts.
#[derive(Clone, Copy, Debug, PartialEq, Eq, Structural)]
pub struct TabSelection {
    pub active: usize,
    pub scroll: i32,
    pub strip_left: i32,
}

impl TabSelection {
    pub fn new(active: usize) -> (selection: Self)
        ensures
            selection == (TabSelection { active, scroll: 0, strip_left: 0 }),
    {
        TabSelection { active, scroll: 0, strip_left: 0 }
    }

    /// Where the tabs start: the sidebar's right edge, 0 without a sidebar.
    pub fn strip_left(&self) -> (left: i32)
        ensures
            left == self.strip_left,
    {
        self.strip_left
    }

    /// The selection of a strip that starts at `left`.
    pub open spec fn starting_at(self, left: int) -> TabSelection {
        TabSelection { strip_left: vstd::math::max(left, 0) as i32, ..self }
    }

    pub fn set_strip_left(&mut self, left: i32)
        ensures
            *final(self) == old(self).starting_at(left as int),
    {
        self.strip_left = left.max(0);
    }

    pub fn scroll_offset(&self) -> (offset: i32)
        ensures
            offset == self.scroll,
    {
        self.scroll
    }

    /// The selection of a strip scrolled to `offset`.
    pub open spec fn scrolled_to(self, offset: int) -> TabSelection {
        TabSelection { scroll: vstd::math::max(offset, 0) as i32, ..self }
    }

    /// Scrolls the strip; reports whether the offset changed.
    pub fn set_scroll_offset(&mut self, offset: i32) -> (changed: bool)
        ensures
            *final(self) == old(self).scrolled_to(offset as int),
            changed == (final(self).scroll != old(self).scroll),
    {
        let before: i32 = self.scroll;
        self.scroll = offset.max(0);
        before != self.scroll
    }

    pub fn active_index(&self) -> (index: usize)
        ensures
            index == self.active,
    {
        self.active
    }

    /// Whether tab `index` of `tab_count` can be selected, and the selection after it.
    pub open spec fn choosing(self, index: usize, tab_count: usize) -> (bool, TabSelection) {
        if index < tab_count {
            (true, TabSelection { active: index, ..self })
        } else {
            (false, self)
        }
    }

    /// Selects tab `index` of `tab_count`; an index past the last tab is refused.
    pub fn select(&mut self, index: usize, tab_count: usize) -> (selected: bool)
        ensures
            (selected, *final(self)) == old(self).choosing(index, tab_count),
    {
        if index >= tab_count {
            return false;
        }
        self.active = index;
        true
    }
}

/// One tab as the strip shows it.
#[derive(Debug, PartialEq, Eq)]
pub struct TabViewTab {
    pub id: DocumentId,
    pub title: String,
    /// Painted in italics.
    pub preview: bool,
}

impl Clone for TabViewTab {
    fn clone(&self) -> (copy: Self)
        ensures
            copy == *self,
    {
        TabViewTab { id: self.id, title: self.title.clone(), preview: self.preview }
    }
}

/// What a tab shows, its title as characters.
#[verifier::ext_equal]
pub struct TabShown {
    pub id: DocumentId,
    pub title: Seq<char>,
    pub preview: bool,
}

impl View for TabViewTab {
    type V = TabShown;

    open spec fn view(&self) -> TabShown {
        TabShown { id: self.id, title: self.title@, preview: self.preview }
    }
}

/// What the tab of `document` shows.
pub open spec fn tab_of(document: Document) -> TabShown {
    TabShown {
        id: document.id,
        title: crate::document::titled(document),
        preview: document.preview,
    }
}

/// What the strip shows of `documents`.
pub open spec fn tabs_of(documents: Seq<Document>) -> Seq<TabShown> {
    documents.map_values(|document: Document| tab_of(document))
}

pub open spec fn shown(tabs: Seq<TabViewTab>) -> Seq<TabShown> {
    tabs.map_values(|tab: TabViewTab| tab@)
}

fn view_tabs(documents: &Vec<Document>) -> (tabs: Vec<TabViewTab>)
    ensures
        shown(tabs@) == tabs_of(documents@),
{
    let mut tabs: Vec<TabViewTab> = Vec::new();
    let mut at: usize = 0;
    while at < documents.len()
        invariant
            at <= documents.len(),
            shown(tabs@) == tabs_of(documents@).take(at as int),
        decreases documents.len() - at,
    {
        let document = &documents[at];
        let ghost before = tabs@;
        let tab = TabViewTab {
            id: document.id,
            title: document.title(),
            preview: document.preview,
        };
        assert(tab@ == tab_of(*document));
        tabs.push(tab);
        at = at + 1;
        assert(shown(tabs@) == shown(before).push(tab@));
        assert(tabs_of(documents@).take(at as int) == tabs_of(documents@).take(at - 1).push(tab@));
    }
    assert(tabs_of(documents@).take(at as int) == tabs_of(documents@));
    tabs
}

/// What the strip last showed. The revision grows with every update.
#[derive(Debug)]
pub struct TabView {
    pub revision: u64,
    pub tabs: Vec<TabViewTab>,
    pub preview_buttons: bool,
}

/// A copy of what the strip shows.
#[derive(Debug, PartialEq, Eq)]
pub struct TabViewSnapshot {
    pub revision: u64,
    pub tabs: Vec<TabViewTab>,
    pub preview_buttons: bool,
}

/// The revision after `revision`; the last one stays.
pub open spec fn next_revision(revision: u64) -> u64 {
    if revision < u64::MAX {
        (revision + 1) as u64
    } else {
        revision
    }
}

impl TabView {
    pub fn new(documents: &Vec<Document>) -> (view: Self)
        ensures
            view.revision == 0,
            shown(view.tabs@) == tabs_of(documents@),
            !view.preview_buttons,
    {
        TabView { revision: 0, tabs: view_tabs(documents), preview_buttons: false }
    }

    pub fn snapshot(&self) -> (snapshot: TabViewSnapshot)
        ensures
            snapshot.revision == self.revision,
            snapshot.tabs@ == self.tabs@,
            snapshot.preview_buttons == self.preview_buttons,
    {
        let mut tabs: Vec<TabViewTab> = Vec::new();
        let mut at: usize = 0;
        while at < self.tabs.len()
            invariant
                at <= self.tabs.len(),
                tabs@ == self.tabs@.take(at as int),
            decreases self.tabs.len() - at,
        {
            tabs.push(self.tabs[at].clone());
            at = at + 1;
            assert(tabs@ == self.tabs@.take(at as int));
        }
        TabViewSnapshot { revision: self.revision, tabs, preview_buttons: self.preview_buttons }
    }

    pub fn update(&mut self, documents: &Vec<Document>)
        ensures
            final(self).revision == next_revision(old(self).revision),
            shown(final(self).tabs@) == tabs_of(documents@),
            final(self).preview_buttons == old(self).preview_buttons,
    {
        self.revision = self.revision.saturating_add(1);
        self.tabs = view_tabs(documents);
    }

    pub fn set_preview_buttons(&mut self, visible: bool)
        ensures
            *final(self) == (TabView { preview_buttons: visible, ..*old(self) }),
    {
        self.preview_buttons = visible;
    }
}

/// Where a path's file was found.
#[derive(Debug)]
pub struct PathKey {
    pub path: String,
    pub found: String,
}

/// Where the files of paths were found. A path that is not listed names no file.
#[derive(Debug)]
pub struct PathKeys {
    pub entries: Vec<PathKey>,
}

/// Where `path` was first found.
pub open spec fn looked_up(entries: Seq<PathKey>, path: Seq<char>) -> Option<Seq<char>>
    decreases entries.len(),
{
    if entries.len() == 0 {
        None
    } else if entries[0].path@ == path {
        Some(entries[0].found@)
    } else {
        looked_up(entries.drop_first(), path)
    }
}

impl PathKeys {
    /// The path of the file that `path` names, ignoring case.
    pub open spec fn key(self, path: Seq<char>) -> Option<Seq<char>> {
        match looked_up(self.entries@, path) {
            Some(found) => Some(crate::tree::lowercased(found)),
            None => None,
        }
    }

    /// What a document's file is known by.
    pub open spec fn key_of(self, document: Document) -> Option<Seq<char>> {
        match document.path {
            Some(path) => crate::paths::maybe_key(self.key(path@)),
            None => None,
        }
    }

    /// What the documents' files are known by, in order.
    pub open spec fn keys_of(self, documents: Seq<Document>) -> Seq<Option<Seq<char>>> {
        documents.map_values(|document: Document| self.key_of(document))
    }

    pub fn new() -> (keys: Self)
        ensures
            keys.entries@ == Seq::<PathKey>::empty(),
    {
        PathKeys { entries: Vec::new() }
    }

    /// Records a path whose file was found at `found`.
    pub fn record(&mut self, path: String, found: String)
        ensures
            final(self).entries.len() == old(self).entries.len() + 1,
            final(self).entries@.drop_last() == old(self).entries@,
            final(self).entries@.last().path == path,
            final(self).entries@.last().found == found,
    {
        self.entries.push(PathKey { path, found });
        assert(self.entries@.drop_last() == old(self).entries@);
    }

    /// The key under which a stored path is known: where the path was not found, it stands for
    /// itself. Its components count, however they are written and in whatever case.
    pub open spec fn stored(self, path: Seq<char>) -> Seq<char> {
        crate::tree::lowercased(
            crate::paths::rewritten(
                match looked_up(self.entries@, path) {
                    Some(found) => found,
                    None => path,
                },
            ),
        )
    }

    /// The documents' keys as stored paths; none for an untitled document.
    pub open spec fn stored_of(self, documents: Seq<Document>) -> Seq<Option<Seq<char>>> {
        documents.map_values(
            |document: Document|
                match document.path {
                    Some(path) => Some(self.stored(path@)),
                    None => None,
                },
        )
    }

    fn stored_key(&self, path: &String) -> (key: String)
        ensures
            key@ == self.stored(path@),
    {
        let plain = match self.lookup(path) {
            Some(found) => rewrite(found.as_str()),
            None => rewrite(path.as_str()),
        };
        crate::tree::expanded_key(&plain)
    }

    /// The key of `path`'s file, or the path where it names none.
    pub fn canonical_key(&self, path: &String) -> (key: Result<String, DuplicateDocumentPath>)
        ensures
            match key {
                Ok(key) => self.key(path@) == Some(key@),
                Err(error) => self.key(path@) is None && error.0@ == path@,
            },
    {
        match self.lookup(path) {
            Some(found) => Ok(crate::tree::expanded_key(found)),
            None => Err(DuplicateDocumentPath(path.clone())),
        }
    }

    fn lookup(&self, path: &String) -> (found: Option<&String>)
        ensures
            looked_up(self.entries@, path@) == (match found {
                Some(found) => Some(found@),
                None => None,
            }),
    {
        let mut at: usize = 0;
        assert(self.entries@.skip(0) == self.entries@);
        while at < self.entries.len()
            invariant
                at <= self.entries.len(),
                looked_up(self.entries@, path@) == looked_up(self.entries@.skip(at as int), path@),
            decreases self.entries.len() - at,
        {
            assert(self.entries@.skip(at as int)[0] == self.entries@[at as int]);
            if self.entries[at].path == *path {
                return Some(&self.entries[at].found);
            }
            assert(self.entries@.skip(at as int).drop_first() == self.entries@.skip(at + 1));
            at = at + 1;
        }
        None
    }

    fn document_key(&self, document: &Document) -> (key: Option<String>)
        ensures
            crate::text::maybe(key) == self.key_of(*document),
    {
        match &document.path {
            Some(path) => match self.canonical_key(path) {
                Ok(key) => Some(key_of_path(key.as_str())),
                Err(_) => None,
            },
            None => None,
        }
    }
}

/// The ids of `documents`, in order.
pub open spec fn ids_of(documents: Seq<Document>) -> Seq<DocumentId> {
    documents.map_values(|document: Document| document.id)
}

/// `order` without `id`.
pub open spec fn without(order: Seq<DocumentId>, id: DocumentId) -> Seq<DocumentId> {
    order.filter(|other: DocumentId| other != id)
}

/// `order` with `id` moved to its front.
pub open spec fn with_front(order: Seq<DocumentId>, id: DocumentId) -> Seq<DocumentId> {
    seq![id] + without(order, id)
}

fn remove_id(order: &Vec<DocumentId>, id: DocumentId) -> (rest: Vec<DocumentId>)
    ensures
        rest@ == without(order@, id),
{
    let mut rest: Vec<DocumentId> = Vec::new();
    let mut at: usize = 0;
    proof {
        reveal(Seq::filter);
    }
    while at < order.len()
        invariant
            at <= order.len(),
            rest@ == without(order@.take(at as int), id),
        decreases order.len() - at,
    {
        proof {
            reveal(Seq::filter);
            assert(order@.take(at + 1).drop_last() == order@.take(at as int));
        }
        if order[at] != id {
            rest.push(order[at]);
        }
        at = at + 1;
    }
    assert(order@.take(at as int) == order@);
    rest
}

/// The tabs as values: the documents in strip order, the most recently activated first in
/// `recent`, the selected one, and what the strip shows.
#[verifier::ext_equal]
pub struct TabsView {
    pub documents: Seq<Document>,
    pub recent: Seq<DocumentId>,
    pub selection: TabSelection,
    pub revision: u64,
    pub shown: Seq<TabShown>,
    pub preview_buttons: bool,
}

impl TabsView {
    /// The selected tab is one of the tabs.
    pub open spec fn wf(self) -> bool {
        self.selection.active < self.documents.len() || (self.documents.len() == 0
            && self.selection.active == 0)
    }

    /// Where the document `id` is.
    pub open spec fn place(self, id: DocumentId) -> Option<int> {
        ids_of(self.documents).index_of_first(id)
    }

    /// Where the preview tab is.
    pub open spec fn preview_place(self) -> Option<int> {
        self.documents.map_values(|document: Document| document.preview).index_of_first(true)
    }

    /// The selected document.
    pub open spec fn active_document(self) -> Option<Document> {
        if self.selection.active < self.documents.len() {
            Some(self.documents[self.selection.active as int])
        } else {
            None
        }
    }

    /// The strip shows the documents as they are now.
    pub open spec fn refreshed(self) -> TabsView {
        TabsView {
            revision: next_revision(self.revision),
            shown: tabs_of(self.documents),
            ..self
        }
    }

    /// Tab `index` is selected.
    pub open spec fn selecting(self, index: int) -> TabsView {
        TabsView { selection: TabSelection { active: index as usize, ..self.selection }, ..self }
    }

    /// Tab `index` is selected and leads the activation order.
    pub open spec fn activated(self, index: int) -> TabsView {
        TabsView {
            recent: with_front(self.recent, self.documents[index].id),
            ..self.selecting(index)
        }
    }

    /// `document` is the last tab, and selected.
    pub open spec fn pushed(self, document: Document) -> TabsView {
        TabsView { documents: self.documents.push(document), ..self }.activated(
            self.documents.len() as int,
        ).refreshed()
    }

    /// Tab `index` is gone. Its successor is selected, or its predecessor at the end of the strip.
    pub open spec fn closed(self, index: int) -> TabsView {
        let documents = self.documents.remove(index);
        let recent = without(self.recent, self.documents[index].id);
        let next = vstd::math::min(index, vstd::math::max(documents.len() - 1, 0));
        let rest = TabsView { documents, recent, ..self };
        if documents.len() > 0 {
            rest.activated(next).refreshed()
        } else {
            rest.selecting(next).refreshed()
        }
    }

    /// Tab `index`, which is not selected, is gone; the selected tab stays selected.
    pub open spec fn closed_behind(self, index: int) -> TabsView {
        let active = self.selection.active;
        TabsView {
            documents: self.documents.remove(index),
            recent: without(self.recent, self.documents[index].id),
            ..self.selecting(
                if index < active {
                    active - 1
                } else {
                    active as int
                },
            )
        }.refreshed()
    }

    /// Tab `index` holds `document` instead, is selected and leads the activation order.
    pub open spec fn replaced(self, index: int, document: Document) -> TabsView {
        TabsView {
            documents: self.documents.update(index, document),
            recent: without(self.recent, self.documents[index].id),
            ..self
        }.activated(index).refreshed()
    }

    /// Tab `index` holds `document` as it is now.
    pub open spec fn edited(self, index: int, document: Document) -> TabsView {
        TabsView { documents: self.documents.update(index, document), ..self }
    }

    /// What keeps `document` out: its file is not found, or another tab has it.
    pub open spec fn collision(self, document: Document, keys: PathKeys) -> Option<Seq<char>> {
        match document.path {
            None => None,
            Some(path) => match keys.key(path@) {
                None => Some(path@),
                Some(key) => if keys.keys_of(self.documents).contains(
                    Some(crate::paths::path_key(key)),
                ) {
                    Some(key)
                } else {
                    None
                },
            },
        }
    }

    /// The key that a tab other than `index` has already, where `path` names a file.
    pub open spec fn rename_collision(
        self,
        index: int,
        path: Seq<char>,
        keys: PathKeys,
    ) -> Option<Seq<char>> {
        match keys.key(path) {
            Some(key) if exists|other: int|
                0 <= other < self.documents.len() && other != index && keys.key_of(
                    #[trigger] self.documents[other],
                ) == Some(crate::paths::path_key(key)) => Some(key),
            _ => None,
        }
    }

    /// `document` is in the preview tab's place; a preview with unsaved edits stays as a normal
    /// tab, and `document` is added unless its file is not found or is open already.
    pub open spec fn previewing(self, document: Document, keys: PathKeys) -> TabsView {
        match self.preview_place() {
            Some(index) if !self.documents[index].dirty => self.replaced(index, document),
            edited => {
                let kept = match edited {
                    Some(index) => self.edited(
                        index,
                        Document { preview: false, ..self.documents[index] },
                    ),
                    None => self,
                };
                if kept.collision(document, keys) is None {
                    kept.pushed(document)
                } else {
                    kept.refreshed()
                }
            },
        }
    }
}

impl TabsView {
    /// Where the selected document is.
    pub open spec fn active_place(self) -> Option<int> {
        if self.selection.active < self.documents.len() {
            Some(self.selection.active as int)
        } else {
            None
        }
    }

    /// The reviewed document still has the unsaved changes that the review saw.
    pub open spec fn still_dirty(self, review: CloseReview) -> bool {
        self.place(review.id) matches Some(place) && self.documents[place].dirty
            && self.documents[place].generation == review.generation
    }

    /// Whether marking the selected document dirty or clean changes it, and the tabs after that.
    pub open spec fn marked(self, dirty: bool) -> (bool, TabsView) {
        match self.active_document() {
            Some(document) if document.dirty != dirty && (dirty
                || document.recovery_origin is None) => (
                true,
                self.edited(
                    self.selection.active as int,
                    Document { dirty, generation: next_revision(document.generation), ..document },
                ).refreshed(),
            ),
            _ => (false, self),
        }
    }

    /// Whether a language changes the selected document, and the tabs with it.
    pub open spec fn in_language(self, language: Language) -> (bool, TabsView) {
        match self.active_document() {
            Some(document) if document.language != language => (
                true,
                self.edited(self.selection.active as int, Document { language, ..document }),
            ),
            _ => (false, self),
        }
    }

    /// The tabs after recovery stored a generation of `id`.
    pub open spec fn stored_at(self, id: DocumentId, generation: u64) -> TabsView {
        match self.place(id) {
            Some(index) => self.edited(
                index,
                Document { recovery_generation: Some(generation), ..self.documents[index] },
            ),
            None => self,
        }
    }

    /// Where the selected document was recovered from, and the tabs without that.
    pub open spec fn without_origin(self) -> (Option<RecoveryOrigin>, TabsView) {
        match self.active_document() {
            Some(document) => (
                document.recovery_origin,
                self.edited(
                    self.selection.active as int,
                    Document { recovery_origin: None, ..document },
                ),
            ),
            None => (None, self),
        }
    }

    /// Whether a text change makes the selected preview a normal tab, and the tabs after it.
    pub open spec fn text_changed(self) -> (bool, TabsView) {
        match self.active_document() {
            Some(document) => {
                let edited = self.edited(
                    self.selection.active as int,
                    Document {
                        generation: next_revision(document.generation),
                        preview: false,
                        ..document
                    },
                );
                if document.preview {
                    (true, edited.refreshed())
                } else {
                    (false, edited)
                }
            },
            None => (false, self),
        }
    }

    /// Whether an edit of `id` behind the selected tab changes the strip, and the tabs after it.
    pub open spec fn edited_unseen(self, id: DocumentId) -> (bool, TabsView) {
        match self.place(id) {
            Some(index) => {
                let document = self.documents[index];
                let edited = self.edited(
                    index,
                    Document {
                        generation: next_revision(document.generation),
                        dirty: true,
                        preview: false,
                        ..document
                    },
                );
                if !document.dirty || document.preview {
                    (true, edited.refreshed())
                } else {
                    (false, edited)
                }
            },
            None => (false, self),
        }
    }

    /// Whether `id` was the preview, and the tabs with it as a normal one.
    pub open spec fn promoted(self, id: DocumentId) -> (bool, TabsView) {
        match self.place(id) {
            Some(index) if self.documents[index].preview => (
                true,
                self.edited(index, Document { preview: false, ..self.documents[index] }).refreshed(),
            ),
            _ => (false, self),
        }
    }

    /// No tab is left.
    pub open spec fn cleared(self) -> TabsView {
        TabsView { documents: Seq::empty(), recent: Seq::empty(), ..self }.selecting(0).refreshed()
    }

    /// The tabs with the selected document's path as it was.
    pub open spec fn path_reverted(self, original: Option<String>) -> TabsView {
        match self.active_document() {
            Some(document) => self.edited(
                self.selection.active as int,
                Document { path: original, ..document },
            ).refreshed(),
            None => self,
        }
    }

    /// The tabs as if activated in strip order, then the selected one.
    pub open spec fn order_restarted(self) -> TabsView {
        TabsView {
            recent: match self.active_document() {
                Some(active) => with_front(ids_of(self.documents), active.id),
                None => ids_of(self.documents),
            },
            ..self
        }
    }
}

/// What closing the selected tab comes to.
pub open spec fn closed_selected(
    before: TabsView,
    after: TabsView,
    decision: CloseDecision,
    closed: Result<Document, CloseCancelled>,
) -> bool {
    match closed {
        Ok(closed) => decision != CloseDecision::Cancel && before.active_document() == Some(closed)
            && after == before.closed(before.selection.active as int),
        Err(_) => (decision == CloseDecision::Cancel || before.documents.len() == 0) && after
            == before,
    }
}

/// What closing the selected tab as reviewed comes to.
pub open spec fn closed_reviewed(
    before: TabsView,
    after: TabsView,
    review: CloseReview,
    decision: CloseDecision,
    closed: Result<Document, CloseReviewError>,
) -> bool {
    let current = before.place(review.id) == Some(before.selection.active as int) && (
    before.active_document() matches Some(document) && document.generation == review.generation);
    match closed {
        Err(CloseReviewError::Cancelled) => decision == CloseDecision::Cancel && after == before,
        Err(CloseReviewError::Stale) => decision != CloseDecision::Cancel && !current && after
            == before,
        Err(CloseReviewError::Unsaved) => decision == CloseDecision::Save && current
            && before.active_document()->0.dirty && after == before,
        Ok(closed) => decision != CloseDecision::Cancel && current && before.active_document()
            == Some(closed) && !(decision == CloseDecision::Save && closed.dirty) && after
            == before.closed(before.selection.active as int),
    }
}

/// What closing a tab behind the selected one comes to.
pub open spec fn closed_unseen(
    before: TabsView,
    after: TabsView,
    review: CloseReview,
    closed: Result<Document, CloseReviewError>,
) -> bool {
    let place = before.place(review.id);
    let current = place is Some && place != Some(before.selection.active as int)
        && before.documents[place->0].generation == review.generation;
    match closed {
        Err(CloseReviewError::Cancelled) => false,
        Err(CloseReviewError::Stale) => !current && after == before,
        Err(CloseReviewError::Unsaved) => current && before.documents[place->0].dirty && after
            == before,
        Ok(closed) => current && !closed.dirty && before.documents[place->0] == closed && after
            == before.closed_behind(place->0),
    }
}

/// The tab of the file that `path` names is `id`'s.
pub open spec fn found(
    documents: Seq<Document>,
    path: Seq<char>,
    keys: PathKeys,
    id: Option<DocumentId>,
) -> bool {
    match (keys.key(path), id) {
        (None, id) => id is None,
        (Some(key), Some(id)) => {
            let place = keys.keys_of(documents).index_of_first(
                Some(crate::paths::path_key(key)),
            );
            place is Some && documents[place->0].id == id
        },
        (Some(key), None) => !keys.keys_of(documents).contains(
            Some(crate::paths::path_key(key)),
        ),
    }
}

/// The tab whose stored path names the same file as `path` is `id`'s.
pub open spec fn found_stored(
    documents: Seq<Document>,
    path: Seq<char>,
    keys: PathKeys,
    id: Option<DocumentId>,
) -> bool {
    match id {
        Some(id) => {
            let place = keys.stored_of(documents).index_of_first(Some(keys.stored(path)));
            place is Some && documents[place->0].id == id
        },
        None => !keys.stored_of(documents).contains(Some(keys.stored(path))),
    }
}

/// The first document that awaits a review, if any does.
pub open spec fn reviewed_next(
    documents: Seq<Document>,
    reviewed: Seq<CloseReviewKey>,
    review: Option<CloseReview>,
) -> bool {
    match review {
        Some(review) => exists|i: int|
            {
                &&& 0 <= i < documents.len()
                &&& review == review_of(#[trigger] documents[i])
                &&& awaits_review(documents[i], reviewed)
                &&& forall|j: int| 0 <= j < i ==> !awaits_review(#[trigger] documents[j], reviewed)
            },
        None => forall|j: int|
            0 <= j < documents.len() ==> !awaits_review(#[trigger] documents[j], reviewed),
    }
}

/// What giving the document at `place` a new path comes to.
pub open spec fn renamed(
    before: TabsView,
    after: TabsView,
    place: Option<int>,
    path: String,
    keys: PathKeys,
    result: Result<(), DuplicateDocumentPath>,
) -> bool {
    match (place, result) {
        (None, Err(error)) => error.0@ == path@ && after == before,
        (None, Ok(())) => false,
        (Some(index), Err(error)) => before.rename_collision(index, path@, keys) == Some(error.0@)
            && after == before,
        (Some(index), Ok(())) => before.rename_collision(index, path@, keys) is None && after
            == before.edited(
            index,
            Document { path: Some(path), ..before.documents[index] },
        ).refreshed(),
    }
}

#[derive(Clone, Copy, Debug, PartialEq, Eq, Structural)]
pub struct CloseReview {
    pub id: DocumentId,
    pub generation: u64,
}

impl CloseReview {
    pub fn key(self) -> (key: CloseReviewKey)
        ensures
            key == key_of_review(self),
    {
        CloseReviewKey { id: self.id, generation: self.generation }
    }
}

/// A document at one of its generations, as a review saw it.
#[derive(Clone, Copy, Debug, PartialEq, Eq, Structural)]
pub struct CloseReviewKey {
    pub id: DocumentId,
    pub generation: u64,
}

pub open spec fn key_of_review(review: CloseReview) -> CloseReviewKey {
    CloseReviewKey { id: review.id, generation: review.generation }
}

pub open spec fn review_of(document: Document) -> CloseReview {
    CloseReview { id: document.id, generation: document.generation }
}

#[derive(Clone, Copy, Debug, PartialEq, Eq, Structural)]
pub enum CloseReviewError {
    Cancelled,
    Stale,
    Unsaved,
}

#[derive(Clone, Copy, Debug, PartialEq, Eq, Structural)]
pub struct UnknownDocument(pub DocumentId);

/// A path that names no file, or the key of a file that another tab has.
#[derive(Debug, PartialEq, Eq)]
pub struct DuplicateDocumentPath(pub String);

/// The first document that keeps `documents` from being tabs together: one whose file is not
/// found, or whose file an earlier one has.
pub open spec fn first_collision(documents: Seq<Document>, keys: PathKeys) -> Option<Seq<char>>
    decreases documents.len(),
{
    if documents.len() == 0 {
        None
    } else {
        match first_collision(documents.drop_last(), keys) {
            Some(path) => Some(path),
            None => match documents.last().path {
                None => None,
                Some(path) => match keys.key(path@) {
                    None => Some(path@),
                    Some(key) => if keys.keys_of(documents.drop_last()).contains(
                        Some(crate::paths::path_key(key)),
                    ) {
                        Some(key)
                    } else {
                        None
                    },
                },
            },
        }
    }
}

fn position_of_id(documents: &Vec<Document>, id: DocumentId) -> (index: Option<usize>)
    ensures
        match index {
            Some(index) => index < documents.len() && ids_of(documents@).index_of_first(id)
                == Some(index as int) && documents@[index as int].id == id,
            None => ids_of(documents@).index_of_first(id) is None,
        },
{
    let ghost ids = ids_of(documents@);
    proof {
        ids.index_of_first_ensures(id);
    }
    let mut at: usize = 0;
    while at < documents.len()
        invariant
            at <= documents.len(),
            ids == ids_of(documents@),
            forall|i: int| 0 <= i < at ==> ids[i] != id,
            match ids.index_of_first(id) {
                Some(index) => 0 <= index < ids.len() && ids[index] == id && forall|j: int|
                    0 <= j < index < ids.len() ==> ids[j] != id,
                None => !ids.contains(id),
            },
        decreases documents.len() - at,
    {
        if documents[at].id == id {
            assert(ids[at as int] == id);
            return Some(at);
        }
        at = at + 1;
    }
    None
}

fn position_of_key(documents: &Vec<Document>, keys: &PathKeys, key: &String) -> (index: Option<
    usize,
>)
    ensures
        match index {
            Some(index) => index < documents.len() && keys.keys_of(documents@).index_of_first(
                Some(key@),
            ) == Some(index as int),
            None => keys.keys_of(documents@).index_of_first(Some(key@)) is None,
        },
{
    let ghost all = keys.keys_of(documents@);
    proof {
        all.index_of_first_ensures(Some(key@));
    }
    let mut at: usize = 0;
    while at < documents.len()
        invariant
            at <= documents.len(),
            all == keys.keys_of(documents@),
            forall|i: int| 0 <= i < at ==> all[i] != Some(key@),
            match all.index_of_first(Some(key@)) {
                Some(index) => 0 <= index < all.len() && all[index] == Some(key@) && forall|j: int|
                    0 <= j < index < all.len() ==> all[j] != Some(key@),
                None => !all.contains(Some(key@)),
            },
        decreases documents.len() - at,
    {
        assert(all[at as int] == keys.key_of(documents@[at as int]));
        match keys.document_key(&documents[at]) {
            Some(other) => if other == *key {
                return Some(at);
            },
            None => {},
        }
        at = at + 1;
    }
    None
}

/// Refuses documents that cannot be tabs together.
pub fn validate_unique_paths(documents: &Vec<Document>, keys: &PathKeys) -> (unique: Result<
    (),
    DuplicateDocumentPath,
>)
    ensures
        match unique {
            Ok(()) => first_collision(documents@, *keys) is None,
            Err(error) => first_collision(documents@, *keys) == Some(error.0@),
        },
{
    let mut seen: Vec<String> = Vec::new();
    let mut at: usize = 0;
    while at < documents.len()
        invariant
            at <= documents.len(),
            first_collision(documents@.take(at as int), *keys) is None,
            forall|key: Seq<char>| #[trigger]
                crate::text::texts(seen@).contains(key) <==> keys.keys_of(
                    documents@.take(at as int),
                ).contains(Some(key)),
        decreases documents.len() - at,
    {
        let ghost before = documents@.take(at as int);
        let ghost now = documents@.take(at + 1);
        assert(now.drop_last() == before);
        assert(now.last() == documents@[at as int]);
        assert(keys.keys_of(now) == keys.keys_of(before).push(keys.key_of(documents@[at as int])));
        match &documents[at].path {
            Some(path) => {
                match keys.canonical_key(path) {
                    Ok(key) => {
                        let known = key_of_path(key.as_str());
                        if has_text(&seen, &known) {
                            proof {
                                collision_carries(documents@, *keys, at + 1);
                            }
                            return Err(DuplicateDocumentPath(key));
                        }
                        let ghost texts = crate::text::texts(seen@);
                        seen.push(known);
                        assert(crate::text::texts(seen@) == texts.push(known@));
                        assert forall|other: Seq<char>|
                            #[trigger] crate::text::texts(seen@).contains(other) == keys.keys_of(
                                now,
                            ).contains(Some(other)) by {
                            vstd::seq_lib::lemma_seq_contains_after_push(texts, known@, other);
                            vstd::seq_lib::lemma_seq_contains_after_push(
                                keys.keys_of(before),
                                keys.key_of(documents@[at as int]),
                                Some(other),
                            );
                        }
                    },
                    Err(error) => {
                        proof {
                            collision_carries(documents@, *keys, at + 1);
                        }
                        return Err(error);
                    },
                }
            },
            None => {
                assert forall|other: Seq<char>|
                    #[trigger] crate::text::texts(seen@).contains(other) == keys.keys_of(
                        now,
                    ).contains(Some(other)) by {
                    vstd::seq_lib::lemma_seq_contains_after_push(
                        keys.keys_of(before),
                        keys.key_of(documents@[at as int]),
                        Some(other),
                    );
                }
            },
        }
        at = at + 1;
    }
    assert(documents@.take(at as int) == documents@);
    Ok(())
}

proof fn collision_carries(documents: Seq<Document>, keys: PathKeys, upto: int)
    requires
        0 <= upto <= documents.len(),
        first_collision(documents.take(upto), keys) is Some,
    ensures
        first_collision(documents, keys) == first_collision(documents.take(upto), keys),
    decreases documents.len() - upto,
{
    if upto < documents.len() {
        assert(documents.drop_last().take(upto) == documents.take(upto));
        collision_carries(documents.drop_last(), keys, upto);
    } else {
        assert(documents.take(upto) == documents);
    }
}

#[derive(Debug)]
pub struct Tabs {
    documents: Vec<Document>,
    /// Every tab, the most recently activated first; the active tab leads. Kept in memory only.
    recent: Vec<DocumentId>,
    selection: TabSelection,
    view: TabView,
}

impl Tabs {
    /// The tabs as values.
    pub closed spec fn state(&self) -> TabsView {
        TabsView {
            documents: self.documents@,
            recent: self.recent@,
            selection: self.selection,
            revision: self.view.revision,
            shown: shown(self.view.tabs@),
            preview_buttons: self.view.preview_buttons,
        }
    }
}

/// Tabs freshly made of `documents`: the first is selected, and they were activated in order.
pub open spec fn tabs_with(documents: Seq<Document>) -> TabsView {
    TabsView {
        documents,
        recent: ids_of(documents),
        selection: TabSelection { active: 0, scroll: 0, strip_left: 0 },
        revision: 0,
        shown: tabs_of(documents),
        preview_buttons: false,
    }
}

fn all_ids(documents: &Vec<Document>) -> (ids: Vec<DocumentId>)
    ensures
        ids@ == ids_of(documents@),
{
    let mut ids: Vec<DocumentId> = Vec::new();
    let mut at: usize = 0;
    while at < documents.len()
        invariant
            at <= documents.len(),
            ids@ == ids_of(documents@).take(at as int),
        decreases documents.len() - at,
    {
        ids.push(documents[at].id);
        at = at + 1;
        assert(ids@ == ids_of(documents@).take(at as int));
    }
    assert(ids_of(documents@).take(at as int) == ids_of(documents@));
    ids
}

impl Default for Tabs {
    fn default() -> (tabs: Self)
        ensures
            tabs.state() == tabs_with(Seq::empty()),
    {
        Tabs::new()
    }
}

impl Tabs {
    fn of(documents: Vec<Document>) -> (tabs: Self)
        ensures
            tabs.state() == tabs_with(documents@),
    {
        Tabs {
            view: TabView::new(&documents),
            recent: all_ids(&documents),
            documents,
            selection: TabSelection::new(0),
        }
    }

    pub fn new() -> (tabs: Self)
        ensures
            tabs.state() == tabs_with(Seq::empty()),
    {
        Tabs::of(Vec::new())
    }

    pub fn with_document(document: Document) -> (tabs: Self)
        ensures
            tabs.state() == tabs_with(seq![document]),
    {
        let mut documents: Vec<Document> = Vec::new();
        documents.push(document);
        assert(documents@ == seq![document]);
        Tabs::of(documents)
    }

    /// Tabs of all `documents`, unless a document's file is not found or an earlier one has it.
    pub fn from_documents(documents: Vec<Document>, keys: &PathKeys) -> (tabs: Result<
        Self,
        DuplicateDocumentPath,
    >)
        ensures
            match tabs {
                Ok(tabs) => first_collision(documents@, *keys) is None && tabs.state() == tabs_with(
                    documents@,
                ),
                Err(error) => first_collision(documents@, *keys) == Some(error.0@),
            },
    {
        match validate_unique_paths(&documents, keys) {
            Ok(()) => Ok(Tabs::of(documents)),
            Err(error) => Err(error),
        }
    }

    pub fn len(&self) -> (count: usize)
        ensures
            count == self.state().documents.len(),
    {
        self.documents.len()
    }

    pub fn is_empty(&self) -> (empty: bool)
        ensures
            empty == (self.state().documents.len() == 0),
    {
        self.documents.len() == 0
    }

    pub fn active_index(&self) -> (index: usize)
        ensures
            index == self.state().selection.active,
    {
        self.selection.active_index()
    }

    pub fn scroll_offset(&self) -> (offset: i32)
        ensures
            offset == self.state().selection.scroll,
    {
        self.selection.scroll_offset()
    }

    /// Scrolls the strip; reports whether the offset changed.
    pub fn set_scroll_offset(&mut self, offset: i32) -> (changed: bool)
        ensures
            final(self).state() == (TabsView {
                selection: TabSelection {
                    scroll: vstd::math::max(offset as int, 0) as i32,
                    ..old(self).state().selection
                },
                ..old(self).state()
            }),
            changed == (final(self).state().selection.scroll != old(self).state().selection.scroll),
    {
        self.selection.set_scroll_offset(offset)
    }

    /// Publishes the sidebar's right edge, where the strip starts.
    pub fn set_strip_left(&mut self, left: i32)
        ensures
            final(self).state() == (TabsView {
                selection: TabSelection {
                    strip_left: vstd::math::max(left as int, 0) as i32,
                    ..old(self).state().selection
                },
                ..old(self).state()
            }),
    {
        self.selection.set_strip_left(left);
    }

    pub fn selection(&self) -> (selection: &TabSelection)
        ensures
            *selection == self.state().selection,
    {
        &self.selection
    }

    /// A screen reader's request to select tab `index`, which then leads the activation order; one
    /// past the last tab is refused.
    pub fn select_tab(&mut self, index: usize) -> (selected: bool)
        ensures
            selected == (index < old(self).state().documents.len()),
            selected ==> final(self).state() == old(self).state().activated(index as int),
            !selected ==> final(self).state() == old(self).state(),
    {
        if !self.selection.select(index, self.documents.len()) {
            return false;
        }
        let id: DocumentId = self.documents[index].id;
        self.touch(id);
        assert(self.state() == old(self).state().activated(index as int));
        true
    }

    pub fn view(&self) -> (view: &TabView)
        ensures
            view.revision == self.state().revision,
            shown(view.tabs@) == self.state().shown,
            view.preview_buttons == self.state().preview_buttons,
    {
        &self.view
    }

    /// Shows the documents as they are now, after one's title changed in place.
    pub fn refresh_view(&mut self)
        ensures
            final(self).state() == old(self).state().refreshed(),
    {
        self.view.update(&self.documents);
    }

    pub fn set_preview_buttons(&mut self, visible: bool)
        ensures
            final(self).state() == (TabsView { preview_buttons: visible, ..old(self).state() }),
    {
        self.view.set_preview_buttons(visible);
    }

    /// The selected document, or `None` once every tab has been closed.
    pub fn active(&self) -> (document: Option<&Document>)
        ensures
            match document {
                Some(document) => self.state().active_document() == Some(*document),
                None => self.state().active_document() is None,
            },
    {
        if self.selection.active < self.documents.len() {
            Some(&self.documents[self.selection.active])
        } else {
            None
        }
    }

    pub fn document(&self, id: DocumentId) -> (document: Option<&Document>)
        ensures
            match document {
                Some(document) => self.state().place(id) is Some && *document
                    == self.state().documents[self.state().place(id)->0],
                None => self.state().place(id) is None,
            },
    {
        match position_of_id(&self.documents, id) {
            Some(index) => Some(&self.documents[index]),
            None => None,
        }
    }

    pub fn document_mut(&mut self, id: DocumentId) -> (document: Option<&mut Document>)
        ensures
            match document {
                Some(document) => {
                    &&& old(self).state().place(id) is Some
                    &&& *document == old(self).state().documents[old(self).state().place(id)->0]
                    &&& final(self).state() == old(self).state().edited(old(self).state().place(id)->0, *final(document))
                },
                None => old(self).state().place(id) is None && final(self).state() == old(self).state(),
            },
    {
        match position_of_id(&self.documents, id) {
            Some(index) => Some(&mut self.documents[index]),
            None => None,
        }
    }

    /// The tab of the file that `path` names.
    pub fn find_path(&self, path: &String, keys: &PathKeys) -> (id: Option<DocumentId>)
        ensures
            found(self.state().documents, path@, *keys, id),
    {
        match keys.canonical_key(path) {
            Ok(key) => {
                let known = key_of_path(key.as_str());
                proof {
                    keys.keys_of(self.documents@).index_of_first_ensures(Some(known@));
                }
                match position_of_key(&self.documents, keys, &known) {
                    Some(index) => Some(self.documents[index].id),
                    None => None,
                }
            },
            Err(_) => None,
        }
    }

    /// The tab whose stored path names `path`, where `keys` are the absolute paths, which need no
    /// disk: unlike `find_path`, it finds a tab whose file no longer exists.
    pub fn find_stored_path(&self, path: &String, keys: &PathKeys) -> (id: Option<DocumentId>)
        ensures
            found_stored(self.state().documents, path@, *keys, id),
    {
        let key = keys.stored_key(path);
        let ghost all = keys.stored_of(self.documents@);
        proof {
            all.index_of_first_ensures(Some(key@));
        }
        let mut at: usize = 0;
        while at < self.documents.len()
            invariant
                at <= self.documents.len(),
                all == keys.stored_of(self.documents@),
                key@ == keys.stored(path@),
                forall|i: int| 0 <= i < at ==> all[i] != Some(key@),
                match all.index_of_first(Some(key@)) {
                    Some(index) => 0 <= index < all.len() && all[index] == Some(key@) && forall|
                        j: int,
                    |
                        0 <= j < index < all.len() ==> all[j] != Some(key@),
                    None => !all.contains(Some(key@)),
                },
            decreases self.documents.len() - at,
        {
            if let Some(stored) = &self.documents[at].path {
                let other = keys.stored_key(stored);
                if other == key {
                    assert(all[at as int] == Some(key@));
                    return Some(self.documents[at].id);
                }
            }
            at = at + 1;
        }
        None
    }

    /// Moves `id` to the front of the activation order.
    fn touch(&mut self, id: DocumentId)
        ensures
            final(self).state() == (TabsView { recent: with_front(old(self).state().recent, id), ..old(self).state() }),
    {
        let mut rest = remove_id(&self.recent, id);
        rest.insert(0, id);
        assert(rest@ == with_front(self.recent@, id));
        self.recent = rest;
    }

    fn forget(&mut self, id: DocumentId)
        ensures
            final(self).state() == (TabsView { recent: without(old(self).state().recent, id), ..old(self).state() }),
    {
        self.recent = remove_id(&self.recent, id);
    }

    /// Puts `document` in the active tab and returns the one it replaced.
    pub fn replace_active_untitled(&mut self, document: Document) -> (replaced: Option<Document>)
        ensures
            match replaced {
                Some(replaced) => old(self).state().active_document() == Some(replaced) && final(self).state()
                    == old(self).state().replaced(old(self).state().selection.active as int, document),
                None => old(self).state().active_document() is None && final(self).state() == old(self).state(),
            },
    {
        let index: usize = self.selection.active;
        if index >= self.documents.len() {
            return None;
        }
        let id: DocumentId = document.id;
        let mut replaced = document;
        std::mem::swap(&mut self.documents[index], &mut replaced);
        self.forget(replaced.id);
        self.touch(id);
        self.view.update(&self.documents);
        assert(self.state() == old(self).state().replaced(index as int, document));
        Some(replaced)
    }

    pub fn ids(&self) -> (ids: Vec<DocumentId>)
        ensures
            ids@ == ids_of(self.state().documents),
    {
        all_ids(&self.documents)
    }

    pub fn titles(&self) -> (titles: Vec<String>)
        ensures
            crate::text::texts(titles@) == self.state().documents.map_values(
                |document: Document| crate::document::titled(document),
            ),
    {
        let mut titles: Vec<String> = Vec::new();
        let mut at: usize = 0;
        let ghost all = self.documents@.map_values(
            |document: Document| crate::document::titled(document),
        );
        while at < self.documents.len()
            invariant
                at <= self.documents.len(),
                all == self.documents@.map_values(
                    |document: Document| crate::document::titled(document),
                ),
                crate::text::texts(titles@) == all.take(at as int),
            decreases self.documents.len() - at,
        {
            let ghost before = titles@;
            let title = self.documents[at].title();
            titles.push(title);
            at = at + 1;
            assert(crate::text::texts(titles@) == crate::text::texts(before).push(title@));
            assert(all.take(at as int) == all.take(at - 1).push(title@));
        }
        assert(all.take(at as int) == all);
        titles
    }

    pub fn activate(&mut self, id: DocumentId) -> (result: Result<(), UnknownDocument>)
        ensures
            match result {
                Ok(()) => old(self).state().place(id) is Some && final(self).state() == old(self).state().activated(
                    old(self).state().place(id)->0,
                ),
                Err(error) => old(self).state().place(id) is None && error == UnknownDocument(id)
                    && final(self).state() == old(self).state(),
            },
    {
        match position_of_id(&self.documents, id) {
            Some(index) => {
                self.selection.select(index, self.documents.len());
                self.touch(id);
                assert(self.state() == old(self).state().activated(index as int));
                Ok(())
            },
            None => Err(UnknownDocument(id)),
        }
    }

    /// The tabs, the most recently activated first.
    pub fn activation_order(&self) -> (order: &Vec<DocumentId>)
        ensures
            order@ == self.state().recent,
    {
        &self.recent
    }

    /// Restarts the activation order from the strip, the active tab first: how restored tabs
    /// enter it once they are all open again.
    pub fn reset_activation_order(&mut self)
        ensures
            final(self).state() == old(self).state().order_restarted(),
    {
        let ids = all_ids(&self.documents);
        self.recent = ids;
        if self.selection.active < self.documents.len() {
            let id: DocumentId = self.documents[self.selection.active].id;
            self.touch(id);
        }
    }

    pub fn activate_index(&mut self, index: usize) -> (result: Result<(), UnknownDocument>)
        ensures
            index < old(self).state().documents.len() ==> result is Ok && final(self).state()
                == old(self).state().activated(
                old(self).state().place(old(self).state().documents[index as int].id)->0,
            ),
            index >= old(self).state().documents.len() ==> result == Err::<(), UnknownDocument>(
                UnknownDocument(DocumentId(u64::MAX)),
            ) && final(self).state() == old(self).state(),
    {
        if index >= self.documents.len() {
            return Err(UnknownDocument(DocumentId(u64::MAX)));
        }
        let id: DocumentId = self.documents[index].id;
        proof {
            let ids = ids_of(self.documents@);
            assert(ids[index as int] == id);
            ids.index_of_first_ensures(id);
        }
        self.activate(id)
    }

    /// Adds `document` as the last tab and selects it, unless its file is not found or is open in
    /// another tab.
    pub fn push(&mut self, document: Document, keys: &PathKeys) -> (result: Result<
        (),
        DuplicateDocumentPath,
    >)
        ensures
            match result {
                Ok(()) => old(self).state().collision(document, *keys) is None && final(self).state()
                    == old(self).state().pushed(document),
                Err(error) => old(self).state().collision(document, *keys) == Some(error.0@)
                    && final(self).state() == old(self).state(),
            },
    {
        match &document.path {
            Some(path) => match keys.canonical_key(path) {
                Ok(key) => {
                    let known = key_of_path(key.as_str());
                    proof {
                        keys.keys_of(self.documents@).index_of_first_ensures(Some(known@));
                    }
                    if position_of_key(&self.documents, keys, &known).is_some() {
                        return Err(DuplicateDocumentPath(key));
                    }
                },
                Err(error) => return Err(error),
            },
            None => {},
        }
        let id: DocumentId = document.id;
        self.documents.push(document);
        let index: usize = self.documents.len() - 1;
        self.selection.select(index, self.documents.len());
        self.touch(id);
        self.view.update(&self.documents);
        assert(self.state() == old(self).state().pushed(document));
        Ok(())
    }

    pub fn close_active(&mut self, decision: CloseDecision) -> (closed: Result<
        Document,
        CloseCancelled,
    >)
        requires
            old(self).state().wf(),
        ensures
            final(self).state().wf(),
            closed_selected(old(self).state(), final(self).state(), decision, closed),
    {
        if decision == CloseDecision::Cancel || self.documents.len() == 0 {
            return Err(CloseCancelled);
        }
        let index: usize = self.selection.active;
        let closed = self.documents.remove(index);
        self.select_after_removal(index, closed.id);
        assert(self.state() == old(self).state().closed(index as int));
        Ok(closed)
    }

    /// Keeps the successor of a removed tab selected (or its predecessor at the end of the strip).
    /// `closed` leaves the activation order and the tab now selected takes its front.
    fn select_after_removal(&mut self, removed: usize, closed: DocumentId)
        ensures
            ({
                let before = old(self).state();
                let count = before.documents.len();
                let next = vstd::math::min(removed as int, vstd::math::max(count - 1, 0));
                let rest = TabsView { recent: without(before.recent, closed), ..before };
                final(self).state() == if count > 0 {
                    rest.activated(next).refreshed()
                } else {
                    rest.selecting(next).refreshed()
                }
            }),
    {
        let active: usize = removed.min(self.documents.len().saturating_sub(1));
        self.selection.active = active;
        self.forget(closed);
        if active < self.documents.len() {
            let id: DocumentId = self.documents[active].id;
            self.touch(id);
        }
        self.view.update(&self.documents);
    }

    /// What a close of the active tab would be reviewed against.
    pub fn active_close_review(&self) -> (review: Option<CloseReview>)
        ensures
            review == (match self.state().active_document() {
                Some(document) => Some(review_of(document)),
                None => None,
            }),
    {
        match self.active() {
            Some(document) => Some(
                CloseReview { id: document.id, generation: document.generation },
            ),
            None => None,
        }
    }

    /// Closes the active tab as reviewed. A review of another tab, of a tab that is gone or of an
    /// earlier generation is stale, and a document that was to be saved first must be clean.
    pub fn close_reviewed(&mut self, review: CloseReview, decision: CloseDecision) -> (closed: Result<
        Document,
        CloseReviewError,
    >)
        requires
            old(self).state().wf(),
        ensures
            final(self).state().wf(),
            closed_reviewed(old(self).state(), final(self).state(), review, decision, closed),
    {
        if decision == CloseDecision::Cancel {
            return Err(CloseReviewError::Cancelled);
        }
        let index: usize = match position_of_id(&self.documents, review.id) {
            Some(index) => index,
            None => return Err(CloseReviewError::Stale),
        };
        if index != self.selection.active || self.documents[index].generation
            != review.generation {
            return Err(CloseReviewError::Stale);
        }
        // A Save answer must never close a document whose save did not happen.
        if decision == CloseDecision::Save && self.documents[index].dirty {
            return Err(CloseReviewError::Unsaved);
        }
        let closed = self.documents.remove(index);
        self.select_after_removal(index, closed.id);
        assert(self.state() == old(self).state().closed(index as int));
        Ok(closed)
    }

    /// Closes the clean tab `review` names without activating it: the active tab stays active and
    /// keeps its place in the activation order. `Stale` when that tab has gone, is the active one
    /// or changed since `review`; `Unsaved` when it has unsaved edits.
    pub fn close_clean_background(&mut self, review: CloseReview) -> (closed: Result<
        Document,
        CloseReviewError,
    >)
        requires
            old(self).state().wf(),
        ensures
            final(self).state().wf(),
            closed_unseen(old(self).state(), final(self).state(), review, closed),
    {
        let index: usize = match position_of_id(&self.documents, review.id) {
            Some(index) => index,
            None => return Err(CloseReviewError::Stale),
        };
        let active: usize = self.selection.active;
        if index == active || self.documents[index].generation != review.generation {
            return Err(CloseReviewError::Stale);
        }
        if self.documents[index].dirty {
            return Err(CloseReviewError::Unsaved);
        }
        let closed = self.documents.remove(index);
        if index < active {
            self.selection.active = active - 1;
        }
        self.forget(closed.id);
        self.view.update(&self.documents);
        assert(self.state() == old(self).state().closed_behind(index as int));
        Ok(closed)
    }

    /// The first document with unsaved changes that `reviewed` does not list at its generation.
    pub fn next_dirty_review(&self, reviewed: &Vec<CloseReviewKey>) -> (review: Option<CloseReview>)
        ensures
            reviewed_next(self.state().documents, reviewed@, review),
    {
        let mut at: usize = 0;
        while at < self.documents.len()
            invariant
                at <= self.documents.len(),
                forall|j: int|
                    0 <= j < at ==> !awaits_review(#[trigger] self.documents@[j], reviewed@),
            decreases self.documents.len() - at,
        {
            let document = &self.documents[at];
            let review = CloseReview { id: document.id, generation: document.generation };
            if document.dirty && !contains_key(reviewed, review.key()) {
                assert(awaits_review(self.state().documents[at as int], reviewed@));
                return Some(review);
            }
            at = at + 1;
        }
        None
    }

    pub fn dirty_review_is_current(&self, review: CloseReview) -> (current: bool)
        ensures
            current == self.state().still_dirty(review),
    {
        match self.document(review.id) {
            Some(document) => document.dirty && document.generation == review.generation,
            None => false,
        }
    }

    /// Marks the active document dirty or clean; reports whether that changed it. A recovered
    /// document stays dirty until its origin is taken.
    pub fn set_active_dirty(&mut self, dirty: bool) -> (changed: bool)
        ensures
            (changed, final(self).state()) == old(self).state().marked(dirty),
    {
        let active: usize = self.selection.active;
        if active >= self.documents.len() {
            return false;
        }
        if self.documents[active].dirty == dirty || (!dirty
            && self.documents[active].recovery_origin.is_some()) {
            return false;
        }
        let generation: u64 = self.documents[active].generation.saturating_add(1);
        let document = &mut self.documents[active];
        document.dirty = dirty;
        document.generation = generation;
        self.view.update(&self.documents);
        true
    }

    /// Records the active document's language; reports whether that changed it.
    pub fn set_active_language(&mut self, language: Language) -> (changed: bool)
        ensures
            (changed, final(self).state()) == old(self).state().in_language(language),
    {
        let active: usize = self.selection.active;
        if active >= self.documents.len() || self.documents[active].language == language {
            return false;
        }
        self.documents[active].language = language;
        true
    }

    pub fn documents(&self) -> (documents: &Vec<Document>)
        ensures
            documents@ == self.state().documents,
    {
        &self.documents
    }

    /// Records the generation of `id` that recovery stored.
    pub fn record_recovery_generation(&mut self, id: DocumentId, generation: u64)
        ensures
            final(self).state() == old(self).state().stored_at(id, generation),
    {
        match position_of_id(&self.documents, id) {
            Some(index) => {
                self.documents[index].recovery_generation = Some(generation);
            },
            None => {},
        }
    }

    /// Takes where the active document's text was recovered from.
    pub fn take_active_recovery_origin(&mut self) -> (origin: Option<RecoveryOrigin>)
        ensures
            (origin, final(self).state()) == old(self).state().without_origin(),
    {
        let active: usize = self.selection.active;
        if active >= self.documents.len() {
            return None;
        }
        let mut origin: Option<RecoveryOrigin> = None;
        let document = &mut self.documents[active];
        std::mem::swap(&mut document.recovery_origin, &mut origin);
        origin
    }

    /// A text change in the active tab. The first one makes a preview tab normal, so replacing
    /// the preview can never drop an edit; returns whether that happened.
    pub fn note_active_text_change(&mut self) -> (promoted: bool)
        ensures
            (promoted, final(self).state()) == old(self).state().text_changed(),
    {
        let active: usize = self.selection.active;
        if active >= self.documents.len() {
            return false;
        }
        let generation: u64 = self.documents[active].generation.saturating_add(1);
        let preview: bool = self.documents[active].preview;
        let document = &mut self.documents[active];
        document.generation = generation;
        document.preview = false;
        if !preview {
            return false;
        }
        self.view.update(&self.documents);
        true
    }

    /// A background tab's text was changed while it was swapped in: it is dirty now, at a new
    /// generation, and no preview any more. Returns whether the strip changed.
    pub fn note_background_edit(&mut self, id: DocumentId) -> (changed: bool)
        ensures
            (changed, final(self).state()) == old(self).state().edited_unseen(id),
    {
        let index: usize = match position_of_id(&self.documents, id) {
            Some(index) => index,
            None => return false,
        };
        let generation: u64 = self.documents[index].generation.saturating_add(1);
        let changed: bool = !self.documents[index].dirty || self.documents[index].preview;
        let document = &mut self.documents[index];
        document.generation = generation;
        document.dirty = true;
        document.preview = false;
        if changed {
            self.view.update(&self.documents);
        }
        changed
    }

    fn preview_position(&self) -> (index: Option<usize>)
        ensures
            match index {
                Some(index) => index < self.state().documents.len() && self.state().preview_place() == Some(
                    index as int,
                ),
                None => self.state().preview_place() is None,
            },
    {
        let ghost flags = self.documents@.map_values(|document: Document| document.preview);
        proof {
            flags.index_of_first_ensures(true);
        }
        let mut at: usize = 0;
        while at < self.documents.len()
            invariant
                at <= self.documents.len(),
                flags == self.documents@.map_values(|document: Document| document.preview),
                forall|i: int| 0 <= i < at ==> flags[i] != true,
                match flags.index_of_first(true) {
                    Some(index) => 0 <= index < flags.len() && flags[index] == true && forall|j: int|
                        0 <= j < index < flags.len() ==> flags[j] != true,
                    None => !flags.contains(true),
                },
            decreases self.documents.len() - at,
        {
            if self.documents[at].preview {
                assert(flags[at as int] == true);
                return Some(at);
            }
            at = at + 1;
        }
        None
    }

    /// The preview tab, if one is open.
    pub fn preview_id(&self) -> (id: Option<DocumentId>)
        ensures
            id == (match self.state().preview_place() {
                Some(index) => Some(self.state().documents[index].id),
                None => None,
            }),
    {
        match self.preview_position() {
            Some(index) => Some(self.documents[index].id),
            None => None,
        }
    }

    /// Puts `document` where the preview tab is, selects it and returns the document it replaced.
    /// With no preview tab, `document` is added like any new tab and `None` is returned. The same
    /// happens when the preview somehow has unsaved edits: it is kept as a normal tab.
    pub fn replace_preview(&mut self, document: Document, keys: &PathKeys) -> (replaced: Option<
        Document,
    >)
        ensures
            final(self).state() == old(self).state().previewing(document, *keys),
            replaced == (match old(self).state().preview_place() {
                Some(index) if !old(self).state().documents[index].dirty => Some(
                    old(self).state().documents[index],
                ),
                _ => None,
            }),
    {
        let place = self.preview_position();
        match place {
            Some(index) => {
                if !self.documents[index].dirty {
                    let id: DocumentId = document.id;
                    let mut replaced = document;
                    std::mem::swap(&mut self.documents[index], &mut replaced);
                    self.selection.select(index, self.documents.len());
                    self.forget(replaced.id);
                    self.touch(id);
                    self.view.update(&self.documents);
                    assert(self.state() == old(self).state().replaced(index as int, document));
                    return Some(replaced);
                }
                self.documents[index].preview = false;
            },
            None => {},
        }
        if self.push(document, keys).is_err() {
            self.view.update(&self.documents);
        }
        None
    }

    /// Makes `id` a normal tab; returns whether it was the preview.
    pub fn promote(&mut self, id: DocumentId) -> (promoted: bool)
        ensures
            (promoted, final(self).state()) == old(self).state().promoted(id),
    {
        let index: usize = match position_of_id(&self.documents, id) {
            Some(index) => index,
            None => return false,
        };
        if !self.documents[index].preview {
            return false;
        }
        self.documents[index].preview = false;
        self.view.update(&self.documents);
        true
    }

    /// Retires every tab.
    pub fn clear_for_shutdown(&mut self)
        ensures
            final(self).state() == old(self).state().cleared(),
    {
        self.documents.clear();
        self.recent.clear();
        self.selection.active = 0;
        self.view.update(&self.documents);
    }

    /// The editor's handle of the active document.
    pub fn active_handle(&self) -> (handle: Option<u64>)
        ensures
            handle == (match self.state().active_document() {
                Some(document) => Some(document.handle),
                None => None,
            }),
    {
        match self.active() {
            Some(document) => Some(document.handle),
            None => None,
        }
    }

    /// Rejects `path` if a tab other than `exclude` has its file. A path that names no file yet
    /// cannot collide.
    fn reject_path_collision(&self, exclude: usize, path: &String, keys: &PathKeys) -> (result: Result<
        (),
        DuplicateDocumentPath,
    >)
        ensures
            match result {
                Ok(()) => self.state().rename_collision(exclude as int, path@, *keys) is None,
                Err(error) => self.state().rename_collision(exclude as int, path@, *keys) == Some(
                    error.0@,
                ),
            },
    {
        let key = match keys.canonical_key(path) {
            Ok(key) => key,
            Err(_) => return Ok(()),
        };
        let known = key_of_path(key.as_str());
        let mut at: usize = 0;
        while at < self.documents.len()
            invariant
                at <= self.documents.len(),
                keys.key(path@) == Some(key@),
                known@ == crate::paths::path_key(key@),
                forall|other: int|
                    0 <= other < at && other != exclude ==> keys.key_of(
                        #[trigger] self.state().documents[other],
                    ) != Some(known@),
            decreases self.documents.len() - at,
        {
            if at != exclude {
                match keys.document_key(&self.documents[at]) {
                    Some(other) => if other == known {
                        assert(keys.key_of(self.state().documents[at as int]) == Some(known@));
                        return Err(DuplicateDocumentPath(key));
                    },
                    None => {},
                }
            }
            at = at + 1;
        }
        Ok(())
    }

    /// Renames the active document, e.g. after a Save As, unless another tab has the file.
    pub fn set_active_path(&mut self, path: String, keys: &PathKeys) -> (result: Result<
        (),
        DuplicateDocumentPath,
    >)
        ensures
            renamed(
                old(self).state(),
                final(self).state(),
                old(self).state().active_place(),
                path,
                *keys,
                result,
            ),
    {
        let active: usize = self.selection.active;
        if active >= self.documents.len() {
            return Err(DuplicateDocumentPath(path));
        }
        match self.reject_path_collision(active, &path, keys) {
            Err(error) => Err(error),
            Ok(()) => {
                self.documents[active].path = Some(path);
                self.view.update(&self.documents);
                Ok(())
            },
        }
    }

    /// Rebinds `id`'s path, e.g. after a note was renamed on disk, unless another tab has the
    /// file. The strip shows the new title.
    pub fn rebind_path(&mut self, id: DocumentId, path: String, keys: &PathKeys) -> (result: Result<
        (),
        DuplicateDocumentPath,
    >)
        ensures
            renamed(
                old(self).state(),
                final(self).state(),
                old(self).state().place(id),
                path,
                *keys,
                result,
            ),
    {
        let index: usize = match position_of_id(&self.documents, id) {
            Some(index) => index,
            None => return Err(DuplicateDocumentPath(path)),
        };
        match self.reject_path_collision(index, &path, keys) {
            Err(error) => Err(error),
            Ok(()) => {
                self.documents[index].path = Some(path);
                self.view.update(&self.documents);
                Ok(())
            },
        }
    }

    /// Reverts the active document's path to one it held before, e.g. after a Save As whose write
    /// failed. It cannot newly collide with another tab.
    pub fn revert_active_path(&mut self, original: Option<String>)
        ensures
            final(self).state() == old(self).state().path_reverted(original),
    {
        let active: usize = self.selection.active;
        if active < self.documents.len() {
            self.documents[active].path = original;
            self.view.update(&self.documents);
        }
    }
}

/// A document with unsaved changes that no listed review covers.
pub open spec fn awaits_review(document: Document, reviewed: Seq<CloseReviewKey>) -> bool {
    document.dirty && !reviewed.contains(key_of_review(review_of(document)))
}

fn contains_key(keys: &Vec<CloseReviewKey>, key: CloseReviewKey) -> (found: bool)
    ensures
        found == keys@.contains(key),
{
    let mut at: usize = 0;
    while at < keys.len()
        invariant
            at <= keys.len(),
            forall|i: int| 0 <= i < at ==> keys@[i] != key,
        decreases keys.len() - at,
    {
        if keys[at] == key {
            return true;
        }
        at = at + 1;
    }
    false
}

} // verus!
