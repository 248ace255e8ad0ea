use fastpad::document::{CloseDecision, Document, DocumentId, Language, RecoveryOrigin};
use fastpad::tabs::{CloseReview, CloseReviewError, PathKeys, Tabs};

fn order(tabs: &Tabs) -> Vec<u64> {
    tabs.activation_order().iter().map(|id| id.0).collect()
}

fn document(id: u64) -> Document {
    Document::untitled(DocumentId(id), false)
}

#[test]
fn a_clean_background_tab_closes_where_it_is_and_the_active_tab_stays() {
    let mut tabs = Tabs::with_document(document(1));
    tabs.push(document(2), &PathKeys::new()).unwrap();
    tabs.push(document(3), &PathKeys::new()).unwrap();
    let review = |tabs: &Tabs, id: u64| CloseReview {
        id: DocumentId(id),
        generation: tabs.document(DocumentId(id)).unwrap().generation,
    };
    let first = review(&tabs, 1);
    let closed = tabs.close_clean_background(first).unwrap();
    assert_eq!(closed.id, DocumentId(1));
    assert_eq!(tabs.active().unwrap().id, DocumentId(3));
    assert_eq!(tabs.active_index(), 1);
    assert_eq!(order(&tabs), [3, 2]);
    assert_eq!(tabs.view().snapshot().tabs.len(), 2);

    let active = tabs.active_close_review().unwrap();
    assert_eq!(
        tabs.close_clean_background(active),
        Err(CloseReviewError::Stale)
    );
    tabs.document_mut(DocumentId(2)).unwrap().dirty = true;
    let dirty = review(&tabs, 2);
    assert_eq!(
        tabs.close_clean_background(dirty),
        Err(CloseReviewError::Unsaved)
    );
    let stale = CloseReview {
        generation: dirty.generation + 1,
        ..dirty
    };
    assert_eq!(
        tabs.close_clean_background(stale),
        Err(CloseReviewError::Stale)
    );
    assert_eq!(tabs.len(), 2);
}

fn preview(id: u64) -> Document {
    let mut document = document(id);
    document.preview = true;
    document
}

#[test]
fn a_background_edit_marks_only_that_tab_dirty_and_keeps_its_preview() {
    let mut tabs = Tabs::with_document(document(1));
    tabs.push(preview(2), &PathKeys::new()).unwrap();
    tabs.activate(DocumentId(1)).unwrap();
    let before = tabs.document(DocumentId(2)).unwrap().generation;
    assert!(tabs.note_background_edit(DocumentId(2)));
    let edited = tabs.document(DocumentId(2)).unwrap();
    assert!(edited.dirty && !edited.preview);
    assert_eq!(edited.generation, before + 1);
    assert!(!tabs.active().unwrap().dirty);
    assert!(!tabs.note_background_edit(DocumentId(2)), "already dirty");
    assert!(!tabs.note_background_edit(DocumentId(9)), "no such tab");
}

#[test]
fn replacing_the_preview_keeps_its_place_and_selects_it() {
    let mut tabs = Tabs::with_document(document(1));
    tabs.push(preview(2), &PathKeys::new()).unwrap();
    tabs.push(document(3), &PathKeys::new()).unwrap();
    assert_eq!(tabs.preview_id(), Some(DocumentId(2)));

    let old = tabs.replace_preview(preview(4), &PathKeys::new()).unwrap();
    assert_eq!(old.id, DocumentId(2));
    assert_eq!(
        tabs.documents()
            .iter()
            .map(|document| document.id)
            .collect::<Vec<_>>(),
        [DocumentId(1), DocumentId(4), DocumentId(3)]
    );
    assert_eq!(tabs.active_index(), 1);
    assert_eq!(tabs.preview_id(), Some(DocumentId(4)));
    assert!(tabs.view().snapshot().tabs[1].preview);
}

#[test]
fn a_dirty_preview_is_kept_as_a_normal_tab_and_the_new_one_is_added() {
    let mut tabs = Tabs::with_document(document(1));
    let mut edited = preview(2);
    edited.dirty = true;
    tabs.push(edited, &PathKeys::new()).unwrap();

    assert!(tabs.replace_preview(preview(3), &PathKeys::new()).is_none());
    assert_eq!(tabs.len(), 3);
    assert!(!tabs.document(DocumentId(2)).unwrap().preview);
    assert_eq!(tabs.preview_id(), Some(DocumentId(3)));
    assert_eq!(tabs.active_index(), 2);
}

#[test]
fn with_no_preview_replace_preview_adds_a_tab() {
    let mut tabs = Tabs::with_document(document(1));
    assert!(tabs.replace_preview(preview(2), &PathKeys::new()).is_none());
    assert_eq!(tabs.len(), 2);
    assert_eq!(tabs.preview_id(), Some(DocumentId(2)));
}

#[test]
fn the_first_edit_promotes_the_active_preview_once() {
    let mut tabs = Tabs::with_document(preview(1));
    assert!(tabs.note_active_text_change());
    assert!(!tabs.note_active_text_change());
    assert_eq!(tabs.preview_id(), None);
    assert!(!tabs.promote(DocumentId(1)));
    let mut tabs = Tabs::with_document(preview(1));
    assert!(tabs.promote(DocumentId(1)));
    assert!(!tabs.view().snapshot().tabs[0].preview);
}

#[test]
fn recovered_documents_stay_dirty_until_their_origin_is_cleared() {
    let mut recovered = Document::untitled(DocumentId(1), true);
    recovered.recovery_origin = Some(RecoveryOrigin {
        snapshot_path: "a.fps".to_owned(),
        original_path: None,
        from_session: false,
    });
    let mut tabs = Tabs::with_document(recovered);

    assert!(!tabs.set_active_dirty(false));
    assert!(tabs.active().unwrap().dirty);
    assert!(tabs.take_active_recovery_origin().is_some());
    assert!(tabs.set_active_dirty(false));
}

#[test]
fn native_document_tab_is_selected() {
    let tabs = Tabs::with_document(Document::untitled(DocumentId(1), false));
    assert_eq!(tabs.len(), 1);
    assert_eq!(tabs.active_index(), 0);
    assert_eq!(tabs.titles(), ["Untitled"]);
}

#[test]
fn set_active_language_updates_only_the_active_document() {
    let mut tabs = Tabs::from_documents(vec![document(1), document(2)], &PathKeys::new()).unwrap();
    tabs.activate(DocumentId(2)).unwrap();

    assert!(tabs.set_active_language(Language::Json));
    assert!(!tabs.set_active_language(Language::Json));
    assert_eq!(
        tabs.document(DocumentId(1)).unwrap().language,
        Language::PlainText
    );
    assert_eq!(
        tabs.document(DocumentId(2)).unwrap().language,
        Language::Json
    );
}

#[test]
fn shared_selection_updates_the_tab_model_and_rejects_out_of_range_indices() {
    let mut tabs = Tabs::from_documents(
        vec![
            Document::untitled(DocumentId(1), false),
            Document::untitled(DocumentId(2), false),
        ],
        &PathKeys::new(),
    )
    .unwrap();

    assert!(tabs.select_tab(1));
    assert_eq!(tabs.active_index(), 1);
    assert_eq!(tabs.active().unwrap().id, DocumentId(2));
    assert_eq!(order(&tabs), [2, 1], "the active tab leads");
    assert!(!tabs.select_tab(2));
    assert_eq!(tabs.active_index(), 1);
    assert_eq!(order(&tabs), [2, 1]);
}

/// The files found on disk: a `.` in a path does not matter.
fn keys(found: &[&str]) -> PathKeys {
    let mut keys = PathKeys::new();
    for path in found {
        keys.record((*path).to_owned(), path.replace("\\.\\", "\\"));
    }
    keys
}

#[test]
fn renaming_the_active_document_updates_its_path_and_the_tab_view() {
    let target = r"C:\root\saved-as.txt";
    let mut tabs = Tabs::with_document(document(1));
    let before = tabs.view().snapshot().revision;

    tabs.set_active_path(target.to_owned(), &keys(&[target])).unwrap();

    assert_eq!(tabs.active().unwrap().path.as_deref(), Some(target));
    assert!(tabs.view().snapshot().revision > before);
    assert_eq!(tabs.view().snapshot().tabs[0].title, "saved-as.txt");
}

#[test]
fn renaming_to_a_path_that_does_not_yet_exist_succeeds() {
    let target = r"C:\root\not-written-yet.txt";
    let mut tabs = Tabs::with_document(document(1));

    assert!(tabs.set_active_path(target.to_owned(), &PathKeys::new()).is_ok());
    assert_eq!(tabs.active().unwrap().path.as_deref(), Some(target));
}

#[test]
fn renaming_the_active_document_onto_another_open_tabs_canonical_path_is_rejected() {
    let other_path = r"C:\root\other.txt";
    let alternate = r"C:\root\.\other.txt";
    let found = keys(&[other_path, alternate]);
    let mut other = document(2);
    other.path = Some(other_path.to_owned());
    let mut tabs = Tabs::from_documents(vec![document(1), other], &found).unwrap();
    tabs.activate(DocumentId(1)).unwrap();

    assert!(tabs.set_active_path(alternate.to_owned(), &found).is_err());
    assert_eq!(tabs.active().unwrap().path, None);
}

#[test]
fn rebinding_a_path_rejects_one_another_tab_has() {
    let (path_a, path_b, path_c) = (r"C:\root\a.md", r"C:\root\b.md", r"C:\root\c.md");
    let found = keys(&[path_a, path_b, path_c]);

    let mut first = document(1);
    first.path = Some(path_a.to_owned());
    let mut second = document(2);
    second.path = Some(path_b.to_owned());
    let mut tabs = Tabs::from_documents(vec![first, second], &found).unwrap();

    assert!(tabs.rebind_path(DocumentId(1), path_b.to_owned(), &found).is_err());
    tabs.rebind_path(DocumentId(1), path_c.to_owned(), &found).unwrap();
    assert_eq!(
        tabs.document(DocumentId(1)).unwrap().path.as_deref(),
        Some(path_c)
    );
    tabs.document_mut(DocumentId(2)).unwrap().autosave_paused = true;
    assert!(tabs.document(DocumentId(2)).unwrap().autosave_paused);
}

#[test]
fn activating_or_opening_a_tab_moves_it_to_the_front_of_the_activation_order() {
    let mut tabs = Tabs::with_document(document(1));
    tabs.push(document(2), &PathKeys::new()).unwrap();
    tabs.push(document(3), &PathKeys::new()).unwrap();
    assert_eq!(order(&tabs), [3, 2, 1]);
    tabs.activate(DocumentId(1)).unwrap();
    assert_eq!(order(&tabs), [1, 3, 2]);
    tabs.activate_index(2).unwrap();
    assert_eq!(order(&tabs), [3, 1, 2]);
    tabs.activate(DocumentId(3)).unwrap();
    assert_eq!(order(&tabs), [3, 1, 2], "the active tab stays first");
}

#[test]
fn a_closed_tab_leaves_the_order_and_the_tab_taking_its_place_comes_first() {
    let mut tabs = Tabs::with_document(document(1));
    tabs.push(document(2), &PathKeys::new()).unwrap();
    tabs.push(document(3), &PathKeys::new()).unwrap();
    tabs.activate(DocumentId(2)).unwrap();
    assert_eq!(order(&tabs), [2, 3, 1]);
    tabs.close_active(CloseDecision::Discard).unwrap();
    assert_eq!(tabs.active().unwrap().id, DocumentId(3));
    assert_eq!(order(&tabs), [3, 1]);
    let review = tabs.active_close_review().unwrap();
    tabs.close_reviewed(review, CloseDecision::Discard).unwrap();
    assert_eq!(order(&tabs), [1]);
}

#[test]
fn a_tab_replaced_in_place_takes_the_front_and_the_old_document_leaves_the_order() {
    let mut tabs = Tabs::with_document(document(1));
    tabs.push(preview(2), &PathKeys::new()).unwrap();
    tabs.push(document(3), &PathKeys::new()).unwrap();
    tabs.replace_preview(preview(4), &PathKeys::new()).unwrap();
    assert_eq!(order(&tabs), [4, 3, 1]);
    tabs.activate(DocumentId(1)).unwrap();
    tabs.replace_active_untitled(document(5)).unwrap();
    assert_eq!(order(&tabs), [5, 4, 3]);
    tabs.clear_for_shutdown();
    assert!(order(&tabs).is_empty());
}

#[test]
fn restored_tabs_restart_the_order_from_the_strip_with_the_active_tab_first() {
    let mut tabs = Tabs::with_document(document(1));
    tabs.push(document(2), &PathKeys::new()).unwrap();
    tabs.push(document(3), &PathKeys::new()).unwrap();
    tabs.push(document(4), &PathKeys::new()).unwrap();
    tabs.activate(DocumentId(3)).unwrap();
    tabs.reset_activation_order();
    assert_eq!(order(&tabs), [3, 1, 2, 4]);
    let from = Tabs::from_documents(vec![document(5), document(6)], &PathKeys::new()).unwrap();
    assert_eq!(order(&from), [5, 6]);
}

#[test]
fn a_file_opens_in_one_tab_and_is_found_under_any_spelling() {
    let (plain, dotted) = (r"C:\root\a.md", r"C:\root\.\A.MD");
    let found = keys(&[plain, dotted]);
    let mut first = document(1);
    first.path = Some(plain.to_owned());
    let mut again = document(2);
    again.path = Some(dotted.to_owned());
    let mut tabs = Tabs::with_document(first);
    assert!(tabs.push(again, &found).is_err());
    assert_eq!(tabs.len(), 1);
    assert_eq!(tabs.find_path(&dotted.to_owned(), &found), Some(DocumentId(1)));
    assert_eq!(tabs.find_path(&r"C:\root\b.md".to_owned(), &found), None);
}

#[test]
fn a_stale_or_cancelled_close_leaves_the_tabs_as_they_were() {
    let mut tabs = Tabs::with_document(document(1));
    assert!(tabs.close_active(CloseDecision::Cancel).is_err());
    let review = tabs.active_close_review().unwrap();
    assert!(!tabs.note_active_text_change());
    assert_eq!(
        tabs.close_reviewed(review, CloseDecision::Discard),
        Err(CloseReviewError::Stale)
    );
    assert_eq!(tabs.len(), 1);
    assert!(tabs.activate(DocumentId(9)).is_err());
    assert!(tabs.activate_index(5).is_err());
}

#[test]
fn dirty_tabs_are_reviewed_one_after_the_other() {
    let mut tabs = Tabs::with_document(Document::untitled(DocumentId(1), true));
    tabs.push(document(2), &PathKeys::new()).unwrap();
    tabs.push(Document::untitled(DocumentId(3), true), &PathKeys::new()).unwrap();
    let first = tabs.next_dirty_review(&vec![]).unwrap();
    assert_eq!(first.id, DocumentId(1));
    assert!(tabs.dirty_review_is_current(first));
    let second = tabs.next_dirty_review(&vec![first.key()]).unwrap();
    assert_eq!(second.id, DocumentId(3));
    assert_eq!(tabs.next_dirty_review(&vec![first.key(), second.key()]), None);
}

#[test]
fn a_file_is_known_whatever_the_case_of_its_path() {
    let (path, shouted) = (r"C:\root\Note.md", r"C:\ROOT\NOTE.MD");
    let found = keys(&[path, shouted]);
    let mut first = document(1);
    first.path = Some(path.to_owned());
    let mut tabs = Tabs::from_documents(vec![first], &found).unwrap();

    assert_eq!(tabs.find_path(&shouted.to_owned(), &found), Some(DocumentId(1)));
    assert_eq!(tabs.find_path(&r"C:\root\gone.md".to_owned(), &found), None);
    let mut second = document(2);
    second.path = Some(shouted.to_owned());
    let error = tabs.push(second, &found).unwrap_err();
    assert_eq!(error.0, r"c:\root\note.md");
    assert_eq!(tabs.len(), 1);
}

#[test]
fn a_tab_is_found_by_its_stored_path_after_its_file_went() {
    let mut first = document(1);
    first.path = Some(r"C:\root\gone.md".to_owned());
    let mut second = document(2);
    second.path = Some(r"kept.md".to_owned());
    let mut found = keys(&[r"C:\root\gone.md", r"kept.md"]);
    let tabs = Tabs::from_documents(vec![first, second, document(3)], &found).unwrap();

    // Nothing is known of the disk: the paths stand for themselves, ignoring case.
    let nothing = PathKeys::new();
    let stored = |path: &str, keys: &PathKeys| tabs.find_stored_path(&path.to_owned(), keys);
    assert_eq!(stored(r"C:\ROOT\Gone.md", &nothing), Some(DocumentId(1)));
    assert_eq!(stored("c:/root/./gone.md", &nothing), Some(DocumentId(1)));
    assert_eq!(stored(r"C:\root\kept.md", &nothing), None);
    assert_eq!(tabs.find_path(&r"C:\root\gone.md".to_owned(), &nothing), None);

    // A relative path is known by its absolute one.
    found = PathKeys::new();
    found.record("kept.md".to_owned(), r"C:\root\kept.md".to_owned());
    assert_eq!(stored(r"C:\root\KEPT.md", &found), Some(DocumentId(2)));
}

#[test]
fn at_most_one_tab_is_a_preview() {
    let previews = |tabs: &Tabs| {
        let shown = tabs.documents().iter().filter(|document| document.preview);
        shown.map(|document| document.id.0).collect::<Vec<_>>()
    };
    let nothing = PathKeys::new();
    let mut tabs = Tabs::with_document(document(1));
    assert!(tabs.replace_preview(preview(2), &nothing).is_none());
    assert_eq!(tabs.replace_preview(preview(3), &nothing).unwrap().id, DocumentId(2));
    assert_eq!(previews(&tabs), [3]);
    // One with unsaved edits stays as a normal tab beside the new preview.
    tabs.document_mut(DocumentId(3)).unwrap().dirty = true;
    assert!(tabs.replace_preview(preview(4), &nothing).is_none());
    assert_eq!(previews(&tabs), [4]);
    assert_eq!(tabs.ids(), [DocumentId(1), DocumentId(3), DocumentId(4)]);
    tabs.activate(DocumentId(1)).unwrap();
    tabs.close_active(CloseDecision::Discard).unwrap();
    assert_eq!(previews(&tabs), [4]);
    assert!(tabs.promote(DocumentId(4)));
    assert_eq!(previews(&tabs), Vec::<u64>::new());
}

#[test]
fn the_tab_left_is_the_next_one_to_go_back_to() {
    let documents = vec![document(1), document(2), document(3)];
    let mut tabs = Tabs::from_documents(documents, &PathKeys::new()).unwrap();
    tabs.activate(DocumentId(3)).unwrap();
    assert_eq!(order(&tabs), [3, 1, 2]);
    tabs.activate(tabs.activation_order()[1]).unwrap();
    assert_eq!(order(&tabs), [1, 3, 2]);
    assert_eq!(tabs.active_index(), 0);
}
