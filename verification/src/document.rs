//! An open document as the tabs see it: where it is stored and how far it is from what is stored.

use crate::open_editors::unsaved_label;
use crate::paths::file_name;
use vstd::prelude::*;

verus! {

#[derive(Clone, Copy, Debug, PartialEq, Eq, Structural)]
pub struct DocumentId(pub u64);

#[derive(Clone, Copy, Debug, PartialEq, Eq, Structural)]
pub enum Language {
    PlainText,
    Json,
    Markdown,
}

/// The answer to "save before closing?".
#[derive(Clone, Copy, Debug, PartialEq, Eq, Structural)]
pub enum CloseDecision {
    Save,
    Discard,
    Cancel,
}

/// Nothing was closed.
#[derive(Clone, Copy, Debug, PartialEq, Eq, Structural)]
pub struct CloseCancelled;

/// Where a recovered document's text came from.
#[derive(Debug, PartialEq, Eq)]
pub struct RecoveryOrigin {
    pub snapshot_path: String,
    pub original_path: Option<String>,
    pub from_session: bool,
}

#[derive(Debug, PartialEq, Eq)]
pub struct Document {
    pub id: DocumentId,
    /// The file it is stored in; `None` for an untitled document.
    pub path: Option<String>,
    /// It has changes that its file has not.
    pub dirty: bool,
    /// Grows with every change of the text or of `dirty`.
    pub generation: u64,
    /// It is in the preview tab, which the next preview replaces.
    pub preview: bool,
    pub language: Language,
    pub recovery_origin: Option<RecoveryOrigin>,
    /// The generation that recovery last stored.
    pub recovery_generation: Option<u64>,
    /// An untitled document's tab label.
    pub untitled_label: Option<String>,
    /// An untitled document's first line.
    pub first_line_label: Option<String>,
    pub autosave_paused: bool,
    /// The editor's handle of the text.
    pub handle: u64,
}

impl Clone for RecoveryOrigin {
    fn clone(&self) -> (copy: Self)
        ensures
            copy == *self,
    {
        RecoveryOrigin {
            snapshot_path: self.snapshot_path.clone(),
            original_path: self.original_path.clone(),
            from_session: self.from_session,
        }
    }
}

impl Clone for Document {
    fn clone(&self) -> (copy: Self)
        ensures
            copy == *self,
    {
        Document {
            id: self.id,
            path: self.path.clone(),
            dirty: self.dirty,
            generation: self.generation,
            preview: self.preview,
            language: self.language,
            recovery_origin: self.recovery_origin.clone(),
            recovery_generation: self.recovery_generation,
            untitled_label: self.untitled_label.clone(),
            first_line_label: self.first_line_label.clone(),
            autosave_paused: self.autosave_paused,
            handle: self.handle,
        }
    }
}

/// What the tab of `document` reads: its file's name, or an untitled document's label.
pub open spec fn titled(document: Document) -> Seq<char> {
    match document.path {
        Some(path) => crate::paths::name_of(path@),
        None => crate::open_editors::label_of(document),
    }
}

impl Document {
    pub fn title(&self) -> (title: String)
        ensures
            title@ == titled(*self),
    {
        match &self.path {
            Some(path) => file_name(path.as_str()),
            None => unsaved_label(self),
        }
    }

    /// A new untitled document.
    pub fn untitled(id: DocumentId, dirty: bool) -> (document: Self)
        ensures
            document == (Document {
                id,
                path: None,
                dirty,
                generation: 0,
                preview: false,
                language: Language::PlainText,
                recovery_origin: None,
                recovery_generation: None,
                untitled_label: None,
                first_line_label: None,
                autosave_paused: false,
                handle: 0,
            }),
    {
        Document {
            id,
            path: None,
            dirty,
            generation: 0,
            preview: false,
            language: Language::PlainText,
            recovery_origin: None,
            recovery_generation: None,
            untitled_label: None,
            first_line_label: None,
            autosave_paused: false,
            handle: 0,
        }
    }
}

} // verus!
