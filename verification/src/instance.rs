//! One editor bound to one document: the document as it is being edited, the
//! content last exchanged with the backing store, and what saving and
//! reloading do to both.

use vstd::prelude::*;
use crate::document::{DocumentEdit, DocumentModel, DocumentView, EditView};
use crate::error::{outcome_view, ErrorView, PluginError};
use crate::store::{LoadOutcome, LoadView, SaveOutcome, SaveView};

verus! {

/// An editor over one struct definition.
#[derive(Debug)]
pub struct EditorInstance {
    backing_path: String,
    document: DocumentModel,
    persisted: DocumentModel,
}

/// Mathematical value of an [`EditorInstance`].
pub struct InstanceView {
    /// Where the document is stored.
    pub backing_path: Seq<char>,
    /// The document as the panels show and change it.
    pub document: DocumentView,
    /// The content of the last successful load or save.
    pub persisted: DocumentView,
}

/// Cause reported when a reload finds nothing stored.
pub open spec fn missing_document_detail() -> Seq<char> {
    "backing document not found"@
}

impl InstanceView {
    /// The instance that opening a document gives, or the error with which
    /// opening fails. A missing document opens on the default content; a
    /// document that cannot be read opens nothing.
    pub open spec fn opened(backing_path: Seq<char>, loaded: LoadView, default_content: DocumentView)
        -> Result<InstanceView, ErrorView> {
        match loaded {
            LoadView::Loaded(doc) => Ok(InstanceView { backing_path, document: doc, persisted: doc }),
            LoadView::NotFound => Ok(
                InstanceView { backing_path, document: default_content, persisted: default_content },
            ),
            LoadView::ParseError(detail) => Err(ErrorView::PersistenceError { detail }),
        }
    }

    /// Whether the document differs from what was last loaded or saved.
    pub open spec fn is_dirty(self) -> bool {
        self.document != self.persisted
    }

    /// The instance after an edit of its document.
    pub open spec fn edited(self, edit: EditView) -> InstanceView {
        InstanceView { document: self.document.edited(edit), ..self }
    }

    /// The instance after the store answered a write of its document. A
    /// failed write changes nothing.
    pub open spec fn saved(self, outcome: SaveView) -> InstanceView {
        match outcome {
            SaveView::Saved => InstanceView { persisted: self.document, ..self },
            SaveView::IoError(_) => self,
        }
    }

    /// What a save reports for an answer of the store.
    pub open spec fn save_result(outcome: SaveView) -> Result<(), ErrorView> {
        match outcome {
            SaveView::Saved => Ok(()),
            SaveView::IoError(detail) => Err(ErrorView::PersistenceError { detail }),
        }
    }

    /// The instance after the store answered a read of its document. Only a
    /// document that was read replaces the one in memory.
    pub open spec fn reloaded(self, outcome: LoadView) -> InstanceView {
        match outcome {
            LoadView::Loaded(doc) => InstanceView { document: doc, persisted: doc, ..self },
            _ => self,
        }
    }

    /// What a reload reports for an answer of the store.
    pub open spec fn reload_result(outcome: LoadView) -> Result<(), ErrorView> {
        match outcome {
            LoadView::Loaded(_) => Ok(()),
            LoadView::NotFound => Err(
                ErrorView::PersistenceError { detail: missing_document_detail() },
            ),
            LoadView::ParseError(detail) => Err(ErrorView::PersistenceError { detail }),
        }
    }
}

impl View for EditorInstance {
    type V = InstanceView;

    closed spec fn view(&self) -> InstanceView {
        InstanceView {
            backing_path: self.backing_path@,
            document: self.document@,
            persisted: self.persisted@,
        }
    }
}

impl EditorInstance {
    /// Opens an editor on the document at `backing_path`, given what the
    /// store answered when that path was read.
    pub fn open(backing_path: String, loaded: LoadOutcome, default_content: &DocumentModel) -> (result:
        Result<EditorInstance, PluginError>)
        ensures
            match result {
                Ok(instance) => InstanceView::opened(backing_path@, loaded@, default_content@)
                    == Ok::<InstanceView, ErrorView>(instance@),
                Err(error) => InstanceView::opened(backing_path@, loaded@, default_content@)
                    == Err::<InstanceView, ErrorView>(error@),
            },
    {
        match loaded {
            LoadOutcome::Loaded(doc) => {
                let persisted = doc.duplicate();
                Ok(EditorInstance { backing_path, document: doc, persisted })
            },
            LoadOutcome::NotFound => Ok(
                EditorInstance {
                    backing_path,
                    document: default_content.duplicate(),
                    persisted: default_content.duplicate(),
                },
            ),
            LoadOutcome::ParseError(detail) => Err(PluginError::PersistenceError { detail }),
        }
    }

    /// The path at which the document is stored.
    pub fn backing_path(&self) -> (path: &String)
        ensures
            path@ == self@.backing_path,
    {
        &self.backing_path
    }

    /// The document as it is in memory.
    pub fn document(&self) -> (doc: &DocumentModel)
        ensures
            doc@ == self@.document,
    {
        &self.document
    }

    /// Whether the document differs from what was last loaded or saved.
    pub fn is_dirty(&self) -> (dirty: bool)
        ensures
            dirty == self@.is_dirty(),
    {
        !self.document.same_as(&self.persisted)
    }

    /// Carries out one edit on the document in memory. Returns whether the
    /// document accepted it.
    pub fn edit(&mut self, edit: DocumentEdit) -> (accepted: bool)
        ensures
            accepted == old(self)@.document.accepts(edit@),
            final(self)@ == old(self)@.edited(edit@),
    {
        self.document.apply(edit)
    }

    /// Takes note of the store's answer to a write of the document.
    pub fn save(&mut self, outcome: SaveOutcome) -> (result: Result<(), PluginError>)
        ensures
            final(self)@ == old(self)@.saved(outcome@),
            outcome_view(result) == InstanceView::save_result(outcome@),
    {
        match outcome {
            SaveOutcome::Saved => {
                self.persisted = self.document.duplicate();
                Ok(())
            },
            SaveOutcome::IoError(detail) => Err(PluginError::PersistenceError { detail }),
        }
    }

    /// Takes note of the store's answer to a read of the document.
    pub fn reload(&mut self, outcome: LoadOutcome) -> (result: Result<(), PluginError>)
        ensures
            final(self)@ == old(self)@.reloaded(outcome@),
            outcome_view(result) == InstanceView::reload_result(outcome@),
    {
        match outcome {
            LoadOutcome::Loaded(doc) => {
                self.persisted = doc.duplicate();
                self.document = doc;
                Ok(())
            },
            LoadOutcome::NotFound => Err(
                PluginError::PersistenceError { detail: "backing document not found".to_owned() },
            ),
            LoadOutcome::ParseError(detail) => Err(PluginError::PersistenceError { detail }),
        }
    }
}

} // verus!
