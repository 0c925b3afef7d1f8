//! What the backing store answers. The store itself lives with the host: the
//! library is told the outcome of each read and write and decides what
//! follows from it.

use vstd::prelude::*;
use crate::document::{DocumentModel, DocumentView};

verus! {

/// Outcome of reading the document at a path.
#[derive(Debug, PartialEq, Eq)]
pub enum LoadOutcome {
    /// The document that the store holds.
    Loaded(DocumentModel),
    /// Nothing is stored at the path.
    NotFound,
    /// The store could not be read or its content is no struct definition.
    ParseError(String),
}

/// Mathematical value of a [`LoadOutcome`].
pub enum LoadView {
    Loaded(DocumentView),
    NotFound,
    ParseError(Seq<char>),
}

impl View for LoadOutcome {
    type V = LoadView;

    open spec fn view(&self) -> LoadView {
        match self {
            LoadOutcome::Loaded(doc) => LoadView::Loaded(doc@),
            LoadOutcome::NotFound => LoadView::NotFound,
            LoadOutcome::ParseError(detail) => LoadView::ParseError(detail@),
        }
    }
}

/// Outcome of writing a document to a path.
#[derive(Debug, PartialEq, Eq)]
pub enum SaveOutcome {
    /// The store now holds the document.
    Saved,
    /// The write failed and the store is as it was.
    IoError(String),
}

/// Mathematical value of a [`SaveOutcome`].
pub enum SaveView {
    Saved,
    IoError(Seq<char>),
}

impl View for SaveOutcome {
    type V = SaveView;

    open spec fn view(&self) -> SaveView {
        match self {
            SaveOutcome::Saved => SaveView::Saved,
            SaveOutcome::IoError(detail) => SaveView::IoError(detail@),
        }
    }
}

/// A backing store that keeps what is written to it: the documents it
/// holds, by path. It stands for the host's store wherever a property
/// speaks of a save and a later reload together.
pub struct StoreView {
    pub documents: Map<Seq<char>, DocumentView>,
}

impl StoreView {
    /// The store after a document was written to a path.
    pub open spec fn written(self, path: Seq<char>, doc: DocumentView) -> StoreView {
        StoreView { documents: self.documents.insert(path, doc) }
    }

    /// What the store answers when a path is read.
    pub open spec fn read(self, path: Seq<char>) -> LoadView {
        if self.documents.contains_key(path) {
            LoadView::Loaded(self.documents[path])
        } else {
            LoadView::NotFound
        }
    }
}

} // verus!
