//! The adapter through which a host drives one editor instance without
//! knowing what kind of editor it is.

use vstd::prelude::*;
use crate::document::{DocumentEdit, DocumentModel, EditView};
use crate::error::{outcome_view, PluginError};
use crate::handle::{CapabilityHandle, EditorInstanceId};
use crate::instance::{EditorInstance, InstanceView};
use crate::store::{LoadOutcome, LoadView, SaveOutcome, SaveView};

verus! {

/// One editor instance as the host addresses it: the instance, the
/// identifier under which it is registered and the path the host opened.
#[derive(Debug)]
pub struct StructEditorWrapper {
    id: EditorInstanceId,
    file_path: String,
    editor: EditorInstance,
}

/// Mathematical value of a [`StructEditorWrapper`].
pub struct WrapperView {
    pub id: EditorInstanceId,
    /// The path as the host gave it, before the backing path was resolved.
    pub file_path: Seq<char>,
    pub editor: InstanceView,
}

impl WrapperView {
    /// Whether the document differs from what was last loaded or saved.
    pub open spec fn is_dirty(self) -> bool {
        self.editor.is_dirty()
    }

    /// The wrapper after an edit of its document.
    pub open spec fn edited(self, edit: EditView) -> WrapperView {
        WrapperView { editor: self.editor.edited(edit), ..self }
    }

    /// The wrapper after the store answered a write of its document.
    pub open spec fn saved(self, outcome: SaveView) -> WrapperView {
        WrapperView { editor: self.editor.saved(outcome), ..self }
    }

    /// The wrapper after the store answered a read of its document.
    pub open spec fn reloaded(self, outcome: LoadView) -> WrapperView {
        WrapperView { editor: self.editor.reloaded(outcome), ..self }
    }
}

impl View for StructEditorWrapper {
    type V = WrapperView;

    closed spec fn view(&self) -> WrapperView {
        WrapperView { id: self.id, file_path: self.file_path@, editor: self.editor@ }
    }
}

impl StructEditorWrapper {
    /// Binds an editor instance to its identifier and to the path that the
    /// host opened.
    pub fn new(id: EditorInstanceId, file_path: String, editor: EditorInstance) -> (wrapper:
        StructEditorWrapper)
        ensures
            wrapper@ == (WrapperView { id, file_path: file_path@, editor: editor@ }),
    {
        StructEditorWrapper { id, file_path, editor }
    }

    /// The path that the host opened, as the host gave it.
    pub fn file_path(&self) -> (path: &String)
        ensures
            path@ == self@.file_path,
    {
        &self.file_path
    }

    /// The handle that tells this wrapper from every other.
    pub fn identity(&self) -> (handle: CapabilityHandle)
        ensures
            handle == (CapabilityHandle { id: self@.id }),
    {
        CapabilityHandle { id: self.id }
    }

    /// The path at which the document is stored.
    pub fn backing_path(&self) -> (path: &String)
        ensures
            path@ == self@.editor.backing_path,
    {
        self.editor.backing_path()
    }

    /// The document as it is in memory.
    pub fn document(&self) -> (doc: &DocumentModel)
        ensures
            doc@ == self@.editor.document,
    {
        self.editor.document()
    }

    /// Whether the document differs from what was last loaded or saved.
    pub fn is_dirty(&self) -> (dirty: bool)
        ensures
            dirty == self@.is_dirty(),
    {
        self.editor.is_dirty()
    }

    /// Carries out one edit on the document in memory. Returns whether the
    /// document accepted it.
    pub fn edit(&mut self, edit: DocumentEdit) -> (accepted: bool)
        ensures
            accepted == old(self)@.editor.document.accepts(edit@),
            final(self)@ == old(self)@.edited(edit@),
    {
        self.editor.edit(edit)
    }

    /// Takes note of the store's answer to a write of the document. On
    /// success the document counts as saved; a failure is handed on with the
    /// store's own words and changes nothing.
    pub fn save(&mut self, outcome: SaveOutcome) -> (result: Result<(), PluginError>)
        ensures
            final(self)@ == old(self)@.saved(outcome@),
            outcome_view(result) == InstanceView::save_result(outcome@),
    {
        self.editor.save(outcome)
    }

    /// Takes note of the store's answer to a read of the document. On
    /// success the document read replaces the one in memory; a failure is
    /// handed on and changes nothing.
    pub fn reload(&mut self, outcome: LoadOutcome) -> (result: Result<(), PluginError>)
        ensures
            final(self)@ == old(self)@.reloaded(outcome@),
            outcome_view(result) == InstanceView::reload_result(outcome@),
    {
        self.editor.reload(outcome)
    }
}

} // verus!
