//! The registry of editor instances: the one owner of every instance, from
//! its creation to the unloading of the plugin. A host holds handles only.

use std::collections::HashMap;
use vstd::prelude::*;
use crate::descriptor::{serves, serves_editor, FileTypeDescriptor, FileTypeView};
use crate::document::{DocumentEdit, DocumentModel, EditView};
use crate::error::{outcome_view, ErrorView, PluginError};
use crate::handle::{CapabilityHandle, EditorInstanceId, ViewHandle};
use crate::instance::{EditorInstance, InstanceView};
use crate::path::{backing_path, resolve_backing_path};
use crate::store::{LoadOutcome, LoadView, SaveOutcome, SaveView};
use crate::wrapper::{StructEditorWrapper, WrapperView};

verus! {

/// What the registry keeps for one instance: the handle that the host was
/// given to show it and the wrapper through which the host drives it.
pub struct RegistryEntry {
    view: ViewHandle,
    wrapper: StructEditorWrapper,
}

/// The instances that exist, by identifier, and the identifier that the
/// next instance will get.
pub struct InstanceRegistry {
    entries: HashMap<EditorInstanceId, RegistryEntry>,
    next_id: EditorInstanceId,
}

/// What a host asks of an instance through its capability handle. Reading
/// and writing the store is the host's part: a save or a reload comes with
/// the answer that the store gave.
#[derive(Debug, PartialEq, Eq)]
pub enum Operation {
    /// The document was written to its backing path, with this outcome.
    Save(SaveOutcome),
    /// The backing path was read, with this outcome.
    Reload(LoadOutcome),
    /// Does the document differ from what was last loaded or saved?
    IsDirty,
}

/// Mathematical value of an [`Operation`].
pub enum OperationView {
    Save(SaveView),
    Reload(LoadView),
    IsDirty,
}

impl View for Operation {
    type V = OperationView;

    open spec fn view(&self) -> OperationView {
        match self {
            Operation::Save(outcome) => OperationView::Save(outcome@),
            Operation::Reload(outcome) => OperationView::Reload(outcome@),
            Operation::IsDirty => OperationView::IsDirty,
        }
    }
}

/// What an operation gives back when it succeeds.
#[derive(Clone, Copy, Debug, PartialEq, Eq, Structural)]
pub enum Reply {
    /// The save or reload took effect.
    Completed,
    /// The answer to a dirty check.
    Dirty(bool),
}

/// Mathematical value of an [`InstanceRegistry`].
pub struct RegistryView {
    /// The live instances.
    pub entries: Map<EditorInstanceId, WrapperView>,
    /// How many identifiers were handed out so far; also the next one.
    pub next_id: nat,
}

impl RegistryView {
    /// The registry before any instance was created.
    pub open spec fn empty() -> RegistryView {
        RegistryView { entries: Map::empty(), next_id: 0 }
    }

    /// Every live instance is registered under its own identifier, and that
    /// identifier was handed out before.
    pub open spec fn wf(self) -> bool {
        &&& self.entries.dom().finite()
        &&& self.next_id <= usize::MAX
        &&& forall|id: EditorInstanceId| #[trigger]
            self.entries.contains_key(id) ==> id < self.next_id && self.entries[id].id == id
    }

    /// The wrapper that a request for an editor creates, or the error with
    /// which the request fails.
    pub open spec fn allocation(
        self,
        file_type: FileTypeView,
        editor_id: Seq<char>,
        file_path: Seq<char>,
        is_folder: bool,
        loaded: LoadView,
    ) -> Result<WrapperView, ErrorView> {
        if !serves(editor_id) {
            Err(ErrorView::EditorKindUnsupported { editor_id })
        } else {
            match InstanceView::opened(
                backing_path(file_path, is_folder, file_type.structure),
                loaded,
                file_type.default_content,
            ) {
                Ok(editor) => Ok(WrapperView { id: self.next_id as usize, file_path, editor }),
                Err(error) => Err(error),
            }
        }
    }

    /// The registry after a request for an editor. A request that fails
    /// leaves the registry as it was: no identifier is used up.
    pub open spec fn allocated(
        self,
        file_type: FileTypeView,
        editor_id: Seq<char>,
        file_path: Seq<char>,
        is_folder: bool,
        loaded: LoadView,
    ) -> RegistryView {
        match self.allocation(file_type, editor_id, file_path, is_folder, loaded) {
            Ok(wrapper) => RegistryView {
                entries: self.entries.insert(wrapper.id, wrapper),
                next_id: self.next_id + 1,
            },
            Err(_) => self,
        }
    }
}

impl RegistryView {
    /// Whether a handle names a live instance.
    pub open spec fn resolves(self, handle: CapabilityHandle) -> bool {
        self.entries.contains_key(handle.id)
    }

    /// The registry with another wrapper in the place of the one that the
    /// handle names.
    pub open spec fn with_wrapper(self, handle: CapabilityHandle, wrapper: WrapperView)
        -> RegistryView {
        RegistryView { entries: self.entries.insert(handle.id, wrapper), ..self }
    }

    /// The registry after an operation on the instance that a handle names.
    /// A handle that names no live instance changes nothing.
    pub open spec fn dispatched(self, handle: CapabilityHandle, op: OperationView) -> RegistryView {
        if !self.resolves(handle) {
            self
        } else {
            match op {
                OperationView::Save(outcome) => self.with_wrapper(
                    handle,
                    self.entries[handle.id].saved(outcome),
                ),
                OperationView::Reload(outcome) => self.with_wrapper(
                    handle,
                    self.entries[handle.id].reloaded(outcome),
                ),
                OperationView::IsDirty => self,
            }
        }
    }

    /// What an operation on the instance that a handle names gives back.
    pub open spec fn reply(self, handle: CapabilityHandle, op: OperationView) -> Result<
        Reply,
        ErrorView,
    > {
        if !self.resolves(handle) {
            Err(ErrorView::InstanceNotFound { handle })
        } else {
            match op {
                OperationView::Save(outcome) => match InstanceView::save_result(outcome) {
                    Ok(_) => Ok(Reply::Completed),
                    Err(error) => Err(error),
                },
                OperationView::Reload(outcome) => match InstanceView::reload_result(outcome) {
                    Ok(_) => Ok(Reply::Completed),
                    Err(error) => Err(error),
                },
                OperationView::IsDirty => Ok(Reply::Dirty(self.entries[handle.id].is_dirty())),
            }
        }
    }

    /// The registry after an edit of the document of the instance that a
    /// handle names.
    pub open spec fn edited(self, handle: CapabilityHandle, edit: EditView) -> RegistryView {
        if !self.resolves(handle) {
            self
        } else {
            self.with_wrapper(handle, self.entries[handle.id].edited(edit))
        }
    }

    /// What an edit through a handle gives back: whether the document
    /// accepted it.
    pub open spec fn edit_reply(self, handle: CapabilityHandle, edit: EditView) -> Result<
        bool,
        ErrorView,
    > {
        if !self.resolves(handle) {
            Err(ErrorView::InstanceNotFound { handle })
        } else {
            Ok(self.entries[handle.id].editor.document.accepts(edit))
        }
    }

    /// The registry after every instance was dropped. The identifiers that
    /// were handed out stay used.
    pub open spec fn unloaded(self) -> RegistryView {
        RegistryView { entries: Map::empty(), ..self }
    }
}

impl View for InstanceRegistry {
    type V = RegistryView;

    closed spec fn view(&self) -> RegistryView {
        RegistryView {
            entries: Map::new(
                |id: EditorInstanceId| self.entries@.contains_key(id),
                |id: EditorInstanceId| self.entries@[id].wrapper@,
            ),
            next_id: self.next_id as nat,
        }
    }
}

impl InstanceRegistry {
    #[verifier::type_invariant]
    spec fn inv(self) -> bool {
        forall|id: EditorInstanceId| #[trigger]
            self.entries@.contains_key(id) ==> {
                &&& id < self.next_id
                &&& self.entries@[id].wrapper@.id == id
                &&& self.entries@[id].view.id == id
            }
    }

    /// A registry that keeps its invariant has a well-formed value.
    proof fn lemma_inv_gives_wf(self)
        requires
            self.inv(),
        ensures
            self@.wf(),
    {
        vstd::std_specs::hash::axiom_hashmap_view_finite_dom(self.entries);
        assert(self@.entries.dom() =~= self.entries@.dom());
    }

    /// A registry without instances; the first identifier will be 0.
    pub fn new() -> (registry: InstanceRegistry)
        ensures
            registry@ == RegistryView::empty(),
    {
        let registry = InstanceRegistry { entries: HashMap::new(), next_id: 0 };
        assert(registry@.entries =~= Map::empty());
        registry
    }

    /// Moves the entries out, so that they can be changed in steps; they are
    /// put back by assignment.
    fn take_entries(&mut self) -> (entries: HashMap<EditorInstanceId, RegistryEntry>)
        ensures
            entries@ == old(self).entries@,
            final(self).entries@ == Map::<EditorInstanceId, RegistryEntry>::empty(),
            final(self).next_id == old(self).next_id,
    {
        let mut entries: HashMap<EditorInstanceId, RegistryEntry> = HashMap::new();
        std::mem::swap(&mut entries, &mut self.entries);
        entries
    }

    /// Creates an editor instance for the file at `file_path` and registers
    /// it under the next identifier. `is_folder` says whether `file_path` is
    /// a folder on disk, `loaded` what the store answered when the backing
    /// path of the file was read. Each request that succeeds makes an
    /// instance of its own, also for a path that is open already.
    pub fn allocate(
        &mut self,
        file_type: &FileTypeDescriptor,
        editor_id: String,
        file_path: String,
        is_folder: bool,
        loaded: LoadOutcome,
    ) -> (result: Result<(ViewHandle, CapabilityHandle), PluginError>)
        requires
            old(self)@.next_id < usize::MAX,
        ensures
            final(self)@ == old(self)@.allocated(
                file_type@,
                editor_id@,
                file_path@,
                is_folder,
                loaded@,
            ),
            final(self)@.wf(),
            match result {
                Ok((view, handle)) => {
                    &&& old(self)@.allocation(
                        file_type@,
                        editor_id@,
                        file_path@,
                        is_folder,
                        loaded@,
                    ) is Ok
                    &&& view.id == old(self)@.next_id
                    &&& handle.id == old(self)@.next_id
                },
                Err(error) => old(self)@.allocation(
                    file_type@,
                    editor_id@,
                    file_path@,
                    is_folder,
                    loaded@,
                ) == Err::<WrapperView, ErrorView>(error@),
            },
    {
        proof {
            use_type_invariant(&*self);
            self.lemma_inv_gives_wf();
        }
        if !serves_editor(&editor_id) {
            return Err(PluginError::EditorKindUnsupported { editor_id });
        }
        let resolved = resolve_backing_path(file_path.as_str(), is_folder, &file_type.structure);
        match EditorInstance::open(resolved, loaded, &file_type.default_content) {
            Ok(editor) => {
                let id = self.next_id;
                let wrapper = StructEditorWrapper::new(id, file_path, editor);
                let view = ViewHandle { id };
                let handle = wrapper.identity();
                let mut entries = self.take_entries();
                entries.insert(id, RegistryEntry { view, wrapper });
                self.next_id = id + 1;
                self.entries = entries;
                proof {
                    use_type_invariant(&*self);
                    self.lemma_inv_gives_wf();
                    assert(self@.entries =~= old(self)@.entries.insert(id, wrapper@));
                }
                Ok((view, handle))
            },
            Err(error) => Err(error),
        }
    }

    /// How many identifiers were handed out so far. The next instance gets
    /// this number as its identifier.
    pub fn issued(&self) -> (count: usize)
        ensures
            count == self@.next_id,
            self@.wf(),
    {
        proof {
            use_type_invariant(self);
            self.lemma_inv_gives_wf();
        }
        self.next_id
    }

    /// How many instances are live.
    pub fn len(&self) -> (count: usize)
        ensures
            count == self@.entries.len(),
            self@.wf(),
    {
        proof {
            use_type_invariant(self);
            self.lemma_inv_gives_wf();
            assert(self@.entries.dom() =~= self.entries@.dom());
        }
        self.entries.len()
    }

    /// The wrapper that a handle names, if it names a live instance.
    pub fn wrapper(&self, handle: CapabilityHandle) -> (found: Option<&StructEditorWrapper>)
        ensures
            self@.wf(),
            match found {
                Some(wrapper) => self@.resolves(handle) && wrapper@ == self@.entries[handle.id],
                None => !self@.resolves(handle),
            },
    {
        proof {
            use_type_invariant(self);
            self.lemma_inv_gives_wf();
        }
        match self.entries.get(&handle.id) {
            Some(entry) => Some(&entry.wrapper),
            None => None,
        }
    }

    /// The document that a view handle shows, if its instance is live.
    pub fn document(&self, view: ViewHandle) -> (found: Option<&DocumentModel>)
        ensures
            match found {
                Some(doc) => self@.entries.contains_key(view.id) && doc@
                    == self@.entries[view.id].editor.document,
                None => !self@.entries.contains_key(view.id),
            },
    {
        match self.entries.get(&view.id) {
            Some(entry) => Some(entry.wrapper.document()),
            None => None,
        }
    }

    /// Carries out an operation on the instance that `handle` names.
    pub fn dispatch(&mut self, handle: CapabilityHandle, op: Operation) -> (result: Result<
        Reply,
        PluginError,
    >)
        ensures
            final(self)@ == old(self)@.dispatched(handle, op@),
            outcome_view(result) == old(self)@.reply(handle, op@),
            final(self)@.wf(),
    {
        proof {
            use_type_invariant(&*self);
            self.lemma_inv_gives_wf();
        }
        let mut entries = self.take_entries();
        let result = match entries.remove(&handle.id) {
            Some(entry) => {
                let RegistryEntry { view, wrapper } = entry;
                let mut wrapper = wrapper;
                let result = match op {
                    Operation::Save(outcome) => match wrapper.save(outcome) {
                        Ok(_) => Ok(Reply::Completed),
                        Err(error) => Err(error),
                    },
                    Operation::Reload(outcome) => match wrapper.reload(outcome) {
                        Ok(_) => Ok(Reply::Completed),
                        Err(error) => Err(error),
                    },
                    Operation::IsDirty => Ok(Reply::Dirty(wrapper.is_dirty())),
                };
                entries.insert(handle.id, RegistryEntry { view, wrapper });
                result
            },
            None => Err(PluginError::InstanceNotFound { handle }),
        };
        self.entries = entries;
        proof {
            use_type_invariant(&*self);
            self.lemma_inv_gives_wf();
            assert(self@.entries =~= old(self)@.dispatched(handle, op@).entries);
        }
        result
    }

    /// Carries out an edit on the document of the instance that `handle`
    /// names. Returns whether the document accepted the edit.
    pub fn edit(&mut self, handle: CapabilityHandle, edit: DocumentEdit) -> (result: Result<
        bool,
        PluginError,
    >)
        ensures
            final(self)@ == old(self)@.edited(handle, edit@),
            outcome_view(result) == old(self)@.edit_reply(handle, edit@),
            final(self)@.wf(),
    {
        proof {
            use_type_invariant(&*self);
            self.lemma_inv_gives_wf();
        }
        let mut entries = self.take_entries();
        let result = match entries.remove(&handle.id) {
            Some(entry) => {
                let RegistryEntry { view, wrapper } = entry;
                let mut wrapper = wrapper;
                let accepted = wrapper.edit(edit);
                entries.insert(handle.id, RegistryEntry { view, wrapper });
                Ok(accepted)
            },
            None => Err(PluginError::InstanceNotFound { handle }),
        };
        self.entries = entries;
        proof {
            use_type_invariant(&*self);
            self.lemma_inv_gives_wf();
            assert(self@.entries =~= old(self)@.edited(handle, edit@).entries);
        }
        result
    }

    /// Drops every instance and returns how many there were. Handles that
    /// were given out name nothing from here on. Every operation holds the
    /// registry exclusively, so unloading starts when the operation before it
    /// has returned: it waits for that one and turns nothing away.
    pub fn unload_all(&mut self) -> (count: usize)
        ensures
            final(self)@ == old(self)@.unloaded(),
            count == old(self)@.entries.len(),
            final(self)@.wf(),
    {
        let count = self.len();
        let mut entries = self.take_entries();
        entries.clear();
        self.entries = entries;
        proof {
            use_type_invariant(&*self);
            self.lemma_inv_gives_wf();
            assert(self@.entries =~= Map::empty());
        }
        count
    }
}

} // verus!
