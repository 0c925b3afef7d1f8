//! The plugin as the host sees it: what it declares, its life between load
//! and unload, and the one entry point for every request.

use vstd::prelude::*;
use crate::descriptor::{
    declared_editor, declared_file_type, declared_metadata, plugin_metadata, serves,
    serves_editor, struct_editor, struct_file_type, EditorDescriptor, FileTypeDescriptor,
    PluginMetadata,
};
use crate::document::{DocumentEdit, DocumentModel, EditView};
use crate::error::{outcome_view, ErrorView, PluginError};
use crate::handle::{CapabilityHandle, ViewHandle};
use crate::path::{backing_path, resolve_backing_path};
use crate::registry::{InstanceRegistry, Operation, OperationView, RegistryView, Reply};
use crate::store::{LoadOutcome, LoadView};
use crate::wrapper::{StructEditorWrapper, WrapperView};

verus! {

/// The struct editor plugin: the registry of its editor instances and
/// whether the host has it loaded.
pub struct StructEditorPlugin {
    registry: InstanceRegistry,
    active: bool,
}

/// Mathematical value of a [`StructEditorPlugin`].
pub struct PluginView {
    pub registry: RegistryView,
    /// Whether the plugin is loaded.
    pub active: bool,
}

impl PluginView {
    /// The plugin as it is made: unloaded, without instances.
    pub open spec fn initial() -> PluginView {
        PluginView { registry: RegistryView::empty(), active: false }
    }

    /// The registry is well formed, and an unloaded plugin has no instance.
    pub open spec fn wf(self) -> bool {
        &&& self.registry.wf()
        &&& !self.active ==> self.registry.entries == Map::<usize, WrapperView>::empty()
    }

    /// The plugin after the host loaded it. Loading a loaded plugin changes
    /// nothing.
    pub open spec fn loaded(self) -> PluginView {
        PluginView { active: true, ..self }
    }

    /// The plugin after the host unloaded it: no instance is left.
    pub open spec fn unloaded(self) -> PluginView {
        PluginView { registry: self.registry.unloaded(), active: false }
    }

    /// The wrapper that a request for an editor creates, or the error with
    /// which the request fails. The editor type is looked at first, then
    /// whether the plugin is loaded, then what the store answered.
    pub open spec fn creation(
        self,
        editor_id: Seq<char>,
        file_path: Seq<char>,
        is_folder: bool,
        loaded: LoadView,
    ) -> Result<WrapperView, ErrorView> {
        if !serves(editor_id) {
            Err(ErrorView::EditorKindUnsupported { editor_id })
        } else if !self.active {
            Err(ErrorView::PluginNotActive)
        } else {
            self.registry.allocation(declared_file_type(), editor_id, file_path, is_folder, loaded)
        }
    }

    /// The plugin after a request for an editor. A request that fails
    /// changes nothing.
    pub open spec fn created(
        self,
        editor_id: Seq<char>,
        file_path: Seq<char>,
        is_folder: bool,
        loaded: LoadView,
    ) -> PluginView {
        match self.creation(editor_id, file_path, is_folder, loaded) {
            Ok(wrapper) => PluginView {
                registry: self.registry.allocated(
                    declared_file_type(),
                    editor_id,
                    file_path,
                    is_folder,
                    loaded,
                ),
                ..self
            },
            Err(_) => self,
        }
    }

    /// The plugin after an operation through a handle.
    pub open spec fn dispatched(self, handle: CapabilityHandle, op: OperationView) -> PluginView {
        PluginView { registry: self.registry.dispatched(handle, op), ..self }
    }

    /// The plugin after an edit through a handle.
    pub open spec fn edited(self, handle: CapabilityHandle, edit: EditView) -> PluginView {
        PluginView { registry: self.registry.edited(handle, edit), ..self }
    }
}

impl View for StructEditorPlugin {
    type V = PluginView;

    closed spec fn view(&self) -> PluginView {
        PluginView { registry: self.registry@, active: self.active }
    }
}

impl StructEditorPlugin {
    #[verifier::type_invariant]
    spec fn inv(self) -> bool {
        &&& self.registry@.wf()
        &&& !self.active ==> self.registry@.entries == Map::<usize, WrapperView>::empty()
    }

    /// The plugin before the host loaded it.
    pub fn new() -> (plugin: StructEditorPlugin)
        ensures
            plugin@ == PluginView::initial(),
    {
        let registry = InstanceRegistry::new();
        StructEditorPlugin { registry, active: false }
    }

    /// Moves the registry out, so that it can be changed in steps; it is put
    /// back by assignment.
    fn take_registry(&mut self) -> (registry: InstanceRegistry)
        ensures
            registry@ == old(self).registry@,
            final(self).registry@ == RegistryView::empty(),
            final(self).active == old(self).active,
    {
        let mut registry = InstanceRegistry::new();
        std::mem::swap(&mut registry, &mut self.registry);
        registry
    }

    /// How the plugin presents itself to the host.
    pub fn metadata(&self) -> (metadata: PluginMetadata)
        ensures
            metadata@ == declared_metadata(),
    {
        plugin_metadata()
    }

    /// The file types that the plugin adds: the struct definition, alone.
    pub fn file_types(&self) -> (file_types: Vec<FileTypeDescriptor>)
        ensures
            file_types.len() == 1,
            file_types[0]@ == declared_file_type(),
    {
        let mut file_types: Vec<FileTypeDescriptor> = Vec::new();
        file_types.push(struct_file_type());
        file_types
    }

    /// The editors that the plugin offers: the struct editor, alone.
    pub fn editors(&self) -> (editors: Vec<EditorDescriptor>)
        ensures
            editors.len() == 1,
            editors[0]@ == declared_editor(),
    {
        let mut editors: Vec<EditorDescriptor> = Vec::new();
        editors.push(struct_editor());
        editors
    }

    /// Whether the plugin is loaded.
    pub fn is_active(&self) -> (active: bool)
        ensures
            active == self@.active,
            self@.wf(),
    {
        proof {
            use_type_invariant(self);
        }
        self.active
    }

    /// How many identifiers were handed out so far. The next instance gets
    /// this number as its identifier.
    pub fn issued(&self) -> (count: usize)
        ensures
            count == self@.registry.next_id,
            self@.wf(),
    {
        proof {
            use_type_invariant(self);
        }
        self.registry.issued()
    }

    /// How many instances are live.
    pub fn instance_count(&self) -> (count: usize)
        ensures
            count == self@.registry.entries.len(),
            self@.wf(),
    {
        proof {
            use_type_invariant(self);
        }
        self.registry.len()
    }

    /// The path at which the document of the file at `file_path` is stored.
    /// A host reads that path before it asks for an editor.
    pub fn document_path(&self, file_path: &str, is_folder: bool) -> (resolved: String)
        ensures
            resolved@ == backing_path(file_path@, is_folder, declared_file_type().structure),
    {
        let file_type = struct_file_type();
        resolve_backing_path(file_path, is_folder, &file_type.structure)
    }

    /// The host loads the plugin.
    pub fn on_load(&mut self)
        ensures
            final(self)@ == old(self)@.loaded(),
            final(self)@.wf(),
    {
        proof {
            use_type_invariant(&*self);
        }
        self.active = true;
    }

    /// The host unloads the plugin: every instance is dropped. Returns how
    /// many instances there were.
    pub fn on_unload(&mut self) -> (cleaned: usize)
        ensures
            final(self)@ == old(self)@.unloaded(),
            cleaned == old(self)@.registry.entries.len(),
            final(self)@.wf(),
    {
        proof {
            use_type_invariant(&*self);
        }
        let mut registry = self.take_registry();
        let cleaned = registry.unload_all();
        self.active = false;
        self.registry = registry;
        cleaned
    }

    /// Creates an editor of type `editor_id` for the file at `file_path`.
    /// `is_folder` says whether `file_path` is a folder on disk, `loaded`
    /// what the store answered when the document path of the file was read.
    pub fn create_editor(
        &mut self,
        editor_id: String,
        file_path: String,
        is_folder: bool,
        loaded: LoadOutcome,
    ) -> (result: Result<(ViewHandle, CapabilityHandle), PluginError>)
        requires
            old(self)@.registry.next_id < usize::MAX,
        ensures
            final(self)@ == old(self)@.created(editor_id@, file_path@, is_folder, loaded@),
            final(self)@.wf(),
            match result {
                Ok((view, handle)) => {
                    &&& old(self)@.creation(editor_id@, file_path@, is_folder, loaded@) is Ok
                    &&& view.id == old(self)@.registry.next_id
                    &&& handle.id == old(self)@.registry.next_id
                },
                Err(error) => old(self)@.creation(editor_id@, file_path@, is_folder, loaded@)
                    == Err::<WrapperView, ErrorView>(error@),
            },
    {
        proof {
            use_type_invariant(&*self);
        }
        if !serves_editor(&editor_id) {
            return Err(PluginError::EditorKindUnsupported { editor_id });
        }
        if !self.active {
            return Err(PluginError::PluginNotActive);
        }
        let file_type = struct_file_type();
        let mut registry = self.take_registry();
        let result = registry.allocate(&file_type, editor_id, file_path, is_folder, loaded);
        self.registry = registry;
        result
    }

    /// Carries out an operation on the instance that `handle` names.
    pub fn dispatch(&mut self, handle: CapabilityHandle, op: Operation) -> (result: Result<
        Reply,
        PluginError,
    >)
        ensures
            final(self)@ == old(self)@.dispatched(handle, op@),
            outcome_view(result) == old(self)@.registry.reply(handle, op@),
            final(self)@.wf(),
    {
        proof {
            use_type_invariant(&*self);
        }
        let mut registry = self.take_registry();
        let result = registry.dispatch(handle, op);
        self.registry = registry;
        result
    }

    /// Carries out an edit on the document of the instance that `handle`
    /// names. Returns whether the document accepted the edit.
    pub fn edit(&mut self, handle: CapabilityHandle, edit: DocumentEdit) -> (result: Result<
        bool,
        PluginError,
    >)
        ensures
            final(self)@ == old(self)@.edited(handle, edit@),
            outcome_view(result) == old(self)@.registry.edit_reply(handle, edit@),
            final(self)@.wf(),
    {
        proof {
            use_type_invariant(&*self);
        }
        let mut registry = self.take_registry();
        let result = registry.edit(handle, edit);
        self.registry = registry;
        result
    }

    /// The wrapper that a handle names, if it names a live instance.
    pub fn wrapper(&self, handle: CapabilityHandle) -> (found: Option<&StructEditorWrapper>)
        ensures
            match found {
                Some(wrapper) => self@.registry.resolves(handle) && wrapper@
                    == self@.registry.entries[handle.id],
                None => !self@.registry.resolves(handle),
            },
    {
        self.registry.wrapper(handle)
    }

    /// The document that a view handle shows, if its instance is live.
    pub fn document(&self, view: ViewHandle) -> (found: Option<&DocumentModel>)
        ensures
            match found {
                Some(doc) => self@.registry.entries.contains_key(view.id) && doc@
                    == self@.registry.entries[view.id].editor.document,
                None => !self@.registry.entries.contains_key(view.id),
            },
    {
        self.registry.document(view)
    }
}

impl Default for StructEditorPlugin {
    fn default() -> (plugin: StructEditorPlugin)
        ensures
            plugin@ == PluginView::initial(),
    {
        StructEditorPlugin::new()
    }
}

} // verus!
