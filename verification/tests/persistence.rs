use std::collections::HashMap;
use struct_editor::document::{DocumentEdit, DocumentModel, Field};
use struct_editor::error::PluginError;
use struct_editor::handle::{CapabilityHandle, ViewHandle};
use struct_editor::instance::EditorInstance;
use struct_editor::plugin::StructEditorPlugin;
use struct_editor::registry::{InstanceRegistry, Operation, Reply};
use struct_editor::store::{LoadOutcome, SaveOutcome};
use struct_editor::wrapper::StructEditorWrapper;

const FOLDER: &str = "/project/types/Point.struct";

/// A store in memory that keeps what is written to it.
struct MemoryStore {
    documents: HashMap<String, DocumentModel>,
}

impl MemoryStore {
    fn new() -> MemoryStore {
        MemoryStore { documents: HashMap::new() }
    }

    fn load(&self, path: &str) -> LoadOutcome {
        match self.documents.get(path) {
            Some(doc) => LoadOutcome::Loaded(doc.duplicate()),
            None => LoadOutcome::NotFound,
        }
    }

    fn save(&mut self, path: &str, doc: &DocumentModel) -> SaveOutcome {
        self.documents.insert(path.to_string(), doc.duplicate());
        SaveOutcome::Saved
    }
}

fn open(plugin: &mut StructEditorPlugin, store: &MemoryStore) -> (ViewHandle, CapabilityHandle) {
    let path = plugin.document_path(FOLDER, true);
    plugin
        .create_editor("struct-editor".to_string(), FOLDER.to_string(), true, store.load(&path))
        .unwrap()
}

fn save(plugin: &mut StructEditorPlugin, store: &mut MemoryStore, handle: CapabilityHandle) {
    let wrapper = plugin.wrapper(handle).unwrap();
    let outcome = store.save(wrapper.backing_path(), wrapper.document());
    assert_eq!(plugin.dispatch(handle, Operation::Save(outcome)), Ok(Reply::Completed));
}

fn reload(plugin: &mut StructEditorPlugin, store: &MemoryStore, handle: CapabilityHandle) {
    let outcome = store.load(plugin.wrapper(handle).unwrap().backing_path());
    assert_eq!(plugin.dispatch(handle, Operation::Reload(outcome)), Ok(Reply::Completed));
}

fn field(name: &str, type_ref: &str) -> Field {
    Field { name: name.to_string(), type_ref: type_ref.to_string(), metadata: None }
}

fn edited_plugin() -> (StructEditorPlugin, MemoryStore, ViewHandle, CapabilityHandle) {
    let mut plugin = StructEditorPlugin::new();
    plugin.on_load();
    let store = MemoryStore::new();
    let (view, handle) = open(&mut plugin, &store);
    assert_eq!(plugin.edit(handle, DocumentEdit::Rename("Point".to_string())), Ok(true));
    assert_eq!(plugin.edit(handle, DocumentEdit::AddField(field("x", "f32"))), Ok(true));
    (plugin, store, view, handle)
}

fn point_x() -> DocumentModel {
    DocumentModel { name: "Point".to_string(), fields: vec![field("x", "f32")] }
}

#[test]
fn edit_makes_dirty_and_save_cleans() {
    let (mut plugin, mut store, view, handle) = edited_plugin();
    assert_eq!(plugin.dispatch(handle, Operation::IsDirty), Ok(Reply::Dirty(true)));
    save(&mut plugin, &mut store, handle);
    assert_eq!(plugin.dispatch(handle, Operation::IsDirty), Ok(Reply::Dirty(false)));
    assert_eq!(*plugin.document(view).unwrap(), point_x());
    let path = plugin.document_path(FOLDER, true);
    assert_eq!(store.documents[&path], point_x());
}

#[test]
fn edit_back_to_saved_content_is_not_dirty() {
    let (mut plugin, mut store, _, handle) = edited_plugin();
    save(&mut plugin, &mut store, handle);
    assert_eq!(plugin.edit(handle, DocumentEdit::Rename("Other".to_string())), Ok(true));
    assert_eq!(plugin.dispatch(handle, Operation::IsDirty), Ok(Reply::Dirty(true)));
    assert_eq!(plugin.edit(handle, DocumentEdit::Rename("Point".to_string())), Ok(true));
    assert_eq!(plugin.dispatch(handle, Operation::IsDirty), Ok(Reply::Dirty(false)));
}

#[test]
fn refused_edit_changes_nothing() {
    let (mut plugin, mut store, view, handle) = edited_plugin();
    save(&mut plugin, &mut store, handle);
    assert_eq!(plugin.edit(handle, DocumentEdit::RemoveField(5)), Ok(false));
    assert_eq!(*plugin.document(view).unwrap(), point_x());
    assert_eq!(plugin.dispatch(handle, Operation::IsDirty), Ok(Reply::Dirty(false)));
}

#[test]
fn reload_restores_last_saved_content() {
    let (mut plugin, mut store, view, handle) = edited_plugin();
    save(&mut plugin, &mut store, handle);
    assert_eq!(plugin.edit(handle, DocumentEdit::AddField(field("y", "f32"))), Ok(true));
    assert_eq!(plugin.edit(handle, DocumentEdit::Rename("Scratch".to_string())), Ok(true));
    assert_eq!(plugin.edit(handle, DocumentEdit::RemoveField(0)), Ok(true));
    assert_eq!(plugin.dispatch(handle, Operation::IsDirty), Ok(Reply::Dirty(true)));
    reload(&mut plugin, &store, handle);
    assert_eq!(*plugin.document(view).unwrap(), point_x());
    assert_eq!(plugin.dispatch(handle, Operation::IsDirty), Ok(Reply::Dirty(false)));
}

#[test]
fn save_then_reload_is_idempotent() {
    let (mut plugin, mut store, view, handle) = edited_plugin();
    for _ in 0..4 {
        save(&mut plugin, &mut store, handle);
        reload(&mut plugin, &store, handle);
        assert_eq!(*plugin.document(view).unwrap(), point_x());
        assert_eq!(plugin.dispatch(handle, Operation::IsDirty), Ok(Reply::Dirty(false)));
        assert_eq!(store.documents.len(), 1);
    }
}

#[test]
fn failed_save_keeps_the_document_dirty() {
    let (mut plugin, _, view, handle) = edited_plugin();
    let result = plugin
        .dispatch(handle, Operation::Save(SaveOutcome::IoError("disk full".to_string())));
    assert_eq!(result, Err(PluginError::PersistenceError { detail: "disk full".to_string() }));
    assert_eq!(*plugin.document(view).unwrap(), point_x());
    assert_eq!(plugin.dispatch(handle, Operation::IsDirty), Ok(Reply::Dirty(true)));
}

#[test]
fn failed_reload_keeps_the_document_in_memory() {
    let (mut plugin, _, view, handle) = edited_plugin();
    let result = plugin.dispatch(
        handle,
        Operation::Reload(LoadOutcome::ParseError("trailing comma".to_string())),
    );
    assert_eq!(
        result,
        Err(PluginError::PersistenceError { detail: "trailing comma".to_string() })
    );
    assert_eq!(*plugin.document(view).unwrap(), point_x());
    assert_eq!(plugin.dispatch(handle, Operation::IsDirty), Ok(Reply::Dirty(true)));
}

#[test]
fn reload_of_a_missing_document_fails() {
    let (mut plugin, store, view, handle) = edited_plugin();
    let outcome = store.load(plugin.wrapper(handle).unwrap().backing_path());
    assert_eq!(outcome, LoadOutcome::NotFound);
    assert_eq!(
        plugin.dispatch(handle, Operation::Reload(outcome)),
        Err(PluginError::PersistenceError { detail: "backing document not found".to_string() })
    );
    assert_eq!(*plugin.document(view).unwrap(), point_x());
    assert_eq!(plugin.dispatch(handle, Operation::IsDirty), Ok(Reply::Dirty(true)));
}

#[test]
fn reload_takes_what_another_writer_stored() {
    let (mut plugin, mut store, view, handle) = edited_plugin();
    let path = plugin.document_path(FOLDER, true);
    let other = DocumentModel { name: "Elsewhere".to_string(), fields: vec![] };
    store.save(&path, &other);
    reload(&mut plugin, &store, handle);
    assert_eq!(*plugin.document(view).unwrap(), other);
    assert_eq!(plugin.dispatch(handle, Operation::IsDirty), Ok(Reply::Dirty(false)));
}

#[test]
fn editor_instance_follows_the_store() {
    let default_content = DocumentModel::named("NewStruct");
    let mut editor =
        EditorInstance::open("/a/struct.json".to_string(), LoadOutcome::NotFound, &default_content)
            .unwrap();
    assert_eq!(editor.backing_path(), "/a/struct.json");
    assert_eq!(*editor.document(), default_content);
    assert!(!editor.is_dirty());
    assert!(editor.edit(DocumentEdit::AddField(field("x", "f32"))));
    assert!(editor.is_dirty());
    assert_eq!(
        editor.save(SaveOutcome::IoError("read-only".to_string())),
        Err(PluginError::PersistenceError { detail: "read-only".to_string() })
    );
    assert!(editor.is_dirty());
    assert_eq!(editor.save(SaveOutcome::Saved), Ok(()));
    assert!(!editor.is_dirty());
    assert_eq!(editor.reload(LoadOutcome::Loaded(point_x())), Ok(()));
    assert_eq!(*editor.document(), point_x());
    assert!(!editor.is_dirty());
    assert_eq!(
        editor.reload(LoadOutcome::NotFound),
        Err(PluginError::PersistenceError { detail: "backing document not found".to_string() })
    );
    assert_eq!(*editor.document(), point_x());
}

#[test]
fn editor_instance_does_not_open_an_unreadable_document() {
    let default_content = DocumentModel::named("NewStruct");
    let result = EditorInstance::open(
        "/a/struct.json".to_string(),
        LoadOutcome::ParseError("not json".to_string()),
        &default_content,
    );
    assert_eq!(result.err(), Some(PluginError::PersistenceError { detail: "not json".to_string() }));
}

#[test]
fn wrapper_forwards_to_its_editor() {
    let editor = EditorInstance::open(
        "/a/struct.json".to_string(),
        LoadOutcome::Loaded(point_x()),
        &DocumentModel::named("NewStruct"),
    )
    .unwrap();
    let mut wrapper = StructEditorWrapper::new(3, "/a".to_string(), editor);
    assert_eq!(wrapper.identity(), CapabilityHandle { id: 3 });
    assert_eq!(wrapper.file_path(), "/a");
    assert_eq!(wrapper.backing_path(), "/a/struct.json");
    assert!(!wrapper.is_dirty());
    assert!(wrapper.edit(DocumentEdit::Rename("P".to_string())));
    assert!(wrapper.is_dirty());
    assert_eq!(wrapper.save(SaveOutcome::Saved), Ok(()));
    assert!(!wrapper.is_dirty());
    assert_eq!(wrapper.reload(LoadOutcome::Loaded(point_x())), Ok(()));
    assert_eq!(*wrapper.document(), point_x());
    assert_eq!(
        wrapper.reload(LoadOutcome::ParseError("bad".to_string())),
        Err(PluginError::PersistenceError { detail: "bad".to_string() })
    );
    assert_eq!(*wrapper.document(), point_x());
}

#[test]
fn registry_works_without_a_plugin_around_it() {
    let file_type = StructEditorPlugin::new().file_types().remove(0);
    let mut registry = InstanceRegistry::new();
    assert_eq!((registry.len(), registry.issued()), (0, 0));
    let refused = registry.allocate(
        &file_type,
        "text-editor".to_string(),
        FOLDER.to_string(),
        true,
        LoadOutcome::NotFound,
    );
    assert_eq!(
        refused,
        Err(PluginError::EditorKindUnsupported { editor_id: "text-editor".to_string() })
    );
    assert_eq!((registry.len(), registry.issued()), (0, 0));
    let (view, handle) = registry
        .allocate(
            &file_type,
            "struct-editor".to_string(),
            FOLDER.to_string(),
            true,
            LoadOutcome::NotFound,
        )
        .unwrap();
    assert_eq!((view.id, handle.id), (0, 0));
    assert_eq!((registry.len(), registry.issued()), (1, 1));
    assert_eq!(registry.document(view).unwrap().name, "NewStruct");
    assert_eq!(registry.edit(handle, DocumentEdit::Rename("A".to_string())), Ok(true));
    assert_eq!(registry.dispatch(handle, Operation::IsDirty), Ok(Reply::Dirty(true)));
    assert_eq!(registry.wrapper(handle).unwrap().document().name, "A");
    assert_eq!(registry.unload_all(), 1);
    assert_eq!(registry.unload_all(), 0);
    assert_eq!((registry.len(), registry.issued()), (0, 1));
    assert_eq!(
        registry.dispatch(handle, Operation::IsDirty),
        Err(PluginError::InstanceNotFound { handle })
    );
}
