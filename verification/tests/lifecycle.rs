use struct_editor::document::{DocumentEdit, DocumentModel, Field};
use struct_editor::error::PluginError;
use struct_editor::handle::{CapabilityHandle, ViewHandle};
use struct_editor::plugin::StructEditorPlugin;
use struct_editor::registry::{Operation, Reply};
use struct_editor::store::{LoadOutcome, SaveOutcome};

const FOLDER: &str = "/project/types/Point.struct";

fn loaded_plugin() -> StructEditorPlugin {
    let mut plugin = StructEditorPlugin::new();
    plugin.on_load();
    plugin
}

fn open_missing(plugin: &mut StructEditorPlugin, path: &str) -> (ViewHandle, CapabilityHandle) {
    plugin
        .create_editor("struct-editor".to_string(), path.to_string(), true, LoadOutcome::NotFound)
        .unwrap()
}

fn point() -> DocumentModel {
    DocumentModel {
        name: "Point".to_string(),
        fields: vec![
            Field { name: "x".to_string(), type_ref: "f32".to_string(), metadata: None },
            Field {
                name: "y".to_string(),
                type_ref: "f32".to_string(),
                metadata: Some("up".to_string()),
            },
        ],
    }
}

#[test]
fn new_plugin_is_unloaded_and_empty() {
    let plugin = StructEditorPlugin::new();
    assert!(!plugin.is_active());
    assert_eq!(plugin.instance_count(), 0);
    assert_eq!(plugin.issued(), 0);
}

#[test]
fn default_plugin_is_unloaded_and_empty() {
    let plugin = StructEditorPlugin::default();
    assert!(!plugin.is_active());
    assert_eq!(plugin.instance_count(), 0);
    assert_eq!(plugin.issued(), 0);
}

#[test]
fn on_load_activates_and_is_idempotent() {
    let mut plugin = StructEditorPlugin::new();
    plugin.on_load();
    assert!(plugin.is_active());
    let (_, handle) = open_missing(&mut plugin, FOLDER);
    plugin.on_load();
    assert!(plugin.is_active());
    assert_eq!(plugin.instance_count(), 1);
    assert_eq!(plugin.issued(), 1);
    assert_eq!(plugin.dispatch(handle, Operation::IsDirty), Ok(Reply::Dirty(false)));
}

#[test]
fn create_editor_while_unloaded_is_refused() {
    let mut plugin = StructEditorPlugin::new();
    let result = plugin.create_editor(
        "struct-editor".to_string(),
        FOLDER.to_string(),
        true,
        LoadOutcome::NotFound,
    );
    assert_eq!(result, Err(PluginError::PluginNotActive));
    assert_eq!(plugin.instance_count(), 0);
    assert_eq!(plugin.issued(), 0);
}

#[test]
fn create_editor_after_unload_is_refused() {
    let mut plugin = loaded_plugin();
    open_missing(&mut plugin, FOLDER);
    plugin.on_unload();
    let result = plugin.create_editor(
        "struct-editor".to_string(),
        FOLDER.to_string(),
        true,
        LoadOutcome::NotFound,
    );
    assert_eq!(result, Err(PluginError::PluginNotActive));
    assert_eq!(plugin.issued(), 1);
}

#[test]
fn unsupported_editor_is_refused_and_uses_no_id() {
    let mut plugin = loaded_plugin();
    let (_, first) = open_missing(&mut plugin, FOLDER);
    assert_eq!(first.id, 0);
    let refused = plugin.create_editor(
        "blueprint-editor".to_string(),
        FOLDER.to_string(),
        true,
        LoadOutcome::NotFound,
    );
    assert_eq!(
        refused,
        Err(PluginError::EditorKindUnsupported { editor_id: "blueprint-editor".to_string() })
    );
    assert_eq!(plugin.issued(), 1);
    assert_eq!(plugin.instance_count(), 1);
    let (_, second) = open_missing(&mut plugin, FOLDER);
    assert_eq!(second.id, 1);
}

#[test]
fn unsupported_editor_is_refused_while_unloaded_too() {
    let mut plugin = StructEditorPlugin::new();
    let refused = plugin.create_editor(
        "blueprint-editor".to_string(),
        FOLDER.to_string(),
        true,
        LoadOutcome::NotFound,
    );
    assert_eq!(
        refused,
        Err(PluginError::EditorKindUnsupported { editor_id: "blueprint-editor".to_string() })
    );
}

#[test]
fn unreadable_document_fails_creation_and_uses_no_id() {
    let mut plugin = loaded_plugin();
    let refused = plugin.create_editor(
        "struct-editor".to_string(),
        FOLDER.to_string(),
        true,
        LoadOutcome::ParseError("expected value at line 1 column 1".to_string()),
    );
    assert_eq!(
        refused,
        Err(PluginError::PersistenceError {
            detail: "expected value at line 1 column 1".to_string()
        })
    );
    assert_eq!(plugin.issued(), 0);
    assert_eq!(plugin.instance_count(), 0);
    let (view, handle) = open_missing(&mut plugin, FOLDER);
    assert_eq!((view.id, handle.id), (0, 0));
}

#[test]
fn ids_are_dense_from_zero() {
    let mut plugin = loaded_plugin();
    let mut ids = Vec::new();
    for n in 0..25 {
        let path = format!("/project/types/T{}.struct", n);
        let (view, handle) = open_missing(&mut plugin, &path);
        assert_eq!(view.id, handle.id);
        ids.push(handle.id);
    }
    assert_eq!(ids, (0..25).collect::<Vec<usize>>());
    assert_eq!(plugin.issued(), 25);
    assert_eq!(plugin.instance_count(), 25);
}

#[test]
fn fresh_instance_is_not_dirty() {
    let mut plugin = loaded_plugin();
    let (_, handle) = open_missing(&mut plugin, FOLDER);
    assert_eq!(plugin.dispatch(handle, Operation::IsDirty), Ok(Reply::Dirty(false)));
    let (_, loaded) = plugin
        .create_editor(
            "struct-editor".to_string(),
            FOLDER.to_string(),
            true,
            LoadOutcome::Loaded(point()),
        )
        .unwrap();
    assert_eq!(plugin.dispatch(loaded, Operation::IsDirty), Ok(Reply::Dirty(false)));
}

#[test]
fn missing_marker_file_opens_default_content() {
    let mut plugin = loaded_plugin();
    let (view, handle) = open_missing(&mut plugin, FOLDER);
    let doc = plugin.document(view).unwrap();
    assert_eq!(doc.name, "NewStruct");
    assert!(doc.fields.is_empty());
    assert_eq!(plugin.file_types()[0].default_content, *doc);
    let wrapper = plugin.wrapper(handle).unwrap();
    assert_eq!(wrapper.file_path(), FOLDER);
    assert_eq!(
        std::path::Path::new(wrapper.backing_path()),
        std::path::Path::new(FOLDER).join("struct.json").as_path()
    );
}

#[test]
fn stored_document_is_what_the_editor_shows() {
    let mut plugin = loaded_plugin();
    let (view, handle) = plugin
        .create_editor(
            "struct-editor".to_string(),
            "/project/types/Point.struct/struct.json".to_string(),
            false,
            LoadOutcome::Loaded(point()),
        )
        .unwrap();
    assert_eq!(*plugin.document(view).unwrap(), point());
    let wrapper = plugin.wrapper(handle).unwrap();
    assert_eq!(wrapper.file_path(), "/project/types/Point.struct/struct.json");
    assert_eq!(wrapper.backing_path(), "/project/types/Point.struct/struct.json");
    assert_eq!(*wrapper.document(), point());
    assert_eq!(wrapper.identity(), handle);
    assert!(!wrapper.is_dirty());
}

#[test]
fn same_folder_twice_gives_two_independent_instances() {
    let mut plugin = loaded_plugin();
    let (view_a, a) = open_missing(&mut plugin, FOLDER);
    let (view_b, b) = open_missing(&mut plugin, FOLDER);
    assert_ne!(a.id, b.id);
    assert_eq!(plugin.instance_count(), 2);
    assert_eq!(plugin.edit(a, DocumentEdit::Rename("Renamed".to_string())), Ok(true));
    assert_eq!(plugin.document(view_a).unwrap().name, "Renamed");
    assert_eq!(plugin.document(view_b).unwrap().name, "NewStruct");
    assert_eq!(plugin.dispatch(a, Operation::IsDirty), Ok(Reply::Dirty(true)));
    assert_eq!(plugin.dispatch(b, Operation::IsDirty), Ok(Reply::Dirty(false)));
    assert_eq!(plugin.wrapper(a).unwrap().identity(), a);
    assert_eq!(plugin.wrapper(b).unwrap().identity(), b);
}

#[test]
fn unload_drops_everything_and_reports_the_count() {
    let mut plugin = loaded_plugin();
    let (view_a, a) = open_missing(&mut plugin, FOLDER);
    let (_, b) = open_missing(&mut plugin, "/project/types/Other.struct");
    assert_eq!(plugin.on_unload(), 2);
    assert!(!plugin.is_active());
    assert_eq!(plugin.instance_count(), 0);
    for handle in [a, b] {
        assert_eq!(
            plugin.dispatch(handle, Operation::IsDirty),
            Err(PluginError::InstanceNotFound { handle })
        );
        assert_eq!(
            plugin.dispatch(handle, Operation::Save(SaveOutcome::Saved)),
            Err(PluginError::InstanceNotFound { handle })
        );
        assert_eq!(
            plugin.dispatch(handle, Operation::Reload(LoadOutcome::Loaded(point()))),
            Err(PluginError::InstanceNotFound { handle })
        );
        assert_eq!(
            plugin.edit(handle, DocumentEdit::RemoveField(0)),
            Err(PluginError::InstanceNotFound { handle })
        );
        assert!(plugin.wrapper(handle).is_none());
    }
    assert!(plugin.document(view_a).is_none());
    assert_eq!(plugin.on_unload(), 0);
    assert!(!plugin.is_active());
}

#[test]
fn unload_without_instances_reports_zero() {
    let mut plugin = StructEditorPlugin::new();
    assert_eq!(plugin.on_unload(), 0);
    plugin.on_load();
    assert_eq!(plugin.on_unload(), 0);
}

#[test]
fn ids_are_not_reused_after_unload() {
    let mut plugin = loaded_plugin();
    let (_, stale) = open_missing(&mut plugin, FOLDER);
    plugin.on_unload();
    plugin.on_load();
    let (_, fresh) = open_missing(&mut plugin, FOLDER);
    assert_eq!(stale.id, 0);
    assert_eq!(fresh.id, 1);
    assert_eq!(
        plugin.dispatch(stale, Operation::IsDirty),
        Err(PluginError::InstanceNotFound { handle: stale })
    );
    assert_eq!(plugin.dispatch(fresh, Operation::IsDirty), Ok(Reply::Dirty(false)));
}

#[test]
fn forged_handle_is_not_found() {
    let mut plugin = loaded_plugin();
    open_missing(&mut plugin, FOLDER);
    let forged = CapabilityHandle { id: 7 };
    assert_eq!(
        plugin.dispatch(forged, Operation::IsDirty),
        Err(PluginError::InstanceNotFound { handle: forged })
    );
    assert!(plugin.wrapper(forged).is_none());
    assert!(plugin.document(ViewHandle { id: 7 }).is_none());
}
