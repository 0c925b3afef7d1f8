//! What the plugin declares to its host: itself, the file type it adds and
//! the editor it offers for that file type. All of it is fixed.

use vstd::prelude::*;
use crate::document::{DocumentModel, DocumentView};

verus! {

/// How a file type lies on disk.
#[derive(Debug, PartialEq, Eq)]
pub enum FileStructure {
    /// One plain file.
    Standalone,
    /// A folder that the host shows as one file; the document is the file
    /// named `marker_file` inside it.
    FolderBased { marker_file: String },
}

/// Mathematical value of a [`FileStructure`].
pub enum FileStructureView {
    Standalone,
    FolderBased { marker_file: Seq<char> },
}

impl View for FileStructure {
    type V = FileStructureView;

    open spec fn view(&self) -> FileStructureView {
        match self {
            FileStructure::Standalone => FileStructureView::Standalone,
            FileStructure::FolderBased { marker_file } => FileStructureView::FolderBased {
                marker_file: marker_file@,
            },
        }
    }
}

/// A kind of document that the host can list, create and open.
#[derive(Debug, PartialEq, Eq)]
pub struct FileTypeDescriptor {
    pub id: String,
    pub extension: String,
    pub display_name: String,
    /// Name of the icon that the host draws for files of this type.
    pub icon: String,
    /// Accent colour as `0xRRGGBB`.
    pub color: u32,
    pub structure: FileStructure,
    /// What a document of this type holds before anything was stored.
    pub default_content: DocumentModel,
    pub categories: Vec<String>,
}

/// Mathematical value of a [`FileTypeDescriptor`].
pub struct FileTypeView {
    pub id: Seq<char>,
    pub extension: Seq<char>,
    pub display_name: Seq<char>,
    pub icon: Seq<char>,
    pub color: u32,
    pub structure: FileStructureView,
    pub default_content: DocumentView,
    pub categories: Seq<Seq<char>>,
}

impl View for FileTypeDescriptor {
    type V = FileTypeView;

    open spec fn view(&self) -> FileTypeView {
        FileTypeView {
            id: self.id@,
            extension: self.extension@,
            display_name: self.display_name@,
            icon: self.icon@,
            color: self.color,
            structure: self.structure@,
            default_content: self.default_content@,
            categories: Seq::new(self.categories@.len(), |i: int| self.categories@[i]@),
        }
    }
}

/// A kind of editor, with the file types it can open.
#[derive(Debug, PartialEq, Eq)]
pub struct EditorDescriptor {
    pub id: String,
    pub display_name: String,
    pub supported_file_types: Vec<String>,
}

/// Mathematical value of an [`EditorDescriptor`].
pub struct EditorView {
    pub id: Seq<char>,
    pub display_name: Seq<char>,
    pub supported_file_types: Seq<Seq<char>>,
}

impl View for EditorDescriptor {
    type V = EditorView;

    open spec fn view(&self) -> EditorView {
        EditorView {
            id: self.id@,
            display_name: self.display_name@,
            supported_file_types: Seq::new(
                self.supported_file_types@.len(),
                |i: int| self.supported_file_types@[i]@,
            ),
        }
    }
}

/// How the plugin presents itself.
#[derive(Debug, PartialEq, Eq)]
pub struct PluginMetadata {
    pub id: String,
    pub name: String,
    pub version: String,
    pub author: String,
    pub description: String,
}

/// Mathematical value of a [`PluginMetadata`].
pub struct MetadataView {
    pub id: Seq<char>,
    pub name: Seq<char>,
    pub version: Seq<char>,
    pub author: Seq<char>,
    pub description: Seq<char>,
}

impl View for PluginMetadata {
    type V = MetadataView;

    open spec fn view(&self) -> MetadataView {
        MetadataView {
            id: self.id@,
            name: self.name@,
            version: self.version@,
            author: self.author@,
            description: self.description@,
        }
    }
}

/// Identifier of the one editor type that the plugin serves.
pub open spec fn struct_editor_id() -> Seq<char> {
    "struct-editor"@
}

/// Identifier of the one file type that the plugin adds.
pub open spec fn struct_file_type_id() -> Seq<char> {
    "struct"@
}

/// Name of the file, inside a struct-definition folder, that holds the
/// document.
pub open spec fn marker_file_name() -> Seq<char> {
    "struct.json"@
}

/// A struct definition before anything was stored: a placeholder name and
/// no fields.
pub open spec fn default_document() -> DocumentView {
    DocumentView { name: "NewStruct"@, fields: Seq::empty() }
}

/// The metadata that the plugin declares.
pub open spec fn declared_metadata() -> MetadataView {
    MetadataView {
        id: "com.pulsar.struct-editor"@,
        name: "Struct Editor"@,
        version: "0.1.0"@,
        author: "Pulsar Team"@,
        description: "Professional multi-panel editor for creating struct definitions"@,
    }
}

/// The struct-definition file type.
pub open spec fn declared_file_type() -> FileTypeView {
    FileTypeView {
        id: struct_file_type_id(),
        extension: "struct"@,
        display_name: "Struct Definition"@,
        icon: "Box"@,
        color: 0x00BCD4,
        structure: FileStructureView::FolderBased { marker_file: marker_file_name() },
        default_content: default_document(),
        categories: seq!["Types"@],
    }
}

/// The struct editor.
pub open spec fn declared_editor() -> EditorView {
    EditorView {
        id: struct_editor_id(),
        display_name: "Struct Editor"@,
        supported_file_types: seq![struct_file_type_id()],
    }
}

/// Builds the plugin's metadata.
pub fn plugin_metadata() -> (metadata: PluginMetadata)
    ensures
        metadata@ == declared_metadata(),
{
    PluginMetadata {
        id: "com.pulsar.struct-editor".to_owned(),
        name: "Struct Editor".to_owned(),
        version: "0.1.0".to_owned(),
        author: "Pulsar Team".to_owned(),
        description: "Professional multi-panel editor for creating struct definitions".to_owned(),
    }
}

/// Builds the descriptor of the struct-definition file type.
pub fn struct_file_type() -> (file_type: FileTypeDescriptor)
    ensures
        file_type@ == declared_file_type(),
{
    let mut categories: Vec<String> = Vec::new();
    categories.push("Types".to_owned());
    let file_type = FileTypeDescriptor {
        id: "struct".to_owned(),
        extension: "struct".to_owned(),
        display_name: "Struct Definition".to_owned(),
        icon: "Box".to_owned(),
        color: 0x00BCD4,
        structure: FileStructure::FolderBased { marker_file: "struct.json".to_owned() },
        default_content: DocumentModel::named("NewStruct"),
        categories,
    };
    assert(file_type@.categories =~= seq!["Types"@]);
    file_type
}

/// Builds the descriptor of the struct editor.
pub fn struct_editor() -> (editor: EditorDescriptor)
    ensures
        editor@ == declared_editor(),
{
    let mut supported_file_types: Vec<String> = Vec::new();
    supported_file_types.push("struct".to_owned());
    let editor = EditorDescriptor {
        id: "struct-editor".to_owned(),
        display_name: "Struct Editor".to_owned(),
        supported_file_types,
    };
    assert(editor@.supported_file_types =~= seq![struct_file_type_id()]);
    editor
}

/// Whether the plugin serves an editor type.
pub open spec fn serves(editor_id: Seq<char>) -> bool {
    editor_id == declared_editor().id
}

/// Tells whether the plugin serves the editor type `editor_id`, by looking
/// it up among the editors that the plugin declares.
pub fn serves_editor(editor_id: &String) -> (served: bool)
    ensures
        served == serves(editor_id@),
{
    let declared = struct_editor();
    *editor_id == declared.id
}

} // verus!
