//! Where the document of a file lies: at the file's own path, or, for a
//! folder that stands for one file, at the marker file inside it.

use vstd::prelude::*;
use crate::descriptor::{FileStructure, FileStructureView};

verus! {

/// The path that `std::path::Path::join` gives for `name` adjoined to
/// `base`, as text. Its value follows the path rules of the platform the
/// library is built for and is not spelled out here.
pub uninterp spec fn joined_path(base: Seq<char>, name: Seq<char>) -> Seq<char>;

/// Calls `std::path::Path::join` on `base` with `name` and hands the result
/// back as text. Trusted: the result is taken to be a function of the two
/// texts alone, named [`joined_path`]. Both arguments are valid UTF-8, so
/// the joined path is too and the conversion back to text loses nothing.
#[verifier::external_body]
fn join_path(base: &str, name: &str) -> (joined: String)
    ensures
        joined@ == joined_path(base@, name@),
{
    std::path::Path::new(base).join(name).to_string_lossy().into_owned()
}

/// The path of the document that belongs to the file at `file_path`.
/// `is_folder` says whether `file_path` names a folder on disk.
pub open spec fn backing_path(
    file_path: Seq<char>,
    is_folder: bool,
    structure: FileStructureView,
) -> Seq<char> {
    match structure {
        FileStructureView::FolderBased { marker_file } => if is_folder {
            joined_path(file_path, marker_file)
        } else {
            file_path
        },
        FileStructureView::Standalone => file_path,
    }
}

/// Resolves the path of the document behind `file_path`: for a folder of a
/// folder-based file type the marker file inside it, else the path itself.
pub fn resolve_backing_path(file_path: &str, is_folder: bool, structure: &FileStructure) -> (resolved:
    String)
    ensures
        resolved@ == backing_path(file_path@, is_folder, structure@),
{
    match structure {
        FileStructure::FolderBased { marker_file } => {
            if is_folder {
                join_path(file_path, marker_file.as_str())
            } else {
                file_path.to_owned()
            }
        },
        FileStructure::Standalone => file_path.to_owned(),
    }
}

} // verus!
