//! What can go wrong at the boundary between host and plugin.

use vstd::prelude::*;
use crate::handle::CapabilityHandle;

verus! {

/// Failure of a request made to the plugin.
#[derive(Debug, PartialEq, Eq)]
pub enum PluginError {
    /// The requested editor type is not one that this plugin serves.
    EditorKindUnsupported { editor_id: String },
    /// The request needs a loaded plugin, and the plugin is unloaded.
    PluginNotActive,
    /// The handle names no live instance: it is stale or was never issued.
    InstanceNotFound { handle: CapabilityHandle },
    /// The backing store failed; `detail` is the cause as the store gave it.
    PersistenceError { detail: String },
}

/// Mathematical value of a [`PluginError`].
pub enum ErrorView {
    EditorKindUnsupported { editor_id: Seq<char> },
    PluginNotActive,
    InstanceNotFound { handle: CapabilityHandle },
    PersistenceError { detail: Seq<char> },
}

impl View for PluginError {
    type V = ErrorView;

    open spec fn view(&self) -> ErrorView {
        match self {
            PluginError::EditorKindUnsupported { editor_id } => ErrorView::EditorKindUnsupported {
                editor_id: editor_id@,
            },
            PluginError::PluginNotActive => ErrorView::PluginNotActive,
            PluginError::InstanceNotFound { handle } => ErrorView::InstanceNotFound {
                handle: *handle,
            },
            PluginError::PersistenceError { detail } => ErrorView::PersistenceError {
                detail: detail@,
            },
        }
    }
}

/// Mathematical value of the result of an operation: what it gave on
/// success, or the value of its error.
pub open spec fn outcome_view<T>(result: Result<T, PluginError>) -> Result<T, ErrorView> {
    match result {
        Ok(value) => Ok(value),
        Err(error) => Err(error@),
    }
}

} // verus!
