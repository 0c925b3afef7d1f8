//! Instance registry and lifecycle core of a struct-definition editor plugin.

pub mod descriptor;
pub mod document;
pub mod error;
pub mod handle;
pub mod instance;
pub mod laws;
pub mod path;
pub mod plugin;
pub mod registry;
pub mod store;
pub mod wrapper;
