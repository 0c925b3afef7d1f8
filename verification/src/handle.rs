//! The tokens that a host holds for an editor instance. Neither owns the
//! instance: both only carry its identifier.

use vstd::prelude::*;

verus! {

/// Identifier of an editor instance. Identifiers are handed out in
/// increasing order and never twice.
pub type EditorInstanceId = usize;

/// Token through which a host asks for operations on an instance.
#[derive(Clone, Copy, Debug, PartialEq, Eq, Structural)]
pub struct CapabilityHandle {
    pub id: EditorInstanceId,
}

/// Token through which a host reads the document that an instance shows.
#[derive(Clone, Copy, Debug, PartialEq, Eq, Structural)]
pub struct ViewHandle {
    pub id: EditorInstanceId,
}

} // verus!
