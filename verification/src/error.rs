//! The failures that the core distinguishes.

use vstd::prelude::*;

verus! {

#[derive(Clone, Copy, PartialEq, Eq, Debug, Structural)]
pub enum CoreError {
    /// The requested server or channel id is absent from the entity model.
    /// Resolution answers it with a fallback; it never reaches the user.
    SelectionNotFound,
    /// The loaded entity model has no server, or a server without a channel:
    /// nothing could be rendered, so the core is not activated.
    EmptyWorkspace,
    /// The draft was blank at submit time: nothing is sent.
    InvalidComposeSubmission,
}

} // verus!
