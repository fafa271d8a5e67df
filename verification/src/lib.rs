//! The core of a chat client: which server and channel are selected, and
//! what is shown for that selection.
//!
//! A session holds a [`workspace::Workspace`], loaded once and then only
//! read, and a [`selection::SelectionState`], which only the event router
//! in [`router`] changes. After every change the views in [`derived`] are
//! computed afresh. A selected id may be stale: it is resolved when it is
//! read, with a fallback, so there is always a server and a channel to show.
//!
//! The contracts speak of views: a string is the sequence of its
//! characters, a vector the sequence of its elements' views. What holds
//! across several operations is proved in [`laws`].

pub mod derived;
pub mod error;
pub mod laws;
pub mod mock;
pub mod model;
pub mod router;
pub mod selection;
pub mod text;
pub mod workspace;
