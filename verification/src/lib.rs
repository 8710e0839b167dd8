//! The decisions of a floating assistant-chat modal, kept apart from the
//! toolkit that draws it.
//!
//! The modal lives inside a host window. The host feeds it discrete events
//! (a render pass, a released key, a cancel action) together with what it
//! read of the conversation session and of the workspace at that moment. The
//! modal answers each event with a plan or a request, which the host carries
//! out. Nothing here draws, listens or touches the workspace itself.

pub mod chord;
pub mod content;
pub mod follow;
pub mod modal;
pub mod laws;
