//! Session management for a document-assistance agent: the session and
//! sign-in state machines, the table of synchronised documents, and the
//! mapping of completion ranges onto document coordinates.

pub mod auth;
pub mod buffer;
pub mod cody;
pub mod completion;
pub mod diff;
pub mod laws;
pub mod notification;
pub mod point;
pub mod request;
pub mod server;
pub mod sweep;
pub mod sync;
pub mod text;
pub mod wellformed;
