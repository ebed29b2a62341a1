//! A language-server endpoint for live markdown previews, without its I/O.
//!
//! The crate holds what the endpoint decides: how a byte stream splits into
//! frames, how a payload becomes a message, how a message is answered, and
//! how a burst of document changes is thinned out before it reaches the
//! renderer. Reading, writing, sleeping and rendering are left to the caller,
//! who feeds in bytes and events and carries out the effects handed back.

pub mod headers;
pub mod json;
pub mod params;
pub mod protocol;
pub mod scheduler;
pub mod server;
pub mod settings;

pub use crate::server::Server;
