//! Decisions of the web handlers.

pub mod reply;
pub mod settings;
pub mod workspaces;
