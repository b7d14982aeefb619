//! What the terminal interface shows.

pub mod conversation;
pub mod line;
pub mod slot;
pub mod thread_list;
