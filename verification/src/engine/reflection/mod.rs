//! Knowledge from finished threads.

pub mod executor;
pub mod pipeline;
