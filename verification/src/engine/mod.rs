//! The thread engine.

pub mod pyvalue;
pub mod reflection;
pub mod scripting;
pub mod store;
pub mod trace;
pub mod types;
