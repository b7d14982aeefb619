//! The unified event bus: every system event flows through it, and sinks pick
//! what they need by category or payload.

pub mod bus;
pub mod event;
pub mod sinks;
