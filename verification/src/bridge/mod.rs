//! The bridge between the engine and its host.

pub mod effect_adapter;
pub mod store_adapter;
