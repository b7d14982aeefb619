//! Verified core of the agent runtime.

pub mod bits;
pub mod bridge;
pub mod db;
pub mod engine;
pub mod event_bus;
pub mod hooks;
pub mod ids;
pub mod json;
pub mod observability;
pub mod text;
pub mod time;
pub mod tui;
pub mod web;
