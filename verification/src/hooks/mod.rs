//! Hooks around messages and tool calls.

pub mod hook;
pub mod webhook_audit;
