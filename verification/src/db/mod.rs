//! Statements, parameters and rows of the stores.

pub mod audit;
pub mod sql;
pub mod table;
pub mod webhook_audit;
