//! Metrics.

pub mod prometheus;
