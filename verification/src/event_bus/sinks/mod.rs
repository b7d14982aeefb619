//! Sinks: what each subscriber takes from the bus.

pub mod audit_sink;
pub mod metrics_sink;
pub mod plan;
pub mod sse_sink;
pub mod state_sink;
