//! What the debugging overlay computes before it draws.

pub mod metrics;
pub mod metrics_module;
