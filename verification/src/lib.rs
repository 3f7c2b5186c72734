//! A metric-monitoring engine: bounded per-metric sample history, sample
//! admission rules (bounds, monotonic timestamps, rate-of-change limits), and
//! threshold alerts with consecutive-violation counting and debouncing.

pub mod alert;
pub mod errors;
pub mod laws;
pub mod metric;
pub mod registry;
