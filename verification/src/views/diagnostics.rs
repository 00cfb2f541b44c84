//! The Diagnostics panel: per-topic rates, throughput, drops and latency.
//!
//! Rates, throughput and latency are floating-point values and are read where they
//! are shown; this module holds the parts that are not.

pub mod system;
