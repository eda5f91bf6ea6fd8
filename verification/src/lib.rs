//! Decision logic of an Envoy HTTP filter that stores request mappings in Spanner.

pub mod config;
pub mod error;
pub mod exporter;
pub mod filter;
pub mod laws;
pub mod module;
pub mod operation;
pub mod request_id;
pub mod spanner;
pub mod telemetry;
pub mod text;
