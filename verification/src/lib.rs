//! Distributed-tracing configuration layer.
//!
//! This library selects an exporter backend, derives a sampling policy from the
//! deployment environment, and propagates trace context across process
//! boundaries through a metadata carrier.

pub mod baggage;
pub mod carrier;
pub mod config;
pub mod context;
pub mod errors;
pub mod exporters;
pub mod extractors;
pub mod helpers;
pub mod hex;
pub mod injectors;
pub mod otel;
pub mod propagation;
pub mod provider;
pub mod sampler;
