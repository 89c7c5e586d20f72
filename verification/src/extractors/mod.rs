//! Trace-context extractors for transport metadata.

pub mod grpc;
