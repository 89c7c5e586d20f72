//! Trace-context injectors for transport metadata.

pub mod grpc;
