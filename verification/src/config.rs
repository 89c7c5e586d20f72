//! Configuration values consumed at startup.
//!
//! The provider is configured from plain values: the deployment environment,
//! the service identity, the exporter choice, and the network-exporter
//! settings. Sampling rates are carried as millionths (a rate of
//! 1_000_000 means "sample every root trace"), so that the policy logic
//! works on exact integers.

use vstd::prelude::*;

verus! {

/// The deployment environment the process runs in.
#[derive(Clone, Copy, Debug, PartialEq, Eq, Structural)]
pub enum Environment {
    /// A developer's own machine.
    Local,
    /// A shared development deployment.
    Dev,
    /// A staging deployment.
    Staging,
    /// A production deployment.
    Prod,
}

impl Environment {
    /// Whether this is the local development environment.
    pub fn is_local(&self) -> (r: bool)
        ensures
            r == self.spec_is_local(),
    {
        matches!(self, Environment::Local)
    }

    /// The local environment is the only one that samples everything.
    pub open spec fn spec_is_local(self) -> bool {
        self is Local
    }
}

/// The exporter backend named by the configuration.
#[derive(Clone, Copy, Debug, PartialEq, Eq, Structural)]
pub enum ExporterKind {
    /// Console output, for development.
    Stdout,
    /// A network collector reached over gRPC.
    OtlpGrpc,
}

/// Plain startup configuration for the tracer provider.
///
/// `otlp_available` and `stdout_available` mirror which exporter backends the
/// running binary was built with; selecting an unavailable backend is a
/// startup error rather than a silent fallback.
pub struct TraceConfig {
    /// Whether tracing is enabled at all.
    pub enabled: bool,
    /// The exporter named by the configuration, if any.
    pub exporter: Option<ExporterKind>,
    /// Whether the network-collector backend is available in this build.
    pub otlp_available: bool,
    /// Whether the console backend is available in this build.
    pub stdout_available: bool,
    /// The deployment environment.
    pub env: Environment,
    /// The service name reported in resource attributes.
    pub service_name: String,
    /// The service namespace reported in resource attributes.
    pub namespace: String,
    /// A printable name of the environment, reported in resource attributes.
    pub env_name: String,
    /// The network collector endpoint.
    pub endpoint: String,
    /// An optional static authentication header sent with every export
    /// call, as a metadata key and value.
    pub auth_header: Option<(String, String)>,
    /// The export-request timeout, in milliseconds.
    pub timeout_millis: u64,
    /// Root-trace sampling rate, in millionths of one.
    pub sample_rate_millionths: u64,
}

} // verus!
