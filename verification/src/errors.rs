//! Error types for the traces library.
//!
//! All startup-time failures are reported synchronously through this enum;
//! runtime propagation failures are never surfaced as errors.

use vstd::prelude::*;

verus! {

/// Errors that can occur when configuring distributed tracing.
#[derive(Clone, Copy, Debug, PartialEq, Eq, Structural)]
pub enum TracesError {
    /// An unexpected internal error occurred.
    InternalError,
    /// The requested exporter requires specific features to be enabled.
    InvalidFeaturesError,
    /// Error occurred during type conversion.
    ConversionError,
    /// Failed to create the exporter provider.
    ExporterProviderError,
}

impl TracesError {
    /// A human-readable description of the error.
    pub fn message(&self) -> (r: &'static str)
        ensures
            r@ == self.spec_message(),
    {
        match self {
            TracesError::InternalError => "internal error",
            TracesError::InvalidFeaturesError => "this exporter requires specific features",
            TracesError::ConversionError => "conversion error",
            TracesError::ExporterProviderError => "failure to create the exporter provider",
        }
    }

    /// The message each variant carries.
    pub open spec fn spec_message(self) -> Seq<char> {
        match self {
            TracesError::InternalError => "internal error"@,
            TracesError::InvalidFeaturesError => "this exporter requires specific features"@,
            TracesError::ConversionError => "conversion error"@,
            TracesError::ExporterProviderError => "failure to create the exporter provider"@,
        }
    }
}

} // verus!
