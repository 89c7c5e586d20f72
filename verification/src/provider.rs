//! Exporter selection and provider installation.
//!
//! A state machine over the configured exporter choice and the backends
//! available in this build. An explicitly named backend is honored or
//! refused with a feature error — never silently substituted, since a
//! silent fallback would hide a deployment misconfiguration. With no
//! explicit choice, the network collector is preferred over the console,
//! and with neither available the no-op provider is installed.

use vstd::prelude::*;

use opentelemetry_sdk::trace::SdkTracerProvider;

use crate::config::{ExporterKind, TraceConfig};
use crate::errors::TracesError;
use crate::exporters;

verus! {

/// The terminal states of exporter selection.
#[derive(Clone, Copy, Debug, PartialEq, Eq, Structural)]
pub enum ExporterSelection {
    /// Console output through a synchronous-flush processor.
    Stdout,
    /// A network collector reached over gRPC, batched.
    OtlpGrpc,
    /// A provider that exports nothing.
    Noop,
}

/// The selection rule: honor an explicit choice or refuse it when its
/// backend is unavailable; otherwise prefer the network collector, then
/// the console, then the no-op provider.
pub open spec fn spec_select_exporter(
    choice: Option<ExporterKind>,
    otlp_available: bool,
    stdout_available: bool,
) -> Result<ExporterSelection, TracesError> {
    match choice {
        Some(ExporterKind::OtlpGrpc) => if otlp_available {
            Ok(ExporterSelection::OtlpGrpc)
        } else {
            Err(TracesError::InvalidFeaturesError)
        },
        Some(ExporterKind::Stdout) => if stdout_available {
            Ok(ExporterSelection::Stdout)
        } else {
            Err(TracesError::InvalidFeaturesError)
        },
        None => if otlp_available {
            Ok(ExporterSelection::OtlpGrpc)
        } else if stdout_available {
            Ok(ExporterSelection::Stdout)
        } else {
            Ok(ExporterSelection::Noop)
        },
    }
}

/// Selects the exporter backend for this process.
pub fn select_exporter(
    choice: Option<ExporterKind>,
    otlp_available: bool,
    stdout_available: bool,
) -> (r: Result<ExporterSelection, TracesError>)
    ensures
        r == spec_select_exporter(choice, otlp_available, stdout_available),
{
    match choice {
        Some(ExporterKind::OtlpGrpc) => {
            if otlp_available {
                Ok(ExporterSelection::OtlpGrpc)
            } else {
                Err(TracesError::InvalidFeaturesError)
            }
        },
        Some(ExporterKind::Stdout) => {
            if stdout_available {
                Ok(ExporterSelection::Stdout)
            } else {
                Err(TracesError::InvalidFeaturesError)
            }
        },
        None => {
            if otlp_available {
                Ok(ExporterSelection::OtlpGrpc)
            } else if stdout_available {
                Ok(ExporterSelection::Stdout)
            } else {
                Ok(ExporterSelection::Noop)
            }
        },
    }
}

/// Installs the tracer provider the configuration selects, together with
/// the composite propagator, as the process-wide defaults.
///
/// An explicitly chosen but unavailable backend yields the feature error;
/// the console and no-op backends always install; the network collector
/// yields the conversion error exactly when its authentication header
/// cannot be encoded, and otherwise installs or yields its construction
/// error, and no other. Every installed provider carries the fixed
/// per-span caps; a console or collector provider also carries the
/// configured service identity and the given sampler, the console one
/// flushing synchronously, the collector one batching through a gRPC
/// exporter built against the configured endpoint, timeout, compression
/// and authentication header.
///
/// `sampler` is the runtime's sampler built from the rule that
/// [`crate::sampler::select_sampler`] chooses for `cfg`; the ratio it
/// carries is a floating-point probability that this library does not
/// touch. Installing the network collector requires an async runtime to
/// be running on the calling thread, as the original transport does.
pub fn install(cfg: &TraceConfig, sampler: opentelemetry_sdk::trace::Sampler) -> (r: Result<
    SdkTracerProvider,
    TracesError,
>)
    ensures
        spec_select_exporter(cfg.exporter, cfg.otlp_available, cfg.stdout_available) matches Err(e)
            ==> (r matches Err(got) && got == e),
        spec_select_exporter(cfg.exporter, cfg.otlp_available, cfg.stdout_available) == Ok::<
            ExporterSelection,
            TracesError,
        >(ExporterSelection::Stdout) ==> r is Ok,
        spec_select_exporter(cfg.exporter, cfg.otlp_available, cfg.stdout_available) == Ok::<
            ExporterSelection,
            TracesError,
        >(ExporterSelection::Noop) ==> r is Ok,
        (spec_select_exporter(cfg.exporter, cfg.otlp_available, cfg.stdout_available) == Ok::<
            ExporterSelection,
            TracesError,
        >(ExporterSelection::OtlpGrpc)
            && !crate::exporters::otlp_grpc::spec_auth_encodable(cfg.auth_header)) ==> (r matches
            Err(e) && e == TracesError::ConversionError),
        (spec_select_exporter(cfg.exporter, cfg.otlp_available, cfg.stdout_available) == Ok::<
            ExporterSelection,
            TracesError,
        >(ExporterSelection::OtlpGrpc)
            && crate::exporters::otlp_grpc::spec_auth_encodable(cfg.auth_header)) ==> (r is Ok || (
        r matches Err(e) && e == TracesError::ExporterProviderError)),
        r matches Ok(p) ==> crate::exporters::provider_max_events(p)
            == crate::exporters::MAX_EVENTS_PER_SPAN && crate::exporters::provider_max_attributes(
            p,
        ) == crate::exporters::MAX_ATTRIBUTES_PER_SPAN,
        spec_select_exporter(cfg.exporter, cfg.otlp_available, cfg.stdout_available) != Ok::<
            ExporterSelection,
            TracesError,
        >(ExporterSelection::Noop) ==> (r matches Ok(p)
            ==> crate::exporters::provider_service(p) == cfg.service_name@
            && crate::exporters::provider_namespace(p) == cfg.namespace@
            && crate::exporters::provider_environment(p) == cfg.env_name@
            && crate::exporters::provider_uses_sampler(p, sampler)),
        spec_select_exporter(cfg.exporter, cfg.otlp_available, cfg.stdout_available) == Ok::<
            ExporterSelection,
            TracesError,
        >(ExporterSelection::Stdout) ==> (r matches Ok(p)
            ==> crate::exporters::provider_simple_flush(p)),
        spec_select_exporter(cfg.exporter, cfg.otlp_available, cfg.stdout_available) == Ok::<
            ExporterSelection,
            TracesError,
        >(ExporterSelection::OtlpGrpc) ==> (r matches Ok(p)
            ==> crate::exporters::provider_batch_flush(p) && (exists|
            e: opentelemetry_otlp::SpanExporter,
        |
            #[trigger] crate::exporters::otlp_grpc::provider_exporter(p, e)
                && crate::exporters::otlp_grpc::exporter_endpoint(e) == cfg.endpoint@
                && crate::exporters::otlp_grpc::exporter_timeout_millis(e) == cfg.timeout_millis
                && crate::exporters::otlp_grpc::exporter_gzip(e)
                && crate::exporters::otlp_grpc::exporter_auth(e)
                == crate::exporters::otlp_grpc::spec_auth_of(cfg.auth_header))),
{
    match select_exporter(cfg.exporter, cfg.otlp_available, cfg.stdout_available) {
        Err(e) => Err(e),
        Ok(ExporterSelection::OtlpGrpc) => exporters::otlp_grpc::install(cfg, sampler),
        Ok(ExporterSelection::Stdout) => exporters::stdout::install(cfg, sampler),
        Ok(ExporterSelection::Noop) => exporters::noop::install(),
    }
}

} // verus!
