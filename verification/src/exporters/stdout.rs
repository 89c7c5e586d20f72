//! The console exporter.
//!
//! Spans go to standard output through a simple, synchronous-flush
//! processor — meant for development, where seeing each span at once
//! matters more than batching.

use vstd::prelude::*;

use opentelemetry_sdk::trace::SdkTracerProvider;

use crate::config::TraceConfig;
use crate::errors::TracesError;
use crate::exporters::{
    build_resource, install_globals, provider_batch_flush, provider_environment,
    provider_max_attributes, provider_max_events, provider_namespace, provider_service,
    provider_simple_flush, provider_uses_sampler, resource_environment, resource_namespace,
    resource_service, MAX_ATTRIBUTES_PER_SPAN, MAX_EVENTS_PER_SPAN,
};

verus! {

#[verifier::external_type_specification]
#[verifier::external_body]
pub struct ExStdoutSpanExporter(opentelemetry_stdout::SpanExporter);

/// Relies on opentelemetry_stdout's SpanExporter::default: an exporter
/// writing spans to standard output.
#[verifier::external_body]
fn stdout_exporter() -> (r: opentelemetry_stdout::SpanExporter) {
    opentelemetry_stdout::SpanExporter::default()
}

/// Relies on TracerProviderBuilder: a provider over the given sampler,
/// resource and per-span caps, with a random identifier generator and the
/// exporter attached through a simple (synchronous-flush) processor.
#[verifier::external_body]
fn build_provider_simple(
    exporter: opentelemetry_stdout::SpanExporter,
    sampler: opentelemetry_sdk::trace::Sampler,
    resource: opentelemetry_sdk::Resource,
    max_events: u32,
    max_attributes: u32,
) -> (r: SdkTracerProvider)
    ensures
        provider_max_events(r) == max_events,
        provider_max_attributes(r) == max_attributes,
        provider_service(r) == resource_service(resource),
        provider_namespace(r) == resource_namespace(resource),
        provider_environment(r) == resource_environment(resource),
        provider_uses_sampler(r, sampler),
        provider_simple_flush(r),
        !provider_batch_flush(r),
{
    opentelemetry_sdk::trace::TracerProviderBuilder::default()
        .with_sampler(sampler)
        .with_id_generator(opentelemetry_sdk::trace::RandomIdGenerator::default())
        .with_max_events_per_span(max_events)
        .with_max_attributes_per_span(max_attributes)
        .with_resource(resource)
        .with_simple_exporter(exporter)
        .build()
}

/// Installs the console exporter and the composite propagator as the
/// process-wide defaults. Never fails, and the installed provider carries
/// the fixed per-span caps and the configured service identity, uses the
/// given sampler, and flushes through a simple synchronous processor.
///
/// `sampler` is the runtime's sampler built from the rule that
/// [`crate::sampler::select_sampler`] chooses for `cfg`.
pub fn install(cfg: &TraceConfig, sampler: opentelemetry_sdk::trace::Sampler) -> (r: Result<
    SdkTracerProvider,
    TracesError,
>)
    ensures
        r is Ok,
        r matches Ok(p) ==> provider_max_events(p) == MAX_EVENTS_PER_SPAN
            && provider_max_attributes(p) == MAX_ATTRIBUTES_PER_SPAN && provider_service(p)
            == cfg.service_name@ && provider_namespace(p) == cfg.namespace@
            && provider_environment(p) == cfg.env_name@ && provider_uses_sampler(p, sampler)
            && provider_simple_flush(p) && !provider_batch_flush(p),
{
    let resource = build_resource(
        cfg.service_name.as_str(),
        cfg.namespace.as_str(),
        cfg.env_name.as_str(),
    );
    let exporter = stdout_exporter();
    let provider = build_provider_simple(
        exporter,
        sampler,
        resource,
        MAX_EVENTS_PER_SPAN,
        MAX_ATTRIBUTES_PER_SPAN,
    );
    install_globals(&provider);
    Ok(provider)
}

} // verus!
