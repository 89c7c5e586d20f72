//! Exporter backends and what they share.
//!
//! Each backend assembles the same provider shape: the selected sampling
//! rule, a random identifier generator, fixed per-span caps, and resource
//! attributes naming the emitting process; they differ only in where spans
//! go and in flush mode. The assembled provider and the composite
//! propagator are installed as process-wide defaults.

use vstd::prelude::*;

use opentelemetry::propagation::TextMapCompositePropagator;
use opentelemetry_sdk::propagation::{BaggagePropagator, TraceContextPropagator};
use opentelemetry_sdk::trace::SdkTracerProvider;
use opentelemetry_sdk::Resource;

pub mod noop;
pub mod otlp_grpc;
pub mod stdout;

verus! {

/// The hard cap on events recorded per span, bounding per-span memory.
pub const MAX_EVENTS_PER_SPAN: u32 = 64;

/// The hard cap on attributes recorded per span, bounding per-span memory.
pub const MAX_ATTRIBUTES_PER_SPAN: u32 = 16;

#[verifier::external_type_specification]
#[verifier::external_body]
pub struct ExSdkTracerProvider(SdkTracerProvider);

#[verifier::external_type_specification]
#[verifier::external_body]
pub struct ExSampler(opentelemetry_sdk::trace::Sampler);

#[verifier::external_type_specification]
#[verifier::external_body]
pub struct ExResource(Resource);

/// The service name a resource was built with.
pub uninterp spec fn resource_service(r: Resource) -> Seq<char>;

/// The service namespace a resource was built with.
pub uninterp spec fn resource_namespace(r: Resource) -> Seq<char>;

/// The environment name a resource was built with.
pub uninterp spec fn resource_environment(r: Resource) -> Seq<char>;

/// The events-per-span cap a provider was built with.
pub uninterp spec fn provider_max_events(p: SdkTracerProvider) -> u32;

/// The attributes-per-span cap a provider was built with.
pub uninterp spec fn provider_max_attributes(p: SdkTracerProvider) -> u32;

/// The service name of the resource a provider was built with.
pub uninterp spec fn provider_service(p: SdkTracerProvider) -> Seq<char>;

/// The service namespace of the resource a provider was built with.
pub uninterp spec fn provider_namespace(p: SdkTracerProvider) -> Seq<char>;

/// The environment name of the resource a provider was built with.
pub uninterp spec fn provider_environment(p: SdkTracerProvider) -> Seq<char>;

/// Whether a provider was built with the given sampler.
pub uninterp spec fn provider_uses_sampler(
    p: SdkTracerProvider,
    s: opentelemetry_sdk::trace::Sampler,
) -> bool;

/// Whether a provider flushes through a batching processor.
pub uninterp spec fn provider_batch_flush(p: SdkTracerProvider) -> bool;

/// Whether a provider flushes through a simple synchronous processor.
pub uninterp spec fn provider_simple_flush(p: SdkTracerProvider) -> bool;

/// Relies on Resource::builder: resource attributes naming the emitting
/// process — its service name, namespace, environment and implementation
/// language.
#[verifier::external_body]
pub(crate) fn build_resource(service: &str, namespace: &str, environment: &str) -> (r: Resource)
    ensures
        resource_service(r) == service@,
        resource_namespace(r) == namespace@,
        resource_environment(r) == environment@,
{
    Resource::builder()
        .with_service_name(service.to_owned())
        .with_attribute(opentelemetry::KeyValue::new("service.namespace", namespace.to_owned()))
        .with_attribute(opentelemetry::KeyValue::new("environment", environment.to_owned()))
        .with_attribute(opentelemetry::KeyValue::new("library.language", "rust"))
        .build()
}

/// Relies on global::set_tracer_provider and set_text_map_propagator: the
/// provider and a composite of the trace-context and baggage propagators
/// become the process-wide defaults, replacing any previous ones.
#[verifier::external_body]
pub(crate) fn install_globals(provider: &SdkTracerProvider) {
    opentelemetry::global::set_tracer_provider(provider.clone());
    opentelemetry::global::set_text_map_propagator(TextMapCompositePropagator::new(vec![
        Box::new(TraceContextPropagator::new()),
        Box::new(BaggagePropagator::new()),
    ]));
}

} // verus!
