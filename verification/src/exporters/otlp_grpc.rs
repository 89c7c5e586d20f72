//! The network-collector exporter.
//!
//! Spans go to a collector over gRPC, compressed, batched, and bounded by
//! the configured export timeout. A collector exporter that cannot be
//! built surfaces as a distinct construction error so operators can tell
//! a config-shape failure from connectivity trouble.

use vstd::prelude::*;

use opentelemetry_otlp::{WithExportConfig, WithTonicConfig};
use opentelemetry_sdk::trace::SdkTracerProvider;

use crate::config::TraceConfig;
use crate::errors::TracesError;
use crate::carrier::lower_seq;
use crate::exporters::{
    build_resource, install_globals, provider_batch_flush, provider_environment,
    provider_max_attributes, provider_max_events, provider_namespace, provider_service,
    provider_simple_flush, provider_uses_sampler, resource_environment, resource_namespace,
    resource_service, MAX_ATTRIBUTES_PER_SPAN, MAX_EVENTS_PER_SPAN,
};

verus! {

#[verifier::external_type_specification]
#[verifier::external_body]
pub struct ExOtlpSpanExporter(opentelemetry_otlp::SpanExporter);

#[verifier::external_type_specification]
#[verifier::external_body]
pub struct ExExporterBuildError(opentelemetry_otlp::ExporterBuildError);

/// The collector endpoint an exporter was built against.
pub uninterp spec fn exporter_endpoint(e: opentelemetry_otlp::SpanExporter) -> Seq<char>;

/// The export-request timeout, in milliseconds, an exporter was built
/// with.
pub uninterp spec fn exporter_timeout_millis(e: opentelemetry_otlp::SpanExporter) -> u64;

/// Whether an exporter was built with gzip compression on.
pub uninterp spec fn exporter_gzip(e: opentelemetry_otlp::SpanExporter) -> bool;

/// The static authentication header an exporter was built with, if any,
/// its key in lowercase wire form.
pub uninterp spec fn exporter_auth(e: opentelemetry_otlp::SpanExporter) -> Option<
    (Seq<char>, Seq<char>),
>;

/// Whether a provider was built with the given exporter attached.
pub uninterp spec fn provider_exporter(
    p: SdkTracerProvider,
    e: opentelemetry_otlp::SpanExporter,
) -> bool;

/// The authentication header the configuration names, as it reaches the
/// wire: the key folded to lowercase.
pub open spec fn spec_auth_of(auth: Option<(String, String)>) -> Option<(Seq<char>, Seq<char>)> {
    match auth {
        None => None,
        Some(kv) => Some((lower_seq(kv.0@), kv.1@)),
    }
}

/// Relies on opentelemetry_otlp's SpanExporterBuilder: a gRPC exporter
/// against the given endpoint, with gzip compression and the given
/// export-request timeout; building reports its own error. The transport
/// requires an async runtime to be running on the calling thread.
#[verifier::external_body]
fn build_exporter(endpoint: &str, timeout_millis: u64) -> (r: Result<
    opentelemetry_otlp::SpanExporter,
    opentelemetry_otlp::ExporterBuildError,
>)
    ensures
        r matches Ok(e) ==> exporter_endpoint(e) == endpoint@ && exporter_timeout_millis(e)
            == timeout_millis && exporter_gzip(e) && exporter_auth(e) is None,
{
    opentelemetry_otlp::SpanExporter::builder()
        .with_tonic()
        .with_protocol(opentelemetry_otlp::Protocol::Grpc)
        .with_timeout(core::time::Duration::from_millis(timeout_millis))
        .with_endpoint(endpoint.to_owned())
        .with_compression(opentelemetry_otlp::Compression::Gzip)
        .build()
}

/// Relies on opentelemetry_otlp's SpanExporterBuilder and tonic's
/// metadata parsing: as [`build_exporter`], with the given static
/// authentication header attached to every export call's metadata.
#[verifier::external_body]
fn build_exporter_with_auth(
    endpoint: &str,
    timeout_millis: u64,
    auth_key: &str,
    auth_value: &str,
) -> (r: Result<opentelemetry_otlp::SpanExporter, opentelemetry_otlp::ExporterBuildError>)
    requires
        crate::carrier::encodable_metadata_key(auth_key@),
        crate::carrier::valid_metadata_value(auth_value@),
    ensures
        r matches Ok(e) ==> exporter_endpoint(e) == endpoint@ && exporter_timeout_millis(e)
            == timeout_millis && exporter_gzip(e) && exporter_auth(e) == Some(
            (lower_seq(auth_key@), auth_value@),
        ),
{
    let mut metadata = tonic::metadata::MetadataMap::new();
    if let Ok(key) = tonic::metadata::MetadataKey::from_bytes(auth_key.as_bytes()) {
        if let Ok(value) = tonic::metadata::MetadataValue::try_from(auth_value) {
            metadata.insert(key, value);
        }
    }
    opentelemetry_otlp::SpanExporter::builder()
        .with_tonic()
        .with_protocol(opentelemetry_otlp::Protocol::Grpc)
        .with_timeout(core::time::Duration::from_millis(timeout_millis))
        .with_endpoint(endpoint.to_owned())
        .with_compression(opentelemetry_otlp::Compression::Gzip)
        .with_metadata(metadata)
        .build()
}

/// Whether the configured authentication header, if any, can be encoded
/// into the transport's metadata.
pub open spec fn spec_auth_encodable(auth: Option<(String, String)>) -> bool {
    match auth {
        None => true,
        Some(kv) => crate::carrier::encodable_metadata_key(kv.0@)
            && crate::carrier::valid_metadata_value(kv.1@),
    }
}

/// Relies on TracerProviderBuilder: a provider over the given sampler,
/// resource and per-span caps, with a random identifier generator and the
/// exporter attached through a batching processor.
#[verifier::external_body]
fn build_provider_batch(
    exporter: opentelemetry_otlp::SpanExporter,
    sampler: opentelemetry_sdk::trace::Sampler,
    resource: opentelemetry_sdk::Resource,
    max_events: u32,
    max_attributes: u32,
) -> (r: SdkTracerProvider)
    ensures
        provider_max_events(r) == max_events,
        provider_max_attributes(r) == max_attributes,
        provider_service(r) == resource_service(resource),
        provider_namespace(r) == resource_namespace(resource),
        provider_environment(r) == resource_environment(resource),
        provider_uses_sampler(r, sampler),
        provider_batch_flush(r),
        !provider_simple_flush(r),
        provider_exporter(r, exporter),
{
    opentelemetry_sdk::trace::TracerProviderBuilder::default()
        .with_sampler(sampler)
        .with_id_generator(opentelemetry_sdk::trace::RandomIdGenerator::default())
        .with_max_events_per_span(max_events)
        .with_max_attributes_per_span(max_attributes)
        .with_resource(resource)
        .with_batch_exporter(exporter)
        .build()
}

/// Installs the network-collector exporter and the composite propagator
/// as the process-wide defaults.
///
/// Fails with the conversion error exactly when the configured
/// authentication header cannot be encoded as metadata; otherwise fails
/// with the construction error, and with no other, exactly when the
/// exporter cannot be built.
///
/// `sampler` is the runtime's sampler built from the rule that
/// [`crate::sampler::select_sampler`] chooses for `cfg`. The gRPC
/// transport requires an async runtime to be running on the calling
/// thread.
pub fn install(cfg: &TraceConfig, sampler: opentelemetry_sdk::trace::Sampler) -> (r: Result<
    SdkTracerProvider,
    TracesError,
>)
    ensures
        !spec_auth_encodable(cfg.auth_header) ==> (r matches Err(e) && e
            == TracesError::ConversionError),
        spec_auth_encodable(cfg.auth_header) ==> (r is Ok || (r matches Err(e) && e
            == TracesError::ExporterProviderError)),
        r matches Ok(p) ==> provider_max_events(p) == MAX_EVENTS_PER_SPAN
            && provider_max_attributes(p) == MAX_ATTRIBUTES_PER_SPAN && provider_service(p)
            == cfg.service_name@ && provider_namespace(p) == cfg.namespace@
            && provider_environment(p) == cfg.env_name@ && provider_uses_sampler(p, sampler)
            && provider_batch_flush(p) && !provider_simple_flush(p) && (exists|
            e: opentelemetry_otlp::SpanExporter,
        |
            #[trigger] provider_exporter(p, e) && exporter_endpoint(e) == cfg.endpoint@
                && exporter_timeout_millis(e) == cfg.timeout_millis && exporter_gzip(e)
                && exporter_auth(e) == spec_auth_of(cfg.auth_header)),
{
    let built = match &cfg.auth_header {
        Some(kv) => {
            if !(crate::carrier::is_encodable_metadata_key(kv.0.as_str())
                && crate::carrier::is_valid_metadata_value(kv.1.as_str())) {
                return Err(TracesError::ConversionError);
            }
            build_exporter_with_auth(
                cfg.endpoint.as_str(),
                cfg.timeout_millis,
                kv.0.as_str(),
                kv.1.as_str(),
            )
        },
        None => build_exporter(cfg.endpoint.as_str(), cfg.timeout_millis),
    };
    let exporter = match built {
        Ok(exporter) => exporter,
        Err(_) => {
            return Err(TracesError::ExporterProviderError);
        },
    };
    let resource = build_resource(
        cfg.service_name.as_str(),
        cfg.namespace.as_str(),
        cfg.env_name.as_str(),
    );
    let provider = build_provider_batch(
        exporter,
        sampler,
        resource,
        MAX_EVENTS_PER_SPAN,
        MAX_ATTRIBUTES_PER_SPAN,
    );
    install_globals(&provider);
    Ok(provider)
}

} // verus!
