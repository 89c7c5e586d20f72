use opentelemetry::baggage::BaggageExt;
use opentelemetry::trace::TraceContextExt;
use opentelemetry_sdk::trace::Sampler;
use traces::config::{Environment, ExporterKind, TraceConfig};
use traces::errors::TracesError;
use traces::provider::{install, select_exporter, ExporterSelection};

fn base_config() -> TraceConfig {
    TraceConfig {
        enabled: true,
        exporter: None,
        otlp_available: false,
        stdout_available: false,
        env: Environment::Local,
        service_name: "svc".to_string(),
        namespace: "ns".to_string(),
        env_name: "local".to_string(),
        endpoint: "http://localhost:4317".to_string(),
        auth_header: None,
        timeout_millis: 5000,
        sample_rate_millionths: 1000000,
    }
}

#[test]
fn explicit_choice_without_capability_is_a_feature_error() {
    assert_eq!(
        select_exporter(Some(ExporterKind::OtlpGrpc), false, true),
        Err(TracesError::InvalidFeaturesError)
    );
    assert_eq!(
        select_exporter(Some(ExporterKind::Stdout), true, false),
        Err(TracesError::InvalidFeaturesError)
    );
}

#[test]
fn explicit_choice_with_capability_is_honored() {
    assert_eq!(
        select_exporter(Some(ExporterKind::Stdout), true, true),
        Ok(ExporterSelection::Stdout)
    );
    assert_eq!(
        select_exporter(Some(ExporterKind::OtlpGrpc), true, true),
        Ok(ExporterSelection::OtlpGrpc)
    );
}

#[test]
fn without_a_choice_network_beats_console_beats_noop() {
    assert_eq!(select_exporter(None, true, true), Ok(ExporterSelection::OtlpGrpc));
    assert_eq!(select_exporter(None, false, true), Ok(ExporterSelection::Stdout));
    assert_eq!(select_exporter(None, false, false), Ok(ExporterSelection::Noop));
}

#[test]
fn install_refuses_unavailable_network_exporter() {
    let mut cfg = base_config();
    cfg.exporter = Some(ExporterKind::OtlpGrpc);
    cfg.otlp_available = false;
    cfg.stdout_available = true;
    assert!(matches!(
        install(&cfg, Sampler::AlwaysOn),
        Err(TracesError::InvalidFeaturesError)
    ));
}

#[test]
fn install_with_console_available_succeeds() {
    let mut cfg = base_config();
    cfg.exporter = Some(ExporterKind::Stdout);
    cfg.stdout_available = true;
    assert!(install(&cfg, Sampler::AlwaysOn).is_ok());
}

#[test]
fn install_with_nothing_available_is_a_noop_provider() {
    let cfg = base_config();
    assert!(install(&cfg, Sampler::AlwaysOn).is_ok());
}

#[test]
fn install_refuses_unencodable_auth_header() {
    let mut cfg = base_config();
    cfg.exporter = Some(ExporterKind::OtlpGrpc);
    cfg.otlp_available = true;
    cfg.auth_header = Some(("Bad Key".to_string(), "value".to_string()));
    assert!(matches!(
        install(&cfg, Sampler::AlwaysOn),
        Err(TracesError::ConversionError)
    ));
}

#[test]
fn error_messages_name_each_failure() {
    assert_eq!(TracesError::InternalError.message(), "internal error");
    assert_eq!(
        TracesError::InvalidFeaturesError.message(),
        "this exporter requires specific features"
    );
    assert_eq!(TracesError::ConversionError.message(), "conversion error");
    assert_eq!(
        TracesError::ExporterProviderError.message(),
        "failure to create the exporter provider"
    );
}

#[test]
fn trace_id_of_fresh_context_is_empty() {
    let ctx = opentelemetry::Context::new();
    assert_eq!(traces::helpers::trace_id(&ctx), "");
    assert_eq!(traces::helpers::span_id(&ctx), "");
}

#[test]
fn recording_span_yields_hex_identifiers() {
    let mut cfg = base_config();
    cfg.stdout_available = true;
    install(&cfg, Sampler::AlwaysOn).unwrap();
    let tracer = opentelemetry::global::tracer("traces-test");
    let ctx = traces::helpers::ctx(&tracer, opentelemetry::trace::SpanKind::Server, "op");
    let trace_id = traces::helpers::trace_id(&ctx);
    let span_id = traces::helpers::span_id(&ctx);
    assert_eq!(trace_id.len(), 32);
    assert_eq!(span_id.len(), 16);
    assert!(trace_id.chars().all(|c| c.is_ascii_hexdigit()));
    assert!(span_id.chars().all(|c| c.is_ascii_hexdigit()));
}

#[test]
fn extractor_span_starts_under_the_inbound_trace() {
    let mut cfg = base_config();
    cfg.stdout_available = true;
    install(&cfg, Sampler::AlwaysOn).unwrap();
    let tracer = opentelemetry::global::tracer("traces-test");
    let mut inbound = tonic::metadata::MetadataMap::new();
    inbound.insert(
        "traceparent",
        "00-0af7651916cd43dd8448eb211c80319c-b7ad6b7169203331-01".parse().unwrap(),
    );
    inbound.insert("baggage", "userid=alice".parse().unwrap());
    let (parent_ctx, _span) = traces::extractors::grpc::span(&inbound, &tracer);
    // The remote linkage and the baggage are carried by the returned context.
    let sc = parent_ctx.span().span_context().clone();
    assert_eq!(sc.trace_id().to_string(), "0af7651916cd43dd8448eb211c80319c");
    assert_eq!(sc.span_id().to_string(), "b7ad6b7169203331");
    assert!(sc.is_sampled());
    let baggage_value = parent_ctx.baggage().get("userid").unwrap();
    assert_eq!(format!("{}", baggage_value), "alice");
}

