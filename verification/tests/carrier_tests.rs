use tonic::metadata::MetadataMap;
use traces::context::{SpanContext, TraceContext};
use traces::extractors::grpc::{extract, GRPCExtractor};
use traces::injectors::grpc::inject;

#[test]
fn get_on_absent_key_returns_none() {
    let meta = MetadataMap::new();
    let carrier = GRPCExtractor::new(&meta);
    assert_eq!(carrier.get("traceparent"), None);
    assert_eq!(carrier.get("anything-else"), None);
}

#[test]
fn get_reads_back_what_set_wrote() {
    let mut meta = MetadataMap::new();
    traces::injectors::grpc::set(&mut meta, "traceparent", "00-0af7651916cd43dd8448eb211c80319c-00f067aa0ba902b7-01");
    let carrier = GRPCExtractor::new(&meta);
    assert_eq!(
        carrier.get("traceparent"),
        Some("00-0af7651916cd43dd8448eb211c80319c-00f067aa0ba902b7-01".to_string())
    );
}

#[test]
fn set_with_invalid_key_leaves_carrier_unchanged() {
    let mut meta = MetadataMap::new();
    traces::injectors::grpc::set(&mut meta, "bad key", "value");
    traces::injectors::grpc::set(&mut meta, "bad{}key", "value");
    traces::injectors::grpc::set(&mut meta, "", "value");
    traces::injectors::grpc::set(&mut meta, "ends-bin", "value");
    assert_eq!(meta.len(), 0);
}

#[test]
fn set_with_invalid_value_leaves_carrier_unchanged() {
    let mut meta = MetadataMap::new();
    traces::injectors::grpc::set(&mut meta, "key", "bad\u{1}value");
    traces::injectors::grpc::set(&mut meta, "key", "bad\u{7f}value");
    assert_eq!(meta.len(), 0);
}

#[test]
fn set_folds_uppercase_keys_to_the_wire_form() {
    let mut meta = MetadataMap::new();
    traces::injectors::grpc::set(&mut meta, "Traceparent", "value");
    assert_eq!(meta.len(), 1);
    assert_eq!(meta.get("traceparent").unwrap().to_str().unwrap(), "value");
    let carrier = GRPCExtractor::new(&meta);
    assert_eq!(carrier.get("TRACEPARENT"), Some("value".to_string()));
}

#[test]
fn set_replaces_an_existing_entry() {
    let mut meta = MetadataMap::new();
    traces::injectors::grpc::set(&mut meta, "k", "first");
    traces::injectors::grpc::set(&mut meta, "k", "second");
    assert_eq!(meta.len(), 1);
    assert_eq!(meta.get("k").unwrap().to_str().unwrap(), "second");
}

#[test]
fn keys_lists_stored_entries() {
    let mut meta = MetadataMap::new();
    traces::injectors::grpc::set(&mut meta, "traceparent", "x");
    traces::injectors::grpc::set(&mut meta, "baggage", "k=v");
    let carrier = GRPCExtractor::new(&meta);
    let keys = carrier.keys();
    assert!(keys.iter().any(|k| k == "traceparent"));
    assert!(keys.iter().any(|k| k == "baggage"));
}

#[test]
fn inject_then_extract_recovers_span_and_baggage() {
    let original = TraceContext {
        span: Some(SpanContext {
            trace_id: 0x0af7651916cd43dd8448eb211c80319c,
            span_id: 0x00f067aa0ba902b7,
            sampled: true,
        }),
        recording: true,
        baggage: vec![
            ("userid".to_string(), "alice".to_string()),
            ("region".to_string(), "eu-west".to_string()),
        ],
    };
    let mut meta = MetadataMap::new();
    inject(&original, &mut meta);
    let recovered = extract(&meta);
    assert_eq!(recovered.span, original.span);
    assert_eq!(recovered.baggage, original.baggage);
}

#[test]
fn inject_skips_invalid_span_but_escapes_awkward_baggage() {
    let ctx = TraceContext {
        span: Some(SpanContext { trace_id: 0, span_id: 0, sampled: true }),
        recording: false,
        baggage: vec![("key".to_string(), "has,comma".to_string())],
    };
    let mut meta = MetadataMap::new();
    inject(&ctx, &mut meta);
    assert!(meta.get("traceparent").is_none());
    assert_eq!(meta.get("baggage").unwrap().to_str().unwrap(), "key=has%2Ccomma");
}

#[test]
fn extract_of_empty_carrier_is_a_root_context() {
    let meta = MetadataMap::new();
    let ctx = extract(&meta);
    assert_eq!(ctx.span, None);
    assert!(!ctx.recording);
    assert!(ctx.baggage.is_empty());
}

#[test]
fn extract_treats_malformed_headers_as_absent() {
    let mut meta = MetadataMap::new();
    meta.insert("traceparent", "garbage".parse().unwrap());
    meta.insert("baggage", "also garbage".parse().unwrap());
    let ctx = extract(&meta);
    assert_eq!(ctx.span, None);
    assert!(ctx.baggage.is_empty());
}

#[test]
fn inbound_to_outbound_keeps_trace_id_and_flag_with_new_span_id() {
    // An inbound carrier as a remote peer would send it.
    let mut inbound = MetadataMap::new();
    inbound.insert(
        "traceparent",
        "00-0af7651916cd43dd8448eb211c80319c-b7ad6b7169203331-01".parse().unwrap(),
    );
    let ctx = extract(&inbound);
    let parent = ctx.span.unwrap();
    assert!(parent.sampled);

    // A child span of the inbound linkage: same trace, fresh span id,
    // sampled flag inherited.
    let child = SpanContext {
        trace_id: parent.trace_id,
        span_id: 0x00f067aa0ba902b7,
        sampled: parent.sampled,
    };
    let outbound_ctx = TraceContext { span: Some(child), recording: true, baggage: Vec::new() };
    let mut outbound = MetadataMap::new();
    inject(&outbound_ctx, &mut outbound);

    let header = outbound.get("traceparent").unwrap().to_str().unwrap();
    assert_eq!(header.len(), 55);
    assert_eq!(&header[0..3], "00-");
    assert_eq!(&header[3..35], "0af7651916cd43dd8448eb211c80319c");
    assert_ne!(&header[36..52], "b7ad6b7169203331");
    assert_eq!(&header[36..52], "00f067aa0ba902b7");
    assert_eq!(&header[52..55], "-01");
}

#[test]
fn baggage_alone_extracts_without_a_span() {
    let ctx = TraceContext {
        span: None,
        recording: false,
        baggage: vec![("tenant".to_string(), "acme".to_string())],
    };
    let mut meta = MetadataMap::new();
    inject(&ctx, &mut meta);
    assert!(meta.get("traceparent").is_none());
    let recovered = extract(&meta);
    assert_eq!(recovered.span, None);
    assert_eq!(recovered.baggage, ctx.baggage);
}

#[test]
fn any_baggage_round_trips_through_percent_encoding() {
    let ctx = TraceContext {
        span: None,
        recording: false,
        baggage: vec![
            ("user id".to_string(), "a,b;c=d\"%\u{e9}".to_string()),
            ("plain".to_string(), "value".to_string()),
            ("".to_string(), "empty key".to_string()),
        ],
    };
    let mut meta = MetadataMap::new();
    inject(&ctx, &mut meta);
    assert_eq!(
        meta.get("baggage").unwrap().to_str().unwrap(),
        "user%20id=a%2Cb%3Bc%3Dd%22%25%C3%A9,plain=value,=empty%20key"
    );
    let recovered = extract(&meta);
    assert_eq!(recovered.baggage, ctx.baggage);
}

#[test]
fn outbound_metadata_is_a_fresh_injected_carrier() {
    let ctx = TraceContext {
        span: Some(SpanContext { trace_id: 7, span_id: 9, sampled: false }),
        recording: true,
        baggage: vec![("tenant".to_string(), "acme".to_string())],
    };
    let outbound = traces::injectors::grpc::outbound_metadata(&ctx);
    assert_eq!(outbound.len(), 2);
    let recovered = extract(&outbound);
    assert_eq!(recovered.span, ctx.span);
    assert_eq!(recovered.baggage, ctx.baggage);
}
