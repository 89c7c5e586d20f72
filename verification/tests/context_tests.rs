use traces::context::{SpanContext, TraceContext};

#[test]
fn recording_context_renders_exact_hex_identifiers() {
    let ctx = TraceContext {
        span: Some(SpanContext {
            trace_id: 0x5f467fe7bf42676c05e20ba4a90e448e,
            span_id: 0x4c721bf33e3caf8f,
            sampled: true,
        }),
        recording: true,
        baggage: Vec::new(),
    };
    assert_eq!(ctx.trace_id_hex(), "5f467fe7bf42676c05e20ba4a90e448e");
    assert_eq!(ctx.span_id_hex(), "4c721bf33e3caf8f");
}

#[test]
fn non_recording_context_renders_empty_identifiers() {
    let not_recording = TraceContext {
        span: Some(SpanContext { trace_id: 1, span_id: 2, sampled: true }),
        recording: false,
        baggage: Vec::new(),
    };
    assert_eq!(not_recording.trace_id_hex(), "");
    assert_eq!(not_recording.span_id_hex(), "");

    let root = TraceContext::root();
    assert_eq!(root.trace_id_hex(), "");
    assert_eq!(root.span_id_hex(), "");
}

#[test]
fn span_context_validity_needs_both_identifiers() {
    assert!(SpanContext { trace_id: 1, span_id: 1, sampled: false }.is_valid());
    assert!(!SpanContext { trace_id: 0, span_id: 1, sampled: false }.is_valid());
    assert!(!SpanContext { trace_id: 1, span_id: 0, sampled: false }.is_valid());
}

#[test]
fn metadata_key_grammar_matches_the_wire_rules() {
    // The stored (lowercase wire) form.
    assert!(traces::carrier::is_valid_metadata_key("traceparent"));
    assert!(traces::carrier::is_valid_metadata_key("x-request-id"));
    assert!(!traces::carrier::is_valid_metadata_key(""));
    assert!(!traces::carrier::is_valid_metadata_key("Traceparent"));
    assert!(!traces::carrier::is_valid_metadata_key("has space"));
    assert!(!traces::carrier::is_valid_metadata_key("trace-bin"));
    // Acceptance is case-insensitive: uppercase folds to the wire form.
    assert!(traces::carrier::is_encodable_metadata_key("Traceparent"));
    assert!(traces::carrier::is_encodable_metadata_key("X-Request-Id"));
    assert!(!traces::carrier::is_encodable_metadata_key(""));
    assert!(!traces::carrier::is_encodable_metadata_key("has space"));
    assert!(!traces::carrier::is_encodable_metadata_key("Trace-BIN"));
}

#[test]
fn metadata_value_grammar_matches_the_wire_rules() {
    assert!(traces::carrier::is_valid_metadata_value("k=v, plain text"));
    assert!(traces::carrier::is_valid_metadata_value(""));
    assert!(traces::carrier::is_valid_metadata_value("\t"));
    assert!(!traces::carrier::is_valid_metadata_value("\u{1}"));
    assert!(!traces::carrier::is_valid_metadata_value("\u{7f}"));
    assert!(!traces::carrier::is_valid_metadata_value("caf\u{e9}"));
}
