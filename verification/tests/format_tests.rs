use traces::baggage::{format_baggage, parse_baggage};
use traces::context::SpanContext;
use traces::hex::{encode_hex, parse_hex};
use traces::propagation::{format_traceparent, parse_traceparent};

#[test]
fn hex_encodes_fixed_width_lowercase() {
    assert_eq!(
        encode_hex(0x5f467fe7bf42676c05e20ba4a90e448e, 32),
        "5f467fe7bf42676c05e20ba4a90e448e"
    );
    assert_eq!(encode_hex(42, 32), "0000000000000000000000000000002a");
    assert_eq!(encode_hex(0x4c721bf33e3caf8f, 16), "4c721bf33e3caf8f");
    assert_eq!(encode_hex(0, 16), "0000000000000000");
}

#[test]
fn hex_parses_what_it_encodes() {
    assert_eq!(parse_hex("2a"), Some(42));
    assert_eq!(parse_hex("5f467fe7bf42676c05e20ba4a90e448e"), Some(0x5f467fe7bf42676c05e20ba4a90e448e));
    assert_eq!(parse_hex(""), Some(0));
}

#[test]
fn hex_rejects_uppercase_and_junk() {
    assert_eq!(parse_hex("not_hex"), None);
    assert_eq!(parse_hex("2A"), None);
    assert_eq!(parse_hex("123456789012345678901234567890123"), None);
}

#[test]
fn traceparent_formats_sampled_header() {
    let sc = SpanContext {
        trace_id: 0x0af7651916cd43dd8448eb211c80319c,
        span_id: 0x00f067aa0ba902b7,
        sampled: true,
    };
    assert_eq!(
        format_traceparent(&sc),
        "00-0af7651916cd43dd8448eb211c80319c-00f067aa0ba902b7-01"
    );
}

#[test]
fn traceparent_formats_unsampled_header() {
    let sc = SpanContext { trace_id: 1, span_id: 2, sampled: false };
    assert_eq!(
        format_traceparent(&sc),
        "00-00000000000000000000000000000001-0000000000000002-00"
    );
}

#[test]
fn traceparent_parses_well_formed_header() {
    let parsed = parse_traceparent("00-0af7651916cd43dd8448eb211c80319c-00f067aa0ba902b7-01");
    assert_eq!(
        parsed,
        Some(SpanContext {
            trace_id: 0x0af7651916cd43dd8448eb211c80319c,
            span_id: 0x00f067aa0ba902b7,
            sampled: true,
        })
    );
    let unsampled = parse_traceparent("00-0af7651916cd43dd8448eb211c80319c-00f067aa0ba902b7-00");
    assert_eq!(unsampled.unwrap().sampled, false);
}

#[test]
fn traceparent_round_trips() {
    let sc = SpanContext { trace_id: 77, span_id: 99, sampled: true };
    assert_eq!(parse_traceparent(format_traceparent(&sc).as_str()), Some(sc));
}

#[test]
fn traceparent_reads_sampled_bit_of_any_flags_byte() {
    // A future version with the version-zero structure is accepted.
    let other_version =
        parse_traceparent("01-0af7651916cd43dd8448eb211c80319c-00f067aa0ba902b7-01").unwrap();
    assert!(other_version.sampled);
    // Unknown flags are ignored; only the sampled bit is kept.
    let flags_03 =
        parse_traceparent("00-0af7651916cd43dd8448eb211c80319c-00f067aa0ba902b7-03").unwrap();
    assert!(flags_03.sampled);
    let flags_02 =
        parse_traceparent("00-0af7651916cd43dd8448eb211c80319c-00f067aa0ba902b7-02").unwrap();
    assert!(!flags_02.sampled);
}

#[test]
fn traceparent_rejects_malformed_headers() {
    // The invalid version.
    assert_eq!(
        parse_traceparent("ff-0af7651916cd43dd8448eb211c80319c-00f067aa0ba902b7-01"),
        None
    );
    // Wrong length.
    assert_eq!(parse_traceparent("00-0af765-00f067aa0ba902b7-01"), None);
    // All-zero identifiers.
    assert_eq!(
        parse_traceparent("00-00000000000000000000000000000000-00f067aa0ba902b7-01"),
        None
    );
    assert_eq!(
        parse_traceparent("00-0af7651916cd43dd8448eb211c80319c-0000000000000000-01"),
        None
    );
    // Uppercase hex.
    assert_eq!(
        parse_traceparent("00-0AF7651916CD43DD8448EB211C80319C-00f067aa0ba902b7-01"),
        None
    );
    // Flags that are not hex digits.
    assert_eq!(
        parse_traceparent("00-0af7651916cd43dd8448eb211c80319c-00f067aa0ba902b7-0x"),
        None
    );
    assert_eq!(parse_traceparent(""), None);
}

#[test]
fn baggage_formats_members_with_commas() {
    let entries = vec![
        ("userid".to_string(), "alice".to_string()),
        ("servernode".to_string(), "DF28".to_string()),
    ];
    assert_eq!(format_baggage(&entries), "userid=alice,servernode=DF28");
    let one = vec![("k".to_string(), "v".to_string())];
    assert_eq!(format_baggage(&one), "k=v");
    let none: Vec<(String, String)> = Vec::new();
    assert_eq!(format_baggage(&none), "");
}

#[test]
fn baggage_parses_what_it_formats() {
    let entries = vec![
        ("userid".to_string(), "alice".to_string()),
        ("region".to_string(), "eu-west".to_string()),
    ];
    let header = format_baggage(&entries);
    assert_eq!(parse_baggage(header.as_str()), Some(entries));
}

#[test]
fn baggage_value_may_contain_equals() {
    let parsed = parse_baggage("token=a=b").unwrap();
    assert_eq!(parsed, vec![("token".to_string(), "a=b".to_string())]);
}

#[test]
fn baggage_rejects_malformed_headers() {
    assert_eq!(parse_baggage(""), None);
    assert_eq!(parse_baggage("novalue"), None);
    assert_eq!(parse_baggage("a=b,"), None);
    assert_eq!(parse_baggage("a=b,,c=d"), None);
    // A truncated or junk escape fails the member.
    assert_eq!(parse_baggage("k=%2"), None);
    assert_eq!(parse_baggage("k=%zz"), None);
    // An escape that is not valid UTF-8 fails the member.
    assert_eq!(parse_baggage("k=%FF"), None);
}

#[test]
fn baggage_escapes_and_decodes_either_hex_case() {
    let entries = vec![("k".to_string(), "caf\u{e9} time".to_string())];
    assert_eq!(format_baggage(&entries), "k=caf%C3%A9%20time");
    assert_eq!(parse_baggage("k=caf%C3%A9%20time"), Some(entries.clone()));
    assert_eq!(parse_baggage("k=caf%c3%a9%20time"), Some(entries));
}
