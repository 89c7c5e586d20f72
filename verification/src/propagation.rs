//! The trace-context wire format.
//!
//! A span linkage travels in one header value of 55 characters:
//! a two-digit version, the 32-hex-digit trace identifier, the 16-hex-digit
//! span identifier and a two-digit flags field, separated by dashes.
//! Version zero is produced; on reading, any version but the invalid `ff`
//! is accepted with the version-zero structure, and of the flags byte only
//! the sampled bit is kept. Anything malformed is treated as absence,
//! never as an error.

use vstd::prelude::*;

use crate::baggage::{
    is_wire_baggage_char, lemma_baggage_roundtrip, lemma_escape_wire_safe, spec_escape,
    spec_format_baggage, spec_member, spec_parse_baggage,
};
use vstd::utf8::encode_utf8;
use crate::context::SpanContext;
use crate::hex::{
    encode_hex, hex_digit_val, hex_seq, hex_val, is_hex_char, is_hex_seq, lemma_hex_seq_len,
    lemma_hex_val_bound, lemma_hex_val_of_seq, nibble_val, parse_hex, pow16,
};

verus! {

/// The header name that carries the span linkage.
pub open spec fn traceparent_key() -> Seq<char> {
    seq!['t', 'r', 'a', 'c', 'e', 'p', 'a', 'r', 'e', 'n', 't']
}

/// The header name that carries the baggage.
pub open spec fn baggage_key() -> Seq<char> {
    seq!['b', 'a', 'g', 'g', 'a', 'g', 'e']
}

/// What injection leaves in a carrier: the span-linkage header when the
/// context holds a valid span, and the baggage header, percent-encoded,
/// when the context holds any baggage at all. Each sub-format writes its
/// own header and leaves every other key alone.
pub open spec fn spec_inject(
    span: Option<SpanContext>,
    baggage: Seq<(Seq<char>, Seq<char>)>,
    m: Map<Seq<char>, Seq<char>>,
) -> Map<Seq<char>, Seq<char>> {
    let with_span = match span {
        Some(sc) => if sc.spec_is_valid() {
            m.insert(traceparent_key(), spec_traceparent(sc))
        } else {
            m
        },
        None => m,
    };
    if baggage.len() > 0 {
        with_span.insert(baggage_key(), spec_format_baggage(baggage))
    } else {
        with_span
    }
}

/// The span linkage extraction recovers from a carrier: the parsed
/// span-linkage header when present and well formed, nothing otherwise.
pub open spec fn spec_extract_span(m: Map<Seq<char>, Seq<char>>) -> Option<SpanContext> {
    if m.contains_key(traceparent_key()) {
        spec_parse_traceparent(m[traceparent_key()])
    } else {
        None
    }
}

/// The baggage extraction recovers from a carrier: the parsed entries
/// when the baggage header is present and parses whole, empty otherwise.
pub open spec fn spec_extract_baggage(m: Map<Seq<char>, Seq<char>>) -> Seq<
    (Seq<char>, Seq<char>),
> {
    if m.contains_key(baggage_key()) {
        match spec_parse_baggage(m[baggage_key()]) {
            Some(e) => e,
            None => Seq::empty(),
        }
    } else {
        Seq::empty()
    }
}

/// The two header names are valid carrier keys, and the literals the code
/// writes denote them.
pub proof fn lemma_header_key_facts()
    ensures
        "traceparent"@ == traceparent_key(),
        "baggage"@ == baggage_key(),
        crate::carrier::lower_seq(traceparent_key()) == traceparent_key(),
        crate::carrier::lower_seq(baggage_key()) == baggage_key(),
        crate::carrier::encodable_metadata_key(traceparent_key()),
        crate::carrier::encodable_metadata_key(baggage_key()),
        crate::carrier::valid_metadata_key(traceparent_key()),
        crate::carrier::valid_metadata_key(baggage_key()),
{
    reveal_strlit("traceparent");
    reveal_strlit("baggage");
    assert(crate::carrier::lower_seq(traceparent_key()) =~= traceparent_key()) by {
        assert forall|i: int| 0 <= i < traceparent_key().len() implies crate::carrier::lower_seq(
            traceparent_key(),
        )[i] == traceparent_key()[i] by {
            assert(97 <= traceparent_key()[i] as int <= 122);
        }
    }
    assert(crate::carrier::lower_seq(baggage_key()) =~= baggage_key()) by {
        assert forall|i: int| 0 <= i < baggage_key().len() implies crate::carrier::lower_seq(
            baggage_key(),
        )[i] == baggage_key()[i] by {
            assert(97 <= baggage_key()[i] as int <= 122);
        }
    }
    assert("traceparent"@ =~= traceparent_key());
    assert("baggage"@ =~= baggage_key());
    assert forall|i: int| 0 <= i < traceparent_key().len() implies
        crate::carrier::is_metadata_key_char(#[trigger] traceparent_key()[i]) by {
        assert(97 <= traceparent_key()[i] as int <= 122);
    }
    assert forall|i: int| 0 <= i < baggage_key().len() implies crate::carrier::is_metadata_key_char(
        #[trigger] baggage_key()[i],
    ) by {
        assert(97 <= baggage_key()[i] as int <= 122);
    }
    assert(traceparent_key().subrange(7, 11)[0] == 'r');
    assert(crate::carrier::binary_marker()[0] == '-');
    assert(baggage_key().subrange(3, 7)[0] == 'g');
}

/// A span-linkage header value holds only printable characters.
pub proof fn lemma_traceparent_value_valid(sc: SpanContext)
    ensures
        crate::carrier::valid_metadata_value(spec_traceparent(sc)),
{
    let s = spec_traceparent(sc);
    lemma_hex_seq_len(sc.trace_id as int, 32);
    lemma_hex_seq_len(sc.span_id as int, 16);
    assert forall|i: int| 0 <= i < s.len() implies crate::carrier::is_metadata_value_char(
        #[trigger] s[i],
    ) by {
        if 3 <= i < 35 {
            assert(s[i] == hex_seq(sc.trace_id as int, 32)[i - 3]);
            assert(is_hex_char(s[i]));
        } else if 36 <= i < 52 {
            assert(s[i] == hex_seq(sc.span_id as int, 16)[i - 36]);
            assert(is_hex_char(s[i]));
        }
    }
}

/// A baggage header value holds only printable characters, whatever the
/// entries hold.
pub proof fn lemma_baggage_value_valid(e: Seq<(Seq<char>, Seq<char>)>)
    ensures
        crate::carrier::valid_metadata_value(spec_format_baggage(e)),
    decreases e.len(),
{
    let s = spec_format_baggage(e);
    if e.len() == 0 {
    } else {
        let m = spec_member(e[0]);
        let kw = spec_escape(e[0].0);
        let vw = spec_escape(e[0].1);
        lemma_escape_wire_safe(encode_utf8(e[0].0));
        lemma_escape_wire_safe(encode_utf8(e[0].1));
        assert forall|p: int| 0 <= p < m.len() implies crate::carrier::is_metadata_value_char(
            #[trigger] m[p],
        ) by {
            if p < kw.len() {
                assert(m[p] == kw[p]);
                assert(is_wire_baggage_char(kw[p]));
            } else if p == kw.len() {
                assert(m[p] == '=');
            } else {
                assert(m[p] == vw[p - kw.len() - 1]);
                assert(is_wire_baggage_char(vw[p - kw.len() - 1]));
            }
        }
        if e.len() == 1 {
        } else {
            let rest = e.drop_first();
            lemma_baggage_value_valid(rest);
            let rest_s = spec_format_baggage(rest);
            assert forall|p: int| 0 <= p < s.len() implies crate::carrier::is_metadata_value_char(
                #[trigger] s[p],
            ) by {
                if p < m.len() {
                    assert(s[p] == m[p]);
                } else if p == m.len() {
                    assert(s[p] == ',');
                } else {
                    assert(s[p] == rest_s[p - m.len() - 1]);
                }
            }
        }
    }
}

/// The header value that encodes a span linkage.
pub open spec fn spec_traceparent(sc: SpanContext) -> Seq<char> {
    seq!['0', '0', '-'] + hex_seq(sc.trace_id as int, 32) + seq!['-'] + hex_seq(
        sc.span_id as int,
        16,
    ) + seq!['-', '0', (if sc.sampled { '1' } else { '0' })]
}

/// Whether `s` is a well-formed header value: the version-zero structure,
/// a version that is not the invalid `ff`, non-zero identifiers, and a
/// two-digit lowercase-hex flags field.
pub open spec fn spec_traceparent_shape(s: Seq<char>) -> bool {
    &&& s.len() == 55
    &&& is_hex_char(s[0]) && is_hex_char(s[1]) && !(s[0] == 'f' && s[1] == 'f')
    &&& s[2] == '-'
    &&& s[35] == '-'
    &&& s[52] == '-'
    &&& is_hex_char(s[53]) && is_hex_char(s[54])
    &&& is_hex_seq(s.subrange(3, 35))
    &&& is_hex_seq(s.subrange(36, 52))
    &&& hex_val(s.subrange(3, 35)) != 0
    &&& hex_val(s.subrange(36, 52)) != 0
}

/// The span linkage a header value denotes, if it is well formed. Of the
/// flags byte only the sampled bit is read; unknown flags are ignored.
pub open spec fn spec_parse_traceparent(s: Seq<char>) -> Option<SpanContext> {
    if spec_traceparent_shape(s) {
        Some(
            SpanContext {
                trace_id: hex_val(s.subrange(3, 35)) as u128,
                span_id: hex_val(s.subrange(36, 52)) as u64,
                sampled: nibble_val(s[54]) % 2 == 1,
            },
        )
    } else {
        None
    }
}

/// Encodes a span linkage as its header value.
pub fn format_traceparent(sc: &SpanContext) -> (r: String)
    ensures
        r@ == spec_traceparent(*sc),
        r@.len() == 55,
{
    proof {
        reveal_strlit("00-");
        reveal_strlit("-");
        reveal_strlit("-01");
        reveal_strlit("-00");
        lemma_hex_seq_len(sc.trace_id as int, 32);
        lemma_hex_seq_len(sc.span_id as int, 16);
    }
    let mut s = String::from_str("00-");
    let trace_part = encode_hex(sc.trace_id, 32);
    s.append(trace_part.as_str());
    s.append("-");
    let span_part = encode_hex(sc.span_id as u128, 16);
    s.append(span_part.as_str());
    if sc.sampled {
        s.append("-01");
    } else {
        s.append("-00");
    }
    proof {
        assert(s@ =~= spec_traceparent(*sc));
    }
    s
}

/// A well-formed header value holds only ASCII characters.
proof fn lemma_shape_ascii(s: Seq<char>)
    requires
        spec_traceparent_shape(s),
    ensures
        vstd::utf8::is_ascii_chars(s),
{
    assert forall|i: int| 0 <= i < s.len() implies '\0' <= #[trigger] s[i] <= '\u{7f}' by {
        if 3 <= i < 35 {
            assert(is_hex_char(s.subrange(3, 35)[i - 3]));
        } else if 36 <= i < 52 {
            assert(is_hex_char(s.subrange(36, 52)[i - 36]));
        }
    }
}

/// Decodes a header value, exactly when it is well formed.
pub fn parse_traceparent(s: &str) -> (r: Option<SpanContext>)
    ensures
        r == spec_parse_traceparent(s@),
        r matches Some(sc) ==> sc.spec_is_valid(),
{
    if !s.is_ascii() {
        proof {
            if spec_traceparent_shape(s@) {
                lemma_shape_ascii(s@);
            }
        }
        return None;
    }
    let n = s.unicode_len();
    if n != 55 {
        return None;
    }
    let v0 = s.get_char(0);
    let v1 = s.get_char(1);
    if hex_digit_val(v0).is_none() || hex_digit_val(v1).is_none() {
        return None;
    }
    if v0 == 'f' && v1 == 'f' {
        return None;
    }
    if !(s.get_char(2) == '-' && s.get_char(35) == '-' && s.get_char(52) == '-') {
        return None;
    }
    if hex_digit_val(s.get_char(53)).is_none() {
        return None;
    }
    let flag_low = match hex_digit_val(s.get_char(54)) {
        Some(d) => d,
        None => {
            return None;
        },
    };
    let trace_part = s.substring_ascii(3, 35);
    let span_part = s.substring_ascii(36, 52);
    let trace_val = match parse_hex(trace_part) {
        Some(v) => v,
        None => {
            return None;
        },
    };
    let span_val = match parse_hex(span_part) {
        Some(v) => v,
        None => {
            return None;
        },
    };
    if trace_val == 0 || span_val == 0 {
        return None;
    }
    proof {
        lemma_hex_val_bound(span_part@);
        reveal_with_fuel(pow16, 17);
        assert(pow16(16) == 0x10000000000000000);
    }
    Some(SpanContext { trace_id: trace_val, span_id: span_val as u64, sampled: flag_low % 2 == 1 })
}

/// Decoding an encoded span linkage with valid identifiers gives it back.
pub proof fn lemma_traceparent_roundtrip(sc: SpanContext)
    requires
        sc.spec_is_valid(),
    ensures
        spec_parse_traceparent(spec_traceparent(sc)) == Some(sc),
{
    let s = spec_traceparent(sc);
    let trace_digits = hex_seq(sc.trace_id as int, 32);
    let span_digits = hex_seq(sc.span_id as int, 16);
    lemma_hex_seq_len(sc.trace_id as int, 32);
    lemma_hex_seq_len(sc.span_id as int, 16);
    assert(s.subrange(3, 35) =~= trace_digits);
    assert(s.subrange(36, 52) =~= span_digits);
    reveal_with_fuel(pow16, 34);
    assert(pow16(32) == 0x100000000000000000000000000000000);
    assert(pow16(16) == 0x10000000000000000);
    lemma_hex_val_of_seq(sc.trace_id as int, 32);
    lemma_hex_val_of_seq(sc.span_id as int, 16);
    assert(spec_traceparent_shape(s));
}

/// Extraction after injection recovers the original context: for a valid
/// span linkage and any non-empty baggage, the trace identifier, span
/// identifier, sampled flag and every baggage entry come back equal,
/// whatever the entries hold and whatever the carrier held before.
pub proof fn lemma_propagation_roundtrip(
    span: Option<SpanContext>,
    baggage: Seq<(Seq<char>, Seq<char>)>,
    m: Map<Seq<char>, Seq<char>>,
)
    requires
        span matches Some(sc) && sc.spec_is_valid(),
        baggage.len() > 0,
    ensures
        spec_extract_span(spec_inject(span, baggage, m)) == span,
        spec_extract_baggage(spec_inject(span, baggage, m)) == baggage,
{
    match span {
        Some(sc) => {
            let out = spec_inject(span, baggage, m);
            assert(traceparent_key().len() != baggage_key().len());
            assert(out[traceparent_key()] == spec_traceparent(sc));
            assert(out[baggage_key()] == spec_format_baggage(baggage));
            lemma_traceparent_roundtrip(sc);
            lemma_baggage_roundtrip(baggage);
        },
        None => {},
    }
}

} // verus!
