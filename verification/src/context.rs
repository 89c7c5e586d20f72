//! The library's model of a trace context.
//!
//! A context carries at most one active span linkage plus user baggage.
//! Values of this type are immutable handles: operations return new values
//! rather than mutating in place.

use vstd::prelude::*;

use crate::hex::{encode_hex, hex_seq, is_hex_seq};

verus! {

/// The identity of one span: a trace identifier shared by the whole trace,
/// a span identifier unique to the span, and the sampled flag.
#[derive(Clone, Copy, Debug, PartialEq, Eq, Structural)]
pub struct SpanContext {
    /// The 16-byte trace identifier, zero when invalid.
    pub trace_id: u128,
    /// The 8-byte span identifier, zero when invalid.
    pub span_id: u64,
    /// Whether the trace this span belongs to is sampled.
    pub sampled: bool,
}

impl SpanContext {
    /// Both identifiers must be non-zero; an all-zero identifier is the
    /// wire encoding of "no such identifier".
    pub open spec fn spec_is_valid(self) -> bool {
        self.trace_id != 0 && self.span_id != 0
    }

    /// Whether the identifiers are non-zero.
    pub fn is_valid(&self) -> (r: bool)
        ensures
            r == self.spec_is_valid(),
    {
        self.trace_id != 0 && self.span_id != 0
    }
}

/// An immutable handle to the active span linkage and the baggage carried
/// with it.
#[derive(Debug)]
pub struct TraceContext {
    /// The active span linkage, if any.
    pub span: Option<SpanContext>,
    /// Whether the active span is being recorded (sampled and exported).
    pub recording: bool,
    /// User-defined key-values propagated alongside the trace linkage.
    pub baggage: Vec<(String, String)>,
}

impl TraceContext {
    /// A context is well formed when a recording flag implies an active
    /// span and the active span's identifiers are valid.
    pub open spec fn spec_well_formed(self) -> bool {
        &&& (self.recording ==> self.span is Some)
        &&& (self.span matches Some(sc) ==> sc.spec_is_valid())
    }

    /// A fresh root context: no span, nothing recorded, no baggage.
    pub fn root() -> (r: TraceContext)
        ensures
            r.span is None,
            !r.recording,
            r.baggage@.len() == 0,
            r.spec_well_formed(),
    {
        TraceContext { span: None, recording: false, baggage: Vec::new() }
    }

    /// The lowercase-hex trace identifier of the active span, when it is
    /// recording; the empty string otherwise.
    pub fn trace_id_hex(&self) -> (r: String)
        ensures
            self.recording ==> (self.span matches Some(sc) ==> (r@ == hex_seq(
                sc.trace_id as int,
                32,
            ) && r@.len() == 32 && is_hex_seq(r@))),
            !(self.recording && self.span is Some) ==> r@.len() == 0,
    {
        if self.recording {
            if let Some(sc) = &self.span {
                proof {
                    crate::hex::lemma_hex_seq_len(sc.trace_id as int, 32);
                }
                return encode_hex(sc.trace_id, 32);
            }
        }
        String::new()
    }

    /// The lowercase-hex span identifier of the active span, when it is
    /// recording; the empty string otherwise.
    pub fn span_id_hex(&self) -> (r: String)
        ensures
            self.recording ==> (self.span matches Some(sc) ==> (r@ == hex_seq(
                sc.span_id as int,
                16,
            ) && r@.len() == 16 && is_hex_seq(r@))),
            !(self.recording && self.span is Some) ==> r@.len() == 0,
    {
        if self.recording {
            if let Some(sc) = &self.span {
                proof {
                    crate::hex::lemma_hex_seq_len(sc.span_id as int, 16);
                }
                return encode_hex(sc.span_id as u128, 16);
            }
        }
        String::new()
    }
}

} // verus!
