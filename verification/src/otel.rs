//! The tracing runtime's opaque handles.
//!
//! Span creation, context handles and identifier rendering belong to the
//! tracing runtime; this module declares those types and the few calls the
//! library makes into them. Identifiers cross this boundary as plain
//! integers and lowercase-hex strings.

use vstd::prelude::*;

use opentelemetry::baggage::BaggageExt;
use opentelemetry::global::{BoxedSpan, BoxedTracer};
use opentelemetry::trace::{SpanKind, Tracer, TraceContextExt};
use opentelemetry::Context;

use crate::hex::{hex_seq, is_hex_seq};

verus! {

#[verifier::external_type_specification]
#[verifier::external_body]
pub struct ExContext(Context);

#[verifier::external_type_specification]
#[verifier::external_body]
pub struct ExBoxedTracer(BoxedTracer);

#[verifier::external_type_specification]
#[verifier::external_body]
pub struct ExBoxedSpan(BoxedSpan);

#[verifier::external_type_specification]
#[verifier::external_body]
pub struct ExSpanKind(SpanKind);

/// The span linkage a context carries: the identifiers and sampled flag
/// of its span, if it holds one.
pub uninterp spec fn ctx_linkage(c: Context) -> Option<crate::context::SpanContext>;

/// Relies on Context::new: a fresh root context carrying no span linkage.
#[verifier::external_body]
pub(crate) fn root_context() -> (r: Context)
    ensures
        ctx_linkage(r) is None,
{
    Context::new()
}

/// Relies on TraceContextExt::with_remote_span_context and
/// SpanContext::new: a root context carrying exactly the given
/// identifiers as a remote span linkage, sampled when the flags byte has
/// the sampled bit.
#[verifier::external_body]
pub(crate) fn remote_context(trace_id: u128, span_id: u64, flags: u8) -> (r: Context)
    requires
        flags == 0 || flags == 1,
    ensures
        ctx_linkage(r) == Some(
            crate::context::SpanContext { trace_id, span_id, sampled: flags == 1 },
        ),
{
    Context::new().with_remote_span_context(
        opentelemetry::trace::SpanContext::new(
            opentelemetry::trace::TraceId::from(trace_id),
            opentelemetry::trace::SpanId::from(span_id),
            opentelemetry::trace::TraceFlags::new(flags),
            true,
            opentelemetry::trace::TraceState::default(),
        ),
    )
}

/// Relies on the baggage extension's with_baggage: the same context with
/// the entries attached as its baggage facet, subject to the runtime's
/// own baggage limits; the span linkage is unchanged.
#[verifier::external_body]
pub(crate) fn attach_baggage(ctx: Context, entries: &Vec<(String, String)>) -> (r: Context)
    ensures
        ctx_linkage(r) == ctx_linkage(ctx),
{
    ctx.with_baggage(
        entries.iter().map(|kv| opentelemetry::KeyValue::new(kv.0.clone(), kv.1.clone())),
    )
}

/// Relies on Tracer::start_with_context: a span of the given name started
/// as a child of the given context.
#[verifier::external_body]
pub(crate) fn start_with_context(tracer: &BoxedTracer, name: &str, ctx: &Context) -> (r:
    BoxedSpan) {
    tracer.start_with_context(name.to_owned(), ctx)
}

/// Relies on TraceContextExt::span and SpanRef::is_recording: whether the
/// context's active span is recording; a context without a span linkage
/// holds the no-op span, which never records.
#[verifier::external_body]
pub(crate) fn context_is_recording(ctx: &Context) -> (r: bool)
    ensures
        ctx_linkage(*ctx) is None ==> !r,
{
    ctx.span().is_recording()
}

/// Relies on TraceId's Display impl: the span linkage's trace identifier
/// rendered as exactly 32 lowercase hex digits; 32 zeros when the context
/// holds no linkage.
#[verifier::external_body]
pub(crate) fn context_trace_id_hex(ctx: &Context) -> (r: String)
    ensures
        r@.len() == 32,
        is_hex_seq(r@),
        ctx_linkage(*ctx) matches Some(sc) ==> r@ == hex_seq(sc.trace_id as int, 32),
        ctx_linkage(*ctx) is None ==> r@ == hex_seq(0, 32),
{
    ctx.span().span_context().trace_id().to_string()
}

/// Relies on SpanId's Display impl: the span linkage's span identifier
/// rendered as exactly 16 lowercase hex digits; 16 zeros when the context
/// holds no linkage.
#[verifier::external_body]
pub(crate) fn context_span_id_hex(ctx: &Context) -> (r: String)
    ensures
        r@.len() == 16,
        is_hex_seq(r@),
        ctx_linkage(*ctx) matches Some(sc) ==> r@ == hex_seq(sc.span_id as int, 16),
        ctx_linkage(*ctx) is None ==> r@ == hex_seq(0, 16),
{
    ctx.span().span_context().span_id().to_string()
}

} // verus!
