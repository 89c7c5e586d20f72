//! Injection of trace context into remote-call metadata.
//!
//! Writing a header never fails the outbound call: a key or value that the
//! metadata cannot encode is silently dropped, leaving the carrier as it
//! was.

use vstd::prelude::*;

use tonic::metadata::MetadataMap;

use crate::carrier::{
    encodable_metadata_key, is_encodable_metadata_key, is_valid_metadata_value, lower_seq,
    meta_insert, meta_text, valid_metadata_value,
};
use crate::context::TraceContext;
use crate::propagation::{
    format_traceparent, lemma_baggage_value_valid, lemma_header_key_facts,
    lemma_traceparent_value_valid, spec_inject,
};

verus! {

/// Writes one header under the key's lowercase wire form, or leaves the
/// carrier unchanged when the key or the value cannot be encoded as
/// metadata. No error is ever raised.
pub fn set(meta: &mut MetadataMap, key: &str, value: &str)
    ensures
        encodable_metadata_key(key@) && valid_metadata_value(value@) ==> meta_text(*final(meta))
            == meta_text(*old(meta)).insert(lower_seq(key@), value@),
        !(encodable_metadata_key(key@) && valid_metadata_value(value@)) ==> *final(meta) == *old(
            meta,
        ),
{
    if is_encodable_metadata_key(key) && is_valid_metadata_value(value) {
        meta_insert(meta, key, value);
    }
}

/// Serializes the context into the carrier: the span-linkage header when
/// the context holds a valid span, the percent-encoded baggage header
/// when it holds any baggage — every entry travels, whatever it holds.
/// The two sub-formats write disjoint keys and every other entry is left
/// alone.
pub fn inject(ctx: &TraceContext, meta: &mut MetadataMap)
    ensures
        meta_text(*final(meta)) == spec_inject(
            ctx.span,
            ctx.baggage.deep_view(),
            meta_text(*old(meta)),
        ),
{
    proof {
        lemma_header_key_facts();
    }
    if let Some(sc) = &ctx.span {
        if sc.is_valid() {
            let header = format_traceparent(sc);
            proof {
                lemma_traceparent_value_valid(*sc);
            }
            meta_insert(meta, "traceparent", header.as_str());
        }
    }
    if ctx.baggage.len() > 0 {
        let header = crate::baggage::format_baggage(&ctx.baggage);
        proof {
            lemma_baggage_value_valid(ctx.baggage.deep_view());
        }
        meta_insert(meta, "baggage", header.as_str());
    }
}

/// Serializes the context into a fresh carrier, as for an outbound call:
/// the returned metadata holds exactly the context's headers.
pub fn outbound_metadata(ctx: &TraceContext) -> (r: MetadataMap)
    ensures
        meta_text(r) == spec_inject(
            ctx.span,
            ctx.baggage.deep_view(),
            Map::<Seq<char>, Seq<char>>::empty(),
        ),
{
    let mut meta = crate::carrier::new_carrier();
    proof {
        assert(meta_text(meta) =~= Map::<Seq<char>, Seq<char>>::empty());
    }
    inject(ctx, &mut meta);
    meta
}

} // verus!
