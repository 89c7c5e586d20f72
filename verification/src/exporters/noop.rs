//! The no-op exporter.
//!
//! The fallback when no exporter backend is available: a default provider
//! that exports nothing and always builds.

use vstd::prelude::*;

use opentelemetry_sdk::trace::SdkTracerProvider;

use crate::errors::TracesError;
use crate::exporters::{
    install_globals, provider_max_attributes, provider_max_events, MAX_ATTRIBUTES_PER_SPAN,
    MAX_EVENTS_PER_SPAN,
};

verus! {

/// Relies on TracerProviderBuilder: a provider with no exporter attached,
/// bounded by the given per-span caps.
#[verifier::external_body]
fn noop_provider(max_events: u32, max_attributes: u32) -> (r: SdkTracerProvider)
    ensures
        provider_max_events(r) == max_events,
        provider_max_attributes(r) == max_attributes,
{
    opentelemetry_sdk::trace::TracerProviderBuilder::default()
        .with_max_events_per_span(max_events)
        .with_max_attributes_per_span(max_attributes)
        .build()
}

/// Installs a provider that exports nothing, bounded by the fixed
/// per-span caps, together with the composite propagator, as the
/// process-wide defaults. Never fails.
pub fn install() -> (r: Result<SdkTracerProvider, TracesError>)
    ensures
        r is Ok,
        r matches Ok(p) ==> provider_max_events(p) == MAX_EVENTS_PER_SPAN
            && provider_max_attributes(p) == MAX_ATTRIBUTES_PER_SPAN,
{
    let provider = noop_provider(MAX_EVENTS_PER_SPAN, MAX_ATTRIBUTES_PER_SPAN);
    install_globals(&provider);
    Ok(provider)
}

} // verus!
