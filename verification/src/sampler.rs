//! Sampling policy.
//!
//! The policy is a pure function of the deployment environment and the
//! configured sampling rate. Locally everything is sampled; elsewhere a
//! ratio-based rule applies to root spans, while a child span always inherits
//! its parent's decision so that a trace is either sampled whole or dropped
//! whole.

use vstd::prelude::*;

use crate::config::Environment;

verus! {

/// One million, the denominator of all sampling rates.
pub const RATE_DENOMINATOR: u64 = 1000000;

/// The sampling decision rule installed on the provider.
#[derive(Clone, Copy, Debug, PartialEq, Eq, Structural)]
pub enum SamplerRule {
    /// Sample every span.
    AlwaysOn,
    /// Sample a fraction of root traces; a child span follows its parent.
    ParentBasedRatio {
        /// The fraction of root traces to sample, in millionths of one.
        rate_millionths: u64,
    },
}

/// The rule chosen for a given environment and configured rate.
pub open spec fn spec_select_sampler(env: Environment, rate_millionths: u64) -> SamplerRule {
    if env.spec_is_local() {
        SamplerRule::AlwaysOn
    } else {
        SamplerRule::ParentBasedRatio { rate_millionths }
    }
}

/// Chooses the sampling rule for an environment.
///
/// Local environments get full sampling for complete visibility during
/// development; every other environment gets a parent-aware ratio rule.
pub fn select_sampler(env: &Environment, rate_millionths: u64) -> (r: SamplerRule)
    ensures
        r == spec_select_sampler(*env, rate_millionths),
{
    if env.is_local() {
        return SamplerRule::AlwaysOn;
    }
    SamplerRule::ParentBasedRatio { rate_millionths }
}

/// What a rule decides for one span.
///
/// `parent_sampled` is `None` for a root span and carries the parent's
/// decision otherwise. `draw_millionths` is the fresh ratio draw for this
/// span, uniform over `[0, RATE_DENOMINATOR)`.
pub open spec fn spec_should_sample(
    rule: SamplerRule,
    parent_sampled: Option<bool>,
    draw_millionths: u64,
) -> bool {
    match rule {
        SamplerRule::AlwaysOn => true,
        SamplerRule::ParentBasedRatio { rate_millionths } => match parent_sampled {
            Some(parent) => parent,
            None => draw_millionths < rate_millionths,
        },
    }
}

/// Evaluates a rule on one span.
pub fn should_sample(
    rule: &SamplerRule,
    parent_sampled: Option<bool>,
    draw_millionths: u64,
) -> (r: bool)
    ensures
        r == spec_should_sample(*rule, parent_sampled, draw_millionths),
{
    match rule {
        SamplerRule::AlwaysOn => true,
        SamplerRule::ParentBasedRatio { rate_millionths } => match parent_sampled {
            Some(parent) => parent,
            None => draw_millionths < *rate_millionths,
        },
    }
}

/// Outside the local environment, a child of a sampled parent is sampled
/// even when its own fresh ratio draw would reject it.
pub proof fn lemma_parent_decision_overrides_draw(
    env: Environment,
    rate_millionths: u64,
    draw_millionths: u64,
)
    requires
        !env.spec_is_local(),
        draw_millionths >= rate_millionths,
    ensures
        spec_should_sample(
            spec_select_sampler(env, rate_millionths),
            Some(true),
            draw_millionths,
        ),
{
}

/// In the local environment the selected rule samples everything,
/// whatever the configured rate.
pub proof fn lemma_local_always_samples(
    rate_millionths: u64,
    parent_sampled: Option<bool>,
    draw_millionths: u64,
)
    ensures
        spec_select_sampler(Environment::Local, rate_millionths) == SamplerRule::AlwaysOn,
        spec_should_sample(
            spec_select_sampler(Environment::Local, rate_millionths),
            parent_sampled,
            draw_millionths,
        ),
{
}

} // verus!
