use traces::config::Environment;
use traces::sampler::{select_sampler, should_sample, SamplerRule};

#[test]
fn local_selects_always_on_whatever_the_rate() {
    assert_eq!(select_sampler(&Environment::Local, 0), SamplerRule::AlwaysOn);
    assert_eq!(select_sampler(&Environment::Local, 500000), SamplerRule::AlwaysOn);
    assert_eq!(select_sampler(&Environment::Local, 1000000), SamplerRule::AlwaysOn);
}

#[test]
fn non_local_selects_parent_based_ratio() {
    assert_eq!(
        select_sampler(&Environment::Prod, 250000),
        SamplerRule::ParentBasedRatio { rate_millionths: 250000 }
    );
    assert_eq!(
        select_sampler(&Environment::Dev, 0),
        SamplerRule::ParentBasedRatio { rate_millionths: 0 }
    );
    assert_eq!(
        select_sampler(&Environment::Staging, 999999),
        SamplerRule::ParentBasedRatio { rate_millionths: 999999 }
    );
}

#[test]
fn sampled_parent_overrides_a_rejecting_draw() {
    // The fresh draw (999999) is far above the rate (1), so a root would
    // be dropped; a child of a sampled parent is kept regardless.
    let rule = select_sampler(&Environment::Prod, 1);
    assert!(should_sample(&rule, Some(true), 999999));
    assert!(!should_sample(&rule, None, 999999));
}

#[test]
fn unsampled_parent_drops_child_even_on_accepting_draw() {
    let rule = select_sampler(&Environment::Prod, 999999);
    assert!(!should_sample(&rule, Some(false), 0));
    assert!(should_sample(&rule, None, 0));
}

#[test]
fn root_draw_compares_against_rate() {
    let rule = SamplerRule::ParentBasedRatio { rate_millionths: 500000 };
    assert!(should_sample(&rule, None, 499999));
    assert!(!should_sample(&rule, None, 500000));
}

#[test]
fn always_on_samples_everything() {
    assert!(should_sample(&SamplerRule::AlwaysOn, None, 999999));
    assert!(should_sample(&SamplerRule::AlwaysOn, Some(false), 0));
}
