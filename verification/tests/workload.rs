use cerynth::ipc::profile::Profile;
use cerynth::policy::confidence::Confidence;
use cerynth::policy::rules::RulesBasedPolicy;
use cerynth::policy::workload::{
    classify, current_profile, PolicyInput, Workload, FIVE_BITS, FIVE_HUNDRED_BITS, HALF_BITS, LOW_LOAD_CONFIDENCE_BITS,
    NINETY_BITS, ONE_POINT_ZERO_BITS, TEN_BITS, THIRTY_BITS,
};

fn f(x: f64) -> Confidence {
    Confidence::from_bits(x.to_bits())
}

fn input(cpu: f64, load: f64, runnable: u64, context_switch_rate: f64, short_lived: f64) -> PolicyInput {
    PolicyInput {
        cpu_usage_percent: f(cpu),
        load_1m: f(load),
        runnable_tasks: runnable,
        context_switch_rate: f(context_switch_rate),
        short_lived_process_rate: f(short_lived),
        current_profile: Profile::Balanced,
    }
}

#[test]
fn thresholds_are_the_documented_numbers() {
    assert_eq!(NINETY_BITS, 90.0f64.to_bits());
    assert_eq!(THIRTY_BITS, 30.0f64.to_bits());
    assert_eq!(TEN_BITS, 10.0f64.to_bits());
    assert_eq!(FIVE_BITS, 5.0f64.to_bits());
    assert_eq!(FIVE_HUNDRED_BITS, 500.0f64.to_bits());
    assert_eq!(ONE_POINT_ZERO_BITS, 1.0f64.to_bits());
    assert_eq!(HALF_BITS, 0.5f64.to_bits());
    assert_eq!(LOW_LOAD_CONFIDENCE_BITS, 0.90f64.to_bits());
}

#[test]
fn classifies_the_documented_workloads() {
    assert_eq!(classify(&input(5.0, 1.2, 3, 500.0, 7.0)), Workload::Responsive);
    assert_eq!(classify(&input(70.0, 1.0, 4, 20.0, 5.0)), Workload::Responsive);
    assert_eq!(classify(&input(5.0, 0.1, 0, 10.0, 0.0)), Workload::Idle);
    assert_eq!(classify(&input(15.0, 0.2, 1, 100.0, 0.0)), Workload::LowLoad);
    assert_eq!(classify(&input(100.0, 1.5, 5, 150.0, 0.0)), Workload::Saturated);
    assert_eq!(classify(&input(75.0, 1.0, 4, 600.0, 0.0)), Workload::Responsive);
    assert_eq!(classify(&input(98.0, 1.0, 5, 150.0, 0.0)), Workload::Saturated);
    assert_eq!(classify(&input(45.0, 1.5, 2, 200.0, 0.0)), Workload::Ambiguous);
    assert_eq!(classify(&input(100.0, 0.5, 5, 600.0, 0.0)), Workload::Responsive);
    assert_eq!(classify(&input(f64::NAN, 1.0, 2, 100.0, 0.0)), Workload::InvalidTelemetry);
    assert_eq!(classify(&input(50.0, f64::INFINITY, 2, 100.0, 0.0)), Workload::InvalidTelemetry);
}

#[test]
fn workloads_map_to_profiles_and_reasons() {
    assert_eq!(Workload::Saturated.profile(), Profile::Performance);
    assert_eq!(Workload::Responsive.profile(), Profile::Interactive);
    assert_eq!(Workload::Idle.profile(), Profile::Background);
    assert_eq!(Workload::LowLoad.profile(), Profile::Balanced);
    assert!(Workload::Idle.reason().contains("Very low CPU"));
    assert!(Workload::Responsive.reason().contains("short-lived"));
    assert_eq!(Workload::LowLoad.fixed_confidence(), Some(f(0.90)));
    assert_eq!(Workload::InvalidTelemetry.fixed_confidence(), Some(f(1.0)));
    assert_eq!(Workload::Saturated.fixed_confidence(), None);
}

#[test]
fn invalid_telemetry_is_answered_at_once() {
    let mut policy = RulesBasedPolicy::new();
    let decision = policy.evaluate(&input(f64::NAN, 1.0, 2, 100.0, 0.0), f(0.3));
    assert_eq!(decision.recommended_profile, Profile::Balanced);
    assert_eq!(decision.confidence, f(1.0));
    assert!(decision.reason.contains("Invalid telemetry"));
    assert_eq!(policy.accepted_profile(), None);
}

#[test]
fn evaluation_goes_through_the_dwell_samples() {
    let mut policy = RulesBasedPolicy::with_stability_controls(f(0.60), 3, 0);
    let workload = input(100.0, 1.5, 5, 150.0, 0.0);
    let first = policy.evaluate(&workload, f(0.95));
    assert_eq!(first.recommended_profile, Profile::Balanced);
    assert!(first.reason.contains("1/3"));
    let second = policy.evaluate(&workload, f(0.95));
    assert!(second.reason.contains("2/3"));
    let third = policy.evaluate(&workload, f(0.95));
    assert_eq!(third.recommended_profile, Profile::Performance);
    assert_eq!(third.confidence, f(0.95));
}

#[test]
fn low_load_uses_its_fixed_confidence() {
    let mut policy = RulesBasedPolicy::new();
    let decision = policy.evaluate(&input(15.0, 0.2, 1, 100.0, 0.0), f(0.1));
    assert_eq!(decision.recommended_profile, Profile::Balanced);
    assert_eq!(decision.confidence, f(0.90));
}

#[test]
fn current_profile_defaults_to_balanced() {
    assert_eq!(current_profile(Some("interactive")), Profile::Interactive);
    assert_eq!(current_profile(Some("Performance")), Profile::Performance);
    assert_eq!(current_profile(Some("turbo")), Profile::Balanced);
    assert_eq!(current_profile(None), Profile::Balanced);
}

fn evaluate(policy: &mut RulesBasedPolicy, workload: &PolicyInput) -> cerynth::policy::rules::PolicyDecision {
    policy.evaluate(workload, Confidence::zero())
}

#[test]
fn responsive_low_cpu_workload_recommends_interactive() {
    let mut policy = RulesBasedPolicy::with_stability_controls(f(0.60), 1, 0);
    let workload = input(5.0, 1.2, 3, 500.0, 7.0);
    let decision = evaluate(&mut policy, &workload);
    assert_eq!(decision.recommended_profile, Profile::Interactive);
}

#[test]
fn short_lived_process_activity_recommends_interactive() {
    let mut policy = RulesBasedPolicy::with_stability_controls(f(0.60), 1, 0);
    let workload = input(70.0, 1.0, 4, 20.0, 5.0);
    let decision = evaluate(&mut policy, &workload);
    assert_eq!(decision.recommended_profile, Profile::Interactive);
    assert!(decision.reason.contains("short-lived"));
}

#[test]
fn idle_workload_recommends_background() {
    let mut policy = RulesBasedPolicy::with_stability_controls(f(0.60), 1, 0);
    let workload = input(5.0, 0.1, 0, 10.0, 0.0);
    let decision = evaluate(&mut policy, &workload);
    assert_eq!(decision.recommended_profile, Profile::Background);
    assert!(decision.reason.contains("Very low CPU"));
}

#[test]
fn low_load_recommends_balanced() {
    let mut policy = RulesBasedPolicy::new();
    let decision = evaluate(&mut policy, &input(15.0, 0.2, 1, 100.0, 0.0));
    assert_eq!(decision.recommended_profile, Profile::Balanced);
    assert!(f64::from_bits(decision.confidence.to_bits()) >= 0.60);
}

#[test]
fn cpu_saturation_recommends_performance() {
    let mut policy = RulesBasedPolicy::new();
    let workload = input(100.0, 1.5, 5, 150.0, 0.0);
    evaluate(&mut policy, &workload);
    evaluate(&mut policy, &workload);
    let decision = evaluate(&mut policy, &workload);
    assert_eq!(decision.recommended_profile, Profile::Performance);
}

#[test]
fn interactive_workload_recommends_interactive() {
    let mut policy = RulesBasedPolicy::new();
    let workload = input(75.0, 1.0, 4, 600.0, 0.0);
    evaluate(&mut policy, &workload);
    evaluate(&mut policy, &workload);
    let decision = evaluate(&mut policy, &workload);
    assert_eq!(decision.recommended_profile, Profile::Interactive);
}

#[test]
fn performance_dominates_when_context_switching_is_low() {
    let mut policy = RulesBasedPolicy::new();
    let workload = input(98.0, 1.0, 5, 150.0, 0.0);
    evaluate(&mut policy, &workload);
    evaluate(&mut policy, &workload);
    let decision = evaluate(&mut policy, &workload);
    assert_eq!(decision.recommended_profile, Profile::Performance);
}

#[test]
fn ambiguous_workload_defaults_to_balanced() {
    let mut policy = RulesBasedPolicy::new();
    let decision = evaluate(&mut policy, &input(45.0, 1.5, 2, 200.0, 0.0));
    assert_eq!(decision.recommended_profile, Profile::Balanced);
}

#[test]
fn invalid_telemetry_fails_safe() {
    let mut policy = RulesBasedPolicy::new();
    let decision = evaluate(&mut policy, &input(f64::NAN, 1.0, 2, 100.0, 0.0));
    assert_eq!(decision.recommended_profile, Profile::Balanced);
    assert!(decision.reason.contains("Invalid telemetry"));
}

#[test]
fn recommendation_requires_dwell_samples() {
    let mut policy = RulesBasedPolicy::with_stability_controls(f(0.60), 3, 0);
    let workload = input(100.0, 1.5, 5, 150.0, 0.0);
    let first = evaluate(&mut policy, &workload);
    assert_eq!(first.recommended_profile, Profile::Balanced);
    assert!(first.reason.contains("1/3"));
    let second = evaluate(&mut policy, &workload);
    assert_eq!(second.recommended_profile, Profile::Balanced);
    assert!(second.reason.contains("2/3"));
    let third = evaluate(&mut policy, &workload);
    assert_eq!(third.recommended_profile, Profile::Performance);
}

#[test]
fn cooldown_prevents_immediate_oscillation() {
    let mut policy = RulesBasedPolicy::with_stability_controls(f(0.60), 1, 3);
    let performance = input(100.0, 1.5, 5, 150.0, 0.0);
    let first = evaluate(&mut policy, &performance);
    assert_eq!(first.recommended_profile, Profile::Performance);
    let balanced = input(10.0, 0.1, 1, 10.0, 0.0);
    let second = evaluate(&mut policy, &balanced);
    assert_eq!(second.recommended_profile, Profile::Performance);
    assert!(second.reason.contains("cooldown"));
    let third = evaluate(&mut policy, &balanced);
    assert_eq!(third.recommended_profile, Profile::Performance);
    let fourth = evaluate(&mut policy, &balanced);
    assert_eq!(fourth.recommended_profile, Profile::Performance);
    let fifth = evaluate(&mut policy, &balanced);
    assert_eq!(fifth.recommended_profile, Profile::Balanced);
}

#[test]
fn changing_candidate_resets_dwell_counter() {
    let mut policy = RulesBasedPolicy::with_stability_controls(f(0.60), 3, 0);
    let performance = input(100.0, 1.5, 5, 150.0, 0.0);
    let interactive = input(75.0, 1.0, 4, 600.0, 0.0);
    let first = evaluate(&mut policy, &performance);
    assert_eq!(first.recommended_profile, Profile::Balanced);
    let second = evaluate(&mut policy, &interactive);
    assert_eq!(second.recommended_profile, Profile::Balanced);
    assert!(second.reason.contains("1/3"));
    let third = evaluate(&mut policy, &interactive);
    assert_eq!(third.recommended_profile, Profile::Balanced);
    assert!(third.reason.contains("2/3"));
}

#[test]
fn low_load_blocks_performance_recommendation() {
    let mut policy = RulesBasedPolicy::with_stability_controls(f(0.60), 1, 0);
    let workload = input(100.0, 0.5, 5, 600.0, 0.0);
    let decision = evaluate(&mut policy, &workload);
    assert_ne!(decision.recommended_profile, Profile::Performance);
    assert_eq!(decision.recommended_profile, Profile::Interactive);
}

#[test]
fn evaluated_confidence_stays_between_minimum_and_one() {
    let mut policy = RulesBasedPolicy::with_min_confidence(f(0.70));
    for (sample, score) in [(input(15.0, 0.2, 1, 100.0, 0.0), 0.1), (input(95.0, 3.0, 4, 100.0, 0.0), f64::NAN),
        (input(50.0, 0.8, 2, 100.0, 1.0), 0.95), (input(f64::NAN, 0.8, 2, 100.0, 1.0), 0.2)]
    {
        let decision = policy.evaluate(&sample, f(score));
        let c = f64::from_bits(decision.confidence.to_bits());
        assert!(c.is_finite());
        assert!(c >= 0.70 && c <= 1.0, "confidence {c}");
    }
    let mut clamped = RulesBasedPolicy::with_min_confidence(f(7.0));
    let decision = clamped.evaluate(&input(50.0, 0.8, 2, 100.0, 1.0), f(0.3));
    assert_eq!(decision.confidence, f(1.0));
}

#[test]
fn scores_outside_the_unit_range_are_clamped() {
    let saturated = input(95.0, 3.0, 4, 100.0, 0.0);
    let mut high = RulesBasedPolicy::with_stability_controls(f(0.0), 1, 0);
    let decision = high.evaluate(&saturated, f(7.0));
    assert_eq!(decision.recommended_profile, Profile::Performance);
    assert_eq!(decision.confidence, f(1.0));
    let mut low = RulesBasedPolicy::with_stability_controls(f(0.0), 1, 0);
    let decision = low.evaluate(&saturated, f(-3.0));
    assert_eq!(decision.recommended_profile, Profile::Performance);
    assert_eq!(decision.confidence, f(0.0));
}
