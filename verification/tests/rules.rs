use cerynth::ipc::profile::Profile;
use cerynth::policy::confidence::Confidence;
use cerynth::policy::rules::{PolicyDecision, RulesBasedPolicy};

fn conf(x: f64) -> Confidence {
    Confidence::from_bits(x.to_bits())
}

fn candidate(profile: Profile, confidence: f64) -> PolicyDecision {
    PolicyDecision { recommended_profile: profile, confidence: conf(confidence), reason: "rule".to_string() }
}

#[test]
fn stabilize_requires_dwell_samples() {
    let mut policy = RulesBasedPolicy::with_stability_controls(conf(0.60), 3, 0);
    let first = policy.stabilize(candidate(Profile::Performance, 0.9), Profile::Balanced);
    assert_eq!(first.recommended_profile, Profile::Balanced);
    assert_eq!(first.reason, "Holding balanced until performance consecutive samples support performance; 1/3");
    let second = policy.stabilize(candidate(Profile::Performance, 0.9), Profile::Balanced);
    assert_eq!(second.recommended_profile, Profile::Balanced);
    assert!(second.reason.contains("2/3"));
    let third = policy.stabilize(candidate(Profile::Performance, 0.9), Profile::Balanced);
    assert_eq!(third.recommended_profile, Profile::Performance);
    assert_eq!(third.reason, "rule");
    assert_eq!(policy.accepted_profile(), Some(Profile::Performance));
}

#[test]
fn stabilize_cooldown_prevents_immediate_oscillation() {
    let mut policy = RulesBasedPolicy::with_stability_controls(conf(0.60), 1, 3);
    let first = policy.stabilize(candidate(Profile::Performance, 0.9), Profile::Balanced);
    assert_eq!(first.recommended_profile, Profile::Performance);
    let second = policy.stabilize(candidate(Profile::Balanced, 0.7), Profile::Balanced);
    assert_eq!(second.recommended_profile, Profile::Performance);
    assert_eq!(second.reason, "Holding performance during profile-change cooldown; candidate balanced");
    let third = policy.stabilize(candidate(Profile::Balanced, 0.7), Profile::Balanced);
    assert_eq!(third.recommended_profile, Profile::Performance);
    let fourth = policy.stabilize(candidate(Profile::Balanced, 0.7), Profile::Balanced);
    assert_eq!(fourth.recommended_profile, Profile::Performance);
    let fifth = policy.stabilize(candidate(Profile::Balanced, 0.7), Profile::Balanced);
    assert_eq!(fifth.recommended_profile, Profile::Balanced);
}

#[test]
fn stabilize_changing_candidate_resets_dwell_counter() {
    let mut policy = RulesBasedPolicy::with_stability_controls(conf(0.60), 3, 0);
    let first = policy.stabilize(candidate(Profile::Performance, 0.9), Profile::Balanced);
    assert_eq!(first.recommended_profile, Profile::Balanced);
    let second = policy.stabilize(candidate(Profile::Interactive, 0.9), Profile::Balanced);
    assert_eq!(second.recommended_profile, Profile::Balanced);
    assert!(second.reason.contains("1/3"));
    let third = policy.stabilize(candidate(Profile::Interactive, 0.9), Profile::Balanced);
    assert_eq!(third.recommended_profile, Profile::Balanced);
    assert!(third.reason.contains("2/3"));
}

#[test]
fn held_decisions_keep_at_least_the_minimum_confidence() {
    let mut policy = RulesBasedPolicy::with_stability_controls(conf(0.60), 2, 0);
    let held = policy.stabilize(candidate(Profile::Background, 0.30), Profile::Balanced);
    assert_eq!(held.recommended_profile, Profile::Balanced);
    assert_eq!(held.confidence, conf(0.60));
    let passed = policy.stabilize(candidate(Profile::Balanced, 0.30), Profile::Balanced);
    assert_eq!(passed.confidence, conf(0.30));
}

#[test]
fn min_confidence_is_clamped_to_the_unit_range() {
    assert_eq!(RulesBasedPolicy::with_min_confidence(conf(1.7)).min_confidence(), conf(1.0));
    assert_eq!(RulesBasedPolicy::with_min_confidence(conf(-0.2)).min_confidence(), conf(0.0));
    assert_eq!(RulesBasedPolicy::new().min_confidence(), conf(0.60));
    assert_eq!(RulesBasedPolicy::new().accepted_profile(), None);
}

#[test]
fn decision_raises_confidence_to_the_minimum() {
    let policy = RulesBasedPolicy::new();
    let d = policy.decision(Profile::Interactive, conf(0.2), "x".to_string());
    assert_eq!(d.confidence, conf(0.60));
    let d = policy.decision(Profile::Interactive, conf(0.9), "x".to_string());
    assert_eq!(d.confidence, conf(0.9));
}
