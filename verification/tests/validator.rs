use std::time::{SystemTime, UNIX_EPOCH};

use cerynth::ipc::profile::Profile;
use cerynth::policy::confidence::Confidence;
use cerynth::policy::recommendation::{
    PolicyRecommendation, PolicyValidationError, PolicyValidationResult, PolicyValidator,
};

fn conf(x: f64) -> Confidence {
    Confidence::from_bits(x.to_bits())
}

fn value(c: &Confidence) -> f64 {
    f64::from_bits(c.to_bits())
}

fn now_secs() -> u64 {
    SystemTime::now().duration_since(UNIX_EPOCH).unwrap().as_secs()
}

fn make_recommendation(profile: Profile, confidence: f64, reason: &str, timestamp: u64) -> PolicyRecommendation {
    PolicyRecommendation {
        recommended_profile: profile,
        confidence: conf(confidence),
        reason: reason.to_string(),
        timestamp,
        apply: false,
    }
}

#[test]
fn age_secs_works() {
    let now = now_secs();
    let old = now - 5;
    let recommendation = make_recommendation(Profile::Balanced, 0.85, "test", old);
    assert_eq!(recommendation.age_secs(), 5);
}

#[test]
fn is_fresh_works() {
    let now = now_secs();
    let recommendation = make_recommendation(Profile::Balanced, 0.85, "test", now);
    assert!(recommendation.is_fresh(10));
    assert!(!recommendation.is_fresh(0));
}

#[test]
fn accepts_high_confidence_fresh_different_profile() {
    let now = now_secs();
    let validator = PolicyValidator::new();
    let recommendation = make_recommendation(Profile::Performance, 0.89, "High CPU", now);
    let result = validator.validate(&recommendation, Profile::Balanced);
    assert!(result.is_accepted());
}

#[test]
fn lib_rejects_low_confidence() {
    let now = now_secs();
    let validator = PolicyValidator::new();
    let recommendation = make_recommendation(Profile::Performance, 0.42, "Low confidence", now);
    let result = validator.validate(&recommendation, Profile::Balanced);
    assert!(!result.is_accepted());
    assert!(matches!(
        result.rejection_reason(),
        Some(PolicyValidationError::LowConfidence { confidence, threshold })
        if (value(confidence) - 0.42).abs() < f64::EPSILON && (value(threshold) - 0.75).abs() < f64::EPSILON
    ));
}

#[test]
fn rejects_stale_policy() {
    let old = now_secs().saturating_sub(20);
    let validator = PolicyValidator::new();
    let recommendation = make_recommendation(Profile::Performance, 0.89, "High CPU", old);
    let result = validator.validate(&recommendation, Profile::Balanced);
    assert!(!result.is_accepted());
    assert!(matches!(
        result.rejection_reason(),
        Some(PolicyValidationError::StalePolicy { age_secs, max_age_secs })
        if *age_secs >= 20 && *max_age_secs == 10
    ));
}

#[test]
fn rejects_same_profile() {
    let now = now_secs();
    let validator = PolicyValidator::new();
    let recommendation = make_recommendation(Profile::Balanced, 0.89, "Same profile", now);
    let result = validator.validate(&recommendation, Profile::Balanced);
    assert!(!result.is_accepted());
    assert!(matches!(
        result.rejection_reason(),
        Some(PolicyValidationError::SameProfile { profile }) if *profile == Profile::Balanced
    ));
}

#[test]
fn accepts_with_custom_confidence_threshold() {
    let now = now_secs();
    let validator = PolicyValidator::new().with_min_confidence(conf(0.50));
    let recommendation = make_recommendation(Profile::Performance, 0.60, "Medium confidence", now);
    let result = validator.validate(&recommendation, Profile::Balanced);
    assert!(result.is_accepted());
}

#[test]
fn rejects_with_custom_confidence_threshold() {
    let now = now_secs();
    let validator = PolicyValidator::new().with_min_confidence(conf(0.90));
    let recommendation = make_recommendation(Profile::Performance, 0.89, "Below custom threshold", now);
    let result = validator.validate(&recommendation, Profile::Balanced);
    assert!(!result.is_accepted());
    assert!(matches!(
        result.rejection_reason(),
        Some(PolicyValidationError::LowConfidence { threshold, .. })
        if (value(threshold) - 0.90).abs() < f64::EPSILON
    ));
}

#[test]
fn accepts_with_custom_max_age() {
    let old = now_secs().saturating_sub(20);
    let validator = PolicyValidator::new().with_max_age(30);
    let recommendation = make_recommendation(Profile::Performance, 0.89, "Old but within custom max_age", old);
    let result = validator.validate(&recommendation, Profile::Balanced);
    assert!(result.is_accepted());
}

#[test]
fn rejects_with_custom_max_age() {
    let old = now_secs().saturating_sub(20);
    let validator = PolicyValidator::new().with_max_age(10);
    let recommendation = make_recommendation(Profile::Performance, 0.89, "Too old for custom max_age", old);
    let result = validator.validate(&recommendation, Profile::Balanced);
    assert!(!result.is_accepted());
    assert!(matches!(result.rejection_reason(), Some(PolicyValidationError::StalePolicy { .. })));
}

#[test]
fn validation_result_rejection_reason_works() {
    let now = now_secs();
    let validator = PolicyValidator::new();
    let recommendation = make_recommendation(Profile::Performance, 0.42, "Low confidence", now);
    let result = validator.validate(&recommendation, Profile::Balanced);
    assert!(!result.is_accepted());
    let reason = result.rejection_reason().unwrap();
    assert!(matches!(reason, PolicyValidationError::LowConfidence { .. }));
    let recommendation = make_recommendation(Profile::Performance, 0.89, "High confidence", now);
    let result = validator.validate(&recommendation, Profile::Balanced);
    assert!(result.is_accepted());
    assert!(result.rejection_reason().is_none());
}

#[test]
fn works_with_all_profiles() {
    let now = now_secs();
    let validator = PolicyValidator::new();
    let all = [Profile::Balanced, Profile::Performance, Profile::Interactive, Profile::Background];
    for from_profile in all {
        for to_profile in all {
            let recommendation = make_recommendation(to_profile, 0.85, "test", now);
            let result = validator.validate(&recommendation, from_profile);
            if from_profile == to_profile {
                assert!(!result.is_accepted(), "Should reject same profile: {:?}", from_profile);
            } else {
                assert!(result.is_accepted(), "Should accept different profile: {:?} -> {:?}", from_profile, to_profile);
            }
        }
    }
}

#[test]
fn validation_checks_confidence_before_age_and_profile() {
    let validator = PolicyValidator::new();
    let recommendation = make_recommendation(Profile::Balanced, 0.10, "old and same", 100);
    assert_eq!(
        validator.validate_at(&recommendation, Profile::Balanced, 1_000),
        PolicyValidationResult::Rejected(PolicyValidationError::LowConfidence {
            confidence: conf(0.10),
            threshold: conf(0.75),
        })
    );
    let recommendation = make_recommendation(Profile::Balanced, 0.80, "old and same", 100);
    assert_eq!(
        validator.validate_at(&recommendation, Profile::Balanced, 1_000),
        PolicyValidationResult::Rejected(PolicyValidationError::StalePolicy { age_secs: 900, max_age_secs: 10 })
    );
    assert_eq!(
        validator.validate_at(&recommendation, Profile::Balanced, 105),
        PolicyValidationResult::Rejected(PolicyValidationError::SameProfile { profile: Profile::Balanced })
    );
}

#[test]
fn age_counts_future_timestamps_as_zero() {
    let recommendation = make_recommendation(Profile::Balanced, 0.85, "test", 2_000);
    assert_eq!(recommendation.age_secs_at(1_000), 0);
    assert!(!recommendation.is_fresh_at(0, 1_000));
    assert!(recommendation.is_fresh_at(10, 2_010));
    assert!(!recommendation.is_fresh_at(10, 2_011));
}

#[test]
fn nan_confidence_is_rejected() {
    let validator = PolicyValidator::new();
    let recommendation = make_recommendation(Profile::Performance, f64::NAN, "nan", 1_000);
    let result = validator.validate_at(&recommendation, Profile::Balanced, 1_000);
    match result {
        PolicyValidationResult::Rejected(PolicyValidationError::LowConfidence { confidence, threshold }) => {
            assert!(value(&confidence).is_nan());
            assert_eq!(threshold, conf(0.75));
        }
        other => panic!("expected LowConfidence, got {:?}", other),
    }
    let recommendation = make_recommendation(Profile::Performance, 0.75, "at threshold", 1_000);
    assert!(validator.validate_at(&recommendation, Profile::Balanced, 1_000).is_accepted());
}
