use cerynth::ipc::backend::AdaptationMode;
use cerynth::ipc::profile::Profile;
use cerynth::policy::confidence::Confidence;
use cerynth::policy::guardrail::{GuardrailEngine, GuardrailResult, GuardrailViolation};
use cerynth::policy::recommendation::PolicyRecommendation;

fn conf(x: f64) -> Confidence {
    Confidence::from_bits(x.to_bits())
}

fn value(c: &Confidence) -> f64 {
    f64::from_bits(c.to_bits())
}

fn make_recommendation(profile: Profile, confidence: f64, timestamp: u64) -> PolicyRecommendation {
    PolicyRecommendation {
        recommended_profile: profile,
        confidence: conf(confidence),
        reason: "test".to_string(),
        timestamp,
        apply: false,
    }
}

#[test]
fn rejects_when_adaptation_disabled() {
    let mut engine = GuardrailEngine::new(Profile::Balanced);
    engine.set_adaptation_enabled(false);
    let now = 1000;
    let recommendation = make_recommendation(Profile::Performance, 0.90, now);
    let result = engine.can_switch(&recommendation, true, now);
    assert!(!result.is_allowed());
    assert!(matches!(result.violation(), Some(GuardrailViolation::AdaptationDisabled)));
}

#[test]
fn rejects_when_not_canary_mode() {
    let mut engine = GuardrailEngine::new(Profile::Balanced);
    engine.set_adaptation_mode(AdaptationMode::Off);
    let now = 1000;
    let recommendation = make_recommendation(Profile::Performance, 0.90, now);
    let result = engine.can_switch(&recommendation, true, now);
    assert!(!result.is_allowed());
    assert!(matches!(
        result.violation(),
        Some(GuardrailViolation::NotCanaryMode { mode }) if *mode == AdaptationMode::Off
    ));
    engine.set_adaptation_mode(AdaptationMode::Shadow);
    let result = engine.can_switch(&recommendation, true, now);
    assert!(!result.is_allowed());
    assert!(matches!(
        result.violation(),
        Some(GuardrailViolation::NotCanaryMode { mode }) if *mode == AdaptationMode::Shadow
    ));
}

#[test]
fn allows_in_canary_mode() {
    let mut engine = GuardrailEngine::new(Profile::Balanced);
    engine.set_adaptation_mode(AdaptationMode::Canary);
    let now = 1000;
    let recommendation = make_recommendation(Profile::Performance, 0.90, now);
    let result = engine.can_switch(&recommendation, true, now);
    assert!(result.is_allowed());
}

#[test]
fn rejects_low_confidence() {
    let mut engine = GuardrailEngine::new(Profile::Balanced);
    engine.set_adaptation_mode(AdaptationMode::Canary);
    let now = 1000;
    let recommendation = make_recommendation(Profile::Performance, 0.42, now);
    let result = engine.can_switch(&recommendation, true, now);
    assert!(!result.is_allowed());
    assert!(matches!(
        result.violation(),
        Some(GuardrailViolation::LowConfidence { confidence, threshold })
        if (value(confidence) - 0.42).abs() < f64::EPSILON && (value(threshold) - 0.75).abs() < f64::EPSILON
    ));
}

#[test]
fn rejects_when_dwell_time_not_met() {
    let mut engine = GuardrailEngine::new(Profile::Balanced);
    engine.set_adaptation_mode(AdaptationMode::Canary);
    let now = 1000;
    engine.record_success(Profile::Balanced, now - 5);
    let recommendation = make_recommendation(Profile::Performance, 0.90, now);
    let result = engine.can_switch(&recommendation, true, now);
    assert!(!result.is_allowed());
    assert!(matches!(
        result.violation(),
        Some(GuardrailViolation::DwellTimeNotMet { elapsed_secs, min_dwell_secs })
        if *elapsed_secs == 5 && *min_dwell_secs == 15
    ));
}

#[test]
fn allows_when_dwell_time_met() {
    let mut engine = GuardrailEngine::new(Profile::Balanced);
    engine.set_adaptation_mode(AdaptationMode::Canary);
    let now = 10_000;
    engine.record_success(Profile::Balanced, now - 20);
    let recommendation = make_recommendation(Profile::Performance, 0.90, now);
    let result = engine.can_switch(&recommendation, true, now);
    assert!(result.is_allowed());
}

#[test]
fn rejects_when_hourly_limit_exceeded() {
    let mut engine = GuardrailEngine::new(Profile::Balanced);
    engine.set_adaptation_mode(AdaptationMode::Canary);
    let now = 10_000;
    for i in 0..12 {
        engine.record_success(Profile::Balanced, now - (i * 300) as u64);
    }
    let recommendation = make_recommendation(Profile::Performance, 0.90, now);
    let result = engine.can_switch(&recommendation, true, now);
    assert!(!result.is_allowed());
    assert!(matches!(
        result.violation(),
        Some(GuardrailViolation::HourlyLimitExceeded { count, limit })
        if *count == 12 && *limit == 12
    ));
}

#[test]
fn allows_when_hourly_limit_not_exceeded() {
    let mut engine = GuardrailEngine::new(Profile::Balanced);
    engine.set_adaptation_mode(AdaptationMode::Canary);
    let now = 10_000;
    for i in 0..11 {
        engine.record_success(Profile::Balanced, now - (i * 300) as u64);
    }
    let recommendation = make_recommendation(Profile::Performance, 0.90, now);
    let result = engine.can_switch(&recommendation, true, now);
    assert!(result.is_allowed());
}

#[test]
fn rejects_when_heartbeat_unhealthy() {
    let mut engine = GuardrailEngine::new(Profile::Balanced);
    engine.set_adaptation_mode(AdaptationMode::Canary);
    let now = 1000;
    let recommendation = make_recommendation(Profile::Performance, 0.90, now);
    let result = engine.can_switch(&recommendation, false, now);
    assert!(!result.is_allowed());
    assert!(matches!(result.violation(), Some(GuardrailViolation::UnhealthyHeartbeat)));
}

#[test]
fn disables_adaptation_after_max_failures() {
    let mut engine = GuardrailEngine::new(Profile::Balanced);
    engine.set_adaptation_mode(AdaptationMode::Canary);
    engine.record_failure();
    assert!(engine.is_adaptation_enabled());
    assert_eq!(engine.consecutive_failures(), 1);
    engine.record_failure();
    assert!(engine.is_adaptation_enabled());
    assert_eq!(engine.consecutive_failures(), 2);
    engine.record_failure();
    assert!(!engine.is_adaptation_enabled());
    assert_eq!(engine.consecutive_failures(), 3);
}

#[test]
fn rejects_after_adaptation_disabled_by_failures() {
    let mut engine = GuardrailEngine::new(Profile::Balanced);
    engine.set_adaptation_mode(AdaptationMode::Canary);
    engine.record_failure();
    engine.record_failure();
    engine.record_failure();
    assert!(!engine.is_adaptation_enabled());
    let now = 1000;
    let recommendation = make_recommendation(Profile::Performance, 0.90, now);
    let result = engine.can_switch(&recommendation, true, now);
    assert!(!result.is_allowed());
    assert!(matches!(result.violation(), Some(GuardrailViolation::AdaptationDisabled)));
}

#[test]
fn resets_failures_on_success() {
    let mut engine = GuardrailEngine::new(Profile::Balanced);
    engine.set_adaptation_mode(AdaptationMode::Canary);
    engine.record_failure();
    engine.record_failure();
    assert_eq!(engine.consecutive_failures(), 2);
    let now = 1000;
    engine.record_success(Profile::Performance, now);
    assert_eq!(engine.consecutive_failures(), 0);
}

#[test]
fn resets_failures_manually() {
    let mut engine = GuardrailEngine::new(Profile::Balanced);
    engine.set_adaptation_mode(AdaptationMode::Canary);
    engine.record_failure();
    engine.record_failure();
    engine.record_failure();
    assert!(!engine.is_adaptation_enabled());
    engine.reset_failures();
    assert!(engine.is_adaptation_enabled());
    assert_eq!(engine.consecutive_failures(), 0);
}

#[test]
fn tracks_previous_good_profile() {
    let mut engine = GuardrailEngine::new(Profile::Balanced);
    engine.set_adaptation_mode(AdaptationMode::Canary);
    assert_eq!(engine.previous_good_profile(), None);
    let now = 1000;
    engine.record_success(Profile::Performance, now);
    assert_eq!(engine.previous_good_profile(), Some(Profile::Balanced));
    assert_eq!(engine.current_profile(), Profile::Performance);
    engine.record_success(Profile::Interactive, now + 20);
    assert_eq!(engine.previous_good_profile(), Some(Profile::Performance));
    assert_eq!(engine.current_profile(), Profile::Interactive);
}

#[test]
fn prunes_old_switches() {
    let mut engine = GuardrailEngine::new(Profile::Balanced);
    engine.set_adaptation_mode(AdaptationMode::Canary);
    let now = 10000;
    for i in 0..5 {
        engine.record_success(Profile::Balanced, now - (i * 1800) as u64);
    }
    let check_now = now + 100;
    let recent = engine.count_recent_switches(check_now);
    assert_eq!(recent, 2);
}

#[test]
fn works_with_custom_thresholds() {
    let mut engine = GuardrailEngine::new(Profile::Balanced)
        .with_min_confidence(conf(0.50))
        .with_min_dwell(10)
        .with_max_switches_per_hour(5)
        .with_max_consecutive_failures(2);
    engine.set_adaptation_mode(AdaptationMode::Canary);
    let now = 10_000;
    let recommendation = make_recommendation(Profile::Performance, 0.60, now);
    let result = engine.can_switch(&recommendation, true, now);
    assert!(result.is_allowed());
    engine.record_success(Profile::Balanced, now - 5);
    let result = engine.can_switch(&recommendation, true, now);
    assert!(!result.is_allowed());
    assert!(matches!(
        result.violation(),
        Some(GuardrailViolation::DwellTimeNotMet { min_dwell_secs, .. }) if *min_dwell_secs == 10
    ));
    engine.record_success(Profile::Balanced, now);
    for i in 1..5 {
        engine.record_success(Profile::Balanced, now - (i * 600) as u64);
    }
    let recommendation = make_recommendation(Profile::Interactive, 0.90, now);
    let result = engine.can_switch(&recommendation, true, now);
    assert!(!result.is_allowed());
    assert!(matches!(
        result.violation(),
        Some(GuardrailViolation::HourlyLimitExceeded { limit, .. }) if *limit == 5
    ));
    engine.record_failure();
    assert!(engine.is_adaptation_enabled());
    engine.record_failure();
    assert!(!engine.is_adaptation_enabled());
}

#[test]
fn result_helper_methods() {
    let mut engine = GuardrailEngine::new(Profile::Balanced);
    engine.set_adaptation_mode(AdaptationMode::Canary);
    let now = 1000;
    let recommendation = make_recommendation(Profile::Performance, 0.90, now);
    let result = engine.can_switch(&recommendation, true, now);
    assert!(result.is_allowed());
    assert!(result.violation().is_none());
    let recommendation = make_recommendation(Profile::Performance, 0.42, now);
    let result = engine.can_switch(&recommendation, true, now);
    assert!(!result.is_allowed());
    assert!(result.violation().is_some());
    assert!(matches!(result.violation(), Some(GuardrailViolation::LowConfidence { .. })));
}

#[test]
fn a_successful_switch_starts_the_dwell_window() {
    let mut engine = GuardrailEngine::new(Profile::Balanced);
    engine.set_adaptation_mode(AdaptationMode::Canary);
    engine.record_success(Profile::Performance, 5_000);
    let recommendation = make_recommendation(Profile::Interactive, 0.95, 5_014);
    assert_eq!(
        engine.can_switch(&recommendation, true, 5_014),
        GuardrailResult::Denied(GuardrailViolation::DwellTimeNotMet { elapsed_secs: 14, min_dwell_secs: 15 })
    );
    assert_eq!(engine.can_switch(&recommendation, true, 5_015), GuardrailResult::Allowed);
}

#[test]
fn failures_below_the_limit_keep_adaptation_on() {
    let mut engine = GuardrailEngine::new(Profile::Balanced).with_max_consecutive_failures(4);
    for expected in 1..4u32 {
        engine.record_failure();
        assert_eq!(engine.consecutive_failures(), expected);
        assert!(engine.is_adaptation_enabled());
    }
    engine.record_failure();
    assert!(!engine.is_adaptation_enabled());
}
