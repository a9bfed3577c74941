use std::time::{SystemTime, UNIX_EPOCH};

use cerynth::ipc::backend::AdaptationMode;
use cerynth::ipc::profile::Profile;
use cerynth::policy::confidence::Confidence;
use cerynth::policy::controller::{
    AdaptationController, AdaptationOutcome, AuditIntent, Backend, Rejection, RollbackResult, TickResult, TickStart,
};
use cerynth::policy::guardrail::GuardrailViolation;
use cerynth::policy::recommendation::{
    PolicyFields, PolicyReadError, PolicyRecommendation, PolicyValidationError,
};

struct MockBackend {
    profile: Profile,
    should_fail: bool,
    should_fail_health_check: bool,
    should_fail_rollback: bool,
}

impl MockBackend {
    fn new(profile: Profile) -> Self {
        Self { profile, should_fail: false, should_fail_health_check: false, should_fail_rollback: false }
    }
    fn with_failure(mut self) -> Self {
        self.should_fail = true;
        self
    }
    fn with_health_check_failure(mut self) -> Self {
        self.should_fail_health_check = true;
        self
    }
    fn with_rollback_failure(mut self) -> Self {
        self.should_fail_rollback = true;
        self
    }
}

impl Backend for MockBackend {
    fn set_profile(&mut self, profile: Profile) -> Result<(), String> {
        if self.should_fail {
            return Err("simulated switch failure".to_string());
        }
        self.profile = profile;
        Ok(())
    }
    fn get_profile(&self) -> Result<Profile, String> {
        Ok(self.profile)
    }
    fn verify_post_switch_health(&mut self, expected_profile: Profile) -> Result<(), String> {
        if self.should_fail_health_check {
            return Err("simulated post-switch health check failure".to_string());
        }
        if self.profile == expected_profile {
            Ok(())
        } else {
            Err(format!("post-switch health check failed: expected {:?}, got {:?}", expected_profile, self.profile))
        }
    }
    fn stop(&mut self) -> Result<(), String> {
        self.profile = Profile::Balanced;
        Ok(())
    }
    fn rollback(&mut self, previous_good_profile: Profile) -> RollbackResult {
        let _ = self.stop();
        if self.should_fail_rollback {
            RollbackResult::Failed { error: "simulated rollback failure".to_string(), previous_good_profile }
        } else {
            self.profile = previous_good_profile;
            RollbackResult::Success { previous_good_profile }
        }
    }
}

fn conf(x: f64) -> Confidence {
    Confidence::from_bits(x.to_bits())
}

fn now_secs() -> u64 {
    SystemTime::now().duration_since(UNIX_EPOCH).unwrap().as_secs()
}

fn make_controller() -> AdaptationController {
    AdaptationController::new(Profile::Balanced)
        .with_min_confidence(conf(0.75))
        .with_min_dwell(15)
        .with_max_switches_per_hour(12)
        .with_max_consecutive_failures(3)
}

fn policy(profile: &str, confidence: f64, reason: &str, timestamp: u64) -> PolicyFields {
    PolicyFields {
        recommended_profile: Some(profile.to_string()),
        confidence: Some(conf(confidence)),
        reason: Some(reason.to_string()),
        timestamp: Some(timestamp),
        apply: Some(false),
    }
}

/// The message of a policy read error, as the daemon renders it.
fn read_error_message(e: &PolicyReadError) -> String {
    match e {
        PolicyReadError::NotFound(path) => format!("policy file not found: {path}"),
        PolicyReadError::Io { path, message } => format!("cannot read policy file {path}: {message}"),
        PolicyReadError::Json { path, message } => format!("invalid JSON in policy file {path}: {message}"),
        PolicyReadError::MissingField(field) => format!("missing required field: {field}"),
        PolicyReadError::InvalidConfidence(c) => {
            format!("invalid confidence value: {} (must be in [0.0, 1.0])", f64::from_bits(c.to_bits()))
        }
        PolicyReadError::Stale { age_secs, max_age_secs } => {
            format!("stale policy: age {age_secs}s exceeds max {max_age_secs}s")
        }
    }
}

/// One tick, with the policy file holding `fields` (or missing when `None`).
fn tick(
    controller: &mut AdaptationController,
    backend: &mut MockBackend,
    fields: Option<PolicyFields>,
    heartbeat_ok: bool,
    now: u64,
) -> AdaptationOutcome {
    match controller.tick_begin(heartbeat_ok) {
        TickStart::Finished(result) => result.outcome,
        TickStart::ReadPolicy => {
            let read: Result<PolicyRecommendation, PolicyReadError> = match fields {
                Some(f) => controller.policy_reader().recommendation_from_fields(f, now),
                None => Err(PolicyReadError::NotFound(controller.policy_reader().path().to_string())),
            };
            let read = read.map_err(|e| read_error_message(&e));
            controller.tick_with_policy(backend, read, heartbeat_ok, now).outcome
        }
    }
}

#[test]
fn skipped_when_adaptation_disabled() {
    let mut controller = make_controller();
    controller.set_adaptation_enabled(false);
    let mut backend = MockBackend::new(Profile::Balanced);
    let outcome = tick(&mut controller, &mut backend, None, true, 1000);
    assert!(matches!(outcome, AdaptationOutcome::Skipped { .. }));
}

#[test]
fn skipped_when_mode_off() {
    let mut controller = make_controller();
    controller.set_adaptation_mode(AdaptationMode::Off);
    let mut backend = MockBackend::new(Profile::Balanced);
    let outcome = tick(&mut controller, &mut backend, None, true, 1000);
    assert!(matches!(outcome, AdaptationOutcome::Skipped { .. }));
}

#[test]
fn shadow_mode_logs_recommendation() {
    let mut controller = make_controller();
    controller.set_adaptation_mode(AdaptationMode::Shadow);
    let mut backend = MockBackend::new(Profile::Balanced);
    let now = now_secs();
    controller = controller.with_policy_path("target/policy.json".to_string()).with_max_policy_age(60);
    let outcome = tick(&mut controller, &mut backend, Some(policy("performance", 0.90, "High CPU", now)), true, now);
    assert!(matches!(
        outcome,
        AdaptationOutcome::ShadowLogged { recommended_profile: Profile::Performance, confidence, .. }
        if (f64::from_bits(confidence.to_bits()) - 0.90).abs() < f64::EPSILON
    ));
    assert_eq!(backend.profile, Profile::Balanced);
}

#[test]
fn canary_mode_switches_when_allowed() {
    let mut controller = make_controller();
    controller.set_adaptation_mode(AdaptationMode::Canary);
    let mut backend = MockBackend::new(Profile::Balanced);
    let now = now_secs();
    controller = controller.with_max_policy_age(60);
    let outcome = tick(&mut controller, &mut backend, Some(policy("performance", 0.90, "High CPU", now)), true, now);
    assert!(matches!(
        outcome,
        AdaptationOutcome::Switched { from_profile: Profile::Balanced, to_profile: Profile::Performance }
    ));
    assert_eq!(backend.profile, Profile::Performance);
}

#[test]
fn canary_mode_rejects_low_confidence() {
    let mut controller = make_controller();
    controller.set_adaptation_mode(AdaptationMode::Canary);
    let mut backend = MockBackend::new(Profile::Balanced);
    let now = now_secs();
    controller = controller.with_max_policy_age(60);
    let outcome =
        tick(&mut controller, &mut backend, Some(policy("performance", 0.42, "Low confidence", now)), true, now);
    assert!(matches!(outcome, AdaptationOutcome::ValidationRejected { .. }));
}

#[test]
fn canary_mode_rejects_guardrail_violation() {
    let mut controller = make_controller();
    controller.set_adaptation_mode(AdaptationMode::Canary);
    let mut backend = MockBackend::new(Profile::Balanced);
    let now = now_secs();
    controller = controller.with_max_policy_age(60);
    let outcome = tick(&mut controller, &mut backend, Some(policy("performance", 0.90, "High CPU", now)), true, now);
    assert!(matches!(outcome, AdaptationOutcome::Switched { .. }));
    let outcome =
        tick(&mut controller, &mut backend, Some(policy("balanced", 0.90, "Switch back", now + 5)), true, now + 5);
    assert!(matches!(
        outcome,
        AdaptationOutcome::GuardrailRejected { violation }
        if matches!(violation, GuardrailViolation::DwellTimeNotMet { .. })
    ));
}

#[test]
fn canary_mode_rejects_unhealthy_heartbeat() {
    let mut controller = make_controller();
    controller.set_adaptation_mode(AdaptationMode::Canary);
    let mut backend = MockBackend::new(Profile::Balanced);
    let now = now_secs();
    controller = controller.with_max_policy_age(60);
    let outcome = tick(&mut controller, &mut backend, Some(policy("performance", 0.90, "High CPU", now)), false, now);
    assert!(matches!(
        outcome,
        AdaptationOutcome::GuardrailRejected { violation }
        if matches!(violation, GuardrailViolation::UnhealthyHeartbeat)
    ));
}

#[test]
fn records_failure_and_disables_after_max_failures() {
    let mut controller = make_controller();
    controller.set_adaptation_mode(AdaptationMode::Canary);
    let mut backend = MockBackend::new(Profile::Balanced).with_failure();
    let now = now_secs();
    controller = controller.with_max_policy_age(120);
    let p = || Some(policy("performance", 0.90, "High CPU", now));
    let outcome = tick(&mut controller, &mut backend, p(), true, now);
    assert!(matches!(outcome, AdaptationOutcome::SwitchFailed { .. }));
    assert!(controller.guardrails().is_adaptation_enabled());
    assert_eq!(controller.guardrails().consecutive_failures(), 1);
    let outcome = tick(&mut controller, &mut backend, p(), true, now + 20);
    assert!(matches!(outcome, AdaptationOutcome::SwitchFailed { .. }));
    assert!(controller.guardrails().is_adaptation_enabled());
    assert_eq!(controller.guardrails().consecutive_failures(), 2);
    let outcome = tick(&mut controller, &mut backend, p(), true, now + 40);
    assert!(matches!(outcome, AdaptationOutcome::SwitchFailed { .. }));
    assert!(!controller.guardrails().is_adaptation_enabled());
    assert_eq!(controller.guardrails().consecutive_failures(), 3);
    let outcome = tick(&mut controller, &mut backend, p(), true, now + 60);
    assert!(matches!(outcome, AdaptationOutcome::Skipped { .. }));
}

#[test]
fn policy_read_error_handled() {
    let mut controller = make_controller();
    controller.set_adaptation_mode(AdaptationMode::Canary);
    let mut backend = MockBackend::new(Profile::Balanced);
    let now = now_secs();
    controller = controller.with_policy_path("/nonexistent/policy.json".to_string());
    let outcome = tick(&mut controller, &mut backend, None, true, now);
    assert!(matches!(outcome, AdaptationOutcome::PolicyReadError { .. }));
}

#[test]
fn policy_read_error_carries_the_message() {
    let mut controller = make_controller();
    controller.set_adaptation_mode(AdaptationMode::Canary);
    let mut backend = MockBackend::new(Profile::Balanced);
    controller = controller.with_policy_path("/nonexistent/policy.json".to_string());
    let outcome = tick(&mut controller, &mut backend, None, true, 1_000);
    assert_eq!(
        outcome,
        AdaptationOutcome::PolicyReadError { error: "policy file not found: /nonexistent/policy.json".to_string() }
    );
}

#[test]
fn validation_rejected_same_profile() {
    let mut controller = make_controller();
    controller.set_adaptation_mode(AdaptationMode::Canary);
    let mut backend = MockBackend::new(Profile::Balanced);
    let now = now_secs();
    controller = controller.with_max_policy_age(60);
    let outcome = tick(&mut controller, &mut backend, Some(policy("balanced", 0.90, "Same profile", now)), true, now);
    assert!(matches!(
        outcome,
        AdaptationOutcome::ValidationRejected { error }
        if matches!(error, PolicyValidationError::SameProfile { .. })
    ));
}

#[test]
fn rolls_back_when_post_switch_health_check_fails() {
    let mut controller = make_controller();
    controller.set_adaptation_mode(AdaptationMode::Canary);
    let mut backend = MockBackend::new(Profile::Balanced).with_health_check_failure();
    let now = now_secs();
    controller = controller.with_max_policy_age(60);
    let outcome = tick(&mut controller, &mut backend, Some(policy("performance", 0.90, "High CPU", now)), true, now);
    assert!(matches!(
        outcome,
        AdaptationOutcome::RollbackAttempted {
            from_profile: Profile::Balanced,
            to_profile: Profile::Performance,
            rollback_result: RollbackResult::Success { previous_good_profile: Profile::Balanced },
        }
    ));
    assert_eq!(backend.profile, Profile::Balanced);
}

#[test]
fn reports_rollback_failure_when_post_switch_health_check_fails() {
    let mut controller = make_controller();
    controller.set_adaptation_mode(AdaptationMode::Canary);
    let mut backend = MockBackend::new(Profile::Balanced).with_health_check_failure().with_rollback_failure();
    let now = now_secs();
    controller = controller.with_max_policy_age(60);
    let outcome = tick(&mut controller, &mut backend, Some(policy("performance", 0.90, "High CPU", now)), true, now);
    assert!(matches!(
        outcome,
        AdaptationOutcome::RollbackAttempted {
            from_profile: Profile::Balanced,
            to_profile: Profile::Performance,
            rollback_result: RollbackResult::Failed { previous_good_profile: Profile::Balanced, .. },
        }
    ));
}

#[test]
fn failed_rollback_disables_adaptation() {
    let mut controller = make_controller();
    controller.set_adaptation_mode(AdaptationMode::Canary);
    let mut backend = MockBackend::new(Profile::Balanced).with_health_check_failure().with_rollback_failure();
    let now = now_secs();
    controller = controller.with_max_policy_age(120);
    assert_eq!(controller.guardrails().consecutive_failures(), 0);
    let outcome = tick(&mut controller, &mut backend, Some(policy("performance", 0.90, "High CPU", now)), true, now);
    assert!(matches!(outcome, AdaptationOutcome::RollbackAttempted { rollback_result: RollbackResult::Failed { .. }, .. }));
    assert!(!controller.guardrails().is_adaptation_enabled());
    assert_eq!(controller.guardrails().consecutive_failures(), 1);
    let outcome = tick(&mut controller, &mut backend, Some(policy("performance", 0.90, "High CPU", now)), true, now + 20);
    assert!(matches!(outcome, AdaptationOutcome::Skipped { .. }));
}

#[test]
fn successful_rollback_keeps_adaptation_enabled() {
    let mut controller = make_controller();
    controller.set_adaptation_mode(AdaptationMode::Canary);
    let mut backend = MockBackend::new(Profile::Balanced).with_health_check_failure();
    let now = now_secs();
    controller = controller.with_max_policy_age(120);
    let outcome = tick(&mut controller, &mut backend, Some(policy("performance", 0.90, "High CPU", now)), true, now);
    assert!(matches!(outcome, AdaptationOutcome::RollbackAttempted { rollback_result: RollbackResult::Success { .. }, .. }));
    assert!(controller.guardrails().is_adaptation_enabled());
    assert_eq!(controller.guardrails().consecutive_failures(), 1);
}

#[test]
fn missing_fields_and_bad_confidence_are_read_errors() {
    let controller = make_controller().with_max_policy_age(60);
    let reader = controller.policy_reader();
    let mut fields = policy("performance", 0.9, "x", 100);
    fields.reason = None;
    assert_eq!(
        reader.recommendation_from_fields(fields, 100),
        Err(PolicyReadError::MissingField("reason".to_string()))
    );
    assert_eq!(
        reader.recommendation_from_fields(policy("turbo", 0.9, "x", 100), 100),
        Err(PolicyReadError::MissingField("recommended_profile".to_string()))
    );
    assert_eq!(
        reader.recommendation_from_fields(policy("performance", 1.5, "x", 100), 100),
        Err(PolicyReadError::InvalidConfidence(conf(1.5)))
    );
    assert_eq!(
        reader.recommendation_from_fields(policy("performance", 0.9, "x", 100), 200),
        Err(PolicyReadError::Stale { age_secs: 100, max_age_secs: 60 })
    );
    let read = reader.recommendation_from_fields(policy("Performance", 0.9, "x", 100), 130).unwrap();
    assert_eq!(read.recommended_profile, Profile::Performance);
    assert!(!read.apply);
}

#[test]
fn audit_intents_follow_the_outcome() {
    let mut controller = make_controller();
    controller.set_adaptation_mode(AdaptationMode::Canary);
    let mut backend = MockBackend::new(Profile::Balanced);
    let now = now_secs();
    controller = controller.with_max_policy_age(60);
    let read = controller.policy_reader().recommendation_from_fields(policy("interactive", 0.80, "typing", now), now);
    let result = controller.tick_with_policy(&mut backend, read.map_err(|e| read_error_message(&e)), true, now);
    assert_eq!(
        result.audit,
        AuditIntent::Success {
            old_profile: Profile::Balanced,
            new_profile: Profile::Interactive,
            confidence: conf(0.80),
            reason: "typing".to_string(),
            scheduler_healthy: true,
        }
    );
    controller.set_adaptation_enabled(false);
    match controller.tick_begin(false) {
        TickStart::Finished(result) => assert_eq!(
            result.audit,
            AuditIntent::Rejected {
                reason: Rejection::AdaptationDisabled,
                confidence: Confidence::zero(),
                scheduler_healthy: false,
            }
        ),
        TickStart::ReadPolicy => panic!("a disabled controller reads no policy"),
    }
}

#[test]
fn policy_file_text_is_read_through_its_json_members() {
    let controller = make_controller().with_policy_path("/run/p.json".to_string()).with_max_policy_age(60);
    let reader = controller.policy_reader();
    let text = "{\"recommended_profile\":\"interactive\",\"confidence\":0.84,\"reason\":\"typing\",\"timestamp\":100,\"apply\":true}";
    let read = reader.read_contents(text, 120).unwrap();
    assert_eq!(read.recommended_profile, Profile::Interactive);
    assert_eq!(read.confidence, conf(0.84));
    assert_eq!(read.reason, "typing");
    assert_eq!(read.timestamp, 100);
    assert!(read.apply);
    assert!(matches!(
        reader.read_contents("not json", 120),
        Err(PolicyReadError::Json { path, .. }) if path == "/run/p.json"
    ));
    assert_eq!(
        reader.read_contents("{\"recommended_profile\":\"interactive\",\"confidence\":\"high\"}", 120),
        Err(PolicyReadError::MissingField("confidence".to_string()))
    );
    assert_eq!(
        reader.read_contents("{\"recommended_profile\":\"balanced\",\"confidence\":1,\"reason\":\"r\",\"timestamp\":100}", 120)
            .map(|r| (r.confidence, r.apply)),
        Ok((conf(1.0), false))
    );
    assert_eq!(
        reader.read_contents("[1, 2]", 120),
        Err(PolicyReadError::MissingField("recommended_profile".to_string()))
    );
}

#[test]
fn audit_result_matches_outcome_kind() {
    let now = now_secs();
    let kinds = |result: &TickResult| match (&result.outcome, &result.audit) {
        (AdaptationOutcome::ShadowLogged { .. }, AuditIntent::Shadow { .. }) => "shadow",
        (AdaptationOutcome::Switched { .. }, AuditIntent::Success { .. }) => "success",
        (AdaptationOutcome::SwitchFailed { .. }, AuditIntent::Failed { .. }) => "failed",
        (AdaptationOutcome::RollbackAttempted { .. }, AuditIntent::Rollback { .. }) => "rollback",
        (AdaptationOutcome::ValidationRejected { .. }, AuditIntent::Rejected { .. })
        | (AdaptationOutcome::GuardrailRejected { .. }, AuditIntent::Rejected { .. })
        | (AdaptationOutcome::PolicyReadError { .. }, AuditIntent::Rejected { .. }) => "rejected",
        other => panic!("outcome and audit disagree: {:?}", other),
    };
    let cases: Vec<(AdaptationMode, MockBackend, f64, &str)> = vec![
        (AdaptationMode::Shadow, MockBackend::new(Profile::Balanced), 0.90, "shadow"),
        (AdaptationMode::Canary, MockBackend::new(Profile::Balanced), 0.90, "success"),
        (AdaptationMode::Canary, MockBackend::new(Profile::Balanced).with_failure(), 0.90, "failed"),
        (AdaptationMode::Canary, MockBackend::new(Profile::Balanced).with_health_check_failure(), 0.90, "rollback"),
        (AdaptationMode::Canary, MockBackend::new(Profile::Balanced), 0.10, "rejected"),
    ];
    for (mode, mut backend, confidence, expected) in cases {
        let mut controller = make_controller().with_max_policy_age(60);
        controller.set_adaptation_mode(mode);
        let read = controller.policy_reader().recommendation_from_fields(policy("performance", confidence, "x", now), now);
        let result = controller.tick_with_policy(&mut backend, read.map_err(|e| read_error_message(&e)), true, now);
        assert_eq!(kinds(&result), expected);
    }
}

#[test]
fn a_recommendation_stale_by_the_clock_is_not_applied() {
    let mut controller = make_controller();
    controller.set_adaptation_mode(AdaptationMode::Canary);
    let mut backend = MockBackend::new(Profile::Balanced);
    let read = controller.policy_reader().recommendation_from_fields(policy("performance", 0.90, "High CPU", 100), 100);
    let read = read.map_err(|e| read_error_message(&e));
    let result = controller.tick_with_policy_at(&mut backend, read.clone(), true, 100, 1_000);
    assert_eq!(
        result.outcome,
        AdaptationOutcome::ValidationRejected {
            error: PolicyValidationError::StalePolicy { age_secs: 900, max_age_secs: 10 }
        }
    );
    assert_eq!(controller.guardrails().current_profile(), Profile::Balanced);
    let result = controller.tick_with_policy_at(&mut backend, read, true, 100, 105);
    assert_eq!(
        result.outcome,
        AdaptationOutcome::Switched { from_profile: Profile::Balanced, to_profile: Profile::Performance }
    );
}
