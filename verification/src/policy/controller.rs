//! The adaptation controller: one tick reads the policy recommendation,
//! validates it, and in canary mode applies a guarded profile switch with a
//! post-switch health check and rollback.
//!
//! A tick alternates decisions with outside work (reading the policy file,
//! driving the scheduler backend, writing the audit log). The decisions are
//! the phase functions below, each taking the result of the work before it;
//! `tick_begin` and `tick_with_policy` chain them.
use vstd::prelude::*;
use crate::clock::unix_time_secs;
use crate::ipc::backend::AdaptationMode;
use crate::ipc::profile::Profile;
use crate::policy::audit::{AdaptationAuditLogger, AdaptationAuditEvent, is_audit_event, DEFAULT_AUDIT_LOG_PATH};
use crate::policy::confidence::{Confidence, ZERO_BITS};
use crate::policy::guardrail::{
    GuardrailEngine, GuardrailView, GuardrailResult, GuardrailViolation, switch_verdict, after_success,
    after_failure, after_failed_rollback, after_failures, initial_guardrails, lemma_consecutive_failures_disable,
};
use crate::policy::recommendation::{
    PolicyReader, PolicyValidator, PolicyRecommendation, PolicyValidationError,
    PolicyValidationResult, validation_of, DEFAULT_POLICY_PATH, DEFAULT_MAX_POLICY_AGE_SECS,
    DEFAULT_MIN_CONFIDENCE_BITS,
};
use crate::text::owned;

verus! {

/// Result of a rollback attempt after a failed profile switch.
#[derive(Debug, Clone, PartialEq)]
pub enum RollbackResult {
    /// The scheduler was stopped and the previous good profile started.
    Success { previous_good_profile: Profile },
    /// The previous good profile could not be started; adaptation is
    /// disabled and the Linux scheduler takes over.
    Failed { error: String, previous_good_profile: Profile },
}

/// A scheduler backend the adaptation controller can drive.
pub trait Backend {
    /// Sets the scheduler profile.
    fn set_profile(&mut self, profile: Profile) -> Result<(), String>;

    /// Gets the current scheduler profile.
    fn get_profile(&self) -> Result<Profile, String>;

    /// Checks that the scheduler is healthy after a switch to `expected_profile`.
    fn verify_post_switch_health(&mut self, expected_profile: Profile) -> Result<(), String>;

    /// Stops the scheduler.
    fn stop(&mut self) -> Result<(), String>;

    /// Stops the scheduler and starts it again on `previous_good_profile`.
    fn rollback(&mut self, previous_good_profile: Profile) -> RollbackResult;
}

/// Why a tick did not act on a recommendation.
#[derive(Debug, Clone, PartialEq)]
pub enum Rejection {
    /// Adaptation is disabled (by configuration or by the guardrails).
    AdaptationDisabled,
    /// The adaptation mode is `Off`.
    ModeOff,
    /// The policy file could not be read; the error's message.
    PolicyRead(String),
    /// The recommendation failed validation.
    Validation(PolicyValidationError),
    /// The guardrails denied the switch.
    Guardrail(GuardrailViolation),
}

/// The audit event a tick asks for.
#[derive(Debug, Clone, PartialEq)]
pub enum AuditIntent {
    Rejected { reason: Rejection, confidence: Confidence, scheduler_healthy: bool },
    Shadow { new_profile: Profile, confidence: Confidence, reason: String, scheduler_healthy: bool },
    Success { old_profile: Profile, new_profile: Profile, confidence: Confidence, reason: String, scheduler_healthy: bool },
    Failed { old_profile: Profile, attempted_profile: Profile, error: String, scheduler_healthy: bool },
    Rollback { old_profile: Profile, new_profile: Profile, rollback_success: bool, error: Option<String>, scheduler_healthy: bool },
}

/// Outcome of a single adaptation tick.
#[derive(Debug, Clone, PartialEq)]
pub enum AdaptationOutcome {
    /// Adaptation is disabled or off; no action taken.
    Skipped { reason: String },
    /// Shadow mode: the recommendation was validated and logged, not applied.
    ShadowLogged { recommended_profile: Profile, confidence: Confidence, reason: String },
    /// The guardrails rejected the switch.
    GuardrailRejected { violation: GuardrailViolation },
    /// Validation rejected the recommendation.
    ValidationRejected { error: PolicyValidationError },
    /// The policy file could not be read; the error's message.
    PolicyReadError { error: String },
    /// The switch was made and passed the health check.
    Switched { from_profile: Profile, to_profile: Profile },
    /// The backend failed to switch.
    SwitchFailed { error: String },
    /// The switch failed its health check and a rollback was attempted.
    RollbackAttempted { from_profile: Profile, to_profile: Profile, rollback_result: RollbackResult },
}

/// The outcome of a tick and the audit event it asks for.
#[derive(Debug, Clone, PartialEq)]
pub struct TickResult {
    pub outcome: AdaptationOutcome,
    pub audit: AuditIntent,
}

/// First phase of a tick: finished without reading the policy, or go on.
#[derive(Debug, Clone, PartialEq)]
pub enum TickStart {
    Finished(TickResult),
    ReadPolicy,
}

/// Second phase: finished, or switch the backend.
#[derive(Debug, Clone, PartialEq)]
pub enum ReadDecision {
    Finished(TickResult),
    Switch { from_profile: Profile, to_profile: Profile, recommendation: PolicyRecommendation },
}

/// After the switch: finished (it failed), or check the scheduler's health.
#[derive(Debug, Clone, PartialEq)]
pub enum SwitchStep {
    Finished(TickResult),
    VerifyHealth,
}

/// After the health check: finished (healthy), or roll back to a profile.
#[derive(Debug, Clone, PartialEq)]
pub enum HealthStep {
    Finished(TickResult),
    Rollback { previous_good_profile: Profile },
}

/// The configuration and state of an adaptation controller.
pub struct ControllerView {
    pub policy_path: Seq<char>,
    pub policy_max_age: u64,
    pub validator_min_confidence: Confidence,
    pub validator_max_age: u64,
    pub guardrails: GuardrailView,
    pub audit_log_path: Seq<char>,
    pub audit_enabled: bool,
    pub adaptation_mode: AdaptationMode,
    pub adaptation_enabled: bool,
    pub tick_interval_secs: u64,
}

/// Orchestrates the adaptation loop: policy reader, validator, guardrails,
/// scheduler backend and audit log.
pub struct AdaptationController {
    policy_reader: PolicyReader,
    policy_validator: PolicyValidator,
    guardrails: GuardrailEngine,
    audit_logger: AdaptationAuditLogger,
    adaptation_mode: AdaptationMode,
    adaptation_enabled: bool,
    tick_interval_secs: u64,
}

impl View for AdaptationController {
    type V = ControllerView;

    closed spec fn view(&self) -> ControllerView {
        ControllerView {
            policy_path: self.policy_reader.spec_path(),
            policy_max_age: self.policy_reader.spec_max_age(),
            validator_min_confidence: self.policy_validator.spec_min_confidence(),
            validator_max_age: self.policy_validator.spec_max_age(),
            guardrails: self.guardrails@,
            audit_log_path: self.audit_logger.spec_path(),
            audit_enabled: self.audit_logger.spec_enabled(),
            adaptation_mode: self.adaptation_mode,
            adaptation_enabled: self.adaptation_enabled,
            tick_interval_secs: self.tick_interval_secs,
        }
    }
}

/// Whether the tick is skipped before reading the policy, and why.
pub open spec fn skip_reason(c: ControllerView) -> Option<Rejection> {
    if !c.adaptation_enabled || !c.guardrails.adaptation_enabled {
        Some(Rejection::AdaptationDisabled)
    } else if c.adaptation_mode == AdaptationMode::Off {
        Some(Rejection::ModeOff)
    } else {
        None
    }
}

/// The reason text of a skipped tick.
pub open spec fn skip_text(r: Rejection) -> Seq<char> {
    if r is AdaptationDisabled { "adaptation disabled"@ } else { "adaptation mode is Off"@ }
}

/// Whether `d` is the decision a controller in state `c` takes on the policy
/// read result `read`, with heartbeat health `hb`, guardrail time `now`, and
/// wall-clock time `clock` for validation.
pub open spec fn is_read_decision(
    d: ReadDecision,
    c: ControllerView,
    read: Result<PolicyRecommendation, String>,
    hb: bool,
    now: u64,
    clock: u64,
) -> bool {
    match read {
        Err(e) => d == ReadDecision::Finished(TickResult {
            outcome: AdaptationOutcome::PolicyReadError { error: e },
            audit: AuditIntent::Rejected {
                reason: Rejection::PolicyRead(e),
                confidence: Confidence { bits: ZERO_BITS },
                scheduler_healthy: hb,
            },
        }),
        Ok(rec) => {
            let v = validation_of(c.validator_min_confidence, c.validator_max_age, rec,
                c.guardrails.current_profile, clock);
            if v is Rejected {
                d == ReadDecision::Finished(TickResult {
                    outcome: AdaptationOutcome::ValidationRejected { error: v->Rejected_0 },
                    audit: AuditIntent::Rejected {
                        reason: Rejection::Validation(v->Rejected_0),
                        confidence: rec.confidence,
                        scheduler_healthy: hb,
                    },
                })
            } else if c.adaptation_mode == AdaptationMode::Off {
                &&& d matches ReadDecision::Finished(t)
                &&& t.outcome matches AdaptationOutcome::Skipped { reason }
                &&& reason@ == "adaptation mode is Off"@
                &&& t.audit == AuditIntent::Rejected {
                    reason: Rejection::ModeOff,
                    confidence: rec.confidence,
                    scheduler_healthy: hb,
                }
            } else if c.adaptation_mode == AdaptationMode::Shadow {
                d == ReadDecision::Finished(TickResult {
                    outcome: AdaptationOutcome::ShadowLogged {
                        recommended_profile: rec.recommended_profile,
                        confidence: rec.confidence,
                        reason: rec.reason,
                    },
                    audit: AuditIntent::Shadow {
                        new_profile: rec.recommended_profile,
                        confidence: rec.confidence,
                        reason: rec.reason,
                        scheduler_healthy: hb,
                    },
                })
            } else {
                let g = switch_verdict(c.guardrails, rec.confidence, hb, now);
                if g is Denied {
                    d == ReadDecision::Finished(TickResult {
                        outcome: AdaptationOutcome::GuardrailRejected { violation: g->Denied_0 },
                        audit: AuditIntent::Rejected {
                            reason: Rejection::Guardrail(g->Denied_0),
                            confidence: rec.confidence,
                            scheduler_healthy: hb,
                        },
                    })
                } else {
                    d == ReadDecision::Switch {
                        from_profile: c.guardrails.current_profile,
                        to_profile: rec.recommended_profile,
                        recommendation: rec,
                    }
                }
            }
        },
    }
}

/// What a tick on controller state `c` does once the policy has been read
/// (`read`, an error as its message), with heartbeat health `hb`, guardrail
/// time `now` and validation at wall-clock time `clock`, ending in state
/// `after` with result `r`. A switch is only attempted on a recommendation
/// the validator accepts and the guardrails allow; a completed switch is
/// recorded as a success, a failed switch or rollback as a failure, and a
/// failed rollback also disables adaptation. Any other outcome is the
/// decision `is_read_decision` names, with the state unchanged. The audit
/// intent always records the outcome's kind.
pub open spec fn tick_outcome(
    c: ControllerView,
    after: ControllerView,
    read: Result<PolicyRecommendation, String>,
    hb: bool,
    now: u64,
    clock: u64,
    r: TickResult,
) -> bool {
    &&& match r.outcome {
        AdaptationOutcome::Switched { .. } | AdaptationOutcome::SwitchFailed { .. }
        | AdaptationOutcome::RollbackAttempted { .. } => {
            &&& read matches Ok(rec)
            &&& c.adaptation_mode == AdaptationMode::Canary
            &&& validation_of(c.validator_min_confidence, c.validator_max_age, rec, c.guardrails.current_profile,
                clock) is Accepted
            &&& switch_verdict(c.guardrails, rec.confidence, hb, now) is Allowed
            &&& after == match r.outcome {
                AdaptationOutcome::Switched { to_profile, .. } => ControllerView {
                    guardrails: after_success(c.guardrails, to_profile, now),
                    ..c
                },
                AdaptationOutcome::RollbackAttempted { rollback_result, .. } => ControllerView {
                    guardrails: after_rollback_guardrails(c.guardrails, rollback_result),
                    ..c
                },
                _ => ControllerView { guardrails: after_failure(c.guardrails), ..c },
            }
        },
        _ => after == c && is_read_decision(ReadDecision::Finished(r), c, read, hb, now, clock),
    }
    &&& r.outcome matches AdaptationOutcome::Switched { from_profile, to_profile } ==> (read matches Ok(rec)
        && from_profile == c.guardrails.current_profile && to_profile == rec.recommended_profile
        && r.audit == AuditIntent::Success {
        old_profile: from_profile,
        new_profile: to_profile,
        confidence: rec.confidence,
        reason: rec.reason,
        scheduler_healthy: hb,
    })
    &&& r.outcome matches AdaptationOutcome::SwitchFailed { error } ==> (read matches Ok(rec)
        && r.audit == AuditIntent::Failed {
        old_profile: c.guardrails.current_profile,
        attempted_profile: rec.recommended_profile,
        error,
        scheduler_healthy: hb,
    })
    &&& r.outcome matches AdaptationOutcome::RollbackAttempted { from_profile, to_profile, rollback_result }
        ==> (read matches Ok(rec) && from_profile == c.guardrails.current_profile
        && to_profile == rec.recommended_profile && r.audit == AuditIntent::Rollback {
        old_profile: from_profile,
        new_profile: match c.guardrails.previous_good_profile {
            Some(p) => p,
            None => from_profile,
        },
        rollback_success: rollback_result is Success,
        error: match rollback_result {
            RollbackResult::Failed { error, .. } => Some(error),
            RollbackResult::Success { .. } => None,
        },
        scheduler_healthy: hb,
    })
    &&& intent_audit_result(r.audit) == outcome_audit_result(r.outcome)
}

/// The guardrail state after a rollback with the given result: the failed
/// switch is counted, and a failed rollback also disables adaptation.
pub open spec fn after_rollback_guardrails(g: GuardrailView, rollback_result: RollbackResult) -> GuardrailView {
    match rollback_result {
        RollbackResult::Success { .. } => after_failure(g),
        RollbackResult::Failed { .. } => after_failed_rollback(g),
    }
}

/// The `result` the audit log records for a tick outcome: "rejected" when
/// the tick did not act (skipped, unreadable policy, rejected by validation
/// or by the guardrails), otherwise "shadow", "success", "failed" or
/// "rollback".
pub open spec fn outcome_audit_result(o: AdaptationOutcome) -> Seq<char> {
    match o {
        AdaptationOutcome::ShadowLogged { .. } => "shadow"@,
        AdaptationOutcome::Switched { .. } => "success"@,
        AdaptationOutcome::SwitchFailed { .. } => "failed"@,
        AdaptationOutcome::RollbackAttempted { .. } => "rollback"@,
        _ => "rejected"@,
    }
}

/// The `result` an audit intent asks the log to record.
pub open spec fn intent_audit_result(a: AuditIntent) -> Seq<char> {
    match a {
        AuditIntent::Rejected { .. } => "rejected"@,
        AuditIntent::Shadow { .. } => "shadow"@,
        AuditIntent::Success { .. } => "success"@,
        AuditIntent::Failed { .. } => "failed"@,
        AuditIntent::Rollback { .. } => "rollback"@,
    }
}

/// The state of a new controller on `current_profile`.
pub open spec fn initial_controller(current_profile: Profile) -> ControllerView {
    ControllerView {
        policy_path: DEFAULT_POLICY_PATH@,
        policy_max_age: DEFAULT_MAX_POLICY_AGE_SECS,
        validator_min_confidence: Confidence { bits: DEFAULT_MIN_CONFIDENCE_BITS },
        validator_max_age: DEFAULT_MAX_POLICY_AGE_SECS,
        guardrails: initial_guardrails(current_profile),
        audit_log_path: DEFAULT_AUDIT_LOG_PATH@,
        audit_enabled: true,
        adaptation_mode: AdaptationMode::Off,
        adaptation_enabled: true,
        tick_interval_secs: 1,
    }
}

impl AdaptationController {
    /// A controller on `current_profile` with default settings: adaptation
    /// enabled, mode `Off`, one-second ticks.
    pub fn new(current_profile: Profile) -> (r: AdaptationController)
        ensures
            r@ == initial_controller(current_profile),
    {
        AdaptationController {
            policy_reader: PolicyReader::new(),
            policy_validator: PolicyValidator::new(),
            guardrails: GuardrailEngine::new(current_profile),
            audit_logger: AdaptationAuditLogger::new(),
            adaptation_mode: AdaptationMode::Off,
            adaptation_enabled: true,
            tick_interval_secs: 1,
        }
    }

    /// Reads the policy from `path`; the policy reader's maximum age goes
    /// back to its default.
    pub fn with_policy_path(self, path: String) -> (r: AdaptationController)
        ensures
            r@ == (ControllerView {
                policy_path: path@,
                policy_max_age: DEFAULT_MAX_POLICY_AGE_SECS,
                ..self@
            }),
    {
        AdaptationController { policy_reader: PolicyReader::with_path(path), ..self }
    }

    /// Sets the maximum policy age, for reading and for validation.
    pub fn with_max_policy_age(self, max_age_secs: u64) -> (r: AdaptationController)
        ensures
            r@ == (ControllerView { policy_max_age: max_age_secs, validator_max_age: max_age_secs, ..self@ }),
    {
        let AdaptationController {
            policy_reader,
            policy_validator,
            guardrails,
            audit_logger,
            adaptation_mode,
            adaptation_enabled,
            tick_interval_secs,
        } = self;
        AdaptationController {
            policy_reader: policy_reader.with_max_age(max_age_secs),
            policy_validator: policy_validator.with_max_age(max_age_secs),
            guardrails,
            audit_logger,
            adaptation_mode,
            adaptation_enabled,
            tick_interval_secs,
        }
    }

    /// Sets the minimum confidence, for validation and for the guardrails.
    pub fn with_min_confidence(self, min_confidence: Confidence) -> (r: AdaptationController)
        ensures
            r@ == (ControllerView {
                validator_min_confidence: min_confidence,
                guardrails: GuardrailView { min_confidence, ..self@.guardrails },
                ..self@
            }),
    {
        let AdaptationController {
            policy_reader,
            policy_validator,
            guardrails,
            audit_logger,
            adaptation_mode,
            adaptation_enabled,
            tick_interval_secs,
        } = self;
        AdaptationController {
            policy_reader,
            policy_validator: policy_validator.with_min_confidence(min_confidence),
            guardrails: guardrails.with_min_confidence(min_confidence),
            audit_logger,
            adaptation_mode,
            adaptation_enabled,
            tick_interval_secs,
        }
    }

    /// Sets the minimum dwell time between switches.
    pub fn with_min_dwell(self, min_dwell_secs: u64) -> (r: AdaptationController)
        ensures
            r@ == (ControllerView { guardrails: GuardrailView { min_dwell_secs, ..self@.guardrails }, ..self@ }),
    {
        let AdaptationController {
            policy_reader,
            policy_validator,
            guardrails,
            audit_logger,
            adaptation_mode,
            adaptation_enabled,
            tick_interval_secs,
        } = self;
        AdaptationController {
            policy_reader,
            policy_validator,
            guardrails: guardrails.with_min_dwell(min_dwell_secs),
            audit_logger,
            adaptation_mode,
            adaptation_enabled,
            tick_interval_secs,
        }
    }

    /// Sets the maximum number of switches per hour.
    pub fn with_max_switches_per_hour(self, max_switches_per_hour: u32) -> (r: AdaptationController)
        ensures
            r@ == (ControllerView {
                guardrails: GuardrailView { max_switches_per_hour, ..self@.guardrails },
                ..self@
            }),
    {
        let AdaptationController {
            policy_reader,
            policy_validator,
            guardrails,
            audit_logger,
            adaptation_mode,
            adaptation_enabled,
            tick_interval_secs,
        } = self;
        AdaptationController {
            policy_reader,
            policy_validator,
            guardrails: guardrails.with_max_switches_per_hour(max_switches_per_hour),
            audit_logger,
            adaptation_mode,
            adaptation_enabled,
            tick_interval_secs,
        }
    }

    /// Sets the number of consecutive failures that disables adaptation.
    pub fn with_max_consecutive_failures(self, max_consecutive_failures: u32) -> (r: AdaptationController)
        ensures
            r@ == (ControllerView {
                guardrails: GuardrailView { max_consecutive_failures, ..self@.guardrails },
                ..self@
            }),
    {
        let AdaptationController {
            policy_reader,
            policy_validator,
            guardrails,
            audit_logger,
            adaptation_mode,
            adaptation_enabled,
            tick_interval_secs,
        } = self;
        AdaptationController {
            policy_reader,
            policy_validator,
            guardrails: guardrails.with_max_consecutive_failures(max_consecutive_failures),
            audit_logger,
            adaptation_mode,
            adaptation_enabled,
            tick_interval_secs,
        }
    }

    /// Sets the interval between ticks.
    pub fn with_tick_interval(self, tick_interval_secs: u64) -> (r: AdaptationController)
        ensures
            r@ == (ControllerView { tick_interval_secs, ..self@ }),
    {
        AdaptationController { tick_interval_secs, ..self }
    }

    /// Sets the audit log path.
    pub fn with_audit_log_path(self, path: String) -> (r: AdaptationController)
        ensures
            r@ == (ControllerView { audit_log_path: path@, ..self@ }),
    {
        let AdaptationController {
            policy_reader,
            policy_validator,
            guardrails,
            audit_logger,
            adaptation_mode,
            adaptation_enabled,
            tick_interval_secs,
        } = self;
        AdaptationController {
            policy_reader,
            policy_validator,
            guardrails,
            audit_logger: audit_logger.with_path(path),
            adaptation_mode,
            adaptation_enabled,
            tick_interval_secs,
        }
    }

    /// Enables or disables the audit log.
    pub fn set_audit_enabled(&mut self, enabled: bool)
        ensures
            final(self)@ == (ControllerView { audit_enabled: enabled, ..old(self)@ }),
    {
        self.audit_logger.set_enabled(enabled);
    }

    /// Sets the adaptation mode, in the controller and in the guardrails.
    pub fn set_adaptation_mode(&mut self, mode: AdaptationMode)
        ensures
            final(self)@ == (ControllerView {
                adaptation_mode: mode,
                guardrails: GuardrailView { adaptation_mode: mode, ..old(self)@.guardrails },
                ..old(self)@
            }),
    {
        self.adaptation_mode = mode;
        self.guardrails.set_adaptation_mode(mode);
    }

    /// Enables or disables adaptation, in the controller and in the
    /// guardrails (disabling clears the guardrails' failure count).
    pub fn set_adaptation_enabled(&mut self, enabled: bool)
        ensures
            final(self)@ == (ControllerView {
                adaptation_enabled: enabled,
                guardrails: GuardrailView {
                    adaptation_enabled: enabled,
                    consecutive_failures: if enabled { old(self)@.guardrails.consecutive_failures } else { 0 },
                    ..old(self)@.guardrails
                },
                ..old(self)@
            }),
    {
        self.adaptation_enabled = enabled;
        self.guardrails.set_adaptation_enabled(enabled);
    }

    /// Accepts an externally changed profile. The guardrails keep tracking
    /// the profile they switched to, so this changes nothing.
    pub fn set_current_profile(&mut self, profile: Profile)
        ensures
            final(self)@ == old(self)@,
    {
    }

    /// The guardrail engine.
    pub fn guardrails(&self) -> (r: &GuardrailEngine)
        ensures
            r@ == self@.guardrails,
    {
        &self.guardrails
    }

    /// The policy reader.
    pub fn policy_reader(&self) -> (r: &PolicyReader)
        ensures
            r.spec_path() == self@.policy_path,
            r.spec_max_age() == self@.policy_max_age,
    {
        &self.policy_reader
    }

    /// The audit logger.
    pub fn audit_logger(&self) -> (r: &AdaptationAuditLogger)
        ensures
            r.spec_path() == self@.audit_log_path,
            r.spec_enabled() == self@.audit_enabled,
    {
        &self.audit_logger
    }

    /// The adaptation mode.
    pub fn adaptation_mode(&self) -> (r: AdaptationMode)
        ensures
            r == self@.adaptation_mode,
    {
        self.adaptation_mode
    }

    /// Whether adaptation is enabled in the controller.
    pub fn is_adaptation_enabled(&self) -> (r: bool)
        ensures
            r == self@.adaptation_enabled,
    {
        self.adaptation_enabled
    }

    /// The interval between ticks.
    pub fn tick_interval_secs(&self) -> (r: u64)
        ensures
            r == self@.tick_interval_secs,
    {
        self.tick_interval_secs
    }

    /// First phase of a tick: skip when adaptation is disabled or off,
    /// otherwise ask for the policy to be read.
    pub fn tick_begin(&self, heartbeat_ok: bool) -> (r: TickStart)
        ensures
            match skip_reason(self@) {
                None => r == TickStart::ReadPolicy,
                Some(why) => {
                    &&& r matches TickStart::Finished(t)
                    &&& t.outcome matches AdaptationOutcome::Skipped { reason }
                    &&& reason@ == skip_text(why)
                    &&& t.audit == AuditIntent::Rejected {
                        reason: why,
                        confidence: Confidence { bits: ZERO_BITS },
                        scheduler_healthy: heartbeat_ok,
                    }
                },
            },
            r matches TickStart::Finished(t) ==> intent_audit_result(t.audit) == outcome_audit_result(t.outcome),
    {
        if !self.adaptation_enabled || !self.guardrails.is_adaptation_enabled() {
            return TickStart::Finished(TickResult {
                outcome: AdaptationOutcome::Skipped { reason: owned("adaptation disabled") },
                audit: AuditIntent::Rejected {
                    reason: Rejection::AdaptationDisabled,
                    confidence: Confidence::zero(),
                    scheduler_healthy: heartbeat_ok,
                },
            });
        }
        if self.adaptation_mode == AdaptationMode::Off {
            return TickStart::Finished(TickResult {
                outcome: AdaptationOutcome::Skipped { reason: owned("adaptation mode is Off") },
                audit: AuditIntent::Rejected {
                    reason: Rejection::ModeOff,
                    confidence: Confidence::zero(),
                    scheduler_healthy: heartbeat_ok,
                },
            });
        }
        TickStart::ReadPolicy
    }

    /// Second phase: given the policy read result (an error as its
    /// message), validate the
    /// recommendation (at wall-clock time `clock`), then log it in shadow
    /// mode or check the guardrails (at time `now`) in canary mode.
    pub fn decide_after_read(
        &self,
        read: Result<PolicyRecommendation, String>,
        heartbeat_ok: bool,
        now: u64,
        clock: u64,
    ) -> (r: ReadDecision)
        ensures
            is_read_decision(r, self@, read, heartbeat_ok, now, clock),
    {
        let recommendation = match read {
            Ok(rec) => rec,
            Err(e) => {
                let error = e.clone();
                return ReadDecision::Finished(TickResult {
                    outcome: AdaptationOutcome::PolicyReadError { error: e },
                    audit: AuditIntent::Rejected {
                        reason: Rejection::PolicyRead(error),
                        confidence: Confidence::zero(),
                        scheduler_healthy: heartbeat_ok,
                    },
                });
            },
        };
        let validation = self.policy_validator.validate_at(
            &recommendation,
            self.guardrails.current_profile(),
            clock,
        );
        if let PolicyValidationResult::Rejected(error) = validation {
            let reason = error.duplicate();
            return ReadDecision::Finished(TickResult {
                outcome: AdaptationOutcome::ValidationRejected { error },
                audit: AuditIntent::Rejected {
                    reason: Rejection::Validation(reason),
                    confidence: recommendation.confidence,
                    scheduler_healthy: heartbeat_ok,
                },
            });
        }
        match self.adaptation_mode {
            AdaptationMode::Off => ReadDecision::Finished(TickResult {
                outcome: AdaptationOutcome::Skipped { reason: owned("adaptation mode is Off") },
                audit: AuditIntent::Rejected {
                    reason: Rejection::ModeOff,
                    confidence: recommendation.confidence,
                    scheduler_healthy: heartbeat_ok,
                },
            }),
            AdaptationMode::Shadow => {
                let reason = recommendation.reason.clone();
                ReadDecision::Finished(TickResult {
                    outcome: AdaptationOutcome::ShadowLogged {
                        recommended_profile: recommendation.recommended_profile,
                        confidence: recommendation.confidence,
                        reason: recommendation.reason,
                    },
                    audit: AuditIntent::Shadow {
                        new_profile: recommendation.recommended_profile,
                        confidence: recommendation.confidence,
                        reason,
                        scheduler_healthy: heartbeat_ok,
                    },
                })
            },
            AdaptationMode::Canary => {
                let verdict = self.guardrails.can_switch(&recommendation, heartbeat_ok, now);
                match verdict {
                    GuardrailResult::Denied(violation) => ReadDecision::Finished(TickResult {
                        outcome: AdaptationOutcome::GuardrailRejected { violation },
                        audit: AuditIntent::Rejected {
                            reason: Rejection::Guardrail(violation),
                            confidence: recommendation.confidence,
                            scheduler_healthy: heartbeat_ok,
                        },
                    }),
                    GuardrailResult::Allowed => ReadDecision::Switch {
                        from_profile: self.guardrails.current_profile(),
                        to_profile: recommendation.recommended_profile,
                        recommendation,
                    },
                }
            },
        }
    }

    /// Third phase: given the backend's answer to the switch, record a
    /// failure (which may disable adaptation) or go on to the health check.
    pub fn after_set_profile(
        &mut self,
        from_profile: Profile,
        to_profile: Profile,
        result: Result<(), String>,
        heartbeat_ok: bool,
    ) -> (r: SwitchStep)
        ensures
            match result {
                Ok(()) => r == SwitchStep::VerifyHealth && final(self)@ == old(self)@,
                Err(e) => {
                    &&& final(self)@ == (ControllerView { guardrails: after_failure(old(self)@.guardrails), ..old(self)@ })
                    &&& r == SwitchStep::Finished(TickResult {
                        outcome: AdaptationOutcome::SwitchFailed { error: e },
                        audit: AuditIntent::Failed {
                            old_profile: from_profile,
                            attempted_profile: to_profile,
                            error: e,
                            scheduler_healthy: heartbeat_ok,
                        },
                    })
                },
            },
    {
        match result {
            Ok(()) => SwitchStep::VerifyHealth,
            Err(e) => {
                self.guardrails.record_failure();
                let error = e.clone();
                SwitchStep::Finished(TickResult {
                    outcome: AdaptationOutcome::SwitchFailed { error: e },
                    audit: AuditIntent::Failed {
                        old_profile: from_profile,
                        attempted_profile: to_profile,
                        error,
                        scheduler_healthy: heartbeat_ok,
                    },
                })
            },
        }
    }

    /// Fourth phase: given the post-switch health check, record the
    /// successful switch, or name the profile to roll back to (the previous
    /// good profile, else the profile switched from).
    pub fn after_health_check(
        &mut self,
        from_profile: Profile,
        to_profile: Profile,
        recommendation: &PolicyRecommendation,
        result: Result<(), String>,
        heartbeat_ok: bool,
        now: u64,
    ) -> (r: HealthStep)
        ensures
            match result {
                Ok(()) => {
                    &&& final(self)@ == (ControllerView {
                        guardrails: after_success(old(self)@.guardrails, to_profile, now),
                        ..old(self)@
                    })
                    &&& r == HealthStep::Finished(TickResult {
                        outcome: AdaptationOutcome::Switched { from_profile, to_profile },
                        audit: AuditIntent::Success {
                            old_profile: from_profile,
                            new_profile: to_profile,
                            confidence: recommendation.confidence,
                            reason: recommendation.reason,
                            scheduler_healthy: heartbeat_ok,
                        },
                    })
                },
                Err(_) => {
                    &&& final(self)@ == old(self)@
                    &&& r == HealthStep::Rollback {
                        previous_good_profile: match old(self)@.guardrails.previous_good_profile {
                            Some(p) => p,
                            None => from_profile,
                        },
                    }
                },
            },
    {
        match result {
            Ok(()) => {
                self.guardrails.record_success(to_profile, now);
                HealthStep::Finished(TickResult {
                    outcome: AdaptationOutcome::Switched { from_profile, to_profile },
                    audit: AuditIntent::Success {
                        old_profile: from_profile,
                        new_profile: to_profile,
                        confidence: recommendation.confidence,
                        reason: recommendation.reason.clone(),
                        scheduler_healthy: heartbeat_ok,
                    },
                })
            },
            Err(_) => {
                let previous_good = match self.guardrails.previous_good_profile() {
                    Some(p) => p,
                    None => from_profile,
                };
                HealthStep::Rollback { previous_good_profile: previous_good }
            },
        }
    }

    /// Last phase: given the rollback result, record the failure (which may
    /// disable adaptation); a failed rollback disables adaptation.
    pub fn after_rollback(
        &mut self,
        from_profile: Profile,
        to_profile: Profile,
        previous_good_profile: Profile,
        rollback_result: RollbackResult,
        heartbeat_ok: bool,
    ) -> (r: TickResult)
        ensures
            final(self)@ == (ControllerView {
                guardrails: after_rollback_guardrails(old(self)@.guardrails, rollback_result),
                ..old(self)@
            }),
            r == (TickResult {
                outcome: AdaptationOutcome::RollbackAttempted { from_profile, to_profile, rollback_result },
                audit: AuditIntent::Rollback {
                    old_profile: from_profile,
                    new_profile: previous_good_profile,
                    rollback_success: rollback_result is Success,
                    error: match rollback_result {
                        RollbackResult::Failed { error, .. } => Some(error),
                        RollbackResult::Success { .. } => None,
                    },
                    scheduler_healthy: heartbeat_ok,
                },
            }),
    {
        match &rollback_result {
            RollbackResult::Success { .. } => self.guardrails.record_failure(),
            RollbackResult::Failed { .. } => self.guardrails.record_failed_rollback(),
        }
        let (success, error) = match &rollback_result {
            RollbackResult::Success { .. } => (true, None),
            RollbackResult::Failed { error, .. } => (false, Some(error.clone())),
        };
        TickResult {
            outcome: AdaptationOutcome::RollbackAttempted { from_profile, to_profile, rollback_result },
            audit: AuditIntent::Rollback {
                old_profile: from_profile,
                new_profile: previous_good_profile,
                rollback_success: success,
                error,
                scheduler_healthy: heartbeat_ok,
            },
        }
    }

    /// The rest of a tick once the policy has been read: validate by the
    /// wall clock, and in canary mode switch the backend, check its health
    /// and roll back on a failed check (see `tick_with_policy_at`).
    pub fn tick_with_policy<B: Backend + ?Sized>(
        &mut self,
        backend: &mut B,
        read: Result<PolicyRecommendation, String>,
        heartbeat_ok: bool,
        now: u64,
    ) -> (r: TickResult)
        ensures
            exists|clock: u64| #[trigger] tick_outcome(old(self)@, final(self)@, read, heartbeat_ok, now, clock, r),
    {
        let clock = unix_time_secs();
        self.tick_with_policy_at(backend, read, heartbeat_ok, now, clock)
    }

    /// The rest of a tick once the policy has been read, validating at
    /// wall-clock time `clock`: in canary mode switch the backend, check its
    /// health and roll back on a failed check. Whatever the backend answers,
    /// a switch is only attempted on a recommendation the validator accepts
    /// at `clock` and when the guardrails allow it, a completed switch is
    /// recorded as a success, a failed switch or rollback as a failure, and
    /// a failed rollback disables adaptation.
    pub fn tick_with_policy_at<B: Backend + ?Sized>(
        &mut self,
        backend: &mut B,
        read: Result<PolicyRecommendation, String>,
        heartbeat_ok: bool,
        now: u64,
        clock: u64,
    ) -> (r: TickResult)
        ensures
            tick_outcome(old(self)@, final(self)@, read, heartbeat_ok, now, clock, r),
    {
        let decision = self.decide_after_read(read, heartbeat_ok, now, clock);
        let (from_profile, to_profile, recommendation) = match decision {
            ReadDecision::Finished(result) => return result,
            ReadDecision::Switch { from_profile, to_profile, recommendation } => (from_profile, to_profile, recommendation),
        };
        let switched = backend.set_profile(to_profile);
        match self.after_set_profile(from_profile, to_profile, switched, heartbeat_ok) {
            SwitchStep::Finished(result) => return result,
            SwitchStep::VerifyHealth => {},
        }
        let health = backend.verify_post_switch_health(to_profile);
        let previous_good = match self.after_health_check(
            from_profile,
            to_profile,
            &recommendation,
            health,
            heartbeat_ok,
            now,
        ) {
            HealthStep::Finished(result) => return result,
            HealthStep::Rollback { previous_good_profile } => previous_good_profile,
        };
        let rollback_result = backend.rollback(previous_good);
        self.after_rollback(from_profile, to_profile, previous_good, rollback_result, heartbeat_ok)
    }
}

/// The audit event an intent asks for, built through the logger (nothing
/// when the logger is disabled). `rejection_text` is the rendered reason
/// of a rejection.
pub open spec fn is_event_for(e: AdaptationAuditEvent, intent: AuditIntent, rejection_text: Seq<char>) -> bool {
    match intent {
        AuditIntent::Rejected { confidence, scheduler_healthy, .. } => is_audit_event(e, "rejected"@, None, None,
            Some(confidence), Some(rejection_text), None, None, Some(scheduler_healthy)),
        AuditIntent::Shadow { new_profile, confidence, reason, scheduler_healthy } => is_audit_event(e, "shadow"@,
            None, Some(new_profile), Some(confidence), Some(reason@), None, None, Some(scheduler_healthy)),
        AuditIntent::Success { old_profile, new_profile, confidence, reason, scheduler_healthy } => is_audit_event(e,
            "success"@, Some(old_profile), Some(new_profile), Some(confidence), Some(reason@), None, None,
            Some(scheduler_healthy)),
        AuditIntent::Failed { old_profile, attempted_profile, error, scheduler_healthy } => is_audit_event(e,
            "failed"@, Some(old_profile), Some(attempted_profile), None, Some(error@), None, None,
            Some(scheduler_healthy)),
        AuditIntent::Rollback { old_profile, new_profile, rollback_success, scheduler_healthy, .. } => is_audit_event(
            e, "rollback"@, Some(old_profile), Some(new_profile), None, None, Some(true),
            Some(if rollback_success { "success"@ } else { "failed"@ }), Some(scheduler_healthy)),
    }
}

impl AdaptationAuditLogger {
    /// The audit event to append for a tick's audit intent, or nothing when
    /// the logger is disabled.
    pub fn event_for(&self, intent: &AuditIntent, rejection_text: &str) -> (r: Option<AdaptationAuditEvent>)
        ensures
            r is Some == self.spec_enabled(),
            r matches Some(e) ==> is_event_for(e, *intent, rejection_text@),
    {
        match intent {
            AuditIntent::Rejected { confidence, scheduler_healthy, .. } => self.log_rejected(
                rejection_text,
                *confidence,
                *scheduler_healthy,
            ),
            AuditIntent::Shadow { new_profile, confidence, reason, scheduler_healthy } => self.log_shadow(
                *new_profile,
                *confidence,
                reason.as_str(),
                *scheduler_healthy,
            ),
            AuditIntent::Success { old_profile, new_profile, confidence, reason, scheduler_healthy } => self.log_success(
                *old_profile,
                *new_profile,
                *confidence,
                reason.as_str(),
                *scheduler_healthy,
            ),
            AuditIntent::Failed { old_profile, attempted_profile, error, scheduler_healthy } => self.log_failed(
                *old_profile,
                *attempted_profile,
                error.as_str(),
                *scheduler_healthy,
            ),
            AuditIntent::Rollback { old_profile, new_profile, rollback_success, error, scheduler_healthy } => {
                let err: Option<&str> = match error {
                    Some(e) => Some(e.as_str()),
                    None => None,
                };
                self.log_rollback(*old_profile, *new_profile, *rollback_success, err, *scheduler_healthy)
            },
        }
    }
}

/// A tick never switches while adaptation is disabled or outside canary
/// mode, whatever the policy says.
pub proof fn lemma_no_switch_outside_canary(
    c: ControllerView,
    d: ReadDecision,
    read: Result<PolicyRecommendation, String>,
    hb: bool,
    now: u64,
    clock: u64,
)
    requires
        is_read_decision(d, c, read, hb, now, clock),
        c.adaptation_mode != AdaptationMode::Canary || !c.guardrails.adaptation_enabled || !hb,
    ensures
        d is Finished,
{
}

/// Ticks whose switch fails, counted from none with adaptation enabled,
/// leave the controller ticking while their number stays below the failure
/// limit; once it is reached, every later tick is skipped as disabled.
pub proof fn lemma_failed_switches_stop_ticks(c: ControllerView, k: nat)
    requires
        c.guardrails.consecutive_failures == 0,
        c.guardrails.adaptation_enabled,
        0 < k <= u32::MAX,
    ensures
        ({
            let after = ControllerView { guardrails: after_failures(c.guardrails, k), ..c };
            &&& after.guardrails.consecutive_failures == k
            &&& k < c.guardrails.max_consecutive_failures ==> skip_reason(after) == skip_reason(c)
            &&& k >= c.guardrails.max_consecutive_failures ==> skip_reason(after)
                == Some(Rejection::AdaptationDisabled)
        }),
{
    lemma_consecutive_failures_disable(c.guardrails, k, Confidence { bits: ZERO_BITS }, true, 0);
}

} // verus!
