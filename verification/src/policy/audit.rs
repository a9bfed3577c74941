//! Audit events for adaptation decisions, and the logger that decides which
//! events are appended to the audit log.
use vstd::prelude::*;
use crate::clock::unix_time_secs;
use crate::ipc::profile::Profile;
use crate::policy::confidence::Confidence;
use crate::text::owned;

verus! {

/// A JSON value, from `serde_json`.
#[verifier::external_type_specification]
#[verifier::external_body]
pub struct ExJsonValue(serde_json::Value);

/// What `chrono` renders for the UTC instant `secs` seconds after the Unix
/// epoch in RFC 3339 form, or `None` when the instant is out of its range.
pub uninterp spec fn rfc3339_of_unix(secs: int) -> Option<Seq<char>>;

/// The characters of an optional string.
pub open spec fn opt_chars(s: Option<String>) -> Option<Seq<char>> {
    match s {
        Some(v) => Some(v@),
        None => None,
    }
}

/// Calls `chrono::DateTime::<Utc>::from_timestamp(secs, 0)` and renders the
/// instant with `to_rfc3339`. The result is named `rfc3339_of_unix(secs)`;
/// `None` comes back when `from_timestamp` finds the instant out of range.
#[verifier::external_body]
fn rfc3339_utc(secs: i64) -> (r: Option<String>)
    ensures
        opt_chars(r) == rfc3339_of_unix(secs as int),
{
    match chrono::DateTime::<chrono::Utc>::from_timestamp(secs, 0) {
        Some(dt) => Some(dt.to_rfc3339()),
        None => None,
    }
}

/// The meaning of the extra metadata: each key maps to the value it was
/// last given.
pub open spec fn extra_map(s: Seq<(String, serde_json::Value)>) -> Map<Seq<char>, serde_json::Value>
    decreases s.len(),
{
    if s.len() == 0 {
        Map::empty()
    } else {
        extra_map(s.drop_last()).insert(s.last().0@, s.last().1)
    }
}

/// An audit event for an adaptation decision.
#[derive(Debug, Clone)]
pub struct AdaptationAuditEvent {
    /// Unix timestamp (seconds since epoch).
    pub timestamp: u64,
    /// Human-readable timestamp (RFC 3339).
    pub timestamp_iso: Option<String>,
    /// Result of the adaptation action: "rejected", "shadow", "success",
    /// "failed" or "rollback".
    pub result: String,
    /// Profile before the switch or attempt.
    pub old_profile: Option<Profile>,
    /// Profile after the switch, attempt or rollback.
    pub new_profile: Option<Profile>,
    /// Confidence of the recommendation.
    pub confidence: Option<Confidence>,
    /// Human-readable reason for the decision.
    pub reason: Option<String>,
    /// Whether a rollback was attempted.
    pub rollback: Option<bool>,
    /// Rollback result if applicable.
    pub rollback_result: Option<String>,
    /// Scheduler health at the time of the decision.
    pub scheduler_healthy: Option<bool>,
    /// Additional metadata, in insertion order; a later entry for a key
    /// replaces an earlier one.
    pub extra: Vec<(String, serde_json::Value)>,
}

impl AdaptationAuditEvent {
    /// A new event with the given result at the given time and nothing else set.
    pub fn new_at(result: String, timestamp: u64) -> (r: AdaptationAuditEvent)
        ensures
            r.timestamp == timestamp,
            r.timestamp_iso is None,
            r.result@ == result@,
            r.old_profile is None,
            r.new_profile is None,
            r.confidence is None,
            r.reason is None,
            r.rollback is None,
            r.rollback_result is None,
            r.scheduler_healthy is None,
            r.extra@.len() == 0,
    {
        AdaptationAuditEvent {
            timestamp,
            timestamp_iso: None,
            result,
            old_profile: None,
            new_profile: None,
            confidence: None,
            reason: None,
            rollback: None,
            rollback_result: None,
            scheduler_healthy: None,
            extra: Vec::new(),
        }
    }

    /// A new event with the given result, stamped with the wall clock.
    pub fn new(result: String) -> (r: AdaptationAuditEvent)
        ensures
            r.timestamp_iso is None,
            r.result@ == result@,
            r.old_profile is None,
            r.new_profile is None,
            r.confidence is None,
            r.reason is None,
            r.rollback is None,
            r.rollback_result is None,
            r.scheduler_healthy is None,
            r.extra@.len() == 0,
    {
        let timestamp = unix_time_secs();
        AdaptationAuditEvent::new_at(result, timestamp)
    }

    /// Sets the old profile.
    pub fn with_old_profile(self, profile: Profile) -> (r: AdaptationAuditEvent)
        ensures
            r == (AdaptationAuditEvent { old_profile: Some(profile), ..self }),
    {
        AdaptationAuditEvent { old_profile: Some(profile), ..self }
    }

    /// Sets the new profile.
    pub fn with_new_profile(self, profile: Profile) -> (r: AdaptationAuditEvent)
        ensures
            r == (AdaptationAuditEvent { new_profile: Some(profile), ..self }),
    {
        AdaptationAuditEvent { new_profile: Some(profile), ..self }
    }

    /// Sets the confidence.
    pub fn with_confidence(self, confidence: Confidence) -> (r: AdaptationAuditEvent)
        ensures
            r == (AdaptationAuditEvent { confidence: Some(confidence), ..self }),
    {
        AdaptationAuditEvent { confidence: Some(confidence), ..self }
    }

    /// Sets the reason.
    pub fn with_reason(self, reason: String) -> (r: AdaptationAuditEvent)
        ensures
            r == (AdaptationAuditEvent { reason: Some(reason), ..self }),
    {
        AdaptationAuditEvent { reason: Some(reason), ..self }
    }

    /// Sets whether a rollback was attempted.
    pub fn with_rollback(self, rollback: bool) -> (r: AdaptationAuditEvent)
        ensures
            r == (AdaptationAuditEvent { rollback: Some(rollback), ..self }),
    {
        AdaptationAuditEvent { rollback: Some(rollback), ..self }
    }

    /// Sets the rollback result.
    pub fn with_rollback_result(self, result: String) -> (r: AdaptationAuditEvent)
        ensures
            r == (AdaptationAuditEvent { rollback_result: Some(result), ..self }),
    {
        AdaptationAuditEvent { rollback_result: Some(result), ..self }
    }

    /// Sets the scheduler health.
    pub fn with_scheduler_healthy(self, healthy: bool) -> (r: AdaptationAuditEvent)
        ensures
            r == (AdaptationAuditEvent { scheduler_healthy: Some(healthy), ..self }),
    {
        AdaptationAuditEvent { scheduler_healthy: Some(healthy), ..self }
    }

    /// Adds extra metadata; a key given again takes the new value.
    pub fn with_extra(self, key: String, value: serde_json::Value) -> (r: AdaptationAuditEvent)
        ensures
            extra_map(r.extra@) == extra_map(self.extra@).insert(key@, value),
            r.extra@ == self.extra@.push((key, value)),
            r.timestamp == self.timestamp,
            r.timestamp_iso == self.timestamp_iso,
            r.result == self.result,
            r.old_profile == self.old_profile,
            r.new_profile == self.new_profile,
            r.confidence == self.confidence,
            r.reason == self.reason,
            r.rollback == self.rollback,
            r.rollback_result == self.rollback_result,
            r.scheduler_healthy == self.scheduler_healthy,
    {
        let mut event = self;
        event.extra.push((key, value));
        proof {
            assert(event.extra@.drop_last() =~= self.extra@);
        }
        event
    }

    /// Sets the RFC 3339 form of the timestamp, when it is in range.
    pub fn with_iso_timestamp(self) -> (r: AdaptationAuditEvent)
        ensures
            r == (AdaptationAuditEvent { timestamp_iso: r.timestamp_iso, ..self }),
            opt_chars(r.timestamp_iso) == match rfc3339_of_unix((self.timestamp as i64) as int) {
                Some(iso) => Some(iso),
                None => opt_chars(self.timestamp_iso),
            },
    {
        let secs = self.timestamp as i64;
        match rfc3339_utc(secs) {
            Some(iso) => AdaptationAuditEvent { timestamp_iso: Some(iso), ..self },
            None => self,
        }
    }
}

/// Whether `e` is a complete audit event (timestamped, with its RFC 3339
/// form where that exists) with the given contents.
pub open spec fn is_audit_event(
    e: AdaptationAuditEvent,
    result: Seq<char>,
    old_profile: Option<Profile>,
    new_profile: Option<Profile>,
    confidence: Option<Confidence>,
    reason: Option<Seq<char>>,
    rollback: Option<bool>,
    rollback_result: Option<Seq<char>>,
    scheduler_healthy: Option<bool>,
) -> bool {
    &&& e.result@ == result
    &&& e.old_profile == old_profile
    &&& e.new_profile == new_profile
    &&& e.confidence == confidence
    &&& opt_chars(e.reason) == reason
    &&& e.rollback == rollback
    &&& opt_chars(e.rollback_result) == rollback_result
    &&& e.scheduler_healthy == scheduler_healthy
    &&& e.extra@.len() == 0
    &&& (rfc3339_of_unix((e.timestamp as i64) as int) is Some ==>
        opt_chars(e.timestamp_iso) == rfc3339_of_unix((e.timestamp as i64) as int))
    &&& (rfc3339_of_unix((e.timestamp as i64) as int) is None ==> e.timestamp_iso is None)
}

/// Default audit log path.
pub const DEFAULT_AUDIT_LOG_PATH: &'static str = "/var/log/cerynth/adaptation.jsonl";

/// Decides which adaptation audit events go to the audit log (a JSON-lines
/// file at a configurable path).
#[derive(Debug, Clone)]
pub struct AdaptationAuditLogger {
    path: String,
    enabled: bool,
}

impl AdaptationAuditLogger {
    /// The log file path.
    pub closed spec fn spec_path(&self) -> Seq<char> {
        self.path@
    }

    /// Whether logging is enabled.
    pub closed spec fn spec_enabled(&self) -> bool {
        self.enabled
    }

    /// An enabled logger writing to `/var/log/cerynth/adaptation.jsonl`.
    pub fn new() -> (r: AdaptationAuditLogger)
        ensures
            r.spec_path() == DEFAULT_AUDIT_LOG_PATH@,
            r.spec_enabled(),
    {
        AdaptationAuditLogger { path: owned(DEFAULT_AUDIT_LOG_PATH), enabled: true }
    }

    /// The same logger writing to another path.
    pub fn with_path(self, path: String) -> (r: AdaptationAuditLogger)
        ensures
            r.spec_path() == path@,
            r.spec_enabled() == self.spec_enabled(),
    {
        AdaptationAuditLogger { path, ..self }
    }

    /// Enables or disables the logger.
    pub fn set_enabled(&mut self, enabled: bool)
        ensures
            final(self).spec_enabled() == enabled,
            final(self).spec_path() == old(self).spec_path(),
    {
        self.enabled = enabled;
    }

    /// Whether the logger is enabled.
    pub fn is_enabled(&self) -> (r: bool)
        ensures
            r == self.spec_enabled(),
    {
        self.enabled
    }

    /// The log file path.
    pub fn path(&self) -> (r: &str)
        ensures
            r@ == self.spec_path(),
    {
        self.path.as_str()
    }

    /// The event to append to the log: the event itself when the logger is
    /// enabled, nothing otherwise.
    pub fn log(&self, event: AdaptationAuditEvent) -> (r: Option<AdaptationAuditEvent>)
        ensures
            r == (if self.spec_enabled() { Some(event) } else { None::<AdaptationAuditEvent> }),
    {
        if !self.enabled {
            return None;
        }
        Some(event)
    }

    /// The event recording a rejected recommendation.
    pub fn log_rejected(&self, reason: &str, confidence: Confidence, scheduler_healthy: bool) -> (r: Option<AdaptationAuditEvent>)
        ensures
            r is Some == self.spec_enabled(),
            r matches Some(e) ==> is_audit_event(e, "rejected"@, None, None, Some(confidence),
                Some(reason@), None, None, Some(scheduler_healthy)),
    {
        let event = AdaptationAuditEvent::new(owned("rejected"))
            .with_reason(owned(reason))
            .with_confidence(confidence)
            .with_scheduler_healthy(scheduler_healthy)
            .with_iso_timestamp();
        self.log(event)
    }

    /// The event recording a shadow-mode recommendation.
    pub fn log_shadow(&self, new_profile: Profile, confidence: Confidence, reason: &str, scheduler_healthy: bool) -> (r: Option<AdaptationAuditEvent>)
        ensures
            r is Some == self.spec_enabled(),
            r matches Some(e) ==> is_audit_event(e, "shadow"@, None, Some(new_profile), Some(confidence),
                Some(reason@), None, None, Some(scheduler_healthy)),
    {
        let event = AdaptationAuditEvent::new(owned("shadow"))
            .with_new_profile(new_profile)
            .with_confidence(confidence)
            .with_reason(owned(reason))
            .with_scheduler_healthy(scheduler_healthy)
            .with_iso_timestamp();
        self.log(event)
    }

    /// The event recording a successful switch.
    pub fn log_success(
        &self,
        old_profile: Profile,
        new_profile: Profile,
        confidence: Confidence,
        reason: &str,
        scheduler_healthy: bool,
    ) -> (r: Option<AdaptationAuditEvent>)
        ensures
            r is Some == self.spec_enabled(),
            r matches Some(e) ==> is_audit_event(e, "success"@, Some(old_profile), Some(new_profile),
                Some(confidence), Some(reason@), None, None, Some(scheduler_healthy)),
    {
        let event = AdaptationAuditEvent::new(owned("success"))
            .with_old_profile(old_profile)
            .with_new_profile(new_profile)
            .with_confidence(confidence)
            .with_reason(owned(reason))
            .with_scheduler_healthy(scheduler_healthy)
            .with_iso_timestamp();
        self.log(event)
    }

    /// The event recording a failed switch.
    pub fn log_failed(&self, old_profile: Profile, attempted_profile: Profile, error: &str, scheduler_healthy: bool) -> (r: Option<AdaptationAuditEvent>)
        ensures
            r is Some == self.spec_enabled(),
            r matches Some(e) ==> is_audit_event(e, "failed"@, Some(old_profile), Some(attempted_profile),
                None, Some(error@), None, None, Some(scheduler_healthy)),
    {
        let event = AdaptationAuditEvent::new(owned("failed"))
            .with_old_profile(old_profile)
            .with_new_profile(attempted_profile)
            .with_reason(owned(error))
            .with_scheduler_healthy(scheduler_healthy)
            .with_iso_timestamp();
        self.log(event)
    }

    /// The event recording a rollback attempt. The error text of a failed
    /// rollback is not recorded.
    pub fn log_rollback(
        &self,
        old_profile: Profile,
        new_profile: Profile,
        rollback_success: bool,
        error: Option<&str>,
        scheduler_healthy: bool,
    ) -> (r: Option<AdaptationAuditEvent>)
        ensures
            r is Some == self.spec_enabled(),
            r matches Some(e) ==> is_audit_event(e, "rollback"@, Some(old_profile), Some(new_profile),
                None, None, Some(true), Some(if rollback_success { "success"@ } else { "failed"@ }),
                Some(scheduler_healthy)),
    {
        let outcome = if rollback_success { owned("success") } else { owned("failed") };
        let event = AdaptationAuditEvent::new(owned("rollback"))
            .with_old_profile(old_profile)
            .with_new_profile(new_profile)
            .with_rollback(true)
            .with_rollback_result(outcome)
            .with_scheduler_healthy(scheduler_healthy)
            .with_iso_timestamp();
        self.log(event)
    }
}

impl Default for AdaptationAuditLogger {
    fn default() -> (r: AdaptationAuditLogger)
        ensures
            r.spec_path() == DEFAULT_AUDIT_LOG_PATH@,
            r.spec_enabled(),
    {
        AdaptationAuditLogger::new()
    }
}

} // verus!
