//! Policy recommendations read from the policy file, and their validation.
use vstd::prelude::*;
use crate::clock::unix_time_secs;
use crate::json::{bool_member, f64_bits_member, json_bool_member, json_f64_bits_member, json_parse_error, json_str_member, json_u64_member, parse_error, str_member, u64_member};
use crate::ipc::profile::{Profile, profile_parse};
use crate::policy::confidence::{Confidence, is_nan, le, ZERO_BITS, ONE_BITS};
use crate::text::owned;

verus! {

/// `a - b`, or `0` when `b > a`.
pub open spec fn sat_sub(a: u64, b: u64) -> u64 {
    if a >= b { (a - b) as u64 } else { 0 }
}

/// A policy recommendation read from the policy file.
#[derive(Debug, Clone, PartialEq)]
pub struct PolicyRecommendation {
    /// The recommended scheduler profile.
    pub recommended_profile: Profile,
    /// Confidence in the recommendation.
    pub confidence: Confidence,
    /// Human-readable reason for the recommendation.
    pub reason: String,
    /// Unix timestamp (seconds) when the recommendation was generated.
    pub timestamp: u64,
    /// Whether this recommendation should be applied.
    pub apply: bool,
}

/// Age in seconds of a recommendation made at `timestamp`, seen at `now`.
pub open spec fn age_at(timestamp: u64, now: u64) -> u64 {
    sat_sub(now, timestamp)
}

/// Whether a recommendation made at `timestamp` is fresh at `now`.
pub open spec fn fresh_at(timestamp: u64, max_age_secs: u64, now: u64) -> bool {
    max_age_secs > 0 && age_at(timestamp, now) <= max_age_secs
}

impl PolicyRecommendation {
    /// The age of the recommendation in seconds at time `now`.
    pub fn age_secs_at(&self, now: u64) -> (r: u64)
        ensures
            r == age_at(self.timestamp, now),
    {
        now.saturating_sub(self.timestamp)
    }

    /// The age of the recommendation in seconds, by the wall clock.
    pub fn age_secs(&self) -> (r: u64)
        ensures
            exists|now: u64| r == #[trigger] age_at(self.timestamp, now),
    {
        let now = unix_time_secs();
        self.age_secs_at(now)
    }

    /// Whether the recommendation is at most `max_age_secs` old at `now`.
    pub fn is_fresh_at(&self, max_age_secs: u64, now: u64) -> (r: bool)
        ensures
            r == fresh_at(self.timestamp, max_age_secs, now),
    {
        max_age_secs > 0 && self.age_secs_at(now) <= max_age_secs
    }

    /// Whether the recommendation is at most `max_age_secs` old, by the wall
    /// clock. Never fresh when `max_age_secs` is `0`.
    pub fn is_fresh(&self, max_age_secs: u64) -> (r: bool)
        ensures
            exists|now: u64| r == #[trigger] fresh_at(self.timestamp, max_age_secs, now),
            max_age_secs == 0 ==> !r,
    {
        let now = unix_time_secs();
        self.is_fresh_at(max_age_secs, now)
    }
}

/// Why the policy file could not be turned into a recommendation.
#[derive(Debug, Clone, PartialEq)]
pub enum PolicyReadError {
    /// The policy file does not exist.
    NotFound(String),
    /// The policy file could not be read.
    Io { path: String, message: String },
    /// The policy file is not valid JSON.
    Json { path: String, message: String },
    /// A required field is missing or has the wrong type.
    MissingField(String),
    /// The confidence is outside `[0.0, 1.0]`.
    InvalidConfidence(Confidence),
    /// The recommendation is older than the maximum age.
    Stale { age_secs: u64, max_age_secs: u64 },
}

impl PolicyReadError {
    /// An equal copy of the error.
    pub fn duplicate(&self) -> (r: PolicyReadError)
        ensures
            r == *self,
    {
        match self {
            PolicyReadError::NotFound(p) => PolicyReadError::NotFound(p.clone()),
            PolicyReadError::Io { path, message } => PolicyReadError::Io { path: path.clone(), message: message.clone() },
            PolicyReadError::Json { path, message } => PolicyReadError::Json { path: path.clone(), message: message.clone() },
            PolicyReadError::MissingField(f) => PolicyReadError::MissingField(f.clone()),
            PolicyReadError::InvalidConfidence(c) => PolicyReadError::InvalidConfidence(*c),
            PolicyReadError::Stale { age_secs, max_age_secs } => PolicyReadError::Stale {
                age_secs: *age_secs,
                max_age_secs: *max_age_secs,
            },
        }
    }
}

/// The fields of the policy file's JSON object, as far as they have the
/// expected JSON types: `None` for a field that is absent or of another type.
#[derive(Debug, Clone, PartialEq)]
pub struct PolicyFields {
    /// `recommended_profile`, when it is a string.
    pub recommended_profile: Option<String>,
    /// `confidence`, when it is a number.
    pub confidence: Option<Confidence>,
    /// `reason`, when it is a string.
    pub reason: Option<String>,
    /// `timestamp`, when it is a non-negative integer that fits in 64 bits.
    pub timestamp: Option<u64>,
    /// `apply`, when it is a boolean.
    pub apply: Option<bool>,
}

/// The fields of the policy file as values: the characters of the strings.
pub struct FieldsView {
    pub recommended_profile: Option<Seq<char>>,
    pub confidence: Option<Confidence>,
    pub reason: Option<Seq<char>>,
    pub timestamp: Option<u64>,
    pub apply: Option<bool>,
}

impl View for PolicyFields {
    type V = FieldsView;

    open spec fn view(&self) -> FieldsView {
        FieldsView {
            recommended_profile: match self.recommended_profile {
                Some(s) => Some(s@),
                None => None,
            },
            confidence: self.confidence,
            reason: match self.reason {
                Some(s) => Some(s@),
                None => None,
            },
            timestamp: self.timestamp,
            apply: self.apply,
        }
    }
}

/// What reading a policy file with the given fields gives, at time `now`.
pub enum ReadOutcome {
    Missing(Seq<char>),
    InvalidConfidence(Confidence),
    Stale { age_secs: u64, max_age_secs: u64 },
    Read { profile: Profile, confidence: Confidence, reason: Seq<char>, timestamp: u64, apply: bool },
}

/// Whether `c` lies in `[0.0, 1.0]`.
pub open spec fn in_unit_range(c: Confidence) -> bool {
    le(Confidence { bits: ZERO_BITS }, c) && le(c, Confidence { bits: ONE_BITS })
}

/// The outcome of reading a policy file with the given fields.
pub open spec fn read_outcome(fields: FieldsView, max_age_secs: u64, now: u64) -> ReadOutcome {
    if fields.recommended_profile is None {
        ReadOutcome::Missing("recommended_profile"@)
    } else if profile_parse(fields.recommended_profile->0) is Err {
        ReadOutcome::Missing("recommended_profile"@)
    } else if fields.confidence is None {
        ReadOutcome::Missing("confidence"@)
    } else if !in_unit_range(fields.confidence->0) {
        ReadOutcome::InvalidConfidence(fields.confidence->0)
    } else if fields.reason is None {
        ReadOutcome::Missing("reason"@)
    } else if fields.timestamp is None {
        ReadOutcome::Missing("timestamp"@)
    } else if !fresh_at(fields.timestamp->0, max_age_secs, now) {
        ReadOutcome::Stale {
            age_secs: age_at(fields.timestamp->0, now),
            max_age_secs,
        }
    } else {
        ReadOutcome::Read {
            profile: profile_parse(fields.recommended_profile->0)->Ok_0,
            confidence: fields.confidence->0,
            reason: fields.reason->0,
            timestamp: fields.timestamp->0,
            apply: match fields.apply {
                Some(a) => a,
                None => false,
            },
        }
    }
}

/// The fields that `serde_json` reads from the policy file's text.
pub open spec fn fields_in(text: Seq<char>) -> FieldsView {
    FieldsView {
        recommended_profile: json_str_member(text, "recommended_profile"@),
        confidence: match json_f64_bits_member(text, "confidence"@) {
            Some(b) => Some(Confidence { bits: b }),
            None => None,
        },
        reason: json_str_member(text, "reason"@),
        timestamp: json_u64_member(text, "timestamp"@),
        apply: json_bool_member(text, "apply"@),
    }
}

/// Whether `r` is the result that `outcome` describes.
pub open spec fn read_result_is(r: Result<PolicyRecommendation, PolicyReadError>, outcome: ReadOutcome) -> bool {
    match outcome {
        ReadOutcome::Missing(field) => r matches Err(PolicyReadError::MissingField(f)) && f@ == field,
        ReadOutcome::InvalidConfidence(c) => r == Err::<PolicyRecommendation, PolicyReadError>(
            PolicyReadError::InvalidConfidence(c),
        ),
        ReadOutcome::Stale { age_secs, max_age_secs } => r == Err::<PolicyRecommendation, PolicyReadError>(
            PolicyReadError::Stale { age_secs, max_age_secs },
        ),
        ReadOutcome::Read { profile, confidence, reason, timestamp, apply } => r matches Ok(rec)
            && rec.recommended_profile == profile && rec.confidence == confidence && rec.reason@ == reason
            && rec.timestamp == timestamp && rec.apply == apply,
    }
}

/// Reads the policy recommendation file.
#[derive(Debug, Clone)]
pub struct PolicyReader {
    path: String,
    max_age_secs: u64,
}

/// Default path of the policy recommendation file.
pub const DEFAULT_POLICY_PATH: &'static str = "/run/cerynth/policy.json";

/// Default maximum age of a recommendation, in seconds.
pub const DEFAULT_MAX_POLICY_AGE_SECS: u64 = 10;

impl PolicyReader {
    /// The path of the policy file.
    pub closed spec fn spec_path(&self) -> Seq<char> {
        self.path@
    }

    /// The maximum age of a fresh recommendation.
    pub closed spec fn spec_max_age(&self) -> u64 {
        self.max_age_secs
    }

    /// A reader of `/run/cerynth/policy.json` with a 10-second maximum age.
    pub fn new() -> (r: PolicyReader)
        ensures
            r.spec_path() == DEFAULT_POLICY_PATH@,
            r.spec_max_age() == DEFAULT_MAX_POLICY_AGE_SECS,
    {
        PolicyReader { path: owned(DEFAULT_POLICY_PATH), max_age_secs: DEFAULT_MAX_POLICY_AGE_SECS }
    }

    /// A reader of the given path with a 10-second maximum age.
    pub fn with_path(path: String) -> (r: PolicyReader)
        ensures
            r.spec_path() == path@,
            r.spec_max_age() == DEFAULT_MAX_POLICY_AGE_SECS,
    {
        PolicyReader { path, max_age_secs: DEFAULT_MAX_POLICY_AGE_SECS }
    }

    /// The same reader with another maximum age.
    pub fn with_max_age(self, max_age_secs: u64) -> (r: PolicyReader)
        ensures
            r.spec_path() == self.spec_path(),
            r.spec_max_age() == max_age_secs,
    {
        PolicyReader { max_age_secs, ..self }
    }

    /// The path of the policy file.
    pub fn path(&self) -> (r: &str)
        ensures
            r@ == self.spec_path(),
    {
        self.path.as_str()
    }

    /// The maximum age of a fresh recommendation.
    pub fn max_age_secs(&self) -> (r: u64)
        ensures
            r == self.spec_max_age(),
    {
        self.max_age_secs
    }

    /// Turns the fields of the policy file into a recommendation at time
    /// `now`: every required field must be present, the profile name must
    /// parse, the confidence must lie in `[0.0, 1.0]`, and the
    /// recommendation must be fresh.
    pub fn recommendation_from_fields(&self, fields: PolicyFields, now: u64) -> (r: Result<PolicyRecommendation, PolicyReadError>)
        ensures
            read_result_is(r, read_outcome(fields@, self.spec_max_age(), now)),
    {
        let ghost fields0 = fields;
        let PolicyFields { recommended_profile, confidence, reason, timestamp, apply } = fields;
        let name = match recommended_profile {
            Some(n) => n,
            None => return Err(PolicyReadError::MissingField(owned("recommended_profile"))),
        };
        let profile = match Profile::parse(name.as_str()) {
            Ok(p) => p,
            Err(_) => return Err(PolicyReadError::MissingField(owned("recommended_profile"))),
        };
        let confidence = match confidence {
            Some(c) => c,
            None => return Err(PolicyReadError::MissingField(owned("confidence"))),
        };
        if !(Confidence::zero().le(&confidence) && confidence.le(&Confidence::one())) {
            return Err(PolicyReadError::InvalidConfidence(confidence));
        }
        let reason = match reason {
            Some(r) => r,
            None => return Err(PolicyReadError::MissingField(owned("reason"))),
        };
        let timestamp = match timestamp {
            Some(t) => t,
            None => return Err(PolicyReadError::MissingField(owned("timestamp"))),
        };
        let apply = match apply {
            Some(a) => a,
            None => false,
        };
        let recommendation = PolicyRecommendation {
            recommended_profile: profile,
            confidence,
            reason,
            timestamp,
            apply,
        };
        if !recommendation.is_fresh_at(self.max_age_secs, now) {
            return Err(PolicyReadError::Stale {
                age_secs: recommendation.age_secs_at(now),
                max_age_secs: self.max_age_secs,
            });
        }
        Ok(recommendation)
    }

    /// The recommendation in the policy file's text at time `now`: a JSON
    /// error when the text is not JSON, otherwise what its fields give.
    pub fn read_contents(&self, contents: &str, now: u64) -> (r: Result<PolicyRecommendation, PolicyReadError>)
        ensures
            match json_parse_error(contents@) {
                Some(message) => r matches Err(PolicyReadError::Json { path, message: m })
                    && path@ == self.spec_path() && m@ == message,
                None => read_result_is(r, read_outcome(fields_in(contents@), self.spec_max_age(), now)),
            },
    {
        match parse_error(contents) {
            Some(message) => Err(PolicyReadError::Json { path: self.path.clone(), message }),
            None => {
                let fields = PolicyFields {
                    recommended_profile: str_member(contents, "recommended_profile"),
                    confidence: match f64_bits_member(contents, "confidence") {
                        Some(b) => Some(Confidence::from_bits(b)),
                        None => None,
                    },
                    reason: str_member(contents, "reason"),
                    timestamp: u64_member(contents, "timestamp"),
                    apply: bool_member(contents, "apply"),
                };
                assert(fields@ == fields_in(contents@));
                self.recommendation_from_fields(fields, now)
            },
        }
    }
}

impl Default for PolicyReader {
    fn default() -> (r: PolicyReader)
        ensures
            r.spec_path() == DEFAULT_POLICY_PATH@,
            r.spec_max_age() == DEFAULT_MAX_POLICY_AGE_SECS,
    {
        PolicyReader::new()
    }
}

/// Why a recommendation was not trusted.
#[derive(Debug, Clone, PartialEq)]
pub enum PolicyValidationError {
    /// The confidence is below the threshold.
    LowConfidence { confidence: Confidence, threshold: Confidence },
    /// The recommendation is older than the maximum age.
    StalePolicy { age_secs: u64, max_age_secs: u64 },
    /// The recommended profile is already the current profile.
    SameProfile { profile: Profile },
    /// The recommended profile is not valid.
    InvalidProfile(String),
}

impl PolicyValidationError {
    /// An equal copy of the error.
    pub fn duplicate(&self) -> (r: PolicyValidationError)
        ensures
            r == *self,
    {
        match self {
            PolicyValidationError::LowConfidence { confidence, threshold } => PolicyValidationError::LowConfidence {
                confidence: *confidence,
                threshold: *threshold,
            },
            PolicyValidationError::StalePolicy { age_secs, max_age_secs } => PolicyValidationError::StalePolicy {
                age_secs: *age_secs,
                max_age_secs: *max_age_secs,
            },
            PolicyValidationError::SameProfile { profile } => PolicyValidationError::SameProfile { profile: *profile },
            PolicyValidationError::InvalidProfile(p) => PolicyValidationError::InvalidProfile(p.clone()),
        }
    }
}

/// Result of policy validation.
#[derive(Debug, Clone, PartialEq)]
pub enum PolicyValidationResult {
    Accepted,
    Rejected(PolicyValidationError),
}

impl PolicyValidationResult {
    /// Whether the recommendation was accepted.
    pub fn is_accepted(&self) -> (r: bool)
        ensures
            r == (*self is Accepted),
    {
        match self {
            PolicyValidationResult::Accepted => true,
            PolicyValidationResult::Rejected(_) => false,
        }
    }

    /// The rejection reason, when rejected.
    pub fn rejection_reason(&self) -> (r: Option<&PolicyValidationError>)
        ensures
            match *self {
                PolicyValidationResult::Accepted => r is None,
                PolicyValidationResult::Rejected(e) => r == Some(&e),
            },
    {
        match self {
            PolicyValidationResult::Rejected(err) => Some(err),
            PolicyValidationResult::Accepted => None,
        }
    }
}

/// Validates whether a recommendation is trustworthy enough to consider.
#[derive(Debug, Clone)]
pub struct PolicyValidator {
    min_confidence: Confidence,
    max_age_secs: u64,
}

/// Encoding of `0.75`, the default minimum confidence.
pub const DEFAULT_MIN_CONFIDENCE_BITS: u64 = 0x3FE8_0000_0000_0000;

/// The verdict on `rec` against `current` at time `now`, with the given thresholds.
pub open spec fn validation_of(
    min_confidence: Confidence,
    max_age_secs: u64,
    rec: PolicyRecommendation,
    current: Profile,
    now: u64,
) -> PolicyValidationResult {
    if !le(min_confidence, rec.confidence) {
        PolicyValidationResult::Rejected(
            PolicyValidationError::LowConfidence { confidence: rec.confidence, threshold: min_confidence },
        )
    } else if !fresh_at(rec.timestamp, max_age_secs, now) {
        PolicyValidationResult::Rejected(
            PolicyValidationError::StalePolicy { age_secs: age_at(rec.timestamp, now), max_age_secs },
        )
    } else if rec.recommended_profile == current {
        PolicyValidationResult::Rejected(PolicyValidationError::SameProfile { profile: current })
    } else {
        PolicyValidationResult::Accepted
    }
}

impl PolicyValidator {
    /// The minimum confidence.
    pub closed spec fn spec_min_confidence(&self) -> Confidence {
        self.min_confidence
    }

    /// The maximum age.
    pub closed spec fn spec_max_age(&self) -> u64 {
        self.max_age_secs
    }

    /// A validator with minimum confidence `0.75` and maximum age 10 seconds.
    pub fn new() -> (r: PolicyValidator)
        ensures
            r.spec_min_confidence().bits == DEFAULT_MIN_CONFIDENCE_BITS,
            r.spec_max_age() == DEFAULT_MAX_POLICY_AGE_SECS,
    {
        PolicyValidator {
            min_confidence: Confidence::from_bits(DEFAULT_MIN_CONFIDENCE_BITS),
            max_age_secs: DEFAULT_MAX_POLICY_AGE_SECS,
        }
    }

    /// The same validator with another minimum confidence.
    pub fn with_min_confidence(self, min_confidence: Confidence) -> (r: PolicyValidator)
        ensures
            r.spec_min_confidence() == min_confidence,
            r.spec_max_age() == self.spec_max_age(),
    {
        PolicyValidator { min_confidence, ..self }
    }

    /// The same validator with another maximum age.
    pub fn with_max_age(self, max_age_secs: u64) -> (r: PolicyValidator)
        ensures
            r.spec_min_confidence() == self.spec_min_confidence(),
            r.spec_max_age() == max_age_secs,
    {
        PolicyValidator { max_age_secs, ..self }
    }

    /// Validates `recommendation` against the current profile at time `now`:
    /// the confidence must be at least the threshold (a NaN never is), the recommendation must be
    /// fresh, and it must differ from the current profile, checked in that order.
    pub fn validate_at(&self, recommendation: &PolicyRecommendation, current_profile: Profile, now: u64) -> (r: PolicyValidationResult)
        ensures
            r == validation_of(self.spec_min_confidence(), self.spec_max_age(), *recommendation, current_profile, now),
    {
        if !self.min_confidence.le(&recommendation.confidence) {
            return PolicyValidationResult::Rejected(PolicyValidationError::LowConfidence {
                confidence: recommendation.confidence,
                threshold: self.min_confidence,
            });
        }
        if !recommendation.is_fresh_at(self.max_age_secs, now) {
            return PolicyValidationResult::Rejected(PolicyValidationError::StalePolicy {
                age_secs: recommendation.age_secs_at(now),
                max_age_secs: self.max_age_secs,
            });
        }
        if recommendation.recommended_profile == current_profile {
            return PolicyValidationResult::Rejected(PolicyValidationError::SameProfile {
                profile: current_profile,
            });
        }
        PolicyValidationResult::Accepted
    }

    /// Validates `recommendation` against the current profile, by the wall clock.
    pub fn validate(&self, recommendation: &PolicyRecommendation, current_profile: Profile) -> (r: PolicyValidationResult)
        ensures
            exists|now: u64| r == validation_of(self.spec_min_confidence(), self.spec_max_age(), *recommendation, current_profile, now),
    {
        let now = unix_time_secs();
        self.validate_at(recommendation, current_profile, now)
    }
}

impl Default for PolicyValidator {
    fn default() -> (r: PolicyValidator)
        ensures
            r.spec_min_confidence().bits == DEFAULT_MIN_CONFIDENCE_BITS,
            r.spec_max_age() == DEFAULT_MAX_POLICY_AGE_SECS,
    {
        PolicyValidator::new()
    }
}

/// A recommendation is accepted exactly when its confidence is at least the
/// minimum, it is fresh, and it names another profile than the current one;
/// a NaN confidence is never accepted.
pub proof fn lemma_accepted_iff(
    min_confidence: Confidence,
    max_age_secs: u64,
    rec: PolicyRecommendation,
    current: Profile,
    now: u64,
)
    ensures
        validation_of(min_confidence, max_age_secs, rec, current, now) is Accepted <==> (
            le(min_confidence, rec.confidence)
            && fresh_at(rec.timestamp, max_age_secs, now)
            && rec.recommended_profile != current),
        is_nan(rec.confidence.bits) ==> validation_of(min_confidence, max_age_secs, rec, current, now) is Rejected,
{
}

/// A recommendation for the current profile is never accepted.
pub proof fn lemma_same_profile_never_accepted(
    min_confidence: Confidence,
    max_age_secs: u64,
    rec: PolicyRecommendation,
    now: u64,
)
    ensures
        !(validation_of(min_confidence, max_age_secs, rec, rec.recommended_profile, now) is Accepted),
{
}

} // verus!
