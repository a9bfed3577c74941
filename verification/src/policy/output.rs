//! The recommendation the live policy writes to the policy file.
use vstd::prelude::*;
use crate::ipc::profile::Profile;
use crate::policy::confidence::{Confidence, ONE_BITS};
use crate::policy::rules::PolicyDecision;
use crate::text::owned;

verus! {

/// A recommendation as the policy file holds it. Recommendations are
/// advisory only: `apply` is always `false`.
#[derive(Debug, Clone, PartialEq)]
pub struct PolicyOutput {
    pub recommended_profile: Profile,
    pub confidence: Confidence,
    pub reason: String,
    pub timestamp: u64,
    pub apply: bool,
}

impl PolicyOutput {
    /// The policy file entry for a decision made at `timestamp`.
    pub fn from_decision(decision: PolicyDecision, timestamp: u64) -> (r: PolicyOutput)
        ensures
            r.recommended_profile == decision.recommended_profile,
            r.confidence == decision.confidence,
            r.reason == decision.reason,
            r.timestamp == timestamp,
            !r.apply,
    {
        PolicyOutput {
            recommended_profile: decision.recommended_profile,
            confidence: decision.confidence,
            reason: decision.reason,
            timestamp,
            apply: false,
        }
    }

    /// The policy file entry written at `timestamp` when telemetry could not
    /// be collected: balanced, with full confidence, naming the error.
    pub fn telemetry_failure(error: &str, timestamp: u64) -> (r: PolicyOutput)
        ensures
            r.recommended_profile == Profile::Balanced,
            r.confidence.bits == ONE_BITS,
            r.reason@ == "Telemetry collection failed; defaulting to balanced: "@ + error@,
            r.timestamp == timestamp,
            !r.apply,
    {
        let mut reason = owned("Telemetry collection failed; defaulting to balanced: ");
        reason.append(error);
        PolicyOutput {
            recommended_profile: Profile::Balanced,
            confidence: Confidence::one(),
            reason,
            timestamp,
            apply: false,
        }
    }
}

} // verus!
