//! Stabilisation of the rules-based policy's recommendations: a different
//! profile is only recommended after it has been the candidate for enough
//! consecutive evaluations, and a change starts a cooldown during which the
//! accepted profile is held.
use vstd::prelude::*;
use crate::ipc::profile::{Profile, profile_name};
use crate::policy::confidence::{Confidence, max_of, clamp_unit, is_nan, lemma_clamp_unit_range, lemma_unit_encodings_finite};
use crate::policy::recommendation::in_unit_range;
use crate::text::{owned, decimal, decimal_string};

verus! {

/// A recommendation produced by the policy.
#[derive(Debug, Clone, PartialEq)]
pub struct PolicyDecision {
    pub recommended_profile: Profile,
    pub confidence: Confidence,
    pub reason: String,
}

/// Encoding of `0.60`, the rules-based policy's default minimum confidence.
pub const DEFAULT_RULES_MIN_CONFIDENCE_BITS: u64 = 0x3FE3_3333_3333_3333;

/// The state of a rules-based policy.
pub struct RulesView {
    pub min_confidence: Confidence,
    pub min_dwell_samples: u32,
    pub cooldown_samples: u32,
    pub accepted_profile: Option<Profile>,
    pub pending_profile: Option<Profile>,
    pub pending_count: u32,
    pub cooldown_remaining: u32,
}

/// The rules-based adaptive policy's stabilisation state and settings.
#[derive(Debug, Clone)]
pub struct RulesBasedPolicy {
    min_confidence: Confidence,
    min_dwell_samples: u32,
    cooldown_samples: u32,
    accepted_profile: Option<Profile>,
    pending_profile: Option<Profile>,
    pending_count: u32,
    cooldown_remaining: u32,
}

impl View for RulesBasedPolicy {
    type V = RulesView;

    closed spec fn view(&self) -> RulesView {
        RulesView {
            min_confidence: self.min_confidence,
            min_dwell_samples: self.min_dwell_samples,
            cooldown_samples: self.cooldown_samples,
            accepted_profile: self.accepted_profile,
            pending_profile: self.pending_profile,
            pending_count: self.pending_count,
            cooldown_remaining: self.cooldown_remaining,
        }
    }
}

/// The default policy: minimum confidence `0.60`, three dwell samples, five
/// cooldown samples, nothing accepted yet.
pub open spec fn default_rules() -> RulesView {
    RulesView {
        min_confidence: Confidence { bits: DEFAULT_RULES_MIN_CONFIDENCE_BITS },
        min_dwell_samples: 3,
        cooldown_samples: 5,
        accepted_profile: None,
        pending_profile: None,
        pending_count: 0,
        cooldown_remaining: 0,
    }
}

/// The reason given while holding the accepted profile during a cooldown.
pub open spec fn cooldown_text(accepted: Profile, candidate: Profile) -> Seq<char> {
    "Holding "@ + profile_name(accepted) + " during profile-change cooldown; candidate "@
        + profile_name(candidate)
}

/// The reason given while waiting for enough consecutive samples.
pub open spec fn dwell_text(accepted: Profile, candidate: Profile, count: u32, needed: u32) -> Seq<char> {
    "Holding "@ + profile_name(accepted) + " until "@ + profile_name(candidate)
        + " consecutive samples support "@ + profile_name(candidate) + "; "@ + decimal(count as nat) + "/"@
        + decimal(needed as nat)
}

/// How stabilisation treats a candidate.
pub enum Stabilized {
    /// The candidate is passed through unchanged.
    Pass,
    /// The accepted profile is held because of the cooldown.
    HoldCooldown { accepted: Profile },
    /// The accepted profile is held until enough samples agree.
    HoldDwell { accepted: Profile, count: u32 },
}

/// The accepted profile, taking `current` when nothing was accepted yet.
pub open spec fn accepted_or(s: RulesView, current: Profile) -> Profile {
    match s.accepted_profile {
        Some(p) => p,
        None => current,
    }
}

/// The pending count after another sample for `candidate`.
pub open spec fn next_count(s: RulesView, candidate: Profile) -> u32 {
    if s.pending_profile == Some(candidate) {
        if s.pending_count == u32::MAX { u32::MAX } else { (s.pending_count + 1) as u32 }
    } else {
        1
    }
}

/// How a candidate is treated in state `s`.
pub open spec fn stabilized(s: RulesView, candidate: Profile, current: Profile) -> Stabilized {
    let accepted = accepted_or(s, current);
    if candidate == accepted {
        Stabilized::Pass
    } else if s.cooldown_remaining > 0 {
        Stabilized::HoldCooldown { accepted }
    } else if next_count(s, candidate) < s.min_dwell_samples {
        Stabilized::HoldDwell { accepted, count: next_count(s, candidate) }
    } else {
        Stabilized::Pass
    }
}

/// The state after stabilising a candidate.
pub open spec fn stabilize_state(s: RulesView, candidate: Profile, current: Profile) -> RulesView {
    let accepted = accepted_or(s, current);
    let s1 = RulesView { accepted_profile: Some(accepted), ..s };
    if candidate == accepted {
        RulesView {
            pending_profile: None,
            pending_count: 0,
            cooldown_remaining: if s.cooldown_remaining > 0 { (s.cooldown_remaining - 1) as u32 } else { 0 },
            ..s1
        }
    } else if s.cooldown_remaining > 0 {
        RulesView {
            pending_profile: None,
            pending_count: 0,
            cooldown_remaining: (s.cooldown_remaining - 1) as u32,
            ..s1
        }
    } else if next_count(s, candidate) < s.min_dwell_samples {
        RulesView { pending_profile: Some(candidate), pending_count: next_count(s, candidate), ..s1 }
    } else {
        RulesView {
            accepted_profile: Some(candidate),
            pending_profile: None,
            pending_count: 0,
            cooldown_remaining: s.cooldown_samples,
            ..s1
        }
    }
}

impl RulesBasedPolicy {
    /// The default policy.
    pub fn new() -> (r: RulesBasedPolicy)
        ensures
            r@ == default_rules(),
    {
        RulesBasedPolicy {
            min_confidence: Confidence::from_bits(DEFAULT_RULES_MIN_CONFIDENCE_BITS),
            min_dwell_samples: 3,
            cooldown_samples: 5,
            accepted_profile: None,
            pending_profile: None,
            pending_count: 0,
            cooldown_remaining: 0,
        }
    }

    /// The default policy with another minimum confidence, clamped to `[0.0, 1.0]`.
    pub fn with_min_confidence(min_confidence: Confidence) -> (r: RulesBasedPolicy)
        ensures
            r@ == (RulesView { min_confidence: clamp_unit(min_confidence), ..default_rules() }),
    {
        let mut p = RulesBasedPolicy::new();
        p.min_confidence = min_confidence.clamp_unit();
        p
    }

    /// The default policy with other stability settings: the minimum
    /// confidence clamped to `[0.0, 1.0]`, at least one dwell sample.
    pub fn with_stability_controls(min_confidence: Confidence, min_dwell_samples: u32, cooldown_samples: u32) -> (r: RulesBasedPolicy)
        ensures
            r@ == (RulesView {
                min_confidence: clamp_unit(min_confidence),
                min_dwell_samples: if min_dwell_samples >= 1 { min_dwell_samples } else { 1 },
                cooldown_samples,
                ..default_rules()
            }),
    {
        let mut p = RulesBasedPolicy::new();
        p.min_confidence = min_confidence.clamp_unit();
        p.min_dwell_samples = if min_dwell_samples >= 1 { min_dwell_samples } else { 1 };
        p.cooldown_samples = cooldown_samples;
        p
    }

    /// A decision for `profile`, its confidence raised to at least the
    /// minimum confidence.
    pub fn decision(&self, profile: Profile, confidence: Confidence, reason: String) -> (r: PolicyDecision)
        ensures
            r.recommended_profile == profile,
            r.confidence == max_of(confidence, self@.min_confidence),
            r.reason == reason,
    {
        PolicyDecision { recommended_profile: profile, confidence: confidence.max(self.min_confidence), reason }
    }

    /// Applies dwell-time and cooldown protection to a raw recommendation.
    /// `current_profile` seeds the accepted profile on the first evaluation.
    pub fn stabilize(&mut self, candidate: PolicyDecision, current_profile: Profile) -> (r: PolicyDecision)
        ensures
            final(self)@ == stabilize_state(old(self)@, candidate.recommended_profile, current_profile),
            match stabilized(old(self)@, candidate.recommended_profile, current_profile) {
                Stabilized::Pass => r == candidate,
                Stabilized::HoldCooldown { accepted } => {
                    &&& r.recommended_profile == accepted
                    &&& r.confidence == max_of(candidate.confidence, old(self)@.min_confidence)
                    &&& r.reason@ == cooldown_text(accepted, candidate.recommended_profile)
                },
                Stabilized::HoldDwell { accepted, count } => {
                    &&& r.recommended_profile == accepted
                    &&& r.confidence == max_of(candidate.confidence, old(self)@.min_confidence)
                    &&& r.reason@ == dwell_text(accepted, candidate.recommended_profile, count,
                        old(self)@.min_dwell_samples)
                },
            },
    {
        if self.accepted_profile.is_none() {
            self.accepted_profile = Some(current_profile);
        }
        let accepted = match self.accepted_profile {
            Some(p) => p,
            None => current_profile,
        };
        if candidate.recommended_profile == accepted {
            self.pending_profile = None;
            self.pending_count = 0;
            if self.cooldown_remaining > 0 {
                self.cooldown_remaining = self.cooldown_remaining - 1;
            }
            return candidate;
        }
        if self.cooldown_remaining > 0 {
            self.pending_profile = None;
            self.pending_count = 0;
            self.cooldown_remaining = self.cooldown_remaining - 1;
            let mut reason = owned("Holding ");
            let a = accepted.to_string();
            reason.append(a.as_str());
            reason.append(" during profile-change cooldown; candidate ");
            let c = candidate.recommended_profile.to_string();
            reason.append(c.as_str());
            return self.decision(accepted, candidate.confidence, reason);
        }
        if self.pending_profile == Some(candidate.recommended_profile) {
            self.pending_count = self.pending_count.saturating_add(1);
        } else {
            self.pending_profile = Some(candidate.recommended_profile);
            self.pending_count = 1;
        }
        if self.pending_count < self.min_dwell_samples {
            let mut reason = owned("Holding ");
            let a = accepted.to_string();
            reason.append(a.as_str());
            reason.append(" until ");
            let c = candidate.recommended_profile.to_string();
            reason.append(c.as_str());
            reason.append(" consecutive samples support ");
            reason.append(c.as_str());
            reason.append("; ");
            let n = decimal_string(self.pending_count as u64);
            reason.append(n.as_str());
            reason.append("/");
            let m = decimal_string(self.min_dwell_samples as u64);
            reason.append(m.as_str());
            return self.decision(accepted, candidate.confidence, reason);
        }
        self.accepted_profile = Some(candidate.recommended_profile);
        self.pending_profile = None;
        self.pending_count = 0;
        self.cooldown_remaining = self.cooldown_samples;
        candidate
    }

    /// The profile accepted so far, if any.
    pub fn accepted_profile(&self) -> (r: Option<Profile>)
        ensures
            r == self@.accepted_profile,
    {
        self.accepted_profile
    }

    /// The minimum confidence.
    pub fn min_confidence(&self) -> (r: Confidence)
        ensures
            r == self@.min_confidence,
    {
        self.min_confidence
    }
}

impl Default for RulesBasedPolicy {
    fn default() -> (r: RulesBasedPolicy)
        ensures
            r@ == default_rules(),
    {
        RulesBasedPolicy::new()
    }
}

/// While a cooldown is running, the recommended profile is the accepted one.
pub proof fn lemma_cooldown_holds(s: RulesView, candidate: Profile, current: Profile)
    requires
        s.cooldown_remaining > 0,
    ensures
        match stabilized(s, candidate, current) {
            Stabilized::Pass => candidate == accepted_or(s, current),
            Stabilized::HoldCooldown { accepted } => accepted == accepted_or(s, current),
            Stabilized::HoldDwell { .. } => false,
        },
        stabilize_state(s, candidate, current).cooldown_remaining == s.cooldown_remaining - 1,
        candidate != accepted_or(s, current) ==> stabilize_state(s, candidate, current).pending_profile is None
            && stabilize_state(s, candidate, current).pending_count == 0
            && stabilize_state(s, candidate, current).accepted_profile == Some(accepted_or(s, current)),
{
}

/// A profile other than the accepted one is passed through only without a
/// cooldown and once enough consecutive samples support it; it then becomes
/// the accepted profile and starts a cooldown.
pub proof fn lemma_change_needs_dwell(s: RulesView, candidate: Profile, current: Profile)
    requires
        candidate != accepted_or(s, current),
        stabilized(s, candidate, current) is Pass,
    ensures
        s.cooldown_remaining == 0,
        next_count(s, candidate) >= s.min_dwell_samples,
        stabilize_state(s, candidate, current).accepted_profile == Some(candidate),
        stabilize_state(s, candidate, current).cooldown_remaining == s.cooldown_samples,
{
}

/// Held decisions never fall below the minimum confidence.
pub proof fn lemma_held_confidence(candidate: Confidence, min_confidence: Confidence)
    requires
        !crate::policy::confidence::is_nan(min_confidence.bits),
    ensures
        !crate::policy::confidence::lt(max_of(candidate, min_confidence), min_confidence),
{
}

/// Every policy the constructors make has its minimum confidence in
/// `[0.0, 1.0]`: the default `0.60`, or any given minimum that is not NaN,
/// clamped.
pub proof fn lemma_constructed_min_confidence(min_confidence: Confidence)
    requires
        !is_nan(min_confidence.bits),
    ensures
        in_unit_range(default_rules().min_confidence),
        in_unit_range(clamp_unit(min_confidence)),
{
    lemma_unit_encodings_finite(DEFAULT_RULES_MIN_CONFIDENCE_BITS);
    lemma_unit_encodings_finite(0);
    lemma_unit_encodings_finite(0x3FF0_0000_0000_0000);
    lemma_clamp_unit_range(min_confidence);
}

/// A sample naming the accepted profile (or the running profile when
/// nothing was accepted yet) is passed through, keeps that profile
/// accepted, and clears any pending change: the dwell count starts over.
pub proof fn lemma_accepted_sample_clears_pending(s: RulesView, current: Profile)
    ensures
        ({
            let a = accepted_or(s, current);
            let t = stabilize_state(s, a, current);
            &&& stabilized(s, a, current) is Pass
            &&& t.accepted_profile == Some(a)
            &&& t.pending_profile is None
            &&& t.pending_count == 0
            &&& t.cooldown_remaining == if s.cooldown_remaining > 0 { s.cooldown_remaining - 1 } else { 0 }
        }),
{
}

/// The dwell count only counts consecutive samples: once a sample naming
/// the accepted profile comes between, a different profile is held again
/// (with a count of one) however many samples named it before, unless a
/// single sample suffices.
pub proof fn lemma_interrupted_dwell_restarts(s: RulesView, candidate: Profile, current: Profile)
    requires
        candidate != accepted_or(s, current),
        s.min_dwell_samples >= 2,
    ensures
        ({
            let a = accepted_or(s, current);
            let t = stabilize_state(s, a, current);
            &&& !(stabilized(t, candidate, current) is Pass)
            &&& t.cooldown_remaining == 0 ==> stabilized(t, candidate, current)
                == (Stabilized::HoldDwell { accepted: a, count: 1 })
        }),
{
}

/// Without a cooldown, each further consecutive sample for the same
/// different profile raises its count by one; the profile is passed through
/// (and accepted, starting a cooldown) exactly when the count reaches the
/// dwell setting.
pub proof fn lemma_consecutive_samples_count(s: RulesView, candidate: Profile, current: Profile, k: u32)
    requires
        candidate != accepted_or(s, current),
        s.cooldown_remaining == 0,
        s.pending_profile == Some(candidate),
        s.pending_count == k,
        k < u32::MAX,
    ensures
        (stabilized(s, candidate, current) is Pass) == (k + 1 >= s.min_dwell_samples),
        k + 1 < s.min_dwell_samples ==> stabilize_state(s, candidate, current).pending_count == k + 1
            && stabilize_state(s, candidate, current).pending_profile == Some(candidate)
            && stabilize_state(s, candidate, current).accepted_profile == Some(accepted_or(s, current)),
        k + 1 >= s.min_dwell_samples ==> stabilize_state(s, candidate, current).accepted_profile == Some(candidate)
            && stabilize_state(s, candidate, current).cooldown_remaining == s.cooldown_samples
            && stabilize_state(s, candidate, current).pending_profile is None,
{
}

} // verus!
