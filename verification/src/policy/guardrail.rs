//! The guardrail engine: the safety check that decides whether a profile
//! switch may proceed, and the bookkeeping of switches and failures.
use vstd::prelude::*;
use crate::ipc::backend::AdaptationMode;
use crate::ipc::profile::Profile;
use crate::policy::confidence::{Confidence, lt};
use crate::policy::recommendation::{PolicyRecommendation, sat_sub, DEFAULT_MIN_CONFIDENCE_BITS};

verus! {

/// Length of the rate-limiting window, in seconds.
pub const HOUR_SECS: u64 = 3600;

/// Guardrail violations that prevent a profile switch.
#[derive(Debug, Clone, Copy, PartialEq, Eq, Structural)]
pub enum GuardrailViolation {
    AdaptationDisabled,
    NotCanaryMode { mode: AdaptationMode },
    LowConfidence { confidence: Confidence, threshold: Confidence },
    DwellTimeNotMet { elapsed_secs: u64, min_dwell_secs: u64 },
    HourlyLimitExceeded { count: u32, limit: u32 },
    UnhealthyHeartbeat,
    TooManyFailures { count: u32 },
}

/// Result of a guardrail check.
#[derive(Debug, Clone, Copy, PartialEq, Eq, Structural)]
pub enum GuardrailResult {
    Allowed,
    Denied(GuardrailViolation),
}

impl GuardrailResult {
    /// Whether the switch may proceed.
    pub fn is_allowed(&self) -> (r: bool)
        ensures
            r == (*self is Allowed),
    {
        match self {
            GuardrailResult::Allowed => true,
            GuardrailResult::Denied(_) => false,
        }
    }

    /// The violation, when denied.
    pub fn violation(&self) -> (r: Option<&GuardrailViolation>)
        ensures
            match *self {
                GuardrailResult::Allowed => r is None,
                GuardrailResult::Denied(v) => r == Some(&v),
            },
    {
        match self {
            GuardrailResult::Denied(v) => Some(v),
            GuardrailResult::Allowed => None,
        }
    }
}

/// The state of a guardrail engine.
pub struct GuardrailView {
    pub current_profile: Profile,
    pub previous_good_profile: Option<Profile>,
    pub last_switch_time: Option<u64>,
    pub recent_switches: Seq<u64>,
    pub consecutive_failures: u32,
    pub adaptation_enabled: bool,
    pub adaptation_mode: AdaptationMode,
    pub min_confidence: Confidence,
    pub min_dwell_secs: u64,
    pub max_switches_per_hour: u32,
    pub max_consecutive_failures: u32,
}

/// Whether a switch at time `t` lies within the hour before `now`.
pub open spec fn is_recent(t: u64, now: u64) -> bool {
    sat_sub(now, t) < HOUR_SECS
}

/// The number of switch times in `s` within the hour before `now`.
pub open spec fn recent_count(s: Seq<u64>, now: u64) -> nat
    decreases s.len(),
{
    if s.len() == 0 {
        0
    } else {
        recent_count(s.drop_last(), now) + if is_recent(s.last(), now) { 1nat } else { 0nat }
    }
}

/// The switch times in `s` within the hour before `now`, in order.
pub open spec fn keep_recent(s: Seq<u64>, now: u64) -> Seq<u64>
    decreases s.len(),
{
    if s.len() == 0 {
        s
    } else if is_recent(s.last(), now) {
        keep_recent(s.drop_last(), now).push(s.last())
    } else {
        keep_recent(s.drop_last(), now)
    }
}

/// The verdict of the guardrails in state `g` on a switch with the given
/// confidence, heartbeat health and time: the first violated rule, in the
/// order enabled, canary mode, confidence, dwell time, hourly limit, heartbeat.
pub open spec fn switch_verdict(g: GuardrailView, confidence: Confidence, heartbeat_ok: bool, now: u64) -> GuardrailResult {
    if !g.adaptation_enabled {
        GuardrailResult::Denied(GuardrailViolation::AdaptationDisabled)
    } else if g.adaptation_mode != AdaptationMode::Canary {
        GuardrailResult::Denied(GuardrailViolation::NotCanaryMode { mode: g.adaptation_mode })
    } else if lt(confidence, g.min_confidence) {
        GuardrailResult::Denied(GuardrailViolation::LowConfidence { confidence, threshold: g.min_confidence })
    } else if g.last_switch_time is Some && sat_sub(now, g.last_switch_time->0) < g.min_dwell_secs {
        GuardrailResult::Denied(GuardrailViolation::DwellTimeNotMet {
            elapsed_secs: sat_sub(now, g.last_switch_time->0),
            min_dwell_secs: g.min_dwell_secs,
        })
    } else if (recent_count(g.recent_switches, now) as u32) >= g.max_switches_per_hour {
        GuardrailResult::Denied(GuardrailViolation::HourlyLimitExceeded {
            count: recent_count(g.recent_switches, now) as u32,
            limit: g.max_switches_per_hour,
        })
    } else if !heartbeat_ok {
        GuardrailResult::Denied(GuardrailViolation::UnhealthyHeartbeat)
    } else {
        GuardrailResult::Allowed
    }
}

/// The state after a successful switch to `new_profile` at `now`.
pub open spec fn after_success(g: GuardrailView, new_profile: Profile, now: u64) -> GuardrailView {
    GuardrailView {
        previous_good_profile: Some(g.current_profile),
        current_profile: new_profile,
        last_switch_time: Some(now),
        recent_switches: keep_recent(g.recent_switches.push(now), now),
        consecutive_failures: 0,
        ..g
    }
}

/// The state after a failed switch attempt.
pub open spec fn after_failure(g: GuardrailView) -> GuardrailView {
    let failures = if g.consecutive_failures == u32::MAX { u32::MAX } else { (g.consecutive_failures + 1) as u32 };
    GuardrailView {
        consecutive_failures: failures,
        adaptation_enabled: if failures >= g.max_consecutive_failures { false } else { g.adaptation_enabled },
        ..g
    }
}

/// The state after a switch that failed its health check and whose rollback
/// failed too: the failure is counted and adaptation is disabled, which
/// leaves the Linux scheduler in charge.
pub open spec fn after_failed_rollback(g: GuardrailView) -> GuardrailView {
    GuardrailView { adaptation_enabled: false, ..after_failure(g) }
}

/// The state after `k` failed switch attempts in a row.
pub open spec fn after_failures(g: GuardrailView, k: nat) -> GuardrailView
    decreases k,
{
    if k == 0 {
        g
    } else {
        after_failure(after_failures(g, (k - 1) as nat))
    }
}

/// Tracks switches and failures and decides whether a profile switch may
/// proceed.
#[derive(Debug, Clone)]
pub struct GuardrailEngine {
    current_profile: Profile,
    previous_good_profile: Option<Profile>,
    last_switch_time: Option<u64>,
    recent_switches: Vec<u64>,
    consecutive_failures: u32,
    adaptation_enabled: bool,
    adaptation_mode: AdaptationMode,
    min_confidence: Confidence,
    min_dwell_secs: u64,
    max_switches_per_hour: u32,
    max_consecutive_failures: u32,
}

impl View for GuardrailEngine {
    type V = GuardrailView;

    closed spec fn view(&self) -> GuardrailView {
        GuardrailView {
            current_profile: self.current_profile,
            previous_good_profile: self.previous_good_profile,
            last_switch_time: self.last_switch_time,
            recent_switches: self.recent_switches@,
            consecutive_failures: self.consecutive_failures,
            adaptation_enabled: self.adaptation_enabled,
            adaptation_mode: self.adaptation_mode,
            min_confidence: self.min_confidence,
            min_dwell_secs: self.min_dwell_secs,
            max_switches_per_hour: self.max_switches_per_hour,
            max_consecutive_failures: self.max_consecutive_failures,
        }
    }
}

/// The state of a new engine on `current_profile` with the default limits:
/// confidence `0.75`, dwell 15 s, 12 switches per hour, 3 failures.
pub open spec fn initial_guardrails(current_profile: Profile) -> GuardrailView {
    GuardrailView {
        current_profile,
        previous_good_profile: None,
        last_switch_time: None,
        recent_switches: Seq::empty(),
        consecutive_failures: 0,
        adaptation_enabled: true,
        adaptation_mode: AdaptationMode::Off,
        min_confidence: Confidence { bits: DEFAULT_MIN_CONFIDENCE_BITS },
        min_dwell_secs: 15,
        max_switches_per_hour: 12,
        max_consecutive_failures: 3,
    }
}

impl GuardrailEngine {
    /// A new engine on `current_profile` with the default limits.
    pub fn new(current_profile: Profile) -> (r: GuardrailEngine)
        ensures
            r@ == initial_guardrails(current_profile),
    {
        GuardrailEngine {
            current_profile,
            previous_good_profile: None,
            last_switch_time: None,
            recent_switches: Vec::new(),
            consecutive_failures: 0,
            adaptation_enabled: true,
            adaptation_mode: AdaptationMode::Off,
            min_confidence: Confidence::from_bits(DEFAULT_MIN_CONFIDENCE_BITS),
            min_dwell_secs: 15,
            max_switches_per_hour: 12,
            max_consecutive_failures: 3,
        }
    }

    /// A new engine on `current_profile` with the default limits.
    pub fn with_profile(current_profile: Profile) -> (r: GuardrailEngine)
        ensures
            r@ == initial_guardrails(current_profile),
    {
        GuardrailEngine::new(current_profile)
    }

    /// The same engine with another minimum confidence.
    pub fn with_min_confidence(self, min_confidence: Confidence) -> (r: GuardrailEngine)
        ensures
            r@ == (GuardrailView { min_confidence, ..self@ }),
    {
        GuardrailEngine { min_confidence, ..self }
    }

    /// The same engine with another minimum dwell time.
    pub fn with_min_dwell(self, min_dwell_secs: u64) -> (r: GuardrailEngine)
        ensures
            r@ == (GuardrailView { min_dwell_secs, ..self@ }),
    {
        GuardrailEngine { min_dwell_secs, ..self }
    }

    /// The same engine with another hourly switch limit.
    pub fn with_max_switches_per_hour(self, max_switches_per_hour: u32) -> (r: GuardrailEngine)
        ensures
            r@ == (GuardrailView { max_switches_per_hour, ..self@ }),
    {
        GuardrailEngine { max_switches_per_hour, ..self }
    }

    /// The same engine with another consecutive-failure limit.
    pub fn with_max_consecutive_failures(self, max_consecutive_failures: u32) -> (r: GuardrailEngine)
        ensures
            r@ == (GuardrailView { max_consecutive_failures, ..self@ }),
    {
        GuardrailEngine { max_consecutive_failures, ..self }
    }

    /// Enables or disables adaptation; disabling clears the failure count.
    pub fn set_adaptation_enabled(&mut self, enabled: bool)
        ensures
            final(self)@ == (GuardrailView {
                adaptation_enabled: enabled,
                consecutive_failures: if enabled { old(self)@.consecutive_failures } else { 0 },
                ..old(self)@
            }),
    {
        self.adaptation_enabled = enabled;
        if !enabled {
            self.consecutive_failures = 0;
        }
    }

    /// Sets the adaptation mode.
    pub fn set_adaptation_mode(&mut self, mode: AdaptationMode)
        ensures
            final(self)@ == (GuardrailView { adaptation_mode: mode, ..old(self)@ }),
    {
        self.adaptation_mode = mode;
    }

    /// The current profile.
    pub fn current_profile(&self) -> (r: Profile)
        ensures
            r == self@.current_profile,
    {
        self.current_profile
    }

    /// The profile before the last successful switch.
    pub fn previous_good_profile(&self) -> (r: Option<Profile>)
        ensures
            r == self@.previous_good_profile,
    {
        self.previous_good_profile
    }

    /// The number of consecutive failed switches.
    pub fn consecutive_failures(&self) -> (r: u32)
        ensures
            r == self@.consecutive_failures,
    {
        self.consecutive_failures
    }

    /// Whether adaptation is enabled.
    pub fn is_adaptation_enabled(&self) -> (r: bool)
        ensures
            r == self@.adaptation_enabled,
    {
        self.adaptation_enabled
    }

    /// The adaptation mode.
    pub fn adaptation_mode(&self) -> (r: AdaptationMode)
        ensures
            r == self@.adaptation_mode,
    {
        self.adaptation_mode
    }

    /// Checks whether a switch to the recommended profile may proceed, and
    /// names the first rule it would break.
    pub fn can_switch(&self, recommendation: &PolicyRecommendation, heartbeat_ok: bool, now: u64) -> (r: GuardrailResult)
        ensures
            r == switch_verdict(self@, recommendation.confidence, heartbeat_ok, now),
    {
        if !self.adaptation_enabled {
            return GuardrailResult::Denied(GuardrailViolation::AdaptationDisabled);
        }
        if self.adaptation_mode != AdaptationMode::Canary {
            return GuardrailResult::Denied(GuardrailViolation::NotCanaryMode { mode: self.adaptation_mode });
        }
        if recommendation.confidence.lt(&self.min_confidence) {
            return GuardrailResult::Denied(GuardrailViolation::LowConfidence {
                confidence: recommendation.confidence,
                threshold: self.min_confidence,
            });
        }
        if let Some(last_switch) = self.last_switch_time {
            let elapsed = now.saturating_sub(last_switch);
            if elapsed < self.min_dwell_secs {
                return GuardrailResult::Denied(GuardrailViolation::DwellTimeNotMet {
                    elapsed_secs: elapsed,
                    min_dwell_secs: self.min_dwell_secs,
                });
            }
        }
        let recent_count = self.count_recent_switches(now);
        if recent_count >= self.max_switches_per_hour {
            return GuardrailResult::Denied(GuardrailViolation::HourlyLimitExceeded {
                count: recent_count,
                limit: self.max_switches_per_hour,
            });
        }
        if !heartbeat_ok {
            return GuardrailResult::Denied(GuardrailViolation::UnhealthyHeartbeat);
        }
        GuardrailResult::Allowed
    }

    /// The number of switches within the hour before `now`, truncated to 32 bits.
    pub fn count_recent_switches(&self, now: u64) -> (r: u32)
        ensures
            r == recent_count(self@.recent_switches, now) as u32,
    {
        let n = self.recent_switches.len();
        let mut count: usize = 0;
        let mut i: usize = 0;
        while i < n
            invariant
                n == self.recent_switches@.len(),
                i <= n,
                count <= i,
                count == recent_count(self.recent_switches@.take(i as int), now),
            decreases n - i,
        {
            proof {
                assert(self.recent_switches@.take((i + 1) as int).drop_last()
                    =~= self.recent_switches@.take(i as int));
            }
            if now.saturating_sub(self.recent_switches[i]) < HOUR_SECS {
                count = count + 1;
            }
            i = i + 1;
        }
        proof {
            assert(self.recent_switches@.take(n as int) =~= self.recent_switches@);
        }
        count as u32
    }

    /// Records a successful switch to `new_profile` at `now`: the old profile
    /// becomes the previous good one, the switch is counted, failures reset,
    /// and switches older than an hour are forgotten.
    pub fn record_success(&mut self, new_profile: Profile, now: u64)
        ensures
            final(self)@ == after_success(old(self)@, new_profile, now),
    {
        self.previous_good_profile = Some(self.current_profile);
        self.current_profile = new_profile;
        self.last_switch_time = Some(now);
        self.recent_switches.push(now);
        self.consecutive_failures = 0;
        self.prune_old_switches(now);
    }

    /// Records a failed switch attempt; reaching the failure limit disables
    /// adaptation.
    pub fn record_failure(&mut self)
        ensures
            final(self)@ == after_failure(old(self)@),
    {
        self.consecutive_failures = self.consecutive_failures.saturating_add(1);
        if self.consecutive_failures >= self.max_consecutive_failures {
            self.adaptation_enabled = false;
        }
    }

    /// Records a switch whose rollback failed too: the failure is counted
    /// and adaptation is disabled.
    pub fn record_failed_rollback(&mut self)
        ensures
            final(self)@ == after_failed_rollback(old(self)@),
    {
        self.record_failure();
        self.adaptation_enabled = false;
    }

    fn prune_old_switches(&mut self, now: u64)
        ensures
            final(self)@ == (GuardrailView {
                recent_switches: keep_recent(old(self)@.recent_switches, now),
                ..old(self)@
            }),
    {
        let n = self.recent_switches.len();
        let mut kept: Vec<u64> = Vec::new();
        let mut i: usize = 0;
        while i < n
            invariant
                n == self.recent_switches@.len(),
                i <= n,
                kept@ == keep_recent(self.recent_switches@.take(i as int), now),
            decreases n - i,
        {
            proof {
                assert(self.recent_switches@.take((i + 1) as int).drop_last()
                    =~= self.recent_switches@.take(i as int));
            }
            let t = self.recent_switches[i];
            if now.saturating_sub(t) < HOUR_SECS {
                kept.push(t);
            }
            i = i + 1;
        }
        proof {
            assert(self.recent_switches@.take(n as int) =~= self.recent_switches@);
        }
        self.recent_switches = kept;
    }

    /// Clears the failure count and re-enables adaptation.
    pub fn reset_failures(&mut self)
        ensures
            final(self)@ == (GuardrailView {
                consecutive_failures: 0,
                adaptation_enabled: true,
                ..old(self)@
            }),
    {
        self.consecutive_failures = 0;
        if !self.adaptation_enabled {
            self.adaptation_enabled = true;
        }
    }
}

impl Default for GuardrailEngine {
    fn default() -> (r: GuardrailEngine)
        ensures
            r@ == initial_guardrails(Profile::Balanced),
    {
        GuardrailEngine::new(Profile::Balanced)
    }
}

/// Every switch time kept after pruning lies within the hour, and all of
/// them are counted.
pub proof fn lemma_keep_recent(s: Seq<u64>, now: u64)
    ensures
        forall|i: int| 0 <= i < keep_recent(s, now).len() ==> is_recent(#[trigger] keep_recent(s, now)[i], now),
        keep_recent(s, now).len() == recent_count(s, now),
        recent_count(keep_recent(s, now), now) == recent_count(s, now),
    decreases s.len(),
{
    if s.len() > 0 {
        lemma_keep_recent(s.drop_last(), now);
        let k = keep_recent(s.drop_last(), now);
        if is_recent(s.last(), now) {
            assert(k.push(s.last()).drop_last() =~= k);
        }
    }
}

/// A successful switch resets the failure count, remembers the old profile
/// as the previous good one, and (with a positive dwell time) blocks another
/// switch at the same moment.
pub proof fn lemma_success_then_dwell(g: GuardrailView, new_profile: Profile, now: u64, confidence: Confidence, heartbeat_ok: bool)
    requires
        g.adaptation_enabled,
        g.adaptation_mode == AdaptationMode::Canary,
        !lt(confidence, g.min_confidence),
        g.min_dwell_secs > 0,
    ensures
        after_success(g, new_profile, now).consecutive_failures == 0,
        after_success(g, new_profile, now).previous_good_profile == Some(g.current_profile),
        after_success(g, new_profile, now).current_profile == new_profile,
        switch_verdict(after_success(g, new_profile, now), confidence, heartbeat_ok, now)
            == GuardrailResult::Denied(GuardrailViolation::DwellTimeNotMet { elapsed_secs: 0, min_dwell_secs: g.min_dwell_secs }),
{
}

/// Once the failure count reaches the limit, adaptation is disabled and
/// every switch is denied until the failures are reset.
pub proof fn lemma_failures_disable(g: GuardrailView, confidence: Confidence, heartbeat_ok: bool, now: u64)
    requires
        g.consecutive_failures < u32::MAX,
        g.consecutive_failures + 1 >= g.max_consecutive_failures,
    ensures
        !after_failure(g).adaptation_enabled,
        switch_verdict(after_failure(g), confidence, heartbeat_ok, now)
            == GuardrailResult::Denied(GuardrailViolation::AdaptationDisabled),
{
}

/// A failure below the limit leaves adaptation as it was.
pub proof fn lemma_failure_below_limit(g: GuardrailView)
    requires
        g.consecutive_failures < u32::MAX,
        g.consecutive_failures + 1 < g.max_consecutive_failures,
    ensures
        after_failure(g).adaptation_enabled == g.adaptation_enabled,
        after_failure(g).consecutive_failures == g.consecutive_failures + 1,
{
}

/// An allowed switch meets every guardrail.
pub proof fn lemma_allowed_means_all_rules_hold(g: GuardrailView, confidence: Confidence, heartbeat_ok: bool, now: u64)
    requires
        switch_verdict(g, confidence, heartbeat_ok, now) is Allowed,
    ensures
        g.adaptation_enabled,
        g.adaptation_mode == AdaptationMode::Canary,
        !lt(confidence, g.min_confidence),
        g.last_switch_time is Some ==> sat_sub(now, g.last_switch_time->0) >= g.min_dwell_secs,
        (recent_count(g.recent_switches, now) as u32) < g.max_switches_per_hour,
        heartbeat_ok,
{
}

/// Failed switches in a row, counted from none with adaptation enabled,
/// leave adaptation enabled while their number stays below the limit; the
/// one that reaches the limit disables it, and from then on every switch is
/// denied.
pub proof fn lemma_consecutive_failures_disable(
    g: GuardrailView,
    k: nat,
    confidence: Confidence,
    heartbeat_ok: bool,
    now: u64,
)
    requires
        g.consecutive_failures == 0,
        g.adaptation_enabled,
        0 < k <= u32::MAX,
    ensures
        after_failures(g, k).consecutive_failures == k,
        after_failures(g, k).max_consecutive_failures == g.max_consecutive_failures,
        after_failures(g, k).adaptation_enabled == (k < g.max_consecutive_failures),
        k >= g.max_consecutive_failures ==> switch_verdict(after_failures(g, k), confidence, heartbeat_ok, now)
            == GuardrailResult::Denied(GuardrailViolation::AdaptationDisabled),
    decreases k,
{
    let before = after_failures(g, (k - 1) as nat);
    assert(after_failures(g, k) == after_failure(before));
    if k > 1 {
        lemma_consecutive_failures_disable(g, (k - 1) as nat, confidence, heartbeat_ok, now);
    } else {
        assert(before == g);
    }
}

} // verus!
