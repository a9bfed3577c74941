//! The rules-based policy's reading of the workload: which profile the
//! telemetry points to, and the evaluation that stabilises it.
//!
//! Telemetry figures are binary64 numbers held as their encodings, compared
//! with the IEEE ordering, like confidences.
use vstd::prelude::*;
use crate::ipc::profile::{profile_parse, Profile};
use crate::policy::confidence::{clamp_unit, is_finite, is_nan, le, lt, max_of, lemma_clamp_unit_range, lemma_unit_encodings_finite, Confidence, ONE_BITS};
use crate::policy::recommendation::in_unit_range;
use crate::policy::rules::{cooldown_text, dwell_text, stabilize_state, stabilized, PolicyDecision, RulesBasedPolicy, RulesView, Stabilized};
use crate::text::owned;

verus! {

/// Telemetry presented to the adaptive policy.
#[derive(Debug, Clone, Copy, PartialEq, Eq, Structural)]
pub struct PolicyInput {
    pub cpu_usage_percent: Confidence,
    pub load_1m: Confidence,
    pub runnable_tasks: u64,
    pub context_switch_rate: Confidence,
    pub short_lived_process_rate: Confidence,
    pub current_profile: Profile,
}

/// Encoding of `90.0`.
pub const NINETY_BITS: u64 = 0x4056_8000_0000_0000;
/// Encoding of `30.0`.
pub const THIRTY_BITS: u64 = 0x403E_0000_0000_0000;
/// Encoding of `10.0`.
pub const TEN_BITS: u64 = 0x4024_0000_0000_0000;
/// Encoding of `5.0`.
pub const FIVE_BITS: u64 = 0x4014_0000_0000_0000;
/// Encoding of `500.0`.
pub const FIVE_HUNDRED_BITS: u64 = 0x407F_4000_0000_0000;
/// Encoding of `1.0`.
pub const ONE_POINT_ZERO_BITS: u64 = 0x3FF0_0000_0000_0000;
/// Encoding of `0.5`.
pub const HALF_BITS: u64 = 0x3FE0_0000_0000_0000;
/// Encoding of `0.90`, the confidence of the low-load rule.
pub const LOW_LOAD_CONFIDENCE_BITS: u64 = 0x3FEC_CCCC_CCCC_CCCD;

/// What the telemetry shows, rule by rule in the order the policy applies them.
#[derive(Debug, Clone, Copy, PartialEq, Eq, Structural)]
pub enum Workload {
    /// A figure is infinite or NaN.
    InvalidTelemetry,
    /// CPU at least 90%, 1-minute load at least 1.0, two or more runnable tasks.
    Saturated,
    /// Two or more runnable tasks, with at least 500 context switches per
    /// second and three runnable tasks, or at least 5 short-lived processes
    /// per second.
    Responsive,
    /// CPU under 10%, load under 0.5, at most one runnable task, fewer than
    /// one short-lived process per second.
    Idle,
    /// CPU under 30% and at most one runnable task.
    LowLoad,
    /// None of the above.
    Ambiguous,
}

pub open spec fn b64(bits: u64) -> Confidence {
    Confidence { bits }
}

/// The workload the telemetry shows.
pub open spec fn workload_of(i: PolicyInput) -> Workload {
    if !is_finite(i.cpu_usage_percent.bits) || !is_finite(i.load_1m.bits) || !is_finite(
        i.context_switch_rate.bits,
    ) || !is_finite(i.short_lived_process_rate.bits) {
        Workload::InvalidTelemetry
    } else if le(b64(NINETY_BITS), i.cpu_usage_percent) && le(b64(ONE_POINT_ZERO_BITS), i.load_1m)
        && i.runnable_tasks >= 2 {
        Workload::Saturated
    } else if i.runnable_tasks >= 2 && ((le(b64(FIVE_HUNDRED_BITS), i.context_switch_rate)
        && i.runnable_tasks >= 3) || le(b64(FIVE_BITS), i.short_lived_process_rate)) {
        Workload::Responsive
    } else if lt(i.cpu_usage_percent, b64(TEN_BITS)) && lt(i.load_1m, b64(HALF_BITS)) && i.runnable_tasks
        <= 1 && lt(i.short_lived_process_rate, b64(ONE_POINT_ZERO_BITS)) {
        Workload::Idle
    } else if lt(i.cpu_usage_percent, b64(THIRTY_BITS)) && i.runnable_tasks <= 1 {
        Workload::LowLoad
    } else {
        Workload::Ambiguous
    }
}

/// The profile a workload points to.
pub open spec fn workload_profile(w: Workload) -> Profile {
    match w {
        Workload::Saturated => Profile::Performance,
        Workload::Responsive => Profile::Interactive,
        Workload::Idle => Profile::Background,
        _ => Profile::Balanced,
    }
}

/// The reason the policy gives for a workload.
pub open spec fn workload_reason(w: Workload) -> Seq<char> {
    match w {
        Workload::InvalidTelemetry => "Invalid telemetry; defaulting to balanced"@,
        Workload::Saturated => "Very high CPU utilisation with sustained runnable pressure"@,
        Workload::Responsive =>
            "High runnable load with frequent context switches or short-lived process activity"@,
        Workload::Idle => "Very low CPU utilisation and runnable pressure with minimal process activity"@,
        Workload::LowLoad => "Low CPU utilisation and low runnable load"@,
        Workload::Ambiguous => "Workload does not strongly match another profile"@,
    }
}

/// Whether the workload's confidence is a fixed value rather than a score of
/// the telemetry: invalid telemetry counts with `1.0`, low load with `0.90`.
pub open spec fn fixed_confidence(w: Workload) -> Option<Confidence> {
    match w {
        Workload::InvalidTelemetry => Some(b64(ONE_POINT_ZERO_BITS)),
        Workload::LowLoad => Some(b64(LOW_LOAD_CONFIDENCE_BITS)),
        _ => None,
    }
}

/// Classifies the telemetry.
pub fn classify(input: &PolicyInput) -> (r: Workload)
    ensures
        r == workload_of(*input),
{
    let ninety = Confidence::from_bits(NINETY_BITS);
    let thirty = Confidence::from_bits(THIRTY_BITS);
    let ten = Confidence::from_bits(TEN_BITS);
    let five = Confidence::from_bits(FIVE_BITS);
    let five_hundred = Confidence::from_bits(FIVE_HUNDRED_BITS);
    let one = Confidence::from_bits(ONE_POINT_ZERO_BITS);
    let half = Confidence::from_bits(HALF_BITS);
    if !input.cpu_usage_percent.is_finite() || !input.load_1m.is_finite() || !input.context_switch_rate.is_finite()
        || !input.short_lived_process_rate.is_finite() {
        Workload::InvalidTelemetry
    } else if ninety.le(&input.cpu_usage_percent) && one.le(&input.load_1m) && input.runnable_tasks >= 2 {
        Workload::Saturated
    } else if input.runnable_tasks >= 2 && ((five_hundred.le(&input.context_switch_rate)
        && input.runnable_tasks >= 3) || five.le(&input.short_lived_process_rate)) {
        Workload::Responsive
    } else if input.cpu_usage_percent.lt(&ten) && input.load_1m.lt(&half) && input.runnable_tasks <= 1
        && input.short_lived_process_rate.lt(&one) {
        Workload::Idle
    } else if input.cpu_usage_percent.lt(&thirty) && input.runnable_tasks <= 1 {
        Workload::LowLoad
    } else {
        Workload::Ambiguous
    }
}

impl Workload {
    /// The profile the workload points to.
    pub fn profile(&self) -> (r: Profile)
        ensures
            r == workload_profile(*self),
    {
        match self {
            Workload::Saturated => Profile::Performance,
            Workload::Responsive => Profile::Interactive,
            Workload::Idle => Profile::Background,
            _ => Profile::Balanced,
        }
    }

    /// The reason the policy gives for the workload.
    pub fn reason(&self) -> (r: String)
        ensures
            r@ == workload_reason(*self),
    {
        match self {
            Workload::InvalidTelemetry => owned("Invalid telemetry; defaulting to balanced"),
            Workload::Saturated => owned("Very high CPU utilisation with sustained runnable pressure"),
            Workload::Responsive => owned(
                "High runnable load with frequent context switches or short-lived process activity",
            ),
            Workload::Idle => owned("Very low CPU utilisation and runnable pressure with minimal process activity"),
            Workload::LowLoad => owned("Low CPU utilisation and low runnable load"),
            Workload::Ambiguous => owned("Workload does not strongly match another profile"),
        }
    }

    /// The workload's fixed confidence, if it has one.
    pub fn fixed_confidence(&self) -> (r: Option<Confidence>)
        ensures
            r == fixed_confidence(*self),
    {
        match self {
            Workload::InvalidTelemetry => Some(Confidence::from_bits(ONE_POINT_ZERO_BITS)),
            Workload::LowLoad => Some(Confidence::from_bits(LOW_LOAD_CONFIDENCE_BITS)),
            _ => None,
        }
    }
}

impl RulesBasedPolicy {
    /// Evaluates the telemetry. `workload_score` is the weighted score the
    /// telemetry gives the profile its workload points to; clamped to
    /// `[0.0, 1.0]`, it is the candidate's confidence unless the workload
    /// has a fixed one. Invalid telemetry is answered with a balanced
    /// recommendation at once; every other candidate goes through dwell-time
    /// and cooldown protection. The minimum confidence never changes, and
    /// whenever it lies in `[0.0, 1.0]` (as every constructor makes a
    /// minimum that is not NaN) the confidence returned is finite and lies
    /// between it and `1.0`, whatever the score.
    pub fn evaluate(&mut self, input: &PolicyInput, workload_score: Confidence) -> (r: PolicyDecision)
        ensures
            ({
                let w = workload_of(*input);
                let conf = max_of(
                    match fixed_confidence(w) {
                        Some(c) => c,
                        None => clamp_unit(workload_score),
                    },
                    old(self)@.min_confidence,
                );
                if w == Workload::InvalidTelemetry {
                    &&& final(self)@ == old(self)@
                    &&& r.recommended_profile == Profile::Balanced
                    &&& r.confidence == conf
                    &&& r.reason@ == workload_reason(w)
                } else {
                    let p = workload_profile(w);
                    &&& final(self)@ == stabilize_state(old(self)@, p, input.current_profile)
                    &&& match stabilized(old(self)@, p, input.current_profile) {
                        Stabilized::Pass => r.recommended_profile == p && r.confidence == conf
                            && r.reason@ == workload_reason(w),
                        Stabilized::HoldCooldown { accepted } => r.recommended_profile == accepted
                            && r.confidence == max_of(conf, old(self)@.min_confidence)
                            && r.reason@ == cooldown_text(accepted, p),
                        Stabilized::HoldDwell { accepted, count } => r.recommended_profile == accepted
                            && r.confidence == max_of(conf, old(self)@.min_confidence)
                            && r.reason@ == dwell_text(accepted, p, count, old(self)@.min_dwell_samples),
                    }
                }
            }),
            final(self)@.min_confidence == old(self)@.min_confidence,
            in_unit_range(old(self)@.min_confidence) ==> {
                &&& le(old(self)@.min_confidence, r.confidence)
                &&& le(r.confidence, b64(ONE_BITS))
                &&& is_finite(r.confidence.bits)
            },
    {
        proof {
            if in_unit_range(self@.min_confidence) {
                if !is_nan(workload_score.bits) {
                    lemma_clamp_unit_range(workload_score);
                }
                lemma_evaluate_confidence_bounds(self@.min_confidence, workload_of(*input), clamp_unit(workload_score));
            }
        }
        let w = classify(input);
        let confidence = match w.fixed_confidence() {
            Some(c) => c,
            None => workload_score.clamp_unit(),
        };
        let candidate = self.decision(w.profile(), confidence, w.reason());
        if let Workload::InvalidTelemetry = w {
            return candidate;
        }
        self.stabilize(candidate, input.current_profile)
    }
}

/// The profile the scheduler reports it runs, as telemetry records its name:
/// the profile that name parses to, balanced when there is none or it does
/// not parse.
pub fn current_profile(scheduler_profile: Option<&str>) -> (r: Profile)
    ensures
        r == match scheduler_profile {
            Some(name) => match profile_parse(name@) {
                Ok(p) => p,
                Err(_) => Profile::Balanced,
            },
            None => Profile::Balanced,
        },
{
    match scheduler_profile {
        Some(name) => match Profile::parse(name) {
            Ok(p) => p,
            Err(_) => Profile::Balanced,
        },
        None => Profile::Balanced,
    }
}

/// The confidence of an evaluation lies between the policy's minimum
/// confidence and `1.0`, and is finite, whenever the minimum lies in
/// `[0.0, 1.0]` (as the constructors make any minimum that is not NaN) and
/// the workload score is at most `1.0` or NaN: the candidate's confidence,
/// fixed or the score, is raised to the minimum, and a held decision raises
/// it to the minimum again.
pub proof fn lemma_evaluate_confidence_bounds(min_confidence: Confidence, w: Workload, workload_score: Confidence)
    requires
        in_unit_range(min_confidence),
        is_nan(workload_score.bits) || le(workload_score, b64(ONE_BITS)),
    ensures
        ({
            let conf = max_of(
                match fixed_confidence(w) {
                    Some(c) => c,
                    None => workload_score,
                },
                min_confidence,
            );
            &&& le(min_confidence, conf) && le(conf, b64(ONE_BITS)) && is_finite(conf.bits)
            &&& max_of(conf, min_confidence) == conf
        }),
{
    lemma_unit_encodings_finite(ONE_BITS);
    lemma_unit_encodings_finite(LOW_LOAD_CONFIDENCE_BITS);
    let conf = max_of(
        match fixed_confidence(w) {
            Some(c) => c,
            None => workload_score,
        },
        min_confidence,
    );
    lemma_unit_encodings_finite(conf.bits);
}

/// Whether every figure of the telemetry is a finite number.
pub open spec fn all_finite(i: PolicyInput) -> bool {
    is_finite(i.cpu_usage_percent.bits) && is_finite(i.load_1m.bits) && is_finite(i.context_switch_rate.bits)
        && is_finite(i.short_lived_process_rate.bits)
}

/// The rules of classification, in the order the policy applies them:
/// - telemetry with a figure that is infinite or NaN is invalid, and the
///   policy falls back to balanced;
/// - CPU at least 90%, load at least 1.0 and two or more runnable tasks is
///   saturation (performance), whatever the context-switch and short-lived
///   process rates;
/// - otherwise two or more runnable tasks with at least 500 context switches
///   per second and three runnable tasks, or at least 5 short-lived
///   processes per second, is responsive work (interactive);
/// - otherwise CPU under 10%, load under 0.5, at most one runnable task and
///   under one short-lived process per second is idle (background);
/// - otherwise CPU under 30% with at most one runnable task is low load
///   (balanced);
/// - anything else is ambiguous (balanced).
pub proof fn lemma_classification_rules(i: PolicyInput)
    ensures
        !all_finite(i) ==> workload_of(i) == Workload::InvalidTelemetry
            && workload_profile(workload_of(i)) == Profile::Balanced,
        all_finite(i) && le(b64(NINETY_BITS), i.cpu_usage_percent) && le(b64(ONE_POINT_ZERO_BITS), i.load_1m)
            && i.runnable_tasks >= 2 ==> workload_of(i) == Workload::Saturated
            && workload_profile(workload_of(i)) == Profile::Performance,
        all_finite(i) && !(le(b64(NINETY_BITS), i.cpu_usage_percent) && le(b64(ONE_POINT_ZERO_BITS), i.load_1m))
            && i.runnable_tasks >= 2 && ((le(b64(FIVE_HUNDRED_BITS), i.context_switch_rate)
            && i.runnable_tasks >= 3) || le(b64(FIVE_BITS), i.short_lived_process_rate))
            ==> workload_of(i) == Workload::Responsive && workload_profile(workload_of(i)) == Profile::Interactive,
        all_finite(i) && i.runnable_tasks <= 1 && lt(i.cpu_usage_percent, b64(TEN_BITS))
            && lt(i.load_1m, b64(HALF_BITS)) && lt(i.short_lived_process_rate, b64(ONE_POINT_ZERO_BITS))
            ==> workload_of(i) == Workload::Idle && workload_profile(workload_of(i)) == Profile::Background,
        all_finite(i) && i.runnable_tasks <= 1 && lt(i.cpu_usage_percent, b64(THIRTY_BITS))
            && !(lt(i.cpu_usage_percent, b64(TEN_BITS)) && lt(i.load_1m, b64(HALF_BITS))
            && lt(i.short_lived_process_rate, b64(ONE_POINT_ZERO_BITS)))
            ==> workload_of(i) == Workload::LowLoad && workload_profile(workload_of(i)) == Profile::Balanced,
        all_finite(i) && i.runnable_tasks <= 1 && !lt(i.cpu_usage_percent, b64(THIRTY_BITS))
            ==> workload_of(i) == Workload::Ambiguous,
        all_finite(i) && i.runnable_tasks >= 2 && !(le(b64(NINETY_BITS), i.cpu_usage_percent)
            && le(b64(ONE_POINT_ZERO_BITS), i.load_1m)) && !((le(b64(FIVE_HUNDRED_BITS), i.context_switch_rate)
            && i.runnable_tasks >= 3) || le(b64(FIVE_BITS), i.short_lived_process_rate))
            ==> workload_of(i) == Workload::Ambiguous,
{
    lemma_unit_encodings_finite(ONE_BITS);
    assert(!is_nan(TEN_BITS)) by (bit_vector);
    assert(!is_nan(THIRTY_BITS)) by (bit_vector);
}

/// The classification depends on the telemetry only, not on the profile the
/// scheduler runs; and a saturated workload stays saturated whatever its
/// context-switch and short-lived process rates (as long as they are finite).
pub proof fn lemma_classification_relations(i: PolicyInput, j: PolicyInput)
    ensures
        i.cpu_usage_percent == j.cpu_usage_percent && i.load_1m == j.load_1m
            && i.runnable_tasks == j.runnable_tasks && i.context_switch_rate == j.context_switch_rate
            && i.short_lived_process_rate == j.short_lived_process_rate ==> workload_of(i) == workload_of(j),
        workload_of(i) == Workload::Saturated && i.cpu_usage_percent == j.cpu_usage_percent
            && i.load_1m == j.load_1m && i.runnable_tasks == j.runnable_tasks && all_finite(j)
            ==> workload_of(j) == Workload::Saturated,
{
}

} // verus!
