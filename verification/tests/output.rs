use cerynth::ipc::profile::Profile;
use cerynth::policy::confidence::Confidence;
use cerynth::policy::output::PolicyOutput;
use cerynth::policy::rules::PolicyDecision;

fn conf(x: f64) -> Confidence {
    Confidence::from_bits(x.to_bits())
}

#[test]
fn decisions_are_written_without_apply() {
    let decision = PolicyDecision {
        recommended_profile: Profile::Interactive,
        confidence: conf(0.84),
        reason: "High runnable load".to_string(),
    };
    let output = PolicyOutput::from_decision(decision, 1_785_990_000);
    assert_eq!(output.recommended_profile, Profile::Interactive);
    assert_eq!(output.confidence, conf(0.84));
    assert_eq!(output.reason, "High runnable load");
    assert_eq!(output.timestamp, 1_785_990_000);
    assert!(!output.apply);
}

#[test]
fn telemetry_failure_defaults_to_balanced() {
    let output = PolicyOutput::telemetry_failure("no /proc/stat", 42);
    assert_eq!(output.recommended_profile, Profile::Balanced);
    assert_eq!(output.confidence, conf(1.0));
    assert_eq!(output.reason, "Telemetry collection failed; defaulting to balanced: no /proc/stat");
    assert_eq!(output.timestamp, 42);
    assert!(!output.apply);
}
