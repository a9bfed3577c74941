use std::time::{SystemTime, UNIX_EPOCH};

use cerynth::ipc::profile::Profile;
use cerynth::policy::confidence::Confidence;
use cerynth::policy::recommendation::{PolicyReadError, PolicyReader};

fn now_secs() -> u64 {
    SystemTime::now().duration_since(UNIX_EPOCH).unwrap().as_secs()
}

fn make_valid_json(profile: &str, confidence: f64, reason: &str, timestamp: u64, apply: bool) -> String {
    format!(
        "{{\"recommended_profile\":\"{profile}\",\"confidence\":{confidence},\"reason\":\"{reason}\",\"timestamp\":{timestamp},\"apply\":{apply}}}"
    )
}

fn test_file(name: &str) -> String {
    format!("target/test-policy-{name}.json")
}

#[test]
fn reads_valid_policy_file() {
    let now = now_secs();
    let json = make_valid_json("performance", 0.85, "High CPU usage", now, false);
    let reader = PolicyReader::with_path(test_file("valid")).with_max_age(60);
    let result = reader.read_contents(&json, now).unwrap();
    assert_eq!(result.recommended_profile, Profile::Performance);
    assert_eq!(result.confidence, Confidence::from_bits(0.85f64.to_bits()));
    assert_eq!(result.reason, "High CPU usage");
    assert!(result.is_fresh(60));
    assert!(!result.apply);
}

#[test]
fn rejects_invalid_json() {
    let reader = PolicyReader::with_path(test_file("invalid-json"));
    let err = reader.read_contents("not json", now_secs()).unwrap_err();
    assert!(matches!(err, PolicyReadError::Json { .. }));
}

#[test]
fn rejects_missing_recommended_profile() {
    let now = now_secs();
    let json = format!("{{\"confidence\":0.85,\"reason\":\"test\",\"timestamp\":{now}}}");
    let reader = PolicyReader::with_path(test_file("missing-profile"));
    let err = reader.read_contents(&json, now).unwrap_err();
    assert!(matches!(err, PolicyReadError::MissingField(_)));
}

#[test]
fn rejects_missing_confidence() {
    let now = now_secs();
    let json = format!("{{\"recommended_profile\":\"balanced\",\"reason\":\"test\",\"timestamp\":{now}}}");
    let reader = PolicyReader::with_path(test_file("missing-confidence"));
    let err = reader.read_contents(&json, now).unwrap_err();
    assert!(matches!(err, PolicyReadError::MissingField(_)));
}

#[test]
fn rejects_invalid_confidence_out_of_range() {
    let now = now_secs();
    let json = make_valid_json("balanced", 1.5, "test", now, false);
    let reader = PolicyReader::with_path(test_file("invalid-confidence"));
    let err = reader.read_contents(&json, now).unwrap_err();
    assert!(matches!(err, PolicyReadError::InvalidConfidence(_)));
}

#[test]
fn rejects_missing_reason() {
    let now = now_secs();
    let json = format!("{{\"recommended_profile\":\"balanced\",\"confidence\":0.85,\"timestamp\":{now}}}");
    let reader = PolicyReader::with_path(test_file("missing-reason"));
    let err = reader.read_contents(&json, now).unwrap_err();
    assert!(matches!(err, PolicyReadError::MissingField(_)));
}

#[test]
fn rejects_missing_timestamp() {
    let json = "{\"recommended_profile\":\"balanced\",\"confidence\":0.85,\"reason\":\"test\"}";
    let reader = PolicyReader::with_path(test_file("missing-timestamp"));
    let err = reader.read_contents(json, now_secs()).unwrap_err();
    assert!(matches!(err, PolicyReadError::MissingField(_)));
}

#[test]
fn lib_rejects_stale_policy() {
    let now = now_secs();
    let old = now.saturating_sub(20);
    let json = make_valid_json("balanced", 0.85, "test", old, false);
    let reader = PolicyReader::with_path(test_file("stale")).with_max_age(10);
    let err = reader.read_contents(&json, now).unwrap_err();
    assert!(matches!(err, PolicyReadError::Stale { .. }));
}

#[test]
fn reads_all_profiles() {
    let now = now_secs();
    for profile in [Profile::Balanced, Profile::Performance, Profile::Interactive, Profile::Background] {
        let json = make_valid_json(&profile.to_string().to_lowercase(), 0.85, "test", now, false);
        let reader =
            PolicyReader::with_path(test_file(&format!("profile-{}", profile.to_string().to_lowercase()))).with_max_age(60);
        let result = reader.read_contents(&json, now).unwrap();
        assert_eq!(result.recommended_profile, profile);
    }
}
