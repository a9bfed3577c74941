use cerynth::ipc::profile::Profile;
use cerynth::policy::audit::{AdaptationAuditEvent, AdaptationAuditLogger};
use cerynth::policy::confidence::Confidence;

fn conf(x: f64) -> Confidence {
    Confidence::from_bits(x.to_bits())
}

#[test]
fn iso_timestamp_is_rendered_in_utc() {
    let event = AdaptationAuditEvent::new_at("success".to_string(), 0).with_iso_timestamp();
    assert_eq!(event.timestamp_iso.as_deref(), Some("1970-01-01T00:00:00+00:00"));
    let event = AdaptationAuditEvent::new_at("success".to_string(), 1_700_000_000).with_iso_timestamp();
    assert_eq!(event.timestamp_iso.as_deref(), Some("2023-11-14T22:13:20+00:00"));
}

#[test]
fn builders_set_one_field_each() {
    let event = AdaptationAuditEvent::new_at("failed".to_string(), 5)
        .with_old_profile(Profile::Balanced)
        .with_new_profile(Profile::Performance)
        .with_confidence(conf(0.5))
        .with_reason("boom".to_string())
        .with_rollback(true)
        .with_rollback_result("failed".to_string())
        .with_scheduler_healthy(false)
        .with_extra("k".to_string(), serde_json::Value::Bool(true))
        .with_extra("k".to_string(), serde_json::Value::Bool(false));
    assert_eq!(event.timestamp, 5);
    assert_eq!(event.result, "failed");
    assert_eq!(event.old_profile, Some(Profile::Balanced));
    assert_eq!(event.new_profile, Some(Profile::Performance));
    assert_eq!(event.confidence, Some(conf(0.5)));
    assert_eq!(event.reason.as_deref(), Some("boom"));
    assert_eq!(event.rollback, Some(true));
    assert_eq!(event.rollback_result.as_deref(), Some("failed"));
    assert_eq!(event.scheduler_healthy, Some(false));
    assert_eq!(event.extra.last().map(|e| e.1.clone()), Some(serde_json::Value::Bool(false)));
}

#[test]
fn a_disabled_logger_records_nothing() {
    let mut logger = AdaptationAuditLogger::new().with_path("/tmp/audit.jsonl".to_string());
    assert_eq!(logger.path(), "/tmp/audit.jsonl");
    assert!(logger.is_enabled());
    let event = logger.log_success(Profile::Balanced, Profile::Interactive, conf(0.9), "typing", true).unwrap();
    assert_eq!(event.result, "success");
    assert_eq!(event.old_profile, Some(Profile::Balanced));
    assert_eq!(event.new_profile, Some(Profile::Interactive));
    assert!(event.timestamp_iso.is_some());
    logger.set_enabled(false);
    assert!(logger.log_rejected("low", conf(0.1), true).is_none());
    assert!(logger.log_shadow(Profile::Background, conf(0.8), "idle", true).is_none());
}

#[test]
fn rollback_events_record_the_outcome_not_the_error() {
    let logger = AdaptationAuditLogger::new();
    let event = logger.log_rollback(Profile::Performance, Profile::Balanced, false, Some("boom"), false).unwrap();
    assert_eq!(event.result, "rollback");
    assert_eq!(event.rollback, Some(true));
    assert_eq!(event.rollback_result.as_deref(), Some("failed"));
    assert_eq!(event.reason, None);
    let event = logger.log_failed(Profile::Balanced, Profile::Performance, "switch failed", true).unwrap();
    assert_eq!(event.reason.as_deref(), Some("switch failed"));
    assert_eq!(event.confidence, None);
}
