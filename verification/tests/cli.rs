use cerynth::cli::commands::{parse_command, request_envelope};
use cerynth::cli::error::ClientError;
use cerynth::cli::output::{render_response, usage_lines, OutputLine};
use cerynth::ipc::backend::{AdaptationMode, SchedulerBackend, SchedulerStatus};
use cerynth::ipc::profile::Profile;
use cerynth::ipc::protocol::{ResponseEnvelope, PROTOCOL_VERSION};
use cerynth::ipc::request::{Request, SocketRequest};
use cerynth::ipc::response::SocketResponse;

fn args(words: &[&str]) -> Vec<String> {
    words.iter().map(|w| w.to_string()).collect()
}

fn out(text: &str) -> OutputLine {
    OutputLine { to_stderr: false, text: text.to_string() }
}

#[test]
fn parses_every_command() {
    assert_eq!(parse_command(&args(&["cerynthctl", "status"])), Some(Request::Status));
    assert_eq!(parse_command(&args(&["cerynthctl", "start"])), Some(Request::Start));
    assert_eq!(parse_command(&args(&["cerynthctl", "stop"])), Some(Request::Stop));
    assert_eq!(parse_command(&args(&["cerynthctl", "restart"])), Some(Request::Restart));
    assert_eq!(parse_command(&args(&["cerynthctl", "profile", "get"])), Some(Request::GetProfile));
    assert_eq!(
        parse_command(&args(&["cerynthctl", "profile", "set", "background"])),
        Some(Request::SetProfile(Profile::Background))
    );
    assert_eq!(parse_command(&args(&["cerynthctl", "adaptation", "pause"])), Some(Request::PauseAdaptation));
    assert_eq!(parse_command(&args(&["cerynthctl", "adaptation", "resume"])), Some(Request::ResumeAdaptation));
}

#[test]
fn rejects_incomplete_or_unknown_commands() {
    assert_eq!(parse_command(&args(&["cerynthctl"])), None);
    assert_eq!(parse_command(&args(&["cerynthctl", "profile"])), None);
    assert_eq!(parse_command(&args(&["cerynthctl", "profile", "set"])), None);
    assert_eq!(parse_command(&args(&["cerynthctl", "profile", "set", "Turbo"])), None);
    assert_eq!(parse_command(&args(&["cerynthctl", "profile", "set", "Balanced"])), None);
    assert_eq!(parse_command(&args(&["cerynthctl", "adaptation", "stop"])), None);
    assert_eq!(parse_command(&args(&["cerynthctl", "Status"])), None);
}

#[test]
fn request_envelope_wraps_the_socket_request() {
    let envelope = request_envelope(Request::SetProfile(Profile::Interactive));
    assert_eq!(envelope.version, PROTOCOL_VERSION);
    assert_eq!(envelope.correlation_id, None);
    assert_eq!(envelope.request, SocketRequest::SetProfile { profile: Profile::Interactive });
}

#[test]
fn renders_a_status() {
    let status = SchedulerStatus {
        profile: Profile::Performance,
        adaptation_enabled: true,
        adaptation_mode: AdaptationMode::Canary,
        backend: SchedulerBackend::Scx,
        running: true,
        sched_ext_state: None,
        heartbeat_ok: false,
    };
    let lines = render_response(&ResponseEnvelope::with_correlation_id(
        SocketResponse::Status { status },
        "id".to_string(),
    ));
    assert_eq!(
        lines,
        vec![
            out("Current Profile : Performance"),
            out("Backend         : Scx"),
            out("Adaptation      : Enabled"),
            out("Adaptation Mode : Canary"),
            out("Running         : Yes"),
            out("sched_ext state : not available"),
            out("Heartbeat       : stale/missing"),
        ]
    );
}

#[test]
fn renders_the_other_responses() {
    let render = |r: SocketResponse| render_response(&ResponseEnvelope::with_correlation_id(r, "x".to_string()));
    assert_eq!(render(SocketResponse::Profile { profile: Profile::Balanced }), vec![out("Current Profile : Balanced")]);
    assert_eq!(
        render(SocketResponse::AdaptationMode { mode: AdaptationMode::Shadow }),
        vec![out("Adaptation Mode : Shadow")]
    );
    assert_eq!(render(SocketResponse::Success), vec![out("\u{2713} Success")]);
    assert_eq!(render(SocketResponse::Pong), vec![out("Pong")]);
    assert_eq!(
        render(SocketResponse::Error { message: "nope".to_string() }),
        vec![OutputLine { to_stderr: true, text: "\u{2717} nope".to_string() }]
    );
}

#[test]
fn usage_lists_the_commands() {
    let usage = usage_lines();
    assert_eq!(usage.len(), 6);
    assert_eq!(usage[0], "Usage:");
    assert_eq!(usage[3], "  cerynthctl profile set <balanced|interactive|performance|background>");
}

#[test]
fn client_errors_describe_themselves() {
    assert_eq!(ClientError::InvalidResponse.to_string(), "Invalid response from daemon");
    let err: ClientError = std::io::Error::new(std::io::ErrorKind::Other, "refused").into();
    assert_eq!(err.to_string(), "Connection error: refused");
}
