//! What the CLI prints for the daemon's answer.
use vstd::prelude::*;
use crate::ipc::backend::{backend_debug_name, mode_debug_name, SchedulerStatus};
use crate::ipc::profile::profile_debug_name;
use crate::ipc::protocol::ResponseEnvelope;
use crate::ipc::response::SocketResponse;
use crate::text::{join2, owned};

verus! {

/// One line of output and the stream it goes to.
#[derive(Debug, Clone, PartialEq, Eq)]
pub struct OutputLine {
    /// Whether the line goes to standard error rather than standard output.
    pub to_stderr: bool,
    /// The line's text, without the newline.
    pub text: String,
}

/// The lines describing a status.
pub open spec fn status_lines(s: SchedulerStatus) -> Seq<Seq<char>> {
    seq![
        "Current Profile : "@ + profile_debug_name(s.profile),
        "Backend         : "@ + backend_debug_name(s.backend),
        "Adaptation      : "@ + (if s.adaptation_enabled { "Enabled"@ } else { "Disabled"@ }),
        "Adaptation Mode : "@ + mode_debug_name(s.adaptation_mode),
        "Running         : "@ + (if s.running { "Yes"@ } else { "No"@ }),
        "sched_ext state : "@ + match s.sched_ext_state {
            Some(state) => state@,
            None => "not available"@,
        },
        "Heartbeat       : "@ + (if s.heartbeat_ok { "OK"@ } else { "stale/missing"@ }),
    ]
}

/// The lines printed for a response, with whether each goes to standard error.
pub open spec fn response_lines(r: SocketResponse) -> Seq<(bool, Seq<char>)> {
    match r {
        SocketResponse::Status { status } => status_lines(status).map_values(|l: Seq<char>| (false, l)),
        SocketResponse::Profile { profile } => seq![(false, "Current Profile : "@ + profile_debug_name(profile))],
        SocketResponse::AdaptationMode { mode } => seq![(false, "Adaptation Mode : "@ + mode_debug_name(mode))],
        SocketResponse::Success => seq![(false, "\u{2713} Success"@)],
        SocketResponse::Error { message } => seq![(true, "\u{2717} "@ + message@)],
        SocketResponse::Pong => seq![(false, "Pong"@)],
    }
}

/// Whether `lines` are the given lines.
pub open spec fn lines_are(lines: Seq<OutputLine>, expected: Seq<(bool, Seq<char>)>) -> bool {
    &&& lines.len() == expected.len()
    &&& forall|i: int| 0 <= i < lines.len() ==> #[trigger] lines[i].to_stderr == expected[i].0
        && lines[i].text@ == expected[i].1
}

fn out_line(text: String) -> (r: OutputLine)
    ensures
        !r.to_stderr,
        r.text == text,
{
    OutputLine { to_stderr: false, text }
}

/// The lines to print for the daemon's answer.
pub fn render_response(envelope: &ResponseEnvelope) -> (r: Vec<OutputLine>)
    ensures
        lines_are(r@, response_lines(envelope.response)),
{
    let mut lines: Vec<OutputLine> = Vec::new();
    match &envelope.response {
        SocketResponse::Status { status } => {
            lines.push(out_line(join2("Current Profile : ", status.profile.debug_name())));
            lines.push(out_line(join2("Backend         : ", status.backend.debug_name())));
            lines.push(out_line(join2("Adaptation      : ", if status.adaptation_enabled { "Enabled" } else { "Disabled" })));
            lines.push(out_line(join2("Adaptation Mode : ", status.adaptation_mode.debug_name())));
            lines.push(out_line(join2("Running         : ", if status.running { "Yes" } else { "No" })));
            let state: &str = match &status.sched_ext_state {
                Some(s) => s.as_str(),
                None => "not available",
            };
            lines.push(out_line(join2("sched_ext state : ", state)));
            lines.push(out_line(join2("Heartbeat       : ", if status.heartbeat_ok { "OK" } else { "stale/missing" })));
            proof {
                let expected = response_lines(envelope.response);
                assert(expected.len() == 7);
            }
        },
        SocketResponse::Profile { profile } => {
            lines.push(out_line(join2("Current Profile : ", profile.debug_name())));
        },
        SocketResponse::AdaptationMode { mode } => {
            lines.push(out_line(join2("Adaptation Mode : ", mode.debug_name())));
        },
        SocketResponse::Success => {
            lines.push(out_line(owned("\u{2713} Success")));
        },
        SocketResponse::Error { message } => {
            lines.push(OutputLine { to_stderr: true, text: join2("\u{2717} ", message.as_str()) });
        },
        SocketResponse::Pong => {
            lines.push(out_line(owned("Pong")));
        },
    }
    lines
}

/// The usage text printed when the command line is not understood.
pub fn usage_lines() -> (r: Vec<String>)
    ensures
        r@.len() == 6,
        r@[0]@ == "Usage:"@,
        r@[1]@ == "  cerynthctl status"@,
        r@[2]@ == "  cerynthctl profile get"@,
        r@[3]@ == "  cerynthctl profile set <balanced|interactive|performance|background>"@,
        r@[4]@ == "  cerynthctl adaptation pause"@,
        r@[5]@ == "  cerynthctl adaptation resume"@,
{
    let mut v: Vec<String> = Vec::new();
    v.push(owned("Usage:"));
    v.push(owned("  cerynthctl status"));
    v.push(owned("  cerynthctl profile get"));
    v.push(owned("  cerynthctl profile set <balanced|interactive|performance|background>"));
    v.push(owned("  cerynthctl adaptation pause"));
    v.push(owned("  cerynthctl adaptation resume"));
    v
}

} // verus!
