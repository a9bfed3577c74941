//! Parsing of `cerynthctl` command lines.
use vstd::prelude::*;
use crate::ipc::profile::{Profile, profile_named};
use crate::ipc::protocol::RequestEnvelope;
use crate::ipc::request::{Request, SocketRequest, socket_request_of};
use crate::text::str_equals;

verus! {

/// The characters of each argument.
pub open spec fn arg_chars(args: Seq<String>) -> Seq<Seq<char>> {
    args.map_values(|s: String| s@)
}

/// The request a command line asks for (`args[0]` is the program name).
pub open spec fn command_of(args: Seq<Seq<char>>) -> Option<Request> {
    if args.len() < 2 {
        None
    } else if args[1] == "status"@ {
        Some(Request::Status)
    } else if args[1] == "start"@ {
        Some(Request::Start)
    } else if args[1] == "stop"@ {
        Some(Request::Stop)
    } else if args[1] == "restart"@ {
        Some(Request::Restart)
    } else if args[1] == "profile"@ {
        if args.len() < 3 {
            None
        } else if args[2] == "get"@ {
            Some(Request::GetProfile)
        } else if args[2] == "set"@ {
            if args.len() < 4 {
                None
            } else {
                match profile_named(args[3]) {
                    Some(p) => Some(Request::SetProfile(p)),
                    None => None,
                }
            }
        } else {
            None
        }
    } else if args[1] == "adaptation"@ {
        if args.len() < 3 {
            None
        } else if args[2] == "pause"@ {
            Some(Request::PauseAdaptation)
        } else if args[2] == "resume"@ {
            Some(Request::ResumeAdaptation)
        } else {
            None
        }
    } else {
        None
    }
}

/// Parses a command line into a request; `None` for anything else (the
/// caller then prints the usage).
pub fn parse_command(args: &[String]) -> (r: Option<Request>)
    ensures
        r == command_of(arg_chars(args@)),
{
    let ghost a = arg_chars(args@);
    if args.len() < 2 {
        return None;
    }
    let cmd = args[1].as_str();
    assert(cmd@ == a[1]);
    if str_equals(cmd, "status") {
        return Some(Request::Status);
    }
    if str_equals(cmd, "start") {
        return Some(Request::Start);
    }
    if str_equals(cmd, "stop") {
        return Some(Request::Stop);
    }
    if str_equals(cmd, "restart") {
        return Some(Request::Restart);
    }
    if str_equals(cmd, "profile") {
        if args.len() < 3 {
            return None;
        }
        let sub = args[2].as_str();
        assert(sub@ == a[2]);
        if str_equals(sub, "get") {
            return Some(Request::GetProfile);
        }
        if str_equals(sub, "set") {
            if args.len() < 4 {
                return None;
            }
            let name = args[3].as_str();
            assert(name@ == a[3]);
            return match Profile::from_name(name) {
                Some(p) => Some(Request::SetProfile(p)),
                None => None,
            };
        }
        return None;
    }
    if str_equals(cmd, "adaptation") {
        if args.len() < 3 {
            return None;
        }
        let sub = args[2].as_str();
        assert(sub@ == a[2]);
        if str_equals(sub, "pause") {
            return Some(Request::PauseAdaptation);
        }
        if str_equals(sub, "resume") {
            return Some(Request::ResumeAdaptation);
        }
        return None;
    }
    None
}

/// The envelope the CLI sends for a request: the matching wire request at
/// the current protocol version, without correlation ID.
pub fn request_envelope(request: Request) -> (r: RequestEnvelope)
    ensures
        r.version == crate::ipc::protocol::PROTOCOL_VERSION,
        r.correlation_id is None,
        r.request == socket_request_of(request),
{
    RequestEnvelope::new(SocketRequest::from_request(request))
}

/// The command words and profile names are pairwise different.
proof fn lemma_words_distinct()
    ensures
        "status"@ != "start"@, "status"@ != "stop"@, "status"@ != "restart"@, "status"@ != "profile"@,
        "status"@ != "adaptation"@, "start"@ != "stop"@, "start"@ != "restart"@, "start"@ != "profile"@,
        "start"@ != "adaptation"@, "stop"@ != "restart"@, "stop"@ != "profile"@, "stop"@ != "adaptation"@,
        "restart"@ != "profile"@, "restart"@ != "adaptation"@, "profile"@ != "adaptation"@,
        "get"@ != "set"@, "pause"@ != "resume"@,
        "balanced"@ != "interactive"@, "balanced"@ != "performance"@, "balanced"@ != "background"@,
        "interactive"@ != "performance"@, "interactive"@ != "background"@, "performance"@ != "background"@,
{
    reveal_strlit("status");
    reveal_strlit("start");
    reveal_strlit("stop");
    reveal_strlit("restart");
    reveal_strlit("profile");
    reveal_strlit("adaptation");
    reveal_strlit("get");
    reveal_strlit("set");
    reveal_strlit("pause");
    reveal_strlit("resume");
    reveal_strlit("balanced");
    reveal_strlit("interactive");
    reveal_strlit("performance");
    reveal_strlit("background");
    assert("status"@.len() != "start"@.len());
    assert("status"@.len() != "stop"@.len());
    assert("status"@[0] != "restart"@[0]);
    assert("status"@[0] != "profile"@[0]);
    assert("status"@[0] != "adaptation"@[0]);
    assert("start"@.len() != "stop"@.len());
    assert("start"@[0] != "restart"@[0]);
    assert("start"@[0] != "profile"@[0]);
    assert("start"@[0] != "adaptation"@[0]);
    assert("stop"@[0] != "restart"@[0]);
    assert("stop"@[0] != "profile"@[0]);
    assert("stop"@[0] != "adaptation"@[0]);
    assert("restart"@[0] != "profile"@[0]);
    assert("restart"@[0] != "adaptation"@[0]);
    assert("profile"@[0] != "adaptation"@[0]);
    assert("get"@[0] != "set"@[0]);
    assert("pause"@[0] != "resume"@[0]);
    assert("balanced"@[0] != "interactive"@[0]);
    assert("balanced"@[0] != "performance"@[0]);
    assert("balanced"@[2] != "background"@[2]);
    assert("interactive"@[0] != "performance"@[0]);
    assert("interactive"@[0] != "background"@[0]);
    assert("performance"@[0] != "background"@[0]);
}

/// `profile set NAME` requests exactly the profile NAME names: each of the
/// four lower-case names gives its own profile, and a request to set a
/// profile comes only from the name of that profile.
pub proof fn lemma_profile_set_names_the_profile(args: Seq<Seq<char>>, p: Profile)
    requires
        args.len() >= 4,
        args[1] == "profile"@,
        args[2] == "set"@,
    ensures
        args[3] == "balanced"@ ==> command_of(args) == Some(Request::SetProfile(Profile::Balanced)),
        args[3] == "interactive"@ ==> command_of(args) == Some(Request::SetProfile(Profile::Interactive)),
        args[3] == "performance"@ ==> command_of(args) == Some(Request::SetProfile(Profile::Performance)),
        args[3] == "background"@ ==> command_of(args) == Some(Request::SetProfile(Profile::Background)),
        command_of(args) == Some(Request::SetProfile(p)) ==> args[3] == crate::ipc::profile::profile_name(p),
        command_of(args) is None <==> profile_named(args[3]) is None,
{
    lemma_words_distinct();
}

/// Each command word gives its own request, and arguments after the ones a
/// command reads are ignored.
pub proof fn lemma_command_words(args: Seq<Seq<char>>, extra: Seq<Seq<char>>)
    ensures
        args.len() >= 2 && args[1] == "status"@ ==> command_of(args) == Some(Request::Status),
        args.len() >= 2 && args[1] == "start"@ ==> command_of(args) == Some(Request::Start),
        args.len() >= 2 && args[1] == "stop"@ ==> command_of(args) == Some(Request::Stop),
        args.len() >= 2 && args[1] == "restart"@ ==> command_of(args) == Some(Request::Restart),
        args.len() >= 3 && args[1] == "profile"@ && args[2] == "get"@ ==> command_of(args) == Some(Request::GetProfile),
        args.len() >= 3 && args[1] == "adaptation"@ && args[2] == "pause"@
            ==> command_of(args) == Some(Request::PauseAdaptation),
        args.len() >= 3 && args[1] == "adaptation"@ && args[2] == "resume"@
            ==> command_of(args) == Some(Request::ResumeAdaptation),
        args.len() < 2 ==> command_of(args) is None,
        args.len() >= 4 ==> command_of(args + extra) == command_of(args),
{
    lemma_words_distinct();
    if args.len() >= 4 {
        let a2 = args + extra;
        assert(a2[1] == args[1] && a2[2] == args[2] && a2[3] == args[3]);
    }
}

} // verus!
