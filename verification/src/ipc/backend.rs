//! Scheduler backends, adaptation modes and the status reported by the daemon.
use vstd::prelude::*;
use crate::ipc::profile::Profile;
use crate::text::{to_lowercase, str_equals, owned, join2, unicode_lowercase};

verus! {

/// The scheduler backend implementation in use.
///
/// The mock backend is used when no real scheduler is available; the SCX
/// backend drives the sched_ext-based `cerynth-scx` scheduler.
#[derive(Debug, Clone, Copy, PartialEq, Eq, Hash, Structural)]
pub enum SchedulerBackend {
    /// In-process stand-in used by tests and before the real backend is wired up.
    Mock,
    /// Drives a real `cerynth-scx` child process via sched_ext.
    Scx,
}

/// The lowercase wire name of a backend.
pub open spec fn backend_name(b: SchedulerBackend) -> Seq<char> {
    match b {
        SchedulerBackend::Mock => "mock"@,
        SchedulerBackend::Scx => "scx"@,
    }
}

/// The variant name of a backend.
pub open spec fn backend_debug_name(b: SchedulerBackend) -> Seq<char> {
    match b {
        SchedulerBackend::Mock => "Mock"@,
        SchedulerBackend::Scx => "Scx"@,
    }
}

/// The backend whose wire name is `name`, if any.
pub open spec fn backend_named(name: Seq<char>) -> Option<SchedulerBackend> {
    if name == "mock"@ {
        Some(SchedulerBackend::Mock)
    } else if name == "scx"@ {
        Some(SchedulerBackend::Scx)
    } else {
        None
    }
}

/// The result of parsing `s` as a backend, case-insensitively.
pub open spec fn backend_parse(s: Seq<char>) -> Result<SchedulerBackend, Seq<char>> {
    match backend_named(unicode_lowercase(s)) {
        Some(b) => Ok(b),
        None => Err("unknown scheduler backend: "@ + s),
    }
}

/// Parsing the name of a backend gives back that backend.
pub proof fn lemma_backend_name_roundtrip(b: SchedulerBackend)
    ensures
        backend_named(backend_name(b)) == Some(b),
{
    reveal_strlit("mock");
    reveal_strlit("scx");
    assert("mock"@[0] != "scx"@[0]);
}

impl SchedulerBackend {
    /// Returns all available backends.
    pub fn all() -> (r: [SchedulerBackend; 2])
        ensures
            r@ == seq![SchedulerBackend::Mock, SchedulerBackend::Scx],
    {
        [SchedulerBackend::Mock, SchedulerBackend::Scx]
    }

    /// The lowercase name of the backend.
    pub fn to_string(&self) -> (r: String)
        ensures
            r@ == backend_name(*self),
    {
        match self {
            SchedulerBackend::Mock => owned("mock"),
            SchedulerBackend::Scx => owned("scx"),
        }
    }

    /// The variant name ("Mock" or "Scx"), as debug output shows it.
    pub fn debug_name(&self) -> (r: &'static str)
        ensures
            r@ == backend_debug_name(*self),
    {
        match self {
            SchedulerBackend::Mock => "Mock",
            SchedulerBackend::Scx => "Scx",
        }
    }

    /// Parses a backend name, ignoring case.
    pub fn parse(s: &str) -> (r: Result<SchedulerBackend, String>)
        ensures
            match r {
                Ok(b) => backend_parse(s@) == Ok::<SchedulerBackend, Seq<char>>(b),
                Err(e) => backend_parse(s@) == Err::<SchedulerBackend, Seq<char>>(e@),
            },
    {
        let lowered = to_lowercase(s);
        if str_equals(lowered.as_str(), "mock") {
            Ok(SchedulerBackend::Mock)
        } else if str_equals(lowered.as_str(), "scx") {
            Ok(SchedulerBackend::Scx)
        } else {
            Err(join2("unknown scheduler backend: ", s))
        }
    }
}

impl std::str::FromStr for SchedulerBackend {
    type Err = String;

    fn from_str(s: &str) -> (r: Result<SchedulerBackend, String>)
        ensures
            match r {
                Ok(b) => backend_parse(s@) == Ok::<SchedulerBackend, Seq<char>>(b),
                Err(e) => backend_parse(s@) == Err::<SchedulerBackend, Seq<char>>(e@),
            },
    {
        SchedulerBackend::parse(s)
    }
}

/// Whether and how the daemon applies policy recommendations.
///
/// - `Off`: no adaptation; the daemon never reads or acts on policy.
/// - `Shadow`: reads policy and logs recommendations but never switches the scheduler.
/// - `Canary`: reads policy, validates the recommendation, and applies a guarded switch.
#[derive(Debug, Clone, Copy, PartialEq, Eq, Hash, Structural)]
pub enum AdaptationMode {
    Off,
    Shadow,
    Canary,
}

/// The lowercase wire name of an adaptation mode.
pub open spec fn mode_name(m: AdaptationMode) -> Seq<char> {
    match m {
        AdaptationMode::Off => "off"@,
        AdaptationMode::Shadow => "shadow"@,
        AdaptationMode::Canary => "canary"@,
    }
}

/// The variant name of an adaptation mode.
pub open spec fn mode_debug_name(m: AdaptationMode) -> Seq<char> {
    match m {
        AdaptationMode::Off => "Off"@,
        AdaptationMode::Shadow => "Shadow"@,
        AdaptationMode::Canary => "Canary"@,
    }
}

/// The adaptation mode whose wire name is `name`, if any.
pub open spec fn mode_named(name: Seq<char>) -> Option<AdaptationMode> {
    if name == "off"@ {
        Some(AdaptationMode::Off)
    } else if name == "shadow"@ {
        Some(AdaptationMode::Shadow)
    } else if name == "canary"@ {
        Some(AdaptationMode::Canary)
    } else {
        None
    }
}

/// The result of parsing `s` as an adaptation mode, case-insensitively.
pub open spec fn mode_parse(s: Seq<char>) -> Result<AdaptationMode, Seq<char>> {
    match mode_named(unicode_lowercase(s)) {
        Some(m) => Ok(m),
        None => Err("unknown adaptation mode: "@ + s),
    }
}

/// Parsing the name of a mode gives back that mode.
pub proof fn lemma_mode_name_roundtrip(m: AdaptationMode)
    ensures
        mode_named(mode_name(m)) == Some(m),
{
    reveal_strlit("off");
    reveal_strlit("shadow");
    reveal_strlit("canary");
    assert("off"@[0] != "shadow"@[0]);
    assert("off"@[0] != "canary"@[0]);
    assert("shadow"@[0] != "canary"@[0]);
}

impl AdaptationMode {
    /// Returns all available adaptation modes in declaration order.
    pub fn all() -> (r: [AdaptationMode; 3])
        ensures
            r@ == seq![AdaptationMode::Off, AdaptationMode::Shadow, AdaptationMode::Canary],
    {
        [AdaptationMode::Off, AdaptationMode::Shadow, AdaptationMode::Canary]
    }

    /// The lowercase name of the mode.
    pub fn to_string(&self) -> (r: String)
        ensures
            r@ == mode_name(*self),
    {
        match self {
            AdaptationMode::Off => owned("off"),
            AdaptationMode::Shadow => owned("shadow"),
            AdaptationMode::Canary => owned("canary"),
        }
    }

    /// The variant name ("Off", "Shadow" or "Canary"), as debug output shows it.
    pub fn debug_name(&self) -> (r: &'static str)
        ensures
            r@ == mode_debug_name(*self),
    {
        match self {
            AdaptationMode::Off => "Off",
            AdaptationMode::Shadow => "Shadow",
            AdaptationMode::Canary => "Canary",
        }
    }

    /// Parses a mode name, ignoring case.
    pub fn parse(s: &str) -> (r: Result<AdaptationMode, String>)
        ensures
            match r {
                Ok(m) => mode_parse(s@) == Ok::<AdaptationMode, Seq<char>>(m),
                Err(e) => mode_parse(s@) == Err::<AdaptationMode, Seq<char>>(e@),
            },
    {
        let lowered = to_lowercase(s);
        if str_equals(lowered.as_str(), "off") {
            Ok(AdaptationMode::Off)
        } else if str_equals(lowered.as_str(), "shadow") {
            Ok(AdaptationMode::Shadow)
        } else if str_equals(lowered.as_str(), "canary") {
            Ok(AdaptationMode::Canary)
        } else {
            Err(join2("unknown adaptation mode: ", s))
        }
    }
}

impl std::str::FromStr for AdaptationMode {
    type Err = String;

    fn from_str(s: &str) -> (r: Result<AdaptationMode, String>)
        ensures
            match r {
                Ok(v) => mode_parse(s@) == Ok::<AdaptationMode, Seq<char>>(v),
                Err(e) => mode_parse(s@) == Err::<AdaptationMode, Seq<char>>(e@),
            },
    {
        AdaptationMode::parse(s)
    }
}

/// Status information returned by the scheduler daemon: the current profile,
/// adaptation state, active backend, and health signals for the scheduler.
#[derive(Debug, Clone, PartialEq, Eq)]
pub struct SchedulerStatus {
    /// The currently active performance profile.
    pub profile: Profile,
    /// Whether automatic profile adaptation is enabled.
    pub adaptation_enabled: bool,
    /// The adaptation mode controlling how recommendations are applied.
    pub adaptation_mode: AdaptationMode,
    /// The scheduler backend currently in use.
    pub backend: SchedulerBackend,
    /// Whether a scheduler process is currently running.
    pub running: bool,
    /// Name of the scheduler loaded in the sched_ext subsystem, if any.
    pub sched_ext_state: Option<String>,
    /// Whether the scheduler's heartbeat file is present and fresh.
    pub heartbeat_ok: bool,
}

impl SchedulerStatus {
    /// The default status: balanced profile, adaptation off, mock backend,
    /// nothing running.
    pub open spec fn spec_default() -> SchedulerStatus {
        SchedulerStatus {
            profile: Profile::Balanced,
            adaptation_enabled: false,
            adaptation_mode: AdaptationMode::Off,
            backend: SchedulerBackend::Mock,
            running: false,
            sched_ext_state: None,
            heartbeat_ok: false,
        }
    }

    /// Creates a new status with default values.
    pub fn new() -> (r: SchedulerStatus)
        ensures
            r == SchedulerStatus::spec_default(),
    {
        SchedulerStatus {
            profile: Profile::Balanced,
            adaptation_enabled: false,
            adaptation_mode: AdaptationMode::Off,
            backend: SchedulerBackend::Mock,
            running: false,
            sched_ext_state: None,
            heartbeat_ok: false,
        }
    }
}

impl Default for SchedulerStatus {
    fn default() -> (r: SchedulerStatus)
        ensures
            r == SchedulerStatus::spec_default(),
    {
        SchedulerStatus::new()
    }
}

} // verus!
