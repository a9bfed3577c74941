//! The daemon's persistent configuration (a TOML file).
use vstd::prelude::*;
use crate::ipc::backend::SchedulerBackend;
use crate::ipc::profile::Profile;
use crate::text::owned;

verus! {

/// Default path of the SCX scheduler binary.
pub const DEFAULT_SCHEDULER_BINARY: &'static str = "/usr/bin/cerynth-scx";

/// Persistent configuration.
#[derive(Debug, Clone, PartialEq, Eq)]
pub struct Config {
    pub default_profile: Profile,
    pub adaptation_enabled: bool,
    pub scheduler_backend: SchedulerBackend,
    /// Path to the scheduler binary the daemon launches.
    pub scheduler_binary: String,
    /// Whether the daemon starts the scheduler automatically at boot.
    pub auto_start: bool,
}

/// The scheduler binary used when the configuration names none.
pub fn default_scheduler_binary() -> (r: String)
    ensures
        r@ == DEFAULT_SCHEDULER_BINARY@,
{
    owned(DEFAULT_SCHEDULER_BINARY)
}

/// `auto_start` when the configuration omits it.
pub fn default_true() -> (r: bool)
    ensures
        r,
{
    true
}

impl Config {
    /// The built-in configuration: balanced profile, adaptation disabled,
    /// mock backend, default scheduler binary, auto-start on.
    pub fn new() -> (r: Config)
        ensures
            r.default_profile == Profile::Balanced,
            !r.adaptation_enabled,
            r.scheduler_backend == SchedulerBackend::Mock,
            r.scheduler_binary@ == DEFAULT_SCHEDULER_BINARY@,
            r.auto_start,
    {
        Config {
            default_profile: Profile::Balanced,
            adaptation_enabled: false,
            scheduler_backend: SchedulerBackend::Mock,
            scheduler_binary: default_scheduler_binary(),
            auto_start: default_true(),
        }
    }
}

impl Default for Config {
    fn default() -> (r: Config)
        ensures
            r.default_profile == Profile::Balanced,
            !r.adaptation_enabled,
            r.scheduler_backend == SchedulerBackend::Mock,
            r.scheduler_binary@ == DEFAULT_SCHEDULER_BINARY@,
            r.auto_start,
    {
        Config::new()
    }
}

} // verus!
