//! Runtime paths used by the daemon. Each may be overridden by an
//! environment variable so the daemon can run unprivileged in tests.
use vstd::prelude::*;
use crate::text::owned;

verus! {

/// Default configuration file.
pub const DEFAULT_CONFIG_PATH: &'static str = "/etc/cerynth/cerynth.toml";

/// Default persistent state file.
pub const DEFAULT_STATE_PATH: &'static str = "/var/lib/cerynth/state.json";

/// Environment variable overriding the configuration path.
pub const CONFIG_PATH_VAR: &'static str = "CERYNTH_CONFIG";

/// Environment variable overriding the state path.
pub const STATE_PATH_VAR: &'static str = "CERYNTH_STATE";

/// The override when one is set, else the default.
pub open spec fn resolved(env_value: Option<String>, default: Seq<char>) -> Seq<char> {
    match env_value {
        Some(v) => v@,
        None => default,
    }
}

/// The value of the overriding variable when set, else the default.
pub fn resolve(env_value: Option<String>, default: &str) -> (r: String)
    ensures
        r@ == resolved(env_value, default@),
{
    match env_value {
        Some(v) => v,
        None => owned(default),
    }
}

/// The configuration file path, given the value of `CERYNTH_CONFIG`.
pub fn config_path(env_value: Option<String>) -> (r: String)
    ensures
        r@ == resolved(env_value, DEFAULT_CONFIG_PATH@),
{
    resolve(env_value, DEFAULT_CONFIG_PATH)
}

/// The persistent state file path, given the value of `CERYNTH_STATE`.
pub fn state_path(env_value: Option<String>) -> (r: String)
    ensures
        r@ == resolved(env_value, DEFAULT_STATE_PATH@),
{
    resolve(env_value, DEFAULT_STATE_PATH)
}

} // verus!
