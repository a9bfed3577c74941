//! Scheduler performance profiles.
use vstd::prelude::*;
use crate::text::{to_lowercase, str_equals, owned, join2, unicode_lowercase};

verus! {

/// A scheduler performance profile.
///
/// - `Balanced`: default profile for general-purpose workloads
/// - `Interactive`: optimized for low-latency interactive applications
/// - `Performance`: maximizes throughput for compute-intensive workloads
/// - `Background`: minimizes resource usage for background/batch workloads
#[derive(Debug, Clone, Copy, PartialEq, Eq, Hash, Structural)]
pub enum Profile {
    Balanced,
    Interactive,
    Performance,
    Background,
}

/// The lowercase wire name of a profile.
pub open spec fn profile_name(p: Profile) -> Seq<char> {
    match p {
        Profile::Balanced => "balanced"@,
        Profile::Interactive => "interactive"@,
        Profile::Performance => "performance"@,
        Profile::Background => "background"@,
    }
}

/// The variant name of a profile.
pub open spec fn profile_debug_name(p: Profile) -> Seq<char> {
    match p {
        Profile::Balanced => "Balanced"@,
        Profile::Interactive => "Interactive"@,
        Profile::Performance => "Performance"@,
        Profile::Background => "Background"@,
    }
}

/// The profile whose wire name is `name`, if any.
pub open spec fn profile_named(name: Seq<char>) -> Option<Profile> {
    if name == "balanced"@ {
        Some(Profile::Balanced)
    } else if name == "interactive"@ {
        Some(Profile::Interactive)
    } else if name == "performance"@ {
        Some(Profile::Performance)
    } else if name == "background"@ {
        Some(Profile::Background)
    } else {
        None
    }
}

/// The result of parsing `s` as a profile, case-insensitively.
pub open spec fn profile_parse(s: Seq<char>) -> Result<Profile, Seq<char>> {
    match profile_named(unicode_lowercase(s)) {
        Some(p) => Ok(p),
        None => Err("unknown profile: "@ + s),
    }
}

/// The profiles in declaration order.
pub open spec fn all_profiles() -> Seq<Profile> {
    seq![Profile::Balanced, Profile::Interactive, Profile::Performance, Profile::Background]
}

/// The wire names are pairwise distinct, lowercase, and name their profile.
pub proof fn lemma_profile_names(p: Profile)
    ensures
        profile_named(profile_name(p)) == Some(p),
        crate::text::is_plain_lower(profile_name(p)),
{
    reveal_strlit("balanced");
    reveal_strlit("interactive");
    reveal_strlit("performance");
    reveal_strlit("background");
    assert("balanced"@[0] != "interactive"@[0]);
    assert("balanced"@[0] != "performance"@[0]);
    assert("balanced"@.len() != "background"@.len());
    assert("interactive"@[0] != "performance"@[0]);
    assert("interactive"@[0] != "background"@[0]);
    assert("performance"@[0] != "background"@[0]);
}

/// Parsing the name of a profile gives back that profile.
pub proof fn lemma_parse_name_roundtrip(p: Profile)
    ensures
        profile_named(profile_name(p)) == Some(p),
{
    lemma_profile_names(p);
}

impl Profile {
    /// Returns all available profiles in declaration order.
    pub fn all() -> (r: [Profile; 4])
        ensures
            r@ == all_profiles(),
    {
        [Profile::Balanced, Profile::Interactive, Profile::Performance, Profile::Background]
    }

    /// The lowercase name of the profile, as shown to users and on the wire.
    pub fn to_string(&self) -> (r: String)
        ensures
            r@ == profile_name(*self),
    {
        match self {
            Profile::Balanced => owned("balanced"),
            Profile::Interactive => owned("interactive"),
            Profile::Performance => owned("performance"),
            Profile::Background => owned("background"),
        }
    }

    /// The profile's variant name ("Balanced", ...), as debug output shows it.
    pub fn debug_name(&self) -> (r: &'static str)
        ensures
            r@ == profile_debug_name(*self),
    {
        match self {
            Profile::Balanced => "Balanced",
            Profile::Interactive => "Interactive",
            Profile::Performance => "Performance",
            Profile::Background => "Background",
        }
    }

    /// The profile whose exact lowercase name is `name`.
    pub fn from_name(name: &str) -> (r: Option<Profile>)
        ensures
            r == profile_named(name@),
    {
        if str_equals(name, "balanced") {
            Some(Profile::Balanced)
        } else if str_equals(name, "interactive") {
            Some(Profile::Interactive)
        } else if str_equals(name, "performance") {
            Some(Profile::Performance)
        } else if str_equals(name, "background") {
            Some(Profile::Background)
        } else {
            None
        }
    }

    /// Parses a profile name, ignoring case.
    pub fn parse(s: &str) -> (r: Result<Profile, String>)
        ensures
            match r {
                Ok(p) => profile_parse(s@) == Ok::<Profile, Seq<char>>(p),
                Err(e) => profile_parse(s@) == Err::<Profile, Seq<char>>(e@),
            },
    {
        let lowered = to_lowercase(s);
        match Profile::from_name(lowered.as_str()) {
            Some(p) => Ok(p),
            None => Err(join2("unknown profile: ", s)),
        }
    }
}

impl std::str::FromStr for Profile {
    type Err = String;

    fn from_str(s: &str) -> (r: Result<Profile, String>)
        ensures
            match r {
                Ok(v) => profile_parse(s@) == Ok::<Profile, Seq<char>>(v),
                Err(e) => profile_parse(s@) == Err::<Profile, Seq<char>>(e@),
            },
    {
        Profile::parse(s)
    }
}

} // verus!
