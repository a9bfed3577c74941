//! The scheduler's profiles and their time slices.
use vstd::prelude::*;

verus! {

/// A scheduling profile of the sched_ext scheduler.
#[derive(Debug, Clone, Copy, PartialEq, Eq, Structural)]
pub enum Profile {
    Balanced,
    Interactive,
    Performance,
    Background,
}

/// The time slice of a profile, in nanoseconds.
pub open spec fn slice_of(p: Profile) -> u64 {
    match p {
        Profile::Balanced => 5_000_000,
        Profile::Interactive => 2_000_000,
        Profile::Performance => 10_000_000,
        Profile::Background => 20_000_000,
    }
}

impl Profile {
    /// The time slice of the profile, in nanoseconds: 5 ms balanced, 2 ms
    /// interactive, 10 ms performance, 20 ms background.
    pub fn slice_ns(&self) -> (r: u64)
        ensures
            r == slice_of(*self),
    {
        match self {
            Profile::Balanced => 5_000_000,
            Profile::Interactive => 2_000_000,
            Profile::Performance => 10_000_000,
            Profile::Background => 20_000_000,
        }
    }

    /// The profile's name as the status file shows it, in lower case
    /// ("balanced", ...).
    pub fn name(&self) -> (r: &'static str)
        ensures
            r@ == match *self {
                Profile::Balanced => "balanced"@,
                Profile::Interactive => "interactive"@,
                Profile::Performance => "performance"@,
                Profile::Background => "background"@,
            },
    {
        match self {
            Profile::Balanced => "balanced",
            Profile::Interactive => "interactive",
            Profile::Performance => "performance",
            Profile::Background => "background",
        }
    }
}

/// Interactive profiles get the shortest slices; background the longest.
pub proof fn lemma_slice_order()
    ensures
        slice_of(Profile::Interactive) < slice_of(Profile::Balanced),
        slice_of(Profile::Balanced) < slice_of(Profile::Performance),
        slice_of(Profile::Performance) < slice_of(Profile::Background),
{
}

} // verus!
