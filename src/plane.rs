use vstd::prelude::*;

verus! {

/// Milliseconds that one runway phase (landing or takeoff) lasts by default.
pub const DEFAULT_TIME_TO_LAND_MS: u64 = 1000;

/// Milliseconds that a plane rests in its hangar by default.
pub const DEFAULT_TIME_TO_REST_MS: u64 = 2000;

/// A unit of work: timing parameters and the moment it was created.
///
/// All times are milliseconds; `created_at` is read from a monotonic clock
/// that starts at the beginning of the run.
#[derive(Clone, Copy, Debug, PartialEq, Eq, Structural)]
pub struct Plane {
    pub time_to_land: u64,
    pub time_to_rest: u64,
    pub created_at: u64,
}

impl Plane {
    /// A plane with the default timings, created at `created_at`.
    pub fn new(created_at: u64) -> (p: Plane)
        ensures
            p.time_to_land == DEFAULT_TIME_TO_LAND_MS,
            p.time_to_rest == DEFAULT_TIME_TO_REST_MS,
            p.created_at == created_at,
    {
        Plane {
            time_to_land: DEFAULT_TIME_TO_LAND_MS,
            time_to_rest: DEFAULT_TIME_TO_REST_MS,
            created_at,
        }
    }
}

} // verus!
