//! Timing figures that the engines record for display.

use vstd::prelude::*;

verus! {

/// How long the last iteration of the CPU engine was expected to take,
/// and how long it took.
#[derive(Debug, Clone, Copy, PartialEq, Eq)]
pub struct DebugInfoCpu {
    pub expected_time_nanos: u64,
    pub actual_time_nanos: u64,
}

impl DebugInfoCpu {
    /// Figures that are all zero.
    pub fn new() -> (info: Self)
        ensures
            info == (DebugInfoCpu { expected_time_nanos: 0, actual_time_nanos: 0 }),
    {
        Self { expected_time_nanos: 0, actual_time_nanos: 0 }
    }
}

/// How long the last frame was expected to take, how long it took, and
/// how long the last search of object memory took.
#[derive(Debug, Clone, Copy, PartialEq, Eq)]
pub struct DebugInfoPpu {
    pub expected_time_micros: u64,
    pub actual_time_micros: u64,
    pub oam_time_nanos: u64,
}

impl DebugInfoPpu {
    /// Figures that are all zero.
    pub fn new() -> (info: Self)
        ensures
            info == (DebugInfoPpu { expected_time_micros: 0, actual_time_micros: 0, oam_time_nanos: 0 }),
    {
        Self { expected_time_micros: 0, actual_time_micros: 0, oam_time_nanos: 0 }
    }
}

} // verus!
