//! The framework's rational timestamp: a value over a timescale, with
//! validity flags and an epoch. Consumers that correlate screen and audio
//! samples do so with this presentation timestamp, not with arrival order.

use vstd::prelude::*;

verus! {

pub const CMTIME_FLAGS_VALID: u32 = 1;

pub const CMTIME_FLAGS_HAS_BEEN_ROUNDED: u32 = 2;

pub const CMTIME_FLAGS_POSITIVE_INFINITY: u32 = 4;

pub const CMTIME_FLAGS_NEGATIVE_INFINITY: u32 = 8;

pub const CMTIME_FLAGS_INDEFINITE: u32 = 16;

pub const CMTIME_FLAGS_IMPLIED_VALUE_FLAGS_MASK: u32 = 28;

/// A media timestamp: `value / timescale` seconds, qualified by flags.
#[derive(Copy, Clone, PartialEq, Eq, Structural, Debug)]
pub struct CMTime {
    pub value: i64,
    pub timescale: i32,
    pub flags: u32,
    pub epoch: i64,
}

impl CMTime {
    /// A timestamp marked valid, at the given value and timescale.
    pub fn new(value: i64, timescale: i32) -> (r: CMTime)
        ensures
            r == (CMTime { value, timescale, flags: CMTIME_FLAGS_VALID, epoch: 0 }),
    {
        CMTime { value, timescale, flags: CMTIME_FLAGS_VALID, epoch: 0 }
    }

    /// Whether the validity flag is set.
    pub fn is_valid(&self) -> (r: bool)
        ensures
            r == (self.flags & CMTIME_FLAGS_VALID != 0),
    {
        self.flags & CMTIME_FLAGS_VALID != 0
    }
}

impl Default for CMTime {
    /// The zero timestamp, carrying no flags.
    fn default() -> (r: Self)
        ensures
            r == (CMTime { value: 0, timescale: 0, flags: 0, epoch: 0 }),
    {
        CMTime { value: 0, timescale: 0, flags: 0, epoch: 0 }
    }
}

} // verus!
