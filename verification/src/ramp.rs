//! The airborne-frame counter that drives the ramped gravity approximation.

use vstd::prelude::*;
use crate::tuning::{GRAVITY_CAP, RAMP_LIMIT};

verus! {

/// Counts consecutive airborne frames; the downward pull a frame adds is
/// `count * tier` subunits, capped at `GRAVITY_CAP`, so the ramp saturates.
#[derive(PartialEq, Eq, Structural, Clone, Copy, Debug)]
pub struct RampTimer {
    pub count: u32,
}

/// The timer ticked one airborne frame further, saturating at `RAMP_LIMIT`.
pub open spec fn spec_ticked(t: RampTimer) -> RampTimer {
    if t.count < RAMP_LIMIT {
        RampTimer { count: (t.count + 1) as u32 }
    } else {
        t
    }
}

/// Downward pull in subunits for gravity tier `tier`: `count * tier`, capped.
pub open spec fn spec_pull(t: RampTimer, tier: i64) -> i64 {
    if t.count * tier > GRAVITY_CAP {
        GRAVITY_CAP
    } else {
        (t.count * tier) as i64
    }
}

impl RampTimer {
    pub fn new() -> (r: RampTimer)
        ensures
            r == (RampTimer { count: 0 }),
    {
        RampTimer { count: 0 }
    }

    /// One more airborne frame.
    pub fn tick(&mut self)
        ensures
            *final(self) == spec_ticked(*old(self)),
    {
        if self.count < RAMP_LIMIT {
            self.count = self.count + 1;
        }
    }

    /// Back to grounded.
    pub fn reset(&mut self)
        ensures
            *final(self) == (RampTimer { count: 0 }),
    {
        self.count = 0;
    }

    /// The capped downward pull this frame contributes.
    pub fn pull(&self, tier: i64) -> (r: i64)
        requires
            0 <= tier <= 100,
        ensures
            r == spec_pull(*self, tier),
            0 <= r <= GRAVITY_CAP,
    {
        proof {
            assert((self.count as int) * (tier as int) <= 0xFFFF_FFFF * 100) by (nonlinear_arith)
                requires
                    0 <= tier <= 100,
                    self.count <= 0xFFFF_FFFFu32,
            ;
            assert(0 <= (self.count as int) * (tier as int)) by (nonlinear_arith)
                requires
                    0 <= tier,
                    0 <= self.count,
            ;
        }
        let raw: i64 = (self.count as i64) * tier;
        if raw > GRAVITY_CAP {
            GRAVITY_CAP
        } else {
            raw
        }
    }
}

} // verus!
