//! The fixed-timestep accumulator that decouples the simulation rate from
//! the rendering frame rate: wall-clock time accumulates, and whenever the
//! accumulated time reaches the fixed tick duration one tick is due and the
//! surplus is carried over. A frame may therefore owe zero, one, or several
//! ticks.

use vstd::prelude::*;

verus! {

/// Duration of one logical tick in milliseconds: 8 updates per second.
pub const TICK_MILLIS: u64 = 125;

/// The accumulator the driver loop feeds with elapsed wall-clock time.
#[derive(Clone, Copy, Debug, PartialEq, Eq, Structural)]
pub struct Timestep {
    pub tick_millis: u64,
    pub accumulated_millis: u64,
}

impl Timestep {
    pub fn new(tick_millis: u64) -> (r: Timestep)
        requires
            tick_millis > 0,
        ensures
            r == (Timestep { tick_millis, accumulated_millis: 0 }),
    {
        Timestep { tick_millis, accumulated_millis: 0 }
    }

    /// Credit elapsed wall-clock time towards future ticks.
    pub fn accumulate(&mut self, elapsed_millis: u64)
        requires
            old(self).accumulated_millis + elapsed_millis <= u64::MAX,
        ensures
            final(self).tick_millis == old(self).tick_millis,
            final(self).accumulated_millis == old(self).accumulated_millis + elapsed_millis,
    {
        self.accumulated_millis = self.accumulated_millis + elapsed_millis;
    }

    /// Whether a tick is due now: true exactly when a whole tick duration
    /// has accumulated, in which case that duration is consumed and any
    /// surplus stays credited.
    pub fn should_tick(&mut self) -> (r: bool)
        ensures
            r == (old(self).accumulated_millis >= old(self).tick_millis),
            final(self).tick_millis == old(self).tick_millis,
            r ==> final(self).accumulated_millis == old(self).accumulated_millis - old(
                self,
            ).tick_millis,
            !r ==> final(self).accumulated_millis == old(self).accumulated_millis,
    {
        if self.accumulated_millis >= self.tick_millis {
            self.accumulated_millis = self.accumulated_millis - self.tick_millis;
            true
        } else {
            false
        }
    }
}

} // verus!
