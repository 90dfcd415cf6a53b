//! The fixed-timestep clock: real time goes in, whole ticks come out.

use vstd::prelude::*;

verus! {

/// Ticks per second of simulated time.
pub const DESIRED_FPS: u32 = 60;

/// Length of one tick in nanoseconds: a sixtieth of a second, the fraction
/// of a nanosecond dropped.
pub const TICK_NANOS: u64 = 16_666_666;

/// How many ticks a clock holding `residual` nanoseconds hands out before it
/// runs dry. A tick is due only while strictly more than one tick's time is
/// held, so a residual of exactly `k` ticks hands out `k - 1`.
pub open spec fn ticks_due(residual: nat) -> nat {
    if residual == 0 {
        0
    } else {
        ((residual - 1) / TICK_NANOS as int) as nat
    }
}

/// What is left of `residual` nanoseconds once every due tick was handed out.
pub open spec fn residual_after(residual: nat) -> nat {
    (residual - ticks_due(residual) * TICK_NANOS) as nat
}

/// Accumulates elapsed real time and pays it out one tick at a time.
pub struct TickClock {
    residual_nanos: u128,
}

impl TickClock {
    /// The time held, in nanoseconds.
    pub closed spec fn residual(&self) -> nat {
        self.residual_nanos as nat
    }

    /// No tick is due: at most one tick's time is held.
    pub open spec fn drained(&self) -> bool {
        self.residual() <= TICK_NANOS
    }

    /// A clock that holds no time.
    pub fn new() -> (clock: TickClock)
        ensures
            clock.residual() == 0,
    {
        TickClock { residual_nanos: 0 }
    }

    /// The time held, in nanoseconds.
    pub fn residual_nanos(&self) -> (r: u128)
        ensures
            r == self.residual(),
    {
        self.residual_nanos
    }

    /// Adds the real time that passed since the last frame.
    pub fn accumulate(&mut self, elapsed_nanos: u64)
        requires
            old(self).residual() + elapsed_nanos <= u128::MAX,
        ensures
            final(self).residual() == old(self).residual() + elapsed_nanos,
    {
        self.residual_nanos = self.residual_nanos + elapsed_nanos as u128;
    }

    /// Pays out one tick if more than a tick's time is held. Called in a
    /// loop it yields zero, one or many ticks per frame.
    pub fn check_update_time(&mut self) -> (due: bool)
        ensures
            due == (old(self).residual() > TICK_NANOS),
            due ==> final(self).residual() == old(self).residual() - TICK_NANOS,
            !due ==> final(self).residual() == old(self).residual(),
            due ==> ticks_due(old(self).residual()) == ticks_due(final(self).residual()) + 1,
            !due ==> ticks_due(old(self).residual()) == 0,
    {
        if self.residual_nanos > TICK_NANOS as u128 {
            self.residual_nanos = self.residual_nanos - TICK_NANOS as u128;
            true
        } else {
            false
        }
    }
}

/// Handing out ticks leaves between nothing and one tick's time, and nothing
/// only if nothing was held: the clock never pays out its last nanosecond.
pub proof fn lemma_residual_after(residual: nat)
    ensures
        residual_after(residual) <= TICK_NANOS,
        residual > 0 ==> residual_after(residual) > 0,
        residual == residual_after(residual) + ticks_due(residual) * TICK_NANOS,
        residual <= TICK_NANOS ==> ticks_due(residual) == 0,
{
}

} // verus!
