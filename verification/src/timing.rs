//! Elapsed-time accumulators driving frame advances, enemy spawning and
//! bullet lifetimes.  All durations are integer microseconds.

use vstd::prelude::*;

verus! {

/// An elapsed-time accumulator compared against a target period.
///
/// On completing a period the accumulator re-arms at zero, like a
/// one-shot alarm re-created each time it rings: overshoot within a tick
/// is discarded, at most one completion is reported per tick, and the
/// timer never free-runs past its period.
#[derive(Clone, Copy, Debug, PartialEq, Eq, Structural)]
pub struct TickTimer {
    pub elapsed_micros: u64,
    pub period_micros: u64,
}

impl TickTimer {
    /// Between ticks the accumulator is always strictly below the period.
    pub open spec fn wf(self) -> bool {
        self.elapsed_micros < self.period_micros
    }

    /// Whether advancing by `dt_micros` completes the period.
    pub open spec fn spec_fires(self, dt_micros: u64) -> bool {
        self.elapsed_micros + dt_micros >= self.period_micros
    }

    pub fn new(period_micros: u64) -> (t: TickTimer)
        requires
            period_micros > 0,
        ensures
            t.wf(),
            t.elapsed_micros == 0,
            t.period_micros == period_micros,
    {
        TickTimer { elapsed_micros: 0, period_micros }
    }

    /// Advances the accumulator by `dt_micros` and reports whether the
    /// period completed; on completion the accumulator re-arms at zero.
    pub fn tick(&mut self, dt_micros: u64) -> (fired: bool)
        requires
            old(self).wf(),
        ensures
            final(self).wf(),
            final(self).period_micros == old(self).period_micros,
            fired == old(self).spec_fires(dt_micros),
            fired ==> final(self).elapsed_micros == 0,
            !fired ==> final(self).elapsed_micros == old(self).elapsed_micros + dt_micros,
    {
        let remaining = self.period_micros - self.elapsed_micros;
        if dt_micros >= remaining {
            self.elapsed_micros = 0;
            true
        } else {
            self.elapsed_micros = self.elapsed_micros + dt_micros;
            false
        }
    }
}

/// How long one animation frame is shown at the given frame rate.
pub open spec fn spec_frame_period(fps: u8) -> int
    recommends
        fps > 0,
{
    1_000_000 as int / fps as int
}

/// Duration of one animation frame in microseconds: one second divided
/// by the frame rate.
pub fn frame_period_micros(fps: u8) -> (r: u64)
    requires
        fps > 0,
    ensures
        r == spec_frame_period(fps),
        0 < r <= 1_000_000,
{
    proof {
        assert(0 < 1_000_000 as int / fps as int <= 1_000_000) by (nonlinear_arith)
            requires
                1 <= fps as int <= 255,
        ;
    }
    1_000_000u64 / (fps as u64)
}

} // verus!
