//! The fixed-timestep simulation clock: render frames report elapsed time,
//! and the clock hands out simulation ticks at a fixed rate, decoupling the
//! simulation from the render frame rate.

use vstd::prelude::*;

verus! {

/// Length of one simulation tick in microseconds: an 8 Hz tick rate.
pub const TICK_INTERVAL_MICROS: u64 = 125_000;

/// Accumulator that turns irregular render-frame deltas into fixed-rate
/// simulation ticks.
pub struct TickClock {
    /// Time accumulated toward the next tick, in microseconds.
    pub accumulated_micros: u64,
}

impl TickClock {
    /// A clock with nothing accumulated yet.
    pub fn new() -> (c: TickClock)
        ensures
            c.accumulated_micros == 0,
    {
        TickClock { accumulated_micros: 0 }
    }

    /// Record that `elapsed_micros` passed since the previous render frame.
    /// When the accumulated time reaches one tick interval, exactly one
    /// interval is consumed and a simulation tick is reported due. At most
    /// one tick is handed out per frame, so a long stall under-simulates
    /// instead of catching up with a burst of ticks.
    pub fn register_frame(&mut self, elapsed_micros: u64) -> (tick_due: bool)
        requires
            old(self).accumulated_micros + elapsed_micros <= u64::MAX,
        ensures
            tick_due == (old(self).accumulated_micros + elapsed_micros
                >= TICK_INTERVAL_MICROS),
            tick_due ==> final(self).accumulated_micros == old(self).accumulated_micros
                + elapsed_micros - TICK_INTERVAL_MICROS,
            !tick_due ==> final(self).accumulated_micros == old(self).accumulated_micros
                + elapsed_micros,
    {
        self.accumulated_micros = self.accumulated_micros + elapsed_micros;
        if self.accumulated_micros >= TICK_INTERVAL_MICROS {
            self.accumulated_micros = self.accumulated_micros - TICK_INTERVAL_MICROS;
            true
        } else {
            false
        }
    }
}

} // verus!
