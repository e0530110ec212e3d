//! The coarse clocks of the interactive loop, in milliseconds: how often a running
//! simulation is read back and how often the 2D view may redraw.
use vstd::prelude::*;

verus! {

/// A running simulation is read back once more than this many milliseconds passed.
pub const SIMULATION_POLL_MS: u64 = 30;

/// The 2D view does not redraw more often than every this many milliseconds.
pub const REDRAW_MS: u64 = 25;

pub open spec fn since(last: u64, now: u64) -> int {
    if now >= last {
        now - last
    } else {
        0
    }
}

/// The time of the last accepted tick.
#[derive(Debug, Clone, Copy, PartialEq, Eq, Structural)]
pub struct Ticker {
    pub last: u64,
}

impl Ticker {
    pub fn new(now: u64) -> (r: Ticker)
        ensures
            r.last == now,
    {
        Ticker { last: now }
    }

    /// Whether a running simulation must be read back now; if so the tick is taken.
    pub fn simulation_poll_due(&mut self, now: u64) -> (r: bool)
        ensures
            r == (since(old(self).last, now) > SIMULATION_POLL_MS),
            r ==> final(self).last == now,
            !r ==> *final(self) == *old(self),
    {
        let elapsed = if now >= self.last { now - self.last } else { 0 };
        if elapsed > SIMULATION_POLL_MS {
            self.last = now;
            true
        } else {
            false
        }
    }

    /// Whether the 2D view may redraw now; if so the tick is taken.
    pub fn redraw_due(&mut self, now: u64) -> (r: bool)
        ensures
            r == (since(old(self).last, now) >= REDRAW_MS),
            r ==> final(self).last == now,
            !r ==> *final(self) == *old(self),
    {
        let elapsed = if now >= self.last { now - self.last } else { 0 };
        if elapsed < REDRAW_MS {
            false
        } else {
            self.last = now;
            true
        }
    }
}

/// What a request for a simulation does: it stops the one running, or starts one.
#[derive(Debug, Clone, Copy, PartialEq, Eq, Structural)]
pub enum SimulationAction {
    Stop,
    Start,
}

/// A request while a simulation runs stops it rather than starting another.
pub fn simulation_request(running: bool) -> (r: SimulationAction)
    ensures
        running ==> r == SimulationAction::Stop,
        !running ==> r == SimulationAction::Start,
{
    if running {
        SimulationAction::Stop
    } else {
        SimulationAction::Start
    }
}

} // verus!
