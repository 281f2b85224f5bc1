//! The delay timer: a nonnegative counter, set from a register value and
//! decremented by the host on its own real-time cadence, clamped at zero.

use vstd::prelude::*;

verus! {

/// A monotonically-decrementing counter. The machine only ever loads it
/// from an 8-bit register, so an 8-bit counter holds every reachable value.
pub struct Timer {
    value: u8,
}

impl View for Timer {
    type V = u8;

    closed spec fn view(&self) -> u8 {
        self.value
    }
}

impl Timer {
    /// A fresh timer reads zero.
    pub fn new() -> (t: Timer)
        ensures
            t@ == 0u8,
    {
        Timer { value: 0 }
    }

    /// Assigns the counter unconditionally.
    pub fn set(&mut self, value: u8)
        ensures
            final(self)@ == value,
    {
        self.value = value;
    }

    /// Returns the current counter value.
    pub fn get(&self) -> (v: u8)
        ensures
            v == self@,
    {
        self.value
    }

    /// One tick of the host's clock: decreases the counter by one,
    /// floored at zero.
    pub fn decrement(&mut self)
        ensures
            final(self)@ == (if old(self)@ > 0 { (old(self)@ - 1) as u8 } else { 0u8 }),
    {
        if self.value > 0 {
            self.value = self.value - 1;
        }
    }
}

} // verus!
