//! The digital output line of one channel, as the dimmer sees it.

use vstd::prelude::*;

verus! {

/// What a channel does to its output line on one tick.
#[derive(Clone, Copy, Debug, PartialEq, Eq, Structural)]
pub enum PinAction {
    /// Drive the line high.
    SetHigh,
    /// Drive the line low.
    SetLow,
    /// Leave the line at the level it was last driven to.
    Hold,
}

impl PinAction {
    /// The level of a line that was at `level` once the action is performed.
    pub open spec fn level_after(self, level: bool) -> bool {
        match self {
            PinAction::SetHigh => true,
            PinAction::SetLow => false,
            PinAction::Hold => level,
        }
    }
}

/// A push-pull output line that remembers the level it was last driven to.
///
/// The dimmer drives this record; whoever owns the electrical pin repeats
/// every [`PinAction`] on it, so that the record and the pin agree.
#[derive(Clone, Copy, Debug)]
pub struct Pin {
    high: bool,
}

impl Pin {
    /// The level the line was last driven to.
    pub closed spec fn level(&self) -> bool {
        self.high
    }

    /// A line that currently rests at the given level.
    pub fn new(high: bool) -> (pin: Pin)
        ensures
            pin.level() == high,
    {
        Pin { high }
    }

    /// Whether the line was last driven high.
    pub fn is_high(&self) -> (high: bool)
        ensures
            high == self.level(),
    {
        self.high
    }

    /// Drives the line high.
    pub fn set_high(&mut self)
        ensures
            final(self).level(),
        no_unwind
    {
        self.high = true;
    }

    /// Drives the line low.
    pub fn set_low(&mut self)
        ensures
            !final(self).level(),
        no_unwind
    {
        self.high = false;
    }
}

} // verus!
