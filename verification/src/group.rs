//! One dimmable channel and the group of four that makes up a fixture.

use crate::pin::{Pin, PinAction};
use crate::serial::Color;
use vstd::prelude::*;

verus! {

/// The cycle position at which the line of a channel goes low: the
/// brightness itself, and none for brightness 0, whose line is never high.
/// An off-step is never 0.
pub open spec fn off_step(brightness: u8) -> Option<u8> {
    if brightness > 0 {
        Some(brightness)
    } else {
        None
    }
}

/// What a channel is, to its contracts: the brightness it was last given and
/// the level of its line.
pub struct ChannelState {
    pub brightness: u8,
    pub high: bool,
}

impl ChannelState {
    /// What the channel does to its line at cycle position `frame`: at
    /// position 0 the line is driven high if there is an off-step and low if
    /// there is none, at the off-step it is driven low, and at any other
    /// position it is left alone.
    pub open spec fn action(self, frame: u8) -> PinAction {
        if frame == 0 {
            if off_step(self.brightness) is Some {
                PinAction::SetHigh
            } else {
                PinAction::SetLow
            }
        } else if off_step(self.brightness) == Some(frame) {
            PinAction::SetLow
        } else {
            PinAction::Hold
        }
    }

    /// The channel after the tick at cycle position `frame`.
    pub open spec fn tick(self, frame: u8) -> ChannelState {
        ChannelState { brightness: self.brightness, high: self.action(frame).level_after(self.high) }
    }

    /// The channel once it is given a new brightness: the line keeps its level.
    pub open spec fn with_brightness(self, brightness: u8) -> ChannelState {
        ChannelState { brightness, high: self.high }
    }
}

/// One dimmable channel: an output line and the step at which it goes dark.
#[derive(Debug)]
pub struct GroupColor {
    pin: Pin,
    off_index: Option<u8>,
}

impl View for GroupColor {
    type V = ChannelState;

    closed spec fn view(&self) -> ChannelState {
        ChannelState {
            brightness: match self.off_index {
                Some(step) => step,
                None => 0,
            },
            high: self.pin.level(),
        }
    }
}

/// The off-step that stands for a brightness byte.
pub fn off_index_for(brightness: u8) -> (off_index: Option<u8>)
    ensures
        off_index == off_step(brightness),
{
    if brightness > 0 {
        Some(brightness)
    } else {
        None
    }
}

impl GroupColor {
    /// A stored off-step is never 0: a dark channel has none.
    #[verifier::type_invariant]
    spec fn off_index_is_nonzero(&self) -> bool {
        self.off_index != Some(0u8)
    }

    /// The off-step in store: the one that stands for the brightness, and so
    /// never 0.
    pub fn off_index(&self) -> (off_index: Option<u8>)
        ensures
            off_index == off_step(self@.brightness),
            off_index != Some(0u8),
    {
        proof {
            use_type_invariant(self);
        }
        self.off_index
    }

    /// A dark channel on the given line.
    pub fn new(pin: Pin) -> (channel: GroupColor)
        ensures
            channel@ == (ChannelState { brightness: 0, high: pin.level() }),
    {
        GroupColor { pin, off_index: None }
    }

    /// Stores a new brightness. The line is not touched.
    pub fn set_brightness(&mut self, brightness: u8)
        ensures
            final(self)@ == old(self)@.with_brightness(brightness),
    {
        self.off_index = off_index_for(brightness);
    }

    /// The brightness last stored.
    pub fn brightness(&self) -> (brightness: u8)
        ensures
            brightness == self@.brightness,
    {
        match self.off_index {
            Some(step) => step,
            None => 0,
        }
    }

    /// Whether the line was last driven high.
    pub fn is_high(&self) -> (high: bool)
        ensures
            high == self@.high,
    {
        self.pin.is_high()
    }

    /// Ticks the channel at cycle position `frame` and reports what was done
    /// to the line.
    pub fn update(&mut self, frame: u8) -> (action: PinAction)
        ensures
            action == old(self)@.action(frame),
            final(self)@ == old(self)@.tick(frame),
    {
        proof {
            use_type_invariant(&*self);
        }
        if frame == 0 {
            if self.off_index.is_some() {
                self.pin.set_high();
                PinAction::SetHigh
            } else {
                self.pin.set_low();
                PinAction::SetLow
            }
        } else if let Some(off_index) = self.off_index {
            if frame == off_index {
                self.pin.set_low();
                PinAction::SetLow
            } else {
                PinAction::Hold
            }
        } else {
            PinAction::Hold
        }
    }
}

/// What a group is, to its contracts: its four channels.
pub struct GroupState {
    pub red: ChannelState,
    pub green: ChannelState,
    pub blue: ChannelState,
    pub white: ChannelState,
}

impl GroupState {
    /// What the four channels do to their lines at cycle position `frame`.
    pub open spec fn actions(self, frame: u8) -> GroupActions {
        GroupActions {
            red: self.red.action(frame),
            green: self.green.action(frame),
            blue: self.blue.action(frame),
            white: self.white.action(frame),
        }
    }

    /// The group after the tick at cycle position `frame`.
    pub open spec fn tick(self, frame: u8) -> GroupState {
        GroupState {
            red: self.red.tick(frame),
            green: self.green.tick(frame),
            blue: self.blue.tick(frame),
            white: self.white.tick(frame),
        }
    }

    /// The group once it is given a color: each channel takes the brightness
    /// of its own name, and every line keeps its level.
    pub open spec fn with_color(self, color: Color) -> GroupState {
        GroupState {
            red: self.red.with_brightness(color.red_brightness),
            green: self.green.with_brightness(color.green_brightness),
            blue: self.blue.with_brightness(color.blue_brightness),
            white: self.white.with_brightness(color.white_brightness),
        }
    }
}

/// What a group does to its four lines on one tick.
#[derive(Clone, Copy, Debug, PartialEq, Eq, Structural)]
pub struct GroupActions {
    pub red: PinAction,
    pub green: PinAction,
    pub blue: PinAction,
    pub white: PinAction,
}

/// The four channels of one fixture.
#[derive(Debug)]
pub struct Group {
    red: GroupColor,
    green: GroupColor,
    blue: GroupColor,
    white: GroupColor,
}

impl View for Group {
    type V = GroupState;

    closed spec fn view(&self) -> GroupState {
        GroupState { red: self.red@, green: self.green@, blue: self.blue@, white: self.white@ }
    }
}

impl Group {
    /// A dark group on the four given lines.
    pub fn new(red: Pin, green: Pin, blue: Pin, white: Pin) -> (group: Group)
        ensures
            group@ == (GroupState {
                red: ChannelState { brightness: 0, high: red.level() },
                green: ChannelState { brightness: 0, high: green.level() },
                blue: ChannelState { brightness: 0, high: blue.level() },
                white: ChannelState { brightness: 0, high: white.level() },
            }),
    {
        Group {
            red: GroupColor::new(red),
            blue: GroupColor::new(blue),
            green: GroupColor::new(green),
            white: GroupColor::new(white),
        }
    }

    /// Gives every channel the brightness of its name in `color`. No line is
    /// touched: the new duty shows from the next tick on.
    pub fn set_color(&mut self, color: Color)
        ensures
            final(self)@ == old(self)@.with_color(color),
    {
        self.red.set_brightness(color.red_brightness);
        self.green.set_brightness(color.green_brightness);
        self.blue.set_brightness(color.blue_brightness);
        self.white.set_brightness(color.white_brightness);
    }

    /// Ticks the four channels at cycle position `frame` and reports what was
    /// done to each line.
    pub fn update(&mut self, frame: u8) -> (actions: GroupActions)
        ensures
            actions == old(self)@.actions(frame),
            final(self)@ == old(self)@.tick(frame),
    {
        let red = self.red.update(frame);
        let blue = self.blue.update(frame);
        let green = self.green.update(frame);
        let white = self.white.update(frame);
        GroupActions { red, green, blue, white }
    }

    /// The red channel.
    pub fn red(&self) -> (channel: &GroupColor)
        ensures
            channel@ == self@.red,
    {
        &self.red
    }

    /// The green channel.
    pub fn green(&self) -> (channel: &GroupColor)
        ensures
            channel@ == self@.green,
    {
        &self.green
    }

    /// The blue channel.
    pub fn blue(&self) -> (channel: &GroupColor)
        ensures
            channel@ == self@.blue,
    {
        &self.blue
    }

    /// The white channel.
    pub fn white(&self) -> (channel: &GroupColor)
        ensures
            channel@ == self@.white,
    {
        &self.white
    }
}

} // verus!
