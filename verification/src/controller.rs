//! The decisions of the polling loop: one tick of the four groups, and one
//! poll of the serial link.

use crate::cycle::{following, next_frame, CYCLE_LEN};
use crate::group::{Group, GroupActions, GroupState};
use crate::serial::{
    is_partial_frame, outcome_of_byte, partial_after_byte, Message, Outcome, RxEvent,
    SerialConnector,
};
use vstd::prelude::*;

verus! {

/// What the four groups do to their lines on one tick.
#[derive(Clone, Copy, Debug, PartialEq, Eq, Structural)]
pub struct TickActions {
    pub kitchen: GroupActions,
    pub beamer: GroupActions,
    pub stairs: GroupActions,
    pub door: GroupActions,
}

/// What a controller is, to its contracts: the four groups, the bytes of the
/// frame under way, and the position of the next tick.
pub struct ControllerState {
    pub kitchen: GroupState,
    pub beamer: GroupState,
    pub stairs: GroupState,
    pub door: GroupState,
    pub partial: Seq<u8>,
    pub frame: u8,
}

impl ControllerState {
    /// What the groups do to their lines on the next tick.
    pub open spec fn actions(self) -> TickActions {
        TickActions {
            kitchen: self.kitchen.actions(self.frame),
            beamer: self.beamer.actions(self.frame),
            stairs: self.stairs.actions(self.frame),
            door: self.door.actions(self.frame),
        }
    }

    /// The controller after the next tick: every group is ticked at the
    /// current position, and the position moves on.
    pub open spec fn tick(self) -> ControllerState {
        ControllerState {
            kitchen: self.kitchen.tick(self.frame),
            beamer: self.beamer.tick(self.frame),
            stairs: self.stairs.tick(self.frame),
            door: self.door.tick(self.frame),
            partial: self.partial,
            frame: following(self.frame),
        }
    }

    /// The controller once a message is applied: each group takes the color
    /// of its name.
    pub open spec fn with_message(self, message: Message) -> ControllerState {
        ControllerState {
            kitchen: self.kitchen.with_color(message.kitchen),
            beamer: self.beamer.with_color(message.beamer),
            stairs: self.stairs.with_color(message.stairs),
            door: self.door.with_color(message.door),
            partial: self.partial,
            frame: self.frame,
        }
    }

    /// What the decoder asks for on one poll: a byte is decoded, anything
    /// else asks for nothing.
    pub open spec fn outcome(self, received: RxEvent) -> Outcome {
        match received {
            RxEvent::Byte(byte) => outcome_of_byte(self.partial, byte),
            _ => Outcome { message: None, ack: None },
        }
    }

    /// The controller after one poll: a byte moves the decoder on, and the
    /// message it completes, if any, is applied to the groups.
    pub open spec fn poll(self, received: RxEvent) -> ControllerState {
        let decoded = ControllerState {
            partial: match received {
                RxEvent::Byte(byte) => partial_after_byte(self.partial, byte),
                _ => self.partial,
            },
            ..self
        };
        match self.outcome(received).message {
            Some(message) => decoded.with_message(message),
            None => decoded,
        }
    }
}

/// The four groups, the decoder that feeds them, and the frame counter.
#[derive(Debug)]
pub struct Controller {
    kitchen: Group,
    beamer: Group,
    stairs: Group,
    door: Group,
    serial: SerialConnector,
    frame: u8,
}

impl View for Controller {
    type V = ControllerState;

    closed spec fn view(&self) -> ControllerState {
        ControllerState {
            kitchen: self.kitchen@,
            beamer: self.beamer@,
            stairs: self.stairs@,
            door: self.door@,
            partial: self.serial@,
            frame: self.frame,
        }
    }
}

impl Controller {
    /// A controller at the start of a cycle.
    pub fn new(
        kitchen: Group,
        beamer: Group,
        stairs: Group,
        door: Group,
        serial: SerialConnector,
    ) -> (controller: Controller)
        ensures
            controller@ == (ControllerState {
                kitchen: kitchen@,
                beamer: beamer@,
                stairs: stairs@,
                door: door@,
                partial: serial@,
                frame: 0,
            }),
    {
        Controller { kitchen, beamer, stairs, door, serial, frame: 0 }
    }

    /// Ticks the four groups at the current position, moves the position on,
    /// and reports what was done to each line.
    pub fn tick(&mut self) -> (actions: TickActions)
        ensures
            actions == old(self)@.actions(),
            final(self)@ == old(self)@.tick(),
            final(self)@.frame < CYCLE_LEN,
    {
        let kitchen = self.kitchen.update(self.frame);
        let beamer = self.beamer.update(self.frame);
        let stairs = self.stairs.update(self.frame);
        let door = self.door.update(self.frame);
        self.frame = next_frame(self.frame);
        TickActions { kitchen, beamer, stairs, door }
    }

    /// Takes what the receiver handed over on one poll, applies the message
    /// that it completes, if any, and returns the byte to write back to the
    /// sender, if one is owed.
    pub fn poll(&mut self, received: RxEvent) -> (ack: Option<u8>)
        ensures
            ack == old(self)@.outcome(received).ack,
            final(self)@ == old(self)@.poll(received),
            is_partial_frame(final(self)@.partial),
    {
        let outcome = self.serial.read(received);
        if let Some(message) = outcome.message {
            self.kitchen.set_color(message.kitchen);
            self.beamer.set_color(message.beamer);
            self.stairs.set_color(message.stairs);
            self.door.set_color(message.door);
        }
        outcome.ack
    }

    /// The position of the next tick.
    pub fn frame(&self) -> (frame: u8)
        ensures
            frame == self@.frame,
    {
        self.frame
    }

    /// The group named kitchen.
    pub fn kitchen(&self) -> (group: &Group)
        ensures
            group@ == self@.kitchen,
    {
        &self.kitchen
    }

    /// The group named beamer.
    pub fn beamer(&self) -> (group: &Group)
        ensures
            group@ == self@.beamer,
    {
        &self.beamer
    }

    /// The group named stairs.
    pub fn stairs(&self) -> (group: &Group)
        ensures
            group@ == self@.stairs,
    {
        &self.stairs
    }

    /// The group named door.
    pub fn door(&self) -> (group: &Group)
        ensures
            group@ == self@.door,
    {
        &self.door
    }
}

} // verus!
