//! Colors, messages and the decoder of the serial link.

use vstd::prelude::*;

verus! {

/// Four independent brightness levels, one per channel of a light group.
#[derive(Clone, Copy, Debug, PartialEq, Eq, Structural)]
pub struct Color {
    pub red_brightness: u8,
    pub green_brightness: u8,
    pub blue_brightness: u8,
    pub white_brightness: u8,
}

impl Color {
    /// The color that four consecutive wire bytes stand for, in the order
    /// red, green, blue, white.
    pub open spec fn from_bytes(bytes: Seq<u8>) -> Color
        recommends
            bytes.len() == 4,
    {
        Color {
            red_brightness: bytes[0],
            green_brightness: bytes[1],
            blue_brightness: bytes[2],
            white_brightness: bytes[3],
        }
    }

    /// Reads a color from four wire bytes.
    pub fn from_buffer(buffer: &[u8; 4]) -> (color: Color)
        ensures
            color == Color::from_bytes(buffer@),
    {
        Color {
            red_brightness: buffer[0],
            green_brightness: buffer[1],
            blue_brightness: buffer[2],
            white_brightness: buffer[3],
        }
    }
}

/// Number of bytes in one frame on the wire: the sentinel and the payload.
pub const FRAME_LEN: usize = 17;

/// Number of payload bytes in one frame: four colors of four bytes each.
pub const PAYLOAD_LEN: usize = 16;

/// The byte that opens every frame.
pub const SENTINEL: u8 = 255;

/// The byte sent back to the sender for every frame taken.
pub const ACK: u8 = 255;

/// One color for each of the four light groups.
#[derive(Clone, Copy, Debug, PartialEq, Eq, Structural)]
pub struct Message {
    pub kitchen: Color,
    pub beamer: Color,
    pub stairs: Color,
    pub door: Color,
}

impl Message {
    /// The message that the sixteen payload bytes of a frame stand for: four
    /// bytes per group, in the order kitchen, beamer, stairs, door.
    pub open spec fn from_payload(payload: Seq<u8>) -> Message
        recommends
            payload.len() == PAYLOAD_LEN,
    {
        Message {
            kitchen: Color::from_bytes(payload.subrange(0, 4)),
            beamer: Color::from_bytes(payload.subrange(4, 8)),
            stairs: Color::from_bytes(payload.subrange(8, 12)),
            door: Color::from_bytes(payload.subrange(12, 16)),
        }
    }

    /// Reads the message out of a whole frame, skipping the sentinel.
    pub fn from_frame(frame: &[u8; 17]) -> (message: Message)
        ensures
            message == Message::from_payload(frame@.subrange(1, FRAME_LEN as int)),
    {
        Message {
            kitchen: Color::from_buffer(&[frame[1], frame[2], frame[3], frame[4]]),
            beamer: Color::from_buffer(&[frame[5], frame[6], frame[7], frame[8]]),
            stairs: Color::from_buffer(&[frame[9], frame[10], frame[11], frame[12]]),
            door: Color::from_buffer(&[frame[13], frame[14], frame[15], frame[16]]),
        }
    }
}

/// What the receiver of the serial link hands over on one poll.
#[derive(Clone, Copy, Debug, PartialEq, Eq, Structural)]
pub enum RxEvent {
    /// A byte came in.
    Byte(u8),
    /// Nothing has come in yet.
    WouldBlock,
    /// The receiver reports a fault on a byte; the byte is lost.
    Fault,
}

/// What the decoder asks for after one poll.
#[derive(Clone, Copy, Debug, PartialEq, Eq)]
pub struct Outcome {
    /// The message of the frame that this poll completed, if it completed one.
    pub message: Option<Message>,
    /// The byte to write back to the sender, if one is owed.
    pub ack: Option<u8>,
}

/// Whether `partial` can be the bytes of a frame received so far: short of a
/// whole frame, and opened by the sentinel.
pub open spec fn is_partial_frame(partial: Seq<u8>) -> bool {
    &&& partial.len() < FRAME_LEN
    &&& partial.len() > 0 ==> partial[0] == SENTINEL
}

/// The bytes of the frame under way once `byte` has come in after `partial`.
///
/// Outside a frame only the sentinel is taken; inside one every byte is. The
/// byte that completes a frame leaves nothing under way.
pub open spec fn partial_after_byte(partial: Seq<u8>, byte: u8) -> Seq<u8> {
    if partial.len() == 0 && byte != SENTINEL {
        Seq::empty()
    } else if partial.len() + 1 == FRAME_LEN {
        Seq::empty()
    } else {
        partial.push(byte)
    }
}

/// What the decoder asks for when `byte` comes in after `partial`: the message
/// and one acknowledgment when the byte completes a frame, nothing otherwise.
pub open spec fn outcome_of_byte(partial: Seq<u8>, byte: u8) -> Outcome {
    if partial.len() + 1 == FRAME_LEN {
        Outcome {
            message: Some(Message::from_payload(partial.push(byte).subrange(1, FRAME_LEN as int))),
            ack: Some(ACK),
        }
    } else {
        Outcome { message: None, ack: None }
    }
}

/// Reassembles messages from the bytes of the serial link.
#[derive(Debug)]
pub struct SerialConnector {
    buffer: [u8; 17],
    current_buffer_index: usize,
}

impl View for SerialConnector {
    type V = Seq<u8>;

    /// The bytes of the frame under way, sentinel first.
    closed spec fn view(&self) -> Seq<u8> {
        self.buffer@.take(self.current_buffer_index as int)
    }
}

impl SerialConnector {
    /// The fill index stays short of a whole frame, and a frame under way
    /// was opened by the sentinel.
    #[verifier::type_invariant]
    spec fn buffer_holds_partial_frame(&self) -> bool {
        &&& self.current_buffer_index < FRAME_LEN
        &&& self.current_buffer_index > 0 ==> self.buffer[0] == SENTINEL
    }

    /// A decoder that waits for the sentinel.
    pub fn new() -> (connector: SerialConnector)
        ensures
            connector@ == Seq::<u8>::empty(),
    {
        SerialConnector { buffer: [0u8; 17], current_buffer_index: 0 }
    }

    /// Number of bytes of the frame under way.
    pub fn pending(&self) -> (count: usize)
        ensures
            count == self@.len(),
            is_partial_frame(self@),
    {
        proof {
            use_type_invariant(self);
        }
        self.current_buffer_index
    }

    /// Takes one byte of the stream.
    pub fn feed(&mut self, byte: u8) -> (outcome: Outcome)
        ensures
            final(self)@ == partial_after_byte(old(self)@, byte),
            outcome == outcome_of_byte(old(self)@, byte),
            outcome.ack == (if outcome.message is Some {
                Some(ACK)
            } else {
                None
            }),
            is_partial_frame(final(self)@),
    {
        proof {
            use_type_invariant(&*self);
        }
        if self.current_buffer_index == 0 && byte != SENTINEL {
            return Outcome { message: None, ack: None };
        }
        let index: usize = self.current_buffer_index;
        self.buffer[index] = byte;
        if index + 1 == FRAME_LEN {
            let message = Message::from_frame(&self.buffer);
            self.current_buffer_index = 0;
            Outcome { message: Some(message), ack: Some(ACK) }
        } else {
            self.current_buffer_index = index + 1;
            Outcome { message: None, ack: None }
        }
    }

    /// Takes what the receiver handed over on one poll: a byte is fed to the
    /// decoder, anything else leaves it as it was.
    pub fn read(&mut self, received: RxEvent) -> (outcome: Outcome)
        ensures
            is_partial_frame(final(self)@),
            outcome.ack == (if outcome.message is Some {
                Some(ACK)
            } else {
                None
            }),
            match received {
                RxEvent::Byte(byte) => {
                    &&& final(self)@ == partial_after_byte(old(self)@, byte)
                    &&& outcome == outcome_of_byte(old(self)@, byte)
                },
                _ => {
                    &&& final(self)@ == old(self)@
                    &&& outcome == (Outcome { message: None, ack: None })
                },
            },
    {
        proof {
            use_type_invariant(&*self);
        }
        match received {
            RxEvent::Byte(byte) => self.feed(byte),
            RxEvent::WouldBlock => Outcome { message: None, ack: None },
            RxEvent::Fault => Outcome { message: None, ack: None },
        }
    }
}

} // verus!
