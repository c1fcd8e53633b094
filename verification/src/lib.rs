//! Software pulse-width modulation for four RGBW light groups, and the
//! sentinel-framed serial protocol that sets their brightness.
//!
//! The library decides and never touches hardware. A channel keeps a record
//! of its output line and reports, tick by tick, what was done to it; the
//! decoder takes the bytes of the serial link one at a time and hands back
//! the message of each whole frame together with the acknowledgment that is
//! owed for it. The program around the library repeats the actions on the
//! pins and moves the bytes.
//!
//! - [`pin`]: the record of an output line, and the actions on it.
//! - [`group`]: one channel, and the group of four that makes up a fixture.
//! - [`cycle`]: the cycle of one hundred frame positions, and what a channel
//!   shows over it.
//! - [`serial`]: colors, messages, and the decoder of the serial link.
//! - [`stream`]: what the decoder makes of a whole run of bytes.
//! - [`controller`]: the four groups, the decoder and the frame counter
//!   together, as the polling loop drives them.

pub mod controller;
pub mod cycle;
pub mod group;
pub mod pin;
pub mod serial;
pub mod stream;
