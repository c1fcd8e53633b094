//! The repeating cycle of frame positions, and what a channel shows over it.

use crate::group::ChannelState;
use vstd::prelude::*;

verus! {

/// Number of positions in one cycle of the frame counter.
pub const CYCLE_LEN: u8 = 100;

/// The position that follows `frame`: one more, and back to 0 at the end of
/// the cycle.
pub open spec fn following(frame: u8) -> u8 {
    if frame + 1 < CYCLE_LEN {
        (frame + 1) as u8
    } else {
        0
    }
}

/// Advances the frame counter by one position.
pub fn next_frame(frame: u8) -> (next: u8)
    ensures
        next == following(frame),
        next < CYCLE_LEN,
        frame < CYCLE_LEN ==> next == (frame + 1) % (CYCLE_LEN as int),
{
    if frame < CYCLE_LEN - 1 {
        frame + 1
    } else {
        0
    }
}

impl ChannelState {
    /// The channel after the ticks at positions `from`, `from + 1`, ...,
    /// `to - 1`, taken in this order.
    pub open spec fn run(self, from: nat, to: nat) -> ChannelState
        decreases to,
    {
        if to <= from {
            self
        } else {
            self.run(from, (to - 1) as nat).tick((to - 1) as u8)
        }
    }
}

/// Ticked from position 0 on, a channel forgets the level it started at: its
/// line is high exactly at the positions below its brightness.
pub proof fn lemma_level_from_cycle_start(channel: ChannelState, position: nat)
    requires
        position <= u8::MAX,
    ensures
        channel.run(0, position + 1).brightness == channel.brightness,
        channel.run(0, position + 1).high == (position < channel.brightness),
    decreases position,
{
    if position > 0 {
        lemma_level_from_cycle_start(channel, (position - 1) as nat);
    } else {
        assert(channel.run(0, 0) == channel);
    }
}

/// Ticked from a position past 0, a channel keeps the level it started at
/// until its off-step comes up, and is low from there on.
pub proof fn lemma_level_from_mid_cycle(channel: ChannelState, from: nat, to: nat)
    requires
        0 < from <= to <= u8::MAX + 1,
    ensures
        channel.run(from, to).brightness == channel.brightness,
        channel.run(from, to).high == (channel.high && !(from <= channel.brightness < to)),
    decreases to,
{
    if from < to {
        lemma_level_from_mid_cycle(channel, from, (to - 1) as nat);
    }
}

/// Duty is proportional to brightness: a channel of brightness 1 to 99,
/// ticked through the positions of a cycle in order, is high at the positions
/// below its brightness and low at all others.
pub proof fn lemma_duty_proportional(channel: ChannelState, brightness: u8, position: nat)
    requires
        1 <= brightness <= 99,
        position < CYCLE_LEN,
    ensures
        channel.with_brightness(brightness).run(0, position + 1).high == (position < brightness),
{
    lemma_level_from_cycle_start(channel.with_brightness(brightness), position);
}

/// A channel of brightness 0 is low at every position of the cycle, the
/// first one too.
pub proof fn lemma_zero_duty(channel: ChannelState, position: nat)
    requires
        position < CYCLE_LEN,
    ensures
        !channel.with_brightness(0).run(0, position + 1).high,
{
    lemma_level_from_cycle_start(channel.with_brightness(0), position);
}

/// A channel of brightness 100 or more is high at every position of the
/// cycle, and so shows nothing that brightness 255 would not show.
pub proof fn lemma_ceiling_duty(channel: ChannelState, brightness: u8, position: nat)
    requires
        brightness >= CYCLE_LEN,
        position < CYCLE_LEN,
    ensures
        channel.with_brightness(brightness).run(0, position + 1).high,
        channel.with_brightness(brightness).run(0, position + 1).high == channel.with_brightness(
            u8::MAX,
        ).run(0, position + 1).high,
{
    lemma_level_from_cycle_start(channel.with_brightness(brightness), position);
    lemma_level_from_cycle_start(channel.with_brightness(u8::MAX), position);
}

/// A brightness given before the tick at position `at`, past the start of
/// the cycle, leaves the line at its level through the rest of the cycle,
/// as long as the line is low or the new off-step does not come up in the
/// positions ticked.
pub proof fn lemma_duty_change_holds_level(
    channel: ChannelState,
    brightness: u8,
    at: nat,
    position: nat,
)
    requires
        0 < at <= position < CYCLE_LEN,
        !(channel.high && at <= brightness <= position),
    ensures
        channel.with_brightness(brightness).high == channel.high,
        channel.with_brightness(brightness).run(at, position + 1).high == channel.high,
{
    lemma_level_from_mid_cycle(channel.with_brightness(brightness), at, position + 1);
}

/// A brightness given before the tick at position `at` governs alone from
/// the next tick at position 0 on: whatever the channel was and showed
/// before, the line is high exactly at the positions below the new
/// brightness.
pub proof fn lemma_duty_change_governs_next_cycle(
    channel: ChannelState,
    brightness: u8,
    at: nat,
    position: nat,
)
    requires
        0 < at <= CYCLE_LEN,
        position < CYCLE_LEN,
    ensures
        channel.with_brightness(brightness).run(at, CYCLE_LEN as nat).run(0, position + 1).high == (
        position < brightness),
{
    lemma_level_from_mid_cycle(channel.with_brightness(brightness), at, CYCLE_LEN as nat);
    lemma_level_from_cycle_start(
        channel.with_brightness(brightness).run(at, CYCLE_LEN as nat),
        position,
    );
}

} // verus!
