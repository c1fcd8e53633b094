//! What the decoder makes of a whole run of bytes.

use crate::serial::{
    is_partial_frame, outcome_of_byte, partial_after_byte, Message, ACK, FRAME_LEN, PAYLOAD_LEN,
    SENTINEL,
};
use vstd::prelude::*;

verus! {

/// The bytes of the frame under way once the bytes of `input` have come in,
/// one after the other, after `partial`.
pub open spec fn partial_after(partial: Seq<u8>, input: Seq<u8>) -> Seq<u8>
    decreases input.len(),
{
    if input.len() == 0 {
        partial
    } else {
        partial_after_byte(partial_after(partial, input.drop_last()), input.last())
    }
}

/// The messages completed while the bytes of `input` come in after
/// `partial`, oldest first.
pub open spec fn messages_of(partial: Seq<u8>, input: Seq<u8>) -> Seq<Message>
    decreases input.len(),
{
    if input.len() == 0 {
        Seq::empty()
    } else {
        let earlier = messages_of(partial, input.drop_last());
        match outcome_of_byte(partial_after(partial, input.drop_last()), input.last()).message {
            Some(message) => earlier.push(message),
            None => earlier,
        }
    }
}

/// The bytes owed to the sender while the bytes of `input` come in after
/// `partial`, oldest first.
pub open spec fn acks_of(partial: Seq<u8>, input: Seq<u8>) -> Seq<u8>
    decreases input.len(),
{
    if input.len() == 0 {
        Seq::empty()
    } else {
        let earlier = acks_of(partial, input.drop_last());
        match outcome_of_byte(partial_after(partial, input.drop_last()), input.last()).ack {
            Some(ack) => earlier.push(ack),
            None => earlier,
        }
    }
}

/// A run of bytes can be taken in two parts: the second part starts from
/// what the first part left under way.
pub proof fn lemma_split_input(partial: Seq<u8>, first: Seq<u8>, second: Seq<u8>)
    ensures
        partial_after(partial, first + second) == partial_after(
            partial_after(partial, first),
            second,
        ),
        messages_of(partial, first + second) == messages_of(partial, first) + messages_of(
            partial_after(partial, first),
            second,
        ),
        acks_of(partial, first + second) == acks_of(partial, first) + acks_of(
            partial_after(partial, first),
            second,
        ),
    decreases second.len(),
{
    if second.len() > 0 {
        lemma_split_input(partial, first, second.drop_last());
        assert((first + second).drop_last() == first + second.drop_last());
    }
}

/// What is under way stays a well-formed part of a frame, whatever comes in.
pub proof fn lemma_partial_frame_is_kept(partial: Seq<u8>, input: Seq<u8>)
    requires
        is_partial_frame(partial),
    ensures
        is_partial_frame(partial_after(partial, input)),
    decreases input.len(),
{
    if input.len() > 0 {
        lemma_partial_frame_is_kept(partial, input.drop_last());
    }
}

/// Outside a frame, bytes other than the sentinel are dropped: nothing gets
/// under way, no message comes out and nothing is owed to the sender.
pub proof fn lemma_garbage_is_dropped(garbage: Seq<u8>)
    requires
        forall|i: int| 0 <= i < garbage.len() ==> garbage[i] != SENTINEL,
    ensures
        partial_after(Seq::empty(), garbage) == Seq::<u8>::empty(),
        messages_of(Seq::empty(), garbage) == Seq::<Message>::empty(),
        acks_of(Seq::empty(), garbage) == Seq::<u8>::empty(),
    decreases garbage.len(),
{
    if garbage.len() > 0 {
        lemma_garbage_is_dropped(garbage.drop_last());
    }
}

/// The sentinel, coming in outside a frame, opens one: it is stored, no
/// message comes out and nothing is owed.
pub proof fn lemma_sentinel_opens_frame()
    ensures
        partial_after(Seq::empty(), seq![SENTINEL]) == seq![SENTINEL],
        messages_of(Seq::empty(), seq![SENTINEL]) == Seq::<Message>::empty(),
        acks_of(Seq::empty(), seq![SENTINEL]) == Seq::<u8>::empty(),
{
    let head = seq![SENTINEL];
    let empty = Seq::<u8>::empty();
    assert(partial_after(empty, head.drop_last()) == empty);
    assert(messages_of(empty, head.drop_last()) == Seq::<Message>::empty());
    assert(acks_of(empty, head.drop_last()) == Seq::<u8>::empty());
}

/// Inside a frame, bytes that do not complete it are stored as they come,
/// whatever their value: no message comes out and nothing is owed.
pub proof fn lemma_payload_accumulates(partial: Seq<u8>, bytes: Seq<u8>)
    requires
        partial.len() > 0,
        partial.len() + bytes.len() < FRAME_LEN,
    ensures
        partial_after(partial, bytes) == partial + bytes,
        messages_of(partial, bytes) == Seq::<Message>::empty(),
        acks_of(partial, bytes) == Seq::<u8>::empty(),
    decreases bytes.len(),
{
    if bytes.len() > 0 {
        lemma_payload_accumulates(partial, bytes.drop_last());
    }
}

/// A whole frame, taken by a decoder that waits for the sentinel, gives its
/// message on the last byte and not before, is acknowledged once, and leaves
/// the decoder waiting for the next sentinel.
pub proof fn lemma_frame_decodes(payload: Seq<u8>)
    requires
        payload.len() == PAYLOAD_LEN,
    ensures
        partial_after(Seq::empty(), seq![SENTINEL] + payload) == Seq::<u8>::empty(),
        messages_of(Seq::empty(), seq![SENTINEL] + payload) == seq![Message::from_payload(payload)],
        acks_of(Seq::empty(), seq![SENTINEL] + payload) == seq![ACK],
        forall|n: int|
            0 <= n < FRAME_LEN ==> #[trigger] messages_of(
                Seq::empty(),
                (seq![SENTINEL] + payload).take(n),
            ) == Seq::<Message>::empty(),
{
    let frame = seq![SENTINEL] + payload;
    let empty = Seq::<u8>::empty();
    assert forall|n: int| 0 <= n < FRAME_LEN implies partial_after(empty, frame.take(n))
        == frame.take(n) && #[trigger] messages_of(empty, frame.take(n)) == Seq::<Message>::empty()
        && acks_of(empty, frame.take(n)) == Seq::<u8>::empty() by {
        if n > 0 {
            let head = seq![SENTINEL];
            let rest = frame.subrange(1, n);
            assert(frame.take(n) == head + rest);
            lemma_sentinel_opens_frame();
            lemma_split_input(empty, head, rest);
            lemma_payload_accumulates(head, rest);
        }
    }
    let stored = frame.take(PAYLOAD_LEN as int);
    assert(messages_of(empty, stored) == Seq::<Message>::empty());
    assert(Seq::<Message>::empty().push(Message::from_payload(payload)) == seq![
        Message::from_payload(payload),
    ]);
}

/// Resynchronisation: after any run of bytes other than the sentinel, of any
/// length, a whole frame still gives exactly one message, that of its sixteen
/// payload bytes, on its last byte and not before.
pub proof fn lemma_resync(garbage: Seq<u8>, payload: Seq<u8>)
    requires
        forall|i: int| 0 <= i < garbage.len() ==> garbage[i] != SENTINEL,
        payload.len() == PAYLOAD_LEN,
    ensures
        messages_of(Seq::empty(), garbage + (seq![SENTINEL] + payload)) == seq![
            Message::from_payload(payload),
        ],
        partial_after(Seq::empty(), garbage + (seq![SENTINEL] + payload)) == Seq::<u8>::empty(),
        forall|n: int|
            0 <= n < garbage.len() + FRAME_LEN ==> #[trigger] messages_of(
                Seq::empty(),
                (garbage + (seq![SENTINEL] + payload)).take(n),
            ) == Seq::<Message>::empty(),
{
    let frame = seq![SENTINEL] + payload;
    let input = garbage + frame;
    let empty = Seq::<u8>::empty();
    lemma_garbage_is_dropped(garbage);
    lemma_frame_decodes(payload);
    lemma_split_input(empty, garbage, frame);
    assert forall|n: int| 0 <= n < garbage.len() + FRAME_LEN implies #[trigger] messages_of(
        empty,
        input.take(n),
    ) == Seq::<Message>::empty() by {
        if n <= garbage.len() {
            assert(input.take(n) == garbage.take(n));
            assert forall|i: int| 0 <= i < garbage.take(n).len() implies garbage.take(n)[i]
                != SENTINEL by {}
            lemma_garbage_is_dropped(garbage.take(n));
        } else {
            let k = n - garbage.len();
            assert(input.take(n) == garbage + frame.take(k));
            lemma_split_input(empty, garbage, frame.take(k));
        }
    }
}

/// The sentinel has no special meaning inside a frame: a frame whose payload
/// holds the value 255, at whatever place, decodes to the message of its
/// sixteen payload bytes like any other.
pub proof fn lemma_sentinel_in_payload(payload: Seq<u8>, place: int)
    requires
        payload.len() == PAYLOAD_LEN,
        0 <= place < PAYLOAD_LEN,
        payload[place] == SENTINEL,
    ensures
        messages_of(Seq::empty(), seq![SENTINEL] + payload) == seq![Message::from_payload(payload)],
        place + 1 < PAYLOAD_LEN ==> partial_after(
            Seq::empty(),
            (seq![SENTINEL] + payload).take(place + 2),
        ) == (seq![SENTINEL] + payload).take(place + 2),
{
    lemma_frame_decodes(payload);
    let frame = seq![SENTINEL] + payload;
    if place + 2 < FRAME_LEN {
        let head = seq![SENTINEL];
        let rest = frame.subrange(1, place + 2);
        assert(frame.take(place + 2) == head + rest);
        lemma_sentinel_opens_frame();
        lemma_split_input(Seq::empty(), head, rest);
        lemma_payload_accumulates(head, rest);
    }
}

/// One acknowledgment per message: over any run of bytes, from any state,
/// the bytes owed to the sender are one `ACK` for each message completed, and
/// nothing else.
pub proof fn lemma_one_ack_per_message(partial: Seq<u8>, input: Seq<u8>)
    ensures
        acks_of(partial, input) == Seq::new(messages_of(partial, input).len(), |i: int| ACK),
    decreases input.len(),
{
    if input.len() > 0 {
        lemma_one_ack_per_message(partial, input.drop_last());
    }
}

} // verus!
