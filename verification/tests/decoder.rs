use rgbw_dimmer::serial::{
    Color, Message, Outcome, RxEvent, SerialConnector, ACK, FRAME_LEN, PAYLOAD_LEN, SENTINEL,
};

fn color(red: u8, green: u8, blue: u8, white: u8) -> Color {
    Color {
        red_brightness: red,
        green_brightness: green,
        blue_brightness: blue,
        white_brightness: white,
    }
}

const NOTHING: Outcome = Outcome { message: None, ack: None };

/// Feeds the bytes in order; returns the messages that came out and the bytes
/// owed to the sender, and checks that both come together.
fn feed_all(connector: &mut SerialConnector, bytes: &[u8]) -> (Vec<Message>, Vec<u8>) {
    let mut messages: Vec<Message> = Vec::new();
    let mut written: Vec<u8> = Vec::new();
    for byte in bytes {
        let outcome = connector.feed(*byte);
        assert_eq!(outcome.message.is_some(), outcome.ack.is_some());
        if let Some(message) = outcome.message {
            messages.push(message);
        }
        if let Some(ack) = outcome.ack {
            written.push(ack);
        }
    }
    (messages, written)
}

fn frame_of(payload: &[u8; 16]) -> Vec<u8> {
    let mut frame: Vec<u8> = vec![0xFF];
    frame.extend_from_slice(payload);
    frame
}

fn message_of(payload: &[u8; 16]) -> Message {
    Message {
        kitchen: color(payload[0], payload[1], payload[2], payload[3]),
        beamer: color(payload[4], payload[5], payload[6], payload[7]),
        stairs: color(payload[8], payload[9], payload[10], payload[11]),
        door: color(payload[12], payload[13], payload[14], payload[15]),
    }
}

#[test]
fn wire_constants() {
    assert_eq!(FRAME_LEN, 17);
    assert_eq!(PAYLOAD_LEN, 16);
    assert_eq!(SENTINEL, 255);
    assert_eq!(ACK, 255);
}

#[test]
fn color_from_buffer_reads_red_green_blue_white() {
    assert_eq!(Color::from_buffer(&[1, 2, 3, 4]), color(1, 2, 3, 4));
    assert_eq!(Color::from_buffer(&[0, 255, 0, 255]), color(0, 255, 0, 255));
}

#[test]
fn message_from_frame_skips_the_sentinel_and_keeps_all_sixteen_bytes() {
    let frame: [u8; 17] = [255, 1, 2, 3, 4, 5, 6, 7, 8, 9, 10, 11, 12, 13, 14, 15, 16];
    let message = Message::from_frame(&frame);
    assert_eq!(message.kitchen, color(1, 2, 3, 4));
    assert_eq!(message.beamer, color(5, 6, 7, 8));
    assert_eq!(message.stairs, color(9, 10, 11, 12));
    assert_eq!(message.door, color(13, 14, 15, 16));
}

#[test]
fn new_connector_has_nothing_under_way() {
    let connector = SerialConnector::new();
    assert_eq!(connector.pending(), 0);
}

#[test]
fn frame_decodes_on_its_last_byte_and_is_acknowledged_once() {
    let input: [u8; 17] = [0xFF, 10, 20, 30, 40, 50, 60, 70, 80, 0, 0, 0, 0, 255, 255, 255, 255];
    let mut connector = SerialConnector::new();
    for (index, byte) in input.iter().enumerate() {
        let outcome = connector.feed(*byte);
        if index < 16 {
            assert_eq!(outcome, NOTHING);
            assert_eq!(connector.pending(), index + 1);
        } else {
            assert_eq!(
                outcome.message,
                Some(Message {
                    kitchen: color(10, 20, 30, 40),
                    beamer: color(50, 60, 70, 80),
                    stairs: color(0, 0, 0, 0),
                    door: color(255, 255, 255, 255),
                })
            );
            assert_eq!(outcome.ack, Some(0xFF));
            assert_eq!(connector.pending(), 0);
        }
    }
}

#[test]
fn bytes_before_the_sentinel_are_dropped() {
    let mut connector = SerialConnector::new();
    for byte in 0..255u8 {
        assert_eq!(connector.feed(byte), NOTHING);
        assert_eq!(connector.pending(), 0);
    }
}

#[test]
fn frame_after_garbage_of_any_length_gives_exactly_one_message() {
    let payload: [u8; 16] = [9, 8, 7, 6, 5, 4, 3, 2, 1, 0, 11, 12, 13, 14, 15, 16];
    for garbage_len in [0usize, 1, 2, 16, 17, 18, 100, 1000] {
        let mut input: Vec<u8> = Vec::new();
        for index in 0..garbage_len {
            input.push((index % 255) as u8);
        }
        input.extend_from_slice(&frame_of(&payload));
        let mut connector = SerialConnector::new();
        let (early, early_acks) = feed_all(&mut connector, &input[..input.len() - 1]);
        assert!(early.is_empty());
        assert!(early_acks.is_empty());
        let last = connector.feed(input[input.len() - 1]);
        assert_eq!(last.message, Some(message_of(&payload)));
        assert_eq!(last.ack, Some(255));
        assert_eq!(connector.pending(), 0);
    }
}

#[test]
fn sentinel_value_inside_the_payload_is_plain_data() {
    for place in 0..16usize {
        let mut payload: [u8; 16] = [1, 2, 3, 4, 5, 6, 7, 8, 9, 10, 11, 12, 13, 14, 15, 16];
        payload[place] = 255;
        let mut connector = SerialConnector::new();
        let (messages, written) = feed_all(&mut connector, &frame_of(&payload));
        assert_eq!(messages, vec![message_of(&payload)]);
        assert_eq!(written, vec![255]);
        assert_eq!(connector.pending(), 0);
    }
    let all_sentinels: [u8; 16] = [255; 16];
    let mut connector = SerialConnector::new();
    let (messages, written) = feed_all(&mut connector, &frame_of(&all_sentinels));
    assert_eq!(messages, vec![message_of(&all_sentinels)]);
    assert_eq!(written, vec![255]);
}

#[test]
fn one_acknowledgment_per_frame_and_none_otherwise() {
    let first: [u8; 16] = [1; 16];
    let second: [u8; 16] = [2; 16];
    let third: [u8; 16] = [3; 16];
    let mut input: Vec<u8> = vec![0, 1, 2];
    input.extend_from_slice(&frame_of(&first));
    input.extend_from_slice(&frame_of(&second));
    input.extend_from_slice(&[4, 5, 6, 7]);
    input.extend_from_slice(&frame_of(&third));
    input.extend_from_slice(&[0xFF, 1, 2, 3]);
    let mut connector = SerialConnector::new();
    let (messages, written) = feed_all(&mut connector, &input);
    assert_eq!(messages, vec![message_of(&first), message_of(&second), message_of(&third)]);
    assert_eq!(written, vec![255, 255, 255]);
    assert_eq!(connector.pending(), 4);
}

#[test]
fn back_to_back_frames_decode_one_after_the_other() {
    let first: [u8; 16] = [10, 20, 30, 40, 50, 60, 70, 80, 0, 0, 0, 0, 255, 255, 255, 255];
    let second: [u8; 16] = [0; 16];
    let mut input: Vec<u8> = frame_of(&first);
    input.extend_from_slice(&frame_of(&second));
    let mut connector = SerialConnector::new();
    let (messages, _) = feed_all(&mut connector, &input);
    assert_eq!(messages, vec![message_of(&first), message_of(&second)]);
}

#[test]
fn lost_byte_shifts_the_stream_until_a_sentinel_meets_an_idle_decoder() {
    let payload: [u8; 16] = [1, 2, 3, 4, 5, 6, 7, 8, 9, 10, 11, 12, 13, 14, 15, 16];
    let mut input: Vec<u8> = frame_of(&payload);
    input.remove(5);
    input.extend_from_slice(&frame_of(&payload));
    let mut connector = SerialConnector::new();
    let (messages, written) = feed_all(&mut connector, &input);
    let shifted: [u8; 16] = [1, 2, 3, 4, 6, 7, 8, 9, 10, 11, 12, 13, 14, 15, 16, 255];
    assert_eq!(messages, vec![message_of(&shifted)]);
    assert_eq!(written, vec![255]);
    assert_eq!(connector.pending(), 0);
    let (later, _) = feed_all(&mut connector, &frame_of(&payload));
    assert_eq!(later, vec![message_of(&payload)]);
}

#[test]
fn read_feeds_a_byte_and_ignores_everything_else() {
    let mut connector = SerialConnector::new();
    assert_eq!(connector.read(RxEvent::WouldBlock), NOTHING);
    assert_eq!(connector.read(RxEvent::Fault), NOTHING);
    assert_eq!(connector.pending(), 0);
    assert_eq!(connector.read(RxEvent::Byte(3)), NOTHING);
    assert_eq!(connector.pending(), 0);
    assert_eq!(connector.read(RxEvent::Byte(255)), NOTHING);
    assert_eq!(connector.pending(), 1);
    for count in 0..15usize {
        assert_eq!(connector.read(RxEvent::Fault), NOTHING);
        assert_eq!(connector.read(RxEvent::WouldBlock), NOTHING);
        assert_eq!(connector.read(RxEvent::Byte(42)), NOTHING);
        assert_eq!(connector.pending(), count + 2);
    }
    assert_eq!(connector.read(RxEvent::Fault), NOTHING);
    let done = connector.read(RxEvent::Byte(43));
    assert_eq!(
        done,
        Outcome {
            message: Some(Message {
                kitchen: color(42, 42, 42, 42),
                beamer: color(42, 42, 42, 42),
                stairs: color(42, 42, 42, 42),
                door: color(42, 42, 42, 43),
            }),
            ack: Some(255),
        }
    );
    assert_eq!(connector.pending(), 0);
}
