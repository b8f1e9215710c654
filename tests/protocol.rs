use zwave::checksum::{compute, verify};
use zwave::engine::{Engine, Poll, Received};
use zwave::frame::{encode_data, read_frame, Frame, FrameRead, ACK, CAN, NACK, SOF};
use zwave::handshake::{Handshake, LinkAction, LinkConfig, LinkEvent, LinkPhase};
use zwave::message::{ApplicationUpdate, Message, MsgError, Request};

#[test]
fn it_works() {}

#[test]
fn checksum_exact_value() {
    assert_eq!(compute(4, &[0x00, 0x49, 0x84]), 0x36);
    assert_eq!(compute(5, &[0x00, 0x49, 0x84, 0x07]), 0x30);
    assert_eq!(compute(0, &[]), 0xFF);
    assert_eq!(compute(0xFF, &[]), 0x00);
}

#[test]
fn checksum_round_trip() {
    let payloads: [&[u8]; 4] = [&[], &[0x00], &[0x01, 0x02, 0x03], &[0xFF, 0xFF, 0x10, 0x20, 0x30]];
    for len in [0u8, 1, 4, 200, 255] {
        for p in payloads.iter() {
            let ck = compute(len, p);
            assert!(verify(len, p, ck));
            assert!(!verify(len, p, ck ^ 0x01));
        }
    }
}

#[test]
fn short_buffers_give_short_message() {
    assert_eq!(Message::decode(&[]), Err(MsgError::ShortMessage));
    assert_eq!(Message::decode(&[0x00]), Err(MsgError::ShortMessage));
    assert_eq!(Message::decode(&[0xFF]), Err(MsgError::ShortMessage));
}

#[test]
fn corrupted_byte_gives_invalid_checksum() {
    let body = [0x00u8, 0x49, 0x84, 0x07, 0x30];
    assert!(Message::decode(&body).is_ok());
    for i in 0..body.len() {
        for v in 0..=255u8 {
            if v == body[i] {
                continue;
            }
            let mut bad = body;
            bad[i] = v;
            assert_eq!(Message::decode(&bad), Err(MsgError::InvalidChecksum));
        }
    }
}

#[test]
fn info_received_decodes() {
    let buf = [SOF, 0x05, 0x00, 0x49, 0x84, 0x07, 0x30];
    match read_frame(&buf) {
        FrameRead::Complete { frame: Frame::Data { body }, consumed } => {
            assert_eq!(consumed, 7);
            assert_eq!(
                Message::decode(body),
                Ok(Message::Request(Request::ApplicationUpdate(ApplicationUpdate::InfoReceived {
                    node_id: 0x07,
                    rest: &[],
                })))
            );
        }
        other => panic!("unexpected {:?}", other),
    }
}

#[test]
fn info_received_keeps_rest() {
    let bytes = [0x00u8, 0x49, 0x84, 0x0C, 0xAA, 0xBB];
    let frame = encode_data(&bytes).unwrap();
    let body = &frame[2..];
    assert_eq!(
        Message::decode(body),
        Ok(Message::Request(Request::ApplicationUpdate(ApplicationUpdate::InfoReceived {
            node_id: 0x0C,
            rest: &[0xAA, 0xBB],
        })))
    );
}

#[test]
fn info_received_without_node_id_is_short() {
    let buf = [SOF, 0x04, 0x00, 0x49, 0x84, 0x36];
    match read_frame(&buf) {
        FrameRead::Complete { frame: Frame::Data { body }, consumed } => {
            assert_eq!(consumed, 6);
            assert_eq!(Message::decode(body), Err(MsgError::ShortMessage));
        }
        other => panic!("unexpected {:?}", other),
    }
}

#[test]
fn unknown_tags_at_each_layer() {
    // Request with an unknown kind.
    let ck = compute(4, &[0x00, 0x50, 0x01]);
    assert_eq!(
        Message::decode(&[0x00, 0x50, 0x01, ck]),
        Err(MsgError::UnknownType { data: &[0x50, 0x01] })
    );
    // Application update with an unknown kind.
    let ck = compute(4, &[0x00, 0x49, 0x85]);
    assert_eq!(Message::decode(&[0x00, 0x49, 0x85, ck]), Err(MsgError::UnknownType { data: &[0x85] }));
    // A response: no kind of it is known.
    let ck = compute(4, &[0x01, 0x15, 0x02]);
    assert_eq!(
        Message::decode(&[0x01, 0x15, 0x02, ck]),
        Err(MsgError::UnknownType { data: &[0x15, 0x02] })
    );
    // A request with nothing after its tag.
    let ck = compute(2, &[0x00]);
    assert_eq!(Message::decode(&[0x00, ck]), Err(MsgError::ShortMessage));
}

#[test]
fn unknown_top_level_type_is_consumed_whole() {
    let ck = compute(3, &[0x02, 0xAA]);
    assert_eq!(ck, 0xFF ^ 0x03 ^ 0x02 ^ 0xAA);
    let buf = [SOF, 0x03, 0x02, 0xAA, ck, ACK];
    match read_frame(&buf) {
        FrameRead::Complete { frame: Frame::Data { body }, consumed } => {
            assert_eq!(consumed, 5);
            assert_eq!(Message::decode(body), Err(MsgError::UnknownType { data: &[0x02, 0xAA] }));
            assert_eq!(
                read_frame(&buf[consumed..]),
                FrameRead::Complete { frame: Frame::Ack, consumed: 1 }
            );
        }
        other => panic!("unexpected {:?}", other),
    }
}

#[test]
fn decoding_twice_gives_equal_messages() {
    let body = [0x00u8, 0x49, 0x84, 0x07, 0x30];
    assert_eq!(Message::decode(&body), Message::decode(&body));
    let bad = [0x02u8, 0x00, 0x00];
    assert_eq!(Message::decode(&bad), Message::decode(&bad));
}

#[test]
fn control_and_unknown_frames() {
    assert_eq!(read_frame(&[ACK]), FrameRead::Complete { frame: Frame::Ack, consumed: 1 });
    assert_eq!(read_frame(&[NACK, 0x01]), FrameRead::Complete { frame: Frame::Nack, consumed: 1 });
    assert_eq!(read_frame(&[CAN]), FrameRead::Complete { frame: Frame::Cancel, consumed: 1 });
    assert_eq!(read_frame(&[0x42, ACK]), FrameRead::UnknownFrameType { tag: 0x42, consumed: 1 });
    assert_eq!(read_frame(&[]), FrameRead::Incomplete);
    assert_eq!(read_frame(&[SOF]), FrameRead::Incomplete);
    assert_eq!(read_frame(&[SOF, 0x03, 0x00, 0x01]), FrameRead::Incomplete);
    assert_eq!(
        read_frame(&[SOF, 0x00, ACK]),
        FrameRead::Complete { frame: Frame::Data { body: &[] }, consumed: 2 }
    );
}

#[test]
fn encode_data_frames() {
    assert_eq!(encode_data(&[0x00, 0x49, 0x84, 0x07]), Some(vec![SOF, 0x05, 0x00, 0x49, 0x84, 0x07, 0x30]));
    assert_eq!(encode_data(&[]), None);
    assert_eq!(encode_data(&[0u8; 255]), None);
    let longest = encode_data(&[0x11u8; 254]).unwrap();
    assert_eq!(longest.len(), 257);
    assert_eq!(longest[1], 0xFF);
    match read_frame(&longest) {
        FrameRead::Complete { frame: Frame::Data { body }, consumed } => {
            assert_eq!(consumed, 257);
            assert_eq!(body.len(), 255);
            assert_ne!(Message::decode(body), Err(MsgError::InvalidChecksum));
        }
        other => panic!("unexpected {:?}", other),
    }
}

fn sent_and_awaiting(max_retries: u32) -> Handshake {
    let mut link = Handshake::new(LinkConfig { ack_timeout_ms: 100_000, max_retries });
    assert_eq!(link.send(&[0x00, 0x13]), LinkAction::Transmit);
    assert_eq!(link.pending_frame(), &[SOF, 0x03, 0x00, 0x13, 0xFF ^ 0x03 ^ 0x13][..]);
    assert_eq!(link.phase(), LinkPhase::WritingMessage);
    assert_eq!(link.on_event(LinkEvent::WriteComplete), LinkAction::AwaitAck);
    assert_eq!(link.phase(), LinkPhase::AwaitingAck);
    link
}

#[test]
fn nack_nack_ack_retransmits_twice() {
    let mut link = sent_and_awaiting(3);
    let mut retransmissions = 0;
    for e in [LinkEvent::NackReceived, LinkEvent::NackReceived, LinkEvent::AckReceived] {
        match link.on_event(e) {
            LinkAction::Retransmit => {
                retransmissions += 1;
                assert_eq!(link.on_event(LinkEvent::WriteComplete), LinkAction::AwaitAck);
            }
            LinkAction::Delivered => {}
            other => panic!("unexpected {:?}", other),
        }
    }
    assert_eq!(retransmissions, 2);
    assert_eq!(link.phase(), LinkPhase::ReadingFrame);
    assert_eq!(link.pending_frame(), &[][..]);
}

#[test]
fn timeouts_retransmit_up_to_the_limit() {
    let mut link = sent_and_awaiting(2);
    assert_eq!(link.on_event(LinkEvent::Timeout), LinkAction::Retransmit);
    assert_eq!(link.retries(), 1);
    assert_eq!(link.on_event(LinkEvent::WriteComplete), LinkAction::AwaitAck);
    assert_eq!(link.on_event(LinkEvent::Timeout), LinkAction::Retransmit);
    assert_eq!(link.retries(), 2);
    assert_eq!(link.on_event(LinkEvent::WriteComplete), LinkAction::AwaitAck);
    assert_eq!(link.on_event(LinkEvent::Timeout), LinkAction::RetryLimitExceeded);
    assert_eq!(link.phase(), LinkPhase::ReadingFrame);
    assert_eq!(link.retries(), 0);
}

#[test]
fn no_retries_allowed_fails_at_first_nack() {
    let mut link = sent_and_awaiting(0);
    assert_eq!(link.on_event(LinkEvent::CancelReceived), LinkAction::RetryLimitExceeded);
}

#[test]
fn default_config() {
    let c = LinkConfig::new();
    assert_eq!(c.ack_timeout_ms, 100_000);
    assert_eq!(c.max_retries, 3);
    assert_eq!(Handshake::new(c).config(), c);
}

#[test]
fn data_frames_are_answered() {
    let mut link = Handshake::new(LinkConfig::new());
    assert_eq!(link.on_event(LinkEvent::DataReceived { checksum_ok: true }), LinkAction::WriteControl(ACK));
    assert_eq!(link.phase(), LinkPhase::WritingAck);
    assert_eq!(link.on_event(LinkEvent::WriteComplete), LinkAction::ReadMore);
    assert_eq!(link.on_event(LinkEvent::DataReceived { checksum_ok: false }), LinkAction::WriteControl(NACK));
    assert_eq!(link.on_event(LinkEvent::WriteComplete), LinkAction::ReadMore);
    assert_eq!(link.phase(), LinkPhase::ReadingFrame);
}

#[test]
fn data_frame_while_awaiting_ack_counts_as_nack() {
    let mut link = sent_and_awaiting(3);
    assert_eq!(link.on_event(LinkEvent::DataReceived { checksum_ok: true }), LinkAction::WriteControl(ACK));
    assert_eq!(link.phase(), LinkPhase::WritingAck);
    assert_eq!(link.on_event(LinkEvent::WriteComplete), LinkAction::Retransmit);
    assert_eq!(link.retries(), 1);
    assert_eq!(link.phase(), LinkPhase::WritingMessage);
}

#[test]
fn one_message_in_flight() {
    let mut link = sent_and_awaiting(3);
    assert_eq!(link.send(&[0x00, 0x14]), LinkAction::Busy);
    assert_eq!(link.pending_frame()[3], 0x13);
    let mut idle = Handshake::new(LinkConfig::new());
    assert_eq!(idle.send(&[]), LinkAction::Unframeable);
    assert_eq!(idle.phase(), LinkPhase::ReadingFrame);
}

#[test]
fn stray_events_are_ignored() {
    let mut link = Handshake::new(LinkConfig::new());
    assert_eq!(link.on_event(LinkEvent::AckReceived), LinkAction::Ignored);
    assert_eq!(link.on_event(LinkEvent::Timeout), LinkAction::Ignored);
    assert_eq!(link.on_event(LinkEvent::WriteComplete), LinkAction::Ignored);
    assert_eq!(link.phase(), LinkPhase::ReadingFrame);
}

#[test]
fn engine_takes_frames_in_order() {
    let mut engine = Engine::new(LinkConfig::new());
    let ck = compute(5, &[0x00, 0x49, 0x84, 0x07]);
    engine.push_bytes(&[SOF, 0x05, 0x00, 0x49]);
    assert_eq!(engine.poll(), Poll { received: Received::Nothing, action: LinkAction::ReadMore });
    assert_eq!(engine.buffered(), 4);
    engine.push_bytes(&[0x84, 0x07, ck, 0x42]);
    let p = engine.poll();
    assert_eq!(p.action, LinkAction::WriteControl(ACK));
    match &p.received {
        Received::Data(body) => {
            assert_eq!(body, &vec![0x00, 0x49, 0x84, 0x07, ck]);
            assert!(Message::decode(body).is_ok());
        }
        other => panic!("unexpected {:?}", other),
    }
    assert_eq!(engine.buffered(), 1);
    assert_eq!(engine.write_complete(), LinkAction::ReadMore);
    assert_eq!(engine.poll(), Poll { received: Received::UnknownFrameType(0x42), action: LinkAction::ReadMore });
    assert_eq!(engine.buffered(), 0);
}

#[test]
fn engine_nacks_a_damaged_frame() {
    let mut engine = Engine::new(LinkConfig::new());
    engine.push_bytes(&[SOF, 0x03, 0x00, 0x13, 0x00]);
    let p = engine.poll();
    assert_eq!(p.action, LinkAction::WriteControl(NACK));
    assert_eq!(p.received, Received::Data(vec![0x00, 0x13, 0x00]));
}

#[test]
fn engine_send_and_ack() {
    let mut engine = Engine::new(LinkConfig::new());
    assert_eq!(engine.send(&[0x00, 0x13]), LinkAction::Transmit);
    assert_eq!(engine.pending_frame().len(), 5);
    assert_eq!(engine.write_complete(), LinkAction::AwaitAck);
    assert_eq!(engine.timeout(), LinkAction::Retransmit);
    assert_eq!(engine.write_complete(), LinkAction::AwaitAck);
    engine.push_bytes(&[ACK]);
    assert_eq!(engine.poll(), Poll { received: Received::Ack, action: LinkAction::Delivered });
    assert_eq!(engine.phase(), LinkPhase::ReadingFrame);
}
