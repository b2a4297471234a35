use aerosocket::client::connection::ClientConnection;
use aerosocket::connection::{Connection, ConnectionState, Event, Polled};
use aerosocket::server::handler::{DefaultHandler, HandlerAction};
use aerosocket::error::{CloseError, Error, FrameError, MessageError, ProtocolError};
use aerosocket::frame::{
    mask_bytes, parse_incremental, scan_frame, Frame, FrameParser, MaskPolicy, ParseConfig,
    ParseOutcome, Role,
};
use aerosocket::message::{Message, MessageAssembler};
use aerosocket::protocol::Opcode;
use aerosocket::server::manager::ConnectionManager;
use aerosocket::server::rate_limit::{RateLimitConfig, RateLimiter};
use aerosocket::transport::{IpAddress, SocketAddress};
use bytes::BytesMut;

fn any_config() -> ParseConfig {
    ParseConfig { compression_enabled: false, max_frame_size: 1 << 20, masking: MaskPolicy::Any }
}

fn roundtrip(frame: Frame, cfg: &ParseConfig) {
    let wire = frame.to_bytes();
    let mut followed = wire.to_vec();
    followed.extend_from_slice(&[0xAA, 0xBB]);
    match parse_incremental(&followed, cfg) {
        ParseOutcome::Complete { frame: back, consumed } => {
            assert_eq!(consumed, wire.len());
            assert_eq!(back.fin, frame.fin);
            assert_eq!(back.rsv, frame.rsv);
            assert_eq!(back.opcode, frame.opcode);
            assert_eq!(back.masked, frame.masked);
            assert_eq!(back.mask, frame.mask);
            assert_eq!(back.payload, frame.payload);
        }
        other => panic!("expected a frame, got {:?}", other),
    }
}

#[test]
fn parsing_undoes_encoding() {
    let cfg = any_config();
    roundtrip(Frame::text(b"hello".to_vec()), &cfg);
    roundtrip(Frame::text(Vec::new()), &cfg);
    roundtrip(Frame::binary(vec![7u8; 125]), &cfg);
    roundtrip(Frame::binary(vec![7u8; 126]), &cfg);
    roundtrip(Frame::binary(vec![7u8; 65535]), &cfg);
    roundtrip(Frame::binary(vec![7u8; 65536]), &cfg);
    roundtrip(Frame::text(b"masked".to_vec()).mask_with([1, 2, 3, 4]), &cfg);
    roundtrip(Frame::binary((0..=255u8).collect()).mask(true), &cfg);
    roundtrip(Frame::continuation(b"part".to_vec()).fin(false), &cfg);
    roundtrip(Frame::ping(vec![1, 2]), &cfg);
    roundtrip(Frame::pong(Vec::new()).mask_with([0xFF, 0, 0xFF, 0]), &cfg);
    roundtrip(Frame::close(Some(1000), Some("Goodbye")), &cfg);
}

#[test]
fn a_masked_frame_travels_masked() {
    let frame = Frame::text(b"Hello".to_vec()).mask_with([0x37, 0xfa, 0x21, 0x3d]);
    let wire = frame.to_bytes();
    // the example of RFC 6455, section 5.7
    assert_eq!(&wire[..], &[0x81, 0x85, 0x37, 0xfa, 0x21, 0x3d, 0x7f, 0x9f, 0x4d, 0x51, 0x58]);
    // the frame itself holds the text in the clear
    assert_eq!(frame.payload, "Hello");
}

#[test]
fn masking_twice_changes_nothing() {
    let key = [0x12, 0x34, 0x56, 0x78];
    let data: Vec<u8> = (0..200u8).collect();
    let masked = mask_bytes(&data, &key);
    assert_ne!(masked, data);
    assert_eq!(masked[0], 0x12);
    assert_eq!(masked[5], 5 ^ 0x34);
    assert_eq!(mask_bytes(&masked, &key), data);
    assert_eq!(mask_bytes(&[], &key), Vec::<u8>::new());
}

#[test]
fn the_length_takes_the_shortest_form() {
    let at = |n: usize| Frame::binary(vec![0u8; n]).to_bytes();
    assert_eq!(at(0)[1], 0);
    assert_eq!(at(0).len(), 2);
    assert_eq!(at(125)[1], 125);
    assert_eq!(at(125).len(), 2 + 125);
    assert_eq!(&at(126)[1..4], &[126, 0, 126]);
    assert_eq!(at(126).len(), 4 + 126);
    assert_eq!(&at(65535)[1..4], &[126, 0xFF, 0xFF]);
    assert_eq!(at(65535).len(), 4 + 65535);
    assert_eq!(&at(65536)[1..10], &[127, 0, 0, 0, 0, 0, 1, 0, 0]);
    assert_eq!(at(65536).len(), 10 + 65536);
}

#[test]
fn longer_length_forms_are_accepted_on_receive() {
    let cfg = any_config();
    // 16-bit form for a length below 126
    match parse_incremental(&[0x82, 126, 0, 3, 1, 2, 3], &cfg) {
        ParseOutcome::Complete { frame, consumed } => {
            assert_eq!(consumed, 7);
            assert_eq!(&frame.payload[..], &[1, 2, 3]);
        }
        other => panic!("expected a frame, got {:?}", other),
    }
    // 64-bit form for a length below 65536
    match parse_incremental(&[0x82, 127, 0, 0, 0, 0, 0, 0, 0, 2, 9, 8], &cfg) {
        ParseOutcome::Complete { frame, consumed } => {
            assert_eq!(consumed, 12);
            assert_eq!(&frame.payload[..], &[9, 8]);
        }
        other => panic!("expected a frame, got {:?}", other),
    }
}

#[test]
fn missing_bytes_are_counted() {
    let cfg = any_config();
    let need = |buf: &[u8]| match parse_incremental(buf, &cfg) {
        ParseOutcome::NeedMore { min_needed } => min_needed,
        other => panic!("expected to need more, got {:?}", other),
    };
    assert_eq!(need(&[]), 2);
    assert_eq!(need(&[0x81]), 1);
    assert_eq!(need(&[0x81, 5]), 5);
    assert_eq!(need(&[0x81, 5, b'h', b'e']), 3);
    assert_eq!(need(&[0x81, 0x85]), 9);
    assert_eq!(need(&[0x81, 126]), 2);
    assert_eq!(need(&[0x81, 126, 1]), 1);
    assert_eq!(need(&[0x81, 126, 1, 0]), 256);
    assert_eq!(need(&[0x81, 127, 0, 0]), 6);
    assert_eq!(need(&[0x81, 127, 0, 0, 0, 0, 0, 1, 0, 0]), 65536);
    // an opcode that is not defined is only looked at once the frame is whole
    assert_eq!(need(&[0x83, 1]), 1);
}

fn rejected(buf: &[u8], cfg: &ParseConfig) -> FrameError {
    match parse_incremental(buf, cfg) {
        ParseOutcome::Invalid(e) => e,
        other => panic!("expected a refusal, got {:?}", other),
    }
}

#[test]
fn structural_errors_are_told_apart() {
    let cfg = any_config();
    assert!(matches!(rejected(&[0x83, 0], &cfg), FrameError::InvalidOpcode(3)));
    assert!(matches!(rejected(&[0x8F, 0], &cfg), FrameError::InvalidOpcode(15)));
    assert!(matches!(rejected(&[0xA1, 0], &cfg), FrameError::ReservedBitsSet));
    assert!(matches!(rejected(&[0x91, 0], &cfg), FrameError::ReservedBitsSet));
    // the first reserved bit without compression
    assert!(matches!(rejected(&[0xC1, 0], &cfg), FrameError::ReservedBitsSet));
    assert!(matches!(rejected(&[0x09, 0], &cfg), FrameError::FragmentedControlFrame));
    let mut long_ping = vec![0x89, 126, 0, 126];
    long_ping.extend_from_slice(&[0u8; 126]);
    assert!(matches!(
        rejected(&long_ping, &cfg),
        FrameError::TooLarge { size: 126, max: 125 }
    ));
    let small = ParseConfig { max_frame_size: 4, ..cfg };
    assert!(matches!(
        rejected(&[0x82, 5, 1, 2, 3, 4, 5], &small),
        FrameError::TooLarge { size: 5, max: 4 }
    ));
    assert!(matches!(
        rejected(&[0x82, 127, 0x80, 0, 0, 0, 0, 0, 0, 0], &cfg),
        FrameError::InvalidHeader(_)
    ));
    let server = ParseConfig { masking: MaskPolicy::Masked, ..cfg };
    assert!(matches!(rejected(&[0x81, 1, b'x'], &server), FrameError::InvalidMasking(_)));
    let client = ParseConfig { masking: MaskPolicy::Unmasked, ..cfg };
    assert!(matches!(
        rejected(&[0x81, 0x81, 1, 2, 3, 4, b'x'], &client),
        FrameError::InvalidMasking(_)
    ));
    // the first reserved bit on a control frame, even with compression
    let deflate = ParseConfig { compression_enabled: true, ..cfg };
    assert!(matches!(rejected(&[0xC9, 0], &deflate), FrameError::ReservedBitsSet));
}

#[test]
fn parse_leaves_the_buffer_alone_unless_it_takes_a_frame() {
    let mut buf = BytesMut::from(&[0x81u8, 5, b'h'][..]);
    match Frame::parse(&mut buf, false) {
        Err(Error::Frame(FrameError::InsufficientData { needed, have })) => {
            assert_eq!(needed, 7);
            assert_eq!(have, 3);
        }
        other => panic!("expected insufficient data, got {:?}", other),
    }
    assert_eq!(buf.len(), 3);

    let mut bad = BytesMut::from(&[0x83u8, 0, 1, 2][..]);
    assert!(matches!(
        Frame::parse(&mut bad, false),
        Err(Error::Frame(FrameError::InvalidOpcode(3)))
    ));
    assert_eq!(bad.len(), 4);

    let mut two = BytesMut::from(&[0x81u8, 1, b'a', 0x81, 1, b'b'][..]);
    let first = Frame::parse(&mut two, false).unwrap();
    assert_eq!(first.payload, "a");
    assert_eq!(&two[..], &[0x81, 1, b'b']);
}

#[test]
fn encoding_refuses_what_may_not_be_sent() {
    assert!(matches!(
        Frame::ping(vec![0u8; 126]).encode(Role::Server),
        Err(FrameError::TooLarge { size: 126, max: 125 })
    ));
    assert!(matches!(
        Frame::ping(Vec::new()).fin(false).encode(Role::Server),
        Err(FrameError::FragmentedControlFrame)
    ));
    assert!(matches!(
        Frame::text(b"x".to_vec()).mask_with([1, 2, 3, 4]).encode(Role::Server),
        Err(FrameError::InvalidMasking(_))
    ));
    let mut odd = Frame::text(b"x".to_vec());
    odd.masked = true;
    assert!(matches!(odd.encode(Role::Client), Err(FrameError::InvalidMasking(_))));
    assert_eq!(
        Frame::text(b"hello".to_vec()).encode(Role::Server).unwrap(),
        vec![0x81, 0x05, b'h', b'e', b'l', b'l', b'o']
    );
    assert_eq!(
        Frame::text(b"hi".to_vec()).mask_with([0, 0, 0, 0]).encode(Role::Client).unwrap(),
        vec![0x81, 0x82, 0, 0, 0, 0, b'h', b'i']
    );
}

#[test]
fn write_to_appends_to_the_buffer() {
    let mut buf = BytesMut::from(&b"ab"[..]);
    Frame::pong(vec![9]).write_to(&mut buf);
    assert_eq!(&buf[..], &[b'a', b'b', 0x8A, 1, 9]);
}

#[test]
fn checked_close_frames() {
    assert!(Frame::try_close(None, None).unwrap().payload.is_empty());
    assert_eq!(
        &Frame::try_close(Some(1000), Some("Goodbye")).unwrap().payload[..],
        b"\x03\xe8Goodbye"
    );
    assert_eq!(Frame::try_close(Some(4999), None).unwrap().payload.len(), 2);
    assert!(matches!(
        Frame::try_close(Some(1005), None),
        Err(CloseError::InvalidCode { code: 1005 })
    ));
    assert!(matches!(
        Frame::try_close(Some(999), None),
        Err(CloseError::InvalidCode { code: 999 })
    ));
    assert!(matches!(
        Frame::try_close(None, Some("why")),
        Err(CloseError::InvalidCode { code: 1005 })
    ));
    let long = "x".repeat(124);
    assert!(matches!(
        Frame::try_close(Some(1000), Some(&long)),
        Err(CloseError::ReasonTooLong { len: 124, max: 123 })
    ));
    assert!(Frame::try_close(Some(1000), Some(&long[..123])).is_ok());
}

#[test]
fn compression_is_undone_by_parsing() {
    let text = b"hello hello hello hello hello hello hello hello".to_vec();
    let frame = Frame::text(text.clone()).compress(true);
    assert!(frame.rsv[0]);
    assert_ne!(&frame.payload[..], &text[..]);
    assert!(frame.payload.len() < text.len());
    // the marker of the sync flush is cut off
    assert!(!frame.payload.ends_with(&[0x00, 0x00, 0xFF, 0xFF]));
    let wire = frame.to_bytes();
    assert_eq!(wire[0], 0xC1);

    let cfg = ParseConfig { compression_enabled: true, ..any_config() };
    match parse_incremental(&wire, &cfg) {
        ParseOutcome::Complete { frame: back, consumed } => {
            assert_eq!(consumed, wire.len());
            assert!(back.rsv[0]);
            assert_eq!(&back.payload[..], &text[..]);
        }
        other => panic!("expected a frame, got {:?}", other),
    }
    // without inflating, the payload comes back as it travelled
    match scan_frame(&wire, &cfg) {
        ParseOutcome::Complete { frame: raw, .. } => assert_eq!(raw.payload, frame.payload),
        other => panic!("expected a frame, got {:?}", other),
    }
    // what does not inflate is refused
    assert!(matches!(
        rejected(&[0xC1, 3, 0xFF, 0xFF, 0xFF], &cfg),
        FrameError::DecompressionFailed
    ));
}

#[test]
fn compression_passes_over_what_it_does_not_apply_to() {
    let ping = Frame::ping(vec![1, 2, 3]).compress(true);
    assert!(!ping.rsv[0]);
    assert_eq!(&ping.payload[..], &[1, 2, 3]);
    let empty = Frame::text(Vec::new()).compress(true);
    assert!(!empty.rsv[0]);
    let off = Frame::text(b"abc".to_vec()).compress(false);
    assert!(!off.rsv[0]);
    assert_eq!(off.payload, "abc");
}

#[test]
fn the_parser_drains_whole_frames() {
    let mut parser = FrameParser::new();
    let mut stream = Frame::text(b"one".to_vec()).to_bytes().to_vec();
    stream.extend_from_slice(&Frame::binary(vec![1, 2]).to_bytes());
    stream.extend_from_slice(&[0x81, 3, b'x']);
    let frames = parser.feed(&stream);
    assert_eq!(frames.len(), 2);
    assert_eq!(frames[0].as_ref().unwrap().payload, "one");
    assert_eq!(&frames[1].as_ref().unwrap().payload[..], &[1, 2]);
    assert_eq!(parser.buffered_bytes(), 3);
    let frames = parser.feed(&[b'y', b'z']);
    assert_eq!(frames.len(), 1);
    assert_eq!(frames[0].as_ref().unwrap().payload, "xyz");
    assert_eq!(parser.buffered_bytes(), 0);
    // bytes that are no frame end the output and empty the buffer
    let frames = parser.feed(&[0x81, 1, b'a', 0x83, 0, 0x81, 1, b'b']);
    assert_eq!(frames.len(), 2);
    assert!(frames[0].is_ok());
    assert!(matches!(frames[1], Err(Error::Frame(FrameError::InvalidOpcode(3)))));
    assert_eq!(parser.buffered_bytes(), 0);
    parser.feed(&[0x81]);
    assert_eq!(parser.buffered_bytes(), 1);
    parser.clear();
    assert_eq!(parser.buffered_bytes(), 0);
}

#[test]
fn a_close_frame_is_read_as_code_and_reason() {
    let wire = [0x88, 0x09, 0x03, 0xE8, b'G', b'o', b'o', b'd', b'b', b'y', b'e'];
    let frame = match parse_incremental(&wire, &any_config()) {
        ParseOutcome::Complete { frame, consumed } => {
            assert_eq!(consumed, 11);
            frame
        }
        other => panic!("expected a frame, got {:?}", other),
    };
    let mut assembler = MessageAssembler::new();
    match assembler.feed_frame(frame).unwrap() {
        Some(Message::Close(close)) => {
            assert_eq!(close.code(), Some(1000));
            assert_eq!(close.reason(), "Goodbye");
            assert_eq!(close.len(), 9);
        }
        other => panic!("expected a close, got {:?}", other),
    }
}

#[test]
fn the_assembler_holds_no_more_than_it_was_fed() {
    let mut assembler = MessageAssembler::with_max_message_size(10);
    assert_eq!(assembler.buffered_bytes(), 0);
    assert!(assembler.feed_frame(Frame::text(b"ab".to_vec()).fin(false)).unwrap().is_none());
    assert_eq!(assembler.buffered_bytes(), 2);
    // a control frame in between gives its message and leaves the fragments alone
    match assembler.feed_frame(Frame::ping(vec![1, 2, 3])).unwrap() {
        Some(Message::Ping(p)) => assert_eq!(p.as_bytes(), &[1, 2, 3]),
        other => panic!("expected a ping, got {:?}", other),
    }
    assert_eq!(assembler.buffered_bytes(), 2);
    assert!(assembler.is_assembling());
    assert!(assembler.feed_frame(Frame::continuation(b"cd".to_vec()).fin(false)).unwrap().is_none());
    assert_eq!(assembler.buffered_bytes(), 4);
    match assembler.feed_frame(Frame::continuation(b"ef".to_vec())).unwrap() {
        Some(Message::Text(t)) => assert_eq!(t.as_str(), "abcdef"),
        other => panic!("expected a text, got {:?}", other),
    }
    assert_eq!(assembler.buffered_bytes(), 0);
    assert!(!assembler.is_assembling());
    // an unfragmented message leaves nothing behind either
    assert!(assembler.feed_frame(Frame::binary(vec![0; 10])).unwrap().is_some());
    assert_eq!(assembler.buffered_bytes(), 0);
}

#[test]
fn the_assembler_refuses_frames_out_of_order() {
    let mut assembler = MessageAssembler::with_max_message_size(4);
    assert!(matches!(
        assembler.feed_frame(Frame::continuation(b"x".to_vec())),
        Err(Error::Protocol(ProtocolError::InvalidFrame(_)))
    ));
    assert!(assembler.feed_frame(Frame::text(b"a".to_vec()).fin(false)).is_ok());
    assert!(matches!(
        assembler.feed_frame(Frame::text(b"b".to_vec())),
        Err(Error::Protocol(ProtocolError::InvalidFrame(_)))
    ));
    // the refusal drops the message in progress
    assert_eq!(assembler.buffered_bytes(), 0);
    assert!(!assembler.is_assembling());

    assert!(matches!(
        assembler.feed_frame(Frame::binary(vec![0; 5])),
        Err(Error::Message(MessageError::TooLarge { size: 5, max: 4 }))
    ));
    assert!(assembler.feed_frame(Frame::binary(vec![0; 3]).fin(false)).is_ok());
    assert!(matches!(
        assembler.feed_frame(Frame::continuation(vec![0; 2])),
        Err(Error::Message(MessageError::TooLarge { size: 5, max: 4 }))
    ));
    assert!(matches!(
        assembler.feed_frame(Frame::text(vec![0xFF, 0xFE])),
        Err(Error::InvalidUtf8)
    ));
    assert!(matches!(
        assembler.feed_frame(Frame::new(Opcode::Reserved3, Vec::new())),
        Err(Error::Protocol(ProtocolError::InvalidFrame(_)))
    ));
}

#[test]
fn the_assembler_checks_control_frames() {
    let mut assembler = MessageAssembler::new();
    assert!(matches!(
        assembler.feed_frame(Frame::ping(Vec::new()).fin(false)),
        Err(Error::Protocol(ProtocolError::FragmentedControlFrame))
    ));
    assert!(matches!(
        assembler.feed_frame(Frame::pong(vec![0; 126])),
        Err(Error::Message(MessageError::TooLarge { size: 126, max: 125 }))
    ));
    assert!(matches!(
        assembler.feed_frame(Frame::new(Opcode::Close, vec![3])),
        Err(Error::Protocol(ProtocolError::InvalidFrame(_)))
    ));
    assert!(matches!(
        assembler.feed_frame(Frame::close(Some(1005), None)),
        Err(Error::Protocol(ProtocolError::InvalidCloseCode(1005)))
    ));
    assert!(matches!(
        assembler.feed_frame(Frame::close(Some(2999), None)),
        Err(Error::Protocol(ProtocolError::InvalidCloseCode(2999)))
    ));
    assert!(matches!(
        assembler.feed_frame(Frame::new(Opcode::Close, vec![0x03, 0xE8, 0xFF])),
        Err(Error::Close(CloseError::InvalidUtf8))
    ));
    match assembler.feed_frame(Frame::close(None, None)).unwrap() {
        Some(Message::Close(close)) => {
            assert_eq!(close.code(), None);
            assert_eq!(close.reason(), "");
            assert!(close.is_empty());
        }
        other => panic!("expected a close, got {:?}", other),
    }
    match assembler.feed_frame(Frame::close(Some(3000), None)).unwrap() {
        Some(Message::Close(close)) => assert_eq!(close.code(), Some(3000)),
        other => panic!("expected a close, got {:?}", other),
    }
}

#[test]
fn test_message_display() {
    let text_msg = Message::text("hello");
    let binary_msg = Message::binary(vec![1, 2, 3]);

    assert_eq!(text_msg.to_string(), "Text(hello)");
    assert_eq!(binary_msg.to_string(), "Binary(3 bytes)");
}

#[test]
fn messages_are_described() {
    assert_eq!(Message::text("hello").to_string(), "Text(hello)");
    assert_eq!(Message::binary(vec![1, 2, 3]).to_string(), "Binary(3 bytes)");
    assert_eq!(Message::ping(Some(vec![4, 5])).to_string(), "Ping(2 bytes)");
    assert_eq!(Message::pong(None).to_string(), "Pong(0 bytes)");
    assert_eq!(
        Message::close(Some(1000), Some("Goodbye".to_string())).to_string(),
        "Close(1000: Goodbye)"
    );
    assert_eq!(Message::binary(vec![0; 1234]).to_string(), "Binary(1234 bytes)");
}

fn server_connection() -> Connection {
    Connection::with_stream(
        SocketAddress::v4(10, 0, 0, 1, 4000),
        SocketAddress::v4(10, 0, 0, 9, 8080),
        100,
    )
}

#[test]
fn states_only_advance() {
    let (connecting, connected, closing, closed) = (
        ConnectionState::Connecting,
        ConnectionState::Connected,
        ConnectionState::Closing,
        ConnectionState::Closed,
    );
    let all = [connecting, connected, closing, closed];
    let events = [
        Event::Established,
        Event::CloseReceived,
        Event::CloseSent,
        Event::Eof,
        Event::IoError,
        Event::ProtocolFailure,
        Event::Evicted,
        Event::Activity,
    ];
    let rank = |s: ConnectionState| all.iter().position(|x| *x == s).unwrap();
    for s in all {
        for e in events {
            assert!(rank(s.next(e)) >= rank(s));
        }
        assert_eq!(closed.next(events[0]), closed);
    }
    assert_eq!(connecting.next(Event::Established), connected);
    assert_eq!(connected.next(Event::CloseReceived), closing);
    assert_eq!(closing.next(Event::CloseReceived), closed);
    assert_eq!(connected.next(Event::CloseSent), closed);
    assert_eq!(connected.next(Event::IoError), closed);
    assert_eq!(connected.next(Event::Activity), connected);
}

#[test]
fn a_ping_is_answered_before_anything_else() {
    let mut conn = server_connection();
    // a masked ping with the payload 01 02, then a masked text
    conn.feed(&[0x89, 0x82, 0, 0, 0, 0, 0x01, 0x02]).unwrap();
    conn.feed(&[0x81, 0x82, 1, 1, 1, 1, b'h' ^ 1, b'i' ^ 1]).unwrap();
    match conn.poll(101) {
        Polled::Reply(bytes) => assert_eq!(bytes, vec![0x8A, 0x02, 0x01, 0x02]),
        other => panic!("expected a pong to write, got {:?}", other),
    }
    match conn.poll(102) {
        Polled::Message(Message::Text(t)) => assert_eq!(t.as_str(), "hi"),
        other => panic!("expected a text, got {:?}", other),
    }
    assert!(matches!(conn.poll(103), Polled::NeedMore { min_needed: 2 }));
    // the ping is not counted as a message received
    assert_eq!(conn.metadata().messages_received, 1);
    assert_eq!(conn.metadata().bytes_received, 2);
    // asking for more counts as activity
    assert_eq!(conn.metadata().last_activity_at, 103);
}

#[test]
fn a_close_is_confirmed_and_ends_the_connection() {
    let mut conn = server_connection();
    conn.feed(&[0x88, 0x82, 0, 0, 0, 0, 0x03, 0xE8]).unwrap();
    match conn.poll(101) {
        Polled::Message(Message::Close(close)) => assert_eq!(close.code(), Some(1000)),
        other => panic!("expected a close, got {:?}", other),
    }
    assert_eq!(conn.state(), ConnectionState::Closing);
    let bytes = conn.close(Some(1000), None, 102).unwrap();
    assert_eq!(bytes, vec![0x88, 0x02, 0x03, 0xE8]);
    assert_eq!(conn.state(), ConnectionState::Closed);
    assert!(conn.is_closed());
    // nothing is sent after that
    match conn.send_text("late", 103) {
        Err(Error::Connection(reason)) => assert_eq!(reason, "NotConnected"),
        other => panic!("expected a refusal, got {:?}", other),
    }
    assert!(matches!(conn.poll(104), Polled::Closed));
    assert_eq!(conn.metadata().messages_sent, 1);
}

#[test]
fn closes_that_cross_end_the_connection() {
    let mut conn = server_connection();
    conn.feed(&[0x88, 0x80, 0, 0, 0, 0]).unwrap();
    assert!(matches!(conn.poll(101), Polled::Message(Message::Close(_))));
    assert_eq!(conn.state(), ConnectionState::Closing);
    conn.feed(&[0x88, 0x80, 0, 0, 0, 0]).unwrap();
    assert!(matches!(conn.poll(102), Polled::Message(Message::Close(_))));
    assert_eq!(conn.state(), ConnectionState::Closed);
}

#[test]
fn a_breach_of_the_protocol_is_answered_with_the_fitting_code() {
    // an unmasked frame from a client
    let mut conn = server_connection();
    conn.feed(&[0x81, 1, b'x']).unwrap();
    match conn.poll(101) {
        Polled::Failed { error, close } => {
            assert!(matches!(error, Error::Frame(FrameError::InvalidMasking(_))));
            assert_eq!(close, vec![0x88, 0x02, 0x03, 0xEA]); // 1002
        }
        other => panic!("expected a failure, got {:?}", other),
    }
    assert_eq!(conn.state(), ConnectionState::Closed);

    // a text that is not UTF-8
    let mut conn = server_connection();
    conn.feed(&[0x81, 0x82, 0, 0, 0, 0, 0xFF, 0xFE]).unwrap();
    match conn.poll(101) {
        Polled::Failed { error, close } => {
            assert!(matches!(error, Error::InvalidUtf8));
            assert_eq!(close, vec![0x88, 0x02, 0x03, 0xEF]); // 1007
        }
        other => panic!("expected a failure, got {:?}", other),
    }

    // a frame beyond the limit
    let mut conn = server_connection();
    conn.set_limits(4, 8);
    conn.feed(&[0x82, 0x85, 0, 0, 0, 0, 1, 2, 3, 4, 5]).unwrap();
    match conn.poll(101) {
        Polled::Failed { error, close } => {
            assert!(matches!(error, Error::Frame(FrameError::TooLarge { size: 5, max: 4 })));
            assert_eq!(close, vec![0x88, 0x02, 0x03, 0xF1]); // 1009
        }
        other => panic!("expected a failure, got {:?}", other),
    }

    // a message beyond the limit
    let mut conn = server_connection();
    conn.set_limits(4, 6);
    conn.feed(&[0x02, 0x84, 0, 0, 0, 0, 1, 2, 3, 4]).unwrap();
    conn.feed(&[0x80, 0x83, 0, 0, 0, 0, 5, 6, 7]).unwrap();
    assert!(matches!(conn.poll(101), Polled::Nothing));
    match conn.poll(102) {
        Polled::Failed { error, close } => {
            assert!(matches!(error, Error::Message(MessageError::TooLarge { size: 7, max: 6 })));
            assert_eq!(close, vec![0x88, 0x02, 0x03, 0xF1]);
        }
        other => panic!("expected a failure, got {:?}", other),
    }
}

#[test]
fn the_end_of_the_stream_closes() {
    let mut conn = server_connection();
    conn.on_eof();
    assert_eq!(conn.state(), ConnectionState::Closed);
    let mut conn = server_connection();
    conn.on_io_error();
    assert_eq!(conn.state(), ConnectionState::Closed);
    let mut conn = Connection::new(
        SocketAddress::v4(10, 0, 0, 1, 4000),
        SocketAddress::v4(10, 0, 0, 9, 8080),
        0,
    );
    assert!(conn.send_text("early", 1).is_err());
    conn.set_connected(5);
    assert!(conn.is_connected());
    assert_eq!(conn.age(15), 15);
    assert_eq!(conn.idle_time(15), 10);
    conn.evict();
    assert!(conn.is_closed());
}

#[test]
fn an_echo_goes_round() {
    let mut client = ClientConnection::with_stream(SocketAddress::v4(10, 0, 0, 9, 8080), 0);
    let mut server = server_connection();

    let to_server = client.send_text("hello", 1).unwrap();
    server.feed(&to_server).unwrap();
    let received = match server.poll(2) {
        Polled::Message(m) => m,
        other => panic!("expected a message, got {:?}", other),
    };
    let reply = match DefaultHandler::new().react(received) {
        HandlerAction::Send(m) => m,
        other => panic!("expected something to send, got {:?}", other),
    };
    let to_client = server.send(reply, 3).unwrap();
    assert_eq!(to_client, vec![0x81, 5, b'h', b'e', b'l', b'l', b'o']);
    client.feed(&to_client).unwrap();
    match client.next(4) {
        Polled::Message(Message::Text(t)) => assert_eq!(t.as_str(), "hello"),
        other => panic!("expected a text, got {:?}", other),
    }
    assert_eq!(server.metadata().messages_received, 1);
    assert_eq!(server.metadata().messages_sent, 1);
    assert_eq!(server.metadata().bytes_received, 5);
    assert_eq!(server.metadata().bytes_sent, 7);
}

#[test]
fn a_ping_of_a_client_is_masked_and_short() {
    let mut client = ClientConnection::with_stream(SocketAddress::v4(10, 0, 0, 9, 8080), 0);
    let bytes = client.ping(Some(vec![7; 125]), 1).unwrap();
    assert_eq!(bytes.len(), 2 + 4 + 125);
    assert_eq!(bytes[0], 0x89);
    assert_eq!(bytes[1], 0x80 | 125);
    assert!(matches!(
        client.ping(Some(vec![7; 126]), 2),
        Err(Error::Frame(FrameError::TooLarge { size: 126, max: 125 }))
    ));
    assert_eq!(client.metadata().messages_sent, 1);
}

#[test]
fn admissions_and_releases_balance() {
    let config = RateLimitConfig {
        max_requests: 1000,
        window: 60_000,
        max_connections: 3,
        connection_timeout: 1,
    };
    let mut limiter = RateLimiter::new(config);
    let peer = IpAddress::V4(0xC0A8_0001).key();
    let other = IpAddress::V6(0xC0A8_0001).key();
    assert_ne!(peer, other);
    for round in 0..5u64 {
        let mut granted = 0;
        for i in 0..5u64 {
            if limiter.try_admit(peer, round * 10 + i) {
                granted += 1;
            }
        }
        assert_eq!(granted, 3);
        assert_eq!(limiter.get_stats().active_connections, 1);
        for _ in 0..granted {
            limiter.release(peer);
        }
        // as many releases as admissions: the peer has no counter left
        assert_eq!(limiter.get_stats().active_connections, 0);
    }
    // a release without a connection changes nothing
    limiter.release(peer);
    assert_eq!(limiter.get_stats().active_connections, 0);
    assert_eq!(limiter.get_stats().tracked_ips, 1);
}

#[test]
fn a_refusal_for_connections_does_not_use_up_requests() {
    let config = RateLimitConfig {
        max_requests: 3,
        window: 1_000,
        max_connections: 1,
        connection_timeout: 1,
    };
    let mut limiter = RateLimiter::new(config);
    let peer = 42u128;
    assert!(limiter.try_admit(peer, 0));
    // refused for the number of connections, any number of times
    for t in 1..10 {
        assert!(!limiter.try_admit(peer, t));
    }
    limiter.release(peer);
    assert!(limiter.try_admit(peer, 10));
    limiter.release(peer);
    assert!(limiter.try_admit(peer, 11));
    limiter.release(peer);
    // now the three requests of the window are used up
    assert!(!limiter.try_admit(peer, 12));
    assert_eq!(limiter.get_stats().active_connections, 0);
    // a new window
    assert!(limiter.try_admit(peer, 1_000));
}

#[test]
fn old_request_counters_are_dropped() {
    let config = RateLimitConfig {
        max_requests: 3,
        window: 100,
        max_connections: 10,
        connection_timeout: 1,
    };
    let mut limiter = RateLimiter::new(config);
    assert!(limiter.check_request_rate(1, 0));
    assert!(limiter.check_request_rate(2, 150));
    assert_eq!(limiter.get_stats().tracked_ips, 2);
    limiter.cleanup(199);
    assert_eq!(limiter.get_stats().tracked_ips, 2);
    limiter.cleanup(200);
    assert_eq!(limiter.get_stats().tracked_ips, 1);
    limiter.cleanup(350);
    assert_eq!(limiter.get_stats().tracked_ips, 0);
}

#[test]
fn a_broadcast_leaves_one_connection_out() {
    let mut manager = ConnectionManager::new(10);
    let a = manager.add_connection(server_connection()).unwrap();
    let b = manager.add_connection(server_connection()).unwrap();
    let c = manager.add_connection(server_connection()).unwrap();
    // a connection that is not established cannot send
    let d = manager
        .add_connection(Connection::new(
            SocketAddress::v4(10, 0, 0, 1, 4000),
            SocketAddress::v4(10, 0, 0, 9, 8080),
            0,
        ))
        .unwrap();
    let deliveries = manager.broadcast_text("news", Some(b), 200);
    let ids: Vec<u64> = deliveries.iter().map(|d| d.id).collect();
    assert_eq!(ids, vec![a, c]);
    assert!(!ids.contains(&b));
    assert!(!ids.contains(&d));
    for delivery in &deliveries {
        assert_eq!(delivery.bytes, vec![0x81, 4, b'n', b'e', b'w', b's']);
    }
    assert_eq!(manager.get_connection(a).unwrap().metadata().messages_sent, 1);
    assert_eq!(manager.get_connection(b).unwrap().metadata().messages_sent, 0);
    // the connection that could not send is still registered
    assert_eq!(manager.connection_count(), 4);

    let deliveries = manager.broadcast_binary(&[1, 2, 3], None, 201);
    let ids: Vec<u64> = deliveries.iter().map(|d| d.id).collect();
    assert_eq!(ids, vec![a, b, c]);
    assert_eq!(deliveries[1].bytes, vec![0x82, 3, 1, 2, 3]);
}

#[test]
fn idle_connections_are_swept() {
    let remote = SocketAddress::v4(10, 0, 0, 1, 4000);
    let local = SocketAddress::v4(10, 0, 0, 9, 8080);
    let mut manager = ConnectionManager::new(10);
    let a = manager.add_connection(Connection::with_timeout(remote, local, Some(100), 0)).unwrap();
    let b = manager.add_connection(Connection::with_timeout(remote, local, Some(500), 0)).unwrap();
    let c = manager.add_connection(Connection::with_timeout(remote, local, None, 0)).unwrap();
    let d = manager.add_connection(Connection::with_timeout(remote, local, Some(100), 0)).unwrap();
    // activity on d at time 60
    manager.send(d, Message::text("x"), 60).unwrap();
    assert_eq!(manager.sweep_idle(100), Vec::<u64>::new());
    assert_eq!(manager.sweep_idle(101), vec![a]);
    assert_eq!(manager.get_all_connections(), vec![b, c, d]);
    assert_eq!(manager.sweep_idle(600), vec![b, d]);
    assert_eq!(manager.get_all_connections(), vec![c]);
    let stats = manager.get_stats();
    assert_eq!(stats.timeout_closures, 3);
    assert_eq!(stats.active_connections, 1);
    assert_eq!(stats.peak_connections, 4);
    assert_eq!(stats.total_connections, 4);
}

#[test]
fn the_registry_is_the_authority_on_capacity() {
    let mut manager = ConnectionManager::new(2);
    assert_eq!(manager.add_connection(server_connection()).unwrap(), 1);
    assert_eq!(manager.add_connection(server_connection()).unwrap(), 2);
    assert!(manager.is_full());
    assert!(matches!(
        manager.add_connection(server_connection()),
        Err(Error::CapacityExceeded { size: 2 })
    ));
    assert!(manager.remove_connection(1, aerosocket::server::manager::CloseReason::Error).is_some());
    assert!(manager.remove_connection(1, aerosocket::server::manager::CloseReason::Error).is_none());
    // ids are never given twice
    assert_eq!(manager.add_connection(server_connection()).unwrap(), 3);
    assert_eq!(manager.get_stats().error_closures, 1);
    assert!(manager.get_connection(1).is_none());
    assert!(manager.get_connection(3).is_some());
}

#[test]
fn the_registry_drives_its_connections() {
    let mut manager = ConnectionManager::new(2);
    let id = manager.add_connection(server_connection()).unwrap();
    manager.feed(id, &[0x89, 0x80, 0, 0, 0, 0]).unwrap();
    match manager.poll(id, 1) {
        Polled::Reply(bytes) => assert_eq!(bytes, vec![0x8A, 0]),
        other => panic!("expected a pong to write, got {:?}", other),
    }
    assert!(matches!(manager.poll(77, 1), Polled::Closed));
    assert!(manager.feed(77, &[1]).is_err());
    assert!(manager.send(77, Message::text("x"), 1).is_err());
    manager.on_stream_end(id);
    assert!(manager.get_connection(id).unwrap().is_closed());
}

#[test]
fn addresses_are_written_out() {
    assert_eq!(SocketAddress::v4(127, 0, 0, 1, 8080).to_string(), "127.0.0.1:8080");
    assert_eq!(SocketAddress::v4(255, 255, 255, 255, 0).to_string(), "255.255.255.255:0");
    let v6 = SocketAddress { ip: IpAddress::V6(1), port: 443 };
    assert_eq!(v6.to_string(), "[0:0:0:0:0:0:0:1]:443");
    let v6 = IpAddress::V6(0x2001_0db8_0000_0000_0000_ff00_0042_8329);
    assert_eq!(v6.to_string(), "2001:db8:0:0:0:ff00:42:8329");
    assert_eq!(IpAddress::V4(0x7F00_0001).key(), 0xFFFF_7F00_0001);
}

#[test]
fn a_compressed_frame_is_sent_and_read_back() {
    let mut server = server_connection();
    server.set_negotiated(None, vec!["permessage-deflate".to_string()], true);
    let mut client = ClientConnection::with_stream(SocketAddress::v4(10, 0, 0, 9, 8080), 0);
    client.set_negotiated(None, vec!["permessage-deflate".to_string()], true);

    let text = "aaaaaaaaaaaaaaaaaaaaaaaaaaaaaaaaaaaaaaaaaaaaaaaaaaaaaaaaaaaaaaaa";
    let frame = Message::text(text).to_frame().compress_at(true, 9);
    assert!(frame.rsv[0]);
    let wire = client.send_frame(frame, 1).unwrap();
    assert!(wire.len() < text.len());
    assert_eq!(wire[0], 0xC1);
    assert_eq!(wire[1] & 0x80, 0x80);
    server.feed(&wire).unwrap();
    match server.poll(2) {
        Polled::Message(Message::Text(t)) => assert_eq!(t.as_str(), text),
        other => panic!("expected a text, got {:?}", other),
    }
    // without the extension the same bytes are refused
    let mut plain = server_connection();
    plain.feed(&wire).unwrap();
    match plain.poll(2) {
        Polled::Failed { error, close } => {
            assert!(matches!(error, Error::Frame(FrameError::ReservedBitsSet)));
            assert_eq!(close, vec![0x88, 0x02, 0x03, 0xEA]);
        }
        other => panic!("expected a failure, got {:?}", other),
    }
    // a level above nine counts as nine
    let same = Message::text(text).to_frame().compress_at(true, 200);
    let nine = Message::text(text).to_frame().compress_at(true, 9);
    assert_eq!(same.payload, nine.payload);
}

#[test]
fn a_server_unmasks_what_it_sends() {
    let mut server = server_connection();
    let frame = Frame::text(b"x".to_vec()).mask_with([9, 9, 9, 9]);
    assert_eq!(server.send_frame(frame, 1).unwrap(), vec![0x81, 1, b'x']);
    let fragment = Frame::text(b"ab".to_vec()).fin(false);
    assert_eq!(server.send_frame(fragment, 2).unwrap(), vec![0x01, 2, b'a', b'b']);
    assert_eq!(server.send_frame(Frame::continuation(b"c".to_vec()), 3).unwrap(), vec![0x80, 1, b'c']);
    assert_eq!(server.metadata().messages_sent, 3);
}

#[test]
fn a_copy_of_a_frame_holds_the_same_bytes() {
    let frame = Frame::binary(vec![1, 2, 3]).mask_with([4, 5, 6, 7]);
    let copy = frame.clone();
    assert_eq!(copy.payload, frame.payload);
    assert_eq!(copy.to_bytes(), frame.to_bytes());
}

#[test]
fn a_close_that_may_not_be_sent_is_refused() {
    let mut conn = server_connection();
    for code in [1005u16, 1006, 1015, 999, 2000, 5000] {
        match conn.close(Some(code), None, 5) {
            Err(Error::Close(CloseError::InvalidCode { code: c })) => assert_eq!(c, code),
            other => panic!("expected a refusal of {}, got {:?}", code, other),
        }
    }
    match conn.close(None, Some("bye"), 5) {
        Err(Error::Close(CloseError::InvalidCode { code })) => assert_eq!(code, 1005),
        other => panic!("expected a refusal, got {:?}", other),
    }
    let long = "r".repeat(124);
    match conn.close(Some(1000), Some(&long), 5) {
        Err(Error::Close(CloseError::ReasonTooLong { len, max })) => assert_eq!((len, max), (124, 123)),
        other => panic!("expected a refusal, got {:?}", other),
    }
    // nothing was sent and nothing changed
    assert_eq!(conn.state(), ConnectionState::Connected);
    assert_eq!(conn.metadata().messages_sent, 0);

    let mut client = ClientConnection::with_stream(SocketAddress::v4(10, 0, 0, 9, 8080), 0);
    assert!(matches!(client.close(Some(1006), None, 5), Err(Error::Close(_))));
    assert_eq!(client.state(), ConnectionState::Connected);

    let bytes = conn.close(Some(3000), Some("done"), 6).unwrap();
    assert_eq!(bytes, vec![0x88, 0x06, 0x0B, 0xB8, b'd', b'o', b'n', b'e']);
    assert_eq!(conn.state(), ConnectionState::Closed);
}
