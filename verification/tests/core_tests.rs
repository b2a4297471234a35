use aerosocket::error::{CloseCode, Error, FrameError, ProtocolError};
use aerosocket::frame::{Frame, FrameKind, FrameParser};
use aerosocket::handshake::{
    compute_accept_key, create_client_handshake, generate_key, parse_client_handshake,
    validate_key, HandshakeConfig,
};
use aerosocket::message::{Message, MessageAssembler, MessageKind};
use aerosocket::protocol::constants::DEFAULT_MAX_FRAME_SIZE;
use aerosocket::protocol::utils;
use aerosocket::protocol::Opcode;
use aerosocket::transport::TransportConfig;
use bytes::BytesMut;

#[test]
fn test_close_code_conversion() {
    assert_eq!(CloseCode::from(1000), CloseCode::Normal);
    assert_eq!(CloseCode::from(3000), CloseCode::Application(3000));
    assert_eq!(CloseCode::from(999), CloseCode::ProtocolError);
}

#[test]
fn test_error_display() {
    let err = Error::Protocol(ProtocolError::UnsupportedVersion);
    let msg = err.to_string();
    println!("Error message: {}", msg);
    assert!(msg.contains("protocol") || msg.contains("version") || msg.contains("WebSocket"));
}

#[test]
fn test_text_frame_serialization() {
    let frame = Frame::text(b"hello".to_vec());
    let bytes = frame.to_bytes();

    assert_eq!(bytes[0], 0x81); // FIN=1, RSV=000, Opcode=0001
    assert_eq!(bytes[1], 0x05); // MASK=0, Length=5
    assert_eq!(&bytes[2..], b"hello");
}

#[test]
fn test_masked_frame() {
    let frame = Frame::text(b"hello".to_vec()).mask(true);
    let bytes = frame.to_bytes();

    assert_eq!(bytes[1] & 0x80, 0x80); // MASK bit set
    assert_eq!(bytes.len(), 2 + 4 + 5); // header + mask + payload
}

#[test]
fn test_frame_parsing() {
    let written = Frame::text(b"hello".to_vec());
    let bytes = written.to_bytes();
    let mut buf = BytesMut::from(&bytes[..]);

    let parsed = Frame::parse(&mut buf, false).unwrap();
    assert_eq!(parsed.kind(), FrameKind::Text);
    assert_eq!(parsed.payload, "hello");
    assert!(buf.is_empty());
}

#[test]
fn test_large_frame() {
    let payload = vec![0u8; 65536]; // 64KB
    let frame = Frame::binary(payload.clone());
    let bytes = frame.to_bytes();

    assert_eq!(bytes[1], 127); // Extended 64-bit length
    assert_eq!(bytes[2..10], (65536u64).to_be_bytes());
}

#[test]
fn test_close_frame() {
    let frame = Frame::close(Some(1000), Some("Goodbye"));
    let bytes = frame.to_bytes();

    assert_eq!(bytes[0], 0x88); // FIN=1, Opcode=8
    assert_eq!(bytes[1], 0x09); // Length=9: 2 bytes code + 7 bytes reason
    assert_eq!(&bytes[2..4], 1000u16.to_be_bytes());
    assert_eq!(&bytes[4..], b"Goodbye");
    assert_eq!(bytes.len(), 11); // Total frame length
}

#[test]
fn test_frame_parser() {
    let mut parser = FrameParser::new();

    let frame1 = Frame::text(b"frame1".to_vec());
    let frame2 = Frame::ping(b"ping".to_vec());

    let bytes1 = frame1.to_bytes();
    let bytes2 = frame2.to_bytes();

    // Feed partial data
    let frames = parser.feed(&bytes1[..5]);
    assert_eq!(frames.len(), 0); // Not enough data

    // Feed remaining data
    let frames = parser.feed(&bytes1[5..]);
    assert_eq!(frames.len(), 1);
    assert!(frames[0].as_ref().unwrap().is_data());

    // Feed second frame
    let frames = parser.feed(&bytes2);
    assert_eq!(frames.len(), 1);
    assert!(frames[0].as_ref().unwrap().is_control());
}

#[test]
fn test_key_generation() {
    let key = generate_key();
    assert_eq!(key.len(), 24);
    assert!(validate_key(&key));
}

#[test]
fn test_accept_key_calculation() {
    let key = "dGhlIHNhbXBsZSBub25jZQ=="; // "the sample nonce"
    let expected = "s3pPLMBiTxaQ9kYGzzhZRbK+xOo=";
    let accept = compute_accept_key(key).unwrap();
    assert_eq!(accept, expected);
}

#[test]
fn test_client_handshake_creation() {
    let config = HandshakeConfig {
        host: Some("example.com".to_string()),
        protocols: vec!["chat".to_string()],
        ..Default::default()
    };

    let request = create_client_handshake("ws://example.com/chat", &config).unwrap();
    assert_eq!(request.method, "GET");
    assert_eq!(request.uri, "ws://example.com/chat");
    assert_eq!(request.headers.get("upgrade").unwrap(), "websocket");
    assert_eq!(request.headers.get("sec-websocket-protocol").unwrap(), "chat");
}

#[test]
fn test_client_handshake_parsing() {
    let raw_request = r#"GET /chat HTTP/1.1
Host: example.com
Upgrade: websocket
Connection: Upgrade
Sec-WebSocket-Key: dGhlIHNhbXBsZSBub25jZQ==
Sec-WebSocket-Version: 13

"#;

    let request = parse_client_handshake(raw_request).unwrap();
    assert_eq!(request.method, "GET");
    assert_eq!(request.uri, "/chat");
    assert_eq!(request.headers.get("upgrade").unwrap(), "websocket");
}

#[test]
fn test_text_message() {
    let msg = Message::text("hello");
    assert_eq!(msg.kind(), MessageKind::Text);
    assert_eq!(msg.as_text(), Some("hello"));
    assert!(msg.is_data());
    assert!(!msg.is_control());
}

#[test]
fn test_binary_message() {
    let data = vec![1, 2, 3, 4];
    let msg = Message::binary(data.clone());
    assert_eq!(msg.kind(), MessageKind::Binary);
    assert_eq!(msg.as_bytes(), &data[..]);
    assert!(msg.is_data());
    assert!(!msg.is_control());
}

#[test]
fn test_control_messages() {
    let ping = Message::ping(Some(vec![1, 2, 3]));
    let pong = Message::pong(Some(vec![4, 5, 6]));
    let close = Message::close(Some(1000), Some("Goodbye".to_string()));

    assert!(ping.is_control());
    assert!(pong.is_control());
    assert!(close.is_control());
}

#[test]
fn test_close_message() {
    let msg = Message::close(Some(1000), Some("Goodbye".to_string()));
    if let Message::Close(close_msg) = msg {
        assert_eq!(close_msg.code(), Some(1000));
        assert_eq!(close_msg.reason(), "Goodbye");
    } else {
        panic!("Expected close message");
    }
}

#[test]
fn test_message_assembler() {
    let mut assembler = MessageAssembler::new();

    // Feed fragmented text frames
    let frame1 = Frame::new(Opcode::Text, b"Hello, ".to_vec()).fin(false);
    let frame2 = Frame::new(Opcode::Continuation, b"world!".to_vec()).fin(true);

    let msg1 = assembler.feed_frame(frame1).unwrap();
    assert!(msg1.is_none()); // Not complete yet
    assert!(assembler.is_assembling());

    let msg2 = assembler.feed_frame(frame2).unwrap();
    assert!(msg2.is_some()); // Complete message
    assert!(!assembler.is_assembling());

    if let Some(Message::Text(text_msg)) = msg2 {
        assert_eq!(text_msg.as_str(), "Hello, world!");
    } else {
        panic!("Expected text message");
    }
}

#[test]
fn test_opcode_conversion() {
    assert_eq!(Opcode::from(0x1), Some(Opcode::Text));
    assert_eq!(Opcode::from(0xFF), None);
    assert_eq!(Opcode::Text.value(), 0x1);
    assert!(Opcode::Ping.is_control());
    assert!(Opcode::Binary.is_data());
    assert!(Opcode::Reserved3.is_reserved());
}

#[test]
fn test_websocket_key_generation() {
    let key = utils::generate_key();
    assert!(utils::validate_key(&key));
}

#[test]
fn test_websocket_accept_calculation() {
    let key = "dGhlIHNhbXBsZSBub25jZQ=="; // "the sample nonce"
    let expected = "s3pPLMBiTxaQ9kYGzzhZRbK+xOo=";
    assert_eq!(utils::calculate_accept(key), expected);
}

#[test]
fn test_close_code_validation() {
    assert!(utils::is_valid_close_code(1000));
    assert!(utils::is_valid_close_code(3000));
    assert!(!utils::is_valid_close_code(999));
}

#[test]
fn test_transport_config_default() {
    let config = TransportConfig::default();
    assert_eq!(config.max_frame_size, DEFAULT_MAX_FRAME_SIZE);
    assert!(config.nodelay);
}

#[test]
fn test_library_compiles() {
    // Basic test to ensure the library compiles correctly
    assert_eq!(aerosocket::NAME, "aerosocket");
}

#[test]
fn test_message_handling() {
    // Test text message
    let text_msg = Message::text("Hello, World!");
    match text_msg {
        Message::Text(text) => assert_eq!(text.as_str(), "Hello, World!"),
        _ => panic!("Expected text message"),
    }

    // Test binary message
    let binary_data = vec![1, 2, 3, 4, 5];
    let binary_msg = Message::binary(binary_data.clone());
    match binary_msg {
        Message::Binary(data) => assert_eq!(data.as_bytes(), &binary_data[..]),
        _ => panic!("Expected binary message"),
    }

    // Test ping message
    let ping_data = vec![9, 8, 7];
    let ping_msg = Message::ping(Some(ping_data.clone()));
    match ping_msg {
        Message::Ping(data) => assert_eq!(data.as_bytes(), &ping_data[..]),
        _ => panic!("Expected ping message"),
    }

    // Test pong message
    let pong_data = vec![6, 5, 4];
    let pong_msg = Message::pong(Some(pong_data.clone()));
    match pong_msg {
        Message::Pong(data) => assert_eq!(data.as_bytes(), &pong_data[..]),
        _ => panic!("Expected pong message"),
    }

    // Test close message
    let close_msg = Message::close(Some(1000), Some("Normal closure".to_string()));
    match close_msg {
        Message::Close(code_and_reason) => {
            assert_eq!(code_and_reason.code(), Some(1000));
            assert_eq!(code_and_reason.reason(), "Normal closure");
        }
        _ => panic!("Expected close message"),
    }
}

#[test]
fn frame_error_display_names_the_sizes() {
    let err = Error::Frame(FrameError::TooLarge { size: 126, max: 125 });
    assert_eq!(err.to_string(), "Frame error: Frame too large: 126 bytes (max: 125)");
    assert_eq!(CloseCode::TooBig.to_string(), "TooBig (1009)");
}
