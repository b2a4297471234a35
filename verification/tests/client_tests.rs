use aerosocket::client::client::{Client, ClientBuilder};
use aerosocket::client::config::ClientConfig;
use aerosocket::client::connection::{ClientConnection, ClientConnectionHandle};
use aerosocket::connection::{ConnectionState, Polled};
use aerosocket::handshake::compute_accept_key;
use aerosocket::message::Message;
use aerosocket::transport::SocketAddress;

#[test]
fn test_client_creation() {
    let addr = SocketAddress::v4(127, 0, 0, 1, 8080);
    let client = Client::new(addr);
    assert_eq!(client.addr(), addr);
}

#[test]
fn test_client_config() {
    let config = ClientConfig::default();
    assert_eq!(config.max_frame_size, 1024 * 1024);
    assert_eq!(config.max_message_size, 16 * 1024 * 1024);
}

#[test]
fn test_client_builder() {
    let addr = SocketAddress::v4(127, 0, 0, 1, 8080);
    let client = ClientBuilder::new(addr).max_frame_size(2048).compression(true).build();

    assert_eq!(client.addr(), addr);
    assert_eq!(client.config().max_frame_size, 2048);
    assert!(client.config().compression.enabled);
}

#[test]
fn test_client_config_default() {
    let config = ClientConfig::default();
    assert!(config.validate().is_ok());
    assert_eq!(config.max_frame_size, 1024 * 1024);
    assert_eq!(config.max_message_size, 16 * 1024 * 1024);
}

#[test]
fn test_client_config_validation() {
    let mut config = ClientConfig::default();
    config.max_frame_size = 0;
    assert!(config.validate().is_err());

    config.max_frame_size = 1024;
    config.max_message_size = 512;
    assert!(config.validate().is_err());
}

#[test]
fn test_client_config_builder() {
    let config = ClientConfig::default()
        .max_frame_size(2048)
        .user_agent("test-agent".to_string())
        .add_protocol("chat".to_string())
        .add_header("X-Custom".to_string(), "value".to_string());

    assert_eq!(config.max_frame_size, 2048);
    assert_eq!(config.user_agent, "test-agent");
    assert_eq!(config.protocols.len(), 1);
    assert_eq!(config.protocols[0], "chat");
    assert_eq!(config.headers.len(), 1);
    assert_eq!(config.headers[0], ("X-Custom".to_string(), "value".to_string()));
}

#[test]
fn test_client_connection_creation() {
    let remote = SocketAddress::v4(127, 0, 0, 1, 8080);
    let conn = ClientConnection::new(remote, 0);

    assert_eq!(conn.remote_addr(), remote);
    assert_eq!(conn.state(), ConnectionState::Connecting);
    assert!(!conn.is_connected());
    assert!(!conn.is_closed());
}

#[test]
fn test_client_connection_handle() {
    let remote = SocketAddress::v4(127, 0, 0, 1, 8080);
    let conn = ClientConnection::new(remote, 0);
    let handle = ClientConnectionHandle::new(1, conn);

    assert_eq!(handle.id(), 1);
    assert_eq!(handle.connection().remote_addr(), remote);
}

#[test]
fn test_connection_state_transitions() {
    let remote = SocketAddress::v4(127, 0, 0, 1, 8080);
    let mut conn = ClientConnection::new(remote, 0);

    assert_eq!(conn.state(), ConnectionState::Connecting);

    conn.set_connected(0);
    assert_eq!(conn.state(), ConnectionState::Connected);
    assert!(conn.is_connected());
}

#[test]
fn test_message_sending() {
    let remote = SocketAddress::v4(127, 0, 0, 1, 8080);
    let mut conn = ClientConnection::new(remote, 0);

    // Nothing can be sent before the connection is established
    assert!(conn.send_text("Hello", 1).is_err());
    assert!(conn.send_binary(vec![1u8, 2, 3], 1).is_err());
    assert!(conn.ping(None, 1).is_err());
    assert!(conn.pong(None, 1).is_err());

    conn.set_connected(1);
    let bytes = conn.send_text("Hello", 2).unwrap();
    // a client masks: two header bytes, four key bytes, five payload bytes
    assert_eq!(bytes.len(), 11);
    assert_eq!(bytes[0], 0x81);
    assert_eq!(bytes[1], 0x85);
    assert_eq!(conn.metadata().messages_sent, 1);
    assert_eq!(conn.metadata().bytes_sent, 11);
}

#[test]
fn client_begins_and_completes_a_handshake() {
    let addr = SocketAddress::v4(127, 0, 0, 1, 9000);
    let client = Client::new(addr)
        .with_config(ClientConfig::default().add_protocol("chat".to_string()));
    let opening = client
        .begin_with_key("/chat", "localhost:9000", "dGhlIHNhbXBsZSBub25jZQ==".to_string())
        .unwrap();
    assert_eq!(
        opening.request,
        "GET /chat HTTP/1.1\r\nHost: localhost:9000\r\nUpgrade: websocket\r\nConnection: Upgrade\r\n\
Sec-WebSocket-Key: dGhlIHNhbXBsZSBub25jZQ==\r\nSec-WebSocket-Version: 13\r\n\
Sec-WebSocket-Protocol: chat\r\n\r\n"
    );

    let accept = compute_accept_key(&opening.key).unwrap();
    let response = format!(
        "HTTP/1.1 101 Switching Protocols\r\nUpgrade: websocket\r\nConnection: Upgrade\r\n\
Sec-WebSocket-Accept: {}\r\nSec-WebSocket-Protocol: chat\r\n\
Sec-WebSocket-Extensions: permessage-deflate; server_no_context_takeover\r\n\r\n",
        accept
    );
    let mut conn = client.complete(&response, &opening.key, addr, 5).unwrap();
    assert_eq!(conn.state(), ConnectionState::Connected);
    assert_eq!(conn.metadata().subprotocol, Some("chat".to_string()));
    assert_eq!(
        conn.metadata().extensions,
        vec!["permessage-deflate; server_no_context_takeover".to_string()]
    );
    assert!(conn.metadata().compression_negotiated);

    // the server's frames are not masked
    conn.feed(&[0x81, 0x02, b'h', b'i']).unwrap();
    match conn.next(6) {
        Polled::Message(Message::Text(t)) => assert_eq!(t.as_str(), "hi"),
        other => panic!("expected a text, got {:?}", other),
    }
}

#[test]
fn client_refuses_a_wrong_accept_value_and_a_wrong_status() {
    let addr = SocketAddress::v4(127, 0, 0, 1, 9000);
    let client = Client::new(addr);
    let wrong = "HTTP/1.1 101 Switching Protocols\r\nUpgrade: websocket\r\nConnection: Upgrade\r\n\
Sec-WebSocket-Accept: AAAA\r\n\r\n";
    let err = client.complete(wrong, "dGhlIHNhbXBsZSBub25jZQ==", addr, 0).unwrap_err();
    assert_eq!(
        err.to_string(),
        "Protocol error: Invalid WebSocket accept key - expected: s3pPLMBiTxaQ9kYGzzhZRbK+xOo=, received: AAAA"
    );
    let not_found = "HTTP/1.1 404 Not Found\r\n\r\n";
    let err = client.complete(not_found, "dGhlIHNhbXBsZSBub25jZQ==", addr, 0).unwrap_err();
    assert_eq!(err.to_string(), "Protocol error: Unexpected HTTP status: 404");
}

#[test]
fn server_name_is_taken_from_the_tls_configuration() {
    let addr = SocketAddress::v4(10, 0, 0, 1, 443);
    let plain = Client::new(addr);
    assert_eq!(plain.server_name("example.org"), "example.org");
    let tls = aerosocket::client::config::TlsConfig {
        verify: true,
        ca_file: None,
        cert_file: None,
        key_file: None,
        server_name: Some("inner.example.org".to_string()),
        min_version: None,
        max_version: None,
    };
    let named = Client::new(addr).with_config(ClientConfig::default().tls(tls));
    assert_eq!(named.server_name("example.org"), "inner.example.org");
}

#[test]
fn a_connection_records_what_was_negotiated() {
    let mut connection = ClientConnection::with_stream(SocketAddress::v4(10, 0, 0, 9, 8080), 0);
    assert_eq!(connection.metadata().subprotocol, None);
    assert!(connection.metadata().extensions.is_empty());

    connection.set_subprotocol("chat".to_string());
    connection.add_extension("permessage-deflate".to_string());
    connection.add_extension("x-other".to_string());

    assert_eq!(connection.metadata().subprotocol.as_deref(), Some("chat"));
    assert_eq!(
        connection.metadata().extensions,
        vec!["permessage-deflate".to_string(), "x-other".to_string()]
    );
    assert_eq!(connection.state(), ConnectionState::Connected);
}
