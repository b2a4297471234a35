use aerosocket::connection::{Connection, ConnectionState};
use aerosocket::handshake::compute_accept_key;
use aerosocket::server::config::{ServerConfig, TlsConfig};
use aerosocket::server::error::{ContextError, ErrorContext, ServerError};
use aerosocket::server::handler::{from_fn, DefaultHandler, EchoHandler, Handler, HandlerAction};
use aerosocket::server::manager::{CloseReason, ConnectionManager};
use aerosocket::server::rate_limit::{RateLimitConfig, RateLimitMiddleware, RateLimiter};
use aerosocket::server::http::{classify_request, find_header_end, read_step, route_http, ReadStep};
use aerosocket::server::server::{Admission, Server, ServerBuilder};
use aerosocket::server::upgrade::{perform_handshake, Upgrade};
use aerosocket::message::Message;
use aerosocket::transport::{IpAddress, SocketAddress};

#[test]
fn test_server_config_default() {
    let config = ServerConfig::default();
    assert!(config.validate().is_ok());
    assert_eq!(config.max_connections, 10_000);
    assert_eq!(config.bind_address.port, 8080);
}

#[test]
fn test_server_config_validation() {
    let mut config = ServerConfig::default();
    config.max_connections = 0;
    assert!(config.validate().is_err());

    config.max_connections = 1000;
    config.max_frame_size = 0;
    assert!(config.validate().is_err());

    config.max_frame_size = 1024;
    config.max_message_size = 512;
    assert!(config.validate().is_err());
}

#[test]
fn test_tls_config() {
    let config = TlsConfig::new("cert.pem".to_string(), "key.pem".to_string())
        .cert_chain_file("chain.pem".to_string())
        .client_auth(true)
        .ca_file("ca.pem".to_string());

    assert_eq!(config.cert_file, "cert.pem");
    assert_eq!(config.key_file, "key.pem");
    assert_eq!(config.cert_chain_file, Some("chain.pem".to_string()));
    assert!(config.client_auth);
    assert_eq!(config.ca_file, Some("ca.pem".to_string()));
}

#[test]
fn connection_test_connection_creation() {
    let remote = SocketAddress::v4(127, 0, 0, 1, 12345);
    let local = SocketAddress::v4(127, 0, 0, 1, 8080);
    let conn = Connection::new(remote, local, 0);

    assert_eq!(conn.remote_addr(), remote);
    assert_eq!(conn.local_addr(), local);
    assert_eq!(conn.state(), ConnectionState::Connecting);
    assert!(!conn.is_connected());
    assert!(!conn.is_closed());
}

#[test]
fn integration_tests_test_connection_creation() {
    let remote_addr = SocketAddress::v4(127, 0, 0, 1, 12345);
    let local_addr = SocketAddress::v4(127, 0, 0, 1, 8080);

    // Test basic connection creation
    let connection = Connection::new(remote_addr, local_addr, 0);
    assert_eq!(connection.remote_addr(), remote_addr);
    assert_eq!(connection.local_addr(), local_addr);
    assert_eq!(connection.state(), ConnectionState::Connecting);

    // Test connection with timeout
    let connection_with_timeout =
        Connection::with_timeout(remote_addr, local_addr, Some(30_000), 0);
    assert_eq!(connection_with_timeout.remote_addr(), remote_addr);
    assert!(connection_with_timeout.time_until_timeout(0).is_some());
}

#[test]
fn test_connection_timeout() {
    let remote_addr = SocketAddress::v4(127, 0, 0, 1, 12345);
    let local_addr = SocketAddress::v4(127, 0, 0, 1, 8080);

    // Create connection with short timeout
    let connection = Connection::with_timeout(remote_addr, local_addr, Some(100), 1_000);

    // Initially should not be timed out
    assert!(!connection.is_timed_out(1_000));
    assert!(connection.time_until_timeout(1_000).is_some());
    assert_eq!(connection.time_until_timeout(1_040), Some(60));
    // exactly at the limit the connection is not idle for longer than allowed
    assert!(!connection.is_timed_out(1_100));

    // 150 milliseconds later it is timed out
    assert!(connection.is_timed_out(1_150));
    assert_eq!(connection.time_until_timeout(1_150), Some(0));
}

#[test]
fn test_connection_manager() {
    let config = ServerConfig::default();
    let mut manager = ConnectionManager::new(config.max_connections);

    // Test initial stats
    let stats = manager.get_stats();
    assert_eq!(stats.active_connections, 0);
    assert_eq!(stats.total_connections, 0);

    // Test adding connections
    let remote_addr = SocketAddress::v4(127, 0, 0, 1, 12345);
    let local_addr = SocketAddress::v4(127, 0, 0, 1, 8080);

    let connection1 = Connection::new(remote_addr, local_addr, 0);
    let connection2 = Connection::new(remote_addr, local_addr, 0);

    let id1 = manager.add_connection(connection1).unwrap();
    let id2 = manager.add_connection(connection2).unwrap();
    assert_eq!(id1, 1);
    assert_eq!(id2, 2);

    // Verify stats after adding connections
    let stats = manager.get_stats();
    assert_eq!(stats.active_connections, 2);
    assert_eq!(stats.total_connections, 2);
    assert_eq!(stats.peak_connections, 2);

    // Test getting connections
    let retrieved = manager.get_connection(id1);
    assert!(retrieved.is_some());
    assert_eq!(retrieved.unwrap().remote_addr(), remote_addr);

    let all_connections = manager.get_all_connections();
    assert_eq!(all_connections.len(), 2);

    // Test removing connections
    manager.remove_connection(id1, CloseReason::Normal);

    let stats = manager.get_stats();
    assert_eq!(stats.active_connections, 1);
    assert_eq!(stats.total_connections, 2);
    assert_eq!(stats.normal_closures, 1);

    // Test connection health monitoring
    let health_reports = manager.monitor_connections(10);
    assert_eq!(health_reports.len(), 1);
    assert_eq!(health_reports[0].id, id2);
    assert_eq!(health_reports[0].remote_addr, remote_addr);
    assert_eq!(health_reports[0].uptime, 10);

    // Test closing all connections
    manager.close_all_connections(11);

    let stats = manager.get_stats();
    assert_eq!(stats.active_connections, 0);
    assert_eq!(stats.normal_closures, 2);
    assert_eq!(stats.peak_connections, 2);
}

#[test]
fn test_error_handling() {
    // Test error context creation
    let context = ErrorContext::new()
        .with_connection_id(123)
        .with_remote_addr(SocketAddress::v4(127, 0, 0, 1, 8080))
        .with_operation("test_operation")
        .with_context("key1", "value1")
        .with_context("key2", "value2");

    assert_eq!(context.connection_id, Some(123));
    assert_eq!(context.remote_addr, Some(SocketAddress::v4(127, 0, 0, 1, 8080)));
    assert_eq!(context.operation, Some("test_operation".to_string()));
    assert_eq!(context.context.get("key1"), Some(&"value1".to_string()));
    assert_eq!(context.context.get("key2"), Some(&"value2".to_string()));

    // Test context error creation
    let server_error = ServerError::Timeout { duration_ms: 30_000 };
    let context_error = ContextError { error: server_error, context: context.clone() };

    let error_string = context_error.to_string();
    assert!(error_string.contains("Operation timed out"));
    assert!(error_string.contains("123"));
    assert!(error_string.contains("127.0.0.1:8080"));
    assert!(error_string.contains("test_operation"));
    assert_eq!(
        error_string,
        "Operation timed out after 30000ms (connection: 123) (remote: 127.0.0.1:8080) (operation: test_operation)"
    );
}

#[test]
fn test_handler_creation() {
    // Test echo handler
    let echo_handler = EchoHandler::new();
    match echo_handler.on_message(Message::text("hi")) {
        HandlerAction::Send(Message::Text(t)) => assert_eq!(t.as_str(), "Echo: hi"),
        other => panic!("expected a text, got {:?}", other),
    }

    // Handler should be cloneable
    let echo_handler2 = echo_handler.clone();
    match echo_handler2.react(Message::binary(vec![1, 2])) {
        HandlerAction::Send(Message::Binary(d)) => assert_eq!(d.as_bytes(), &[1, 2]),
        other => panic!("expected binary data, got {:?}", other),
    }

    // Test default handler
    let default_handler = DefaultHandler::new();
    match default_handler.react(Message::text("hi")) {
        HandlerAction::Send(Message::Text(t)) => assert_eq!(t.as_str(), "hi"),
        other => panic!("expected a text, got {:?}", other),
    }
    match default_handler.react(Message::close(Some(1000), Some("bye".to_string()))) {
        HandlerAction::Close { code, reason } => {
            assert_eq!(code, Some(1000));
            assert_eq!(reason, "bye");
        }
        other => panic!("expected a close, got {:?}", other),
    }
    assert!(matches!(default_handler.react(Message::pong(None)), HandlerAction::Nothing));
    assert!(matches!(
        default_handler.react(Message::ping(Some(vec![1]))),
        HandlerAction::Send(Message::Pong(_))
    ));

    // Test function handler
    let fn_handler = from_fn(|_message: Message| HandlerAction::Nothing);
    assert!(matches!(fn_handler.react(Message::text("x")), HandlerAction::Nothing));
}

#[test]
fn test_default_handler() {
    let handler = DefaultHandler::new();
    match handler.on_message(Message::text("same")) {
        HandlerAction::Send(Message::Text(t)) => assert_eq!(t.as_str(), "same"),
        other => panic!("expected a text, got {:?}", other),
    }
}

#[test]
fn test_echo_handler() {
    let handler = EchoHandler::new();
    match handler.on_message(Message::text("hello")) {
        HandlerAction::Send(Message::Text(t)) => assert_eq!(t.as_str(), "Echo: hello"),
        other => panic!("expected a text, got {:?}", other),
    }
}

#[test]
fn test_fn_handler() {
    let handler = from_fn(|message: Message| match message {
        Message::Text(t) => HandlerAction::Send(Message::text(&t.as_str().to_uppercase())),
        _ => HandlerAction::Nothing,
    });
    match handler.react(Message::text("abc")) {
        HandlerAction::Send(Message::Text(t)) => assert_eq!(t.as_str(), "ABC"),
        other => panic!("expected a text, got {:?}", other),
    }
}

#[test]
fn test_rate_limiting() {
    let config = RateLimitConfig {
        max_requests: 2,
        window: 1_000,
        max_connections: 1,
        connection_timeout: 60_000,
    };

    let mut limiter = RateLimiter::new(config);
    let ip = IpAddress::V4(0x7F00_0001).key();

    // First request should be allowed
    assert!(limiter.check_request_rate(ip, 0));

    // Second request should be allowed
    assert!(limiter.check_request_rate(ip, 10));

    // Third request should be denied
    assert!(!limiter.check_request_rate(ip, 20));

    // Two seconds later the window has run out: allowed again
    assert!(limiter.check_request_rate(ip, 2_000));
}

#[test]
fn test_connection_limiting() {
    let config = RateLimitConfig {
        max_requests: 100,
        window: 60_000,
        max_connections: 2,
        connection_timeout: 60_000,
    };

    let mut limiter = RateLimiter::new(config);
    let ip = IpAddress::V4(0x7F00_0001).key();

    // First connection should be allowed
    assert!(limiter.can_connect(ip));

    // Second connection should be allowed
    assert!(limiter.can_connect(ip));

    // Third connection should be denied
    assert!(!limiter.can_connect(ip));

    // Remove one connection
    limiter.remove_connection(ip);

    // Should be allowed again
    assert!(limiter.can_connect(ip));
}

#[test]
fn test_middleware() {
    let config = RateLimitConfig::default();
    let mut middleware = RateLimitMiddleware::new(config);
    let ip = IpAddress::V6(1).key();

    // Should allow connection
    assert!(middleware.check_connection(ip, 0));

    // Get stats
    let stats = middleware.stats();
    assert_eq!(stats.tracked_ips, 1);
    assert_eq!(stats.active_connections, 1);

    // Close connection
    middleware.connection_closed(ip);

    let stats = middleware.stats();
    assert_eq!(stats.active_connections, 0);
}

#[test]
fn test_server_builder() {
    let builder = ServerBuilder::new()
        .bind(SocketAddress::v4(127, 0, 0, 1, 8080))
        .unwrap()
        .max_connections(1000)
        .max_frame_size(1024 * 1024)
        .compression(true);

    assert!(builder.build().is_ok());
}

#[test]
fn server_builder_refuses_an_invalid_configuration() {
    let err = ServerBuilder::new().max_connections(0).build().unwrap_err();
    assert_eq!(
        err.to_string(),
        "Configuration error: Configuration validation failed: max_connections must be greater than 0"
    );
    assert!(ServerBuilder::new().max_frame_size(2048).max_message_size(1024).build().is_err());
}

fn upgrade_request(extra: &str) -> String {
    format!(
        "GET /chat HTTP/1.1\r\nHost: example.com\r\nUpgrade: websocket\r\nConnection: Upgrade\r\n\
Sec-WebSocket-Key: dGhlIHNhbXBsZSBub25jZQ==\r\nSec-WebSocket-Version: 13\r\n{}\r\n",
        extra
    )
}

#[test]
fn handshake_answers_the_sample_request() {
    let config = ServerConfig::default();
    let upgrade = perform_handshake(&upgrade_request(""), &config).unwrap();
    assert_eq!(
        upgrade.response,
        "HTTP/1.1 101 Switching Protocols\r\nUpgrade: websocket\r\nConnection: Upgrade\r\n\
Sec-WebSocket-Accept: s3pPLMBiTxaQ9kYGzzhZRbK+xOo=\r\n\r\n"
    );
    assert_eq!(upgrade.endpoint, "/chat");
    assert_eq!(upgrade.subprotocol, None);
    assert!(upgrade.extensions.is_empty());
    assert!(!upgrade.compression);
    assert_eq!(
        compute_accept_key("dGhlIHNhbXBsZSBub25jZQ==").unwrap(),
        "s3pPLMBiTxaQ9kYGzzhZRbK+xOo="
    );
}

#[test]
fn handshake_settles_protocol_and_extension() {
    let mut config = ServerConfig::default();
    config.supported_protocols = vec!["chat".to_string(), "superchat".to_string()];
    config.supported_extensions = vec!["permessage-deflate".to_string()];
    let request = upgrade_request(
        "Sec-WebSocket-Protocol: mqtt, superchat, chat\r\n\
Sec-WebSocket-Extensions: permessage-deflate; server_max_window_bits=10, permessage-deflate; client_max_window_bits\r\n",
    );
    let upgrade = perform_handshake(&request, &config).unwrap();
    // the first protocol of the client's offer that the server supports
    assert_eq!(upgrade.subprotocol, Some("superchat".to_string()));
    // the first offer asks for a window that cannot be honoured; the second is taken
    assert!(upgrade.compression);
    assert_eq!(
        upgrade.extensions,
        vec!["permessage-deflate; server_no_context_takeover; client_no_context_takeover".to_string()]
    );
    assert!(upgrade.response.contains("Sec-WebSocket-Protocol: superchat\r\n"));
    assert!(upgrade.response.ends_with("\r\n\r\n"));
}

#[test]
fn handshake_declines_an_offer_it_cannot_honour() {
    let mut config = ServerConfig::default();
    config.supported_extensions = vec!["permessage-deflate".to_string()];
    let request =
        upgrade_request("Sec-WebSocket-Extensions: permessage-deflate; server_max_window_bits=9\r\n");
    let upgrade = perform_handshake(&request, &config).unwrap();
    assert!(!upgrade.compression);
    assert!(upgrade.extensions.is_empty());
}

#[test]
fn handshake_faults_are_reported_in_order() {
    let config = ServerConfig::default();
    let text = |r: Result<_, aerosocket::Error>| -> String {
        let r: Result<Upgrade, aerosocket::Error> = r;
        r.unwrap_err().to_string()
    };
    assert_eq!(
        text(perform_handshake("POST /chat HTTP/1.1\r\n\r\n", &config)),
        "Protocol error: Invalid HTTP method: POST"
    );
    assert_eq!(
        text(perform_handshake("GET /chat HTTP/1.1\r\nHost: x\r\n\r\n", &config)),
        "Protocol error: Missing required header: upgrade"
    );
    assert_eq!(
        text(perform_handshake("GET /chat HTTP/1.1\r\nUpgrade: h2c\r\n\r\n", &config)),
        "Protocol error: Invalid header value for upgrade: h2c"
    );
    assert_eq!(
        text(perform_handshake(
            "GET /chat HTTP/1.1\r\nUpgrade: WebSocket\r\nConnection: keep-alive\r\n\r\n",
            &config
        )),
        "Protocol error: Invalid header value for connection: keep-alive"
    );
    assert_eq!(
        text(perform_handshake(
            "GET /chat HTTP/1.1\r\nUpgrade: websocket\r\nConnection: keep-alive, Upgrade\r\n\
Sec-WebSocket-Key: c2hvcnQ=\r\n\r\n",
            &config
        )),
        "Protocol error: Invalid header value for sec-websocket-key: c2hvcnQ="
    );
    assert_eq!(
        text(perform_handshake(
            "GET /chat HTTP/1.1\r\nUpgrade: websocket\r\nConnection: Upgrade\r\n\
Sec-WebSocket-Key: dGhlIHNhbXBsZSBub25jZQ==\r\nSec-WebSocket-Version: 8\r\n\r\n",
            &config
        )),
        "Protocol error: Invalid header value for sec-websocket-version: 8"
    );
    assert_eq!(
        text(perform_handshake("GET /chat HTTP/1.1\r\nno colon here\r\n\r\n", &config)),
        "Protocol error: Invalid header value for unknown: no colon here"
    );
    assert_eq!(text(perform_handshake("", &config)), "Protocol error: Invalid format: Missing request line");
}

#[test]
fn handshake_checks_origin_and_required_protocol() {
    let mut config = ServerConfig::default();
    config.allowed_origin = Some("https://a.example".to_string());
    config.allowed_origins = vec!["https://b.example".to_string()];
    assert!(perform_handshake(&upgrade_request("Origin: https://b.example\r\n"), &config).is_ok());
    assert!(perform_handshake(&upgrade_request(""), &config).is_ok());
    assert_eq!(
        perform_handshake(&upgrade_request("Origin: https://c.example\r\n"), &config)
            .unwrap_err()
            .to_string(),
        "Protocol error: Invalid origin - expected: https://a.example, received: https://c.example"
    );

    let mut config = ServerConfig::default();
    config.supported_protocols = vec!["chat".to_string()];
    // without the requirement the connection goes on without a protocol
    let upgrade = perform_handshake(&upgrade_request("Sec-WebSocket-Protocol: mqtt\r\n"), &config).unwrap();
    assert_eq!(upgrade.subprotocol, None);
    assert!(perform_handshake(&upgrade_request(""), &config).is_ok());
    config.require_protocol = true;
    assert_eq!(
        perform_handshake(&upgrade_request("Sec-WebSocket-Protocol: mqtt\r\n"), &config)
            .unwrap_err()
            .to_string(),
        "Protocol error: Unsupported WebSocket protocol: mqtt"
    );
    assert_eq!(
        perform_handshake(&upgrade_request(""), &config).unwrap_err().to_string(),
        "Protocol error: Missing required header: sec-websocket-protocol"
    );
}

#[test]
fn plain_http_requests_are_routed() {
    let health = route_http("GET", "/health", "ignored");
    assert_eq!(health.status, 200);
    assert_eq!(
        health.to_string(),
        "HTTP/1.1 200 OK\r\nContent-Type: application/json\r\nContent-Length: 15\r\n\r\n{\"status\":\"ok\"}"
    );
    let metrics = route_http("GET", "/metrics", "up 1\n");
    assert_eq!(
        metrics.to_string(),
        "HTTP/1.1 200 OK\r\nContent-Type: text/plain; version=0.0.4; charset=utf-8\r\nContent-Length: 5\r\n\r\nup 1\n"
    );
    let other = route_http("GET", "/", "");
    assert_eq!(other.to_string(), "HTTP/1.1 404 Not Found\r\nContent-Length: 0\r\n\r\n");
    assert_eq!(route_http("POST", "/health", "").status, 404);
}

#[test]
fn reading_a_request_stops_at_the_empty_line() {
    assert_eq!(find_header_end(b"GET / HTTP/1.1\r\n\r\nrest"), Some(18));
    assert_eq!(find_header_end(b"GET / HTTP/1.1\r\n\r"), None);
    assert!(matches!(read_step(b"GET / HTTP/1.1\r\n\r\n", 5, 10), ReadStep::Done { header_len: 18 }));
    assert!(matches!(read_step(b"GET / HTTP/1.1\r\n", 5, 10), ReadStep::More));
    match read_step(b"GET / HTTP/1.1\r\n\r\n", 10, 10) {
        ReadStep::Fail(e) => assert_eq!(e.to_string(), "Timeout error: Handshake timeout: 10ms"),
        other => panic!("expected a timeout, got {:?}", other),
    }
    let long = vec![b'a'; 8193];
    match read_step(&long, 0, 10) {
        ReadStep::Fail(e) => assert_eq!(e.to_string(), "Buffer capacity exceeded: 8193 bytes"),
        other => panic!("expected a refusal, got {:?}", other),
    }
    let at_cap = vec![b'a'; 8192];
    assert!(matches!(read_step(&at_cap, 0, 10), ReadStep::More));
    // a header that ends behind the cap is refused all the same
    let mut ended = vec![b'a'; 8190];
    ended.extend_from_slice(b"\r\n\r\n");
    match read_step(&ended, 0, 10) {
        ReadStep::Fail(e) => assert_eq!(e.to_string(), "Buffer capacity exceeded: 8194 bytes"),
        other => panic!("expected a refusal, got {:?}", other),
    }
    let mut fits = vec![b'a'; 8188];
    fits.extend_from_slice(b"\r\n\r\n");
    assert!(matches!(read_step(&fits, 0, 10), ReadStep::Done { header_len: 8192 }));
}

#[test]
fn one_connection_too_many_is_turned_away() {
    let mut config = ServerConfig::default();
    config.backpressure.max_concurrent_per_peer = 2;
    let mut server = Server::new(config);
    let peer = IpAddress::V4(0x0A00_0001);
    assert_eq!(server.decide_admission(peer, 0), Admission::Accept);
    assert_eq!(server.decide_admission(peer, 1), Admission::Accept);
    assert_eq!(server.decide_admission(peer, 2), Admission::RateLimited);
    // another peer is not affected
    assert_eq!(server.decide_admission(IpAddress::V4(0x0A00_0002), 3), Admission::Accept);
    // a connection that ends makes room
    server.close(99, peer, CloseReason::Normal);
    assert_eq!(server.decide_admission(peer, 4), Admission::Accept);
}

#[test]
fn a_full_server_turns_peers_away_without_counting_them() {
    let mut config = ServerConfig::default();
    config.max_connections = 1;
    let mut server = Server::new(config.clone());
    let remote = SocketAddress::v4(10, 0, 0, 1, 4000);
    let local = SocketAddress::v4(10, 0, 0, 9, 8080);
    assert_eq!(server.decide_admission(remote.ip, 0), Admission::Accept);
    let upgrade = perform_handshake(&upgrade_request(""), &config).unwrap();
    let id = server.open(remote, local, upgrade.clone(), 0).unwrap();
    assert_eq!(id, 1);
    assert_eq!(server.decide_admission(remote.ip, 1), Admission::Full);
    assert_eq!(server.rate_limiter.as_ref().unwrap().stats().active_connections, 1);
    // the registry itself refuses a second connection
    let err = server.open(remote, local, upgrade, 1).unwrap_err();
    assert_eq!(err.to_string(), "Buffer capacity exceeded: 1 bytes");
    server.close(id, remote.ip, CloseReason::Normal);
    assert_eq!(server.rate_limiter.as_ref().unwrap().stats().active_connections, 0);
    assert_eq!(server.decide_admission(remote.ip, 2), Admission::Accept);
}

#[test]
fn shutdown_tells_every_connection() {
    let mut server = Server::new(ServerConfig::default());
    let remote = SocketAddress::v4(10, 0, 0, 1, 4000);
    let local = SocketAddress::v4(10, 0, 0, 9, 8080);
    let upgrade = perform_handshake(&upgrade_request(""), &server.config).unwrap();
    let a = server.open(remote, local, upgrade.clone(), 0).unwrap();
    let b = server.open(remote, local, upgrade, 0).unwrap();
    let deliveries = server.shutdown(5);
    assert_eq!(deliveries.len(), 2);
    assert_eq!(deliveries[0].id, a);
    assert_eq!(deliveries[1].id, b);
    let mut expected = vec![0x88, 17, 0x03, 0xE9];
    expected.extend_from_slice(b"Server shutdown");
    assert_eq!(deliveries[0].bytes, expected);
    assert_eq!(server.manager.connection_count(), 0);
}

#[test]
fn compression_switched_on_supports_the_extension() {
    let mut config = ServerConfig::default();
    config.compression.enabled = true;
    let request = upgrade_request("Sec-WebSocket-Extensions: permessage-deflate\r\n");
    let upgrade = perform_handshake(&request, &config).unwrap();
    assert!(upgrade.compression);
    assert!(upgrade.response.contains(
        "Sec-WebSocket-Extensions: permessage-deflate; server_no_context_takeover; client_no_context_takeover\r\n"
    ));
    config.compression.enabled = false;
    assert!(!perform_handshake(&request, &config).unwrap().compression);
}

#[test]
fn a_server_compresses_where_it_was_negotiated() {
    let mut config = ServerConfig::default();
    config.compression.enabled = true;
    config.compression.level = 9;
    let mut server = Server::new(config.clone());
    let remote = SocketAddress::v4(10, 0, 0, 1, 4000);
    let local = SocketAddress::v4(10, 0, 0, 9, 8080);
    let with = perform_handshake(
        &upgrade_request("Sec-WebSocket-Extensions: permessage-deflate\r\n"),
        &config,
    )
    .unwrap();
    let without = perform_handshake(&upgrade_request(""), &config).unwrap();
    let a = server.open(remote, local, with, 0).unwrap();
    let b = server.open(remote, local, without, 0).unwrap();
    let text = "zzzzzzzzzzzzzzzzzzzzzzzzzzzzzzzzzzzzzzzzzzzzzzzzzzzzzzzzzzzzzzzz";
    let compressed = server.send(a, Message::text(text), 1).unwrap();
    assert_eq!(compressed[0], 0xC1);
    assert!(compressed.len() < text.len());
    let plain = server.send(b, Message::text(text), 1).unwrap();
    assert_eq!(plain[0], 0x81);
    assert_eq!(plain.len(), 2 + text.len());
    // control messages are never compressed
    let ping = server.send(a, Message::ping(Some(vec![1, 2, 3])), 2).unwrap();
    assert_eq!(ping, vec![0x89, 3, 1, 2, 3]);
    assert!(server.send(99, Message::text("x"), 3).is_err());
}

#[test]
fn a_request_is_answered_or_left_to_the_handshake() {
    let upgrade = "GET /chat HTTP/1.1\r\nHost: a\r\nUpgrade: WebSocket\r\nConnection: Upgrade\r\n\r\n";
    assert!(classify_request(upgrade, "m 1\n").is_none());

    let health = classify_request("GET /health HTTP/1.1\r\nHost: a\r\n\r\n", "m 1\n").unwrap();
    assert_eq!(health.status, 200);
    assert_eq!(health.body, "{\"status\":\"ok\"}");
    assert_eq!(health.content_type.as_deref(), Some("application/json"));

    let metrics = classify_request("GET /metrics HTTP/1.1\r\n\r\n", "m 1\n").unwrap();
    assert_eq!(metrics.status, 200);
    assert_eq!(metrics.body, "m 1\n");
    assert_eq!(metrics.content_type.as_deref(), Some("text/plain; version=0.0.4; charset=utf-8"));

    let other = classify_request("GET /other HTTP/1.1\r\nUpgrade: h2c\r\n\r\n", "m 1\n").unwrap();
    assert_eq!(other.status, 404);
    assert_eq!(other.body, "");

    // another method finds nothing, whatever it asks for
    let post = classify_request("POST /health HTTP/1.1\r\nUpgrade: websocket\r\n\r\n", "m 1\n").unwrap();
    assert_eq!(post.to_string(), "HTTP/1.1 404 Not Found\r\nContent-Length: 0\r\n\r\n");

    // what is no request is left to the handshake, which refuses it
    assert!(classify_request("", "").is_none());
    assert!(classify_request("GET\r\n\r\n", "").is_none());
    assert!(classify_request("GET / HTTP/1.1\r\nno colon here\r\n\r\n", "").is_none());
}

#[test]
fn a_listener_on_tls_needs_a_tls_configuration() {
    let config = ServerConfig::default();
    assert!(matches!(config.listener_tls(), Ok(None)));

    let secure = Server::builder()
        .tls("cert.pem".to_string(), "key.pem".to_string())
        .transport_tls()
        .build()
        .unwrap();
    match secure.config.listener_tls() {
        Ok(Some(tls)) => {
            assert_eq!(tls.cert_file, "cert.pem");
            assert_eq!(tls.key_file, "key.pem");
        }
        other => panic!("expected a TLS configuration, got {:?}", other),
    }

    let bare = Server::builder().transport_tls().build().unwrap();
    match bare.config.listener_tls() {
        Err(e) => assert_eq!(e.to_string(), "Error: TLS configuration required for TLS transport"),
        other => panic!("expected a refusal, got {:?}", other),
    }

    // a TLS configuration alone changes nothing on plain TCP
    let plain = Server::builder().tls("c".to_string(), "k".to_string()).build().unwrap();
    assert!(matches!(plain.config.listener_tls(), Ok(None)));
}

#[test]
fn the_registry_keeps_its_ids_in_order() {
    let mut manager = ConnectionManager::new(100);
    let local = SocketAddress::v4(127, 0, 0, 1, 8080);
    for port in 0..50u16 {
        let remote = SocketAddress::v4(10, 0, 0, 1, 1000 + port);
        let id = manager.add_connection(Connection::with_stream(remote, local, 0)).unwrap();
        assert_eq!(id, u64::from(port) + 1);
    }
    // every second connection leaves
    for id in (2..=50u64).step_by(2) {
        let gone = manager.remove_connection(id, CloseReason::Normal).unwrap();
        assert_eq!(gone.remote_addr().port, 999 + id as u16);
    }
    assert!(manager.remove_connection(2, CloseReason::Normal).is_none());
    assert!(manager.get_connection(2).is_none());
    assert_eq!(manager.get_connection(49).unwrap().remote_addr().port, 1048);

    let odd: Vec<u64> = (1..=49u64).step_by(2).collect();
    assert_eq!(manager.get_all_connections(), odd);
    let reports = manager.monitor_connections(5);
    assert_eq!(reports.iter().map(|r| r.id).collect::<Vec<u64>>(), odd);
    assert_eq!(reports[24].remote_addr.port, 1048);

    // a broadcast goes to the connections in the order of their ids
    let deliveries = manager.broadcast_text("hi", Some(25), 6);
    let served: Vec<u64> = deliveries.iter().map(|d| d.id).collect();
    let expected: Vec<u64> = odd.iter().copied().filter(|id| *id != 25).collect();
    assert_eq!(served, expected);
    assert!(deliveries.iter().all(|d| d.bytes == vec![0x81, 0x02, b'h', b'i']));
    assert_eq!(manager.get_connection(1).unwrap().metadata().messages_sent, 1);
    assert_eq!(manager.get_connection(25).unwrap().metadata().messages_sent, 0);

    // the next id is larger than every id given before
    let remote = SocketAddress::v4(10, 0, 0, 2, 1);
    assert_eq!(manager.add_connection(Connection::with_stream(remote, local, 0)).unwrap(), 51);
    let stats = manager.get_stats();
    assert_eq!((stats.active_connections, stats.total_connections, stats.peak_connections), (26, 51, 50));
    assert_eq!(stats.normal_closures, 25);
}

#[test]
fn the_limiter_counts_for_many_peers() {
    let config = RateLimitConfig { max_requests: 2, window: 1_000, max_connections: 1, connection_timeout: 60_000 };
    let mut limiter = RateLimiter::new(config);
    for peer in 0..200u128 {
        assert!(limiter.try_admit(peer, 10));
        assert!(!limiter.try_admit(peer, 11));
    }
    let stats = limiter.get_stats();
    assert_eq!((stats.tracked_ips, stats.active_connections), (200, 200));
    for peer in 0..100u128 {
        limiter.release(peer);
    }
    assert_eq!(limiter.get_stats().active_connections, 100);
    // peers that come back open a window that is still of use at time 2500
    for peer in 0..50u128 {
        assert!(limiter.try_admit(peer, 1_500));
    }
    limiter.cleanup(2_500);
    let stats = limiter.get_stats();
    assert_eq!((stats.tracked_ips, stats.active_connections), (50, 150));
}
