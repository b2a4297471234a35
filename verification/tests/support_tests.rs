use aerosocket::client::client::split_list;
use aerosocket::client::config::ClientConfig;
use aerosocket::error::{CloseCode, CloseError, Error, FrameError, MessageError, ProtocolError, SecurityError};
use aerosocket::handshake::extension::offer_has_deflate;
use aerosocket::handshake::parse::parse_server_handshake;
use aerosocket::handshake::request::{create_client_handshake_with_key, join_texts};
use aerosocket::handshake::validate::{choose_protocol, value_has_token};
use aerosocket::handshake::{
    parse_client_handshake, request_to_string, response_to_string, validate_key,
    validate_server_handshake, validate_version, HandshakeConfig,
};
use aerosocket::headers::Headers;
use aerosocket::server::config::ServerConfig;
use aerosocket::text::{decimal_string, hex_string, str_chars, str_eq, trim_bounds};

#[test]
fn headers_keep_their_order_and_replace_values() {
    let mut h = Headers::new();
    assert!(h.is_empty());
    h.insert("b".to_string(), "1".to_string());
    h.insert("a".to_string(), "2".to_string());
    h.insert("b".to_string(), "3".to_string());
    assert_eq!(h.len(), 2);
    assert_eq!(h.get("b"), Some(&"3".to_string()));
    assert_eq!(h.get("a"), Some(&"2".to_string()));
    assert_eq!(h.get("B"), None);
    assert!(h.contains_key("a"));
    assert!(!h.contains_key("c"));
    assert_eq!(h.entry(0), (&"b".to_string(), &"3".to_string()));
    assert_eq!(h.entry(1), (&"a".to_string(), &"2".to_string()));
    let copy = h.copy();
    assert_eq!(copy.len(), 2);
    assert_eq!(copy.get("b"), Some(&"3".to_string()));
}

#[test]
fn numbers_are_written_out() {
    assert_eq!(decimal_string(0), "0");
    assert_eq!(decimal_string(9), "9");
    assert_eq!(decimal_string(10), "10");
    assert_eq!(decimal_string(65535), "65535");
    assert_eq!(decimal_string(u64::MAX), "18446744073709551615");
    assert_eq!(hex_string(0), "0");
    assert_eq!(hex_string(255), "ff");
    assert_eq!(hex_string(0xdb8), "db8");
}

#[test]
fn text_is_compared_and_trimmed() {
    assert!(str_eq("abc", "abc"));
    assert!(!str_eq("abc", "abd"));
    assert!(!str_eq("abc", "ab"));
    assert!(str_eq("", ""));
    assert!(str_eq("häßlich", "häßlich"));
    let chars = str_chars(" \t x y \r\n");
    assert_eq!(chars.len(), 9);
    assert_eq!(trim_bounds(&chars, 0, chars.len()), (3, 6));
    assert_eq!(trim_bounds(&chars, 0, 2), (2, 2));
}

#[test]
fn lists_are_split_and_joined() {
    assert_eq!(split_list("a, b ,c"), vec!["a".to_string(), "b".to_string(), "c".to_string()]);
    assert_eq!(split_list(""), vec!["".to_string()]);
    assert_eq!(split_list("x,"), vec!["x".to_string(), "".to_string()]);
    assert_eq!(join_texts(&vec!["a".to_string(), "b".to_string()], ", "), "a, b");
    assert_eq!(join_texts(&vec![], ", "), "");
    assert_eq!(join_texts(&vec!["only".to_string()], ", "), "only");
}

#[test]
fn tokens_and_protocols_are_found() {
    assert!(value_has_token("Upgrade", "upgrade"));
    assert!(value_has_token("keep-alive, UPGRADE", "upgrade"));
    assert!(!value_has_token("keep-alive", "upgrade"));
    assert!(!value_has_token("upgraded", "upgrade"));
    assert!(!value_has_token("", "upgrade"));
    let supported = vec!["chat".to_string(), "superchat".to_string()];
    assert_eq!(choose_protocol("superchat, chat", &supported), Some("superchat".to_string()));
    assert_eq!(choose_protocol("mqtt,chat", &supported), Some("chat".to_string()));
    assert_eq!(choose_protocol("Chat", &supported), None);
    assert_eq!(choose_protocol("", &supported), None);
}

#[test]
fn offers_of_deflate_are_weighed() {
    assert!(offer_has_deflate("permessage-deflate"));
    assert!(offer_has_deflate("Permessage-Deflate; client_max_window_bits"));
    assert!(offer_has_deflate("permessage-deflate; client_max_window_bits=10"));
    assert!(offer_has_deflate("permessage-deflate; server_max_window_bits = 15"));
    assert!(offer_has_deflate(
        "permessage-deflate; client_no_context_takeover; server_no_context_takeover"
    ));
    assert!(offer_has_deflate("x-webkit-deflate-frame, permessage-deflate"));
    assert!(!offer_has_deflate("permessage-deflate; server_max_window_bits=10"));
    assert!(!offer_has_deflate("permessage-deflate; client_max_window_bits=7"));
    assert!(!offer_has_deflate("permessage-deflate; client_max_window_bits=16"));
    assert!(!offer_has_deflate("permessage-deflate; server_max_window_bits"));
    assert!(!offer_has_deflate("permessage-deflate; unknown_parameter"));
    assert!(!offer_has_deflate("permessage-deflate;"));
    assert!(!offer_has_deflate("x-webkit-deflate-frame"));
    assert!(!offer_has_deflate(""));
}

#[test]
fn keys_and_versions_are_validated() {
    assert!(validate_key("dGhlIHNhbXBsZSBub25jZQ=="));
    // fifteen bytes and seventeen bytes
    assert!(!validate_key("AAAAAAAAAAAAAAAAAAAA"));
    assert!(!validate_key("AAAAAAAAAAAAAAAAAAAAAAA="));
    assert!(!validate_key("not base64 at all!!"));
    assert!(!validate_key(""));
    assert!(validate_version("13"));
    assert!(!validate_version("8"));
    assert!(!validate_version(" 13"));
}

#[test]
fn a_request_is_written_with_the_usual_spelling() {
    let mut config = HandshakeConfig::default();
    config.host = Some("example.com".to_string());
    config.origin = Some("https://example.com".to_string());
    config.extensions = vec!["permessage-deflate".to_string()];
    config.extra_headers.insert("x-trace".to_string(), "7".to_string());
    let request =
        create_client_handshake_with_key("/chat", &config, "dGhlIHNhbXBsZSBub25jZQ==".to_string())
            .unwrap();
    let text = request_to_string(&request);
    assert_eq!(
        text,
        "GET /chat HTTP/1.1\r\nHost: example.com\r\nUpgrade: websocket\r\nConnection: Upgrade\r\n\
Sec-WebSocket-Key: dGhlIHNhbXBsZSBub25jZQ==\r\nSec-WebSocket-Version: 13\r\n\
Sec-WebSocket-Extensions: permessage-deflate\r\nOrigin: https://example.com\r\nx-trace: 7\r\n\r\n"
    );
    // what was written parses as what it was made from
    let back = parse_client_handshake(&text).unwrap();
    assert_eq!(back.method, request.method);
    assert_eq!(back.uri, request.uri);
    assert_eq!(back.version, request.version);
    assert_eq!(back.headers.len(), request.headers.len());
    for i in 0..request.headers.len() {
        assert_eq!(back.headers.entry(i), request.headers.entry(i));
    }
}

#[test]
fn a_response_is_parsed_and_written() {
    let text = "HTTP/1.1 101 Switching Protocols\r\nUpgrade: websocket\r\nConnection: Upgrade\r\n\
Sec-WebSocket-Accept: s3pPLMBiTxaQ9kYGzzhZRbK+xOo=\r\n\r\n";
    let response = parse_server_handshake(text).unwrap();
    assert_eq!(response.status, 101);
    assert_eq!(response.status_message, "Switching Protocols");
    assert_eq!(response.headers.get("sec-websocket-accept").unwrap(), "s3pPLMBiTxaQ9kYGzzhZRbK+xOo=");
    assert_eq!(response_to_string(&response), text);
    assert!(validate_server_handshake(&response, "dGhlIHNhbXBsZSBub25jZQ==").is_ok());
    assert!(validate_server_handshake(&response, "AAAAAAAAAAAAAAAAAAAAAA==").is_err());

    let text_of = |r: Result<aerosocket::HandshakeResponse, Error>| r.unwrap_err().to_string();
    assert_eq!(text_of(parse_server_handshake("")), "Protocol error: Invalid format: Missing status line");
    assert_eq!(
        text_of(parse_server_handshake("HTTP/1.1\r\n\r\n")),
        "Protocol error: Invalid format: Missing status code"
    );
    assert_eq!(
        text_of(parse_server_handshake("HTTP/1.1 abc OK\r\n\r\n")),
        "Protocol error: Invalid format: Invalid status code"
    );
    assert_eq!(
        text_of(parse_server_handshake("HTTP/1.1 65536 OK\r\n\r\n")),
        "Protocol error: Invalid format: Invalid status code"
    );
    assert_eq!(parse_server_handshake("HTTP/1.1 65535\r\n\r\n").unwrap().status, 65535);
    assert_eq!(parse_server_handshake("HTTP/1.1 007 Bond\n\n").unwrap().status, 7);
}

#[test]
fn a_request_line_needs_three_words() {
    let text_of = |r: Result<aerosocket::HandshakeRequest, Error>| r.unwrap_err().to_string();
    assert_eq!(text_of(parse_client_handshake("\r\n")), "Protocol error: Invalid format: Missing method");
    assert_eq!(text_of(parse_client_handshake("GET\r\n")), "Protocol error: Invalid format: Missing URI");
    assert_eq!(
        text_of(parse_client_handshake("GET /\r\n")),
        "Protocol error: Invalid format: Missing HTTP version"
    );
    let request = parse_client_handshake("  GET   /x   HTTP/1.1  \r\n Name :  a value \r\n\r\nbody").unwrap();
    assert_eq!(request.uri, "/x");
    assert_eq!(request.version, "HTTP/1.1");
    assert_eq!(request.headers.get("name").unwrap(), "a value");
    assert_eq!(request.headers.len(), 1);
    // a later field of the same name replaces the earlier one
    let twice = parse_client_handshake("GET / HTTP/1.1\nA: 1\nB: 2\na: 3\n").unwrap();
    assert_eq!(twice.headers.len(), 2);
    assert_eq!(twice.headers.get("a").unwrap(), "3");
}

#[test]
fn configurations_are_refused_in_words() {
    let text = |r: Result<(), Error>| r.unwrap_err().to_string();
    let prefix = "Configuration error: Configuration validation failed: ";
    let mut server = ServerConfig::default();
    server.max_message_size = 0;
    assert_eq!(text(server.validate()), format!("{}max_message_size must be greater than 0", prefix));
    server.max_message_size = 1;
    assert_eq!(
        text(server.validate()),
        format!("{}max_message_size must be greater than or equal to max_frame_size", prefix)
    );
    let mut server = ServerConfig::default();
    server.compression.level = 10;
    assert!(server.validate().is_ok());
    let mut client = ClientConfig::default();
    client.compression.level = 10;
    assert!(client.validate().is_ok());

    let client = ClientConfig::default().handshake_timeout(0);
    assert_eq!(text(client.validate()), format!("{}handshake_timeout must be greater than 0", prefix));
    let client = ClientConfig::default().max_message_size(0);
    assert_eq!(text(client.validate()), format!("{}max_message_size must be greater than 0", prefix));
    assert!(ClientConfig::default().idle_timeout(0).origin("o".to_string()).validate().is_ok());
}

#[test]
fn errors_map_to_close_codes() {
    assert_eq!(Error::InvalidUtf8.close_code(), CloseCode::InvalidPayload);
    assert_eq!(Error::Close(CloseError::InvalidUtf8).close_code(), CloseCode::InvalidPayload);
    assert_eq!(
        Error::Message(MessageError::TooLarge { size: 2, max: 1 }).close_code(),
        CloseCode::TooBig
    );
    assert_eq!(Error::Frame(FrameError::TooLarge { size: 2, max: 1 }).close_code(), CloseCode::TooBig);
    assert_eq!(
        Error::Protocol(ProtocolError::ExtensionNegotiation("x".to_string())).close_code(),
        CloseCode::MandatoryExtension
    );
    assert_eq!(Error::Protocol(ProtocolError::ReservedBitsSet).close_code(), CloseCode::ProtocolError);
    assert_eq!(Error::Frame(FrameError::InvalidOpcode(3)).close_code(), CloseCode::ProtocolError);
    assert_eq!(Error::Security(SecurityError::RateLimit).close_code(), CloseCode::PolicyViolation);
    assert_eq!(Error::Other("x".to_string()).close_code(), CloseCode::Internal);
    assert_eq!(CloseCode::TooBig.code(), 1009);
    assert_eq!(CloseCode::Application(4000).code(), 4000);
    assert!(CloseCode::NoStatus.is_reserved());
    assert!(CloseCode::Abnormal.is_reserved());
    assert!(CloseCode::TlsHandshake.is_reserved());
    assert!(!CloseCode::Normal.is_reserved());
    assert!(!CloseCode::Normal.is_error());
    assert!(!CloseCode::Away.is_error());
    assert!(CloseCode::Internal.is_error());
    assert_eq!(CloseCode::from(1015), CloseCode::TlsHandshake);
    assert_eq!(CloseCode::from(5000), CloseCode::ProtocolError);
    assert_eq!(CloseCode::from(4999), CloseCode::Application(4999));
}
