use ws_core::error::WsError;
use ws_core::frame::encode_close;
use ws_core::frame::encode_text;
use ws_core::session::ConnectionSession;
use ws_core::session::FrameAction;
use ws_core::session::SessionState;

fn lines(parts: &[&str]) -> Vec<String> {
    parts.iter().map(|s| s.to_string()).collect()
}

fn open_session() -> ConnectionSession {
    let mut session = ConnectionSession::new();
    let resp = session.on_handshake(lines(&[
        "GET /ws HTTP/1.1",
        "Host: localhost",
        "Sec-WebSocket-Key: dGhlIHNhbXBsZSBub25jZQ==",
    ]));
    assert!(resp.is_some());
    assert_eq!(session.state, SessionState::Open);
    session
}

#[test]
fn handshake_with_key_yields_the_101_response() {
    let mut session = ConnectionSession::new();
    let resp = session.on_handshake(lines(&[
        "GET /ws HTTP/1.1",
        "Host: localhost",
        "Sec-WebSocket-Key: dGhlIHNhbXBsZSBub25jZQ==",
    ]));
    assert_eq!(
        resp.unwrap(),
        "HTTP/1.1 101 Switching Protocols\r\nUpgrade: websocket\r\nConnection: Upgrade\r\n\
         Sec-WebSocket-Accept: s3pPLMBiTxaQ9kYGzzhZRbK+xOo=\r\n\r\n"
    );
    assert_eq!(session.state, SessionState::Open);
}

#[test]
fn handshake_with_any_other_request_line_is_the_404_response() {
    let mut session = ConnectionSession::new();
    let resp = session.on_handshake(lines(&["GET / HTTP/1.1", "Host: localhost"]));
    assert_eq!(resp.unwrap(), "HTTP/1.1 404 Not Found");
    assert_eq!(session.state, SessionState::Closed);

    let mut session = ConnectionSession::new();
    let resp = session.on_handshake(lines(&["POST /ws HTTP/1.1"]));
    assert_eq!(resp.unwrap(), "HTTP/1.1 404 Not Found");
    assert_eq!(session.state, SessionState::Closed);
}

#[test]
fn handshake_without_a_key_draws_no_response_but_opens() {
    let mut session = ConnectionSession::new();
    let resp = session.on_handshake(lines(&["GET /ws HTTP/1.1", "Host: localhost"]));
    assert_eq!(resp, None);
    assert_eq!(session.state, SessionState::Open);
}

#[test]
fn masked_text_frame_round_trip() {
    let mut session = open_session();

    let key = [0x01u8, 0x02, 0x03, 0x04];
    let masked: Vec<u8> = b"hello"
        .iter()
        .enumerate()
        .map(|(i, b)| b ^ key[i % 4])
        .collect();

    let (mut frame, action) = session.on_frame_header([0x81, 0x85]).unwrap();
    assert_eq!(action, FrameAction::ReadMaskedText);
    assert_eq!(frame.payload_length, 5);
    assert_eq!(session.state, SessionState::Open);

    let msg = session.on_masked_text(&mut frame, key, masked).unwrap();
    assert_eq!(msg, "hello");
    assert_eq!(frame.masking_key, Some(key));
    assert_eq!(frame.payload, Some(b"hello".to_vec()));
    assert_eq!(session.state, SessionState::Open);

    let reply = encode_text("Hello Mike!".to_string());
    assert_eq!(reply[0], 0x81);
    assert_eq!(reply[1] as usize, "Hello Mike!".len());
    assert_eq!(&reply[2..], b"Hello Mike!");
}

#[test]
fn masked_close_frame_ends_the_session() {
    let mut session = open_session();
    let (frame, action) = session.on_frame_header([0x88, 0x80]).unwrap();
    assert_eq!(action, FrameAction::ReadKeyAndClose);
    assert_eq!(frame.payload_length, 0);
    assert_eq!(session.state, SessionState::Closed);
    assert_eq!(encode_close(), vec![0x88u8, 0x00]);
}

#[test]
fn unmasked_close_frame_ends_the_session() {
    let mut session = open_session();
    let (_, action) = session.on_frame_header([0x08, 0x00]).unwrap();
    assert_eq!(action, FrameAction::CloseNow);
    assert_eq!(session.state, SessionState::Closed);
}

#[test]
fn unknown_op_code_terminates_without_a_response() {
    let mut session = open_session();
    let r = session.on_frame_header([0x83, 0x80]);
    assert_eq!(r.unwrap_err(), WsError::UnknownOpCode);
    assert_eq!(session.state, SessionState::Closed);
}

#[test]
fn invalid_utf8_payload_is_fatal() {
    let mut session = open_session();
    let (mut frame, action) = session.on_frame_header([0x81, 0x82]).unwrap();
    assert_eq!(action, FrameAction::ReadMaskedText);
    let key = [0x00u8, 0x00, 0x00, 0x00];
    let r = session.on_masked_text(&mut frame, key, vec![0xFF, 0xFE]);
    assert_eq!(r.unwrap_err(), WsError::InvalidUtf8Payload);
    assert_eq!(session.state, SessionState::Closed);
}

#[test]
fn ping_and_pong_are_ignored() {
    let mut session = open_session();
    let (_, action) = session.on_frame_header([0x89, 0x00]).unwrap();
    assert_eq!(action, FrameAction::Ignore);
    assert_eq!(session.state, SessionState::Open);
    let (_, action) = session.on_frame_header([0x8A, 0x00]).unwrap();
    assert_eq!(action, FrameAction::Ignore);
    assert_eq!(session.state, SessionState::Open);
}

#[test]
fn unmasked_text_frame_is_answered_directly() {
    let mut session = open_session();
    let (frame, action) = session.on_frame_header([0x01, 0x00]).unwrap();
    assert_eq!(action, FrameAction::ReplyText);
    assert!(frame.is_final);
    assert_eq!(session.state, SessionState::Open);
}
