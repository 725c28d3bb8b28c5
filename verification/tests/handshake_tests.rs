use ws_core::handshake::find_websocket_key;
use ws_core::handshake::generate_hash;

#[test]
fn generate_accept_hash() {
    assert_eq!(
        generate_hash("dGhlIHNhbXBsZSBub25jZQ==".to_string()),
        "s3pPLMBiTxaQ9kYGzzhZRbK+xOo="
    )
}

#[test]
fn find_websocket_key_test() {
    let request = vec![
        "GET /ws HTTP/1.1".to_string(),
        "b".into(),
        "Sec-WebSocket-Key: abcd".into(),
    ];
    assert_eq!(find_websocket_key(request).unwrap(), "abcd");
}

#[test]
fn find_websocket_key_takes_the_first_match_and_trims_blanks() {
    let request = vec![
        "GET /ws HTTP/1.1".to_string(),
        "Sec-WebSocket-Key: \t  first".into(),
        "Sec-WebSocket-Key: second".into(),
    ];
    assert_eq!(find_websocket_key(request).unwrap(), "first");

    let bare = vec!["Sec-WebSocket-Key:nospace".to_string()];
    assert_eq!(find_websocket_key(bare).unwrap(), "nospace");
}

#[test]
fn find_websocket_key_absent() {
    let request = vec![
        "GET /ws HTTP/1.1".to_string(),
        "Host: localhost".into(),
        "Upgrade: websocket".into(),
    ];
    assert_eq!(find_websocket_key(request), None);
    assert_eq!(find_websocket_key(Vec::new()), None);
}

#[test]
fn accept_hash_depends_on_the_key() {
    let a = generate_hash("AAAAaaaaAAAAaaaaAAAAaa==".to_string());
    let b = generate_hash("BBBBbbbbBBBBbbbbBBBBbb==".to_string());
    assert_ne!(a, b);
    assert!(a.ends_with('='));
    assert_eq!(a.len(), 28);
}
