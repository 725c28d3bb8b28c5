use ws_core::request::OpCode;
use ws_core::request::Request;
use ws_core::server::Server;

#[test]
fn request_test_op_code_parsing() {
    assert!(matches!(OpCode::from_u8(129), OpCode::Text));
    assert!(matches!(OpCode::from_u8(136), OpCode::Close));
    assert!(matches!(OpCode::from_u8(137), OpCode::Ping));
    assert!(matches!(OpCode::from_u8(138), OpCode::Pong));
}

#[test]
fn request_op_code_names() {
    assert_eq!(OpCode::from_u8(129).name(), "TEXT");
    assert_eq!(OpCode::from_u8(136).name(), "CLOSE");
}

#[test]
fn request_holds_its_path() {
    let r = Request {
        path: "/ws".to_string(),
    };
    assert_eq!(r.path, "/ws");
}

#[test]
fn server_keeps_its_bind_address() {
    let s = Server::new("127.0.0.1:8082".to_string());
    assert_eq!(s.addr().as_str(), "127.0.0.1:8082");
}
