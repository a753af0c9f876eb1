use hyper::header::HeaderValue;
use hyper::HeaderMap;
use taskrunner::http::{Method, Request, Response};
use taskrunner::serve::{
    is_websocket_upgrade, s_to_ws, serde_message, serve_graphql_ws, switch_response,
    try_serve_graphql_ws, tungstenite_message, websocket_key, websocket_upgrade_response, ws_to_s,
    Error, Frame, Relay,
};
use taskrunner::text::{bytes_equal, list_has_word, read_visible, text_equal};
use tokio_tungstenite::tungstenite;

const UPGRADE: [(&str, &str); 4] = [
    ("connection", "Upgrade"),
    ("upgrade", "websocket"),
    ("sec-websocket-version", "13"),
    ("sec-websocket-key", "dGhlIHNhbXBsZSBub25jZQ=="),
];

fn request(fields: &[(&'static str, &str)]) -> Request {
    let mut headers = HeaderMap::new();
    for (name, value) in fields {
        headers.append(*name, HeaderValue::from_str(value).unwrap());
    }
    Request { method: Method::Get, path: "/graphql".to_string(), query: None, headers }
}

fn with(name: &'static str, value: &[u8]) -> Request {
    let mut request = request(&UPGRADE);
    request.headers.insert(name, HeaderValue::from_bytes(value).unwrap());
    request
}

fn without(name: &str) -> Request {
    let mut request = request(&UPGRADE);
    request.headers.remove(name);
    request
}

fn header(response: &Response, name: &str) -> Option<String> {
    response.headers.get(name).map(|v| v.to_str().unwrap().to_string())
}

#[test]
fn accept_is_that_of_the_standard() {
    let response = websocket_upgrade_response("dGhlIHNhbXBsZSBub25jZQ==", None);
    assert_eq!(response.status, 101);
    assert_eq!(response.body, "");
    assert_eq!(header(&response, "connection"), Some("upgrade".to_string()));
    assert_eq!(header(&response, "upgrade"), Some("websocket".to_string()));
    assert_eq!(
        header(&response, "sec-websocket-accept"),
        Some("s3pPLMBiTxaQ9kYGzzhZRbK+xOo=".to_string())
    );
    assert_eq!(header(&response, "sec-websocket-protocol"), None);
    assert_eq!(response.headers.len(), 3);
}

#[test]
fn protocol_is_named() {
    let response = websocket_upgrade_response("x3JJHMbDL1EzLkh9GBhXDw==", Some("chat"));
    assert_eq!(header(&response, "sec-websocket-protocol"), Some("chat".to_string()));
    assert_eq!(
        header(&response, "sec-websocket-accept"),
        Some("HSmrc0sMlYUkAGmm5OPpG2HaGWk=".to_string())
    );
    assert_eq!(response.headers.len(), 4);
}

#[test]
fn switch_names_what_it_is_given() {
    let response = switch_response("abc", Some("p"));
    assert_eq!(header(&response, "sec-websocket-accept"), Some("abc".to_string()));
    assert_eq!(header(&response, "sec-websocket-protocol"), Some("p".to_string()));
}

#[test]
fn upgrade_is_recognised() {
    assert!(is_websocket_upgrade(&request(&UPGRADE)));
    assert!(is_websocket_upgrade(&with("connection", b"keep-alive, uPGRADE")));
    assert!(is_websocket_upgrade(&with("connection", b"\t upgrade \t,close")));
    assert!(is_websocket_upgrade(&with("connection", b",,upgrade")));
}

#[test]
fn upgrade_needs_every_field() {
    for (name, _) in UPGRADE {
        assert!(!is_websocket_upgrade(&without(name)));
    }
}

#[test]
fn upgrade_needs_the_exact_values() {
    assert!(!is_websocket_upgrade(&with("connection", b"keep-alive")));
    assert!(!is_websocket_upgrade(&with("connection", b"upgrades, up grade")));
    assert!(!is_websocket_upgrade(&with("connection", b"")));
    assert!(!is_websocket_upgrade(&with("connection", b"upgrade\xe9, upgrade")));
    assert!(!is_websocket_upgrade(&with("upgrade", b"WebSocket")));
    assert!(!is_websocket_upgrade(&with("upgrade", b"websocket ")));
    assert!(!is_websocket_upgrade(&with("sec-websocket-version", b"8")));
    assert!(is_websocket_upgrade(&with("sec-websocket-key", b"\xff")));
}

#[test]
fn first_field_counts() {
    let mut r = with("connection", b"close");
    r.headers.append("connection", HeaderValue::from_static("upgrade"));
    assert!(!is_websocket_upgrade(&r));
}

#[test]
fn key_is_read_if_it_is_text() {
    assert_eq!(
        websocket_key(&request(&UPGRADE)),
        Some("dGhlIHNhbXBsZSBub25jZQ==".to_string())
    );
    assert_eq!(websocket_key(&without("sec-websocket-key")), None);
    assert_eq!(websocket_key(&with("sec-websocket-key", b"a\xffb")), None);
}

#[test]
fn graphql_socket_speaks_graphql_ws() {
    let response = serve_graphql_ws(&request(&UPGRADE));
    assert_eq!(response.status, 101);
    assert_eq!(header(&response, "sec-websocket-protocol"), Some("graphql-ws".to_string()));
    assert_eq!(
        header(&response, "sec-websocket-accept"),
        Some("s3pPLMBiTxaQ9kYGzzhZRbK+xOo=".to_string())
    );
}

fn text_of(frame: Frame) -> String {
    match ws_to_s(Some(Ok(frame))) {
        Relay::Send(text) => text,
        Relay::Finish(_) => panic!("ended"),
    }
}

#[test]
fn frames_are_passed_on_as_text() {
    assert_eq!(text_of(Frame::Text("{}".to_string())), "{}");
    assert_eq!(text_of(Frame::Binary(b"\xc3\xa9".to_vec())), "\u{e9}");
    assert_eq!(text_of(Frame::Ping(b"p".to_vec())), "p");
    assert_eq!(text_of(Frame::Pong(vec![])), "");
    assert_eq!(text_of(Frame::Close(None)), "");
    assert_eq!(text_of(Frame::Close(Some((1000, "bye".to_string())))), "bye");
}

#[test]
fn bytes_that_are_not_text_end_the_relay() {
    match ws_to_s(Some(Ok(Frame::Binary(vec![0xff])))) {
        Relay::Finish(Err(e)) => {
            assert_eq!(e.message(), "tungstenite error: UTF-8 encoding error");
            assert!(matches!(e, Error::Tungstenite(tungstenite::Error::Utf8)));
        }
        _ => panic!("not ended"),
    }
}

#[test]
fn socket_errors_end_the_relay() {
    match ws_to_s(Some(Err(tungstenite::Error::ConnectionClosed))) {
        Relay::Finish(Err(e)) => {
            assert_eq!(e.message(), "tungstenite error: Connection closed normally")
        }
        _ => panic!("not ended"),
    }
}

#[test]
fn relays_end_with_their_source() {
    assert!(matches!(ws_to_s(None), Relay::Finish(Ok(()))));
    assert!(matches!(s_to_ws(None), Relay::Finish(Ok(()))));
}

#[test]
fn json_is_sent_as_text_and_read_back() {
    let frame = match s_to_ws(Some(Ok("{\"type\":\"ka\"}".to_string()))) {
        Relay::Send(frame) => frame,
        Relay::Finish(_) => panic!("ended"),
    };
    assert_eq!(text_of(frame), "{\"type\":\"ka\"}");
}

#[test]
fn json_errors_end_the_relay() {
    let error = serde_json::from_str::<bool>("nope").err().unwrap();
    let text = error.to_string();
    match s_to_ws(Some(Err(error))) {
        Relay::Finish(Err(e)) => assert_eq!(e.message(), format!("serde error: {}", text)),
        _ => panic!("not ended"),
    }
}

#[test]
fn joined_lists_hold_the_words_of_both() {
    assert!(list_has_word(b"a, b", "a"));
    assert!(list_has_word(b"a, b", "b"));
    assert!(!list_has_word(b"a b", "a"));
    assert!(list_has_word(b"", ""));
    assert!(!list_has_word(b"\n", ""));
}

#[test]
fn case_of_a_list_is_ignored() {
    assert!(list_has_word(b"UPGRADE", "upgrade"));
    assert!(!list_has_word(b"upgrade", "UPGRADE"));
    assert!(!list_has_word(b"@[`{", "`{`{"));
}

#[test]
fn text_is_visible_ascii() {
    assert_eq!(read_visible(b" a~\t".to_vec()), Some(" a~\t".to_string()));
    assert_eq!(read_visible(vec![127]), None);
    assert_eq!(read_visible(vec![31]), None);
    assert_eq!(read_visible(vec![]), Some(String::new()));
}

#[test]
fn equality_is_exact() {
    assert!(text_equal("\u{e9}", "\u{e9}"));
    assert!(!text_equal("a", "ab"));
    assert!(!text_equal("a", "b"));
    assert!(bytes_equal(b"", b""));
    assert!(!bytes_equal(b"a", b"b"));
}

#[test]
fn errors_of_input_and_output_tell_their_kind() {
    let cause = || std::io::Error::new(std::io::ErrorKind::Other, "reset");
    let socket = Error::Tungstenite(tungstenite::Error::Io(cause()));
    assert_eq!(socket.message(), "tungstenite error: IO error: reset");
    let json = Error::Serde(serde_json::Error::io(cause()));
    assert_eq!(json.message(), "serde error: reset");
}

#[test]
fn no_socket_is_served_without_a_readable_key() {
    assert!(try_serve_graphql_ws(&without("sec-websocket-key")).is_none());
    assert!(try_serve_graphql_ws(&with("sec-websocket-key", b"a\xffb")).is_none());
    let mut r = with("sec-websocket-key", b"\xff");
    r.headers.append("sec-websocket-key", HeaderValue::from_static("text"));
    assert!(try_serve_graphql_ws(&r).is_none());
    let response = try_serve_graphql_ws(&request(&UPGRADE)).unwrap();
    assert_eq!(response.status, 101);
    assert_eq!(
        header(&response, "sec-websocket-accept"),
        Some("s3pPLMBiTxaQ9kYGzzhZRbK+xOo=".to_string())
    );
    let bare = request(&[("sec-websocket-key", "")]);
    assert_eq!(try_serve_graphql_ws(&bare).unwrap().status, 101);
}

#[test]
fn reports_keep_what_was_said() {
    assert_eq!(tungstenite_message("broken pipe"), "tungstenite error: broken pipe");
    assert_eq!(serde_message(""), "serde error: ");
}
