//! WebSocket upgrades, and the relay between a socket and a GraphQL connection.
use crate::headers::{
    first_value, header_append, header_contains, header_entries, header_get, header_map,
    is_field_name, is_field_value,
};
use crate::http::{
    optional_str, optional_text, Request, RequestView, Response, ResponseView, SWITCHING_PROTOCOLS,
};
use crate::json::{complaint_of, json_error_text};
use crate::text::{bytes_equal, list_has_word, lists_word, read_visible, visible_text};
use sha1::Digest;
use tokio_tungstenite::tungstenite;
use tokio_tungstenite::tungstenite::protocol::CloseFrame;
use tokio_tungstenite::tungstenite::Error as TungsteniteError;
use serde_json::Error as SerdeError;
use vstd::prelude::*;
use vstd::slice::slice_to_vec;
use vstd::string::StringExecFns;
use vstd::utf8::*;

verus! {

/// The identifier that a server appends to the key of a client.
pub const WS_UUID: &'static str = "258EAFA5-E914-47DA-95CA-C5AB0DC85B11";

/// The SHA-1 digest of a byte string.
pub uninterp spec fn sha1_of(bytes: Seq<u8>) -> Seq<u8>;

/// The text of a byte string in padded base64 over the standard alphabet.
pub uninterp spec fn base64_of(bytes: Seq<u8>) -> Seq<char>;

/// Whether a character may stand in padded base64.
pub open spec fn is_base64_char(c: char) -> bool {
    ||| 'A' <= c <= 'Z'
    ||| 'a' <= c <= 'z'
    ||| '0' <= c <= '9'
    ||| c == '+'
    ||| c == '/'
    ||| c == '='
}

/// Calls `Sha1::digest`: a digest has twenty bytes.
#[verifier::external_body]
pub(crate) fn sha1_digest(bytes: &[u8]) -> (digest: Vec<u8>)
    ensures
        digest@ == sha1_of(bytes@),
        digest@.len() == 20,
{
    sha1::Sha1::digest(bytes).to_vec()
}

/// Calls `base64::encode`: every three bytes, and what is left of them at the
/// end, become four characters of the alphabet or the padding. It fails only
/// where the number of characters overflows.
#[verifier::external_body]
pub(crate) fn base64_encode(bytes: &[u8]) -> (text: String)
    requires
        bytes@.len() < 0x1000_0000,
    ensures
        text@ == base64_of(bytes@),
        text@.len() == (bytes@.len() + 2) / 3 * 4,
        forall|i: int| 0 <= i < text@.len() ==> is_base64_char(#[trigger] text@[i]),
{
    base64::encode(bytes)
}

/// The text by which a server shows that it read the key of a client.
pub open spec fn accept_of(key: Seq<char>) -> Seq<char> {
    base64_of(sha1_of(encode_utf8(key) + encode_utf8(WS_UUID@)))
}

/// The text by which the server shows that it read the key.
fn accept_key(key: &str) -> (accept: String)
    ensures
        accept@ == accept_of(key@),
        is_field_value(accept@),
{
    let mut bytes = slice_to_vec(key.as_bytes());
    bytes.extend_from_slice(WS_UUID.as_bytes());
    assert(bytes@ =~= encode_utf8(key@) + encode_utf8(WS_UUID@));
    let digest = sha1_digest(bytes.as_slice());
    let accept = base64_encode(digest.as_slice());
    assert forall|i: int| 0 <= i < accept@.len() implies ' ' <= #[trigger] accept@[i] && accept@[i]
        != '\u{7f}' by {
        assert(is_base64_char(accept@[i]));
    }
    accept
}

/// The header fields of a response that upgrades to a WebSocket.
pub open spec fn upgrade_headers(accept: Seq<char>, protocol: Option<Seq<char>>) -> Map<
    Seq<char>,
    Seq<Seq<u8>>,
> {
    let headers = map![
        "connection"@ => seq![encode_utf8("upgrade"@)],
        "upgrade"@ => seq![encode_utf8("websocket"@)],
        "sec-websocket-accept"@ => seq![encode_utf8(accept)],
    ];
    match protocol {
        Some(p) => headers.insert("sec-websocket-protocol"@, seq![encode_utf8(p)]),
        None => headers,
    }
}

/// The response that upgrades to a WebSocket.
pub open spec fn upgrade_response(accept: Seq<char>, protocol: Option<Seq<char>>) -> ResponseView {
    ResponseView {
        status: SWITCHING_PROTOCOLS,
        headers: upgrade_headers(accept, protocol),
        body: Seq::empty(),
    }
}

/// Upgrades to a WebSocket, given the text that shows that the key was read.
pub fn switch_response(accept: &str, protocol: Option<&str>) -> (response: Response)
    requires
        is_field_value(accept@),
        protocol matches Some(p) ==> is_field_value(p@),
    ensures
        response@ == upgrade_response(accept@, optional_str(protocol)),
{
    proof {
        reveal_strlit("connection");
        reveal_strlit("upgrade");
        reveal_strlit("websocket");
        reveal_strlit("sec-websocket-accept");
        reveal_strlit("sec-websocket-protocol");
    }
    let mut headers = header_map();
    header_append(&mut headers, "connection", "upgrade");
    header_append(&mut headers, "upgrade", "websocket");
    header_append(&mut headers, "sec-websocket-accept", accept);
    match protocol {
        Some(p) => {
            header_append(&mut headers, "sec-websocket-protocol", p);
        },
        None => {},
    }
    assert(header_entries(headers) =~= upgrade_headers(accept@, optional_str(protocol)));
    Response { status: SWITCHING_PROTOCOLS, headers, body: String::new() }
}

/// Upgrades to a WebSocket for a client with a given key, and speaks a given
/// protocol on it.
pub fn websocket_upgrade_response(key: &str, protocol: Option<&str>) -> (response: Response)
    requires
        protocol matches Some(p) ==> is_field_value(p@),
    ensures
        response@ == upgrade_response(accept_of(key@), optional_str(protocol)),
{
    let accept = accept_key(key);
    switch_response(accept.as_str(), protocol)
}

/// Whether a request asks for an upgrade to a WebSocket.
pub open spec fn asks_for_websocket(request: RequestView) -> bool {
    &&& first_value(request.headers, "connection"@) matches Some(value)
    &&& visible_text(value) matches Some(text)
    &&& lists_word(text, "upgrade"@)
    &&& first_value(request.headers, "upgrade"@) == Some(encode_utf8("websocket"@))
    &&& first_value(request.headers, "sec-websocket-version"@) == Some(encode_utf8("13"@))
    &&& request.headers.dom().contains("sec-websocket-key"@)
}

/// Whether the first value of a header field is a given text.
fn has_value(request: &Request, name: &str, text: &str) -> (found: bool)
    requires
        is_field_name(name@),
    ensures
        found == (first_value(request@.headers, name@) == Some(encode_utf8(text@))),
{
    match header_get(&request.headers, name) {
        Some(value) => bytes_equal(value.as_slice(), text.as_bytes()),
        None => false,
    }
}

/// Whether a request asks for an upgrade to a WebSocket.
pub fn is_websocket_upgrade(request: &Request) -> (asks: bool)
    ensures
        asks == asks_for_websocket(request@),
{
    proof {
        reveal_strlit("connection");
        reveal_strlit("upgrade");
        reveal_strlit("sec-websocket-version");
        reveal_strlit("sec-websocket-key");
    }
    let connection = match header_get(&request.headers, "connection") {
        Some(value) => value,
        None => {
            return false;
        },
    };
    if !list_has_word(connection.as_slice(), "upgrade") {
        return false;
    }
    if !has_value(request, "upgrade", "websocket") {
        return false;
    }
    if !has_value(request, "sec-websocket-version", "13") {
        return false;
    }
    header_contains(&request.headers, "sec-websocket-key")
}

/// The key that a request names for the upgrade to a WebSocket, if it is text.
pub open spec fn key_of(request: RequestView) -> Option<Seq<char>> {
    match first_value(request.headers, "sec-websocket-key"@) {
        Some(value) => visible_text(value),
        None => None,
    }
}

/// The key that a request names for the upgrade to a WebSocket, if it is text.
pub fn websocket_key(request: &Request) -> (key: Option<String>)
    ensures
        optional_text(key) == key_of(request@),
{
    proof {
        reveal_strlit("sec-websocket-key");
    }
    match header_get(&request.headers, "sec-websocket-key") {
        Some(value) => read_visible(value),
        None => None,
    }
}

/// Answers a request that asks for a GraphQL WebSocket with the upgrade. The
/// socket itself is opened once the response is sent.
pub fn serve_graphql_ws(request: &Request) -> (response: Response)
    requires
        key_of(request@) is Some,
    ensures
        response@ == upgrade_response(accept_of(key_of(request@)->0), Some("graphql-ws"@)),
{
    proof {
        reveal_strlit("graphql-ws");
    }
    let key = websocket_key(request).unwrap();
    websocket_upgrade_response(key.as_str(), Some("graphql-ws"))
}

/// Answers a request for a GraphQL WebSocket with the upgrade, or with nothing
/// exactly where the request has no readable key.
pub fn try_serve_graphql_ws(request: &Request) -> (response: Option<Response>)
    ensures
        match response {
            Some(r) => key_of(request@) is Some && r@ == upgrade_response(
                accept_of(key_of(request@)->0),
                Some("graphql-ws"@),
            ),
            None => key_of(request@) is None,
        },
{
    match websocket_key(request) {
        Some(_) => Some(serve_graphql_ws(request)),
        None => None,
    }
}

/// Why a relay ends before its source does.
#[derive(Debug)]
pub enum Error {
    Tungstenite(TungsteniteError),
    Serde(SerdeError),
}

/// An error of a WebSocket.
#[verifier::external_type_specification]
#[verifier::external_body]
pub struct ExTungsteniteError(TungsteniteError);

/// What an error of a WebSocket says, where that does not depend on the
/// machine: `None` for an error of input or output.
pub uninterp spec fn socket_complaint_of(error: TungsteniteError) -> Option<Seq<char>>;

/// Calls the `Display` of `tungstenite::Error`. The text depends on the error
/// alone, but for an error of input or output, of which nothing is said.
#[verifier::external_body]
pub(crate) fn socket_error_text(error: &TungsteniteError) -> (text: String)
    ensures
        socket_complaint_of(*error) matches Some(t) ==> text@ == t,
{
    error.to_string()
}

/// Reports what an error of a WebSocket says.
pub fn tungstenite_message(said: &str) -> (text: String)
    ensures
        text@ == "tungstenite error: "@ + said@,
{
    String::from_str("tungstenite error: ").concat(said)
}

/// Reports what an error of reading or writing JSON says.
pub fn serde_message(said: &str) -> (text: String)
    ensures
        text@ == "serde error: "@ + said@,
{
    String::from_str("serde error: ").concat(said)
}

impl Error {
    /// What the error says, where that does not depend on the machine.
    pub open spec fn text(self) -> Option<Seq<char>> {
        match self {
            Error::Tungstenite(e) => match socket_complaint_of(e) {
                Some(t) => Some("tungstenite error: "@ + t),
                None => None,
            },
            Error::Serde(e) => match complaint_of(e) {
                Some(t) => Some("serde error: "@ + t),
                None => None,
            },
        }
    }

    /// What the error says, after words that tell its kind.
    pub fn message(&self) -> (text: String)
        ensures
            self is Tungstenite ==> "tungstenite error: "@.is_prefix_of(text@),
            self is Serde ==> "serde error: "@.is_prefix_of(text@),
            self.text() matches Some(t) ==> text@ == t,
    {
        match self {
            Error::Tungstenite(e) => tungstenite_message(socket_error_text(e).as_str()),
            Error::Serde(e) => serde_message(json_error_text(e).as_str()),
        }
    }
}

/// A message on a WebSocket.
pub enum Frame {
    Text(String),
    Binary(Vec<u8>),
    Ping(Vec<u8>),
    Pong(Vec<u8>),
    /// The end of the socket, with a code and a reason if they were given.
    Close(Option<(u16, String)>),
}

/// The text that bytes encode, if they encode one.
pub open spec fn utf8_text(bytes: Seq<u8>) -> Option<Seq<char>> {
    if valid_utf8(bytes) {
        Some(decode_utf8(bytes))
    } else {
        None
    }
}

impl Frame {
    /// The text that a message carries, of whatever kind it is.
    pub open spec fn text(self) -> Option<Seq<char>> {
        match self {
            Frame::Text(text) => Some(text@),
            Frame::Binary(bytes) => utf8_text(bytes@),
            Frame::Ping(bytes) => utf8_text(bytes@),
            Frame::Pong(bytes) => utf8_text(bytes@),
            Frame::Close(None) => Some(Seq::empty()),
            Frame::Close(Some((_, reason))) => Some(reason@),
        }
    }
}

/// Calls `tungstenite::Message::into_text`: the text that a message carries, or
/// the error that its bytes are not UTF-8.
#[verifier::external_body]
pub(crate) fn frame_text(frame: Frame) -> (text: Result<String, TungsteniteError>)
    ensures
        match text {
            Ok(s) => frame.text() == Some(s@),
            Err(e) => frame.text() is None && socket_complaint_of(e) == Some(
                "UTF-8 encoding error"@,
            ),
        },
{
    match frame {
        Frame::Text(text) => tungstenite::Message::Text(text),
        Frame::Binary(bytes) => tungstenite::Message::Binary(bytes),
        Frame::Ping(bytes) => tungstenite::Message::Ping(bytes),
        Frame::Pong(bytes) => tungstenite::Message::Pong(bytes),
        Frame::Close(close) => tungstenite::Message::Close(
            close.map(|c| CloseFrame { code: c.0.into(), reason: c.1.into() }),
        ),
    }.into_text()
}

/// What a relay does next: it passes something on, or it ends.
pub enum Relay<T> {
    Send(T),
    Finish(Result<(), Error>),
}

/// Passes what came from the socket on to the connection: each message as its
/// text. The relay ends with the socket, and at the first error.
pub fn ws_to_s(received: Option<Result<Frame, TungsteniteError>>) -> (next: Relay<String>)
    ensures
        match received {
            None => next == Relay::<String>::Finish(Ok(())),
            Some(Err(e)) => next == Relay::<String>::Finish(Err(Error::Tungstenite(e))),
            Some(Ok(frame)) => match frame.text() {
                Some(t) => next matches Relay::Send(s) && s@ == t,
                None => next matches Relay::Finish(Err(Error::Tungstenite(e)))
                    && socket_complaint_of(e) == Some("UTF-8 encoding error"@),
            },
        },
{
    match received {
        Some(Ok(frame)) => match frame_text(frame) {
            Ok(text) => Relay::Send(text),
            Err(e) => Relay::Finish(Err(Error::Tungstenite(e))),
        },
        Some(Err(e)) => Relay::Finish(Err(Error::Tungstenite(e))),
        None => Relay::Finish(Ok(())),
    }
}

/// Passes what the connection sent, written as JSON, on to the socket: each
/// message as a text. The relay ends with the connection, and at the first
/// message that cannot be written.
pub fn s_to_ws(sent: Option<Result<String, SerdeError>>) -> (next: Relay<Frame>)
    ensures
        next == match sent {
            None => Relay::<Frame>::Finish(Ok(())),
            Some(Ok(json)) => Relay::<Frame>::Send(Frame::Text(json)),
            Some(Err(e)) => Relay::<Frame>::Finish(Err(Error::Serde(e))),
        },
{
    match sent {
        Some(Ok(json)) => Relay::Send(Frame::Text(json)),
        Some(Err(e)) => Relay::Finish(Err(Error::Serde(e))),
        None => Relay::Finish(Ok(())),
    }
}

} // verus!
