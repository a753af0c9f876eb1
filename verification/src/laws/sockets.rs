//! What holds of WebSocket upgrades and of the relay between a socket and a
//! connection.
use crate::headers::{entries_with, header_entries, is_field_value};
use crate::http::{Request, RequestView, Response};
use crate::json::complaint_of;
use crate::laws::text::visible_bytes_are_their_text;
use crate::serve::{
    accept_of, asks_for_websocket, base64_of, is_websocket_upgrade, key_of, s_to_ws, serde_message,
    serve_graphql_ws, sha1_of, socket_complaint_of, switch_response, try_serve_graphql_ws,
    tungstenite_message, upgrade_headers, upgrade_response, websocket_key,
    websocket_upgrade_response, ws_to_s, Error, Frame, Relay,
};
use crate::text::{lists_word, visible_text};
use serde_json::Error as SerdeError;
use tokio_tungstenite::tungstenite::Error as TungsteniteError;
use vstd::prelude::*;
use vstd::utf8::*;

verus! {

/// Whether two requests have the same values, or none, under a header name.
pub open spec fn agree_on(
    a: Map<Seq<char>, Seq<Seq<u8>>>,
    b: Map<Seq<char>, Seq<Seq<u8>>>,
    name: Seq<char>,
) -> bool {
    &&& a.dom().contains(name) <==> b.dom().contains(name)
    &&& a.dom().contains(name) ==> a[name] == b[name]
}

/// A request asks for a WebSocket exactly where the first `connection` value is
/// text that lists "upgrade", the first `upgrade` value is "websocket", the
/// first `sec-websocket-version` value is "13", and there is a
/// `sec-websocket-key`, whatever else the request holds.
pub proof fn a_websocket_is_asked_for_by_four_fields(request: RequestView)
    ensures
        asks_for_websocket(request) <==> {
            &&& request.headers.dom().contains("connection"@)
            &&& visible_text(request.headers["connection"@][0]) matches Some(text)
            &&& lists_word(text, "upgrade"@)
            &&& request.headers.dom().contains("upgrade"@)
            &&& request.headers["upgrade"@][0] == encode_utf8("websocket"@)
            &&& request.headers.dom().contains("sec-websocket-version"@)
            &&& request.headers["sec-websocket-version"@][0] == encode_utf8("13"@)
            &&& request.headers.dom().contains("sec-websocket-key"@)
        },
{
}

/// Two requests that agree on the four fields of an upgrade both ask for a
/// WebSocket or neither does, and two that agree on the key have the same key,
/// whatever their methods, paths, query strings and other fields are.
pub proof fn the_four_fields_decide_about_a_websocket(a: RequestView, b: RequestView)
    requires
        agree_on(a.headers, b.headers, "sec-websocket-key"@),
    ensures
        key_of(a) == key_of(b),
        agree_on(a.headers, b.headers, "connection"@) && agree_on(a.headers, b.headers, "upgrade"@)
            && agree_on(a.headers, b.headers, "sec-websocket-version"@) ==> asks_for_websocket(a)
            == asks_for_websocket(b),
{
}

/// A field of another name, added or replaced, changes neither whether a request
/// asks for a WebSocket nor which key it names.
pub proof fn another_field_changes_no_upgrade(
    request: RequestView,
    name: Seq<char>,
    value: Seq<u8>,
    values: Seq<Seq<u8>>,
)
    requires
        name != "connection"@,
        name != "upgrade"@,
        name != "sec-websocket-version"@,
        name != "sec-websocket-key"@,
    ensures
        asks_for_websocket(
            RequestView { headers: request.headers.insert(name, values), ..request },
        ) == asks_for_websocket(request),
        asks_for_websocket(
            RequestView { headers: entries_with(request.headers, name, value), ..request },
        ) == asks_for_websocket(request),
        key_of(RequestView { headers: request.headers.insert(name, values), ..request }) == key_of(
            request,
        ),
        key_of(RequestView { headers: entries_with(request.headers, name, value), ..request })
            == key_of(request),
{
    let replaced = RequestView { headers: request.headers.insert(name, values), ..request };
    let added = RequestView { headers: entries_with(request.headers, name, value), ..request };
    the_four_fields_decide_about_a_websocket(request, replaced);
    the_four_fields_decide_about_a_websocket(request, added);
}

/// A value after the first changes neither whether a request asks for a
/// WebSocket nor which key it names.
pub proof fn a_second_value_changes_no_upgrade(request: RequestView, name: Seq<char>, value: Seq<u8>)
    requires
        request.headers.dom().contains(name),
        request.headers[name].len() > 0,
    ensures
        asks_for_websocket(
            RequestView { headers: entries_with(request.headers, name, value), ..request },
        ) == asks_for_websocket(request),
        key_of(RequestView { headers: entries_with(request.headers, name, value), ..request })
            == key_of(request),
{
    let more = entries_with(request.headers, name, value);
    assert(more[name][0] == request.headers[name][0]);
    a_websocket_is_asked_for_by_four_fields(request);
    a_websocket_is_asked_for_by_four_fields(
        RequestView { headers: more, ..request },
    );
}

/// The key that a request names is the first value under `sec-websocket-key`, as
/// text, and there is none exactly where the field is absent or that value is
/// not text.
pub proof fn the_key_is_the_first_value_of_its_field(request: RequestView)
    ensures
        request.headers.dom().contains("sec-websocket-key"@) ==> key_of(request) == visible_text(
            request.headers["sec-websocket-key"@][0],
        ),
        !request.headers.dom().contains("sec-websocket-key"@) ==> key_of(request) is None,
        key_of(request) matches Some(key) ==> encode_utf8(key)
            == request.headers["sec-websocket-key"@][0],
{
    if request.headers.dom().contains("sec-websocket-key"@) {
        visible_bytes_are_their_text(request.headers["sec-websocket-key"@][0]);
    }
}

/// A server shows that it read a key by the digest, in base64, of the key
/// followed by the identifier that the WebSocket protocol fixes.
pub proof fn the_accept_text_is_the_digest_of_key_and_identifier(key: Seq<char>)
    ensures
        accept_of(key) == base64_of(
            sha1_of(encode_utf8(key) + encode_utf8("258EAFA5-E914-47DA-95CA-C5AB0DC85B11"@)),
        ),
{
}

/// The header names of an upgrade differ.
proof fn lemma_upgrade_names()
    ensures
        "connection"@.len() == 10,
        "upgrade"@.len() == 7,
        "sec-websocket-accept"@.len() == 20,
        "sec-websocket-protocol"@.len() == 22,
{
    reveal_strlit("connection");
    reveal_strlit("upgrade");
    reveal_strlit("sec-websocket-accept");
    reveal_strlit("sec-websocket-protocol");
}

/// For every accept text and every protocol, an upgrade has the value
/// "websocket" under `upgrade`, "upgrade" under `connection`, the accept text
/// under `sec-websocket-accept`, the protocol, if there is one, under
/// `sec-websocket-protocol`, each once, and no other field.
pub proof fn an_upgrade_has_exactly_its_fields(accept: Seq<char>, protocol: Option<Seq<char>>)
    ensures
        upgrade_headers(accept, protocol)["upgrade"@] == seq![encode_utf8("websocket"@)],
        upgrade_headers(accept, protocol)["connection"@] == seq![encode_utf8("upgrade"@)],
        upgrade_headers(accept, protocol)["sec-websocket-accept"@] == seq![encode_utf8(accept)],
        protocol matches Some(p) ==> upgrade_headers(accept, protocol)["sec-websocket-protocol"@]
            == seq![encode_utf8(p)],
        forall|name: Seq<char>| #[trigger]
            upgrade_headers(accept, protocol).dom().contains(name) <==> {
                ||| name == "upgrade"@
                ||| name == "connection"@
                ||| name == "sec-websocket-accept"@
                ||| name == "sec-websocket-protocol"@ && protocol is Some
            },
{
    lemma_upgrade_names();
}

/// An upgrade switches protocols and has no body.
pub proof fn an_upgrade_switches_protocols(accept: Seq<char>, protocol: Option<Seq<char>>)
    ensures
        upgrade_response(accept, protocol).status == 101,
        upgrade_response(accept, protocol).body.len() == 0,
        upgrade_response(accept, protocol).headers == upgrade_headers(accept, protocol),
{
}

/// Whether a response is the upgrade that shows a given accept text and names a
/// given protocol.
pub open spec fn upgrades_with(
    response: Response,
    accept: Seq<char>,
    protocol: Option<Seq<char>>,
) -> bool {
    let headers = header_entries(response.headers);
    &&& response.status == 101
    &&& response.body@.len() == 0
    &&& headers["upgrade"@] == seq![encode_utf8("websocket"@)]
    &&& headers["connection"@] == seq![encode_utf8("upgrade"@)]
    &&& headers["sec-websocket-accept"@] == seq![encode_utf8(accept)]
    &&& protocol matches Some(p) ==> headers["sec-websocket-protocol"@] == seq![encode_utf8(p)]
    &&& forall|name: Seq<char>| #[trigger]
        headers.dom().contains(name) <==> {
            ||| name == "upgrade"@
            ||| name == "connection"@
            ||| name == "sec-websocket-accept"@
            ||| name == "sec-websocket-protocol"@ && protocol is Some
        }
}

/// Switching to a WebSocket answers with the accept text and the protocol that
/// it is given, under their names.
pub proof fn switching_shows_what_it_is_given(
    accept: &str,
    protocol: Option<&str>,
    response: Response,
)
    requires
        is_field_value(accept@),
        protocol matches Some(p) ==> is_field_value(p@),
        call_ensures(switch_response, (accept, protocol), response),
    ensures
        protocol matches Some(p) ==> upgrades_with(response, accept@, Some(p@)),
        protocol is None ==> upgrades_with(response, accept@, None),
{
    let view = match protocol {
        Some(p) => Some(p@),
        None => None,
    };
    an_upgrade_has_exactly_its_fields(accept@, view);
    an_upgrade_switches_protocols(accept@, view);
}

/// An upgrade for a key shows the digest of that key and of the identifier that
/// the WebSocket protocol fixes.
pub proof fn an_upgrade_shows_the_digest_of_its_key(
    key: &str,
    protocol: Option<&str>,
    response: Response,
)
    requires
        protocol matches Some(p) ==> is_field_value(p@),
        call_ensures(websocket_upgrade_response, (key, protocol), response),
    ensures
        ({
            let accept = base64_of(
                sha1_of(encode_utf8(key@) + encode_utf8("258EAFA5-E914-47DA-95CA-C5AB0DC85B11"@)),
            );
            &&& protocol matches Some(p) ==> upgrades_with(response, accept, Some(p@))
            &&& protocol is None ==> upgrades_with(response, accept, None)
        }),
{
    let view = match protocol {
        Some(p) => Some(p@),
        None => None,
    };
    the_accept_text_is_the_digest_of_key_and_identifier(key@);
    an_upgrade_has_exactly_its_fields(accept_of(key@), view);
    an_upgrade_switches_protocols(accept_of(key@), view);
}

/// Whether an upgrade is asked for is decided by the four fields: the first
/// `connection` value, the first `upgrade` value, the first
/// `sec-websocket-version` value, and whether there is a `sec-websocket-key`.
pub proof fn telling_an_upgrade_by_its_fields(request: &Request, asks: bool)
    requires
        call_ensures(is_websocket_upgrade, (request,), asks),
    ensures
        ({
            let headers = header_entries(request.headers);
            asks <==> {
                &&& headers.dom().contains("connection"@)
                &&& visible_text(headers["connection"@][0]) matches Some(text)
                &&& lists_word(text, "upgrade"@)
                &&& headers.dom().contains("upgrade"@)
                &&& headers["upgrade"@][0] == encode_utf8("websocket"@)
                &&& headers.dom().contains("sec-websocket-version"@)
                &&& headers["sec-websocket-version"@][0] == encode_utf8("13"@)
                &&& headers.dom().contains("sec-websocket-key"@)
            }
        }),
{
    a_websocket_is_asked_for_by_four_fields(request@);
}

/// Two requests that agree on the four fields are told alike, and have the same
/// key, whatever their methods, paths, query strings and other fields are.
pub proof fn requests_with_the_same_fields_are_told_alike(
    a: &Request,
    b: &Request,
    asks_a: bool,
    asks_b: bool,
    key_a: Option<String>,
    key_b: Option<String>,
)
    requires
        agree_on(header_entries(a.headers), header_entries(b.headers), "connection"@),
        agree_on(header_entries(a.headers), header_entries(b.headers), "upgrade"@),
        agree_on(header_entries(a.headers), header_entries(b.headers), "sec-websocket-version"@),
        agree_on(header_entries(a.headers), header_entries(b.headers), "sec-websocket-key"@),
        call_ensures(is_websocket_upgrade, (a,), asks_a),
        call_ensures(is_websocket_upgrade, (b,), asks_b),
        call_ensures(websocket_key, (a,), key_a),
        call_ensures(websocket_key, (b,), key_b),
    ensures
        asks_a == asks_b,
        key_a is Some <==> key_b is Some,
        key_a is Some ==> (key_a->0)@ == (key_b->0)@,
{
    the_four_fields_decide_about_a_websocket(a@, b@);
}

/// The key of a request is read exactly where the first value of its field is
/// there and is text, and it is that text.
pub proof fn the_key_is_read_from_its_field(request: &Request, key: Option<String>)
    requires
        call_ensures(websocket_key, (request,), key),
    ensures
        ({
            let headers = header_entries(request.headers);
            &&& key is Some <==> headers.dom().contains("sec-websocket-key"@) && forall|i: int|
                0 <= i < headers["sec-websocket-key"@][0].len() ==> #[trigger]
                headers["sec-websocket-key"@][0][i] == 9 || 32
                    <= headers["sec-websocket-key"@][0][i] <= 126
            &&& key matches Some(text) ==> encode_utf8(text@) == headers["sec-websocket-key"@][0]
        }),
{
    the_key_is_the_first_value_of_its_field(request@);
    if request@.headers.dom().contains("sec-websocket-key"@) {
        visible_bytes_are_their_text(request@.headers["sec-websocket-key"@][0]);
    }
}

/// A GraphQL WebSocket is opened exactly for a request with a readable key, with
/// the upgrade for that key to the protocol "graphql-ws".
pub proof fn a_graphql_socket_is_opened_for_the_key(
    request: &Request,
    served: Response,
    tried: Option<Response>,
)
    requires
        call_ensures(try_serve_graphql_ws, (request,), tried),
        key_of(request@) is Some ==> call_ensures(serve_graphql_ws, (request,), served),
    ensures
        ({
            let headers = header_entries(request.headers);
            let readable = headers.dom().contains("sec-websocket-key"@) && visible_text(
                headers["sec-websocket-key"@][0],
            ) is Some;
            let accept = base64_of(
                sha1_of(
                    headers["sec-websocket-key"@][0] + encode_utf8(
                        "258EAFA5-E914-47DA-95CA-C5AB0DC85B11"@,
                    ),
                ),
            );
            &&& tried is Some <==> readable
            &&& tried matches Some(response) ==> upgrades_with(
                response,
                accept,
                Some("graphql-ws"@),
            )
            &&& readable ==> upgrades_with(served, accept, Some("graphql-ws"@))
        }),
{
    the_key_is_the_first_value_of_its_field(request@);
    if key_of(request@) is Some {
        let key = key_of(request@)->0;
        the_accept_text_is_the_digest_of_key_and_identifier(key);
        an_upgrade_has_exactly_its_fields(accept_of(key), Some("graphql-ws"@));
        an_upgrade_switches_protocols(accept_of(key), Some("graphql-ws"@));
    }
}

/// A relay to the socket passes on the JSON that it is given, as one text, and
/// ends exactly where there is nothing more or the JSON could not be written:
/// with that error, or without one.
pub proof fn sent_json_becomes_one_text(
    sent: Option<Result<String, SerdeError>>,
    next: Relay<Frame>,
)
    requires
        call_ensures(s_to_ws, (sent,), next),
    ensures
        next is Send <==> (sent matches Some(Ok(_))),
        sent matches Some(Ok(json)) ==> (next matches Relay::Send(Frame::Text(text)) && text@
            == json@),
        sent matches Some(Err(e)) ==> (next matches Relay::Finish(Err(Error::Serde(f))) && f == e),
        sent is None ==> (next matches Relay::Finish(Ok(_))),
{
}

/// A relay from the socket passes on a text as it is, and the bytes of any other
/// message as the text that they encode: of a close message the reason, or
/// nothing where it has none. It ends exactly where there is nothing more, where
/// the socket failed, with its error, or where the bytes are no text.
pub proof fn received_messages_become_text(
    received: Option<Result<Frame, TungsteniteError>>,
    next: Relay<String>,
)
    requires
        call_ensures(ws_to_s, (received,), next),
    ensures
        received is None ==> (next matches Relay::Finish(Ok(_))),
        received matches Some(Err(e)) ==> (next matches Relay::Finish(Err(Error::Tungstenite(f)))
            && f == e),
        received matches Some(Ok(Frame::Text(text))) ==> (next matches Relay::Send(s) && s@
            == text@),
        received matches Some(Ok(Frame::Close(None))) ==> (next matches Relay::Send(s) && s@.len()
            == 0),
        received matches Some(Ok(Frame::Close(Some((_, reason))))) ==> (next matches Relay::Send(s)
            && s@ == reason@),
        forall|bytes: Vec<u8>|
            {
                ||| received == Some(Ok::<Frame, TungsteniteError>(Frame::Binary(bytes)))
                ||| received == Some(Ok::<Frame, TungsteniteError>(Frame::Ping(bytes)))
                ||| received == Some(Ok::<Frame, TungsteniteError>(Frame::Pong(bytes)))
            } ==> if valid_utf8(#[trigger] bytes@) {
                next matches Relay::Send(s) && s@ == decode_utf8(bytes@)
            } else {
                next matches Relay::Finish(Err(Error::Tungstenite(e))) && socket_complaint_of(e)
                    == Some("UTF-8 encoding error"@)
            },
{
}

/// What one end of the relay sends as text arrives at the other as the same
/// text.
pub proof fn relayed_text_arrives(json: String, sent: Relay<Frame>, arrived: Relay<String>)
    requires
        call_ensures(s_to_ws, (Some(Ok::<String, SerdeError>(json)),), sent),
        sent matches Relay::Send(frame) ==> call_ensures(
            ws_to_s,
            (Some(Ok::<Frame, TungsteniteError>(frame)),),
            arrived,
        ),
    ensures
        sent is Send,
        arrived matches Relay::Send(text) && text@ == json@,
{
}

/// An error of the relay says of which kind it is, and then what the error
/// behind it says.
pub proof fn errors_of_the_relay_tell_their_kind(error: &Error, text: String)
    requires
        call_ensures(Error::message, (error,), text),
    ensures
        error matches Error::Tungstenite(e) ==> {
            &&& "tungstenite error: "@.is_prefix_of(text@)
            &&& socket_complaint_of(*e) matches Some(said) ==> text@ == "tungstenite error: "@ + said
        },
        error matches Error::Serde(e) ==> {
            &&& "serde error: "@.is_prefix_of(text@)
            &&& complaint_of(*e) matches Some(said) ==> text@ == "serde error: "@ + said
        },
{
}

/// The two kinds of errors are reported with their words before what was said.
pub proof fn reports_keep_what_was_said(said: &str, socket: String, json: String)
    requires
        call_ensures(tungstenite_message, (said,), socket),
        call_ensures(serde_message, (said,), json),
    ensures
        socket@ == "tungstenite error: "@ + said@,
        json@ == "serde error: "@ + said@,
{
}

} // verus!
