//! What holds of the routes, and of what subscribers are told.
use crate::headers::header_entries;
use crate::http::{Method, Request, RequestView, ResponseView};
use crate::juniper_hyper::playground_source_of;
use crate::laws::answers::typed_responses_are_open_and_name_their_type;
use crate::laws::sockets::{
    a_websocket_is_asked_for_by_four_fields, agree_on, an_upgrade_has_exactly_its_fields,
    an_upgrade_switches_protocols, the_accept_text_is_the_digest_of_key_and_identifier,
    the_four_fields_decide_about_a_websocket, the_key_is_the_first_value_of_its_field, upgrades_with,
};
use crate::schema::{Event, Subscription, UPDATE_INTERVAL_SECS};
use crate::serve::{
    accept_of, asks_for_websocket, base64_of, key_of, sha1_of, upgrade_headers,
};
use crate::service::{action_of, dispatch, preflight, Action, ActionView};
use crate::text::{lists_word, visible_text};
use vstd::prelude::*;
use vstd::utf8::*;

verus! {

/// The three paths differ.
proof fn lemma_paths()
    ensures
        "/"@.len() == 1,
        "/playground"@.len() == 11,
        "/graphql"@.len() == 8,
{
    reveal_strlit("/");
    reveal_strlit("/playground");
    reveal_strlit("/graphql");
}

/// A request is handed on to the GraphQL endpoint exactly where its path is
/// "/graphql" and its method is POST, or its method is GET and it does not ask
/// for a WebSocket, whatever its query string.
pub proof fn graphql_requests_are_handed_on(request: RequestView)
    ensures
        action_of(request) is Graphql <==> request.path == "/graphql"@ && (request.method is Post
            || request.method is Get && !asks_for_websocket(request)),
{
    lemma_paths();
}

/// What is done with a request depends on its method, its path and the four
/// fields of an upgrade alone: neither the query string nor another header field
/// matters.
pub proof fn method_path_and_upgrade_decide(a: RequestView, b: RequestView)
    requires
        a.method == b.method,
        a.path == b.path,
        agree_on(a.headers, b.headers, "connection"@),
        agree_on(a.headers, b.headers, "upgrade"@),
        agree_on(a.headers, b.headers, "sec-websocket-version"@),
        agree_on(a.headers, b.headers, "sec-websocket-key"@),
    ensures
        action_of(a) == action_of(b),
{
    the_four_fields_decide_about_a_websocket(a, b);
}

/// Every OPTIONS request, whatever its path, is answered without a body and with
/// the two fields that let pages of any origin send any header. No other request
/// is answered so.
pub proof fn preflights_are_answered_everywhere(request: RequestView)
    ensures
        request.method is Options <==> action_of(request) == ActionView::Respond(
            (ResponseView {
                status: 200,
                headers: map![
                    "access-control-allow-origin"@ => seq![encode_utf8("*"@)],
                    "access-control-allow-headers"@ => seq![encode_utf8("*"@)],
                ],
                body: Seq::empty(),
            }),
        ),
{
    let answer = ResponseView {
        status: 200,
        headers: map![
            "access-control-allow-origin"@ => seq![encode_utf8("*"@)],
            "access-control-allow-headers"@ => seq![encode_utf8("*"@)],
        ],
        body: Seq::<char>::empty(),
    };
    assert(preflight().headers =~= answer.headers);
    reveal_strlit("content-type");
    reveal_strlit("access-control-allow-origin");
    reveal_strlit("access-control-allow-headers");
    assert("content-type"@.len() == 12 && "access-control-allow-origin"@.len() == 27
        && "access-control-allow-headers"@.len() == 28);
    assert(answer.headers.dom().contains("access-control-allow-headers"@));
    typed_responses_are_open_and_name_their_type(
        200,
        "text/html; charset=utf-8"@,
        playground_source_of("/graphql"@, Some("/graphql"@)),
    );
}

/// A GET request for the home path is answered in plain words.
pub proof fn the_home_path_says_that_the_service_is_up(request: RequestView)
    requires
        request.method == Method::Get,
        request.path == "/"@,
    ensures
        action_of(request) == ActionView::Respond(
            (ResponseView {
                status: 200,
                headers: Map::empty(),
                body: "The Taskrunner API is up."@,
            }),
        ),
{
}

/// A GET request for the playground is answered with its page, as HTML, for the
/// one endpoint of queries and subscriptions.
pub proof fn the_playground_is_served(request: RequestView)
    requires
        request.method == Method::Get,
        request.path == "/playground"@,
    ensures
        action_of(request) == ActionView::Respond(
            (ResponseView {
                status: 200,
                headers: map![
                    "access-control-allow-origin"@ => seq![encode_utf8("*"@)],
                    "content-type"@ => seq![encode_utf8("text/html; charset=utf-8"@)],
                ],
                body: playground_source_of("/graphql"@, Some("/graphql"@)),
            }),
        ),
{
    lemma_paths();
    typed_responses_are_open_and_name_their_type(
        200,
        "text/html; charset=utf-8"@,
        playground_source_of("/graphql"@, Some("/graphql"@)),
    );
}

/// A request is not found exactly where it is not one of those that are served:
/// an OPTIONS request, a GET request for one of the three paths, a POST request
/// for the endpoint.
pub proof fn all_else_is_not_found(request: RequestView)
    ensures
        ({
            let get = request.method == Method::Get && (request.path == "/"@ || request.path
                == "/playground"@ || request.path == "/graphql"@);
            let post = request.method == Method::Post && request.path == "/graphql"@;
            let served = get || post || request.method == Method::Options;
            !served <==> action_of(request) == ActionView::Respond(
                (ResponseView { status: 404, headers: Map::empty(), body: "Not found"@ }),
            )
        }),
{
    lemma_paths();
}

/// A GET request to the endpoint that asks for a WebSocket with a readable key
/// is answered with the upgrade for that key to the protocol "graphql-ws".
pub proof fn a_websocket_is_answered_with_its_upgrade(request: RequestView)
    requires
        request.method == Method::Get,
        request.path == "/graphql"@,
        asks_for_websocket(request),
    ensures
        visible_text(request.headers["sec-websocket-key"@][0]) is Some ==> (
        action_of(request) matches ActionView::Upgrade(response) && {
            &&& response.status == 101
            &&& response.body.len() == 0
            &&& response.headers == map![
                "connection"@ => seq![encode_utf8("upgrade"@)],
                "upgrade"@ => seq![encode_utf8("websocket"@)],
                "sec-websocket-accept"@ => seq![encode_utf8(
                    base64_of(
                        sha1_of(
                            request.headers["sec-websocket-key"@][0] + encode_utf8(
                                "258EAFA5-E914-47DA-95CA-C5AB0DC85B11"@,
                            ),
                        ),
                    ),
                )],
                "sec-websocket-protocol"@ => seq![encode_utf8("graphql-ws"@)],
            ]
        }),
        visible_text(request.headers["sec-websocket-key"@][0]) is None ==> action_of(request)
            is Abort,
{
    lemma_paths();
    a_websocket_is_asked_for_by_four_fields(request);
    the_key_is_the_first_value_of_its_field(request);
    if key_of(request) is Some {
        let accept = accept_of(key_of(request)->0);
        an_upgrade_has_exactly_its_fields(accept, Some("graphql-ws"@));
        assert(upgrade_headers(accept, Some("graphql-ws"@)) =~= map![
            "connection"@ => seq![encode_utf8("upgrade"@)],
            "upgrade"@ => seq![encode_utf8("websocket"@)],
            "sec-websocket-accept"@ => seq![encode_utf8(accept)],
            "sec-websocket-protocol"@ => seq![encode_utf8("graphql-ws"@)],
        ]);
    }
}

/// Whether header fields ask for a WebSocket.
pub open spec fn fields_ask(headers: Map<Seq<char>, Seq<Seq<u8>>>) -> bool {
    &&& headers.dom().contains("connection"@)
    &&& visible_text(headers["connection"@][0]) matches Some(text)
    &&& lists_word(text, "upgrade"@)
    &&& headers.dom().contains("upgrade"@)
    &&& headers["upgrade"@][0] == encode_utf8("websocket"@)
    &&& headers.dom().contains("sec-websocket-version"@)
    &&& headers["sec-websocket-version"@][0] == encode_utf8("13"@)
    &&& headers.dom().contains("sec-websocket-key"@)
}

/// Dispatching a request, in terms of what it holds: the preflight, the home
/// path, the playground, the endpoint with and without an upgrade, and what is
/// not found.
pub proof fn dispatching_goes_by_method_path_and_upgrade(request: &Request, action: Action)
    requires
        call_ensures(dispatch, (request,), action),
    ensures
        ({
            let headers = header_entries(request.headers);
            let path = request.path@;
            let get = request.method == Method::Get;
            let post = request.method == Method::Post;
            if request.method == Method::Options {
                action matches Action::Respond(response) && {
                    &&& response.status == 200
                    &&& response.body@.len() == 0
                    &&& header_entries(response.headers) == map![
                        "access-control-allow-origin"@ => seq![encode_utf8("*"@)],
                        "access-control-allow-headers"@ => seq![encode_utf8("*"@)],
                    ]
                }
            } else if get && path == "/"@ {
                action matches Action::Respond(response) && {
                    &&& response.status == 200
                    &&& response.body@ == "The Taskrunner API is up."@
                    &&& header_entries(response.headers) == Map::<Seq<char>, Seq<Seq<u8>>>::empty()
                }
            } else if get && path == "/playground"@ {
                action matches Action::Respond(response) && {
                    &&& response.status == 200
                    &&& response.body@ == playground_source_of("/graphql"@, Some("/graphql"@))
                    &&& header_entries(response.headers) == map![
                        "access-control-allow-origin"@ => seq![encode_utf8("*"@)],
                        "content-type"@ => seq![encode_utf8("text/html; charset=utf-8"@)],
                    ]
                }
            } else if get && path == "/graphql"@ && fields_ask(headers) {
                let key = headers["sec-websocket-key"@][0];
                if visible_text(key) is Some {
                    action matches Action::Upgrade(response) && upgrades_with(
                        response,
                        base64_of(
                            sha1_of(
                                key + encode_utf8("258EAFA5-E914-47DA-95CA-C5AB0DC85B11"@),
                            ),
                        ),
                        Some("graphql-ws"@),
                    )
                } else {
                    action is Abort
                }
            } else if (get || post) && path == "/graphql"@ {
                action is Graphql
            } else {
                action matches Action::Respond(response) && {
                    &&& response.status == 404
                    &&& response.body@ == "Not found"@
                    &&& header_entries(response.headers) == Map::<Seq<char>, Seq<Seq<u8>>>::empty()
                }
            }
        }),
{
    let view = request@;
    lemma_paths();
    graphql_requests_are_handed_on(view);
    preflights_are_answered_everywhere(view);
    all_else_is_not_found(view);
    a_websocket_is_asked_for_by_four_fields(view);
    if view.method == Method::Get && view.path == "/playground"@ {
        the_playground_is_served(view);
    }
    if view.method == Method::Get && view.path == "/graphql"@ && asks_for_websocket(view) {
        the_key_is_the_first_value_of_its_field(view);
        if key_of(view) is Some {
            let key = key_of(view)->0;
            the_accept_text_is_the_digest_of_key_and_identifier(key);
            an_upgrade_has_exactly_its_fields(accept_of(key), Some("graphql-ws"@));
            an_upgrade_switches_protocols(accept_of(key), Some("graphql-ws"@));
        }
    }
}

/// Two requests with the same method and path that agree on the four fields of
/// an upgrade are dispatched alike, whatever their query strings and other
/// header fields are.
pub proof fn requests_are_dispatched_alike(
    a: &Request,
    b: &Request,
    action_a: Action,
    action_b: Action,
)
    requires
        a.method == b.method,
        a.path@ == b.path@,
        agree_on(header_entries(a.headers), header_entries(b.headers), "connection"@),
        agree_on(header_entries(a.headers), header_entries(b.headers), "upgrade"@),
        agree_on(header_entries(a.headers), header_entries(b.headers), "sec-websocket-version"@),
        agree_on(header_entries(a.headers), header_entries(b.headers), "sec-websocket-key"@),
        call_ensures(dispatch, (a,), action_a),
        call_ensures(dispatch, (b,), action_b),
    ensures
        action_a@ == action_b@,
{
    method_path_and_upgrade_decide(a@, b@);
}

/// Subscribers are told of an update at each tick and of nothing once the timer
/// has stopped; the ticks are three seconds apart.
pub proof fn subscribers_are_told_at_each_tick(ticked: bool, event: Option<Event>)
    requires
        call_ensures(Subscription::watch_updates, (ticked,), event),
    ensures
        event is Some <==> ticked,
        event is Some ==> event == Some(Event::NewUpdate),
        UPDATE_INTERVAL_SECS == 3,
{
}

} // verus!
