//! What the service does with a request: routes and fixed answers.
use crate::headers::{header_append, header_entries, header_map, no_entries};
use crate::http::{
    any_origin, Method, Request, RequestView, Response, ResponseView, NOT_FOUND, OK,
};
use crate::juniper_hyper::{page, playground, playground_source_of};
use crate::serve::{
    accept_of, asks_for_websocket, is_websocket_upgrade, key_of, try_serve_graphql_ws,
    upgrade_response,
};
use crate::text::text_equal;
use vstd::prelude::*;
use vstd::string::StringExecFns;
use vstd::utf8::*;

verus! {

/// What is done with a request.
pub enum Action {
    /// The request is answered.
    Respond(Response),
    /// The request is answered, and a GraphQL WebSocket opened on its
    /// connection.
    Upgrade(Response),
    /// The request asks for a WebSocket, and its key is not text: it cannot be
    /// answered.
    Abort,
    /// The request is one to the GraphQL endpoint.
    Graphql,
}

/// What an action holds.
#[verifier::ext_equal]
pub enum ActionView {
    Respond(ResponseView),
    Upgrade(ResponseView),
    Abort,
    Graphql,
}

impl View for Action {
    type V = ActionView;

    open spec fn view(&self) -> ActionView {
        match self {
            Action::Respond(response) => ActionView::Respond(response@),
            Action::Upgrade(response) => ActionView::Upgrade(response@),
            Action::Abort => ActionView::Abort,
            Action::Graphql => ActionView::Graphql,
        }
    }
}

/// The answer to a preflight request: pages of any origin may send any header.
pub open spec fn preflight() -> ResponseView {
    ResponseView {
        status: OK,
        headers: any_origin().insert("access-control-allow-headers"@, seq![encode_utf8("*"@)]),
        body: Seq::empty(),
    }
}

/// An answer in plain words.
pub open spec fn plain(status: u16, body: Seq<char>) -> ResponseView {
    ResponseView { status, headers: no_entries(), body }
}

/// What is done with a request.
pub open spec fn action_of(request: RequestView) -> ActionView {
    let get = request.method == Method::Get;
    let post = request.method == Method::Post;
    if request.method == Method::Options {
        ActionView::Respond(preflight())
    } else if get && request.path == "/"@ {
        ActionView::Respond(plain(OK, "The Taskrunner API is up."@))
    } else if get && request.path == "/playground"@ {
        ActionView::Respond(page(playground_source_of("/graphql"@, Some("/graphql"@))))
    } else if get && request.path == "/graphql"@ && asks_for_websocket(request) {
        match key_of(request) {
            Some(key) => ActionView::Upgrade(
                upgrade_response(accept_of(key), Some("graphql-ws"@)),
            ),
            None => ActionView::Abort,
        }
    } else if (get || post) && request.path == "/graphql"@ {
        ActionView::Graphql
    } else {
        ActionView::Respond(plain(NOT_FOUND, "Not found"@))
    }
}

/// Answers a preflight request.
fn preflight_response() -> (response: Response)
    ensures
        response@ == preflight(),
{
    proof {
        reveal_strlit("access-control-allow-origin");
        reveal_strlit("access-control-allow-headers");
        reveal_strlit("*");
    }
    let mut headers = header_map();
    header_append(&mut headers, "access-control-allow-origin", "*");
    header_append(&mut headers, "access-control-allow-headers", "*");
    assert(header_entries(headers) =~= preflight().headers);
    Response { status: OK, headers, body: String::new() }
}

/// Answers in plain words.
fn plain_response(status: u16, body: &str) -> (response: Response)
    ensures
        response@ == plain(status, body@),
{
    Response { status, headers: header_map(), body: String::from_str(body) }
}

/// Decides what is done with a request.
pub fn dispatch(request: &Request) -> (action: Action)
    ensures
        action@ == action_of(request@),
{
    let path = request.path.as_str();
    match request.method {
        Method::Options => Action::Respond(preflight_response()),
        Method::Get => if text_equal(path, "/") {
            Action::Respond(plain_response(OK, "The Taskrunner API is up."))
        } else if text_equal(path, "/playground") {
            Action::Respond(playground("/graphql", Some("/graphql")))
        } else if text_equal(path, "/graphql") {
            if is_websocket_upgrade(request) {
                match try_serve_graphql_ws(request) {
                    Some(response) => Action::Upgrade(response),
                    None => Action::Abort,
                }
            } else {
                Action::Graphql
            }
        } else {
            Action::Respond(plain_response(NOT_FOUND, "Not found"))
        },
        Method::Post => if text_equal(path, "/graphql") {
            Action::Graphql
        } else {
            Action::Respond(plain_response(NOT_FOUND, "Not found"))
        },
        Method::Other => Action::Respond(plain_response(NOT_FOUND, "Not found")),
    }
}

} // verus!
