use hyper::header::HeaderValue;
use hyper::HeaderMap;
use taskrunner::http::{Method, Request, Response};
use taskrunner::juniper_hyper::{parse_req, ParseStep};
use taskrunner::schema::{Context, Event, Query, Subscription, UPDATE_INTERVAL_SECS};
use taskrunner::service::{dispatch, Action};

fn request(method: Method, path: &str) -> Request {
    Request { method, path: path.to_string(), query: None, headers: HeaderMap::new() }
}

fn socket(method: Method, path: &str, key: &[u8]) -> Request {
    let mut request = request(method, path);
    request.headers.insert("connection", HeaderValue::from_static("Upgrade"));
    request.headers.insert("upgrade", HeaderValue::from_static("websocket"));
    request.headers.insert("sec-websocket-version", HeaderValue::from_static("13"));
    request.headers.insert("sec-websocket-key", HeaderValue::from_bytes(key).unwrap());
    request
}

fn answer(request: &Request) -> Response {
    match dispatch(request) {
        Action::Respond(response) => response,
        _ => panic!("not answered"),
    }
}

#[test]
fn preflight_is_answered_on_every_path() {
    for path in ["/", "/graphql", "/nowhere"] {
        let response = answer(&socket(Method::Options, path, b"k"));
        assert_eq!(response.status, 200);
        assert_eq!(response.body, "");
        assert_eq!(response.headers.len(), 2);
        assert_eq!(response.headers.get("access-control-allow-origin").unwrap(), "*");
        assert_eq!(response.headers.get("access-control-allow-headers").unwrap(), "*");
    }
}

#[test]
fn home_says_that_the_service_is_up() {
    let response = answer(&request(Method::Get, "/"));
    assert_eq!(response.status, 200);
    assert_eq!(response.body, "The Taskrunner API is up.");
    assert_eq!(response.headers.len(), 0);
}

#[test]
fn playground_is_served() {
    let response = answer(&request(Method::Get, "/playground"));
    assert_eq!(response.status, 200);
    assert_eq!(
        response.body,
        juniper::http::playground::playground_source("/graphql", Some("/graphql"))
    );
}

#[test]
fn graphql_is_handed_on() {
    assert!(matches!(dispatch(&request(Method::Get, "/graphql")), Action::Graphql));
    assert!(matches!(dispatch(&request(Method::Post, "/graphql")), Action::Graphql));
    assert!(matches!(dispatch(&socket(Method::Post, "/graphql", b"k")), Action::Graphql));
}

#[test]
fn handed_on_requests_are_not_refused_for_their_method() {
    for method in [Method::Get, Method::Post] {
        match parse_req(&request(method, "/graphql")) {
            ParseStep::Refused(response) => assert_eq!(response.status, 400),
            _ => panic!("not refused"),
        }
    }
}

#[test]
fn websocket_is_opened() {
    match dispatch(&socket(Method::Get, "/graphql", b"dGhlIHNhbXBsZSBub25jZQ==")) {
        Action::Upgrade(response) => {
            assert_eq!(response.status, 101);
            assert_eq!(
                response.headers.get("sec-websocket-accept").unwrap(),
                "s3pPLMBiTxaQ9kYGzzhZRbK+xOo="
            );
            assert_eq!(response.headers.get("sec-websocket-protocol").unwrap(), "graphql-ws");
        }
        _ => panic!("not upgraded"),
    }
}

#[test]
fn websocket_with_an_unreadable_key_is_aborted() {
    assert!(matches!(dispatch(&socket(Method::Get, "/graphql", b"\xff")), Action::Abort));
}

#[test]
fn anything_else_is_not_found() {
    let requests = vec![
        request(Method::Get, "/nowhere"),
        request(Method::Get, "/graphql/"),
        request(Method::Get, ""),
        request(Method::Post, "/"),
        request(Method::Post, "/playground"),
        request(Method::Other, "/graphql"),
        socket(Method::Get, "/socket", b"k"),
    ];
    for request in requests {
        let response = answer(&request);
        assert_eq!(response.status, 404);
        assert_eq!(response.body, "Not found");
        assert_eq!(response.headers.len(), 0);
    }
}

#[test]
fn subscribers_hear_of_every_tick() {
    assert_eq!(Subscription::watch_updates(true), Some(Event::NewUpdate));
    assert_eq!(Subscription::watch_updates(false), None);
    assert_eq!(UPDATE_INTERVAL_SECS, 3);
    let _: (Query, Subscription, Context) = (Query::default(), Subscription::default(), Context {});
}
