use hyper::header::HeaderValue;
use hyper::HeaderMap;
use juniper::http::{GraphQLBatchRequest as JuniperBatch, GraphQLRequest as JuniperRequest};
use juniper::http::{GraphQLBatchResponse, GraphQLResponse};
use juniper::{DefaultScalarValue, FieldError, GraphQLError, Value};
use taskrunner::http::{new_html_response, new_response, Method, Request, Response};
use taskrunner::json::{ExecutedBatch, ParsedBatch};
use taskrunner::juniper_hyper::{
    accept_json, error_response, execute_request, execution_response, graphiql, graphql,
    page_response, parse_body, parse_get_req, parse_post_graphql_req, parse_post_json_req,
    parse_req, playground, render_error, BodyKind, ParseStep,
};
use taskrunner::request::{ErrorSource, GraphQLBatchRequest, GraphQLRequestError};

fn request(method: Method, query: Option<&str>, content_type: Option<&[u8]>) -> Request {
    let mut headers = HeaderMap::new();
    if let Some(value) = content_type {
        headers.insert("content-type", HeaderValue::from_bytes(value).unwrap());
    }
    Request {
        method,
        path: "/graphql".to_string(),
        query: query.map(|q| q.to_string()),
        headers,
    }
}

fn header(response: &Response, name: &str) -> Option<String> {
    response.headers.get(name).map(|v| v.to_str().unwrap().to_string())
}

fn refused(step: ParseStep) -> Response {
    match step {
        ParseStep::Refused(response) => response,
        _ => panic!("not refused"),
    }
}

fn is_open(response: &Response) -> bool {
    header(response, "access-control-allow-origin") == Some("*".to_string())
}

#[test]
fn get_is_parsed_from_the_query_string() {
    match parse_req(&request(Method::Get, Some("query=%7Ba%7D"), None)) {
        ParseStep::Parsed(GraphQLBatchRequest::Single(r)) => assert_eq!(r.query, "{a}"),
        _ => panic!("not parsed"),
    }
}

#[test]
fn get_without_query_string_is_refused() {
    let response = refused(parse_req(&request(Method::Get, None, None)));
    assert_eq!(response.status, 400);
    assert_eq!(response.body, "'query' parameter is missing");
    assert_eq!(response.headers.len(), 1);
    assert!(is_open(&response));
}

#[test]
fn get_errors_become_the_body() {
    let response = refused(parse_req(&request(Method::Get, Some("query=a&query=b"), None)));
    assert_eq!(response.status, 400);
    assert_eq!(response.body, "'query' parameter is specified multiple times");
    assert!(parse_get_req(&request(Method::Get, Some("x"), None)).is_err());
}

#[test]
fn post_reads_the_body_by_its_type() {
    let json = parse_req(&request(Method::Post, None, Some(b"application/json")));
    assert!(matches!(json, ParseStep::ReadBody(BodyKind::Json)));
    let graphql = parse_req(&request(Method::Post, None, Some(b"application/graphql")));
    assert!(matches!(graphql, ParseStep::ReadBody(BodyKind::Graphql)));
}

#[test]
fn post_of_another_type_is_refused() {
    let types: Vec<Option<&[u8]>> = vec![
        None,
        Some(b"text/plain"),
        Some(b"application/json; charset=utf-8"),
        Some(b"Application/JSON"),
        Some(b"application/json\xff"),
        Some(b""),
    ];
    for content_type in types {
        let response = refused(parse_req(&request(Method::Post, Some("query=a"), content_type)));
        assert_eq!(response.status, 400);
        assert_eq!(response.body, "");
        assert!(is_open(&response));
    }
}

#[test]
fn first_content_type_counts() {
    let mut r = request(Method::Post, None, Some(b"application/graphql"));
    r.headers.append("content-type", HeaderValue::from_static("application/json"));
    assert!(matches!(parse_req(&r), ParseStep::ReadBody(BodyKind::Graphql)));
}

#[test]
fn other_methods_are_not_allowed() {
    for method in [Method::Options, Method::Other] {
        let response = refused(parse_req(&request(method, Some("query=a"), None)));
        assert_eq!(response.status, 405);
        assert_eq!(response.body, "");
        assert!(is_open(&response));
    }
}

#[test]
fn methods_are_case_sensitive() {
    assert_eq!(Method::from_name("GET"), Method::Get);
    assert_eq!(Method::from_name("POST"), Method::Post);
    assert_eq!(Method::from_name("OPTIONS"), Method::Options);
    assert_eq!(Method::from_name("get"), Method::Other);
    assert_eq!(Method::from_name("PUT"), Method::Other);
}

#[test]
fn json_body_is_a_batch() {
    let single = b"{\"query\":\"{a}\",\"operationName\":\"o\"}".to_vec();
    match parse_post_json_req(Ok(single)) {
        Ok(GraphQLBatchRequest::Parsed(ParsedBatch(batch))) => {
            let expected: JuniperBatch<DefaultScalarValue> = JuniperBatch::Single(
                JuniperRequest::new("{a}".to_string(), Some("o".to_string()), None),
            );
            assert_eq!(batch, expected);
        }
        _ => panic!("not parsed"),
    }
    let several = b"[{\"query\":\"a\"},{\"query\":\"b\"}]".to_vec();
    match parse_body(BodyKind::Json, Ok(several)) {
        Ok(GraphQLBatchRequest::Parsed(ParsedBatch(batch))) => {
            let expected: JuniperBatch<DefaultScalarValue> = JuniperBatch::Batch(vec![
                JuniperRequest::new("a".to_string(), None, None),
                JuniperRequest::new("b".to_string(), None, None),
            ]);
            assert_eq!(batch, expected);
        }
        _ => panic!("not parsed"),
    }
}

#[test]
fn malformed_json_is_refused() {
    let expected = serde_json::from_str::<JuniperBatch<DefaultScalarValue>>("[]").err().unwrap();
    let response = parse_body(BodyKind::Json, Ok(b"[]".to_vec())).err().unwrap();
    assert_eq!(response.status, 400);
    assert_eq!(response.body, expected.to_string());
    assert!(is_open(&response));
    let error = parse_post_json_req(Ok(b"{".to_vec())).err().unwrap();
    assert!(matches!(error, GraphQLRequestError::BodyJSONError(_)));
    assert!(matches!(error.source(), Some(ErrorSource::Json(_))));
}

#[test]
fn json_results_are_taken_over() {
    let batch = ParsedBatch(JuniperBatch::Batch(vec![]));
    assert!(matches!(accept_json(Ok(batch)), Ok(GraphQLBatchRequest::Parsed(_))));
    let error = serde_json::from_str::<bool>("x").err().unwrap();
    let text = error.to_string();
    assert_eq!(accept_json(Err(error)).err().unwrap().message(), text);
}

#[test]
fn graphql_body_is_the_query() {
    match parse_post_graphql_req(Ok("{ \u{e9} }".as_bytes().to_vec())) {
        Ok(GraphQLBatchRequest::Single(r)) => {
            assert_eq!(r.query, "{ \u{e9} }");
            assert_eq!(r.operation_name, None);
            assert!(r.variables.is_none());
        }
        _ => panic!("not parsed"),
    }
}

#[test]
fn get_and_post_give_the_same_query() {
    let posted = parse_post_graphql_req(Ok(b"{a}".to_vec())).ok().unwrap();
    let got = parse_get_req(&request(Method::Get, Some("query=%7Ba%7D"), None)).ok().unwrap();
    match (posted, got) {
        (GraphQLBatchRequest::Single(p), GraphQLBatchRequest::Single(g)) => {
            assert_eq!(p.query, g.query);
            assert_eq!(p.variables, g.variables);
        }
        _ => panic!("not single"),
    }
}

#[test]
fn body_that_is_not_text_is_refused() {
    let bytes = vec![b'a', 0xff];
    let expected = String::from_utf8(bytes.clone()).err().unwrap().to_string();
    assert_eq!(expected, "invalid utf-8 sequence of 1 bytes from index 1");
    for kind in [BodyKind::Json, BodyKind::Graphql] {
        let response = parse_body(kind, Ok(bytes.clone())).err().unwrap();
        assert_eq!(response.status, 400);
        assert_eq!(response.body, expected);
        assert!(is_open(&response));
    }
    let error = parse_post_graphql_req(Ok(bytes)).err().unwrap();
    assert!(matches!(error.source(), Some(ErrorSource::Utf8(_))));
}

#[test]
fn body_that_cannot_be_received_is_refused() {
    for kind in [BodyKind::Json, BodyKind::Graphql] {
        let response = parse_body(kind, Err("connection reset".to_string())).err().unwrap();
        assert_eq!(response.status, 400);
        assert_eq!(response.body, "connection reset");
        assert!(is_open(&response));
    }
    let error = GraphQLRequestError::BodyHyper("x".to_string());
    assert!(matches!(error.source(), Some(ErrorSource::Hyper(_))));
}

#[test]
fn invalid_has_no_source() {
    let error = GraphQLRequestError::Invalid("why".to_string());
    assert!(error.source().is_none());
    let response = render_error(error);
    assert_eq!(response.status, 400);
    assert_eq!(response.body, "why");
    assert_eq!(error_response("no".to_string()).body, "no");
}

#[test]
fn bare_response_has_one_header() {
    let response = new_response(418);
    assert_eq!(response.status, 418);
    assert_eq!(response.body, "");
    assert_eq!(response.headers.len(), 1);
    assert!(is_open(&response));
}

#[test]
fn html_response_names_its_type() {
    let response = new_html_response(200);
    assert_eq!(response.status, 200);
    assert_eq!(response.headers.len(), 2);
    assert_eq!(header(&response, "content-type"), Some("text/html; charset=utf-8".to_string()));
    assert!(is_open(&response));
    assert_eq!(page_response("<p>".to_string()).body, "<p>");
}

#[test]
fn pages_hold_their_endpoints() {
    let page = graphiql("/here", Some("/there"));
    assert_eq!(page.status, 200);
    assert_eq!(
        page.body,
        juniper::http::graphiql::graphiql_source("/here", Some("/there"))
    );
    assert!(page.body.contains("var GRAPHQL_URL = '/here';"));
    let page = playground("/here", None);
    assert_eq!(header(&page, "content-type"), Some("text/html; charset=utf-8".to_string()));
    assert_eq!(page.body, juniper::http::playground::playground_source("/here", None));
    assert!(page.body.contains("endpoint: '/here', subscriptionEndpoint: '/here'"));
}

#[test]
fn executed_batch_is_answered_in_json() {
    let executed = ExecutedBatch(GraphQLBatchResponse::Single(GraphQLResponse::from_result(Ok((
        Value::<DefaultScalarValue>::null(),
        vec![],
    )))));
    let response = execute_request(&executed).ok().unwrap();
    assert_eq!(response.status, 200);
    assert_eq!(response.body, "{\n  \"data\": null\n}");
    assert_eq!(header(&response, "content-type"), Some("application/json".to_string()));
    assert!(is_open(&response));
}

#[test]
fn field_errors_are_still_answered_with_success() {
    let executed = ExecutedBatch(GraphQLBatchResponse::Single(GraphQLResponse::error(
        FieldError::<DefaultScalarValue>::from("broken"),
    )));
    let response = execute_request(&executed).ok().unwrap();
    assert_eq!(response.status, 200);
    assert!(response.body.contains("\"message\": \"broken\""));
}

#[test]
fn one_failed_request_fails_the_batch() {
    let executed = ExecutedBatch(GraphQLBatchResponse::Batch(vec![
        GraphQLResponse::from_result(Ok((Value::<DefaultScalarValue>::null(), vec![]))),
        GraphQLResponse::from_result(Err(GraphQLError::NoOperationProvided)),
    ]));
    let response = execute_request(&executed).ok().unwrap();
    assert_eq!(response.status, 400);
    assert!(response.body.contains("Must provide an operation"));
}

#[test]
fn execution_decides_the_status() {
    assert_eq!(execution_response("{}".to_string(), true).status, 200);
    let response = execution_response("{}".to_string(), false);
    assert_eq!(response.status, 400);
    assert_eq!(response.body, "{}");
}

#[test]
fn graphql_answers_what_was_executed_or_refused() {
    let executed = ExecutedBatch(GraphQLBatchResponse::Batch(vec![]));
    let response = graphql(Ok(executed)).ok().unwrap();
    assert_eq!(response.status, 200);
    assert_eq!(response.body, "[]");
    let refused = graphql(Err(new_response(405))).ok().unwrap();
    assert_eq!(refused.status, 405);
    assert_eq!(header(&refused, "content-type"), None);
}
