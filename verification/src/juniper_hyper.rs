//! GraphQL over HTTP: how requests are read, refused and answered.
use crate::headers::{first_value, header_get, header_insert};
use crate::http::{
    any_origin, new_html_response, new_response, open_response, optional_str, typed_response, Method,
    Request, RequestView, Response, ResponseView, BAD_REQUEST, METHOD_NOT_ALLOWED, OK,
};
use crate::json::{
    all_succeeded, batch_of, batch_succeeded, pretty_json_of, read_batch, write_batch, ExecutedBatch,
    ParsedBatch,
};
use crate::params::{gql_request_from_get, missing_text, request_of_query};
use crate::request::{
    GraphQLBatchRequest, GraphQLBatchRequestView, GraphQLRequest, GraphQLRequestError,
    GraphQLRequestErrorView, GraphQLRequestView,
};
use crate::text::{read_visible, text_equal, visible_text};
use serde_json::Error as SerdeError;
use vstd::prelude::*;
use vstd::string::StringExecFns;
use vstd::utf8::*;

verus! {

/// What the optional query string of a request is read as.
pub open spec fn batch_of_query(query: Option<Seq<char>>) -> Result<
    GraphQLBatchRequestView,
    GraphQLRequestErrorView,
> {
    match query {
        Some(q) => match request_of_query(q) {
            Ok(request) => Ok(GraphQLBatchRequestView::Single(request)),
            Err(e) => Err(e),
        },
        None => Err(GraphQLRequestErrorView::Invalid(missing_text())),
    }
}

/// What was read or the error, taken by what they hold.
pub open spec fn batch_result(
    result: Result<GraphQLBatchRequest, GraphQLRequestError>,
) -> Result<GraphQLBatchRequestView, GraphQLRequestErrorView> {
    match result {
        Ok(batch) => Ok(batch@),
        Err(error) => Err(error@),
    }
}

/// Reads a GET request.
pub fn parse_get_req(request: &Request) -> (batch: Result<GraphQLBatchRequest, GraphQLRequestError>)
    ensures
        batch_result(batch) == batch_of_query(request@.query),
        batch matches Err(e) ==> e@.message() is Some,
{
    match &request.query {
        Some(q) => match gql_request_from_get(q.as_str()) {
            Ok(request) => Ok(GraphQLBatchRequest::Single(request)),
            Err(e) => Err(e),
        },
        None => Err(GraphQLRequestError::Invalid(String::from_str("'query' parameter is missing"))),
    }
}

/// The bytes of a body, or what went wrong as they were received.
pub type Body = Result<Vec<u8>, String>;

/// A body, taken by what it holds.
pub open spec fn body_view(body: Body) -> Result<Seq<u8>, Seq<char>> {
    match body {
        Ok(bytes) => Ok(bytes@),
        Err(text) => Err(text@),
    }
}

/// What a body is as text.
pub open spec fn text_of_body(body: Result<Seq<u8>, Seq<char>>) -> Result<
    Seq<char>,
    GraphQLRequestErrorView,
> {
    match body {
        Ok(bytes) => if valid_utf8(bytes) {
            Ok(decode_utf8(bytes))
        } else {
            Err(GraphQLRequestErrorView::BodyUtf8(bytes))
        },
        Err(text) => Err(GraphQLRequestErrorView::BodyHyper(text)),
    }
}

/// Takes a body as text.
fn read_body(body: Body) -> (text: Result<String, GraphQLRequestError>)
    ensures
        match text {
            Ok(s) => text_of_body(body_view(body)) == Ok::<_, GraphQLRequestErrorView>(s@),
            Err(e) => text_of_body(body_view(body)) == Err::<Seq<char>, _>(e@),
        },
        text matches Err(e) ==> e@.message() is Some,
{
    match body {
        Ok(bytes) => match String::from_utf8(bytes) {
            Ok(s) => Ok(s),
            Err(e) => Err(GraphQLRequestError::BodyUtf8(e)),
        },
        Err(text) => Err(GraphQLRequestError::BodyHyper(text)),
    }
}

/// What JSON was read as, as a result of reading a request.
pub open spec fn batch_of_json(
    batch: Result<ParsedBatch, SerdeError>,
) -> Result<GraphQLBatchRequestView, GraphQLRequestErrorView> {
    match batch {
        Ok(batch) => Ok(GraphQLBatchRequestView::Parsed(batch)),
        Err(e) => Err(GraphQLRequestErrorView::BodyJSONError(e)),
    }
}

/// Takes over what JSON was read as.
pub fn accept_json(
    batch: Result<ParsedBatch, SerdeError>,
) -> (accepted: Result<GraphQLBatchRequest, GraphQLRequestError>)
    ensures
        batch_result(accepted) == batch_of_json(batch),
{
    match batch {
        Ok(batch) => Ok(GraphQLBatchRequest::Parsed(batch)),
        Err(e) => Err(GraphQLRequestError::BodyJSONError(e)),
    }
}

/// What the body of a POST request is read as, where it is JSON.
pub open spec fn batch_of_json_body(body: Result<Seq<u8>, Seq<char>>) -> Result<
    GraphQLBatchRequestView,
    GraphQLRequestErrorView,
> {
    match text_of_body(body) {
        Ok(text) => batch_of_json(batch_of(text)),
        Err(e) => Err(e),
    }
}

/// Reads the body of a POST request whose body is JSON.
pub fn parse_post_json_req(body: Body) -> (batch: Result<GraphQLBatchRequest, GraphQLRequestError>)
    ensures
        batch_result(batch) == batch_of_json_body(body_view(body)),
        batch matches Err(e) ==> e@.message() is Some,
{
    match read_body(body) {
        Ok(input) => accept_json(read_batch(input.as_str())),
        Err(e) => Err(e),
    }
}

/// What the body of a POST request is read as, where it is the query itself.
pub open spec fn batch_of_graphql_body(body: Result<Seq<u8>, Seq<char>>) -> Result<
    GraphQLBatchRequestView,
    GraphQLRequestErrorView,
> {
    match text_of_body(body) {
        Ok(query) => Ok(
            GraphQLBatchRequestView::Single(
                GraphQLRequestView { query, operation_name: None, variables: None },
            ),
        ),
        Err(e) => Err(e),
    }
}

/// Reads the body of a POST request whose body is the query itself.
pub fn parse_post_graphql_req(body: Body) -> (batch: Result<
    GraphQLBatchRequest,
    GraphQLRequestError,
>)
    ensures
        batch_result(batch) == batch_of_graphql_body(body_view(body)),
        batch matches Err(e) ==> e@.message() is Some,
{
    match read_body(body) {
        Ok(query) => Ok(
            GraphQLBatchRequest::Single(
                GraphQLRequest { query, operation_name: None, variables: None },
            ),
        ),
        Err(e) => Err(e),
    }
}

/// The response to a request that cannot be read.
pub open spec fn refusal(error: GraphQLRequestErrorView) -> ResponseView {
    open_response(BAD_REQUEST, error.message()->0)
}

/// Answers with what is wrong with a request.
pub fn error_response(message: String) -> (response: Response)
    ensures
        response@ == open_response(BAD_REQUEST, message@),
{
    let mut response = new_response(BAD_REQUEST);
    response.body = message;
    response
}

/// Answers a request that cannot be read.
pub fn render_error(err: GraphQLRequestError) -> (response: Response)
    ensures
        response@.status == BAD_REQUEST,
        response@.headers == any_origin(),
        err@.message() is Some ==> response@ == refusal(err@),
{
    error_response(err.message())
}

/// How the body of a POST request is to be read.
#[derive(Clone, Copy, Debug, PartialEq, Eq, Structural)]
pub enum BodyKind {
    Json,
    Graphql,
}

/// What comes of the head of a request.
pub enum ParseStep {
    /// The request was read.
    Parsed(GraphQLBatchRequest),
    /// The request is refused with a response.
    Refused(Response),
    /// The body has to be received first.
    ReadBody(BodyKind),
}

/// What a step holds.
#[verifier::ext_equal]
pub enum ParseStepView {
    Parsed(GraphQLBatchRequestView),
    Refused(ResponseView),
    ReadBody(BodyKind),
}

impl View for ParseStep {
    type V = ParseStepView;

    open spec fn view(&self) -> ParseStepView {
        match self {
            ParseStep::Parsed(batch) => ParseStepView::Parsed(batch@),
            ParseStep::Refused(response) => ParseStepView::Refused(response@),
            ParseStep::ReadBody(kind) => ParseStepView::ReadBody(*kind),
        }
    }
}

/// The content type that a request names, if it is text.
pub open spec fn content_type_of(request: RequestView) -> Option<Seq<char>> {
    match first_value(request.headers, "content-type"@) {
        Some(value) => visible_text(value),
        None => None,
    }
}

/// What comes of the head of a request: GET requests are read from their query
/// string, POST requests from their body if its type is known, and no other
/// method is served.
pub open spec fn step_of(request: RequestView) -> ParseStepView {
    match request.method {
        Method::Get => match batch_of_query(request.query) {
            Ok(batch) => ParseStepView::Parsed(batch),
            Err(e) => ParseStepView::Refused(refusal(e)),
        },
        Method::Post => if content_type_of(request) == Some("application/json"@) {
            ParseStepView::ReadBody(BodyKind::Json)
        } else if content_type_of(request) == Some("application/graphql"@) {
            ParseStepView::ReadBody(BodyKind::Graphql)
        } else {
            ParseStepView::Refused(open_response(BAD_REQUEST, Seq::empty()))
        },
        _ => ParseStepView::Refused(open_response(METHOD_NOT_ALLOWED, Seq::empty())),
    }
}

/// Reads the head of a request. Whatever is wrong with a GET request can be
/// said.
pub fn parse_req(request: &Request) -> (step: ParseStep)
    ensures
        step@ == step_of(request@),
        request@.method == Method::Get ==> (batch_of_query(request@.query) matches Err(e)
            ==> e.message() is Some),
{
    match request.method {
        Method::Get => match parse_get_req(request) {
            Ok(batch) => ParseStep::Parsed(batch),
            Err(e) => ParseStep::Refused(render_error(e)),
        },
        Method::Post => {
            proof {
                reveal_strlit("content-type");
                reveal_strlit("application/json");
                reveal_strlit("application/graphql");
            }
            let content_type: Option<String> = match header_get(&request.headers, "content-type") {
                Some(value) => read_visible(value),
                None => None,
            };
            match content_type {
                Some(text) => if text_equal(text.as_str(), "application/json") {
                    ParseStep::ReadBody(BodyKind::Json)
                } else if text_equal(text.as_str(), "application/graphql") {
                    ParseStep::ReadBody(BodyKind::Graphql)
                } else {
                    ParseStep::Refused(new_response(BAD_REQUEST))
                },
                None => ParseStep::Refused(new_response(BAD_REQUEST)),
            }
        },
        _ => ParseStep::Refused(new_response(METHOD_NOT_ALLOWED)),
    }
}

/// What a received body of a given kind is read as.
pub open spec fn reading_of_body(kind: BodyKind, body: Result<Seq<u8>, Seq<char>>) -> Result<
    GraphQLBatchRequestView,
    GraphQLRequestErrorView,
> {
    match kind {
        BodyKind::Json => batch_of_json_body(body),
        BodyKind::Graphql => batch_of_graphql_body(body),
    }
}

/// What a received body is read as, or the response that refuses it.
pub open spec fn batch_of_body(kind: BodyKind, body: Result<Seq<u8>, Seq<char>>) -> Result<
    GraphQLBatchRequestView,
    ResponseView,
> {
    match reading_of_body(kind, body) {
        Ok(batch) => Ok(batch),
        Err(e) => Err(refusal(e)),
    }
}

/// Reads the body of a request, once it is received. Whatever is wrong with it
/// can be said.
pub fn parse_body(kind: BodyKind, body: Body) -> (batch: Result<GraphQLBatchRequest, Response>)
    ensures
        match batch {
            Ok(b) => batch_of_body(kind, body_view(body)) == Ok::<_, ResponseView>(b@),
            Err(r) => batch_of_body(kind, body_view(body)) == Err::<GraphQLBatchRequestView, _>(r@),
        },
        reading_of_body(kind, body_view(body)) matches Err(e) ==> e.message() is Some,
{
    let batch = match kind {
        BodyKind::Json => parse_post_json_req(body),
        BodyKind::Graphql => parse_post_graphql_req(body),
    };
    match batch {
        Ok(batch) => Ok(batch),
        Err(e) => Err(render_error(e)),
    }
}

/// The response to an executed request, whose result is JSON.
pub open spec fn executed_response(json: Seq<char>, succeeded: bool) -> ResponseView {
    typed_response(
        if succeeded {
            OK
        } else {
            BAD_REQUEST
        },
        "application/json"@,
        json,
    )
}

/// Answers with the JSON that a request was executed to.
pub fn execution_response(json: String, succeeded: bool) -> (response: Response)
    ensures
        response@ == executed_response(json@, succeeded),
{
    let code: u16 = if succeeded {
        OK
    } else {
        BAD_REQUEST
    };
    let mut response = new_response(code);
    proof {
        reveal_strlit("content-type");
        reveal_strlit("application/json");
    }
    header_insert(&mut response.headers, "content-type", "application/json");
    response.body = json;
    response
}

/// Answers an executed request, if its result can be written as JSON.
pub fn execute_request(executed: &ExecutedBatch<'_>) -> (response: Result<
    Response,
    SerdeError,
>)
    ensures
        match response {
            Ok(r) => pretty_json_of(*executed) is Ok && r@ == executed_response(
                pretty_json_of(*executed)->Ok_0,
                all_succeeded(*executed),
            ),
            Err(e) => pretty_json_of(*executed) == Err::<Seq<char>, _>(e),
        },
{
    match write_batch(executed) {
        Ok(json) => Ok(execution_response(json, batch_succeeded(executed))),
        Err(e) => Err(e),
    }
}

/// Answers a request to the GraphQL endpoint: with what it was executed to, if
/// that can be written as JSON, or with the response that refuses it.
pub fn graphql(outcome: Result<ExecutedBatch<'_>, Response>) -> (response: Result<
    Response,
    SerdeError,
>)
    ensures
        match outcome {
            Ok(executed) => match response {
                Ok(r) => pretty_json_of(executed) is Ok && r@ == executed_response(
                    pretty_json_of(executed)->Ok_0,
                    all_succeeded(executed),
                ),
                Err(e) => pretty_json_of(executed) == Err::<Seq<char>, _>(e),
            },
            Err(refused) => response == Ok::<_, SerdeError>(refused),
        },
{
    match outcome {
        Ok(executed) => execute_request(&executed),
        Err(refused) => Ok(refused),
    }
}

/// The HTML source of a GraphiQL page for a pair of endpoints.
pub uninterp spec fn graphiql_source_of(endpoint: Seq<char>, subscriptions: Option<Seq<char>>) -> Seq<
    char,
>;

/// The HTML source of a GraphQL Playground page for a pair of endpoints.
pub uninterp spec fn playground_source_of(
    endpoint: Seq<char>,
    subscriptions: Option<Seq<char>>,
) -> Seq<char>;

/// Calls `juniper::http::graphiql::graphiql_source`, which fills the endpoints
/// into a fixed page.
#[verifier::external_body]
pub(crate) fn graphiql_source(endpoint: &str, subscriptions: Option<&str>) -> (source: String)
    ensures
        source@ == graphiql_source_of(endpoint@, optional_str(subscriptions)),
{
    juniper::http::graphiql::graphiql_source(endpoint, subscriptions)
}

/// Calls `juniper::http::playground::playground_source`, which fills the
/// endpoints into a fixed page.
#[verifier::external_body]
pub(crate) fn playground_source(endpoint: &str, subscriptions: Option<&str>) -> (source: String)
    ensures
        source@ == playground_source_of(endpoint@, optional_str(subscriptions)),
{
    juniper::http::playground::playground_source(endpoint, subscriptions)
}

/// The response that serves an HTML page.
pub open spec fn page(source: Seq<char>) -> ResponseView {
    typed_response(OK, "text/html; charset=utf-8"@, source)
}

/// Serves an HTML page.
pub fn page_response(source: String) -> (response: Response)
    ensures
        response@ == page(source@),
{
    let mut response = new_html_response(OK);
    response.body = source;
    response
}

/// Serves a GraphiQL page for a pair of endpoints.
pub fn graphiql(graphql_endpoint: &str, subscriptions_endpoint: Option<&str>) -> (response: Response)
    ensures
        response@ == page(graphiql_source_of(graphql_endpoint@, optional_str(subscriptions_endpoint))),
{
    page_response(graphiql_source(graphql_endpoint, subscriptions_endpoint))
}

/// Serves a GraphQL Playground page for a pair of endpoints.
pub fn playground(graphql_endpoint: &str, subscriptions_endpoint: Option<&str>) -> (response: Response)
    ensures
        response@ == page(
            playground_source_of(graphql_endpoint@, optional_str(subscriptions_endpoint)),
        ),
{
    page_response(playground_source(graphql_endpoint, subscriptions_endpoint))
}

} // verus!
