//! What holds of responses, and of how GraphQL requests are read and answered.
use crate::headers::{entries_with, first_value, header_entries, is_field_value, no_entries};
use crate::http::{
    any_origin, new_html_response, new_response, open_response, optional_str, optional_text,
    typed_response, Method, Request, RequestView, Response, ResponseView,
};
use crate::json::{
    all_succeeded, batch_of, complaint_of, pretty_json_of, text_result, ExecutedBatch, ParsedBatch,
};
use crate::juniper_hyper::{
    accept_json, batch_of_body, batch_of_graphql_body, batch_of_json, batch_of_json_body,
    batch_of_query, body_view, error_response, execute_request, executed_response,
    execution_response, graphiql, graphiql_source_of, graphql, page, page_response, parse_body,
    parse_get_req, parse_post_graphql_req, parse_post_json_req, parse_req, playground,
    playground_source_of, refusal, render_error, step_of, text_of_body, Body, BodyKind, ParseStep,
    ParseStepView,
};
use crate::laws::sockets::agree_on;
use crate::laws::text::{plain_text_is_read_back, visible_bytes_are_their_text};
use crate::params::request_of_query;
use crate::request::{
    ErrorSource, GraphQLBatchRequest, GraphQLBatchRequestView, GraphQLRequest, GraphQLRequestError,
    GraphQLRequestErrorView, GraphQLRequestView,
};
use crate::text::{lemma_utf8_injective, rejected_bytes, utf8_complaint};
use serde_json::Error as SerdeError;
use vstd::prelude::*;
use vstd::utf8::*;

verus! {

/// Adding a value under a name leaves the values of other names, and puts the
/// new one behind those that the name has; the first value of a name is the one
/// that was added first.
pub proof fn an_added_value_comes_last(
    entries: Map<Seq<char>, Seq<Seq<u8>>>,
    name: Seq<char>,
    value: Seq<u8>,
    other: Seq<char>,
)
    ensures
        entries_with(entries, name, value).dom().contains(name),
        entries.dom().contains(name) ==> entries_with(entries, name, value)[name] == entries[name]
            + seq![value],
        !entries.dom().contains(name) ==> entries_with(entries, name, value)[name] == seq![value],
        other != name ==> agree_on(entries, entries_with(entries, name, value), other),
        !entries.dom().contains(name) ==> first_value(entries_with(entries, name, value), name)
            == Some(value),
        entries.dom().contains(name) ==> first_value(entries, name) == Some(entries[name][0]),
        !entries.dom().contains(name) ==> first_value(entries, name) is None,
        !no_entries().dom().contains(name),
{
    if entries.dom().contains(name) {
        assert(entries[name].push(value) =~= entries[name] + seq![value]);
    }
}

/// A text may be a header value exactly where it has no control character but
/// tabs.
pub proof fn a_header_value_has_no_control_characters(text: Seq<char>)
    ensures
        is_field_value(text) <==> forall|i: int|
            0 <= i < text.len() ==> #[trigger] text[i] as int == 9 || 32 <= text[i] as int
                && text[i] as int != 127,
{
    if is_field_value(text) {
        assert forall|i: int| 0 <= i < text.len() implies #[trigger] text[i] as int == 9 || 32
            <= text[i] as int && text[i] as int != 127 by {}
    }
}

/// The views of requests, responses and their parts hold what the values hold.
pub proof fn views_hold_what_values_hold(
    request: Request,
    response: Response,
    graphql: GraphQLRequest,
    string: String,
    slice: &str,
    error: SerdeError,
    body: Body,
)
    ensures
        request@.method == request.method,
        request@.path == request.path@,
        request.query is None ==> request@.query is None,
        request.query matches Some(q) ==> request@.query == Some(q@),
        request@.headers == header_entries(request.headers),
        response@.status == response.status,
        response@.headers == header_entries(response.headers),
        response@.body == response.body@,
        graphql@.query == graphql.query@,
        graphql.operation_name matches Some(name) ==> graphql@.operation_name == Some(name@),
        graphql.operation_name is None ==> graphql@.operation_name is None,
        graphql@.variables == graphql.variables,
        optional_text(Some(string)) == Some(string@),
        optional_text(None) is None,
        optional_str(Some(slice)) == Some(slice@),
        optional_str(None) is None,
        text_result(Ok::<String, SerdeError>(string)) == Ok::<Seq<char>, SerdeError>(string@),
        text_result(Err::<String, SerdeError>(error)) == Err::<Seq<char>, SerdeError>(error),
        body matches Ok(bytes) ==> body_view(body) == Ok::<Seq<u8>, Seq<char>>(bytes@),
        body matches Err(text) ==> body_view(body) == Err::<Seq<u8>, Seq<char>>(text@),
{
}

/// A method is told by its name alone, letter for letter.
pub proof fn methods_are_told_by_their_names(name: &str, method: Method)
    requires
        call_ensures(Method::from_name, (name,), method),
    ensures
        method == Method::named(name@),
        method == Method::Get <==> name@ == "GET"@,
        method == Method::Post <==> name@ == "POST"@,
        method == Method::Options <==> name@ == "OPTIONS"@,
{
    reveal_strlit("GET");
    reveal_strlit("POST");
    reveal_strlit("OPTIONS");
    assert("GET"@.len() == 3 && "POST"@.len() == 4 && "OPTIONS"@.len() == 7);
}

/// A bare response has the status and the body that it is given, and one header
/// field, by which pages of any origin may read it.
pub proof fn bare_responses_are_open(status: u16, body: Seq<char>)
    ensures
        open_response(status, body) == (ResponseView {
            status,
            headers: map!["access-control-allow-origin"@ => seq![encode_utf8("*"@)]],
            body,
        }),
        any_origin() == map!["access-control-allow-origin"@ => seq![encode_utf8("*"@)]],
{
}

/// A response with a body of a given type has that status and that body, and two
/// header fields: one by which pages of any origin may read it, and the type.
pub proof fn typed_responses_are_open_and_name_their_type(
    status: u16,
    content_type: Seq<char>,
    body: Seq<char>,
)
    ensures
        typed_response(status, content_type, body) == (ResponseView {
            status,
            headers: map![
                "access-control-allow-origin"@ => seq![encode_utf8("*"@)],
                "content-type"@ => seq![encode_utf8(content_type)],
            ],
            body,
        }),
{
    assert(typed_response(status, content_type, body).headers =~= map![
        "access-control-allow-origin"@ => seq![encode_utf8("*"@)],
        "content-type"@ => seq![encode_utf8(content_type)],
    ]);
}

/// Whether a response has a given status, a given body, and no header field but
/// the one by which pages of any origin may read it.
pub open spec fn says(response: ResponseView, status: u16, body: Seq<char>) -> bool {
    &&& response.status == status
    &&& response.body == body
    &&& response.headers == map!["access-control-allow-origin"@ => seq![encode_utf8("*"@)]]
}

/// Whether a response has a given status, a body of a given type, and the field
/// by which pages of any origin may read it.
pub open spec fn shows(
    response: ResponseView,
    status: u16,
    content_type: Seq<char>,
    body: Seq<char>,
) -> bool {
    &&& response.status == status
    &&& response.body == body
    &&& response.headers == map![
        "access-control-allow-origin"@ => seq![encode_utf8("*"@)],
        "content-type"@ => seq![encode_utf8(content_type)],
    ]
}

/// A new response has the status that it is given and no body, and an HTML
/// response names its type besides.
pub proof fn new_responses_have_their_status(code: u16, bare: Response, html: Response)
    requires
        call_ensures(new_response, (code,), bare),
        call_ensures(new_html_response, (code,), html),
    ensures
        says(bare@, code, Seq::empty()),
        shows(html@, code, "text/html; charset=utf-8"@, Seq::empty()),
{
    bare_responses_are_open(code, Seq::empty());
    typed_responses_are_open_and_name_their_type(code, "text/html; charset=utf-8"@, Seq::empty());
}

/// A page is served as HTML, with the source that it is given as its body, and
/// the two tools with the page that is made for the endpoints they are given.
pub proof fn pages_are_served_as_html(
    source: String,
    endpoint: &str,
    subscriptions: Option<&str>,
    served: Response,
    graphiql_page: Response,
    playground_page: Response,
)
    requires
        call_ensures(page_response, (source,), served),
        call_ensures(graphiql, (endpoint, subscriptions), graphiql_page),
        call_ensures(playground, (endpoint, subscriptions), playground_page),
    ensures
        shows(page(source@), 200, "text/html; charset=utf-8"@, source@),
        shows(served@, 200, "text/html; charset=utf-8"@, source@),
        ({
            let subscribed = match subscriptions {
                Some(s) => Some(s@),
                None => None,
            };
            &&& shows(
                graphiql_page@,
                200,
                "text/html; charset=utf-8"@,
                graphiql_source_of(endpoint@, subscribed),
            )
            &&& shows(
                playground_page@,
                200,
                "text/html; charset=utf-8"@,
                playground_source_of(endpoint@, subscribed),
            )
        }),
{
    let subscribed = match subscriptions {
        Some(s) => Some(s@),
        None => None,
    };
    typed_responses_are_open_and_name_their_type(200, "text/html; charset=utf-8"@, source@);
    typed_responses_are_open_and_name_their_type(
        200,
        "text/html; charset=utf-8"@,
        graphiql_source_of(endpoint@, subscribed),
    );
    typed_responses_are_open_and_name_their_type(
        200,
        "text/html; charset=utf-8"@,
        playground_source_of(endpoint@, subscribed),
    );
}

/// An executed request is answered with its JSON, as a success exactly where it
/// succeeded, and as a bad request otherwise.
pub proof fn executed_requests_are_answered_with_their_json(
    json: String,
    succeeded: bool,
    response: Response,
)
    requires
        call_ensures(execution_response, (json, succeeded), response),
    ensures
        shows(
            executed_response(json@, succeeded),
            if succeeded {
                200
            } else {
                400
            },
            "application/json"@,
            json@,
        ),
        shows(
            response@,
            if succeeded {
                200
            } else {
                400
            },
            "application/json"@,
            json@,
        ),
{
    typed_responses_are_open_and_name_their_type(200, "application/json"@, json@);
    typed_responses_are_open_and_name_their_type(400, "application/json"@, json@);
}

/// A batch that was executed is answered exactly where it can be written as
/// JSON: with this JSON, as a success exactly where all of it succeeded. The
/// error of writing it is handed on.
pub proof fn executed_batches_are_answered_if_they_can_be_written(
    executed: ExecutedBatch<'_>,
    response: Result<Response, SerdeError>,
)
    requires
        call_ensures(execute_request, (&executed,), response),
    ensures
        match pretty_json_of(executed) {
            Ok(json) => response matches Ok(r) && shows(
                r@,
                if all_succeeded(executed) {
                    200
                } else {
                    400
                },
                "application/json"@,
                json,
            ),
            Err(e) => response matches Err(f) && f == e,
        },
{
    if pretty_json_of(executed) is Ok {
        let json = pretty_json_of(executed)->Ok_0;
        typed_responses_are_open_and_name_their_type(200, "application/json"@, json);
        typed_responses_are_open_and_name_their_type(400, "application/json"@, json);
    }
}

/// The endpoint answers a refused request with the refusal itself, and an
/// executed one as its result is answered.
pub proof fn the_endpoint_answers_with_refusal_or_result(
    refused: Response,
    executed: ExecutedBatch<'_>,
    to_refused: Result<Response, SerdeError>,
    to_executed: Result<Response, SerdeError>,
)
    requires
        call_ensures(graphql, (Err::<ExecutedBatch<'_>, Response>(refused),), to_refused),
        call_ensures(graphql, (Ok::<ExecutedBatch<'_>, Response>(executed),), to_executed),
    ensures
        to_refused == Ok::<Response, SerdeError>(refused),
        match pretty_json_of(executed) {
            Ok(json) => to_executed matches Ok(r) && shows(
                r@,
                if all_succeeded(executed) {
                    200
                } else {
                    400
                },
                "application/json"@,
                json,
            ),
            Err(e) => to_executed matches Err(f) && f == e,
        },
{
    if pretty_json_of(executed) is Ok {
        let json = pretty_json_of(executed)->Ok_0;
        typed_responses_are_open_and_name_their_type(200, "application/json"@, json);
        typed_responses_are_open_and_name_their_type(400, "application/json"@, json);
    }
}

/// What an error says is the text that it holds, or what is said of the bytes or
/// by the JSON reader behind it.
pub proof fn errors_say_what_they_hold(
    text: Seq<char>,
    bytes: Seq<u8>,
    error: SerdeError,
)
    ensures
        GraphQLRequestErrorView::BodyHyper(text).message() == Some(text),
        GraphQLRequestErrorView::Invalid(text).message() == Some(text),
        GraphQLRequestErrorView::BodyUtf8(bytes).message() == Some(utf8_complaint(bytes)),
        GraphQLRequestErrorView::BodyJSONError(error).message() == complaint_of(error),
        GraphQLRequestErrorView::Variables(error).message() == complaint_of(error),
{
}

/// The message of an error is the text that it holds, or what is said of the
/// bytes or by the JSON reader behind it.
pub proof fn the_message_of_an_error_is_what_it_holds(
    error: &GraphQLRequestError,
    message: String,
)
    requires
        call_ensures(GraphQLRequestError::message, (error,), message),
    ensures
        match error {
            GraphQLRequestError::BodyHyper(text) => message@ == text@,
            GraphQLRequestError::Invalid(text) => message@ == text@,
            GraphQLRequestError::BodyUtf8(e) => message@ == utf8_complaint(rejected_bytes(*e)),
            GraphQLRequestError::BodyJSONError(e) => complaint_of(*e) matches Some(t) ==> message@
                == t,
            GraphQLRequestError::Variables(e) => complaint_of(*e) matches Some(t) ==> message@ == t,
        },
{
}

/// An error has the error behind it as its source, and an invalid parameter has
/// none.
pub proof fn the_source_of_an_error_is_behind_it(
    error: &GraphQLRequestError,
    source: Option<ErrorSource<'_>>,
)
    requires
        call_ensures(GraphQLRequestError::source, (error,), source),
    ensures
        source is None <==> error is Invalid,
        error matches GraphQLRequestError::BodyHyper(text) ==> (source matches Some(
            ErrorSource::Hyper(s),
        ) && s == text),
        error matches GraphQLRequestError::BodyUtf8(e) ==> (source matches Some(
            ErrorSource::Utf8(s),
        ) && s == e),
        error matches GraphQLRequestError::BodyJSONError(e) ==> (source matches Some(
            ErrorSource::Json(s),
        ) && s == e),
        error matches GraphQLRequestError::Variables(e) ==> (source matches Some(
            ErrorSource::Json(s),
        ) && s == e),
{
}

/// An error is answered as a bad request with its message, and no field but the
/// one by which pages of any origin may read it.
pub proof fn errors_are_answered_as_bad_requests(
    message: String,
    told: Response,
    error: GraphQLRequestError,
    rendered: Response,
)
    requires
        call_ensures(error_response, (message,), told),
        call_ensures(render_error, (error,), rendered),
    ensures
        says(told@, 400, message@),
        says(rendered@, 400, rendered@.body),
        error@.message() matches Some(text) ==> says(refusal(error@), 400, text) && says(
            rendered@,
            400,
            text,
        ),
{
    bare_responses_are_open(400, message@);
    bare_responses_are_open(400, rendered@.body);
    if error@.message() is Some {
        bare_responses_are_open(400, error@.message()->0);
    }
}

/// A received body is text exactly where its bytes are UTF-8, and it is then the
/// text that they encode. Whatever the text is, its own bytes give it back.
pub proof fn a_body_is_the_text_of_its_bytes(bytes: Seq<u8>, text: Seq<char>, failure: Seq<char>)
    ensures
        text_of_body(Ok(encode_utf8(text))) == Ok::<Seq<char>, GraphQLRequestErrorView>(text),
        valid_utf8(bytes) ==> text_of_body(Ok(bytes)) == Ok::<Seq<char>, GraphQLRequestErrorView>(
            decode_utf8(bytes),
        ),
        !valid_utf8(bytes) ==> text_of_body(Ok(bytes)) == Err::<
            Seq<char>,
            GraphQLRequestErrorView,
        >(GraphQLRequestErrorView::BodyUtf8(bytes)),
        text_of_body(Err(failure)) == Err::<Seq<char>, GraphQLRequestErrorView>(
            GraphQLRequestErrorView::BodyHyper(failure),
        ),
{
    encode_utf8_valid_utf8(text);
    encode_utf8_decode_utf8(text);
}

/// For every text, a received `application/graphql` body with that text is
/// accepted, and makes the single request with that text as its query, without
/// variables and without an operation name.
pub proof fn a_graphql_body_is_the_query(text: Seq<char>)
    ensures
        batch_of_body(BodyKind::Graphql, Ok(encode_utf8(text))) == Ok::<
            GraphQLBatchRequestView,
            ResponseView,
        >(
            GraphQLBatchRequestView::Single(
                (GraphQLRequestView { query: text, operation_name: None, variables: None }),
            ),
        ),
        batch_of_graphql_body(Ok(encode_utf8(text))) == Ok::<
            GraphQLBatchRequestView,
            GraphQLRequestErrorView,
        >(
            GraphQLBatchRequestView::Single(
                (GraphQLRequestView { query: text, operation_name: None, variables: None }),
            ),
        ),
{
    encode_utf8_valid_utf8(text);
    encode_utf8_decode_utf8(text);
}

/// For every text, a received `application/json` body with that text is accepted
/// exactly where the text is read as a batch, and makes that batch. Otherwise it
/// is refused with what the JSON reader said.
pub proof fn a_json_body_is_the_batch_that_it_is_read_as(text: Seq<char>)
    ensures
        batch_of(text) matches Ok(batch) ==> batch_of_body(BodyKind::Json, Ok(encode_utf8(text)))
            == Ok::<GraphQLBatchRequestView, ResponseView>(GraphQLBatchRequestView::Parsed(batch)),
        batch_of(text) matches Err(e) ==> (batch_of_body(BodyKind::Json, Ok(encode_utf8(text)))
            matches Err(response) && (complaint_of(e) matches Some(said) ==> says(
            response,
            400,
            said,
        ))),
        batch_of_json_body(Ok(encode_utf8(text))) == batch_of_json(batch_of(text)),
{
    encode_utf8_valid_utf8(text);
    encode_utf8_decode_utf8(text);
    if batch_of(text) is Err {
        let e = batch_of(text)->Err_0;
        if complaint_of(e) is Some {
            bare_responses_are_open(400, complaint_of(e)->0);
        }
    }
}

/// A body that is not text, or was not received, is refused as a bad request
/// whatever its kind: with what is said of its bytes, or what went wrong.
pub proof fn a_body_that_is_no_text_is_refused(kind: BodyKind, bytes: Seq<u8>, failure: Seq<char>)
    ensures
        !valid_utf8(bytes) ==> (batch_of_body(kind, Ok(bytes)) matches Err(response) && says(
            response,
            400,
            utf8_complaint(bytes),
        )),
        batch_of_body(kind, Err(failure)) matches Err(response) && says(response, 400, failure),
{
    bare_responses_are_open(400, utf8_complaint(bytes));
    bare_responses_are_open(400, failure);
}

/// What was read as JSON is taken over as it is, and so is the error of reading
/// it.
pub proof fn what_json_was_read_as_is_taken_over(
    read: Result<ParsedBatch, SerdeError>,
    accepted: Result<GraphQLBatchRequest, GraphQLRequestError>,
)
    requires
        call_ensures(accept_json, (read,), accepted),
    ensures
        match read {
            Ok(batch) => accepted matches Ok(GraphQLBatchRequest::Parsed(b)) && b == batch,
            Err(e) => accepted matches Err(GraphQLRequestError::BodyJSONError(f)) && f == e,
        },
{
    assert(accepted is Ok <==> read is Ok);
}

/// Reading a body by its kind: text of kind GraphQL is the query of a single
/// request, text of kind JSON the batch that it is read as; a body that is no
/// text, or was not received, is answered as a bad request.
pub proof fn reading_a_body_goes_by_its_kind(
    kind: BodyKind,
    body: Body,
    result: Result<GraphQLBatchRequest, Response>,
)
    requires
        call_ensures(parse_body, (kind, body), result),
    ensures
        match body {
            Err(failure) => result matches Err(response) && says(response@, 400, failure@),
            Ok(bytes) => if !valid_utf8(bytes@) {
                result matches Err(response) && says(response@, 400, utf8_complaint(bytes@))
            } else if kind == BodyKind::Graphql {
                result matches Ok(GraphQLBatchRequest::Single(request)) && {
                    &&& request.query@ == decode_utf8(bytes@)
                    &&& request.operation_name is None
                    &&& request.variables is None
                }
            } else {
                match batch_of(decode_utf8(bytes@)) {
                    Ok(batch) => result matches Ok(GraphQLBatchRequest::Parsed(b)) && b == batch,
                    Err(e) => result matches Err(response) && complaint_of(e) matches Some(said)
                        && says(response@, 400, said),
                }
            },
        },
{
    match body {
        Err(failure) => {
            a_body_that_is_no_text_is_refused(kind, Seq::empty(), failure@);
        },
        Ok(bytes) => {
            a_body_that_is_no_text_is_refused(kind, bytes@, Seq::empty());
            if valid_utf8(bytes@) {
                let text = decode_utf8(bytes@);
                decode_utf8_encode_utf8(bytes@);
                assert(encode_utf8(text) == bytes@);
                a_graphql_body_is_the_query(text);
                a_json_body_is_the_batch_that_it_is_read_as(text);
            }
        },
    }
}

/// The two readers of a body, before their error is answered: a body that is no
/// text gives the error that holds its bytes, one that was not received the
/// error that holds what went wrong.
pub proof fn readers_of_bodies_keep_what_they_read(
    body: Body,
    json: Result<GraphQLBatchRequest, GraphQLRequestError>,
    query: Result<GraphQLBatchRequest, GraphQLRequestError>,
)
    requires
        call_ensures(parse_post_json_req, (body,), json),
        call_ensures(parse_post_graphql_req, (body,), query),
    ensures
        match body {
            Err(failure) => {
                &&& json matches Err(GraphQLRequestError::BodyHyper(text)) && text@ == failure@
                &&& query matches Err(GraphQLRequestError::BodyHyper(text)) && text@ == failure@
            },
            Ok(bytes) => if !valid_utf8(bytes@) {
                &&& json matches Err(GraphQLRequestError::BodyUtf8(e)) && rejected_bytes(e)
                    == bytes@
                &&& query matches Err(GraphQLRequestError::BodyUtf8(e)) && rejected_bytes(e)
                    == bytes@
            } else {
                &&& match batch_of(decode_utf8(bytes@)) {
                    Ok(batch) => json matches Ok(GraphQLBatchRequest::Parsed(b)) && b == batch,
                    Err(e) => json matches Err(GraphQLRequestError::BodyJSONError(f)) && f == e,
                }
                &&& query matches Ok(GraphQLBatchRequest::Single(request)) && {
                    &&& request.query@ == decode_utf8(bytes@)
                    &&& request.operation_name is None
                    &&& request.variables is None
                }
            },
        },
{
    match body {
        Err(failure) => {
            a_body_is_the_text_of_its_bytes(Seq::empty(), Seq::empty(), failure@);
        },
        Ok(bytes) => {
            a_body_is_the_text_of_its_bytes(bytes@, Seq::empty(), Seq::empty());
            if valid_utf8(bytes@) {
                let text = decode_utf8(bytes@);
                decode_utf8_encode_utf8(bytes@);
                a_graphql_body_is_the_query(text);
                a_json_body_is_the_batch_that_it_is_read_as(text);
                assert(query->Ok_0@ is Single);
                assert(query->Ok_0@->Single_0.operation_name is None);
            }
        },
    }
}

/// A query string makes a batch of one request exactly where it makes a request,
/// and that request is the one; without a query string the query is missing.
pub proof fn a_query_string_makes_a_single_request(query: Seq<char>)
    ensures
        request_of_query(query) matches Ok(request) ==> batch_of_query(Some(query)) == Ok::<
            GraphQLBatchRequestView,
            GraphQLRequestErrorView,
        >(GraphQLBatchRequestView::Single(request)),
        request_of_query(query) matches Err(e) ==> batch_of_query(Some(query)) == Err::<
            GraphQLBatchRequestView,
            GraphQLRequestErrorView,
        >(e),
        batch_of_query(None) == Err::<GraphQLBatchRequestView, GraphQLRequestErrorView>(
            GraphQLRequestErrorView::Invalid("'query' parameter is missing"@),
        ),
{
}

/// A GET request is read as its query string is, whatever its path and its
/// header fields are.
pub proof fn a_get_request_is_read_from_its_query_string(request: RequestView)
    requires
        request.method == Method::Get,
    ensures
        request.query is None ==> (step_of(request) matches ParseStepView::Refused(response)
            && says(response, 400, "'query' parameter is missing"@)),
        request.query matches Some(query) ==> match request_of_query(query) {
            Ok(made) => step_of(request) == ParseStepView::Parsed(
                GraphQLBatchRequestView::Single(made),
            ),
            Err(e) => step_of(request) matches ParseStepView::Refused(response) && (
            e.message() matches Some(said) ==> says(response, 400, said)),
        },
{
    bare_responses_are_open(400, "'query' parameter is missing"@);
    if request.query is Some {
        let made = request_of_query(request.query->0);
        if made is Err && (made->Err_0).message() is Some {
            bare_responses_are_open(400, (made->Err_0).message()->0);
        }
    }
}

/// A POST request is read from its body exactly where the first `content-type`
/// value is "application/json" or "application/graphql", by the kind of that
/// name, and is else refused as a bad request without words. Its path, its query
/// string and its other fields do not matter.
pub proof fn a_post_request_is_read_by_its_content_type(request: RequestView)
    requires
        request.method == Method::Post,
    ensures
        ({
            let named = request.headers.dom().contains("content-type"@);
            let value = request.headers["content-type"@][0];
            let json = named && value == encode_utf8("application/json"@);
            let graphql = named && value == encode_utf8("application/graphql"@);
            &&& step_of(request) == ParseStepView::ReadBody(BodyKind::Json) <==> json
            &&& step_of(request) == ParseStepView::ReadBody(BodyKind::Graphql) <==> graphql
            &&& !json && !graphql ==> (step_of(request) matches ParseStepView::Refused(response)
                && says(response, 400, Seq::empty()))
        }),
{
    let value = request.headers["content-type"@][0];
    bare_responses_are_open(400, Seq::empty());
    visible_bytes_are_their_text(value);
    reveal_strlit("application/json");
    reveal_strlit("application/graphql");
    assert("application/json"@.len() == 16 && "application/graphql"@.len() == 19);
    plain_text_is_read_back("application/json"@);
    plain_text_is_read_back("application/graphql"@);
    lemma_utf8_injective("application/json"@, "application/graphql"@);
}

/// A request of any other method is refused for its method, without words.
pub proof fn other_methods_are_refused(request: RequestView)
    requires
        request.method != Method::Get,
        request.method != Method::Post,
    ensures
        step_of(request) matches ParseStepView::Refused(response) && says(
            response,
            405,
            Seq::empty(),
        ),
{
    bare_responses_are_open(405, Seq::empty());
}

/// How a request is read depends on its method, on the query string of a GET
/// request and on the content type of a POST request, and on nothing else.
pub proof fn only_query_and_content_type_matter(a: RequestView, b: RequestView)
    requires
        a.method == b.method,
        a.method == Method::Get ==> a.query == b.query,
        a.method == Method::Post ==> agree_on(a.headers, b.headers, "content-type"@),
    ensures
        step_of(a) == step_of(b),
{
}

/// Reading the head of a request, in terms of what it holds: a GET request is
/// the single request that its query string makes, or is refused with what is
/// wrong with it; a POST request awaits its body where its content type is
/// known; other methods are refused.
pub proof fn reading_a_request_goes_by_its_method(request: &Request, step: ParseStep)
    requires
        call_ensures(parse_req, (request,), step),
    ensures
        match request.method {
            Method::Get => match request.query {
                None => step matches ParseStep::Refused(response) && says(
                    response@,
                    400,
                    "'query' parameter is missing"@,
                ),
                Some(query) => match request_of_query(query@) {
                    Ok(made) => step matches ParseStep::Parsed(GraphQLBatchRequest::Single(r)) && {
                        &&& r.query@ == made.query
                        &&& r.variables == made.variables
                        &&& r@.operation_name == made.operation_name
                    },
                    Err(e) => step matches ParseStep::Refused(response)
                        && e.message() matches Some(said) && says(response@, 400, said),
                },
            },
            Method::Post => {
                let headers = header_entries(request.headers);
                let named = headers.dom().contains("content-type"@);
                let value = headers["content-type"@][0];
                if named && value == encode_utf8("application/json"@) {
                    step matches ParseStep::ReadBody(kind) && kind == BodyKind::Json
                } else if named && value == encode_utf8("application/graphql"@) {
                    step matches ParseStep::ReadBody(kind) && kind == BodyKind::Graphql
                } else {
                    step matches ParseStep::Refused(response) && says(response@, 400, Seq::empty())
                }
            },
            _ => step matches ParseStep::Refused(response) && says(response@, 405, Seq::empty()),
        },
{
    match request.method {
        Method::Get => {
            a_get_request_is_read_from_its_query_string(request@);
            if request.query is Some {
                a_query_string_makes_a_single_request((request.query->0)@);
            }
        },
        Method::Post => {
            a_post_request_is_read_by_its_content_type(request@);
        },
        _ => {
            other_methods_are_refused(request@);
        },
    }
}

/// Reading a GET request comes to what its query string makes: the single
/// request, or the error.
pub proof fn reading_a_get_request_comes_to_its_query_string(
    request: &Request,
    result: Result<GraphQLBatchRequest, GraphQLRequestError>,
)
    requires
        call_ensures(parse_get_req, (request,), result),
    ensures
        match request.query {
            None => result matches Err(GraphQLRequestError::Invalid(text)) && text@
                == "'query' parameter is missing"@,
            Some(query) => match request_of_query(query@) {
                Ok(made) => result matches Ok(GraphQLBatchRequest::Single(r)) && {
                    &&& r.query@ == made.query
                    &&& r.variables == made.variables
                    &&& r@.operation_name == made.operation_name
                },
                Err(e) => result matches Err(error) && error@ == e,
            },
        },
{
    if request.query is Some {
        a_query_string_makes_a_single_request((request.query->0)@);
    } else {
        a_query_string_makes_a_single_request(Seq::empty());
    }
}

} // verus!
