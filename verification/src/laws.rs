//! What holds of the service as a whole.
use crate::http::{any_origin, Method, RequestView, BAD_REQUEST, METHOD_NOT_ALLOWED};
use crate::json::input_value_of;
use crate::juniper_hyper::{
    batch_of_body, batch_of_graphql_body, step_of, BodyKind, ParseStepView,
};
use crate::params::{
    is_first, is_first_objection, is_first_of_name, lemma_first_objection, lemma_value_of, objection,
    request_of_pairs, value_of, variables_of, ReadVariables,
};
use crate::request::{GraphQLBatchRequestView, GraphQLRequestErrorView};
use crate::serve::{asks_for_websocket, key_of, upgrade_headers, Frame};
use crate::service::{action_of, ActionView};
use crate::text::{is_list_item, is_visible, lists_word, lower_char, lowered, trimmed};
use serde_json::Error as SerdeError;
use vstd::prelude::*;
use vstd::utf8::*;

pub mod answers;
pub mod query;
pub mod routes;
pub mod sockets;
pub mod text;

verus! {

/// The position of a pair once another was inserted at `at`.
spec fn shifted(i: int, at: int) -> int {
    if i < at {
        i
    } else {
        i + 1
    }
}

/// Inserting a pair leaves the order among the pairs of another name.
proof fn lemma_insert_first(
    pairs: Seq<(Seq<char>, Seq<char>)>,
    at: int,
    pair: (Seq<char>, Seq<char>),
    i: int,
)
    requires
        0 <= at <= pairs.len(),
        0 <= i < pairs.len(),
        pairs[i].0 != pair.0,
    ensures
        pairs.insert(at, pair)[shifted(i, at)] == pairs[i],
        is_first_of_name(pairs.insert(at, pair), shifted(i, at)) == is_first_of_name(pairs, i),
{
    let more = pairs.insert(at, pair);
    let k = shifted(i, at);
    assert(more[k] == pairs[i]);
    if is_first_of_name(pairs, i) {
        assert forall|j: int| 0 <= j < k implies #[trigger] more[j].0 != more[k].0 by {
            if j < at {
                assert(more[j] == pairs[j]);
            } else if j > at {
                assert(more[j] == pairs[j - 1]);
            }
        }
    }
    if is_first_of_name(more, k) {
        assert forall|j: int| 0 <= j < i implies #[trigger] pairs[j].0 != pairs[i].0 by {
            assert(more[shifted(j, at)] == pairs[j]);
        }
    }
}

/// Inserting a pair leaves the values of other names.
proof fn lemma_insert_value(
    pairs: Seq<(Seq<char>, Seq<char>)>,
    at: int,
    pair: (Seq<char>, Seq<char>),
    name: Seq<char>,
)
    requires
        0 <= at <= pairs.len(),
        name != pair.0,
    ensures
        value_of(pairs.insert(at, pair), name) == value_of(pairs, name),
{
    let more = pairs.insert(at, pair);
    if exists|i: int| is_first(pairs, name, i) {
        let i = choose|i: int| is_first(pairs, name, i);
        lemma_insert_first(pairs, at, pair, i);
        lemma_value_of(pairs, name, i);
        lemma_value_of(more, name, shifted(i, at));
    } else if exists|k: int| is_first(more, name, k) {
        let k = choose|k: int| is_first(more, name, k);
        let i = if k < at {
            k
        } else {
            k - 1
        };
        assert(k != at);
        assert(more[k] == pairs[i]);
        lemma_insert_first(pairs, at, pair, i);
        assert(is_first(pairs, name, i));
    }
}

/// A parameter other than `query` and `variables`, among them `operationName`,
/// changes nothing, wherever it stands in the query string.
pub proof fn other_parameters_change_nothing(
    pairs: Seq<(Seq<char>, Seq<char>)>,
    at: int,
    pair: (Seq<char>, Seq<char>),
)
    requires
        0 <= at <= pairs.len(),
        pair.0 != "query"@,
        pair.0 != "variables"@,
    ensures
        request_of_pairs(pairs.insert(at, pair), variables_of(pairs.insert(at, pair)))
            == request_of_pairs(pairs, variables_of(pairs)),
{
    let more = pairs.insert(at, pair);
    let variables = variables_of(pairs);
    lemma_insert_value(pairs, at, pair, "query"@);
    lemma_insert_value(pairs, at, pair, "variables"@);
    assert(variables_of(more) == variables);
    assert forall|i: int| 0 <= i < pairs.len() implies objection(more, variables, shifted(i, at))
        == #[trigger] objection(pairs, variables, i) by {
        assert(more[shifted(i, at)] == pairs[i]);
        if pairs[i].0 != pair.0 {
            lemma_insert_first(pairs, at, pair, i);
        }
    }
    assert(objection(more, variables, at) is None);
    if exists|i: int| is_first_objection(pairs, variables, i) {
        let i = choose|i: int| is_first_objection(pairs, variables, i);
        let k = shifted(i, at);
        assert forall|j: int| 0 <= j < k implies objection(more, variables, j) is None by {
            if j < at {
                assert(shifted(j, at) == j);
                assert(objection(pairs, variables, j) is None);
            } else if j > at {
                assert(shifted(j - 1, at) == j);
                assert(objection(pairs, variables, j - 1) is None);
            }
        }
        assert(objection(pairs, variables, i) is Some);
        assert(is_first_objection(more, variables, k));
        lemma_first_objection(pairs, variables, i);
        lemma_first_objection(more, variables, k);
    } else if exists|k: int| is_first_objection(more, variables, k) {
        let k = choose|k: int| is_first_objection(more, variables, k);
        assert(k != at);
        let i = if k < at {
            k
        } else {
            k - 1
        };
        assert(shifted(i, at) == k);
        assert forall|j: int| 0 <= j < i implies objection(pairs, variables, j) is None by {
            assert(objection(more, variables, shifted(j, at)) is None);
        }
        assert(objection(pairs, variables, i) is Some);
        assert(is_first_objection(pairs, variables, i));
    }
}

/// There is a first objection wherever there is one.
proof fn lemma_some_first_objection(
    pairs: Seq<(Seq<char>, Seq<char>)>,
    variables: Option<ReadVariables>,
    i: int,
)
    requires
        0 <= i < pairs.len(),
        objection(pairs, variables, i) is Some,
    ensures
        exists|k: int| is_first_objection(pairs, variables, k),
    decreases i,
{
    if is_first_objection(pairs, variables, i) {
    } else {
        let j = choose|j: int| 0 <= j < i && objection(pairs, variables, j) is Some;
        lemma_some_first_objection(pairs, variables, j);
    }
}

/// A query string that gives the query or the variables twice makes no request.
pub proof fn repeated_parameters_are_refused(
    pairs: Seq<(Seq<char>, Seq<char>)>,
    variables: Option<ReadVariables>,
    i: int,
    j: int,
)
    requires
        0 <= i < j < pairs.len(),
        pairs[i].0 == pairs[j].0,
        pairs[j].0 == "query"@ || pairs[j].0 == "variables"@,
    ensures
        request_of_pairs(pairs, variables) is Err,
{
    assert(!is_first_of_name(pairs, j));
    lemma_some_first_objection(pairs, variables, j);
}

/// Once a parameter is objected to, the parameters after it change nothing.
pub proof fn later_parameters_change_no_objection(
    pairs: Seq<(Seq<char>, Seq<char>)>,
    later: Seq<(Seq<char>, Seq<char>)>,
    i: int,
)
    requires
        0 <= i < pairs.len(),
        objection(pairs, variables_of(pairs), i) is Some,
    ensures
        request_of_pairs(pairs + later, variables_of(pairs + later)) == request_of_pairs(
            pairs,
            variables_of(pairs),
        ),
{
    let all = pairs + later;
    let before = variables_of(pairs);
    let after = variables_of(all);
    assert forall|j: int| 0 <= j < pairs.len() implies objection(all, after, j) == #[trigger] objection(
        pairs,
        before,
        j,
    ) by {
        assert(all[j] == pairs[j]);
        assert(is_first_of_name(all, j) == is_first_of_name(pairs, j)) by {
            assert(forall|k: int| 0 <= k < j ==> all[k] == pairs[k]);
        }
        if pairs[j].0 == "variables"@ && is_first_of_name(pairs, j) {
            lemma_value_of(pairs, "variables"@, j);
            lemma_value_of(all, "variables"@, j);
        }
    }
    lemma_some_first_objection(pairs, before, i);
    let k = choose|k: int| is_first_objection(pairs, before, k);
    assert(is_first_objection(all, after, k)) by {
        assert(objection(pairs, before, k) is Some);
        assert forall|j: int| 0 <= j < k implies objection(all, after, j) is None by {
            assert(objection(pairs, before, j) is None);
        }
    }
    lemma_first_objection(pairs, before, k);
    lemma_first_objection(all, after, k);
}

/// A request that a query string makes has the value of the one `query`
/// parameter as its query, and names no operation.
pub proof fn accepted_query_is_the_only_one(
    pairs: Seq<(Seq<char>, Seq<char>)>,
    variables: Option<ReadVariables>,
    i: int,
)
    requires
        request_of_pairs(pairs, variables) is Ok,
        0 <= i < pairs.len(),
        pairs[i].0 == "query"@,
    ensures
        (request_of_pairs(pairs, variables)->Ok_0).query == pairs[i].1,
        (request_of_pairs(pairs, variables)->Ok_0).operation_name is None,
        forall|j: int| 0 <= j < pairs.len() && #[trigger] pairs[j].0 == "query"@ ==> j == i,
{
    assert forall|j: int| 0 <= j < pairs.len() && #[trigger] pairs[j].0 == "query"@ implies j == i by {
        if j < i {
            repeated_parameters_are_refused(pairs, variables, j, i);
        } else if i < j {
            repeated_parameters_are_refused(pairs, variables, i, j);
        }
    }
    assert(is_first(pairs, "query"@, i));
    lemma_value_of(pairs, "query"@, i);
}

/// A query string makes a request exactly where it gives the query once, and
/// the variables at most once and as JSON.
pub proof fn request_iff_given_once(pairs: Seq<(Seq<char>, Seq<char>)>)
    ensures
        request_of_pairs(pairs, variables_of(pairs)) is Ok <==> {
            &&& exists|i: int| 0 <= i < pairs.len() && #[trigger] pairs[i].0 == "query"@
            &&& forall|i: int, j: int|
                0 <= i < j < pairs.len() && #[trigger] pairs[i].0 == #[trigger] pairs[j].0
                    ==> pairs[i].0 != "query"@ && pairs[i].0 != "variables"@
            &&& forall|i: int|
                0 <= i < pairs.len() && #[trigger] pairs[i].0 == "variables"@ ==> input_value_of(
                    pairs[i].1,
                ) is Ok
        },
{
    let variables = variables_of(pairs);
    let once = forall|i: int, j: int|
        0 <= i < j < pairs.len() && #[trigger] pairs[i].0 == #[trigger] pairs[j].0 ==> pairs[i].0
            != "query"@ && pairs[i].0 != "variables"@;
    let read = forall|i: int|
        0 <= i < pairs.len() && #[trigger] pairs[i].0 == "variables"@ ==> input_value_of(
            pairs[i].1,
        ) is Ok;
    if request_of_pairs(pairs, variables) is Ok {
        assert forall|i: int, j: int|
            0 <= i < j < pairs.len() && #[trigger] pairs[i].0
                == #[trigger] pairs[j].0 implies pairs[i].0 != "query"@ && pairs[i].0
            != "variables"@ by {
            if pairs[i].0 == "query"@ || pairs[i].0 == "variables"@ {
                repeated_parameters_are_refused(pairs, variables, i, j);
            }
        }
        assert forall|i: int|
            0 <= i < pairs.len() && #[trigger] pairs[i].0 == "variables"@ implies input_value_of(
            pairs[i].1,
        ) is Ok by {
            assert(is_first(pairs, "variables"@, i));
            lemma_value_of(pairs, "variables"@, i);
            if input_value_of(pairs[i].1) is Err {
                assert(objection(pairs, variables, i) is Some);
                lemma_some_first_objection(pairs, variables, i);
            }
        }
        let k = choose|k: int| is_first(pairs, "query"@, k);
        assert(pairs[k].0 == "query"@);
    }
    if once && read {
        assert forall|i: int| 0 <= i < pairs.len() implies objection(pairs, variables, i) is None by {
            if pairs[i].0 == "query"@ || pairs[i].0 == "variables"@ {
                assert(is_first_of_name(pairs, i));
            }
            if pairs[i].0 == "variables"@ {
                assert(is_first(pairs, "variables"@, i));
                lemma_value_of(pairs, "variables"@, i);
            }
        }
        if exists|i: int| 0 <= i < pairs.len() && #[trigger] pairs[i].0 == "query"@ {
            let k = choose|k: int| 0 <= k < pairs.len() && #[trigger] pairs[k].0 == "query"@;
            assert(is_first(pairs, "query"@, k));
            lemma_value_of(pairs, "query"@, k);
        }
    }
}

/// A request that a query string makes has what the one `variables` parameter
/// is read as for its variables, and none where there is no such parameter.
pub proof fn accepted_variables_are_the_only_ones(pairs: Seq<(Seq<char>, Seq<char>)>)
    requires
        request_of_pairs(pairs, variables_of(pairs)) is Ok,
    ensures
        match (request_of_pairs(pairs, variables_of(pairs))->Ok_0).variables {
            Some(v) => exists|i: int|
                0 <= i < pairs.len() && #[trigger] pairs[i].0 == "variables"@ && input_value_of(
                    pairs[i].1,
                ) == Ok::<_, SerdeError>(v),
            None => forall|i: int| 0 <= i < pairs.len() ==> #[trigger] pairs[i].0 != "variables"@,
        },
{
    request_iff_given_once(pairs);
    if exists|i: int| 0 <= i < pairs.len() && #[trigger] pairs[i].0 == "variables"@ {
        let i = choose|i: int| 0 <= i < pairs.len() && #[trigger] pairs[i].0 == "variables"@;
        assert(is_first(pairs, "variables"@, i));
        lemma_value_of(pairs, "variables"@, i);
    } else {
        assert(!exists|i: int| is_first(pairs, "variables"@, i)) by {
            assert forall|i: int| !is_first(pairs, "variables"@, i) by {
                if 0 <= i < pairs.len() {
                    assert(pairs[i].0 != "variables"@);
                }
            }
        }
    }
}

/// A query makes the same request as the `query` parameter of a GET request and
/// as the body of a POST request.
pub proof fn get_and_post_agree(query: Seq<char>)
    ensures
        ({
            let pairs = seq![("query"@, query)];
            &&& request_of_pairs(pairs, variables_of(pairs)) is Ok
            &&& batch_of_graphql_body(Ok(encode_utf8(query))) == Ok::<
                GraphQLBatchRequestView,
                GraphQLRequestErrorView,
            >(
                GraphQLBatchRequestView::Single(
                    request_of_pairs(pairs, variables_of(pairs))->Ok_0,
                ),
            )
        }),
{
    let pairs = seq![("query"@, query)];
    reveal_strlit("query");
    reveal_strlit("variables");
    assert("query"@.len() != "variables"@.len());
    assert(is_first(pairs, "query"@, 0));
    lemma_value_of(pairs, "query"@, 0);
    assert(!exists|i: int| is_first(pairs, "variables"@, i));
    assert(!exists|i: int| is_first_objection(pairs, variables_of(pairs), i));
    encode_utf8_valid_utf8(query);
    encode_utf8_decode_utf8(query);
}

/// Every request that is refused is refused as a bad request or for its method,
/// in a response that pages of any origin may read.
pub proof fn refusals_are_open(
    request: RequestView,
    kind: BodyKind,
    body: Result<Seq<u8>, Seq<char>>,
)
    ensures
        step_of(request) matches ParseStepView::Refused(response) ==> {
            &&& response.headers == any_origin()
            &&& response.status == BAD_REQUEST || response.status == METHOD_NOT_ALLOWED
        },
        batch_of_body(kind, body) matches Err(response) ==> {
            &&& response.headers == any_origin()
            &&& response.status == BAD_REQUEST
        },
{
}

/// A request is refused for its method exactly where it is neither GET nor
/// POST, and no request that is handed on to the GraphQL endpoint is.
pub proof fn method_is_refused_iff_not_served(request: RequestView)
    ensures
        (step_of(request) matches ParseStepView::Refused(response) && response.status
            == METHOD_NOT_ALLOWED) <==> (request.method != Method::Get && request.method
            != Method::Post),
        action_of(request) == ActionView::Graphql ==> (step_of(request) matches ParseStepView::Refused(
            response,
        ) ==> response.status == BAD_REQUEST),
{
}

/// A WebSocket is opened only for a GET request to the GraphQL endpoint that
/// asks for one with a readable key, and each such request is answered with the
/// upgrade.
pub proof fn websocket_iff_asked(request: RequestView)
    ensures
        action_of(request) is Upgrade <==> {
            &&& request.method == Method::Get
            &&& request.path == "/graphql"@
            &&& asks_for_websocket(request)
            &&& key_of(request) is Some
        },
        action_of(request) is Abort ==> request.headers.dom().contains("sec-websocket-key"@),
{
    reveal_strlit("/");
    reveal_strlit("/playground");
    reveal_strlit("/graphql");
    assert("/"@.len() == 1 && "/playground"@.len() == 11 && "/graphql"@.len() == 8);
}

/// A request has no readable key exactly where the field is absent or the first
/// value of it holds a byte that is not visible. No WebSocket is opened for such
/// a request, and it is exactly these, of the GET requests to the GraphQL
/// endpoint that ask for one, that cannot be answered.
pub proof fn no_websocket_without_a_readable_key(request: RequestView)
    ensures
        key_of(request) is None <==> {
            ||| !request.headers.dom().contains("sec-websocket-key"@)
            ||| exists|i: int|
                0 <= i < request.headers["sec-websocket-key"@].first().len() && !is_visible(
                    #[trigger] request.headers["sec-websocket-key"@].first()[i],
                )
        },
        key_of(request) is None ==> action_of(request) !is Upgrade,
        action_of(request) is Abort <==> {
            &&& request.method == Method::Get
            &&& request.path == "/graphql"@
            &&& asks_for_websocket(request)
            &&& key_of(request) is None
        },
{
    websocket_iff_asked(request);
    reveal_strlit("/");
    reveal_strlit("/playground");
    reveal_strlit("/graphql");
    assert("/"@.len() == 1 && "/playground"@.len() == 11 && "/graphql"@.len() == 8);
}

/// An upgrade shows that the key was read whichever protocol it names, and
/// names the protocol that it is asked to.
pub proof fn upgrade_names_accept_and_protocol(accept: Seq<char>, protocol: Option<Seq<char>>)
    ensures
        upgrade_headers(accept, protocol).dom().contains("sec-websocket-accept"@),
        upgrade_headers(accept, protocol)["sec-websocket-accept"@] == seq![encode_utf8(accept)],
        upgrade_headers(accept, protocol).dom().contains("sec-websocket-protocol"@)
            == protocol is Some,
        protocol matches Some(p) ==> upgrade_headers(accept, protocol)["sec-websocket-protocol"@]
            == seq![encode_utf8(p)],
{
    reveal_strlit("connection");
    reveal_strlit("upgrade");
    reveal_strlit("sec-websocket-accept");
    reveal_strlit("sec-websocket-protocol");
    assert("connection"@.len() == 10 && "upgrade"@.len() == 7 && "sec-websocket-accept"@.len() == 20
        && "sec-websocket-protocol"@.len() == 22);
}

/// The items of two lists joined by a comma are the items of both.
pub proof fn joined_lists_list_both(first: Seq<char>, second: Seq<char>, word: Seq<char>)
    ensures
        lists_word(first + seq![','] + second, word) <==> lists_word(first, word) || lists_word(
            second,
            word,
        ),
{
    let all = first + seq![','] + second;
    let n = first.len() as int;
    assert(all[n] == ',');
    assert forall|s: int, e: int| #[trigger] is_list_item(first, s, e) implies is_list_item(all, s, e)
        && all.subrange(s, e) == first.subrange(s, e) by {
        assert(all.subrange(s, e) =~= first.subrange(s, e));
    }
    assert forall|s: int, e: int| #[trigger] is_list_item(second, s, e) implies is_list_item(
        all,
        n + 1 + s,
        n + 1 + e,
    ) && all.subrange(n + 1 + s, n + 1 + e) == second.subrange(s, e) by {
        assert(all.subrange(n + 1 + s, n + 1 + e) =~= second.subrange(s, e));
        assert forall|i: int| n + 1 + s <= i < n + 1 + e implies all[i] != ',' by {
            assert(all[i] == second[i - n - 1]);
        }
    }
    assert forall|s: int, e: int| #[trigger] is_list_item(all, s, e) implies (is_list_item(first, s, e)
        && all.subrange(s, e) == first.subrange(s, e)) || (is_list_item(second, s - n - 1, e - n - 1)
        && all.subrange(s, e) == second.subrange(s - n - 1, e - n - 1)) by {
        if s <= n {
            assert(e <= n);
            assert(all.subrange(s, e) =~= first.subrange(s, e));
            assert forall|i: int| s <= i < e implies first[i] != ',' by {
                assert(all[i] == first[i]);
            }
        } else {
            assert(all.subrange(s, e) =~= second.subrange(s - n - 1, e - n - 1));
            assert forall|i: int| s - n - 1 <= i < e - n - 1 implies second[i] != ',' by {
                assert(all[i + n + 1] == second[i]);
            }
        }
    }
    if lists_word(all, word) {
        let (s, e) = choose|s: int, e: int| #[trigger]
            is_list_item(all, s, e) && lowered(trimmed(all.subrange(s, e))) == word;
        assert(is_list_item(first, s, e) || is_list_item(second, s - n - 1, e - n - 1));
    }
    if lists_word(first, word) {
        let (s, e) = choose|s: int, e: int| #[trigger]
            is_list_item(first, s, e) && lowered(trimmed(first.subrange(s, e))) == word;
        assert(is_list_item(all, s, e));
    }
    if lists_word(second, word) {
        let (s, e) = choose|s: int, e: int| #[trigger]
            is_list_item(second, s, e) && lowered(trimmed(second.subrange(s, e))) == word;
        assert(is_list_item(all, n + 1 + s, n + 1 + e));
    }
}

/// Lower case letters have the same blanks at their ends.
proof fn lemma_trimmed_lowered(text: Seq<char>)
    ensures
        trimmed(lowered(text)) == lowered(trimmed(text)),
    decreases text.len(),
{
    let low = lowered(text);
    if text.len() > 0 {
        assert(low.first() == lower_char(text.first()));
        assert(low.last() == lower_char(text.last()));
        assert(low.drop_first() =~= lowered(text.drop_first()));
        assert(low.drop_last() =~= lowered(text.drop_last()));
        lemma_trimmed_lowered(text.drop_first());
        lemma_trimmed_lowered(text.drop_last());
    }
}

/// Which words a list has does not depend on the case of its letters.
pub proof fn case_does_not_matter(text: Seq<char>, word: Seq<char>)
    ensures
        lists_word(lowered(text), word) <==> lists_word(text, word),
{
    let low = lowered(text);
    assert forall|s: int, e: int| #[trigger] is_list_item(low, s, e) == is_list_item(text, s, e) by {
        assert(forall|i: int| 0 <= i < text.len() ==> (low[i] == ',' <==> #[trigger] text[i] == ','));
        if is_list_item(low, s, e) {
            assert(forall|i: int| s <= i < e ==> text[i] != ',');
        }
        if is_list_item(text, s, e) {
            assert(forall|i: int| s <= i < e ==> low[i] != ',');
        }
    }
    assert forall|s: int, e: int| #[trigger] is_list_item(low, s, e) implies lowered(
        trimmed(low.subrange(s, e)),
    ) == lowered(trimmed(text.subrange(s, e))) by {
        let item = text.subrange(s, e);
        assert(low.subrange(s, e) =~= lowered(item));
        lemma_trimmed_lowered(item);
        assert(lowered(lowered(trimmed(item))) =~= lowered(trimmed(item)));
    }
    if lists_word(text, word) {
        let (s, e) = choose|s: int, e: int| #[trigger]
            is_list_item(text, s, e) && lowered(trimmed(text.subrange(s, e))) == word;
        assert(is_list_item(low, s, e));
    }
    if lists_word(low, word) {
        let (s, e) = choose|s: int, e: int| #[trigger]
            is_list_item(low, s, e) && lowered(trimmed(low.subrange(s, e))) == word;
        assert(is_list_item(text, s, e));
    }
}

/// What is sent on a WebSocket as text is read from it as the same text.
pub proof fn sent_text_is_read_back(json: String)
    ensures
        Frame::Text(json).text() == Some(json@),
{
}

} // verus!
