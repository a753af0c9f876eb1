//! What holds of requests in query strings.
use crate::json::input_value_of;
use crate::laws::{
    accepted_query_is_the_only_one, other_parameters_change_nothing, request_iff_given_once,
};
use crate::params::{
    form_pairs_of, gql_request_from_get, gql_request_from_pairs, invalid_err, is_first,
    is_first_objection, is_first_of_name, lemma_first_objection, lemma_value_of, objection,
    repeated_text, request_of_pairs, request_of_query, value_of, variables_of, ReadVariables,
};
use crate::request::{
    GraphQLRequest, GraphQLRequestError, GraphQLRequestErrorView, GraphQLRequestView,
};
use serde_json::Error as SerdeError;
use vstd::prelude::*;
use vstd::utf8::*;

verus! {

/// Whether a pair with the name of the pair at `k` stands before it.
pub open spec fn repeats(pairs: Seq<(Seq<char>, Seq<char>)>, k: int) -> bool {
    exists|j: int| 0 <= j < k && #[trigger] pairs[j].0 == pairs[k].0
}

/// Whether the pair at `k` is a fault: a second query, second variables, or
/// variables that could not be read.
pub open spec fn is_fault(
    pairs: Seq<(Seq<char>, Seq<char>)>,
    variables: Option<ReadVariables>,
    k: int,
) -> bool {
    &&& 0 <= k < pairs.len()
    &&& {
        ||| pairs[k].0 == "query"@ && repeats(pairs, k)
        ||| pairs[k].0 == "variables"@ && (repeats(pairs, k) || variables matches Some(Err(_)))
    }
}

/// The two names differ.
proof fn lemma_names()
    ensures
        "query"@ != "variables"@,
{
    reveal_strlit("query");
    reveal_strlit("variables");
    assert("query"@.len() == 5 && "variables"@.len() == 9);
}

/// There is an objection to the faults and to nothing else.
proof fn lemma_fault(
    pairs: Seq<(Seq<char>, Seq<char>)>,
    variables: Option<ReadVariables>,
    k: int,
)
    requires
        0 <= k < pairs.len(),
    ensures
        objection(pairs, variables, k) is Some <==> is_fault(pairs, variables, k),
        repeats(pairs, k) <==> !is_first_of_name(pairs, k),
{
    lemma_names();
    if repeats(pairs, k) {
        let j = choose|j: int| 0 <= j < k && #[trigger] pairs[j].0 == pairs[k].0;
        assert(pairs[j].0 == pairs[k].0);
    }
}

/// The texts that name a parameter which is given twice.
proof fn lemma_repeated_texts()
    ensures
        repeated_text("query"@) == "'query' parameter is specified multiple times"@,
        repeated_text("variables"@) == "'variables' parameter is specified multiple times"@,
{
    reveal_strlit("query");
    reveal_strlit("variables");
    reveal_strlit("'");
    reveal_strlit("' parameter is specified multiple times");
    reveal_strlit("'query' parameter is specified multiple times");
    reveal_strlit("'variables' parameter is specified multiple times");
    assert(repeated_text("query"@) =~= "'query' parameter is specified multiple times"@);
    assert(repeated_text("variables"@) =~= "'variables' parameter is specified multiple times"@);
}

/// The first fault among the pairs of a query string is what is said to be wrong
/// with it, whatever stands after it.
pub proof fn the_first_fault_is_reported(
    pairs: Seq<(Seq<char>, Seq<char>)>,
    variables: Option<ReadVariables>,
    k: int,
)
    requires
        is_fault(pairs, variables, k),
        forall|j: int| 0 <= j < k ==> !is_fault(pairs, variables, j),
    ensures
        request_of_pairs(pairs, variables) == Err::<GraphQLRequestView, GraphQLRequestErrorView>(
            if pairs[k].0 == "query"@ {
                GraphQLRequestErrorView::Invalid(
                    "'query' parameter is specified multiple times"@,
                )
            } else if repeats(pairs, k) {
                GraphQLRequestErrorView::Invalid(
                    "'variables' parameter is specified multiple times"@,
                )
            } else {
                GraphQLRequestErrorView::Variables(variables->0->Err_0)
            },
        ),
{
    lemma_names();
    lemma_repeated_texts();
    lemma_fault(pairs, variables, k);
    assert forall|j: int| 0 <= j < k implies objection(pairs, variables, j) is None by {
        lemma_fault(pairs, variables, j);
    }
    assert(is_first_objection(pairs, variables, k));
    lemma_first_objection(pairs, variables, k);
}

/// Without a fault there is no objection.
proof fn lemma_faultless(pairs: Seq<(Seq<char>, Seq<char>)>, variables: Option<ReadVariables>)
    requires
        forall|j: int| 0 <= j < pairs.len() ==> !is_fault(pairs, variables, j),
    ensures
        !exists|i: int| is_first_objection(pairs, variables, i),
{
    assert forall|i: int| !is_first_objection(pairs, variables, i) by {
        if 0 <= i < pairs.len() {
            lemma_fault(pairs, variables, i);
        }
    }
}

/// A query string without a fault makes the request with the value of its
/// `query` pair as the query, no operation name, and what its `variables` were
/// read as, if it has a pair of that name, as the variables.
pub proof fn faultless_pairs_make_their_request(
    pairs: Seq<(Seq<char>, Seq<char>)>,
    variables: Option<ReadVariables>,
    q: int,
)
    requires
        forall|j: int| 0 <= j < pairs.len() ==> !is_fault(pairs, variables, j),
        0 <= q < pairs.len(),
        pairs[q].0 == "query"@,
    ensures
        request_of_pairs(pairs, variables) matches Ok(request) && {
            &&& request.query == pairs[q].1
            &&& request.operation_name is None
            &&& (exists|i: int| 0 <= i < pairs.len() && #[trigger] pairs[i].0 == "variables"@) ==> {
                &&& variables matches Some(Ok(v)) ==> request.variables == Some(v)
                &&& variables is None ==> request.variables is None
            }
            &&& (forall|i: int| 0 <= i < pairs.len() ==> #[trigger] pairs[i].0 != "variables"@)
                ==> request.variables is None
        },
{
    lemma_names();
    lemma_faultless(pairs, variables);
    assert(!is_fault(pairs, variables, q));
    lemma_fault(pairs, variables, q);
    assert(is_first(pairs, "query"@, q));
    lemma_value_of(pairs, "query"@, q);
    if exists|i: int| 0 <= i < pairs.len() && #[trigger] pairs[i].0 == "variables"@ {
        let i = choose|i: int| 0 <= i < pairs.len() && #[trigger] pairs[i].0 == "variables"@;
        assert(!is_fault(pairs, variables, i));
        lemma_fault(pairs, variables, i);
        assert(is_first(pairs, "variables"@, i));
        lemma_value_of(pairs, "variables"@, i);
    } else {
        assert forall|i: int| !is_first(pairs, "variables"@, i) by {
            if 0 <= i < pairs.len() {
                assert(pairs[i].0 != "variables"@);
            }
        }
    }
}

/// A query string without a fault and without a query is refused for the query
/// that it does not have.
pub proof fn a_missing_query_is_reported(
    pairs: Seq<(Seq<char>, Seq<char>)>,
    variables: Option<ReadVariables>,
)
    requires
        forall|j: int| 0 <= j < pairs.len() ==> !is_fault(pairs, variables, j),
        forall|j: int| 0 <= j < pairs.len() ==> #[trigger] pairs[j].0 != "query"@,
    ensures
        request_of_pairs(pairs, variables) == Err::<GraphQLRequestView, GraphQLRequestErrorView>(
            GraphQLRequestErrorView::Invalid("'query' parameter is missing"@),
        ),
{
    lemma_faultless(pairs, variables);
    assert forall|i: int| !is_first(pairs, "query"@, i) by {
        if 0 <= i < pairs.len() {
            assert(pairs[i].0 != "query"@);
        }
    }
}

/// The variables that decide about a query string are those that its first
/// `variables` pair is read as; a query string without such a pair has none.
pub proof fn variables_come_from_the_first_pair(pairs: Seq<(Seq<char>, Seq<char>)>)
    ensures
        forall|i: int|
            0 <= i < pairs.len() && #[trigger] pairs[i].0 == "variables"@ && !repeats(pairs, i)
                ==> variables_of(pairs) == Some(input_value_of(pairs[i].1)),
        (forall|i: int| 0 <= i < pairs.len() ==> #[trigger] pairs[i].0 != "variables"@)
            <==> variables_of(pairs) is None,
{
    assert forall|i: int|
        0 <= i < pairs.len() && #[trigger] pairs[i].0 == "variables"@ && !repeats(
            pairs,
            i,
        ) implies variables_of(pairs) == Some(input_value_of(pairs[i].1)) by {
        lemma_fault(pairs, None, i);
        assert(is_first(pairs, "variables"@, i));
        lemma_value_of(pairs, "variables"@, i);
    }
    if forall|i: int| 0 <= i < pairs.len() ==> #[trigger] pairs[i].0 != "variables"@ {
        assert forall|i: int| !is_first(pairs, "variables"@, i) by {
            if 0 <= i < pairs.len() {
                assert(pairs[i].0 != "variables"@);
            }
        }
    }
    if variables_of(pairs) is None {
        assert forall|i: int| 0 <= i < pairs.len() implies #[trigger] pairs[i].0 != "variables"@ by {
            if pairs[i].0 == "variables"@ {
                let k = lemma_first_with_name(pairs, i);
                assert(is_first(pairs, "variables"@, k));
            }
        }
    }
}

/// There is a first pair of each name that occurs.
proof fn lemma_first_with_name(pairs: Seq<(Seq<char>, Seq<char>)>, i: int) -> (k: int)
    requires
        0 <= i < pairs.len(),
    ensures
        is_first(pairs, pairs[i].0, k),
    decreases i,
{
    if is_first_of_name(pairs, i) {
        i
    } else {
        let j = choose|j: int| 0 <= j < i && #[trigger] pairs[j].0 == pairs[i].0;
        lemma_first_with_name(pairs, j)
    }
}

/// A query string makes a request exactly where it gives the query once, and the
/// variables at most once and as JSON.
pub proof fn query_string_makes_a_request_iff(input: Seq<char>)
    ensures
        ({
            let pairs = form_pairs_of(encode_utf8(input));
            request_of_query(input) is Ok <==> {
                &&& exists|i: int| 0 <= i < pairs.len() && #[trigger] pairs[i].0 == "query"@
                &&& forall|i: int, j: int|
                    0 <= i < j < pairs.len() && #[trigger] pairs[i].0 == #[trigger] pairs[j].0
                        ==> pairs[i].0 != "query"@ && pairs[i].0 != "variables"@
                &&& forall|i: int|
                    0 <= i < pairs.len() && #[trigger] pairs[i].0 == "variables"@
                        ==> input_value_of(pairs[i].1) is Ok
            }
        }),
{
    request_iff_given_once(form_pairs_of(encode_utf8(input)));
}

/// A request that a query string makes has the value of its one `query` pair as
/// its query, what the value of its one `variables` pair is read as for its
/// variables, none only where no pair has that name, and no operation name,
/// whatever other pairs, `operationName` among them, stand beside these.
pub proof fn query_string_gives_query_and_variables(input: Seq<char>)
    requires
        request_of_query(input) is Ok,
    ensures
        ({
            let pairs = form_pairs_of(encode_utf8(input));
            let request = request_of_query(input)->Ok_0;
            &&& exists|i: int| 0 <= i < pairs.len() && #[trigger] pairs[i].0 == "query"@
            &&& forall|i: int|
                0 <= i < pairs.len() && #[trigger] pairs[i].0 == "query"@ ==> request.query
                    == pairs[i].1
            &&& forall|i: int|
                0 <= i < pairs.len() && #[trigger] pairs[i].0 == "variables"@ ==> (
                request.variables matches Some(v) && input_value_of(pairs[i].1) == Ok::<_, SerdeError>(
                    v,
                ))
            &&& request.variables is None <==> forall|i: int|
                0 <= i < pairs.len() ==> #[trigger] pairs[i].0 != "variables"@
            &&& request.operation_name is None
        }),
{
    let pairs = form_pairs_of(encode_utf8(input));
    let variables = variables_of(pairs);
    let request = request_of_query(input)->Ok_0;
    query_string_makes_a_request_iff(input);
    assert forall|i: int| 0 <= i < pairs.len() && #[trigger] pairs[i].0 == "query"@ implies request.query
        == pairs[i].1 by {
        accepted_query_is_the_only_one(pairs, variables, i);
    }
    assert forall|i: int| 0 <= i < pairs.len() && #[trigger] pairs[i].0 == "variables"@ implies (
    request.variables matches Some(v) && input_value_of(pairs[i].1) == Ok::<_, SerdeError>(v)) by {
        assert(is_first(pairs, "variables"@, i));
        lemma_value_of(pairs, "variables"@, i);
    }
    variables_come_from_the_first_pair(pairs);
}

/// Pairs of another name than `query` and `variables` change nothing: two query
/// strings whose pairs are the same but for one such pair, wherever it stands,
/// make the same request, or are refused for the same reason.
pub proof fn other_parameters_of_a_query_string_change_nothing(
    input: Seq<char>,
    longer: Seq<char>,
    at: int,
    pair: (Seq<char>, Seq<char>),
)
    requires
        0 <= at <= form_pairs_of(encode_utf8(input)).len(),
        form_pairs_of(encode_utf8(longer)) == form_pairs_of(encode_utf8(input)).insert(at, pair),
        pair.0 != "query"@,
        pair.0 != "variables"@,
    ensures
        request_of_query(longer) == request_of_query(input),
{
    other_parameters_change_nothing(form_pairs_of(encode_utf8(input)), at, pair);
}

/// A query string that is read as the same pairs as another makes the same
/// request, or is refused for the same reason.
pub proof fn the_pairs_of_a_query_string_decide(input: Seq<char>, other: Seq<char>)
    requires
        form_pairs_of(encode_utf8(input)) == form_pairs_of(encode_utf8(other)),
    ensures
        request_of_query(input) == request_of_query(other),
{
}

/// What is said to be wrong with a query string is its first fault: a query or
/// variables given once more, or variables that are not JSON.
pub proof fn query_string_reports_its_first_fault(input: Seq<char>, k: int)
    requires
        ({
            let pairs = form_pairs_of(encode_utf8(input));
            &&& 0 <= k < pairs.len()
            &&& {
                ||| (pairs[k].0 == "query"@ || pairs[k].0 == "variables"@) && repeats(pairs, k)
                ||| pairs[k].0 == "variables"@ && input_value_of(pairs[k].1) is Err
            }
            &&& forall|j: int|
                0 <= j < k && (pairs[j].0 == "query"@ || pairs[j].0 == "variables"@) ==> !(
                #[trigger] repeats(pairs, j)) && (pairs[j].0 == "variables"@ ==> input_value_of(
                    pairs[j].1,
                ) is Ok)
        }),
    ensures
        ({
            let pairs = form_pairs_of(encode_utf8(input));
            request_of_query(input) == Err::<GraphQLRequestView, GraphQLRequestErrorView>(
                if pairs[k].0 == "query"@ {
                    GraphQLRequestErrorView::Invalid(
                        "'query' parameter is specified multiple times"@,
                    )
                } else if repeats(pairs, k) {
                    GraphQLRequestErrorView::Invalid(
                        "'variables' parameter is specified multiple times"@,
                    )
                } else {
                    GraphQLRequestErrorView::Variables(input_value_of(pairs[k].1)->Err_0)
                },
            )
        }),
{
    let pairs = form_pairs_of(encode_utf8(input));
    let variables = variables_of(pairs);
    lemma_names();
    variables_come_from_the_first_pair(pairs);
    assert forall|j: int| 0 <= j < k implies !is_fault(pairs, variables, j) by {
        if pairs[j].0 == "query"@ || pairs[j].0 == "variables"@ {
            assert(!repeats(pairs, j));
        }
    }
    the_first_fault_is_reported(pairs, variables, k);
}

/// A query string whose pairs are all in order, but for the query that is not
/// among them, is refused for that.
pub proof fn query_string_without_query_is_refused(input: Seq<char>)
    requires
        ({
            let pairs = form_pairs_of(encode_utf8(input));
            &&& forall|j: int| 0 <= j < pairs.len() ==> #[trigger] pairs[j].0 != "query"@
            &&& forall|j: int|
                0 <= j < pairs.len() && #[trigger] pairs[j].0 == "variables"@ ==> !repeats(pairs, j)
                    && input_value_of(pairs[j].1) is Ok
        }),
    ensures
        request_of_query(input) == Err::<GraphQLRequestView, GraphQLRequestErrorView>(
            GraphQLRequestErrorView::Invalid("'query' parameter is missing"@),
        ),
{
    let pairs = form_pairs_of(encode_utf8(input));
    let variables = variables_of(pairs);
    variables_come_from_the_first_pair(pairs);
    assert forall|j: int| 0 <= j < pairs.len() implies !is_fault(pairs, variables, j) by {
        assert(pairs[j].0 != "query"@);
    }
    a_missing_query_is_reported(pairs, variables);
}

/// Reading a query string gives a request exactly where it gives the query once,
/// and the variables at most once and as JSON. The request has the value of the
/// `query` pair as its query, what the `variables` pair is read as for its
/// variables, none only where no pair has that name, and no operation name.
pub proof fn reading_a_query_string_gives_its_request(
    input: &str,
    result: Result<GraphQLRequest, GraphQLRequestError>,
)
    requires
        call_ensures(gql_request_from_get, (input,), result),
    ensures
        ({
            let pairs = form_pairs_of(encode_utf8(input@));
            &&& result is Ok <==> {
                &&& exists|i: int| 0 <= i < pairs.len() && #[trigger] pairs[i].0 == "query"@
                &&& forall|i: int, j: int|
                    0 <= i < j < pairs.len() && #[trigger] pairs[i].0 == #[trigger] pairs[j].0
                        ==> pairs[i].0 != "query"@ && pairs[i].0 != "variables"@
                &&& forall|i: int|
                    0 <= i < pairs.len() && #[trigger] pairs[i].0 == "variables"@
                        ==> input_value_of(pairs[i].1) is Ok
            }
            &&& result matches Ok(request) ==> {
                &&& forall|i: int|
                    0 <= i < pairs.len() && #[trigger] pairs[i].0 == "query"@ ==> request.query@
                        == pairs[i].1
                &&& forall|i: int|
                    0 <= i < pairs.len() && #[trigger] pairs[i].0 == "variables"@ ==> (
                    request.variables matches Some(v) && input_value_of(pairs[i].1) == Ok::<
                        _,
                        SerdeError,
                    >(v))
                &&& request.variables is None <==> forall|i: int|
                    0 <= i < pairs.len() ==> #[trigger] pairs[i].0 != "variables"@
                &&& request.operation_name is None
            }
        }),
{
    query_string_makes_a_request_iff(input@);
    if request_of_query(input@) is Ok {
        query_string_gives_query_and_variables(input@);
    }
}

/// Two readings of query strings whose pairs are the same but for one of another
/// name than `query` and `variables` come to the same: the same query and the
/// same variables, or the same error.
pub proof fn reading_passes_over_other_parameters(
    input: &str,
    longer: &str,
    at: int,
    pair: (Seq<char>, Seq<char>),
    result: Result<GraphQLRequest, GraphQLRequestError>,
    same: Result<GraphQLRequest, GraphQLRequestError>,
)
    requires
        0 <= at <= form_pairs_of(encode_utf8(input@)).len(),
        form_pairs_of(encode_utf8(longer@)) == form_pairs_of(encode_utf8(input@)).insert(at, pair),
        pair.0 != "query"@,
        pair.0 != "variables"@,
        call_ensures(gql_request_from_get, (input,), result),
        call_ensures(gql_request_from_get, (longer,), same),
    ensures
        match (result, same) {
            (Ok(a), Ok(b)) => {
                &&& a.query@ == b.query@
                &&& a.variables == b.variables
                &&& a.operation_name is None
                &&& b.operation_name is None
            },
            (Err(a), Err(b)) => a@ == b@,
            _ => false,
        },
{
    other_parameters_of_a_query_string_change_nothing(input@, longer@, at, pair);
    match (result, same) {
        (Ok(a), Ok(b)) => {
            assert(a@ == b@);
            query_string_gives_query_and_variables(input@);
            assert(a@.operation_name is None);
        },
        _ => {},
    }
}

/// A query string that is refused is refused with words that name the parameter
/// which is given twice or is missing, or with what the JSON reader said of its
/// variables, whichever comes first.
pub proof fn reading_reports_the_first_fault(
    input: &str,
    k: int,
    result: Result<GraphQLRequest, GraphQLRequestError>,
)
    requires
        call_ensures(gql_request_from_get, (input,), result),
        ({
            let pairs = form_pairs_of(encode_utf8(input@));
            &&& 0 <= k < pairs.len()
            &&& {
                ||| (pairs[k].0 == "query"@ || pairs[k].0 == "variables"@) && repeats(pairs, k)
                ||| pairs[k].0 == "variables"@ && input_value_of(pairs[k].1) is Err
            }
            &&& forall|j: int|
                0 <= j < k && (pairs[j].0 == "query"@ || pairs[j].0 == "variables"@) ==> !(
                #[trigger] repeats(pairs, j)) && (pairs[j].0 == "variables"@ ==> input_value_of(
                    pairs[j].1,
                ) is Ok)
        }),
    ensures
        ({
            let pairs = form_pairs_of(encode_utf8(input@));
            if pairs[k].0 == "query"@ {
                result matches Err(GraphQLRequestError::Invalid(text)) && text@
                    == "'query' parameter is specified multiple times"@
            } else if repeats(pairs, k) {
                result matches Err(GraphQLRequestError::Invalid(text)) && text@
                    == "'variables' parameter is specified multiple times"@
            } else {
                result matches Err(GraphQLRequestError::Variables(e)) && input_value_of(
                    pairs[k].1,
                ) matches Err(read) && e == read
            }
        }),
{
    query_string_reports_its_first_fault(input@, k);
}

/// A query string in order but for the query is refused for the query.
pub proof fn reading_reports_a_missing_query(
    input: &str,
    result: Result<GraphQLRequest, GraphQLRequestError>,
)
    requires
        call_ensures(gql_request_from_get, (input,), result),
        ({
            let pairs = form_pairs_of(encode_utf8(input@));
            &&& forall|j: int| 0 <= j < pairs.len() ==> #[trigger] pairs[j].0 != "query"@
            &&& forall|j: int|
                0 <= j < pairs.len() && #[trigger] pairs[j].0 == "variables"@ ==> !repeats(pairs, j)
                    && input_value_of(pairs[j].1) is Ok
        }),
    ensures
        result matches Err(GraphQLRequestError::Invalid(text)) && text@
            == "'query' parameter is missing"@,
{
    query_string_without_query_is_refused(input@);
}

/// Pairs without a fault make the request with the value of their `query` pair,
/// no operation name, and the variables that were read, if they were given.
pub proof fn taking_faultless_pairs_gives_their_request(
    pairs: &Vec<(String, String)>,
    variables: Option<ReadVariables>,
    q: int,
    result: Result<GraphQLRequest, GraphQLRequestError>,
)
    requires
        value_of(pairs.deep_view(), "variables"@) is Some ==> variables is Some,
        call_ensures(gql_request_from_pairs, (pairs, variables), result),
        forall|j: int| 0 <= j < pairs@.len() ==> !is_fault(pairs.deep_view(), variables, j),
        0 <= q < pairs@.len(),
        pairs@[q].0@ == "query"@,
    ensures
        result matches Ok(request) && {
            &&& request.query@ == pairs@[q].1@
            &&& request.operation_name is None
            &&& forall|i: int|
                0 <= i < pairs@.len() && #[trigger] pairs.deep_view()[i].0 == "variables"@ ==> (
                request.variables matches Some(v) && variables == Some(Ok::<_, SerdeError>(v)))
            &&& (forall|i: int|
                0 <= i < pairs@.len() ==> #[trigger] pairs.deep_view()[i].0 != "variables"@)
                ==> request.variables is None
        },
{
    let model = pairs.deep_view();
    assert(model[q] == (pairs@[q].0@, pairs@[q].1@));
    faultless_pairs_make_their_request(model, variables, q);
    let request = result->Ok_0;
    assert(request@.operation_name is None);
    assert forall|i: int| 0 <= i < pairs@.len() && #[trigger] model[i].0 == "variables"@ implies (
    request.variables matches Some(v) && variables == Some(Ok::<_, SerdeError>(v))) by {
        let k = lemma_first_with_name(model, i);
        lemma_value_of(model, "variables"@, k);
        assert(!is_fault(model, variables, i));
    }
}

/// Pairs with a fault are refused for the first one, and pairs without one for
/// the query, where it is not among them.
pub proof fn taking_faulty_pairs_reports_the_first_fault(
    pairs: &Vec<(String, String)>,
    variables: Option<ReadVariables>,
    k: int,
    result: Result<GraphQLRequest, GraphQLRequestError>,
)
    requires
        value_of(pairs.deep_view(), "variables"@) is Some ==> variables is Some,
        call_ensures(gql_request_from_pairs, (pairs, variables), result),
        0 <= k <= pairs@.len(),
        forall|j: int| 0 <= j < k ==> !is_fault(pairs.deep_view(), variables, j),
        k < pairs@.len() ==> is_fault(pairs.deep_view(), variables, k),
        k == pairs@.len() ==> forall|j: int|
            0 <= j < k ==> #[trigger] pairs.deep_view()[j].0 != "query"@,
    ensures
        if k == pairs@.len() {
            result matches Err(GraphQLRequestError::Invalid(text)) && text@
                == "'query' parameter is missing"@
        } else if pairs@[k].0@ == "query"@ {
            result matches Err(GraphQLRequestError::Invalid(text)) && text@
                == "'query' parameter is specified multiple times"@
        } else if repeats(pairs.deep_view(), k) {
            result matches Err(GraphQLRequestError::Invalid(text)) && text@
                == "'variables' parameter is specified multiple times"@
        } else {
            result matches Err(GraphQLRequestError::Variables(e)) && variables matches Some(
                Err(read),
            ) && e == read
        },
{
    let model = pairs.deep_view();
    if k == pairs@.len() {
        a_missing_query_is_reported(model, variables);
    } else {
        assert(model[k] == (pairs@[k].0@, pairs@[k].1@));
        the_first_fault_is_reported(model, variables, k);
    }
}

/// The error of a parameter that is given twice names the parameter, whatever it
/// is called.
pub proof fn a_repeated_parameter_is_named(name: &str, error: GraphQLRequestError)
    requires
        call_ensures(invalid_err, (name,), error),
    ensures
        error matches GraphQLRequestError::Invalid(text) && text@ == "'"@ + name@
            + "' parameter is specified multiple times"@,
{
}

} // verus!
