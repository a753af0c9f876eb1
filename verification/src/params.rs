//! A GraphQL request in the parameters of a query string.
use crate::json::{input_value_of, read_input_value};
use crate::request::{
    GraphQLRequest, GraphQLRequestError, GraphQLRequestErrorView, GraphQLRequestView,
};
use crate::text::text_equal;
use juniper::DefaultScalarValue;
use juniper::InputValue;
use url::form_urlencoded;
use serde_json::Error as SerdeError;
use vstd::prelude::*;
use vstd::string::StringExecFns;
use vstd::utf8::*;

verus! {

/// The names and values in a query string, decoded.
pub uninterp spec fn form_pairs_of(input: Seq<u8>) -> Seq<(Seq<char>, Seq<char>)>;

/// Calls `form_urlencoded::parse`: the pairs of a query string, in the order in
/// which they stand there.
#[verifier::external_body]
pub(crate) fn read_form(input: &[u8]) -> (pairs: Vec<(String, String)>)
    ensures
        pairs.deep_view() == form_pairs_of(input@),
{
    form_urlencoded::parse(input).into_owned().collect()
}

/// What a JSON text was read as.
pub type ReadVariables = Result<InputValue<DefaultScalarValue>, SerdeError>;

/// Whether the pair at `i` is the first of its name.
pub open spec fn is_first_of_name(pairs: Seq<(Seq<char>, Seq<char>)>, i: int) -> bool {
    forall|j: int| 0 <= j < i ==> #[trigger] pairs[j].0 != pairs[i].0
}

/// Whether the pair at `i` is the first with a given name.
pub open spec fn is_first(pairs: Seq<(Seq<char>, Seq<char>)>, name: Seq<char>, i: int) -> bool {
    &&& 0 <= i < pairs.len()
    &&& pairs[i].0 == name
    &&& is_first_of_name(pairs, i)
}

/// The value of the first pair with a given name.
pub open spec fn value_of(pairs: Seq<(Seq<char>, Seq<char>)>, name: Seq<char>) -> Option<Seq<char>> {
    if exists|i: int| is_first(pairs, name, i) {
        Some(pairs[choose|i: int| is_first(pairs, name, i)].1)
    } else {
        None
    }
}

/// Why the pair at `i` makes a request unreadable, if it does: a query or
/// variables are given once more, or the variables were not read.
pub open spec fn objection(
    pairs: Seq<(Seq<char>, Seq<char>)>,
    variables: Option<ReadVariables>,
    i: int,
) -> Option<GraphQLRequestErrorView> {
    if pairs[i].0 != "query"@ && pairs[i].0 != "variables"@ {
        None
    } else if !is_first_of_name(pairs, i) {
        Some(GraphQLRequestErrorView::Invalid(repeated_text(pairs[i].0)))
    } else if pairs[i].0 == "variables"@ {
        match variables {
            Some(Err(e)) => Some(GraphQLRequestErrorView::Variables(e)),
            _ => None,
        }
    } else {
        None
    }
}

/// Whether the pair at `i` is the first one to which there is an objection.
pub open spec fn is_first_objection(
    pairs: Seq<(Seq<char>, Seq<char>)>,
    variables: Option<ReadVariables>,
    i: int,
) -> bool {
    &&& 0 <= i < pairs.len()
    &&& objection(pairs, variables, i) is Some
    &&& forall|j: int| 0 <= j < i ==> objection(pairs, variables, j) is None
}

/// What is said of a parameter that is given twice.
pub open spec fn repeated_text(name: Seq<char>) -> Seq<char> {
    "'"@ + name + "' parameter is specified multiple times"@
}

/// What is said where there is no query.
pub open spec fn missing_text() -> Seq<char> {
    "'query' parameter is missing"@
}

/// The request that the pairs of a query string make, given what the first
/// `variables` among them were read as. The first objection decides; without
/// one there has to be a query. The name of an operation is not taken over.
pub open spec fn request_of_pairs(
    pairs: Seq<(Seq<char>, Seq<char>)>,
    variables: Option<ReadVariables>,
) -> Result<GraphQLRequestView, GraphQLRequestErrorView> {
    if exists|i: int| is_first_objection(pairs, variables, i) {
        Err(
            objection(
                pairs,
                variables,
                choose|i: int| is_first_objection(pairs, variables, i),
            )->0,
        )
    } else {
        match value_of(pairs, "query"@) {
            Some(query) => Ok(
                GraphQLRequestView {
                    query,
                    operation_name: None,
                    variables: match (value_of(pairs, "variables"@), variables) {
                        (Some(_), Some(Ok(v))) => Some(v),
                        _ => None,
                    },
                },
            ),
            None => Err(GraphQLRequestErrorView::Invalid(missing_text())),
        }
    }
}

/// What the first `variables` among the pairs are read as.
pub open spec fn variables_of(pairs: Seq<(Seq<char>, Seq<char>)>) -> Option<ReadVariables> {
    match value_of(pairs, "variables"@) {
        Some(text) => Some(input_value_of(text)),
        None => None,
    }
}

/// The request that a query string makes.
pub open spec fn request_of_query(input: Seq<char>) -> Result<
    GraphQLRequestView,
    GraphQLRequestErrorView,
> {
    let pairs = form_pairs_of(encode_utf8(input));
    request_of_pairs(pairs, variables_of(pairs))
}

/// A readable request or the error, taken by what they hold.
pub open spec fn request_result(
    result: Result<GraphQLRequest, GraphQLRequestError>,
) -> Result<GraphQLRequestView, GraphQLRequestErrorView> {
    match result {
        Ok(request) => Ok(request@),
        Err(error) => Err(error@),
    }
}

/// The first pair with a name is the only such pair.
pub(crate) proof fn lemma_value_of(
    pairs: Seq<(Seq<char>, Seq<char>)>,
    name: Seq<char>,
    i: int,
)
    requires
        is_first(pairs, name, i),
    ensures
        value_of(pairs, name) == Some(pairs[i].1),
{
    let k = choose|k: int| is_first(pairs, name, k);
    assert(is_first(pairs, name, k));
    assert(k == i) by {
        if k < i {
            assert(pairs[k].0 != pairs[i].0);
        } else if i < k {
            assert(pairs[i].0 != pairs[k].0);
        }
    }
}

/// The first objection decides.
pub(crate) proof fn lemma_first_objection(
    pairs: Seq<(Seq<char>, Seq<char>)>,
    variables: Option<ReadVariables>,
    i: int,
)
    requires
        is_first_objection(pairs, variables, i),
    ensures
        request_of_pairs(pairs, variables) == Err::<GraphQLRequestView, GraphQLRequestErrorView>(
            objection(pairs, variables, i)->0,
        ),
{
    let k = choose|k: int| is_first_objection(pairs, variables, k);
    assert(is_first_objection(pairs, variables, k));
    assert(k == i) by {
        if k < i {
            assert(objection(pairs, variables, k) is None);
        } else if i < k {
            assert(objection(pairs, variables, i) is None);
        }
    }
}

/// The error of a parameter that is given twice.
pub fn invalid_err(parameter_name: &str) -> (error: GraphQLRequestError)
    ensures
        error@ == GraphQLRequestErrorView::Invalid(repeated_text(parameter_name@)),
{
    let mut text = String::new();
    text.append("'");
    text.append(parameter_name);
    text.append("' parameter is specified multiple times");
    proof {
        assert(text@ =~= repeated_text(parameter_name@));
    }
    GraphQLRequestError::Invalid(text)
}

/// Makes a request of the pairs of a query string, given what the first
/// `variables` among them were read as.
pub fn gql_request_from_pairs(
    pairs: &Vec<(String, String)>,
    variables: Option<ReadVariables>,
) -> (request: Result<GraphQLRequest, GraphQLRequestError>)
    requires
        value_of(pairs.deep_view(), "variables"@) is Some ==> variables is Some,
    ensures
        request_result(request) == request_of_pairs(pairs.deep_view(), variables),
{
    let ghost model = pairs.deep_view();
    let mut unread: Option<ReadVariables> = variables;
    let mut query: Option<String> = None;
    let mut read: Option<InputValue<DefaultScalarValue>> = None;
    let mut i: usize = 0;
    proof {
        reveal_strlit("query");
        reveal_strlit("variables");
        assert("query"@.len() == 5 && "variables"@.len() == 9);
    }
    while i < pairs.len()
        invariant
            i <= pairs@.len(),
            model == pairs.deep_view(),
            "query"@ != "variables"@,
            value_of(model, "variables"@) is Some ==> variables is Some,
            forall|j: int| 0 <= j < i ==> objection(model, variables, j) is None,
            match query {
                Some(s) => exists|k: int|
                    k < i && #[trigger] is_first(model, "query"@, k) && s@ == model[k].1,
                None => forall|j: int| 0 <= j < i ==> #[trigger] model[j].0 != "query"@,
            },
            match read {
                Some(v) => variables == Some(Ok::<_, SerdeError>(v)) && exists|k: int|
                    k < i && #[trigger] is_first(model, "variables"@, k),
                None => unread == variables && forall|j: int|
                    0 <= j < i ==> #[trigger] model[j].0 != "variables"@,
            },
        decreases pairs@.len() - i,
    {
        let key = pairs[i].0.as_str();
        let value = &pairs[i].1;
        assert(model[i as int] == (key@, value@));
        if text_equal(key, "query") {
            if query.is_some() {
                proof {
                    assert(is_first_objection(model, variables, i as int));
                    lemma_first_objection(model, variables, i as int);
                }
                return Err(invalid_err("query"));
            }
            assert(is_first(model, "query"@, i as int));
            query = Some(value.clone());
        } else if text_equal(key, "variables") {
            if read.is_some() {
                proof {
                    assert(is_first_objection(model, variables, i as int));
                    lemma_first_objection(model, variables, i as int);
                }
                return Err(invalid_err("variables"));
            }
            proof {
                assert(is_first(model, "variables"@, i as int));
                lemma_value_of(model, "variables"@, i as int);
            }
            match unread.take() {
                Some(Ok(parsed_variables)) => {
                    read = Some(parsed_variables);
                },
                Some(Err(e)) => {
                    proof {
                        assert(is_first_objection(model, variables, i as int));
                        lemma_first_objection(model, variables, i as int);
                    }
                    return Err(GraphQLRequestError::Variables(e));
                },
                None => {},
            }
        }
        i += 1;
    }
    proof {
        assert(!exists|k: int| is_first_objection(model, variables, k));
        if read is Some {
            let k = choose|k: int| is_first(model, "variables"@, k);
            lemma_value_of(model, "variables"@, k);
        }
    }
    match query {
        Some(query) => {
            proof {
                let k = choose|k: int| is_first(model, "query"@, k) && query@ == model[k].1;
                lemma_value_of(model, "query"@, k);
            }
            Ok(GraphQLRequest { query, operation_name: None, variables: read })
        },
        None => Err(
            GraphQLRequestError::Invalid(String::from_str("'query' parameter is missing")),
        ),
    }
}

/// The value of the first pair with a given name.
fn find_value<'a>(pairs: &'a Vec<(String, String)>, name: &str) -> (value: Option<&'a String>)
    ensures
        match value {
            Some(v) => value_of(pairs.deep_view(), name@) == Some(v@),
            None => value_of(pairs.deep_view(), name@) is None,
        },
{
    let ghost model = pairs.deep_view();
    let mut i: usize = 0;
    while i < pairs.len()
        invariant
            i <= pairs@.len(),
            model == pairs.deep_view(),
            forall|j: int| 0 <= j < i ==> #[trigger] model[j].0 != name@,
        decreases pairs@.len() - i,
    {
        let key = pairs[i].0.as_str();
        assert(model[i as int].0 == key@);
        if text_equal(key, name) {
            proof {
                lemma_value_of(model, name@, i as int);
            }
            return Some(&pairs[i].1);
        }
        i += 1;
    }
    None
}

/// Reads a request from a query string.
pub fn gql_request_from_get(input: &str) -> (request: Result<GraphQLRequest, GraphQLRequestError>)
    ensures
        request_result(request) == request_of_query(input@),
        request matches Err(e) ==> e@.message() is Some,
{
    let pairs = read_form(input.as_bytes());
    let variables: Option<ReadVariables> = match find_value(&pairs, "variables") {
        Some(text) => Some(read_input_value(text.as_str())),
        None => None,
    };
    gql_request_from_pairs(&pairs, variables)
}

} // verus!
