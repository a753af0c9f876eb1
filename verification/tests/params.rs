use juniper::{DefaultScalarValue, InputValue};
use taskrunner::params::{gql_request_from_get, gql_request_from_pairs, invalid_err};
use taskrunner::request::GraphQLRequestError;

fn input_value(json: &str) -> InputValue<DefaultScalarValue> {
    serde_json::from_str(json).unwrap()
}

fn refusal(input: &str) -> String {
    match gql_request_from_get(input) {
        Ok(_) => panic!("accepted: {}", input),
        Err(e) => e.message(),
    }
}

fn pair(name: &str, value: &str) -> (String, String) {
    (name.to_string(), value.to_string())
}

#[test]
fn query_is_decoded() {
    let request = gql_request_from_get("query=%7Bhello%7D+%23a").ok().unwrap();
    assert_eq!(request.query, "{hello} #a");
    assert_eq!(request.operation_name, None);
    assert!(request.variables.is_none());
}

#[test]
fn variables_are_read_as_json() {
    let request =
        gql_request_from_get("variables=%7B%22a%22%3A%5B1%2Ctrue%5D%7D&query=q").ok().unwrap();
    assert_eq!(request.query, "q");
    assert_eq!(request.variables, Some(input_value("{\"a\":[1,true]}")));
}

#[test]
fn null_variables_are_variables() {
    let request = gql_request_from_get("query=q&variables=null").ok().unwrap();
    assert_eq!(request.variables, Some(InputValue::null()));
}

#[test]
fn missing_query_is_refused() {
    assert_eq!(refusal(""), "'query' parameter is missing");
    assert_eq!(refusal("operationName=a"), "'query' parameter is missing");
    assert_eq!(refusal("Query=a"), "'query' parameter is missing");
    assert_eq!(refusal("variables=1"), "'query' parameter is missing");
}

#[test]
fn repeated_query_is_refused() {
    assert_eq!(refusal("query=a&query=a"), "'query' parameter is specified multiple times");
    assert_eq!(refusal("query=&query=b"), "'query' parameter is specified multiple times");
}

#[test]
fn repeated_variables_are_refused() {
    assert_eq!(
        refusal("query=a&variables=1&variables=1"),
        "'variables' parameter is specified multiple times"
    );
}

#[test]
fn malformed_variables_are_refused() {
    let error = serde_json::from_str::<InputValue<DefaultScalarValue>>("{").err().unwrap();
    assert_eq!(refusal("query=a&variables=%7B"), error.to_string());
    let refused = gql_request_from_get("variables=%7B").err().unwrap();
    assert!(matches!(refused, GraphQLRequestError::Variables(_)));
}

#[test]
fn first_objection_decides() {
    assert_eq!(
        refusal("query=a&query=b&variables=%7B"),
        "'query' parameter is specified multiple times"
    );
    let refused = gql_request_from_get("variables=%7B&query=a&query=b").err().unwrap();
    assert!(matches!(refused, GraphQLRequestError::Variables(_)));
    let refused = gql_request_from_get("variables=%7B&variables=1").err().unwrap();
    assert!(matches!(refused, GraphQLRequestError::Variables(_)));
}

#[test]
fn operation_name_is_read_past() {
    let request =
        gql_request_from_get("operationName=a&query=q&operationName=b&x=y").ok().unwrap();
    assert_eq!(request.query, "q");
    assert_eq!(request.operation_name, None);
}

#[test]
fn pairs_make_a_request() {
    let pairs = vec![pair("variables", "ignored here"), pair("x", ""), pair("query", "q")];
    let request = gql_request_from_pairs(&pairs, Some(Ok(input_value("{\"n\":2}")))).ok().unwrap();
    assert_eq!(request.query, "q");
    assert_eq!(request.variables, Some(input_value("{\"n\":2}")));
}

#[test]
fn pairs_without_variables_use_none() {
    let pairs = vec![pair("query", "q")];
    let request = gql_request_from_pairs(&pairs, Some(Ok(input_value("1")))).ok().unwrap();
    assert!(request.variables.is_none());
}

#[test]
fn later_parameters_rescue_nothing() {
    assert_eq!(refusal("query=a&query=b"), refusal("query=a&query=b&variables=1&query=c"));
}

#[test]
fn invalid_err_names_the_parameter() {
    assert_eq!(invalid_err("a b").message(), "'a b' parameter is specified multiple times");
}

#[test]
fn query_and_variables_are_given_once() {
    assert!(gql_request_from_get("query=a&variables=1").is_ok());
    assert!(gql_request_from_get("query=a").is_ok());
    assert!(gql_request_from_get("variables=1").is_err());
    assert!(gql_request_from_get("query=a&variables=x").is_err());
    assert!(gql_request_from_get("query=a&variables=1&variables=2").is_err());
}
