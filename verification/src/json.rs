//! JSON as juniper's types are read from it and written to it.
use juniper::DefaultScalarValue;
use juniper::InputValue;
use serde_json::Error as SerdeError;
use vstd::prelude::*;

verus! {

/// A GraphQL input value over the scalars `S`.
#[verifier::external_type_specification]
#[verifier::external_body]
#[verifier::reject_recursive_types(S)]
pub struct ExInputValue<S>(InputValue<S>);

/// juniper's own scalars.
#[verifier::external_type_specification]
#[verifier::external_body]
pub struct ExDefaultScalarValue(DefaultScalarValue);

/// An error of reading or writing JSON.
#[verifier::external_type_specification]
#[verifier::external_body]
pub struct ExJsonError(SerdeError);

/// One or several requests as juniper reads them from JSON. juniper bounds the
/// type's scalars by a trait of its own, so the batch is held here as a whole.
#[verifier::external_body]
pub struct ParsedBatch(pub juniper::http::GraphQLBatchRequest<DefaultScalarValue>);

/// The results of one or several executed requests. juniper bounds the type's
/// scalars by a trait of its own, so the batch is held here as a whole.
#[verifier::external_body]
pub struct ExecutedBatch<'a>(pub juniper::http::GraphQLBatchResponse<'a, DefaultScalarValue>);

/// What a JSON text is as a GraphQL input value.
pub uninterp spec fn input_value_of(text: Seq<char>) -> Result<
    InputValue<DefaultScalarValue>,
    SerdeError,
>;

/// What a JSON text is as a batch of GraphQL requests.
pub uninterp spec fn batch_of(text: Seq<char>) -> Result<ParsedBatch, SerdeError>;

/// What a JSON error says, where that does not depend on the machine: `None`
/// for an error of input or output.
pub uninterp spec fn complaint_of(error: SerdeError) -> Option<Seq<char>>;

/// Whether every request of an executed batch went through.
pub uninterp spec fn all_succeeded(executed: ExecutedBatch<'_>) -> bool;

/// The indented JSON text of an executed batch.
pub uninterp spec fn pretty_json_of(executed: ExecutedBatch<'_>) -> Result<
    Seq<char>,
    SerdeError,
>;

/// A result over a string, taken by what the string holds.
pub open spec fn text_result<E>(result: Result<String, E>) -> Result<Seq<char>, E> {
    match result {
        Ok(s) => Ok(s@),
        Err(e) => Err(e),
    }
}

/// Calls `serde_json::from_str` for an input value. What comes back depends on
/// the text alone; an error is one of syntax or of data.
#[verifier::external_body]
pub(crate) fn read_input_value(text: &str) -> (value: Result<
    InputValue<DefaultScalarValue>,
    SerdeError,
>)
    ensures
        value == input_value_of(text@),
        value matches Err(e) ==> complaint_of(e) is Some,
{
    serde_json::from_str::<InputValue<DefaultScalarValue>>(text)
}

/// Calls `serde_json::from_str` for a batch of requests. What comes back
/// depends on the text alone; an error is one of syntax or of data.
#[verifier::external_body]
pub(crate) fn read_batch(text: &str) -> (batch: Result<ParsedBatch, SerdeError>)
    ensures
        batch == batch_of(text@),
        batch matches Err(e) ==> complaint_of(e) is Some,
{
    serde_json::from_str::<juniper::http::GraphQLBatchRequest<DefaultScalarValue>>(text).map(
        ParsedBatch,
    )
}

/// Calls the `Display` of `serde_json::Error`. The text depends on the error
/// alone, but for an error of input or output, of which nothing is said.
#[verifier::external_body]
pub(crate) fn json_error_text(error: &SerdeError) -> (text: String)
    ensures
        complaint_of(*error) matches Some(t) ==> text@ == t,
{
    error.to_string()
}

/// Calls `GraphQLBatchResponse::is_ok`.
#[verifier::external_body]
pub(crate) fn batch_succeeded(executed: &ExecutedBatch<'_>) -> (ok: bool)
    ensures
        ok == all_succeeded(*executed),
{
    executed.0.is_ok()
}

/// Calls `serde_json::to_string_pretty` on an executed batch.
#[verifier::external_body]
pub(crate) fn write_batch(executed: &ExecutedBatch<'_>) -> (json: Result<String, SerdeError>)
    ensures
        text_result(json) == pretty_json_of(*executed),
{
    serde_json::to_string_pretty(&executed.0)
}

} // verus!
