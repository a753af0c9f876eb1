//! GraphQL requests, and why one cannot be read.
use crate::http::optional_text;
use crate::json::{complaint_of, json_error_text, ParsedBatch};
use crate::text::{rejected_bytes, utf8_complaint, utf8_error_text};
use juniper::DefaultScalarValue;
use juniper::InputValue;
use std::string::FromUtf8Error;
use serde_json::Error as SerdeError;
use vstd::prelude::*;

verus! {

/// One GraphQL request.
pub struct GraphQLRequest {
    pub query: String,
    pub operation_name: Option<String>,
    pub variables: Option<InputValue<DefaultScalarValue>>,
}

/// What a GraphQL request holds.
#[verifier::ext_equal]
pub struct GraphQLRequestView {
    pub query: Seq<char>,
    pub operation_name: Option<Seq<char>>,
    pub variables: Option<InputValue<DefaultScalarValue>>,
}

impl View for GraphQLRequest {
    type V = GraphQLRequestView;

    open spec fn view(&self) -> GraphQLRequestView {
        GraphQLRequestView {
            query: self.query@,
            operation_name: optional_text(self.operation_name),
            variables: self.variables,
        }
    }
}

/// What is to be executed: a request put together from its parts, or the
/// requests that were read from JSON.
pub enum GraphQLBatchRequest {
    Single(GraphQLRequest),
    Parsed(ParsedBatch),
}

/// What a batch request holds.
#[verifier::ext_equal]
pub enum GraphQLBatchRequestView {
    Single(GraphQLRequestView),
    Parsed(ParsedBatch),
}

impl View for GraphQLBatchRequest {
    type V = GraphQLBatchRequestView;

    open spec fn view(&self) -> GraphQLBatchRequestView {
        match self {
            GraphQLBatchRequest::Single(request) => GraphQLBatchRequestView::Single(request@),
            GraphQLBatchRequest::Parsed(batch) => GraphQLBatchRequestView::Parsed(*batch),
        }
    }
}

/// Why a request cannot be read.
#[derive(Debug)]
pub enum GraphQLRequestError {
    /// The body could not be received; what went wrong.
    BodyHyper(String),
    /// The body is not text.
    BodyUtf8(FromUtf8Error),
    /// The body is not a batch of requests in JSON.
    BodyJSONError(SerdeError),
    /// The variables are not JSON.
    Variables(SerdeError),
    /// The parameters are not those of a request; what is wrong with them.
    Invalid(String),
}

/// What an error holds.
#[verifier::ext_equal]
pub enum GraphQLRequestErrorView {
    BodyHyper(Seq<char>),
    BodyUtf8(Seq<u8>),
    BodyJSONError(SerdeError),
    Variables(SerdeError),
    Invalid(Seq<char>),
}

impl View for GraphQLRequestError {
    type V = GraphQLRequestErrorView;

    open spec fn view(&self) -> GraphQLRequestErrorView {
        match self {
            GraphQLRequestError::BodyHyper(text) => GraphQLRequestErrorView::BodyHyper(text@),
            GraphQLRequestError::BodyUtf8(error) => GraphQLRequestErrorView::BodyUtf8(
                rejected_bytes(*error),
            ),
            GraphQLRequestError::BodyJSONError(error) => GraphQLRequestErrorView::BodyJSONError(
                *error,
            ),
            GraphQLRequestError::Variables(error) => GraphQLRequestErrorView::Variables(*error),
            GraphQLRequestError::Invalid(text) => GraphQLRequestErrorView::Invalid(text@),
        }
    }
}

/// The error behind another.
pub enum ErrorSource<'a> {
    Hyper(&'a String),
    Utf8(&'a FromUtf8Error),
    Json(&'a SerdeError),
}

impl GraphQLRequestErrorView {
    /// What the error says. Nothing is known of what a JSON error of input or
    /// output says, which no request leads to.
    pub open spec fn message(self) -> Option<Seq<char>> {
        match self {
            GraphQLRequestErrorView::BodyHyper(text) => Some(text),
            GraphQLRequestErrorView::BodyUtf8(bytes) => Some(utf8_complaint(bytes)),
            GraphQLRequestErrorView::BodyJSONError(error) => complaint_of(error),
            GraphQLRequestErrorView::Variables(error) => complaint_of(error),
            GraphQLRequestErrorView::Invalid(text) => Some(text),
        }
    }
}

impl GraphQLRequestError {
    /// What the error says.
    pub fn message(&self) -> (text: String)
        ensures
            self@.message() matches Some(t) ==> text@ == t,
    {
        match self {
            GraphQLRequestError::BodyHyper(text) => text.clone(),
            GraphQLRequestError::BodyUtf8(error) => utf8_error_text(error),
            GraphQLRequestError::BodyJSONError(error) => json_error_text(error),
            GraphQLRequestError::Variables(error) => json_error_text(error),
            GraphQLRequestError::Invalid(text) => text.clone(),
        }
    }

    /// The error that led to this one; none led to an invalid parameter.
    pub fn source(&self) -> (source: Option<ErrorSource<'_>>)
        ensures
            source == match self {
                GraphQLRequestError::BodyHyper(text) => Some(ErrorSource::Hyper(text)),
                GraphQLRequestError::BodyUtf8(error) => Some(ErrorSource::Utf8(error)),
                GraphQLRequestError::BodyJSONError(error) => Some(ErrorSource::Json(error)),
                GraphQLRequestError::Variables(error) => Some(ErrorSource::Json(error)),
                GraphQLRequestError::Invalid(_) => None,
            },
    {
        match self {
            GraphQLRequestError::BodyHyper(text) => Some(ErrorSource::Hyper(text)),
            GraphQLRequestError::BodyUtf8(error) => Some(ErrorSource::Utf8(error)),
            GraphQLRequestError::BodyJSONError(error) => Some(ErrorSource::Json(error)),
            GraphQLRequestError::Variables(error) => Some(ErrorSource::Json(error)),
            GraphQLRequestError::Invalid(_) => None,
        }
    }
}

} // verus!
