use vstd::prelude::*;
use vstd::string::StringExecFns;

use crate::error::{AppError, ClientError};

verus! {

/// The HTTP method of a request, as far as routing cares.
#[derive(Clone, Copy, Debug, PartialEq, Eq, Structural)]
pub enum Method {
    Get,
    Post,
    Other,
}

/// The handler a request goes to.
#[derive(Clone, Copy, Debug, PartialEq, Eq, Structural)]
pub enum Route {
    /// Execute the GraphQL request in the body.
    Graphql,
    /// Serve the interactive explorer page.
    Explorer,
    /// No handler; the request is rejected.
    Unmatched,
}

/// Why a request did not reach a handler or could not be executed.
#[derive(Clone, Debug)]
pub enum Rejection {
    /// The GraphQL request was malformed (query or variables); the text says
    /// why.
    BadRequest(String),
    /// Any other unhandled failure.
    Other,
}

/// A GraphQL response envelope.
#[derive(Debug)]
pub struct GraphqlReply<T> {
    pub data: Option<T>,
    pub errors: Vec<ClientError>,
}

/// The body of an HTTP reply.
#[derive(Debug)]
pub enum Body<T> {
    Graphql(GraphqlReply<T>),
    Text(String),
}

#[derive(Debug)]
pub struct HttpResponse<T> {
    pub status: u16,
    pub body: Body<T>,
}

pub const STATUS_OK: u16 = 200;

pub const STATUS_BAD_REQUEST: u16 = 400;

pub const STATUS_INTERNAL_SERVER_ERROR: u16 = 500;

/// The envelope for a resolver's result: its value as data, or its error in
/// client-visible form as the one entry of `errors`.
pub fn reply_of<T>(result: Result<T, AppError>) -> (r: GraphqlReply<T>)
    ensures
        result matches Ok(v) ==> r.data == Some(v) && r.errors@.len() == 0,
        result matches Err(e) ==> r.data is None && r.errors@ == seq![e.client_view()],
{
    match result {
        Ok(v) => GraphqlReply { data: Some(v), errors: Vec::new() },
        Err(e) => {
            let mut errors = Vec::new();
            errors.push(e.to_client());
            GraphqlReply { data: None, errors }
        },
    }
}

/// The catch-all recovery stage: a malformed request becomes 400 with the
/// rejection's text, anything else 500 with an opaque text.
pub fn recover<T>(rejection: Rejection) -> (r: HttpResponse<T>)
    ensures
        rejection matches Rejection::BadRequest(text) ==> r.status == STATUS_BAD_REQUEST
            && r.body == Body::<T>::Text(text),
        rejection matches Rejection::Other ==> r.status == STATUS_INTERNAL_SERVER_ERROR
            && (r.body matches Body::Text(t) && t@ == "INTERNAL_SERVER_ERROR"@),
{
    match rejection {
        Rejection::BadRequest(text) => HttpResponse { status: STATUS_BAD_REQUEST, body: Body::Text(text) },
        Rejection::Other => {
            let text = String::from_str("INTERNAL_SERVER_ERROR");
            proof {
                reveal_strlit("INTERNAL_SERVER_ERROR");
            }
            HttpResponse { status: STATUS_INTERNAL_SERVER_ERROR, body: Body::Text(text) }
        },
    }
}

/// The HTTP reply for a request: an executed request is 200 with an envelope
/// that holds either data or at least one error; a rejected one goes through
/// `recover`. Domain errors are never an HTTP failure.
pub fn respond<T>(outcome: Result<Result<T, AppError>, Rejection>) -> (r: HttpResponse<T>)
    ensures
        outcome is Ok ==> r.status == STATUS_OK && (r.body matches Body::Graphql(reply) && (
        reply.data is Some || reply.errors@.len() > 0)),
        outcome matches Ok(Ok(v)) ==> (r.body matches Body::Graphql(reply) && reply.data == Some(v)),
        outcome matches Ok(Err(e)) ==> (r.body matches Body::Graphql(reply) && reply.data is None
            && reply.errors@ == seq![e.client_view()]),
        outcome matches Err(Rejection::BadRequest(text)) ==> r.status == STATUS_BAD_REQUEST
            && r.body == Body::<T>::Text(text),
        outcome matches Err(Rejection::Other) ==> r.status == STATUS_INTERNAL_SERVER_ERROR,
{
    match outcome {
        Ok(result) => HttpResponse { status: STATUS_OK, body: Body::Graphql(reply_of(result)) },
        Err(rejection) => recover(rejection),
    }
}

} // verus!
