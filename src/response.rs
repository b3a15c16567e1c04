use vstd::prelude::*;
use crate::error::{is_client_kind, ErrorKind, GatewayError};
use crate::query::{check_query, finish, kind_of_step, trimmed, EngineFailure};

verus! {

/// HTTP status of a successful query.
pub const STATUS_OK: u16 = 200;

/// HTTP status of a request the gateway will not serve as it stands.
pub const STATUS_BAD_REQUEST: u16 = 400;

/// HTTP status of a failure on the backend's side.
pub const STATUS_INTERNAL_ERROR: u16 = 500;

/// The two engines behind the gateway.
#[derive(Clone, Copy, Debug, PartialEq, Eq, Structural)]
pub enum Backend {
    /// The columnar engine, reached synchronously.
    DuckDb,
    /// The row-oriented engine, reached asynchronously.
    Sqlite,
}

/// The body of an error reply: a short headline and, for backend failures,
/// the engine's message.
#[derive(Clone, Debug)]
pub struct ErrorResponse {
    pub error: String,
    pub message: Option<String>,
}

pub open spec fn status_for(k: ErrorKind) -> u16 {
    if is_client_kind(k) {
        STATUS_BAD_REQUEST
    } else {
        STATUS_INTERNAL_ERROR
    }
}

/// The headline of a backend failure, which names the engine.
pub open spec fn failure_text(b: Backend) -> Seq<char> {
    match b {
        Backend::DuckDb => "DuckDB query execution failed"@,
        Backend::Sqlite => "SQLite query execution failed"@,
    }
}

pub open spec fn error_text(b: Backend, k: ErrorKind) -> Seq<char> {
    match k {
        ErrorKind::EmptyQuery => "Empty SQL query"@,
        ErrorKind::UnexpectedResultShape => "Expected exactly one row"@,
        _ => failure_text(b),
    }
}

/// The message that an error reply carries: none for the caller's errors,
/// the engine's for the backend's.
pub open spec fn message_for(e: GatewayError) -> Option<String> {
    if is_client_kind(e.kind) {
        None
    } else {
        e.detail
    }
}

/// The reply to a failed query: 400 for an empty query or a result of the
/// wrong shape, 500 with the engine's message for everything else.
pub fn error_response(backend: Backend, e: GatewayError) -> (r: (u16, ErrorResponse))
    ensures
        r.0 == status_for(e.kind),
        r.1.error@ == error_text(backend, e.kind),
        r.1.message == message_for(e),
{
    let client = e.kind.is_client_error();
    let status = if client {
        STATUS_BAD_REQUEST
    } else {
        STATUS_INTERNAL_ERROR
    };
    let error = match e.kind {
        ErrorKind::EmptyQuery => String::from_str("Empty SQL query"),
        ErrorKind::UnexpectedResultShape => String::from_str("Expected exactly one row"),
        _ => match backend {
            Backend::DuckDb => String::from_str("DuckDB query execution failed"),
            Backend::Sqlite => String::from_str("SQLite query execution failed"),
        },
    };
    let message = if client {
        None
    } else {
        e.detail
    };
    (status, ErrorResponse { error, message })
}

/// Admits the body of a request: the trimmed SQL text to run, or the reply
/// to send at once when it is empty. No connection is taken on the way.
pub fn accept_body(backend: Backend, body: &str) -> (r: Result<String, (u16, ErrorResponse)>)
    ensures
        r is Err <==> trimmed(body@).len() == 0,
        r matches Ok(q) ==> q@ == trimmed(body@),
        r matches Err(reply) ==> reply.0 == STATUS_BAD_REQUEST && reply.1.error@ == "Empty SQL query"@
            && reply.1.message is None,
{
    match check_query(body) {
        Ok(q) => Ok(q),
        Err(e) => Err(error_response(backend, e)),
    }
}

/// Answers a request from what the backend gave: the one row-batch on
/// success, else the error reply.
pub fn answer<T>(backend: Backend, outcome: Result<Vec<T>, EngineFailure>) -> (r: Result<T, (u16, ErrorResponse)>)
    ensures
        match outcome {
            Ok(batches) => if batches@.len() == 1 {
                r == Ok::<T, (u16, ErrorResponse)>(batches@[0])
            } else {
                r matches Err(reply) && reply.0 == STATUS_BAD_REQUEST
                    && reply.1.error@ == "Expected exactly one row"@ && reply.1.message is None
            },
            Err(f) => r matches Err(reply) && reply.0 == STATUS_INTERNAL_ERROR
                && reply.1.error@ == failure_text(backend) && reply.1.message == Some(f.detail),
        },
{
    match finish(outcome) {
        Ok(batch) => Ok(batch),
        Err(e) => Err(error_response(backend, e)),
    }
}

} // verus!
