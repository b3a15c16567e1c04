use vstd::prelude::*;

verus! {

/// The kinds of failure that a query through the gateway can end in.
#[derive(Clone, Copy, Debug, PartialEq, Eq, Structural)]
pub enum ErrorKind {
    /// The SQL text was empty once surrounding whitespace was removed.
    EmptyQuery,
    /// No connection could be had from the pool.
    PoolExhaustedOrUnavailable,
    /// The engine refused to prepare the statement.
    QueryPreparationFailed,
    /// The statement failed while it ran.
    QueryExecutionFailed,
    /// The query produced no row-batch, or more than one.
    UnexpectedResultShape,
}

/// A failure of the gateway: its kind and, where the engine gave one, its message.
#[derive(Clone, Debug)]
pub struct GatewayError {
    pub kind: ErrorKind,
    pub detail: Option<String>,
}

/// True of the kinds that stem from the request itself rather than from the engine.
pub open spec fn is_client_kind(k: ErrorKind) -> bool {
    k == ErrorKind::EmptyQuery || k == ErrorKind::UnexpectedResultShape
}

impl ErrorKind {
    /// Whether the failure is the caller's (a bad request) rather than the backend's.
    pub fn is_client_error(self) -> (r: bool)
        ensures
            r == is_client_kind(self),
    {
        match self {
            ErrorKind::EmptyQuery => true,
            ErrorKind::UnexpectedResultShape => true,
            _ => false,
        }
    }
}

impl GatewayError {
    /// An error of the given kind with no message.
    pub fn bare(kind: ErrorKind) -> (r: GatewayError)
        ensures
            r.kind == kind,
            r.detail is None,
    {
        GatewayError { kind, detail: None }
    }

    /// An error of the given kind that carries the engine's message.
    pub fn with_detail(kind: ErrorKind, detail: String) -> (r: GatewayError)
        ensures
            r.kind == kind,
            r.detail == Some(detail),
    {
        GatewayError { kind, detail: Some(detail) }
    }
}

} // verus!
