use vstd::prelude::*;
use crate::error::{ErrorKind, GatewayError};

verus! {

/// What remains of a string once leading and trailing whitespace is removed.
pub uninterp spec fn trimmed(s: Seq<char>) -> Seq<char>;

/// Relies on str::trim: the slice without its leading and trailing whitespace,
/// which depends on the characters alone.
#[verifier::external_body]
fn trim_str(s: &str) -> (r: &str)
    ensures
        r@ == trimmed(s@),
{
    s.trim()
}

/// Admits a query: the SQL text without surrounding whitespace, or
/// `EmptyQuery` when nothing is left. This runs before any pool is touched,
/// so a rejected query never takes a connection.
pub fn check_query(sql: &str) -> (r: Result<String, GatewayError>)
    ensures
        r is Err <==> trimmed(sql@).len() == 0,
        r matches Ok(q) ==> q@ == trimmed(sql@),
        r matches Err(e) ==> e.kind == ErrorKind::EmptyQuery && e.detail is None,
{
    let t = trim_str(sql);
    if t.unicode_len() == 0 {
        Err(GatewayError::bare(ErrorKind::EmptyQuery))
    } else {
        Ok(String::from_str(t))
    }
}

/// The step of a query run at which the engine or its pool failed.
#[derive(Clone, Copy, Debug, PartialEq, Eq, Structural)]
pub enum Step {
    Acquire,
    Prepare,
    Execute,
}

/// A failure reported by a backend, with the step it came at and its message.
#[derive(Clone, Debug)]
pub struct EngineFailure {
    pub step: Step,
    pub detail: String,
}

/// The gateway's error kind for a failure at each step.
pub open spec fn kind_of_step(s: Step) -> ErrorKind {
    match s {
        Step::Acquire => ErrorKind::PoolExhaustedOrUnavailable,
        Step::Prepare => ErrorKind::QueryPreparationFailed,
        Step::Execute => ErrorKind::QueryExecutionFailed,
    }
}

/// Maps a backend failure to the gateway's error, keeping the engine's message.
pub fn classify(f: EngineFailure) -> (r: GatewayError)
    ensures
        r.kind == kind_of_step(f.step),
        r.detail == Some(f.detail),
{
    let kind = match f.step {
        Step::Acquire => ErrorKind::PoolExhaustedOrUnavailable,
        Step::Prepare => ErrorKind::QueryPreparationFailed,
        Step::Execute => ErrorKind::QueryExecutionFailed,
    };
    GatewayError::with_detail(kind, f.detail)
}

/// The text that a failure's message opens with, one for each step.
pub open spec fn step_prefix(s: Step) -> Seq<char> {
    match s {
        Step::Acquire => "Failed to get connection from pool: "@,
        Step::Prepare => "Failed to prepare statement: "@,
        Step::Execute => "Failed to collect results: "@,
    }
}

/// A failure at `step` whose message is the step's prefix followed by the
/// engine's own text.
pub fn failure_at(step: Step, text: &str) -> (r: EngineFailure)
    ensures
        r.step == step,
        r.detail@ == step_prefix(step) + text@,
{
    let prefix = match step {
        Step::Acquire => String::from_str("Failed to get connection from pool: "),
        Step::Prepare => String::from_str("Failed to prepare statement: "),
        Step::Execute => String::from_str("Failed to collect results: "),
    };
    EngineFailure { step, detail: prefix.concat(text) }
}

/// Normalizes what a backend run gave: the one row-batch it produced, untouched;
/// `UnexpectedResultShape` when it produced none or several; the classified
/// failure when it failed.
pub fn finish<T>(outcome: Result<Vec<T>, EngineFailure>) -> (r: Result<T, GatewayError>)
    ensures
        match outcome {
            Ok(batches) => if batches@.len() == 1 {
                r == Ok::<T, GatewayError>(batches@[0])
            } else {
                r matches Err(e) && e.kind == ErrorKind::UnexpectedResultShape && e.detail is None
            },
            Err(f) => r matches Err(e) && e.kind == kind_of_step(f.step) && e.detail == Some(f.detail),
        },
{
    match outcome {
        Ok(mut batches) => {
            if batches.len() == 1 {
                Ok(batches.remove(0))
            } else {
                Err(GatewayError::bare(ErrorKind::UnexpectedResultShape))
            }
        },
        Err(f) => Err(classify(f)),
    }
}

} // verus!
