//! Settling transport outcomes into the uniform error surface.
//!
//! The transport reports each operation's outcome as either its declared
//! result or a failure message. These functions map that outcome onto the
//! client's one error type: a success is passed through untouched — no
//! partial results, no re-sorting, no caching — and a failure becomes a
//! `Transport` error carrying the message verbatim.

use vstd::prelude::*;

use crate::error::ClientError;
use crate::error::ErrorKind;

verus! {

/// Settle an outcome with no result value: success passes through, a
/// failure message becomes a `Transport` error carried verbatim.
pub fn settle_unit(outcome: Result<(), String>) -> (r: Result<(), ClientError>)
    ensures
        outcome is Ok ==> r is Ok,
        outcome matches Err(m) ==> (r matches Err(e) && e@.kind == ErrorKind::Transport
            && e@.message == m@),
{
    match outcome {
        Ok(()) => Ok(()),
        Err(m) => Err(ClientError::transport(m)),
    }
}

/// Settle a numeric outcome (`pop`, `count`, `flush`): the count passes
/// through unchanged, a failure message becomes a `Transport` error carried
/// verbatim.
pub fn settle_count(outcome: Result<usize, String>) -> (r: Result<usize, ClientError>)
    ensures
        outcome matches Ok(n) ==> r == Result::<usize, ClientError>::Ok(n),
        outcome matches Err(m) ==> (r matches Err(e) && e@.kind == ErrorKind::Transport
            && e@.message == m@),
{
    match outcome {
        Ok(n) => Ok(n),
        Err(m) => Err(ClientError::transport(m)),
    }
}

/// Settle an outcome carrying an ordered sequence of identifiers (`query`,
/// `suggest`): the sequence passes through in the server's order, never
/// re-sorted or truncated; a failure message becomes a `Transport` error
/// carried verbatim.
pub fn settle_items(outcome: Result<Vec<String>, String>) -> (r: Result<
    Vec<String>,
    ClientError,
>)
    ensures
        outcome matches Ok(items) ==> (r matches Ok(v) && v == items),
        outcome matches Err(m) ==> (r matches Err(e) && e@.kind == ErrorKind::Transport
            && e@.message == m@),
{
    match outcome {
        Ok(items) => Ok(items),
        Err(m) => Err(ClientError::transport(m)),
    }
}

} // verus!
