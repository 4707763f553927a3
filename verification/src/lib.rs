//! Client-side request layer for a line-oriented search-index protocol.
//!
//! The library covers everything that happens before a request reaches the
//! wire and after its outcome comes back: resolving a collection and an
//! optional bucket into a destination, resolving an optional language hint
//! into a canonical tag, reducing the several accepted calling conventions of
//! `query`, `suggest`, `push` and `pop` to one canonical request, choosing the
//! granularity of `count` and `flush` requests, and mapping every failure into
//! one uniform error type. The network transport itself lives outside this
//! crate; callers hand the canonical requests to it and feed its outcomes
//! back through the settlement functions of [`outcome`].

pub mod dest;
pub mod error;
pub mod lang;
pub mod mode;
pub mod normalize;
pub mod outcome;
pub mod requests;
