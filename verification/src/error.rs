//! The uniform error surface of the client.
//!
//! Every failure — a failed connection at start-up, a malformed call shape
//! rejected before any network interaction, or a failure reported by the
//! transport — is carried as one [`ClientError`]: a kind tag plus the
//! underlying message text, verbatim.

use vstd::prelude::*;

verus! {

/// Where a failure originated.
#[derive(Clone, Copy, Debug, PartialEq, Eq, Structural)]
pub enum ErrorKind {
    /// Authentication or the initial handshake failed at construction time.
    Connection,
    /// The call shape was rejected before any network interaction.
    InvalidArguments,
    /// The underlying transport reported a failure during an operation.
    Transport,
}

/// Mathematical model of a [`ClientError`]: its kind and its message text.
#[verifier::ext_equal]
pub struct ClientErrorView {
    pub kind: ErrorKind,
    pub message: Seq<char>,
}

/// The one externally visible error type: a kind tag and a human-readable
/// message carried verbatim from wherever the failure originated.
#[derive(Debug, Clone)]
pub struct ClientError {
    pub kind: ErrorKind,
    pub message: String,
}

impl View for ClientError {
    type V = ClientErrorView;

    open spec fn view(&self) -> ClientErrorView {
        ClientErrorView { kind: self.kind, message: self.message@ }
    }
}

/// The error produced for every call whose shape is outside the documented
/// set: kind `InvalidArguments`, with its fixed message.
pub open spec fn spec_invalid_arguments() -> ClientErrorView {
    ClientErrorView { kind: ErrorKind::InvalidArguments, message: "Invalid arguments"@ }
}

impl ClientError {
    /// The rejection issued by call-shape normalization; no request is
    /// constructed and no network call occurs when this error is returned.
    pub fn invalid_arguments() -> (e: Self)
        ensures
            e@ == spec_invalid_arguments(),
    {
        let e = ClientError {
            kind: ErrorKind::InvalidArguments,
            message: "Invalid arguments".to_owned(),
        };
        proof {
            assert(e@ =~= spec_invalid_arguments());
        }
        e
    }

    /// A construction-time failure: the connection could not be started.
    /// The message text is kept verbatim.
    pub fn connection(message: String) -> (e: Self)
        ensures
            e@.kind == ErrorKind::Connection,
            e@.message == message@,
    {
        ClientError { kind: ErrorKind::Connection, message }
    }

    /// A failure surfaced by the transport during an operation.
    /// The message text is kept verbatim.
    pub fn transport(message: String) -> (e: Self)
        ensures
            e@.kind == ErrorKind::Transport,
            e@.message == message@,
    {
        ClientError { kind: ErrorKind::Transport, message }
    }

    /// The kind tag of this error.
    pub fn kind(&self) -> (k: ErrorKind)
        ensures
            k == self@.kind,
    {
        self.kind
    }

    /// The message text of this error, as carried from its origin.
    pub fn text(&self) -> (m: String)
        ensures
            m@ == self@.message,
    {
        self.message.clone()
    }
}

} // verus!
