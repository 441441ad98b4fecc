//! The error vocabulary shared by every adapter and by the dispatcher.

use vstd::prelude::*;

verus! {

/// Why a dispatch did not produce a response.
#[derive(Debug, Clone, PartialEq, Eq)]
pub enum Error {
    /// A backend answered with a status other than success, or could not be
    /// reached. `message` is the backend's own message where it sent one.
    Transport { status: u16, message: String },
    /// No client is registered under this capability kind and logical name.
    NotFound { kind: String, name: String },
    /// A payload did not have the expected shape.
    Decode { message: String },
    /// A failure reported by the layer above, passed through unchanged.
    Upstream { message: String },
}

/// The status that marks a request which the transport gave up on after the
/// configured time.
pub const TIMEOUT_STATUS: u16 = 408;

impl Error {
    /// The error of a registry miss for `(kind, name)`.
    pub open spec fn is_not_found(self, kind: Seq<char>, name: Seq<char>) -> bool {
        self matches Error::NotFound { kind: k, name: n } && k@ == kind && n@ == name
    }

    /// A transport error with this status and message text.
    pub open spec fn is_transport(self, status: u16, message: Seq<char>) -> bool {
        self matches Error::Transport { status: s, message: m } && s == status && m@ == message
    }

    /// The status code that a transport error carries; `None` for the other
    /// variants.
    pub fn status(&self) -> (r: Option<u16>)
        ensures
            r == (match *self {
                Error::Transport { status, .. } => Some(status),
                _ => None,
            }),
    {
        match self {
            Error::Transport { status, .. } => Some(*status),
            _ => None,
        }
    }

    /// The error for a request that timed out at the transport.
    pub fn timeout(message: String) -> (e: Error)
        ensures
            e == (Error::Transport { status: TIMEOUT_STATUS, message: message }),
    {
        Error::Transport { status: TIMEOUT_STATUS, message }
    }
}

} // verus!
