//! The failures that the engine reports.

use vstd::prelude::*;

verus! {

/// A payload that cannot be taken apart.
#[derive(Clone, Copy, Debug, PartialEq, Eq, Structural)]
pub enum DecodeError {
    /// The payload is not a list of `key:value` entries: an entry lacks its
    /// value, a key is empty, or a section marker is not closed.
    Malformed,
}

/// A command that cannot be put on the wire.
#[derive(Clone, Copy, Debug, PartialEq, Eq, Structural)]
pub enum EncodeError {
    /// A name among the arguments is empty or holds `/`, the byte that
    /// separates arguments, or a code does not name any member of its
    /// enumeration.
    InvalidArgument,
}

/// A decoded response that cannot be merged into the game state.
#[derive(Clone, Copy, Debug, PartialEq, Eq, Structural)]
pub enum AssembleError {
    /// A field arrived for a part of the state that has never been received
    /// as a whole.
    Inconsistent,
    /// The value of a known key does not have the shape that the key calls
    /// for.
    InvalidValue,
}

/// A request that did not reach the server, or whose answer did not arrive.
#[derive(Clone, Copy, Debug, PartialEq, Eq, Structural)]
pub enum TransportError {
    /// No answer arrived in time, or the request was cancelled.
    Timeout,
    /// The server could not be reached.
    Unreachable,
}

/// Why a call on a session failed.
#[derive(Clone, Copy, Debug, PartialEq, Eq, Structural)]
pub enum SessionError {
    /// The server no longer accepts the session's token; a new login is
    /// needed.
    Expired,
    /// The session has been closed for good.
    Closed,
    /// No login has completed yet.
    NotAuthenticated,
    /// Another request of this session is still under way.
    Busy,
    /// No request of this session is under way, so there is nothing to
    /// complete.
    Idle,
    /// The server answered with an error of its own.
    Rejected,
    /// The command could not be encoded.
    Encode(EncodeError),
    /// The transport failed.
    Transport(TransportError),
    /// The answer could not be decoded.
    Decode(DecodeError),
    /// The answer could not be merged into the game state.
    Assemble(AssembleError),
}

impl SessionError {
    /// Whether the same call may succeed if it is simply made again later.
    /// Only failures of the transport are of that kind.
    pub open spec fn retryable(self) -> bool {
        self is Transport
    }

    /// Whether the same call may succeed if it is simply made again later.
    pub fn is_retryable(&self) -> (retry: bool)
        ensures
            retry == self.retryable(),
    {
        match self {
            SessionError::Transport(_) => true,
            _ => false,
        }
    }
}

} // verus!
