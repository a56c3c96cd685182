use vstd::prelude::*;

verus! {

/// What can stop an operation of this library.
#[derive(Debug, Clone, Copy, PartialEq, Eq, Structural)]
pub enum MoveError {
    /// The two boundaries of a range lie in different channels.
    BoundaryNotInSameChannel,
    /// Both an explicit destination and a destination by name were given, or neither.
    AmbiguousDestination,
    /// A message-link boundary could not be parsed or resolved.
    UnresolvedLinkBoundary,
    /// The content exceeds the platform's per-message limit.
    ContentTooLong,
    /// The destination is a thread that names no parent channel.
    MissingThreadParent,
    /// An upstream call failed.
    TransportFailure,
}

impl MoveError {
    pub open spec fn spec_is_user_facing(self) -> bool {
        match self {
            MoveError::BoundaryNotInSameChannel => true,
            MoveError::AmbiguousDestination => true,
            MoveError::UnresolvedLinkBoundary => true,
            MoveError::ContentTooLong => true,
            MoveError::MissingThreadParent => false,
            MoveError::TransportFailure => false,
        }
    }

    /// Whether the error is shown to the user as it is, rather than as a generic failure.
    pub fn is_user_facing(&self) -> (r: bool)
        ensures
            r == self.spec_is_user_facing(),
    {
        match self {
            MoveError::BoundaryNotInSameChannel => true,
            MoveError::AmbiguousDestination => true,
            MoveError::UnresolvedLinkBoundary => true,
            MoveError::ContentTooLong => true,
            MoveError::MissingThreadParent => false,
            MoveError::TransportFailure => false,
        }
    }
}

} // verus!
