use vstd::prelude::*;

verus! {

/// A failure the external provider reports asynchronously for a create or
/// join request.
#[derive(Clone, Copy, PartialEq, Eq, Structural, Debug)]
pub enum ProviderError {
    /// The provider did not answer the request in time.
    Timeout,
    /// The provider answered and refused the request.
    Refused,
}

/// Errors of the coordinator itself.
#[derive(Clone, Copy, PartialEq, Eq, Structural, Debug)]
pub enum SessionError {
    /// A create or join request was rejected locally: a session already
    /// exists, or a request is already in flight.
    AlreadyInSession,
    /// A broadcast was attempted with no current session.
    NoActiveSession,
    /// A failure the provider surfaced asynchronously, delivered through a
    /// `SessionFailed` notification.
    ProviderError(ProviderError),
}

/// Failure to deliver one outgoing message to one member. Collected per
/// member during a broadcast; it never aborts the batch.
#[derive(Clone, Copy, PartialEq, Eq, Structural, Debug)]
pub enum SendError {
    /// The member could not be reached.
    Unreachable,
    /// The provider rejected the message.
    Rejected,
}

} // verus!
