use vstd::prelude::*;

verus! {

/// Identifier of a provider-managed session (a lobby). Opaque to this crate:
/// the external provider issues it, and it is only stored and compared for
/// equality here.
#[derive(Clone, Copy, PartialEq, Eq, Structural, Debug)]
pub struct SessionId {
    pub raw: u64,
}

/// A participant of a session, scoped to the provider. Used only to address
/// outgoing messages; never stored beyond a single send loop.
#[derive(Clone, Copy, PartialEq, Eq, Structural, Debug)]
pub struct Member {
    pub raw: u64,
}

/// Visibility asked of the provider when creating a session.
#[derive(Clone, Copy, PartialEq, Eq, Structural, Debug)]
pub enum Visibility {
    Private,
    FriendsOnly,
    Public,
    Invisible,
}

/// The coordinator's session state: either no session at all, or joined into
/// the session the provider reported.
#[derive(Clone, Copy, PartialEq, Eq, Structural, Debug)]
pub enum SessionState {
    NoSession,
    JoinedSession(SessionId),
}

} // verus!
