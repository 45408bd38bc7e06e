use vstd::prelude::*;
use crate::bridge::{PendingResult, ResultSink, SessionBridge};
use crate::errors::{SendError, SessionError};
use crate::session::{Member, SessionId, SessionState, Visibility};

verus! {

/// Notifications surfaced to the embedding application's UI or logging
/// layers.
#[derive(Clone, Copy, PartialEq, Eq, Structural, Debug)]
pub enum Notification {
    /// A create or join request completed: the coordinator is now in this
    /// session.
    SessionJoined(SessionId),
    /// A create or join request failed at the provider; the state did not
    /// change.
    SessionFailed(SessionError),
    /// An unsolicited invitation arrived while already in a session; it was
    /// not acted on.
    InviteIgnored(SessionId),
}

/// An asynchronous create request the embedding must now issue to the
/// provider, wiring its completion callback to a `ResultSink`.
#[derive(Clone, Copy, PartialEq, Eq, Structural, Debug)]
pub struct CreateRequest {
    pub visibility: Visibility,
    pub max_members: u32,
}

/// An asynchronous join request the embedding must now issue to the
/// provider, wiring its completion callback to a `ResultSink`.
#[derive(Clone, Copy, PartialEq, Eq, Structural, Debug)]
pub struct JoinRequest {
    pub target: SessionId,
}

/// What `LobbyCoordinator::on_invite` decided.
#[derive(Clone, Copy, PartialEq, Eq, Structural, Debug)]
pub enum InviteOutcome {
    /// The invitation is acted on: the embedding must issue this join
    /// request.
    JoinRequested(JoinRequest),
    /// Already in a session: nothing was issued; the notification carried
    /// here is to be surfaced.
    Ignored(Notification),
}

/// One step of the request guard, shared by `request_create` and
/// `request_join`: the state and pending flag after the call, and whether
/// the request was accepted (a provider call is to be issued).
pub open spec fn request_transition(state: SessionState, pending: bool) -> (SessionState, bool, bool) {
    if state is NoSession && !pending {
        (state, true, true)
    } else {
        (state, pending, false)
    }
}

/// What applying one polled outcome does: the state and pending flag after,
/// and the notification emitted. A success joins that session
/// unconditionally (a result for a superseded request is still applied); a
/// failure leaves the state alone; no outcome changes nothing.
pub open spec fn outcome_step(state: SessionState, pending: bool, outcome: Option<PendingResult>) -> (SessionState, bool, Option<Notification>) {
    match outcome {
        Option::None => (state, pending, Option::<Notification>::None),
        Option::Some(Result::Ok(id)) => (
            SessionState::JoinedSession(id),
            false,
            Option::Some(Notification::SessionJoined(id)),
        ),
        Option::Some(Result::Err(e)) => (
            state,
            false,
            Option::Some(Notification::SessionFailed(SessionError::ProviderError(e))),
        ),
    }
}

/// The members a broadcast addresses: every listed member except `me`, in
/// list order.
pub open spec fn targets_of(members: Seq<Member>, me: Member) -> Seq<Member>
    decreases members.len(),
{
    if members.len() == 0 {
        Seq::empty()
    } else {
        let rest = targets_of(members.drop_last(), me);
        if members.last() == me {
            rest
        } else {
            rest.push(members.last())
        }
    }
}

/// The state and pending flag after `k` consecutive request steps
/// (`request_create` or `request_join` calls) from the given start, with no
/// poll in between.
pub open spec fn after_requests(state: SessionState, pending: bool, k: nat) -> (SessionState, bool)
    decreases k,
{
    if k == 0 {
        (state, pending)
    } else {
        let prev = after_requests(state, pending, (k - 1) as nat);
        let t = request_transition(prev.0, prev.1);
        (t.0, t.1)
    }
}

/// Law: in any run of create or join requests begun with no session and no
/// request in flight, exactly the first request is accepted; every later
/// one, made before a result is polled, is refused.
pub proof fn lemma_one_request_accepted(state: SessionState, pending: bool, k: nat)
    requires
        state is NoSession,
        !pending,
    ensures
        request_transition(state, pending).2,
        k >= 1 ==> after_requests(state, pending, k) == (state, true),
        k >= 1 ==> !request_transition(
            after_requests(state, pending, k).0,
            after_requests(state, pending, k).1,
        ).2,
    decreases k,
{
    if k >= 1 {
        if k == 1 {
            assert(after_requests(state, pending, 0) == (state, pending));
        } else {
            lemma_one_request_accepted(state, pending, (k - 1) as nat);
        }
    }
}

/// Law: a poll that finds nothing in the bridge is a no-op, however often
/// it is repeated: the state and the pending flag keep their values and no
/// notification is emitted.
pub proof fn lemma_empty_poll_no_op(state: SessionState, pending: bool)
    ensures
        outcome_step(state, pending, Option::None) == (
            state,
            pending,
            Option::<Notification>::None,
        ),
{
}

/// Law: there is no transition out of a session. Once joined, a request
/// step leaves the state exactly as it is, and every polled outcome leaves
/// the coordinator in some session.
pub proof fn lemma_no_exit_from_session(
    state: SessionState,
    pending: bool,
    outcome: Option<PendingResult>,
)
    requires
        state is JoinedSession,
    ensures
        request_transition(state, pending).0 == state,
        outcome_step(state, pending, outcome).0 is JoinedSession,
{
}

/// Law: one polled outcome makes at most one transition, and never back to
/// `NoSession`: the state is either left unchanged or set to the session the
/// outcome reported.
pub proof fn lemma_poll_makes_at_most_one_transition(
    state: SessionState,
    pending: bool,
    outcome: Option<PendingResult>,
)
    ensures
        outcome_step(state, pending, outcome).0 == state || (outcome matches Some(Ok(id))
            && outcome_step(state, pending, outcome).0 == SessionState::JoinedSession(id)),
{
}

/// Owns the session lifecycle: issues create and join requests (as commands
/// the embedding performs against the provider), drains the bridge once per
/// tick, and reacts to unsolicited invitations.
pub struct LobbyCoordinator {
    state: SessionState,
    pending: bool,
    bridge: SessionBridge,
}

impl LobbyCoordinator {
    /// The current session state.
    pub closed spec fn session(&self) -> SessionState {
        self.state
    }

    /// Whether a create or join request is in flight: issued, and not yet
    /// resolved by a polled outcome.
    pub closed spec fn request_pending(&self) -> bool {
        self.pending
    }

    /// A coordinator with no session, no request in flight, and a fresh,
    /// empty bridge.
    pub fn new() -> (c: LobbyCoordinator)
        ensures
            c.session() is NoSession,
            !c.request_pending(),
    {
        LobbyCoordinator {
            state: SessionState::NoSession,
            pending: false,
            bridge: SessionBridge::new(),
        }
    }

    /// A producer handle for provider completion callbacks: whatever they
    /// deposit in it is consumed by a later `poll`.
    pub fn sink(&self) -> ResultSink {
        self.bridge.sink()
    }

    /// The current state, for the embedding application.
    pub fn current_session(&self) -> (s: SessionState)
        ensures
            s == self.session(),
    {
        self.state
    }

    /// Ask to create a session. Accepted only with no session and no request
    /// in flight; the accepted request is returned as a command the
    /// embedding must issue to the provider. No state transition happens
    /// until the result is polled.
    pub fn request_create(&mut self, visibility: Visibility, max_members: u32) -> (r: Result<
        CreateRequest,
        SessionError,
    >)
        ensures
            (final(self).session(), final(self).request_pending(), r is Ok)
                == request_transition(old(self).session(), old(self).request_pending()),
            r is Ok ==> r == Ok::<CreateRequest, SessionError>(
                CreateRequest { visibility, max_members },
            ),
            r is Err ==> r == Err::<CreateRequest, SessionError>(SessionError::AlreadyInSession),
    {
        if matches!(self.state, SessionState::NoSession) && !self.pending {
            self.pending = true;
            Ok(CreateRequest { visibility, max_members })
        } else {
            Err(SessionError::AlreadyInSession)
        }
    }

    /// Ask to join the given session. Same guard and same shape as
    /// `request_create`.
    pub fn request_join(&mut self, target: SessionId) -> (r: Result<JoinRequest, SessionError>)
        ensures
            (final(self).session(), final(self).request_pending(), r is Ok)
                == request_transition(old(self).session(), old(self).request_pending()),
            r is Ok ==> r == Ok::<JoinRequest, SessionError>(JoinRequest { target }),
            r is Err ==> r == Err::<JoinRequest, SessionError>(SessionError::AlreadyInSession),
    {
        if matches!(self.state, SessionState::NoSession) && !self.pending {
            self.pending = true;
            Ok(JoinRequest { target })
        } else {
            Err(SessionError::AlreadyInSession)
        }
    }

    /// React to an unsolicited join invitation from the provider. With no
    /// session it is always acted on, even with a request already in flight
    /// (an accepted invite supersedes the local "no session" assumption);
    /// while in a session it is ignored and `InviteIgnored` is emitted.
    pub fn on_invite(&mut self, target: SessionId) -> (r: InviteOutcome)
        ensures
            old(self).session() is NoSession ==> (
                r == InviteOutcome::JoinRequested(JoinRequest { target })
                && final(self).session() == old(self).session()
                && final(self).request_pending()
            ),
            old(self).session() is JoinedSession ==> (
                r == InviteOutcome::Ignored(Notification::InviteIgnored(target))
                && *final(self) == *old(self)
            ),
    {
        match self.state {
            SessionState::NoSession => {
                self.pending = true;
                InviteOutcome::JoinRequested(JoinRequest { target })
            },
            SessionState::JoinedSession(_) => InviteOutcome::Ignored(
                Notification::InviteIgnored(target),
            ),
        }
    }

    /// Apply one completion outcome, as `outcome_step` says: this is the
    /// whole effect of a poll, verified for every possible outcome the
    /// bridge can hand back.
    pub fn apply_outcome(&mut self, outcome: Option<PendingResult>) -> (n: Option<Notification>)
        ensures
            (final(self).session(), final(self).request_pending(), n)
                == outcome_step(old(self).session(), old(self).request_pending(), outcome),
    {
        match outcome {
            None => None,
            Some(Ok(id)) => {
                self.state = SessionState::JoinedSession(id);
                self.pending = false;
                Some(Notification::SessionJoined(id))
            },
            Some(Err(e)) => {
                self.pending = false;
                Some(Notification::SessionFailed(SessionError::ProviderError(e)))
            },
        }
    }

    /// Drain at most one completion result from the bridge and apply it.
    /// To be called once per application tick, from the polling thread only;
    /// it never blocks. At most one state transition happens per call.
    pub fn poll(&mut self) -> (n: Option<Notification>)
        ensures
            n is None ==> final(self).session() == old(self).session()
                && final(self).request_pending() == old(self).request_pending(),
            n matches Some(Notification::SessionJoined(id)) ==> final(self).session()
                == SessionState::JoinedSession(id) && !final(self).request_pending(),
            n matches Some(Notification::SessionFailed(e)) ==> final(self).session()
                == old(self).session() && !final(self).request_pending() && e is ProviderError,
            !(n matches Some(Notification::InviteIgnored(_))),
    {
        let taken = self.bridge.try_take();
        self.apply_outcome(taken)
    }

    /// Best-effort reliable broadcast to every other member of the current
    /// session.
    ///
    /// `members` is the provider's member list for the current session and
    /// `me` the local member; the provider send itself is performed by
    /// `send`, called once per member other than `me`, in list order, with
    /// `payload`. A member's send failure never aborts the batch: the
    /// returned vector reports one outcome per addressed member. The whole
    /// call fails only with no current session, and then performs no send.
    pub fn broadcast<F: Fn(Member, &Vec<u8>) -> Result<(), SendError>>(
        &self,
        payload: &Vec<u8>,
        members: &Vec<Member>,
        me: Member,
        send: F,
    ) -> (r: Result<Vec<(Member, Result<(), SendError>)>, SessionError>)
        requires
            forall|i: int| 0 <= i < members@.len() ==> call_requires(send, (members@[i], payload)),
        ensures
            self.session() is NoSession ==> r == Err::<
                Vec<(Member, Result<(), SendError>)>,
                SessionError,
            >(SessionError::NoActiveSession),
            self.session() is JoinedSession ==> r is Ok,
            r matches Ok(out) ==> {
                &&& out@.map_values(|p: (Member, Result<(), SendError>)| p.0)
                    == targets_of(members@, me)
                &&& forall|i: int| #![trigger out@[i]]
                    0 <= i < out@.len() ==> call_ensures(send, (out@[i].0, payload), out@[i].1)
            },
    {
        match self.state {
            SessionState::NoSession => Err(SessionError::NoActiveSession),
            SessionState::JoinedSession(_) => {
                let mut out: Vec<(Member, Result<(), SendError>)> = Vec::new();
                let mut j: usize = 0;
                while j < members.len()
                    invariant
                        j <= members@.len(),
                        forall|i: int|
                            0 <= i < members@.len() ==> call_requires(send, (members@[i], payload)),
                        out@.map_values(|p: (Member, Result<(), SendError>)| p.0)
                            == targets_of(members@.take(j as int), me),
                        forall|i: int| #![trigger out@[i]]
                            0 <= i < out@.len() ==> call_ensures(
                                send,
                                (out@[i].0, payload),
                                out@[i].1,
                            ),
                    decreases members@.len() - j,
                {
                    let m = members[j];
                    let ghost prefix = members@.take(j as int);
                    if m == me {
                        proof {
                            assert(members@.take(j + 1).drop_last() =~= prefix);
                            assert(members@.take(j + 1).last() == m);
                        }
                    } else {
                        let res = send(m, payload);
                        let ghost out_before = out@;
                        out.push((m, res));
                        proof {
                            assert(members@.take(j + 1).drop_last() =~= prefix);
                            assert(members@.take(j + 1).last() == m);
                            assert(out@.map_values(|p: (Member, Result<(), SendError>)| p.0)
                                =~= out_before.map_values(
                                |p: (Member, Result<(), SendError>)| p.0,
                            ).push(m));
                        }
                    }
                    j += 1;
                }
                proof {
                    assert(members@.take(members@.len() as int) =~= members@);
                }
                Ok(out)
            },
        }
    }
}

} // verus!
