//! The session directory: the set of currently connected clients, each with
//! its role, its subscription flag and its outbound handle, with
//! point-to-point send and subscriber broadcast. Delivery on an outbound
//! handle is fire-and-forget: the directory does not retry and does not
//! block, and a failure towards one subscriber never blocks delivery to the
//! others.

use vstd::prelude::*;

use tokio::sync::mpsc::UnboundedSender;

use crate::protocol::{ClientId, Output, UserType};

verus! {

broadcast use vstd::seq_lib::lemma_seq_contains_after_push;

#[verifier::external_type_specification]
#[verifier::external_body]
#[verifier::reject_recursive_types(T)]
pub struct ExUnboundedSender<T>(UnboundedSender<T>);

/// Relies on tokio's `UnboundedSender::send`: it queues the message for the
/// receiving half without blocking and returns `Err` exactly when the
/// receiver has been closed or dropped. Whether the peer is still there
/// depends on runtime state, so nothing is promised of the outcome.
#[verifier::external_body]
fn send_to_client(sender: &UnboundedSender<Output>, output: Output) -> bool {
    sender.send(output).is_ok()
}

/// One live connection's server-side state.
pub struct Session {
    pub client_id: ClientId,
    pub client_sender: UnboundedSender<Output>,
    pub user_type: Option<UserType>,
    pub subscribed: bool,
}

/// Mathematical value of a session: the outbound handle is opaque and is not
/// part of the model.
pub ghost struct SessionV {
    pub client_id: ClientId,
    pub user_type: Option<UserType>,
    pub subscribed: bool,
}

impl View for Session {
    type V = SessionV;

    open spec fn view(&self) -> SessionV {
        SessionV {
            client_id: self.client_id,
            user_type: self.user_type,
            subscribed: self.subscribed,
        }
    }
}

/// Whether some session in the directory belongs to the given client.
pub open spec fn has_client(s: Seq<SessionV>, client_id: ClientId) -> bool {
    exists|i: int| 0 <= i < s.len() && s[i].client_id == client_id
}

/// The index of the given client's session; meaningful only when
/// `has_client` holds (the directory keeps client ids unique, so it is then
/// the one index carrying the id).
pub open spec fn client_index(s: Seq<SessionV>, client_id: ClientId) -> int {
    choose|i: int| 0 <= i < s.len() && s[i].client_id == client_id
}

/// Directory well-formedness: one session per client id.
pub open spec fn sessions_wf(s: Seq<SessionV>) -> bool {
    forall|i: int, j: int| 0 <= i < j < s.len() ==> s[i].client_id != s[j].client_id
}

/// Whether the given client is subscribed to broadcast events.
pub open spec fn subscribed_client(s: Seq<SessionV>, client_id: ClientId) -> bool {
    exists|i: int| 0 <= i < s.len() && s[i].client_id == client_id && s[i].subscribed
}

/// What registering a client does: a fresh session with no role and the
/// subscription off, silently overwriting any session under the same id.
pub open spec fn add_session_spec(s: Seq<SessionV>, client_id: ClientId) -> Seq<SessionV> {
    let fresh = SessionV { client_id, user_type: None, subscribed: false };
    if has_client(s, client_id) {
        s.update(client_index(s, client_id), fresh)
    } else {
        s.push(fresh)
    }
}

/// What deregistering a client does; deregistering an absent id is not an
/// error and changes nothing.
pub open spec fn remove_session_spec(s: Seq<SessionV>, client_id: ClientId) -> Seq<SessionV> {
    if has_client(s, client_id) {
        s.remove(client_index(s, client_id))
    } else {
        s
    }
}

/// What writing a client's role does to the directory.
pub open spec fn write_user_type_spec(
    s: Seq<SessionV>,
    client_id: ClientId,
    user_type: Option<UserType>,
) -> Seq<SessionV> {
    if has_client(s, client_id) {
        let i = client_index(s, client_id);
        s.update(i, SessionV { user_type, ..s[i] })
    } else {
        s
    }
}

/// What writing a client's subscription flag does to the directory.
pub open spec fn write_subscribed_spec(
    s: Seq<SessionV>,
    client_id: ClientId,
    subscribed: bool,
) -> Seq<SessionV> {
    if has_client(s, client_id) {
        let i = client_index(s, client_id);
        s.update(i, SessionV { subscribed, ..s[i] })
    } else {
        s
    }
}

/// Typed failure of a directory operation.
#[derive(Clone, Copy, Debug, Eq, PartialEq, Structural)]
pub enum SessionError {
    /// The client is not (or no longer) registered.
    NoSuchSession { id: ClientId },
    /// The client's outbound handle refused the message: the peer has
    /// already torn the connection down on its end.
    SendFailed,
}

/// The partition of the subscribers a broadcast was attempted towards, by
/// delivery outcome.
#[derive(Debug)]
pub struct BroadcastResult {
    pub success_client_ids: Vec<ClientId>,
    pub failure_client_ids: Vec<ClientId>,
}

impl BroadcastResult {
    pub fn new() -> (r: Self)
        ensures
            r.success_client_ids@ == Seq::<ClientId>::empty(),
            r.failure_client_ids@ == Seq::<ClientId>::empty(),
    {
        BroadcastResult { success_client_ids: Vec::new(), failure_client_ids: Vec::new() }
    }
}

/// The directory of currently connected client sessions.
pub struct Sessions {
    sessions: Vec<Session>,
}

impl View for Sessions {
    type V = Seq<SessionV>;

    closed spec fn view(&self) -> Seq<SessionV> {
        self.sessions@.map_values(|s: Session| s@)
    }
}

impl Sessions {
    /// Directory well-formedness: one session per client id.
    pub open spec fn wf(&self) -> bool {
        sessions_wf(self@)
    }

    /// The empty directory.
    pub fn new() -> (r: Self)
        ensures
            r@ == Seq::<SessionV>::empty(),
            r.wf(),
    {
        let r = Sessions { sessions: Vec::new() };
        proof {
            assert(r@ =~= Seq::<SessionV>::empty());
        }
        r
    }

    /// The index of the given client's session, or `None` if the client is
    /// not registered.
    fn find_session(&self, client_id: ClientId) -> (r: Option<usize>)
        ensures
            match r {
                Some(i) => i < self@.len() && self@[i as int].client_id == client_id,
                None => !has_client(self@, client_id),
            },
    {
        let mut i: usize = 0;
        while i < self.sessions.len()
            invariant
                i <= self.sessions@.len(),
                self@.len() == self.sessions@.len(),
                forall|j: int| 0 <= j < i ==> (#[trigger] self@[j]).client_id != client_id,
            decreases self.sessions@.len() - i,
        {
            if self.sessions[i].client_id.0 == client_id.0 {
                return Some(i);
            }
            i = i + 1;
        }
        None
    }

    /// Registers a new session for the client, with no role and the
    /// subscription off; an existing session under the same id is silently
    /// overwritten.
    pub fn add(&mut self, client_id: ClientId, client_sender: UnboundedSender<Output>)
        requires
            old(self).wf(),
        ensures
            final(self).wf(),
            final(self)@ == add_session_spec(old(self)@, client_id),
    {
        let fresh = Session { client_id, client_sender, user_type: None, subscribed: false };
        let ghost s0 = self@;
        match self.find_session(client_id) {
            Some(index) => {
                proof {
                    lemma_client_index_is(s0, client_id, index as int);
                }
                self.sessions.remove(index);
                self.sessions.insert(index, fresh);
                proof {
                    assert(self@ =~= add_session_spec(s0, client_id));
                }
            },
            None => {
                self.sessions.push(fresh);
                proof {
                    assert(self@ =~= add_session_spec(s0, client_id));
                }
            },
        }
    }

    /// Deletes the client's session; idempotent, removing an absent id is
    /// not an error.
    pub fn remove(&mut self, client_id: ClientId)
        requires
            old(self).wf(),
        ensures
            final(self).wf(),
            final(self)@ == remove_session_spec(old(self)@, client_id),
    {
        let ghost s0 = self@;
        match self.find_session(client_id) {
            Some(index) => {
                proof {
                    lemma_client_index_is(s0, client_id, index as int);
                }
                self.sessions.remove(index);
                proof {
                    assert(self@ =~= remove_session_spec(s0, client_id));
                }
            },
            None => {},
        }
    }

    /// Forwards the message on the client's outbound handle. Fails with
    /// `NoSuchSession` exactly when the client is not registered, and with
    /// `SendFailed` when the handle's delivery fails; the directory itself
    /// is never changed.
    pub fn send(&self, client_id: ClientId, output: Output) -> (r: Result<(), SessionError>)
        ensures
            !has_client(self@, client_id) <==> r == Err::<(), SessionError>(
                SessionError::NoSuchSession { id: client_id },
            ),
            has_client(self@, client_id) ==> r is Ok || r == Err::<(), SessionError>(
                SessionError::SendFailed,
            ),
    {
        match self.find_session(client_id) {
            Some(index) => {
                if send_to_client(&self.sessions[index].client_sender, output) {
                    Ok(())
                } else {
                    Err(SessionError::SendFailed)
                }
            },
            None => Err(SessionError::NoSuchSession { id: client_id }),
        }
    }

    /// Attempts delivery to every subscribed session, each independently,
    /// and partitions the subscribers by outcome: together the two sides of
    /// the result name exactly the subscribed clients, no client appears on
    /// both sides, and no side names a client twice. Sessions with the
    /// subscription off are not contacted.
    pub fn broadcast(&self, output: Output) -> (r: BroadcastResult)
        requires
            self.wf(),
        ensures
            forall|c: ClientId| #[trigger]
                subscribed_client(self@, c) <==> (r.success_client_ids@.contains(c)
                    || r.failure_client_ids@.contains(c)),
            forall|c: ClientId| #![auto]
                !(r.success_client_ids@.contains(c) && r.failure_client_ids@.contains(c)),
            r.success_client_ids@.no_duplicates(),
            r.failure_client_ids@.no_duplicates(),
    {
        let mut result = BroadcastResult::new();
        let mut k: usize = 0;
        while k < self.sessions.len()
            invariant
                self.wf(),
                k <= self.sessions@.len(),
                self@.len() == self.sessions@.len(),
                forall|c: ClientId| #![auto]
                    (result.success_client_ids@.contains(c)
                        || result.failure_client_ids@.contains(c)) <==> exists|i: int|
                        0 <= i < k && self@[i].client_id == c && self@[i].subscribed,
                forall|c: ClientId| #![auto]
                    !(result.success_client_ids@.contains(c)
                        && result.failure_client_ids@.contains(c)),
                result.success_client_ids@.no_duplicates(),
                result.failure_client_ids@.no_duplicates(),
            decreases self.sessions@.len() - k,
        {
            let session = &self.sessions[k];
            if session.subscribed {
                let ghost c = session.client_id;
                let ghost succ0 = result.success_client_ids@;
                let ghost fail0 = result.failure_client_ids@;
                proof {
                    assert(forall|i: int|
                        0 <= i < self@.len() && i != k ==> (#[trigger] self@[i]).client_id
                            != self@[k as int].client_id);
                    assert(!succ0.contains(c) && !fail0.contains(c)) by {
                        if succ0.contains(c) || fail0.contains(c) {
                            let i = choose|i: int|
                                0 <= i < k && self@[i].client_id == c && self@[i].subscribed;
                            assert(self@[i].client_id == self@[k as int].client_id);
                        }
                    }
                    assert(forall|i: int| 0 <= i < succ0.len() ==> succ0[i] != c);
                    assert(forall|i: int| 0 <= i < fail0.len() ==> fail0[i] != c);
                }
                if send_to_client(&session.client_sender, output.clone()) {
                    result.success_client_ids.push(session.client_id);
                    proof {
                        assert(result.success_client_ids@.no_duplicates());
                    }
                } else {
                    result.failure_client_ids.push(session.client_id);
                    proof {
                        assert(result.failure_client_ids@.no_duplicates());
                    }
                }
            }
            k = k + 1;
        }
        proof {
            assert forall|c: ClientId| #[trigger]
                subscribed_client(self@, c) <==> (result.success_client_ids@.contains(c)
                    || result.failure_client_ids@.contains(c)) by {
                if subscribed_client(self@, c) {
                    let i = choose|i: int|
                        0 <= i < self@.len() && self@[i].client_id == c && self@[i].subscribed;
                    assert(0 <= i < k && self@[i].client_id == c && self@[i].subscribed);
                }
            }
        }
        result
    }

    /// Reads the client's current role; fails exactly when the client is not
    /// registered.
    pub fn read_user_type(&self, client_id: ClientId) -> (r: Result<Option<UserType>, SessionError>)
        requires
            self.wf(),
        ensures
            has_client(self@, client_id) ==> r == Ok::<Option<UserType>, SessionError>(
                self@[client_index(self@, client_id)].user_type,
            ),
            !has_client(self@, client_id) ==> r == Err::<Option<UserType>, SessionError>(
                SessionError::NoSuchSession { id: client_id },
            ),
    {
        match self.find_session(client_id) {
            Some(index) => {
                proof {
                    lemma_client_index_is(self@, client_id, index as int);
                }
                Ok(self.sessions[index].user_type)
            },
            None => Err(SessionError::NoSuchSession { id: client_id }),
        }
    }

    /// Writes the client's role; fails exactly when the client is not
    /// registered, and changes nothing else in either case.
    pub fn write_user_type(&mut self, client_id: ClientId, user_type: Option<UserType>) -> (r:
        Result<(), SessionError>)
        requires
            old(self).wf(),
        ensures
            final(self).wf(),
            final(self)@ == write_user_type_spec(old(self)@, client_id, user_type),
            r is Ok <==> has_client(old(self)@, client_id),
            r is Err ==> r == Err::<(), SessionError>(SessionError::NoSuchSession {
                id: client_id,
            }),
    {
        let ghost s0 = self@;
        match self.find_session(client_id) {
            Some(index) => {
                proof {
                    lemma_client_index_is(s0, client_id, index as int);
                }
                let mut session = self.sessions.remove(index);
                session.user_type = user_type;
                self.sessions.insert(index, session);
                proof {
                    assert(self@ =~= write_user_type_spec(s0, client_id, user_type));
                }
                Ok(())
            },
            None => Err(SessionError::NoSuchSession { id: client_id }),
        }
    }

    /// Writes the client's subscription flag; fails exactly when the client
    /// is not registered, and changes nothing else in either case.
    pub fn write_subscribed(&mut self, client_id: ClientId, subscribed: bool) -> (r: Result<
        (),
        SessionError,
    >)
        requires
            old(self).wf(),
        ensures
            final(self).wf(),
            final(self)@ == write_subscribed_spec(old(self)@, client_id, subscribed),
            r is Ok <==> has_client(old(self)@, client_id),
            r is Err ==> r == Err::<(), SessionError>(SessionError::NoSuchSession {
                id: client_id,
            }),
    {
        let ghost s0 = self@;
        match self.find_session(client_id) {
            Some(index) => {
                proof {
                    lemma_client_index_is(s0, client_id, index as int);
                }
                let mut session = self.sessions.remove(index);
                session.subscribed = subscribed;
                self.sessions.insert(index, session);
                proof {
                    assert(self@ =~= write_subscribed_spec(s0, client_id, subscribed));
                }
                Ok(())
            },
            None => Err(SessionError::NoSuchSession { id: client_id }),
        }
    }
}

/// In a well-formed directory an index that carries the client's id is the
/// index that `client_index` names.
proof fn lemma_client_index_is(s: Seq<SessionV>, client_id: ClientId, i: int)
    requires
        sessions_wf(s),
        0 <= i < s.len(),
        s[i].client_id == client_id,
    ensures
        has_client(s, client_id),
        client_index(s, client_id) == i,
{
    assert(has_client(s, client_id));
    let j = client_index(s, client_id);
    assert(0 <= j < s.len() && s[j].client_id == client_id);
}

} // verus!
