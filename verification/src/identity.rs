//! Identities, and the session that records which of them the process has.

use vstd::prelude::*;
use crate::history::Event;
use crate::os;

verus! {

/// A user id with a group id. The user id 0 is root.
#[derive(Clone, Copy, PartialEq, Eq, Debug, Structural)]
pub struct Identity {
    pub uid: u32,
    pub gid: u32,
}

impl Identity {
    /// The identity of root: user 0, group 0.
    pub open spec fn root_spec() -> Identity {
        Identity { uid: 0, gid: 0 }
    }

    pub open spec fn is_root_spec(self) -> bool {
        self.uid == 0
    }

    pub fn new(uid: u32, gid: u32) -> (id: Identity)
        ensures
            id == (Identity { uid, gid }),
    {
        Identity { uid, gid }
    }

    /// The identity of root: user 0, group 0.
    #[verifier::when_used_as_spec(root_spec)]
    pub fn root() -> (id: Identity)
        ensures
            id == Identity::root_spec(),
    {
        Identity { uid: 0, gid: 0 }
    }

    /// Whether the user id is 0. The group id does not count.
    #[verifier::when_used_as_spec(is_root_spec)]
    pub fn is_root(self) -> (b: bool)
        ensures
            b == self.is_root_spec(),
    {
        self.uid == 0
    }
}

/// What a [`Session`] records, as plain values.
pub struct SessionState {
    /// The real identity. Nothing in the library changes it.
    pub real_id: Identity,
    /// The effective identity, as far as the session knows.
    pub effective_id: Identity,
    /// Whether the elevation helper may be used.
    pub allow_sudo: bool,
}

impl SessionState {
    /// The effective user is root.
    pub open spec fn is_elevated(self) -> bool {
        self.effective_id.uid == 0
    }

    /// The real user is root, so the process can make itself root.
    pub open spec fn has_root_capability(self) -> bool {
        self.real_id.uid == 0
    }

    /// The same state with another effective identity.
    pub open spec fn with_effective(self, id: Identity) -> SessionState {
        SessionState { effective_id: id, ..self }
    }
}

/// The handle through which the process's effective identity is switched.
///
/// It records the real identity, the effective identity and the policy on
/// the elevation helper. The record of the effective identity is right as
/// long as every switch goes through this session. Beside its state it has
/// a history, which only the contracts see.
pub struct Session {
    real_id: Identity,
    effective_id: Identity,
    allow_sudo: bool,
    history: Ghost<Seq<Event>>,
}

impl View for Session {
    type V = SessionState;

    closed spec fn view(&self) -> SessionState {
        SessionState { real_id: self.real_id, effective_id: self.effective_id, allow_sudo: self.allow_sudo }
    }
}

impl Session {
    /// What the session has done so far, oldest first.
    pub closed spec fn history(&self) -> Seq<Event> {
        self.history@
    }

    /// A session that starts from the given identities, with the elevation
    /// helper not allowed and nothing done yet.
    pub fn new(real_id: Identity, effective_id: Identity) -> (s: Session)
        ensures
            s@ == (SessionState { real_id, effective_id, allow_sudo: false }),
            s.history() == Seq::<Event>::empty(),
    {
        Session { real_id, effective_id, allow_sudo: false, history: Ghost(Seq::empty()) }
    }

    /// A session for the running process: it asks the operating system for
    /// the identities. The elevation helper is not allowed and nothing is
    /// done yet.
    pub fn current() -> (s: Session)
        ensures
            !s@.allow_sudo,
            s.history() == Seq::<Event>::empty(),
    {
        let real_id = Identity { uid: os::real_uid(), gid: os::real_gid() };
        let effective_id = observe_effective();
        Session { real_id, effective_id, allow_sudo: false, history: Ghost(Seq::empty()) }
    }

    /// The real identity.
    pub fn real_identity(&self) -> (id: Identity)
        ensures
            id == self@.real_id,
    {
        self.real_id
    }

    /// The effective identity, as recorded.
    pub fn effective_identity(&self) -> (id: Identity)
        ensures
            id == self@.effective_id,
    {
        self.effective_id
    }

    /// Records another effective identity. Only the switcher calls this,
    /// after the operating system has answered.
    pub(crate) fn record_effective(&mut self, id: Identity)
        ensures
            final(self)@ == old(self)@.with_effective(id),
            final(self).history() == old(self).history(),
    {
        self.effective_id = id;
    }

    /// Adds an event to the history. Whoever makes a request or calls a
    /// function of the caller notes it in the same breath.
    pub(crate) fn note(&mut self, event: Ghost<Event>)
        ensures
            final(self)@ == old(self)@,
            final(self).history() == old(self).history() + seq![event@],
    {
        self.history = Ghost(self.history@ + seq![event@]);
    }
}

/// The effective identity that the operating system reports now.
pub(crate) fn observe_effective() -> Identity {
    Identity { uid: os::effective_uid(), gid: os::effective_gid() }
}

/// Whether the effective user is root.
pub fn is_root(session: &Session) -> (b: bool)
    ensures
        b == session@.is_elevated(),
{
    session.effective_id.uid == 0
}

/// Whether the real user is root, which is what lets the process elevate.
pub fn has_root(session: &Session) -> (b: bool)
    ensures
        b == session@.has_root_capability(),
{
    session.real_id.uid == 0
}

/// Allows or forbids the elevation helper. Nothing else changes.
pub fn set_allow_sudo(session: &mut Session, value: bool)
    ensures
        final(session)@ == (SessionState { allow_sudo: value, ..old(session)@ }),
        final(session).history() == old(session).history(),
{
    session.allow_sudo = value;
}

/// Whether the elevation helper is allowed.
pub fn allow_sudo(session: &Session) -> (b: bool)
    ensures
        b == session@.allow_sudo,
{
    session.allow_sudo
}

} // verus!
