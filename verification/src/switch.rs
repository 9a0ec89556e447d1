//! The identity switcher: when a switch is legal, how it is carried out, and
//! what the session records afterwards.
//!
//! A session is in one of two states: elevated, when its effective user is
//! root, and lowered otherwise. [`change_root`] moves it to elevated and
//! [`change_user`] to lowered. Each first decides on a [`Step`] from the
//! session alone, then asks the operating system, then records the answer.

use vstd::prelude::*;
use crate::error::Error;
use crate::history::{ends_with_switch, switch_events, Event, SetId};
use crate::identity::{observe_effective, Identity, Session, SessionState};
use crate::invoker::{invoking_identity, invoking_identity_spec, SudoEnv, SudoEnvView};
use crate::os;

verus! {

/// What a transition asks of the operating system.
#[derive(Clone, Copy, PartialEq, Eq, Debug, Structural)]
pub enum Step {
    /// Nothing: the session is in the wanted state already.
    Stay,
    /// To make this the effective identity.
    Switch(Identity),
}

/// A switch that the operating system refused half way or at once.
#[derive(Clone, Copy, PartialEq, Eq, Debug, Structural)]
pub struct SwitchFailure {
    /// The error code of the request that failed.
    pub errno: i32,
    /// The effective identity that the operating system reported after the
    /// failure.
    pub observed: Identity,
}

/// The step that elevating takes: none when elevated already; refused
/// without a real root identity; else a switch to root.
pub open spec fn elevate_step_spec(s: SessionState) -> Result<Step, Error> {
    if s.is_elevated() {
        Ok(Step::Stay)
    } else if !s.has_root_capability() {
        Err(Error::PermissionDenied)
    } else {
        Ok(Step::Switch(Identity::root()))
    }
}

/// The step that lowering takes: none when lowered already, whatever the
/// environment holds; else a switch to the invoking user, or the error that
/// the environment earns.
pub open spec fn lower_step_spec(s: SessionState, env: SudoEnvView) -> Result<Step, Error> {
    if !s.is_elevated() {
        Ok(Step::Stay)
    } else {
        match invoking_identity_spec(env) {
            Ok(user) => Ok(Step::Switch(user)),
            Err(e) => Err(e),
        }
    }
}

/// What a session records after a switch to `target` was tried: the target
/// if the operating system agreed, else what it reported, with its error.
pub open spec fn settled(
    pre: SessionState,
    target: Identity,
    attempt: Result<(), SwitchFailure>,
) -> (SessionState, Result<(), Error>) {
    match attempt {
        Ok(()) => (pre.with_effective(target), Ok(())),
        Err(failure) => (pre.with_effective(failure.observed), Err(Error::OsError(failure.errno))),
    }
}

/// `post` and `r` are a possible end of taking `step` from `pre`.
///
/// A refused step and a step that stays leave the session as it was. After a
/// switch only the effective identity may differ: it is the target if the
/// switch succeeded, and if it failed the error is an `OsError`.
pub open spec fn carried_out(
    pre: SessionState,
    step: Result<Step, Error>,
    post: SessionState,
    r: Result<(), Error>,
) -> bool {
    match step {
        Err(e) => post == pre && r == Err::<(), Error>(e),
        Ok(Step::Stay) => post == pre && r is Ok,
        Ok(Step::Switch(target)) => {
            &&& post.real_id == pre.real_id
            &&& post.allow_sudo == pre.allow_sudo
            &&& match r {
                Ok(()) => post.effective_id == target,
                Err(e) => e is OsError,
            }
        },
    }
}

/// `after` is the history `before` with what taking `step` adds to it, if
/// it ended in `r`: nothing for a refused step and for one that stays, and
/// for a switch its requests, as [`switch_events`] orders them.
pub open spec fn requested(
    step: Result<Step, Error>,
    r: Result<(), Error>,
    before: Seq<Event>,
    after: Seq<Event>,
) -> bool {
    match step {
        Ok(Step::Switch(target)) => ends_with_switch(after, before, target, r is Ok),
        _ => after == before,
    }
}

/// `post` and `r` are a possible end of elevating from `pre`.
pub open spec fn elevated(pre: SessionState, post: SessionState, r: Result<(), Error>) -> bool {
    carried_out(pre, elevate_step_spec(pre), post, r)
}

/// `post` and `r` are a possible end of lowering from `pre` with the
/// environment `env`.
pub open spec fn lowered(
    pre: SessionState,
    env: SudoEnvView,
    post: SessionState,
    r: Result<(), Error>,
) -> bool {
    carried_out(pre, lower_step_spec(pre, env), post, r)
}

/// Decides what elevating has to do.
pub fn elevate_step(session: &Session) -> (step: Result<Step, Error>)
    ensures
        step == elevate_step_spec(session@),
{
    if session.effective_identity().is_root() {
        Ok(Step::Stay)
    } else if !session.real_identity().is_root() {
        Err(Error::PermissionDenied)
    } else {
        Ok(Step::Switch(Identity::root()))
    }
}

/// Decides what lowering has to do. The environment is looked at only when
/// the session is elevated.
pub fn lower_step(session: &Session, env: &SudoEnv) -> (step: Result<Step, Error>)
    ensures
        step == lower_step_spec(session@, env@),
{
    if !session.effective_identity().is_root() {
        Ok(Step::Stay)
    } else {
        match invoking_identity(env) {
            Ok(user) => Ok(Step::Switch(user)),
            Err(e) => Err(e),
        }
    }
}

/// The two requests that make `target` the effective identity, in the order
/// in which they are made: the group first, then the user. Going down, the
/// group can only be set while the user is still root.
pub fn switch_order(target: Identity) -> (order: (SetId, SetId))
    ensures
        order == (SetId::Group(target.gid), SetId::User(target.uid)),
{
    (SetId::Group(target.gid), SetId::User(target.uid))
}

/// Records the answer to a switch.
pub fn settle(session: &mut Session, target: Identity, attempt: Result<(), SwitchFailure>) -> (r:
    Result<(), Error>)
    ensures
        (final(session)@, r) == settled(old(session)@, target, attempt),
        final(session).history() == old(session).history(),
{
    match attempt {
        Ok(()) => {
            session.record_effective(target);
            Ok(())
        },
        Err(failure) => {
            session.record_effective(failure.observed);
            Err(Error::OsError(failure.errno))
        },
    }
}

/// Makes one request and notes it with its answer. Whether it is granted
/// is up to the operating system.
fn request(session: &mut Session, call: SetId) -> (r: Result<(), i32>)
    ensures
        final(session)@ == old(session)@,
        final(session).history() == old(session).history() + seq![Event::Asked(call, r is Ok)],
{
    let answer = match call {
        SetId::Group(gid) => os::set_effective_gid(gid),
        SetId::User(uid) => os::set_effective_uid(uid),
    };
    let r = match answer {
        Ok(()) => Ok(()),
        Err(e) => Err(os::errno_code(e)),
    };
    session.note(Ghost(Event::Asked(call, r is Ok)));
    r
}

/// Asks the operating system to make `target` the effective identity: for
/// the group first, then for the user. It stops at the first request that
/// is refused and then asks which identity is in effect. The session's
/// record of the identity is not touched here.
fn switch_effective(session: &mut Session, target: Identity) -> (r: Result<(), SwitchFailure>)
    ensures
        final(session)@ == old(session)@,
        ends_with_switch(final(session).history(), old(session).history(), target, r is Ok),
{
    let ghost before = session.history();
    let (first, second) = switch_order(target);
    match request(session, first) {
        Ok(()) => {},
        Err(errno) => {
            assert(session.history() =~= before + switch_events(target, 0));
            return Err(SwitchFailure { errno, observed: observe_effective() });
        },
    }
    match request(session, second) {
        Ok(()) => {
            assert(session.history() =~= before + switch_events(target, 2));
            Ok(())
        },
        Err(errno) => {
            assert(session.history() =~= before + switch_events(target, 1));
            Err(SwitchFailure { errno, observed: observe_effective() })
        },
    }
}

/// Takes a step that was decided on.
fn carry_out(session: &mut Session, step: Result<Step, Error>) -> (r: Result<(), Error>)
    ensures
        carried_out(old(session)@, step, final(session)@, r),
        requested(step, r, old(session).history(), final(session).history()),
{
    match step {
        Err(e) => Err(e),
        Ok(Step::Stay) => Ok(()),
        Ok(Step::Switch(target)) => {
            let attempt = switch_effective(session, target);
            settle(session, target, attempt)
        },
    }
}

/// Elevates: makes root the effective identity.
///
/// An elevated session is left alone and the call succeeds. Without a real
/// root identity the call fails with `PermissionDenied` and changes nothing.
/// Otherwise the operating system is asked to set the effective group, then
/// the effective user, to 0. If it agrees the session is elevated, with
/// root as its effective identity. If it refuses, the call fails with
/// `OsError` and the session records the identity that was then in effect;
/// after a refused group the user is not asked for.
pub fn change_root(session: &mut Session) -> (r: Result<(), Error>)
    ensures
        elevated(old(session)@, final(session)@, r),
        requested(
            elevate_step_spec(old(session)@),
            r,
            old(session).history(),
            final(session).history(),
        ),
        r is Ok ==> final(session)@.is_elevated(),
        old(session)@.is_elevated() ==> r is Ok,
        r == Err::<(), Error>(Error::PermissionDenied) <==> !old(session)@.is_elevated() && !old(
            session,
        )@.has_root_capability(),
{
    let step = elevate_step(session);
    carry_out(session, step)
}

/// Lowers: makes the invoking user the effective identity.
///
/// A lowered session is left alone and the call succeeds, whatever the
/// environment holds. From an elevated session the call fails with
/// `ConfigError`, and changes nothing, if the environment names no invoking
/// user, names one that is no number, or names root. Otherwise the operating
/// system is asked to set the effective group, then the effective user. If
/// it agrees the session is lowered, with the invoking user as its effective
/// identity. If it refuses, the call fails with `OsError` and the session
/// records the identity that was then in effect; after a refused group the
/// user is not asked for.
pub fn change_user(session: &mut Session, env: &SudoEnv) -> (r: Result<(), Error>)
    ensures
        lowered(old(session)@, env@, final(session)@, r),
        requested(
            lower_step_spec(old(session)@, env@),
            r,
            old(session).history(),
            final(session).history(),
        ),
        r is Ok ==> !final(session)@.is_elevated(),
        !old(session)@.is_elevated() ==> r is Ok,
        (r matches Err(e) && e is ConfigError) <==> old(session)@.is_elevated()
            && invoking_identity_spec(env@) is Err,
{
    let step = lower_step(session, env);
    carry_out(session, step)
}

} // verus!
