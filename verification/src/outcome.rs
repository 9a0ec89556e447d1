//! What an operation under a chosen identity leaves behind: its own result,
//! the error of restoring the identity if there was one, and the state of
//! the session.

use vstd::prelude::*;
use crate::error::Error;
use crate::history::{ends_with_switch, switch_events, Event};
use crate::identity::{allow_sudo, has_root, is_root, Identity, Session, SessionState};
use crate::invoker::{invoking_identity_spec, SudoEnvView};

verus! {

/// The two results of an operation that switches identity around itself.
///
/// A failure to restore the identity does not take the place of what the
/// operation returned: the two are kept apart.
#[derive(PartialEq, Eq, Debug)]
pub struct Outcome<T> {
    /// What the operation returned, or the error of the switch that kept it
    /// from running.
    pub result: Result<T, Error>,
    /// The error of restoring the identity after the operation, if that
    /// failed. `None` also where nothing had to be restored.
    pub restore: Option<Error>,
}

impl<T> Outcome<T> {
    /// The operation was run: its result is a value or an error of its own,
    /// not that of an identity switch.
    pub open spec fn ran(self) -> bool {
        match self.result {
            Ok(_) => true,
            Err(e) => e.operation_failure(),
        }
    }

    /// No identity switch failed half way, before the operation or after
    /// it: the identity was restored, or never touched.
    pub open spec fn switched_cleanly(self) -> bool {
        self.restore is None && !(self.result matches Err(e) && e is OsError)
    }

    /// An outcome without any identity switch.
    pub fn unswitched(result: Result<T, Error>) -> (out: Outcome<T>)
        ensures
            out == (Outcome { result, restore: None }),
    {
        Outcome { result, restore: None }
    }

    /// Whether the operation was run.
    pub fn has_run(&self) -> (b: bool)
        ensures
            b == self.ran(),
    {
        match &self.result {
            Ok(_) => true,
            Err(e) => e.is_operation_failure(),
        }
    }

    /// Whether the operation succeeded and the identity was restored.
    pub fn is_clean(&self) -> (b: bool)
        ensures
            b == (self.result is Ok && self.restore is None),
    {
        self.result.is_ok() && self.restore.is_none()
    }
}

/// The way in which an operation gets to run as root.
#[derive(Clone, Copy, PartialEq, Eq, Debug, Structural)]
pub enum Route {
    /// The session is elevated: the operation runs as it is.
    Direct,
    /// The process has a real root identity: elevate, run, lower again.
    Switch,
    /// No root identity, but the elevation helper is allowed: the helper
    /// runs the operation, and the identity of this process stays.
    Helper,
    /// No root identity and no helper: refused.
    Denied,
}

/// The route that a session takes to root. The helper is on it only when
/// the process cannot become root itself and the policy allows the helper.
pub open spec fn root_route_spec(s: SessionState) -> Route {
    if s.is_elevated() {
        Route::Direct
    } else if s.has_root_capability() {
        Route::Switch
    } else if s.allow_sudo {
        Route::Helper
    } else {
        Route::Denied
    }
}

/// Chooses the route to root.
pub fn root_route(session: &Session) -> (route: Route)
    ensures
        route == root_route_spec(session@),
{
    if is_root(session) {
        Route::Direct
    } else if has_root(session) {
        Route::Switch
    } else if allow_sudo(session) {
        Route::Helper
    } else {
        Route::Denied
    }
}

/// A lowered session has a way to root: by itself or through the helper.
pub open spec fn retry_possible(s: SessionState) -> bool {
    !s.is_elevated() && (s.has_root_capability() || s.allow_sudo)
}

/// Whether a failed unprivileged attempt is worth repeating as root: only
/// from a lowered session, and only if some way to root exists.
pub fn can_retry(session: &Session) -> (b: bool)
    ensures
        b == retry_possible(session@),
        b == (root_route_spec(session@) is Switch || root_route_spec(session@) is Helper),
{
    !is_root(session) && (has_root(session) || allow_sudo(session))
}

/// `post` and `out` are a possible end of an operation run as the invoking
/// user from `pre`.
///
/// From a lowered session the operation runs and nothing changes. From an
/// elevated one the session is lowered first. If the environment names no
/// usable user, that is the result and nothing changes. If the operating
/// system refuses the switch, its error is the result and nothing is
/// restored. Otherwise the operation runs and the session is elevated
/// again: it ends with root as effective identity unless that failed, and
/// then `out.restore` holds the error.
pub open spec fn run_as_user<T>(
    pre: SessionState,
    env: SudoEnvView,
    post: SessionState,
    out: Outcome<T>,
) -> bool {
    if !pre.is_elevated() {
        out.ran() && out.restore is None && post == pre
    } else {
        match invoking_identity_spec(env) {
            Err(e) => out.result == Err::<T, Error>(e) && out.restore is None && post == pre,
            Ok(user) => {
                &&& post.real_id == pre.real_id
                &&& post.allow_sudo == pre.allow_sudo
                &&& if out.ran() {
                    match out.restore {
                        None => post.effective_id == Identity::root(),
                        Some(e) => if pre.has_root_capability() {
                            e is OsError
                        } else {
                            e == Error::PermissionDenied && post.effective_id == user
                        },
                    }
                } else {
                    out.restore is None && (out.result matches Err(e) && e is OsError)
                }
            },
        }
    }
}

/// `post` and `out` are a possible end of an operation run as root from
/// `pre`, by the route that [`root_route_spec`] gives.
///
/// On the direct route and through the helper the operation runs and the
/// session stays as it was. Where root is denied the result is
/// `PermissionDenied` and nothing ran. On the switching route the session
/// is elevated first; if the operating system refuses, its error is the
/// result and nothing is restored. Otherwise the operation runs as root and
/// the session is lowered again: it ends with the invoking user as
/// effective identity unless that failed, and then `out.restore` holds the
/// error and, where the environment was at fault, the session stays
/// elevated.
pub open spec fn run_as_root<T>(
    pre: SessionState,
    env: SudoEnvView,
    post: SessionState,
    out: Outcome<T>,
) -> bool {
    match root_route_spec(pre) {
        Route::Direct => out.ran() && out.restore is None && post == pre,
        Route::Helper => out.ran() && out.restore is None && post == pre,
        Route::Denied => out.result == Err::<T, Error>(Error::PermissionDenied)
            && out.restore is None && post == pre,
        Route::Switch => {
            &&& post.real_id == pre.real_id
            &&& post.allow_sudo == pre.allow_sudo
            &&& if out.ran() {
                match invoking_identity_spec(env) {
                    Err(e) => out.restore == Some(e) && post.effective_id == Identity::root(),
                    Ok(user) => match out.restore {
                        None => post.effective_id == user,
                        Some(e) => e is OsError,
                    },
                }
            } else {
                out.restore is None && (out.result matches Err(e) && e is OsError)
            }
        },
    }
}

/// `after` is the history `before` with what an operation run as the
/// invoking user from `pre` adds to it, if it ended in `out`.
///
/// From a lowered session that is the run alone, under the identity that
/// the session had. From an elevated one the run stands between the two
/// switches: both requests of the lowering are granted, then the
/// operation runs under the invoking user's identity, then come the
/// requests of elevating again, unless the process has no real root
/// identity to go back to. Where the lowering is refused, by the library or
/// by the operating system, there is no run.
pub open spec fn user_run_history<T>(
    pre: SessionState,
    env: SudoEnvView,
    out: Outcome<T>,
    before: Seq<Event>,
    after: Seq<Event>,
) -> bool {
    if !pre.is_elevated() {
        after == before + seq![Event::Ran(pre.effective_id)]
    } else {
        match invoking_identity_spec(env) {
            Err(_) => after == before,
            Ok(user) => if out.ran() {
                let ran = before + switch_events(user, 2) + seq![Event::Ran(user)];
                if pre.has_root_capability() {
                    ends_with_switch(after, ran, Identity::root(), out.restore is None)
                } else {
                    after == ran
                }
            } else {
                ends_with_switch(after, before, user, false)
            },
        }
    }
}

/// `after` is the history `before` with what an operation run as root from
/// `pre` adds to it, if it ended in `out`.
///
/// On the direct route and through the helper that is the run alone, under
/// the identity that the session had. Where root is denied it is nothing.
/// On the switching route the run stands between the two switches: both
/// requests of the elevation are granted, then the operation runs under
/// root's identity, then come the requests of lowering again, unless the
/// environment names no user to lower to. Where the elevation is refused
/// there is no run.
pub open spec fn root_run_history<T>(
    pre: SessionState,
    env: SudoEnvView,
    out: Outcome<T>,
    before: Seq<Event>,
    after: Seq<Event>,
) -> bool {
    match root_route_spec(pre) {
        Route::Direct => after == before + seq![Event::Ran(pre.effective_id)],
        Route::Helper => after == before + seq![Event::Ran(pre.effective_id)],
        Route::Denied => after == before,
        Route::Switch => if out.ran() {
            let ran = before + switch_events(Identity::root(), 2) + seq![
                Event::Ran(Identity::root()),
            ];
            match invoking_identity_spec(env) {
                Err(_) => after == ran,
                Ok(user) => ends_with_switch(after, ran, user, out.restore is None),
            }
        } else {
            ends_with_switch(after, before, Identity::root(), false)
        },
    }
}

} // verus!
