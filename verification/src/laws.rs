//! What holds of the switcher and of the operations built on it, proved
//! from the relations that their contracts state.

use vstd::prelude::*;
use crate::command::{helper_command, plain_command, root_command};
use crate::command::{Invocation, Output};
use crate::error::{ConfigFault, Error};
use crate::file::{
    helper_read, helper_read_result, helper_write, read_result, root_read, root_written,
};
use crate::history::{ends_with_switch, switch_events, Event, SetId};
use crate::identity::{Identity, SessionState};
use crate::invoker::{invoking_identity_spec, parse_id_spec, SudoEnvView};
use crate::outcome::{
    retry_possible, root_route_spec, root_run_history, run_as_root, run_as_user,
    user_run_history, Outcome,
};
use crate::switch::{elevated, lowered};

verus! {

/// The user id of the environment reads as 0.
pub open spec fn names_root(env: SudoEnvView) -> bool {
    env.uid matches Some(u) && parse_id_spec(u) == Some(0u32)
}

/// `r` is a `ConfigError`.
pub open spec fn config_refused<T>(r: Result<T, Error>) -> bool {
    r matches Err(e) && e is ConfigError
}

/// Elevating twice in a row is elevating once: after an elevation that
/// succeeded the session is elevated, and a second one succeeds and changes
/// nothing. If the first one had to switch, the effective identity is root
/// with root's group.
pub proof fn elevate_is_idempotent(
    s0: SessionState,
    s1: SessionState,
    s2: SessionState,
    second: Result<(), Error>,
)
    requires
        elevated(s0, s1, Ok(())),
        elevated(s1, s2, second),
    ensures
        s1.is_elevated(),
        !s0.is_elevated() ==> s1.effective_id == Identity::root(),
        second is Ok,
        s2 == s1,
{
}

/// Lowering twice in a row is lowering once: after a lowering that
/// succeeded the session is lowered, and a second one succeeds and changes
/// nothing, whatever the environment holds by then.
pub proof fn lower_is_idempotent(
    s0: SessionState,
    env: SudoEnvView,
    s1: SessionState,
    later_env: SudoEnvView,
    s2: SessionState,
    second: Result<(), Error>,
)
    requires
        lowered(s0, env, s1, Ok(())),
        lowered(s1, later_env, s2, second),
    ensures
        !s1.is_elevated(),
        s0.is_elevated() ==> invoking_identity_spec(env) == Ok::<Identity, Error>(s1.effective_id),
        second is Ok,
        s2 == s1,
{
}

/// An operation run as the invoking user leaves the session in the state,
/// elevated or lowered, in which it found it, whether the operation itself
/// succeeded or failed, provided no identity switch failed. The effective
/// identity is then the very same, unless the session started as root with
/// another group than root's: restoring gives root's group.
pub proof fn user_run_restores<T>(
    pre: SessionState,
    env: SudoEnvView,
    post: SessionState,
    out: Outcome<T>,
)
    requires
        run_as_user(pre, env, post, out),
        out.switched_cleanly(),
    ensures
        post.is_elevated() == pre.is_elevated(),
        !pre.is_elevated() || pre.effective_id == Identity::root() ==> post == pre,
{
}

/// An operation run as root leaves the session in the state, elevated or
/// lowered, in which it found it, whether the operation itself succeeded or
/// failed, provided no identity switch failed. The effective identity is
/// then the very same, unless the session had to switch and started from
/// another identity than the one that the environment names: restoring
/// gives the identity of the environment.
pub proof fn root_run_restores<T>(
    pre: SessionState,
    env: SudoEnvView,
    post: SessionState,
    out: Outcome<T>,
)
    requires
        run_as_root(pre, env, post, out),
        out.switched_cleanly(),
    ensures
        post.is_elevated() == pre.is_elevated(),
        !(root_route_spec(pre) is Switch) || invoking_identity_spec(env) == Ok::<Identity, Error>(
            pre.effective_id,
        ) ==> post == pre,
{
}

/// The environment names an invoking user exactly if both values are there,
/// both are numbers, and the user is not root.
pub proof fn invoking_identity_is_strict(env: SudoEnvView)
    ensures
        invoking_identity_spec(env) is Ok <==> {
            &&& env.uid matches Some(u)
            &&& parse_id_spec(u) matches Some(uid)
            &&& uid != 0
            &&& env.gid matches Some(g)
            &&& parse_id_spec(g) is Some
        },
        invoking_identity_spec(env) matches Ok(user) ==> !user.is_root(),
        invoking_identity_spec(env) matches Err(e) ==> e is ConfigError,
{
}

/// Lowering never ends with root: from an elevated session it fails with
/// `ConfigError`, and changes nothing, for every environment that names no
/// invoking user, a malformed one, or root; and where it succeeds, the
/// session is lowered.
pub proof fn lower_never_escalates(
    pre: SessionState,
    env: SudoEnvView,
    post: SessionState,
    r: Result<(), Error>,
)
    requires
        lowered(pre, env, post, r),
    ensures
        r is Ok ==> !post.is_elevated(),
        pre.is_elevated() && invoking_identity_spec(env) is Err ==> post == pre && config_refused(r),
        pre.is_elevated() && names_root(env) ==> post == pre && config_refused(r),
{
}

/// A user id that reads as 0 is refused, whatever the group id is.
pub proof fn root_is_no_invoking_user(env: SudoEnvView)
    requires
        names_root(env),
    ensures
        config_refused(invoking_identity_spec(env)),
        env.gid matches Some(g) && parse_id_spec(g) is Some ==> invoking_identity_spec(env) == Err::<
            Identity,
            Error,
        >(Error::ConfigError(ConfigFault::RootUid)),
{
}

/// The helper is on the way to root exactly if the session is lowered, the
/// process has no real root identity, and the policy allows the helper.
/// With the policy off it is never used: a program is then launched as it
/// is or not at all. With the policy on and no root identity to switch to,
/// it is the only way.
pub proof fn helper_is_gated(s: SessionState, program: Seq<char>, args: Seq<Seq<char>>)
    ensures
        root_route_spec(s) is Helper <==> !s.is_elevated() && !s.has_root_capability()
            && s.allow_sudo,
        root_route_spec(s) is Denied <==> !s.is_elevated() && !s.has_root_capability()
            && !s.allow_sudo,
        !s.allow_sudo ==> root_command(s, program, args) == plain_command(program, args),
        root_route_spec(s) is Helper ==> root_command(s, program, args) == helper_command(
            program,
            args,
        ),
        retry_possible(s) <==> root_route_spec(s) is Switch || root_route_spec(s) is Helper,
{
}

/// Where root is denied, an operation run as root does not run: the result
/// is `PermissionDenied` and the session stays as it was. Through the helper
/// the operation runs and the session stays as it was.
pub proof fn root_run_without_root<T>(
    pre: SessionState,
    env: SudoEnvView,
    post: SessionState,
    out: Outcome<T>,
)
    requires
        run_as_root(pre, env, post, out),
        !pre.is_elevated(),
        !pre.has_root_capability(),
    ensures
        post == pre,
        out.restore is None,
        pre.allow_sudo ==> out.ran(),
        !pre.allow_sudo ==> !out.ran() && out.result == Err::<T, Error>(Error::PermissionDenied),
{
}

/// A switch asks for the group before the user, and a request that is
/// refused is the last: where the group is refused the user is not asked
/// for. Whatever the answers, nothing else is asked.
pub proof fn switch_asks_group_first(
    before: Seq<Event>,
    after: Seq<Event>,
    target: Identity,
    succeeded: bool,
)
    requires
        ends_with_switch(after, before, target, succeeded),
    ensures
        before.len() < after.len() <= before.len() + 2,
        after.subrange(0, before.len() as int) == before,
        after[before.len() as int] matches Event::Asked(call, granted) && call == SetId::Group(
            target.gid,
        ) && (granted <==> after.len() == before.len() + 2),
        after.len() == before.len() + 2 ==> after[before.len() as int + 1] == Event::Asked(
            SetId::User(target.uid),
            succeeded,
        ),
        succeeded ==> after.len() == before.len() + 2,
{
    assert(after.subrange(0, before.len() as int) =~= before);
}

/// An operation run as the invoking user from an elevated session runs
/// after the lowering and before the elevation: in the history the run
/// follows the two granted requests for the user's ids, carries the user's
/// identity, which is not root, and whatever follows it is a request.
pub proof fn user_run_is_inside_the_switches<T>(
    pre: SessionState,
    env: SudoEnvView,
    post: SessionState,
    out: Outcome<T>,
    before: Seq<Event>,
    after: Seq<Event>,
)
    requires
        run_as_user(pre, env, post, out),
        user_run_history(pre, env, out, before, after),
        pre.is_elevated(),
        out.ran(),
    ensures
        invoking_identity_spec(env) matches Ok(user) && {
            &&& !user.is_root()
            &&& after.len() >= before.len() + 3
            &&& after[before.len() as int] == Event::Asked(SetId::Group(user.gid), true)
            &&& after[before.len() as int + 1] == Event::Asked(SetId::User(user.uid), true)
            &&& after[before.len() as int + 2] == Event::Ran(user)
            &&& forall|i: int| before.len() + 3 <= i < after.len() ==> #[trigger] after[i] is Asked
        },
{
}

/// An operation run as root on the switching route runs after the
/// elevation and before the lowering: in the history the run follows the
/// two granted requests for root's ids, carries root's identity, and
/// whatever follows it is a request.
pub proof fn root_run_is_inside_the_switches<T>(
    pre: SessionState,
    env: SudoEnvView,
    out: Outcome<T>,
    before: Seq<Event>,
    after: Seq<Event>,
)
    requires
        root_run_history(pre, env, out, before, after),
        root_route_spec(pre) is Switch,
        out.ran(),
    ensures
        after.len() >= before.len() + 3,
        after[before.len() as int] == Event::Asked(SetId::Group(0), true),
        after[before.len() as int + 1] == Event::Asked(SetId::User(0), true),
        after[before.len() as int + 2] == Event::Ran(Identity::root()),
        forall|i: int| before.len() + 3 <= i < after.len() ==> #[trigger] after[i] is Asked,
{
}

/// The library hands bytes on as they are. What goes to the helper's
/// standard input for a write is the data, and the last argument is the
/// file name as it came, as it is for a read. What a reader returned, and
/// what a helper that ended with exit code 0 wrote to its standard output,
/// is the result of the read, with nothing added and nothing cut. Whether
/// the bytes read are the bytes written is up to the file system.
pub proof fn bytes_pass_unchanged(filename: Seq<char>, data: Seq<u8>, bytes: Vec<u8>, output: Output)
    ensures
        helper_write(filename, data).stdin == Some(data),
        helper_write(filename, data).args.last() == filename,
        helper_read(filename).args.last() == filename,
        read_result(Ok(bytes)) == Ok::<Vec<u8>, Error>(bytes),
        output.success() ==> helper_read_result(Ok(output)) == Ok::<Vec<u8>, Error>(output.stdout),
        !output.success() ==> helper_read_result(Ok(output)) is Err,
{
}

/// `reader` answers for `filename` with the bytes `data` and nothing else.
pub open spec fn reader_holds<R: Fn(&str) -> Result<Vec<u8>, i32>>(
    reader: R,
    filename: &str,
    data: Seq<u8>,
) -> bool {
    forall|raw: Result<Vec<u8>, i32>| #[trigger]
        call_ensures(reader, (filename,), raw) ==> (raw matches Ok(bytes) && bytes@ == data)
}

/// The helper, launched by `spawn` to read `filename`, ends with exit code 0
/// and the bytes `data` on its standard output, and never otherwise.
pub open spec fn helper_holds<F: Fn(&Invocation) -> Result<Output, i32>>(
    spawn: F,
    filename: Seq<char>,
    data: Seq<u8>,
) -> bool {
    forall|inv: Invocation, raw: Result<Output, i32>|
        inv@ == helper_read(filename) && #[trigger] call_ensures(spawn, (&inv,), raw) ==> (raw
            matches Ok(output) && output.success() && output.stdout@ == data)
}

/// What was written as root is read back as root, on a host that keeps
/// what it is given: if a write as root of `data` succeeded, and the file
/// then holds `data` for the reader and for the helper alike, a read as
/// root from the same session state that ran returns `data`, byte for
/// byte, empty or not.
pub proof fn root_read_returns_what_was_written<
    R: Fn(&str) -> Result<Vec<u8>, i32>,
    W: Fn(&str, &[u8]) -> Result<(), i32>,
    F: Fn(&Invocation) -> Result<Output, i32>,
>(
    s: SessionState,
    reader: R,
    writer: W,
    spawn: F,
    filename: &str,
    data: &[u8],
    written: Result<(), Error>,
    read: Result<Vec<u8>, Error>,
)
    requires
        root_written(s, writer, spawn, filename, data, written),
        written is Ok,
        reader_holds(reader, filename, data@),
        helper_holds(spawn, filename@, data@),
        root_read(s, reader, spawn, filename, read),
    ensures
        read matches Ok(bytes) && bytes@ == data@,
{
}

} // verus!
