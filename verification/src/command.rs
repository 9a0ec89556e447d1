//! Running programs under a chosen identity.
//!
//! The library builds the [`Invocation`] and decides under which identity
//! it runs; the caller's `spawn` function launches it, waits, and reports
//! what came out. An `Err` from `spawn` holds the error code of a launch
//! that failed.

use vstd::prelude::*;
use crate::error::Error;
use crate::history::Event;
use crate::identity::{is_root, Session, SessionState};
use crate::invoker::SudoEnv;
use crate::outcome::{
    can_retry, retry_possible, root_route, root_route_spec, root_run_history, run_as_root,
    run_as_user, user_run_history, Outcome, Route,
};
use crate::switch::{change_root, change_user};

verus! {

/// The name by which the elevation helper is launched.
pub const HELPER: &'static str = "sudo";

/// A program to launch: its name, its arguments, and what to write to its
/// standard input, if anything.
#[derive(PartialEq, Eq, Debug)]
pub struct Invocation {
    pub program: String,
    pub args: Vec<String>,
    pub stdin: Option<Vec<u8>>,
}

/// An [`Invocation`] as plain values.
pub struct InvocationView {
    pub program: Seq<char>,
    pub args: Seq<Seq<char>>,
    pub stdin: Option<Seq<u8>>,
}

/// The texts of a sequence of strings.
pub open spec fn texts(strings: Seq<String>) -> Seq<Seq<char>> {
    Seq::new(strings.len(), |i: int| strings[i]@)
}

impl View for Invocation {
    type V = InvocationView;

    open spec fn view(&self) -> InvocationView {
        InvocationView {
            program: self.program@,
            args: texts(self.args@),
            stdin: match self.stdin {
                Some(data) => Some(data@),
                None => None,
            },
        }
    }
}

/// What a program left behind: its exit code, if it ended with one, and
/// what it wrote to its standard output and standard error.
#[derive(PartialEq, Eq, Debug)]
pub struct Output {
    pub status: Option<i32>,
    pub stdout: Vec<u8>,
    pub stderr: Vec<u8>,
}

impl Output {
    /// The program ended with exit code 0.
    pub open spec fn success_spec(&self) -> bool {
        self.status == Some(0i32)
    }

    /// Whether the program ended with exit code 0.
    #[verifier::when_used_as_spec(success_spec)]
    pub fn success(&self) -> (b: bool)
        ensures
            b == self.success_spec(),
    {
        match self.status {
            Some(code) => code == 0,
            None => false,
        }
    }
}

/// A program launched as it is, with nothing on its standard input.
pub open spec fn plain_command(program: Seq<char>, args: Seq<Seq<char>>) -> InvocationView {
    InvocationView { program, args, stdin: None }
}

/// A program launched through the elevation helper: the helper is the
/// program, and the program's name goes in front of its arguments.
pub open spec fn helper_command(program: Seq<char>, args: Seq<Seq<char>>) -> InvocationView {
    InvocationView { program: HELPER@, args: seq![program] + args, stdin: None }
}

/// The invocation by which [`command_root`] launches a program from `s`.
pub open spec fn root_command(
    s: SessionState,
    program: Seq<char>,
    args: Seq<Seq<char>>,
) -> InvocationView {
    if root_route_spec(s) is Helper {
        helper_command(program, args)
    } else {
        plain_command(program, args)
    }
}

/// `spawn` may be called on every invocation that reads as `what`.
pub open spec fn spawn_accepts<F: Fn(&Invocation) -> Result<Output, i32>>(
    spawn: F,
    what: InvocationView,
) -> bool {
    forall|inv: Invocation| inv@ == what ==> call_requires(spawn, (&inv,))
}

/// What a launch comes to: the output, or `SpawnError` with the code.
pub open spec fn spawned(raw: Result<Output, i32>) -> Result<Output, Error> {
    match raw {
        Ok(output) => Ok(output),
        Err(code) => Err(Error::SpawnError(code)),
    }
}

/// `r` is what came of one call of `spawn` on an invocation that reads as
/// `what`.
pub open spec fn launched<F: Fn(&Invocation) -> Result<Output, i32>>(
    spawn: F,
    what: InvocationView,
    r: Result<Output, Error>,
) -> bool {
    exists|inv: Invocation, raw: Result<Output, i32>|
        inv@ == what && #[trigger] call_ensures(spawn, (&inv,), raw) && r == spawned(raw)
}

/// The program was launched and ended with exit code 0.
pub open spec fn command_succeeded(r: Result<Output, Error>) -> bool {
    r matches Ok(output) && output.success()
}

/// Copies `args` behind `head`.
fn extend_with(head: Vec<String>, args: &[String]) -> (all: Vec<String>)
    ensures
        texts(all@) == texts(head@) + texts(args@),
{
    let ghost front = head@;
    let mut all = head;
    let mut i: usize = 0;
    while i < args.len()
        invariant
            i <= args.len(),
            all@.len() == front.len() + i,
            forall|j: int| 0 <= j < front.len() ==> all@[j] == front[j],
            forall|j: int| 0 <= j < i ==> all@[front.len() + j] == args@[j],
        decreases args.len() - i,
    {
        all.push(args[i].clone());
        i = i + 1;
    }
    assert(texts(all@) =~= texts(front) + texts(args@));
    all
}

/// The invocation of a program as it is.
pub fn invocation(program: &str, args: &[String]) -> (inv: Invocation)
    ensures
        inv@ == plain_command(program@, texts(args@)),
{
    let all = extend_with(Vec::new(), args);
    assert(texts(all@) =~= texts(args@));
    Invocation { program: program.to_owned(), args: all, stdin: None }
}

/// The invocation of a program through the elevation helper.
pub fn helper_invocation(program: &str, args: &[String]) -> (inv: Invocation)
    ensures
        inv@ == helper_command(program@, texts(args@)),
{
    let mut head: Vec<String> = Vec::new();
    head.push(program.to_owned());
    assert(texts(head@) =~= seq![program@]);
    let all = extend_with(head, args);
    Invocation { program: HELPER.to_owned(), args: all, stdin: None }
}

/// Launches an invocation and names the error of a failed launch.
pub fn launch<F: Fn(&Invocation) -> Result<Output, i32>>(inv: &Invocation, spawn: &F) -> (r: Result<
    Output,
    Error,
>)
    requires
        call_requires(*spawn, (inv,)),
    ensures
        launched(*spawn, inv@, r),
{
    let raw = spawn(inv);
    assert(call_ensures(*spawn, (inv,), raw));
    match raw {
        Ok(output) => Ok(output),
        Err(code) => Err(Error::SpawnError(code)),
    }
}

/// Launches an invocation from a session and notes the run, with the
/// effective identity that the session has on record at that moment. The
/// session is otherwise left alone.
pub(crate) fn launch_from<F: Fn(&Invocation) -> Result<Output, i32>>(
    session: &mut Session,
    inv: &Invocation,
    spawn: &F,
) -> (r: Result<Output, Error>)
    requires
        call_requires(*spawn, (inv,)),
    ensures
        launched(*spawn, inv@, r),
        final(session)@ == old(session)@,
        final(session).history() == old(session).history() + seq![
            Event::Ran(old(session)@.effective_id),
        ],
{
    session.note(Ghost(Event::Ran(session@.effective_id)));
    launch(inv, spawn)
}

/// Runs a program with the identity as it is.
///
/// The result is the program's output, whatever its exit code, or
/// `SpawnError` if it could not be launched.
pub fn command<F: Fn(&Invocation) -> Result<Output, i32>>(
    program: &str,
    args: &[String],
    spawn: &F,
) -> (r: Result<Output, Error>)
    requires
        spawn_accepts(*spawn, plain_command(program@, texts(args@))),
    ensures
        launched(*spawn, plain_command(program@, texts(args@)), r),
{
    let inv = invocation(program, args);
    launch(&inv, spawn)
}

/// Runs a program through the elevation helper, which asks for and checks
/// credentials itself. The identity of this process plays no part.
///
/// The result is the helper's output, whatever its exit code, or
/// `SpawnError` if the helper could not be launched.
pub fn command_sudo<F: Fn(&Invocation) -> Result<Output, i32>>(
    program: &str,
    args: &[String],
    spawn: &F,
) -> (r: Result<Output, Error>)
    requires
        spawn_accepts(*spawn, helper_command(program@, texts(args@))),
    ensures
        launched(*spawn, helper_command(program@, texts(args@)), r),
{
    let inv = helper_invocation(program, args);
    launch(&inv, spawn)
}

/// Runs a program as the invoking user and returns to the identity it
/// started from: see [`run_as_user`].
pub fn command_user<F: Fn(&Invocation) -> Result<Output, i32>>(
    session: &mut Session,
    env: &SudoEnv,
    program: &str,
    args: &[String],
    spawn: &F,
) -> (out: Outcome<Output>)
    requires
        spawn_accepts(*spawn, plain_command(program@, texts(args@))),
    ensures
        run_as_user(old(session)@, env@, final(session)@, out),
        user_run_history(
            old(session)@,
            env@,
            out,
            old(session).history(),
            final(session).history(),
        ),
        out.ran() ==> launched(*spawn, plain_command(program@, texts(args@)), out.result),
        out.switched_cleanly() ==> final(session)@.is_elevated() == old(session)@.is_elevated(),
{
    let inv = invocation(program, args);
    if !is_root(session) {
        Outcome::unswitched(launch_from(session, &inv, spawn))
    } else {
        match change_user(session, env) {
            Err(e) => Outcome::unswitched(Err(e)),
            Ok(()) => {
                let result = launch_from(session, &inv, spawn);
                let restore = match change_root(session) {
                    Ok(()) => None,
                    Err(e) => Some(e),
                };
                Outcome { result, restore }
            },
        }
    }
}

/// Runs a program as root and returns to the identity it started from: see
/// [`run_as_root`]. The helper launches the program only where
/// [`root_route_spec`] says so, and `spawn` needs to accept only the
/// invocation of the route that is taken.
pub fn command_root<F: Fn(&Invocation) -> Result<Output, i32>>(
    session: &mut Session,
    env: &SudoEnv,
    program: &str,
    args: &[String],
    spawn: &F,
) -> (out: Outcome<Output>)
    requires
        root_route_spec(old(session)@) is Direct || root_route_spec(old(session)@) is Switch
            ==> spawn_accepts(*spawn, plain_command(program@, texts(args@))),
        root_route_spec(old(session)@) is Helper ==> spawn_accepts(
            *spawn,
            helper_command(program@, texts(args@)),
        ),
    ensures
        run_as_root(old(session)@, env@, final(session)@, out),
        root_run_history(
            old(session)@,
            env@,
            out,
            old(session).history(),
            final(session).history(),
        ),
        out.ran() ==> launched(
            *spawn,
            root_command(old(session)@, program@, texts(args@)),
            out.result,
        ),
        out.switched_cleanly() ==> final(session)@.is_elevated() == old(session)@.is_elevated(),
{
    match root_route(session) {
        Route::Direct => {
            let inv = invocation(program, args);
            Outcome::unswitched(launch_from(session, &inv, spawn))
        },
        Route::Helper => {
            let inv = helper_invocation(program, args);
            Outcome::unswitched(launch_from(session, &inv, spawn))
        },
        Route::Denied => Outcome::unswitched(Err(Error::PermissionDenied)),
        Route::Switch => match change_root(session) {
            Err(e) => Outcome::unswitched(Err(e)),
            Ok(()) => {
                let inv = invocation(program, args);
                let result = launch_from(session, &inv, spawn);
                let restore = match change_user(session, env) {
                    Ok(()) => None,
                    Err(e) => Some(e),
                };
                Outcome { result, restore }
            },
        },
    }
}

/// Runs a program with the identity as it is and, if that fails, once more
/// as root.
///
/// The first run counts as failed if the program could not be launched or
/// ended with another exit code than 0. It is repeated, through
/// [`command_root`], only from a lowered session that has a way to root, by
/// itself or through the helper; otherwise the first result is returned.
/// There is no third run.
pub fn command_try<F: Fn(&Invocation) -> Result<Output, i32>>(
    session: &mut Session,
    env: &SudoEnv,
    program: &str,
    args: &[String],
    spawn: &F,
) -> (out: Outcome<Output>)
    requires
        spawn_accepts(*spawn, plain_command(program@, texts(args@))),
        root_route_spec(old(session)@) is Helper ==> spawn_accepts(
            *spawn,
            helper_command(program@, texts(args@)),
        ),
    ensures
        exists|first: Result<Output, Error>|
            {
                &&& #[trigger] launched(*spawn, plain_command(program@, texts(args@)), first)
                &&& if command_succeeded(first) || !retry_possible(old(session)@) {
                    &&& out == (Outcome { result: first, restore: None })
                    &&& final(session)@ == old(session)@
                    &&& final(session).history() == old(session).history() + seq![
                        Event::Ran(old(session)@.effective_id),
                    ]
                } else {
                    &&& run_as_root(old(session)@, env@, final(session)@, out)
                    &&& root_run_history(
                        old(session)@,
                        env@,
                        out,
                        old(session).history() + seq![Event::Ran(old(session)@.effective_id)],
                        final(session).history(),
                    )
                    &&& out.ran() ==> launched(
                        *spawn,
                        root_command(old(session)@, program@, texts(args@)),
                        out.result,
                    )
                }
            },
        out.switched_cleanly() ==> final(session)@.is_elevated() == old(session)@.is_elevated(),
{
    let inv = invocation(program, args);
    let first = launch_from(session, &inv, spawn);
    let succeeded = match &first {
        Ok(output) => output.success(),
        Err(_) => false,
    };
    if succeeded || !can_retry(session) {
        Outcome::unswitched(first)
    } else {
        command_root(session, env, program, args, spawn)
    }
}

} // verus!
