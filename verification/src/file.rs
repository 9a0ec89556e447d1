//! Reading and writing whole files under a chosen identity.
//!
//! The caller's `reader` and `writer` functions touch the file system with
//! the identity that the process has when they are called; an `Err` from
//! them holds the operating system's error code. Where the process cannot
//! become root itself, the elevation helper does the reading or writing
//! instead, launched by the caller's `spawn` function.

use vstd::prelude::*;
use vstd::slice::slice_to_vec;
use crate::command::{
    launch, launch_from, launched, spawn_accepts, texts, Invocation, InvocationView, Output,
    HELPER,
};
use crate::error::{Error, IoFault};
use crate::history::Event;
use crate::identity::{is_root, Session, SessionState};
use crate::invoker::SudoEnv;
use crate::outcome::{
    can_retry, retry_possible, root_route, root_route_spec, root_run_history, run_as_root,
    run_as_user, user_run_history, Outcome, Route,
};
use crate::switch::{change_root, change_user};

verus! {

/// What a read comes to: the bytes, or `IoError` with the code.
pub open spec fn read_result(raw: Result<Vec<u8>, i32>) -> Result<Vec<u8>, Error> {
    match raw {
        Ok(bytes) => Ok(bytes),
        Err(code) => Err(Error::IoError(IoFault::Filesystem(code))),
    }
}

/// What a write comes to: nothing, or `IoError` with the code.
pub open spec fn write_result(raw: Result<(), i32>) -> Result<(), Error> {
    match raw {
        Ok(()) => Ok(()),
        Err(code) => Err(Error::IoError(IoFault::Filesystem(code))),
    }
}

/// `r` is what came of one call of `reader` on `filename`.
pub open spec fn plain_read<R: Fn(&str) -> Result<Vec<u8>, i32>>(
    reader: R,
    filename: &str,
    r: Result<Vec<u8>, Error>,
) -> bool {
    exists|raw: Result<Vec<u8>, i32>| #[trigger]
        call_ensures(reader, (filename,), raw) && r == read_result(raw)
}

/// `r` is what came of one call of `writer` on `filename` and `data`.
pub open spec fn plain_written<W: Fn(&str, &[u8]) -> Result<(), i32>>(
    writer: W,
    filename: &str,
    data: &[u8],
    r: Result<(), Error>,
) -> bool {
    exists|raw: Result<(), i32>| #[trigger]
        call_ensures(writer, (filename, data), raw) && r == write_result(raw)
}

/// The helper's invocation for reading a file: it runs `cat` on the file,
/// so that the bytes arrive on its standard output. The file name is the
/// one argument of `cat`, as it came.
pub open spec fn helper_read(filename: Seq<char>) -> InvocationView {
    InvocationView { program: HELPER@, args: seq!["cat"@, filename], stdin: None }
}

/// The helper's invocation for writing a file: it runs a shell whose `cat`
/// copies the standard input, which is the data, into the file.
///
/// The script is the same for every file. The file name is the last
/// argument, as it came, and the script names it as `"$1"`: the shell
/// neither splits it nor reads it as part of the script. The argument
/// before it is the name that the shell gives itself.
pub open spec fn helper_write(filename: Seq<char>, data: Seq<u8>) -> InvocationView {
    InvocationView {
        program: HELPER@,
        args: seq!["sh"@, "-c"@, "cat > \"$1\""@, "sh"@, filename],
        stdin: Some(data),
    }
}

/// How a helper that did not end with exit code 0 ended.
pub open spec fn helper_fault(status: Option<i32>) -> IoFault {
    match status {
        Some(code) => IoFault::HelperExit(code),
        None => IoFault::HelperKilled,
    }
}

/// What the helper's run means for a read. Only exit code 0 gives bytes:
/// what a failed helper wrote to its standard output is no result.
pub open spec fn helper_read_result(run: Result<Output, Error>) -> Result<Vec<u8>, Error> {
    match run {
        Err(e) => Err(e),
        Ok(output) => if output.success() {
            Ok(output.stdout)
        } else {
            Err(Error::IoError(helper_fault(output.status)))
        },
    }
}

/// What the helper's run means for a write.
pub open spec fn helper_write_result(run: Result<Output, Error>) -> Result<(), Error> {
    match run {
        Err(e) => Err(e),
        Ok(output) => if output.success() {
            Ok(())
        } else {
            Err(Error::IoError(helper_fault(output.status)))
        },
    }
}

/// `r` is what came of reading `filename` through the helper, launched by
/// one call of `spawn`.
pub open spec fn helper_has_read<F: Fn(&Invocation) -> Result<Output, i32>>(
    spawn: F,
    filename: Seq<char>,
    r: Result<Vec<u8>, Error>,
) -> bool {
    exists|run: Result<Output, Error>| #[trigger]
        launched(spawn, helper_read(filename), run) && r == helper_read_result(run)
}

/// `r` is what came of writing `data` to `filename` through the helper,
/// launched by one call of `spawn`.
pub open spec fn helper_has_written<F: Fn(&Invocation) -> Result<Output, i32>>(
    spawn: F,
    filename: Seq<char>,
    data: Seq<u8>,
    r: Result<(), Error>,
) -> bool {
    exists|run: Result<Output, Error>| #[trigger]
        launched(spawn, helper_write(filename, data), run) && r == helper_write_result(run)
}

/// `r` is what came of reading `filename` as root from `s`: through the
/// helper where the route says so, else by `reader`.
pub open spec fn root_read<R: Fn(&str) -> Result<Vec<u8>, i32>, F: Fn(&Invocation) -> Result<
    Output,
    i32,
>>(s: SessionState, reader: R, spawn: F, filename: &str, r: Result<Vec<u8>, Error>) -> bool {
    if root_route_spec(s) is Helper {
        helper_has_read(spawn, filename@, r)
    } else {
        plain_read(reader, filename, r)
    }
}

/// `r` is what came of writing `data` to `filename` as root from `s`:
/// through the helper where the route says so, else by `writer`.
pub open spec fn root_written<W: Fn(&str, &[u8]) -> Result<(), i32>, F: Fn(&Invocation) -> Result<
    Output,
    i32,
>>(
    s: SessionState,
    writer: W,
    spawn: F,
    filename: &str,
    data: &[u8],
    r: Result<(), Error>,
) -> bool {
    if root_route_spec(s) is Helper {
        helper_has_written(spawn, filename@, data@, r)
    } else {
        plain_written(writer, filename, data, r)
    }
}

/// The helper's error for a run that did not end with exit code 0.
fn helper_failure(status: Option<i32>) -> (e: Error)
    ensures
        e == Error::IoError(helper_fault(status)),
{
    match status {
        Some(code) => Error::IoError(IoFault::HelperExit(code)),
        None => Error::IoError(IoFault::HelperKilled),
    }
}

/// Reads the helper's run as the result of a read.
pub fn read_reply(run: Result<Output, Error>) -> (r: Result<Vec<u8>, Error>)
    ensures
        r == helper_read_result(run),
{
    match run {
        Err(e) => Err(e),
        Ok(output) => if output.success() {
            Ok(output.stdout)
        } else {
            Err(helper_failure(output.status))
        },
    }
}

/// Reads the helper's run as the result of a write.
pub fn write_reply(run: Result<Output, Error>) -> (r: Result<(), Error>)
    ensures
        r == helper_write_result(run),
{
    match run {
        Err(e) => Err(e),
        Ok(output) => if output.success() {
            Ok(())
        } else {
            Err(helper_failure(output.status))
        },
    }
}

/// The invocation of the helper that reads `filename`.
pub fn read_invocation(filename: &str) -> (inv: Invocation)
    ensures
        inv@ == helper_read(filename@),
{
    let mut args: Vec<String> = Vec::new();
    args.push("cat".to_owned());
    args.push(filename.to_owned());
    assert(texts(args@) =~= seq!["cat"@, filename@]);
    Invocation { program: HELPER.to_owned(), args, stdin: None }
}

/// The invocation of the helper that writes `data` to `filename`.
pub fn write_invocation(filename: &str, data: &[u8]) -> (inv: Invocation)
    ensures
        inv@ == helper_write(filename@, data@),
{
    let mut args: Vec<String> = Vec::new();
    args.push("sh".to_owned());
    args.push("-c".to_owned());
    args.push("cat > \"$1\"".to_owned());
    args.push("sh".to_owned());
    args.push(filename.to_owned());
    assert(texts(args@) =~= seq!["sh"@, "-c"@, "cat > \"$1\""@, "sh"@, filename@]);
    Invocation { program: HELPER.to_owned(), args, stdin: Some(slice_to_vec(data)) }
}

/// Reads a file with the identity as it is.
pub fn read<R: Fn(&str) -> Result<Vec<u8>, i32>>(filename: &str, reader: &R) -> (r: Result<
    Vec<u8>,
    Error,
>)
    requires
        call_requires(*reader, (filename,)),
    ensures
        plain_read(*reader, filename, r),
{
    let raw = reader(filename);
    assert(call_ensures(*reader, (filename,), raw));
    match raw {
        Ok(bytes) => Ok(bytes),
        Err(code) => Err(Error::IoError(IoFault::Filesystem(code))),
    }
}

/// Writes a file with the identity as it is.
pub fn write<W: Fn(&str, &[u8]) -> Result<(), i32>>(filename: &str, data: &[u8], writer: &W) -> (r:
    Result<(), Error>)
    requires
        call_requires(*writer, (filename, data)),
    ensures
        plain_written(*writer, filename, data, r),
{
    let raw = writer(filename, data);
    assert(call_ensures(*writer, (filename, data), raw));
    match raw {
        Ok(()) => Ok(()),
        Err(code) => Err(Error::IoError(IoFault::Filesystem(code))),
    }
}

/// Reads a file from a session and notes the run, with the effective
/// identity that the session has on record at that moment. The session is
/// otherwise left alone.
fn read_from<R: Fn(&str) -> Result<Vec<u8>, i32>>(
    session: &mut Session,
    filename: &str,
    reader: &R,
) -> (r: Result<Vec<u8>, Error>)
    requires
        call_requires(*reader, (filename,)),
    ensures
        plain_read(*reader, filename, r),
        final(session)@ == old(session)@,
        final(session).history() == old(session).history() + seq![
            Event::Ran(old(session)@.effective_id),
        ],
{
    session.note(Ghost(Event::Ran(session@.effective_id)));
    read(filename, reader)
}

/// Writes a file from a session and notes the run, with the effective
/// identity that the session has on record at that moment. The session is
/// otherwise left alone.
fn write_from<W: Fn(&str, &[u8]) -> Result<(), i32>>(
    session: &mut Session,
    filename: &str,
    data: &[u8],
    writer: &W,
) -> (r: Result<(), Error>)
    requires
        call_requires(*writer, (filename, data)),
    ensures
        plain_written(*writer, filename, data, r),
        final(session)@ == old(session)@,
        final(session).history() == old(session).history() + seq![
            Event::Ran(old(session)@.effective_id),
        ],
{
    session.note(Ghost(Event::Ran(session@.effective_id)));
    write(filename, data, writer)
}

/// Reads a file through the helper from a session and notes the launch.
fn read_sudo_from<F: Fn(&Invocation) -> Result<Output, i32>>(
    session: &mut Session,
    filename: &str,
    spawn: &F,
) -> (r: Result<Vec<u8>, Error>)
    requires
        spawn_accepts(*spawn, helper_read(filename@)),
    ensures
        helper_has_read(*spawn, filename@, r),
        final(session)@ == old(session)@,
        final(session).history() == old(session).history() + seq![
            Event::Ran(old(session)@.effective_id),
        ],
{
    let inv = read_invocation(filename);
    let run = launch_from(session, &inv, spawn);
    assert(launched(*spawn, helper_read(filename@), run));
    read_reply(run)
}

/// Writes a file through the helper from a session and notes the launch.
fn write_sudo_from<F: Fn(&Invocation) -> Result<Output, i32>>(
    session: &mut Session,
    filename: &str,
    data: &[u8],
    spawn: &F,
) -> (r: Result<(), Error>)
    requires
        spawn_accepts(*spawn, helper_write(filename@, data@)),
    ensures
        helper_has_written(*spawn, filename@, data@, r),
        final(session)@ == old(session)@,
        final(session).history() == old(session).history() + seq![
            Event::Ran(old(session)@.effective_id),
        ],
{
    let inv = write_invocation(filename, data);
    let run = launch_from(session, &inv, spawn);
    assert(launched(*spawn, helper_write(filename@, data@), run));
    write_reply(run)
}

/// Reads a file through the elevation helper.
///
/// The result is what the helper wrote to its standard output if it ended
/// with exit code 0, `IoError` if it ended otherwise, and `SpawnError` if it
/// could not be launched.
pub fn read_sudo<F: Fn(&Invocation) -> Result<Output, i32>>(filename: &str, spawn: &F) -> (r: Result<
    Vec<u8>,
    Error,
>)
    requires
        spawn_accepts(*spawn, helper_read(filename@)),
    ensures
        helper_has_read(*spawn, filename@, r),
{
    let inv = read_invocation(filename);
    let run = launch(&inv, spawn);
    assert(launched(*spawn, helper_read(filename@), run));
    read_reply(run)
}

/// Writes a file through the elevation helper, which then owns the file.
///
/// The result is `Ok` if the helper ended with exit code 0, `IoError` if it
/// ended otherwise, and `SpawnError` if it could not be launched.
pub fn write_sudo<F: Fn(&Invocation) -> Result<Output, i32>>(
    filename: &str,
    data: &[u8],
    spawn: &F,
) -> (r: Result<(), Error>)
    requires
        spawn_accepts(*spawn, helper_write(filename@, data@)),
    ensures
        helper_has_written(*spawn, filename@, data@, r),
{
    let inv = write_invocation(filename, data);
    let run = launch(&inv, spawn);
    assert(launched(*spawn, helper_write(filename@, data@), run));
    write_reply(run)
}

/// Reads a file as the invoking user and returns to the identity it started
/// from: see [`run_as_user`].
pub fn read_user<R: Fn(&str) -> Result<Vec<u8>, i32>>(
    session: &mut Session,
    env: &SudoEnv,
    filename: &str,
    reader: &R,
) -> (out: Outcome<Vec<u8>>)
    requires
        call_requires(*reader, (filename,)),
    ensures
        run_as_user(old(session)@, env@, final(session)@, out),
        user_run_history(
            old(session)@,
            env@,
            out,
            old(session).history(),
            final(session).history(),
        ),
        out.ran() ==> plain_read(*reader, filename, out.result),
        out.switched_cleanly() ==> final(session)@.is_elevated() == old(session)@.is_elevated(),
{
    if !is_root(session) {
        Outcome::unswitched(read_from(session, filename, reader))
    } else {
        match change_user(session, env) {
            Err(e) => Outcome::unswitched(Err(e)),
            Ok(()) => {
                let result = read_from(session, filename, reader);
                let restore = match change_root(session) {
                    Ok(()) => None,
                    Err(e) => Some(e),
                };
                Outcome { result, restore }
            },
        }
    }
}

/// Writes a file as the invoking user and returns to the identity it
/// started from: see [`run_as_user`].
pub fn write_user<W: Fn(&str, &[u8]) -> Result<(), i32>>(
    session: &mut Session,
    env: &SudoEnv,
    filename: &str,
    data: &[u8],
    writer: &W,
) -> (out: Outcome<()>)
    requires
        call_requires(*writer, (filename, data)),
    ensures
        run_as_user(old(session)@, env@, final(session)@, out),
        user_run_history(
            old(session)@,
            env@,
            out,
            old(session).history(),
            final(session).history(),
        ),
        out.ran() ==> plain_written(*writer, filename, data, out.result),
        out.switched_cleanly() ==> final(session)@.is_elevated() == old(session)@.is_elevated(),
{
    if !is_root(session) {
        Outcome::unswitched(write_from(session, filename, data, writer))
    } else {
        match change_user(session, env) {
            Err(e) => Outcome::unswitched(Err(e)),
            Ok(()) => {
                let result = write_from(session, filename, data, writer);
                let restore = match change_root(session) {
                    Ok(()) => None,
                    Err(e) => Some(e),
                };
                Outcome { result, restore }
            },
        }
    }
}

/// Reads a file as root and returns to the identity it started from: see
/// [`run_as_root`]. The helper reads the file only where
/// [`root_route_spec`] says so, and then `reader` is not called. Each of the
/// two functions needs to be callable only on the route that calls it.
pub fn read_root<R: Fn(&str) -> Result<Vec<u8>, i32>, F: Fn(&Invocation) -> Result<Output, i32>>(
    session: &mut Session,
    env: &SudoEnv,
    filename: &str,
    reader: &R,
    spawn: &F,
) -> (out: Outcome<Vec<u8>>)
    requires
        root_route_spec(old(session)@) is Direct || root_route_spec(old(session)@) is Switch
            ==> call_requires(*reader, (filename,)),
        root_route_spec(old(session)@) is Helper ==> spawn_accepts(*spawn, helper_read(filename@)),
    ensures
        run_as_root(old(session)@, env@, final(session)@, out),
        root_run_history(
            old(session)@,
            env@,
            out,
            old(session).history(),
            final(session).history(),
        ),
        out.ran() ==> root_read(old(session)@, *reader, *spawn, filename, out.result),
        out.switched_cleanly() ==> final(session)@.is_elevated() == old(session)@.is_elevated(),
{
    match root_route(session) {
        Route::Direct => Outcome::unswitched(read_from(session, filename, reader)),
        Route::Helper => Outcome::unswitched(read_sudo_from(session, filename, spawn)),
        Route::Denied => Outcome::unswitched(Err(Error::PermissionDenied)),
        Route::Switch => match change_root(session) {
            Err(e) => Outcome::unswitched(Err(e)),
            Ok(()) => {
                let result = read_from(session, filename, reader);
                let restore = match change_user(session, env) {
                    Ok(()) => None,
                    Err(e) => Some(e),
                };
                Outcome { result, restore }
            },
        },
    }
}

/// Writes a file as root and returns to the identity it started from: see
/// [`run_as_root`]. The helper writes the file only where
/// [`root_route_spec`] says so, and then `writer` is not called. Each of the
/// two functions needs to be callable only on the route that calls it.
pub fn write_root<W: Fn(&str, &[u8]) -> Result<(), i32>, F: Fn(&Invocation) -> Result<Output, i32>>(
    session: &mut Session,
    env: &SudoEnv,
    filename: &str,
    data: &[u8],
    writer: &W,
    spawn: &F,
) -> (out: Outcome<()>)
    requires
        root_route_spec(old(session)@) is Direct || root_route_spec(old(session)@) is Switch
            ==> call_requires(*writer, (filename, data)),
        root_route_spec(old(session)@) is Helper ==> spawn_accepts(
            *spawn,
            helper_write(filename@, data@),
        ),
    ensures
        run_as_root(old(session)@, env@, final(session)@, out),
        root_run_history(
            old(session)@,
            env@,
            out,
            old(session).history(),
            final(session).history(),
        ),
        out.ran() ==> root_written(old(session)@, *writer, *spawn, filename, data, out.result),
        out.switched_cleanly() ==> final(session)@.is_elevated() == old(session)@.is_elevated(),
{
    match root_route(session) {
        Route::Direct => Outcome::unswitched(write_from(session, filename, data, writer)),
        Route::Helper => Outcome::unswitched(write_sudo_from(session, filename, data, spawn)),
        Route::Denied => Outcome::unswitched(Err(Error::PermissionDenied)),
        Route::Switch => match change_root(session) {
            Err(e) => Outcome::unswitched(Err(e)),
            Ok(()) => {
                let result = write_from(session, filename, data, writer);
                let restore = match change_user(session, env) {
                    Ok(()) => None,
                    Err(e) => Some(e),
                };
                Outcome { result, restore }
            },
        },
    }
}

/// Reads a file with the identity as it is and, if that fails, once more as
/// root.
///
/// The read is repeated, through [`read_root`], only from a lowered session
/// that has a way to root, by itself or through the helper; otherwise the
/// first result is returned. There is no third read.
pub fn read_try<R: Fn(&str) -> Result<Vec<u8>, i32>, F: Fn(&Invocation) -> Result<Output, i32>>(
    session: &mut Session,
    env: &SudoEnv,
    filename: &str,
    reader: &R,
    spawn: &F,
) -> (out: Outcome<Vec<u8>>)
    requires
        call_requires(*reader, (filename,)),
        root_route_spec(old(session)@) is Helper ==> spawn_accepts(*spawn, helper_read(filename@)),
    ensures
        exists|first: Result<Vec<u8>, Error>|
            {
                &&& #[trigger] plain_read(*reader, filename, first)
                &&& if first is Ok || !retry_possible(old(session)@) {
                    &&& out == (Outcome { result: first, restore: None })
                    &&& final(session)@ == old(session)@
                    &&& final(session).history() == old(session).history() + seq![
                        Event::Ran(old(session)@.effective_id),
                    ]
                } else {
                    &&& run_as_root(old(session)@, env@, final(session)@, out)
                    &&& root_run_history(
                        old(session)@,
                        env@,
                        out,
                        old(session).history() + seq![Event::Ran(old(session)@.effective_id)],
                        final(session).history(),
                    )
                    &&& out.ran() ==> root_read(
                        old(session)@,
                        *reader,
                        *spawn,
                        filename,
                        out.result,
                    )
                }
            },
        out.switched_cleanly() ==> final(session)@.is_elevated() == old(session)@.is_elevated(),
{
    let first = read_from(session, filename, reader);
    if first.is_ok() || !can_retry(session) {
        Outcome::unswitched(first)
    } else {
        read_root(session, env, filename, reader, spawn)
    }
}

/// Writes a file with the identity as it is and, if that fails, once more
/// as root.
///
/// The write is repeated, through [`write_root`], only from a lowered
/// session that has a way to root, by itself or through the helper;
/// otherwise the first result is returned. There is no third write.
pub fn write_try<W: Fn(&str, &[u8]) -> Result<(), i32>, F: Fn(&Invocation) -> Result<Output, i32>>(
    session: &mut Session,
    env: &SudoEnv,
    filename: &str,
    data: &[u8],
    writer: &W,
    spawn: &F,
) -> (out: Outcome<()>)
    requires
        call_requires(*writer, (filename, data)),
        root_route_spec(old(session)@) is Helper ==> spawn_accepts(
            *spawn,
            helper_write(filename@, data@),
        ),
    ensures
        exists|first: Result<(), Error>|
            {
                &&& #[trigger] plain_written(*writer, filename, data, first)
                &&& if first is Ok || !retry_possible(old(session)@) {
                    &&& out == (Outcome { result: first, restore: None })
                    &&& final(session)@ == old(session)@
                    &&& final(session).history() == old(session).history() + seq![
                        Event::Ran(old(session)@.effective_id),
                    ]
                } else {
                    &&& run_as_root(old(session)@, env@, final(session)@, out)
                    &&& root_run_history(
                        old(session)@,
                        env@,
                        out,
                        old(session).history() + seq![Event::Ran(old(session)@.effective_id)],
                        final(session).history(),
                    )
                    &&& out.ran() ==> root_written(
                        old(session)@,
                        *writer,
                        *spawn,
                        filename,
                        data,
                        out.result,
                    )
                }
            },
        out.switched_cleanly() ==> final(session)@.is_elevated() == old(session)@.is_elevated(),
{
    let first = write_from(session, filename, data, writer);
    if first.is_ok() || !can_retry(session) {
        Outcome::unswitched(first)
    } else {
        write_root(session, env, filename, data, writer, spawn)
    }
}

} // verus!
