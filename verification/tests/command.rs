use std::cell::RefCell;
use uidmng::file::{read_invocation, read_reply, write_invocation, write_reply};
use uidmng::{
    can_retry, command, command_sudo, helper_invocation, invocation, launch, root_route,
    set_allow_sudo, Error, Identity, Invocation, IoFault, Outcome, Output, Route, Session, HELPER,
};

const USER: Identity = Identity { uid: 1000, gid: 1000 };
const ROOT: Identity = Identity { uid: 0, gid: 0 };

fn strings(words: &[&str]) -> Vec<String> {
    words.iter().map(|w| w.to_string()).collect()
}

fn ended(status: Option<i32>, stdout: &[u8]) -> Output {
    Output { status, stdout: stdout.to_vec(), stderr: Vec::new() }
}

#[test]
fn the_helper_is_sudo() {
    assert_eq!(HELPER, "sudo");
}

#[test]
fn an_invocation_keeps_program_and_arguments() {
    let inv = invocation("ls", &strings(&["-l", "-a", "/tmp"]));
    assert_eq!(inv.program, "ls");
    assert_eq!(inv.args, strings(&["-l", "-a", "/tmp"]));
    assert_eq!(inv.stdin, None);
    let bare = invocation("true", &[]);
    assert_eq!(bare.program, "true");
    assert!(bare.args.is_empty());
}

#[test]
fn the_helper_takes_the_program_as_first_argument() {
    let inv = helper_invocation("touch", &strings(&["/tmp/a", "/tmp/b"]));
    assert_eq!(inv.program, "sudo");
    assert_eq!(inv.args, strings(&["touch", "/tmp/a", "/tmp/b"]));
    assert_eq!(inv.stdin, None);
    let bare = helper_invocation("id", &[]);
    assert_eq!(bare.program, "sudo");
    assert_eq!(bare.args, strings(&["id"]));
}

#[test]
fn the_helper_reads_with_cat() {
    let inv = read_invocation("/etc/shadow");
    assert_eq!(inv.program, "sudo");
    assert_eq!(inv.args, strings(&["cat", "/etc/shadow"]));
    assert_eq!(inv.stdin, None);
}

#[test]
fn the_helper_reads_a_name_that_looks_like_an_option() {
    let inv = read_invocation("-n");
    assert_eq!(inv.args, strings(&["cat", "-n"]));
    let inv = read_invocation("--help");
    assert_eq!(inv.args, strings(&["cat", "--help"]));
}

#[test]
fn the_helper_writes_with_a_shell() {
    let inv = write_invocation("/tmp/x", b"da\0ta");
    assert_eq!(inv.program, "sudo");
    assert_eq!(inv.args, strings(&["sh", "-c", "cat > \"$1\"", "sh", "/tmp/x"]));
    assert_eq!(inv.stdin, Some(b"da\0ta".to_vec()));
    let empty = write_invocation("", &[]);
    assert_eq!(empty.args, strings(&["sh", "-c", "cat > \"$1\"", "sh", ""]));
    assert_eq!(empty.stdin, Some(Vec::new()));
}

#[test]
fn the_file_name_is_an_argument_of_its_own() {
    for name in [
        "/tmp/a b.txt",
        "/tmp/x; id",
        "/tmp/$(id)",
        "/tmp/`id`",
        "/tmp/x\ny",
        "/tmp/\"quoted\"",
        "/tmp/it's",
        "/tmp/x > /etc/passwd",
        "/tmp/x && rm -rf /",
        "-rf",
        "$1",
        "*",
    ] {
        let inv = write_invocation(name, b"data");
        assert_eq!(inv.args.len(), 5, "on {:?}", name);
        assert_eq!(inv.args[0], "sh");
        assert_eq!(inv.args[1], "-c");
        assert_eq!(inv.args[2], "cat > \"$1\"");
        assert_eq!(inv.args[3], "sh");
        assert_eq!(inv.args[4], name);
        let inv = read_invocation(name);
        assert_eq!(inv.args, strings(&["cat", name]));
    }
}

#[test]
fn only_exit_code_zero_is_success() {
    assert!(ended(Some(0), b"").success());
    assert!(!ended(Some(1), b"").success());
    assert!(!ended(Some(-1), b"").success());
    assert!(!ended(Some(255), b"").success());
    assert!(!ended(None, b"").success());
}

#[test]
fn launch_hands_the_invocation_to_spawn() {
    let seen: RefCell<Vec<Invocation>> = RefCell::new(Vec::new());
    let spawn = |inv: &Invocation| {
        seen.borrow_mut().push(Invocation {
            program: inv.program.clone(),
            args: inv.args.clone(),
            stdin: inv.stdin.clone(),
        });
        Ok(ended(Some(3), b"out"))
    };
    let inv = invocation("make", &strings(&["all"]));
    assert_eq!(launch(&inv, &spawn), Ok(ended(Some(3), b"out")));
    assert_eq!(seen.borrow().len(), 1);
    assert_eq!(seen.borrow()[0], inv);
}

#[test]
fn command_returns_the_output_whatever_the_exit_code() {
    let spawn = |inv: &Invocation| {
        assert_eq!(inv.program, "false");
        assert!(inv.args.is_empty());
        Ok(ended(Some(1), b""))
    };
    assert_eq!(command("false", &[], &spawn), Ok(ended(Some(1), b"")));
}

#[test]
fn command_names_a_failed_launch() {
    let spawn = |_: &Invocation| Err(2);
    assert_eq!(command("no-such-program", &[], &spawn), Err(Error::SpawnError(2)));
    assert_eq!(command_sudo("ls", &[], &spawn), Err(Error::SpawnError(2)));
}

#[test]
fn test_command_sudo() {
    let spawn = |inv: &Invocation| {
        if inv.program == "sudo" && inv.args.first().map(String::as_str) == Some("echo") {
            let mut line = inv.args[1..].join(" ").into_bytes();
            line.push(b'\n');
            Ok(ended(Some(0), &line))
        } else {
            Err(2)
        }
    };
    let output: Output = command_sudo("echo", &strings(&["Hello, world!"]), &spawn).unwrap();
    println!("Output: {:?}", output);
    assert_eq!(output.stdout, b"Hello, world!\n");
}

#[test]
fn a_helper_read_gives_bytes_only_on_success() {
    assert_eq!(read_reply(Ok(ended(Some(0), b"data"))), Ok(b"data".to_vec()));
    assert_eq!(read_reply(Ok(ended(Some(0), b""))), Ok(Vec::new()));
    assert_eq!(read_reply(Ok(ended(Some(0), b"\0\xff\0"))), Ok(b"\0\xff\0".to_vec()));
    assert_eq!(
        read_reply(Ok(ended(Some(1), b"partial"))),
        Err(Error::IoError(IoFault::HelperExit(1)))
    );
    assert_eq!(
        read_reply(Ok(ended(Some(127), b""))),
        Err(Error::IoError(IoFault::HelperExit(127)))
    );
    assert_eq!(read_reply(Ok(ended(None, b"partial"))), Err(Error::IoError(IoFault::HelperKilled)));
    assert_eq!(read_reply(Err(Error::SpawnError(2))), Err(Error::SpawnError(2)));
}

#[test]
fn a_helper_write_succeeds_only_on_exit_code_zero() {
    assert_eq!(write_reply(Ok(ended(Some(0), b""))), Ok(()));
    assert_eq!(write_reply(Ok(ended(Some(0), b"noise"))), Ok(()));
    assert_eq!(write_reply(Ok(ended(Some(1), b""))), Err(Error::IoError(IoFault::HelperExit(1))));
    assert_eq!(write_reply(Ok(ended(None, b""))), Err(Error::IoError(IoFault::HelperKilled)));
    assert_eq!(write_reply(Err(Error::SpawnError(13))), Err(Error::SpawnError(13)));
}

#[test]
fn the_route_to_root_depends_on_identity_and_policy() {
    for allowed in [false, true] {
        let mut elevated = Session::new(ROOT, ROOT);
        set_allow_sudo(&mut elevated, allowed);
        assert_eq!(root_route(&elevated), Route::Direct);
        assert!(!can_retry(&elevated));

        let mut set_uid = Session::new(USER, ROOT);
        set_allow_sudo(&mut set_uid, allowed);
        assert_eq!(root_route(&set_uid), Route::Direct);
        assert!(!can_retry(&set_uid));

        let mut capable = Session::new(ROOT, USER);
        set_allow_sudo(&mut capable, allowed);
        assert_eq!(root_route(&capable), Route::Switch);
        assert!(can_retry(&capable));
    }
    let mut plain = Session::new(USER, USER);
    assert_eq!(root_route(&plain), Route::Denied);
    assert!(!can_retry(&plain));
    set_allow_sudo(&mut plain, true);
    assert_eq!(root_route(&plain), Route::Helper);
    assert!(can_retry(&plain));
    set_allow_sudo(&mut plain, false);
    assert_eq!(root_route(&plain), Route::Denied);
}

#[test]
fn an_outcome_knows_whether_the_operation_ran() {
    let fine: Outcome<u8> = Outcome::unswitched(Ok(1));
    assert_eq!(fine, Outcome { result: Ok(1), restore: None });
    assert!(fine.has_run());
    assert!(fine.is_clean());

    let failed: Outcome<u8> = Outcome::unswitched(Err(Error::IoError(IoFault::Filesystem(13))));
    assert!(failed.has_run());
    assert!(!failed.is_clean());

    let unlaunched: Outcome<u8> = Outcome::unswitched(Err(Error::SpawnError(2)));
    assert!(unlaunched.has_run());

    for e in [
        Error::PermissionDenied,
        Error::OsError(1),
        Error::ConfigError(uidmng::ConfigFault::MissingUid),
    ] {
        let refused: Outcome<u8> = Outcome::unswitched(Err(e));
        assert!(!refused.has_run());
        assert!(!refused.is_clean());
    }

    let stuck: Outcome<u8> = Outcome { result: Ok(1), restore: Some(Error::OsError(1)) };
    assert!(stuck.has_run());
    assert!(!stuck.is_clean());
}
