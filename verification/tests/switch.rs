use uidmng::{
    change_root, change_user, elevate_step, has_root, is_root, lower_step, settle, switch_order,
    ConfigFault, Error, Identity, Session, SetId, Step, SudoEnv, SwitchFailure,
};

const USER: Identity = Identity { uid: 1000, gid: 1000 };
const ROOT: Identity = Identity { uid: 0, gid: 0 };

fn env(uid: Option<&str>, gid: Option<&str>) -> SudoEnv {
    SudoEnv { uid: uid.map(str::to_string), gid: gid.map(str::to_string) }
}

fn nobody() -> SudoEnv {
    env(Some("65534"), Some("65534"))
}

#[test]
fn root_is_user_zero() {
    assert_eq!(Identity::root(), ROOT);
    assert!(Identity::root().is_root());
    assert!(Identity::new(0, 1000).is_root());
    assert!(!Identity::new(1000, 0).is_root());
    assert!(!USER.is_root());
}

#[test]
fn a_new_session_records_what_it_was_given() {
    let session = Session::new(ROOT, USER);
    assert_eq!(session.real_identity(), ROOT);
    assert_eq!(session.effective_identity(), USER);
    assert!(has_root(&session));
    assert!(!is_root(&session));
    let session = Session::new(USER, ROOT);
    assert!(!has_root(&session));
    assert!(is_root(&session));
}

#[test]
fn elevate_step_decides_from_the_session() {
    assert_eq!(elevate_step(&Session::new(ROOT, ROOT)), Ok(Step::Stay));
    assert_eq!(elevate_step(&Session::new(USER, ROOT)), Ok(Step::Stay));
    assert_eq!(elevate_step(&Session::new(ROOT, Identity::new(0, 1000))), Ok(Step::Stay));
    assert_eq!(elevate_step(&Session::new(ROOT, USER)), Ok(Step::Switch(ROOT)));
    assert_eq!(elevate_step(&Session::new(Identity::new(0, 1000), USER)), Ok(Step::Switch(ROOT)));
    assert_eq!(elevate_step(&Session::new(USER, USER)), Err(Error::PermissionDenied));
    assert_eq!(elevate_step(&Session::new(Identity::new(1000, 0), USER)), Err(Error::PermissionDenied));
}

#[test]
fn lower_step_decides_from_session_and_environment() {
    let lowered = Session::new(ROOT, USER);
    assert_eq!(lower_step(&lowered, &env(Some("1000"), Some("1000"))), Ok(Step::Stay));
    assert_eq!(lower_step(&lowered, &env(None, None)), Ok(Step::Stay));
    assert_eq!(lower_step(&lowered, &env(Some("0"), Some("0"))), Ok(Step::Stay));

    let elevated = Session::new(ROOT, ROOT);
    assert_eq!(
        lower_step(&elevated, &env(Some("1000"), Some("100"))),
        Ok(Step::Switch(Identity::new(1000, 100)))
    );
    assert_eq!(
        lower_step(&elevated, &env(None, Some("100"))),
        Err(Error::ConfigError(ConfigFault::MissingUid))
    );
    assert_eq!(
        lower_step(&elevated, &env(Some("1000"), None)),
        Err(Error::ConfigError(ConfigFault::MissingGid))
    );
    assert_eq!(
        lower_step(&elevated, &env(Some("one"), Some("100"))),
        Err(Error::ConfigError(ConfigFault::MalformedUid))
    );
    assert_eq!(
        lower_step(&elevated, &env(Some("1000"), Some("-1"))),
        Err(Error::ConfigError(ConfigFault::MalformedGid))
    );
    assert_eq!(
        lower_step(&elevated, &env(Some("0"), Some("100"))),
        Err(Error::ConfigError(ConfigFault::RootUid))
    );
}

#[test]
fn the_group_is_set_before_the_user() {
    assert_eq!(switch_order(ROOT), (SetId::Group(0), SetId::User(0)));
    assert_eq!(switch_order(Identity::new(1000, 100)), (SetId::Group(100), SetId::User(1000)));
}

#[test]
fn settle_records_the_target_after_success() {
    let mut session = Session::new(ROOT, ROOT);
    assert_eq!(settle(&mut session, USER, Ok(())), Ok(()));
    assert_eq!(session.effective_identity(), USER);
    assert_eq!(session.real_identity(), ROOT);
    assert!(!is_root(&session));
}

#[test]
fn settle_records_what_was_observed_after_failure() {
    let mut session = Session::new(ROOT, USER);
    let half_way = Identity::new(1000, 0);
    let failure = SwitchFailure { errno: 1, observed: half_way };
    assert_eq!(settle(&mut session, ROOT, Err(failure)), Err(Error::OsError(1)));
    assert_eq!(session.effective_identity(), half_way);
    assert_eq!(session.real_identity(), ROOT);
}

#[test]
fn lowering_then_elevating_restores_root() {
    let mut session = Session::new(ROOT, ROOT);
    for (uid, gid, ok) in [
        (Some("1000"), Some("1000"), true),
        (Some("1000"), Some("0"), true),
        (None, Some("1000"), false),
        (Some("1000"), None, false),
        (Some("0"), Some("1000"), false),
        (Some("root"), Some("1000"), false),
        (Some("1000"), Some("wheel"), false),
        (Some(""), Some(""), false),
    ] {
        let step = lower_step(&session, &env(uid, gid));
        assert_eq!(step.is_ok(), ok, "on {:?} and {:?}", uid, gid);
        if let Ok(Step::Switch(user)) = step {
            assert_eq!(settle(&mut session, user, Ok(())), Ok(()));
            assert!(!is_root(&session));
            assert_eq!(lower_step(&session, &env(None, None)), Ok(Step::Stay));
            let back = elevate_step(&session);
            assert_eq!(back, Ok(Step::Switch(ROOT)));
            assert_eq!(settle(&mut session, ROOT, Ok(())), Ok(()));
        }
        assert!(is_root(&session));
        assert_eq!(session.effective_identity(), ROOT);
        assert_eq!(elevate_step(&session), Ok(Step::Stay));
    }
}

#[test]
fn change_root_on_an_elevated_session_does_nothing() {
    let mut session = Session::new(ROOT, ROOT);
    assert_eq!(change_root(&mut session), Ok(()));
    assert_eq!(session.effective_identity(), ROOT);
    assert_eq!(change_root(&mut session), Ok(()));
    assert_eq!(session.effective_identity(), ROOT);

    let mut odd = Session::new(USER, Identity::new(0, 1000));
    assert_eq!(change_root(&mut odd), Ok(()));
    assert_eq!(odd.effective_identity(), Identity::new(0, 1000));
}

#[test]
fn change_root_without_root_capability_is_denied() {
    let mut session = Session::new(USER, USER);
    assert_eq!(change_root(&mut session), Err(Error::PermissionDenied));
    assert_eq!(session.effective_identity(), USER);
    assert_eq!(change_root(&mut session), Err(Error::PermissionDenied));
    assert_eq!(session.effective_identity(), USER);
}

#[test]
fn change_user_on_a_lowered_session_does_nothing() {
    let mut session = Session::new(ROOT, USER);
    assert_eq!(change_user(&mut session, &env(None, None)), Ok(()));
    assert_eq!(session.effective_identity(), USER);
    assert_eq!(change_user(&mut session, &env(Some("0"), Some("0"))), Ok(()));
    assert_eq!(session.effective_identity(), USER);
    assert_eq!(change_user(&mut session, &nobody()), Ok(()));
    assert_eq!(session.effective_identity(), USER);
}

#[test]
fn change_user_refuses_a_bad_environment() {
    let mut session = Session::new(ROOT, ROOT);
    for (uid, gid, fault) in [
        (None, None, ConfigFault::MissingUid),
        (None, Some("1000"), ConfigFault::MissingUid),
        (Some("x"), Some("1000"), ConfigFault::MalformedUid),
        (Some("4294967296"), Some("1000"), ConfigFault::MalformedUid),
        (Some("1000"), None, ConfigFault::MissingGid),
        (Some("1000"), Some("1000 "), ConfigFault::MalformedGid),
        (Some("0"), Some("1000"), ConfigFault::RootUid),
        (Some("0"), Some("0"), ConfigFault::RootUid),
        (Some("+0"), Some("0"), ConfigFault::RootUid),
    ] {
        assert_eq!(change_user(&mut session, &env(uid, gid)), Err(Error::ConfigError(fault)));
        assert_eq!(session.effective_identity(), ROOT);
        assert!(is_root(&session));
    }
}

#[test]
fn the_running_process_can_be_asked() {
    let first = Session::current();
    let second = Session::current();
    assert_eq!(first.real_identity(), second.real_identity());
    assert_eq!(first.effective_identity(), second.effective_identity());
    assert!(!uidmng::allow_sudo(&first));
    assert_eq!(is_root(&first), first.effective_identity().uid == 0);
    assert_eq!(has_root(&first), first.real_identity().uid == 0);
}

#[test]
fn switching_the_running_process() {
    let mut session = Session::current();
    let started = session.effective_identity();
    if is_root(&session) && has_root(&session) {
        assert_eq!(change_user(&mut session, &nobody()), Ok(()));
        assert_eq!(session.effective_identity(), Identity::new(65534, 65534));
        assert_eq!(Session::current().effective_identity(), Identity::new(65534, 65534));
        assert_eq!(change_user(&mut session, &nobody()), Ok(()));
        assert_eq!(change_root(&mut session), Ok(()));
        assert_eq!(session.effective_identity(), ROOT);
        assert_eq!(Session::current().effective_identity(), ROOT);
        assert_eq!(change_root(&mut session), Ok(()));
    } else if !has_root(&session) {
        assert_eq!(change_root(&mut session), Err(Error::PermissionDenied));
        assert_eq!(session.effective_identity(), started);
        assert_eq!(Session::current().effective_identity(), started);
    }
}

#[test]
fn the_operating_system_has_the_last_word() {
    let truth = Session::current();
    if !is_root(&truth) {
        let mut mistaken = Session::new(ROOT, ROOT);
        let r = change_user(&mut mistaken, &nobody());
        if truth.effective_identity() == Identity::new(65534, 65534) {
            assert_eq!(r, Ok(()));
        } else {
            assert!(matches!(r, Err(Error::OsError(_))), "got {:?}", r);
            assert_eq!(mistaken.effective_identity(), truth.effective_identity());
        }
        assert_eq!(mistaken.real_identity(), ROOT);
        assert_eq!(Session::current().effective_identity(), truth.effective_identity());

        let mut hopeful = Session::new(ROOT, truth.effective_identity());
        let r = change_root(&mut hopeful);
        assert!(matches!(r, Err(Error::OsError(_))), "got {:?}", r);
        assert_eq!(hopeful.effective_identity(), truth.effective_identity());
        assert_eq!(Session::current().effective_identity(), truth.effective_identity());
    }
}
