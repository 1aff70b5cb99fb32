use harmonic::text::{decimal_string, join_strings};
use harmonic::{
    check_status, Action, ActionState, CommandError, CreateGroup, CreateNixTreeDirs,
    CreateUser, CreateUserError, CreateUsersAndGroup, CreateUsersAndGroupError, InstallPlan,
    InstallSettings, JoinFailure, UserTaskOutcome,
};

fn settings(count: usize) -> InstallSettings {
    InstallSettings {
        daemon_user_count: count,
        nix_build_group_name: String::from("nixbld"),
        nix_build_group_id: 3000,
        nix_build_user_prefix: String::from("nixbld"),
        nix_build_user_id_base: 3001,
    }
}

fn user_error(cmd: &str) -> CreateUserError {
    CreateUserError::Command(CommandError { command: String::from(cmd) })
}

fn planned(count: usize) -> CreateUsersAndGroup {
    CreateUsersAndGroup::plan(settings(count)).unwrap()
}

fn executed(count: usize) -> CreateUsersAndGroup {
    let mut c = planned(count);
    c.record_group_execute(Ok(())).unwrap();
    let outcomes = (0..count).map(UserTaskOutcome::Succeeded).collect();
    c.record_users_execute(outcomes).unwrap();
    c
}

#[test]
fn decimal_rendering() {
    assert_eq!(decimal_string(0), "0");
    assert_eq!(decimal_string(7), "7");
    assert_eq!(decimal_string(3001), "3001");
    assert_eq!(decimal_string(usize::MAX), usize::MAX.to_string());
}

#[test]
fn joining() {
    let parts = vec![String::from("a"), String::from("bc"), String::from("d")];
    assert_eq!(join_strings(&parts, " & "), "a & bc & d");
    assert_eq!(join_strings(&vec![], " & "), "");
    assert_eq!(join_strings(&vec![String::from("x")], " & "), "x");
}

#[test]
fn plan_derives_children_from_settings() {
    let c = planned(3);
    assert_eq!(c.create_users.len(), 3);
    assert_eq!(c.create_group.name, "nixbld");
    assert_eq!(c.create_group.gid, 3000);
    for (i, u) in c.create_users.iter().enumerate() {
        assert_eq!(u.name, format!("nixbld{i}"));
        assert_eq!(u.uid, 3001 + i);
        assert_eq!(u.gid, 3000);
        assert_eq!(u.action_state, ActionState::Planned);
    }
    assert_eq!(c.action_state, ActionState::Planned);
    assert_eq!(c.create_group.action_state, ActionState::Planned);
}

#[test]
fn plan_with_no_users() {
    let c = planned(0);
    assert!(c.create_users.is_empty());
}

#[test]
fn plan_at_the_largest_ids() {
    let mut s = settings(2);
    s.nix_build_user_id_base = usize::MAX - 1;
    let c = CreateUsersAndGroup::plan(s).unwrap();
    assert_eq!(c.create_users[1].uid, usize::MAX);
    assert_eq!(c.create_users[1].name, "nixbld1");
}

#[test]
fn all_children_succeed() {
    let c = executed(4);
    assert_eq!(c.action_state, ActionState::Completed);
    assert_eq!(c.create_group.action_state, ActionState::Completed);
    assert!(c.create_users.iter().all(|u| u.action_state == ActionState::Completed));
}

#[test]
fn outcomes_arrive_out_of_order() {
    let mut c = planned(3);
    c.record_group_execute(Ok(())).unwrap();
    let outcomes = vec![
        UserTaskOutcome::Succeeded(2),
        UserTaskOutcome::Succeeded(0),
        UserTaskOutcome::Succeeded(1),
    ];
    assert!(c.record_users_execute(outcomes).is_ok());
    assert!(c.users_all_in(ActionState::Completed));
}

#[test]
fn group_failure_is_unwrapped() {
    let mut c = planned(2);
    let r = c.record_group_execute(Err(CommandError { command: String::from("groupadd") }));
    match r {
        Err(CreateUsersAndGroupError::CreateGroup(e)) => {
            assert_eq!(e.message(), "Command `groupadd` failed status")
        },
        other => panic!("unexpected {other:?}"),
    }
    assert_eq!(c.create_group.action_state, ActionState::Planned);
    assert_eq!(c.users_to_execute(), vec![0, 1]);
}

#[test]
fn single_user_failure_is_unwrapped() {
    let mut c = planned(3);
    c.record_group_execute(Ok(())).unwrap();
    let outcomes = vec![
        UserTaskOutcome::Succeeded(0),
        UserTaskOutcome::Failed(user_error("useradd nixbld1")),
        UserTaskOutcome::Succeeded(2),
    ];
    match c.record_users_execute(outcomes) {
        Err(CreateUsersAndGroupError::CreateUser(CreateUserError::Command(e))) => {
            assert_eq!(e.command, "useradd nixbld1")
        },
        other => panic!("unexpected {other:?}"),
    }
    assert_eq!(c.action_state, ActionState::Planned);
    assert_eq!(c.create_users[0].action_state, ActionState::Completed);
    assert_eq!(c.create_users[1].action_state, ActionState::Planned);
    assert_eq!(c.create_users[2].action_state, ActionState::Completed);
    assert_eq!(c.users_to_execute(), vec![1]);
}

#[test]
fn several_user_failures_are_aggregated() {
    let mut c = planned(3);
    c.record_group_execute(Ok(())).unwrap();
    let outcomes = vec![
        UserTaskOutcome::Failed(user_error("a")),
        UserTaskOutcome::Succeeded(1),
        UserTaskOutcome::Failed(user_error("b")),
    ];
    let e = c.record_users_execute(outcomes).unwrap_err();
    match &e {
        CreateUsersAndGroupError::CreateUsers(v) => assert_eq!(v.len(), 2),
        other => panic!("unexpected {other:?}"),
    }
    assert_eq!(
        e.message(),
        "Multiple errors: Command `a` failed status & Command `b` failed status"
    );
    assert_eq!(c.create_users[1].action_state, ActionState::Completed);
    assert_eq!(c.action_state, ActionState::Planned);
}

#[test]
fn crash_is_fatal_and_distinct() {
    let mut c = planned(3);
    c.record_group_execute(Ok(())).unwrap();
    let outcomes = vec![
        UserTaskOutcome::Succeeded(0),
        UserTaskOutcome::Failed(user_error("a")),
        UserTaskOutcome::Crashed(JoinFailure { message: String::from("task panicked") }),
        UserTaskOutcome::Succeeded(2),
    ];
    match c.record_users_execute(outcomes) {
        Err(CreateUsersAndGroupError::Join(f)) => assert_eq!(f.message, "task panicked"),
        other => panic!("unexpected {other:?}"),
    }
    assert_eq!(c.create_users[0].action_state, ActionState::Completed);
    assert_eq!(c.create_users[2].action_state, ActionState::Planned);
    assert_eq!(c.action_state, ActionState::Planned);
}

#[test]
fn revert_failure_keeps_group() {
    let mut c = executed(3);
    assert_eq!(c.users_to_revert(), vec![0, 1, 2]);
    let outcomes = vec![
        UserTaskOutcome::Succeeded(0),
        UserTaskOutcome::Failed(user_error("userdel nixbld1")),
        UserTaskOutcome::Succeeded(2),
    ];
    assert!(c.record_users_revert(outcomes).is_err());
    assert_eq!(c.create_group.action_state, ActionState::Completed);
    assert_eq!(c.action_state, ActionState::Completed);
    assert_eq!(c.create_users[0].action_state, ActionState::Reverted);
    assert_eq!(c.create_users[1].action_state, ActionState::Completed);
    assert_eq!(c.create_users[2].action_state, ActionState::Reverted);
    assert!(!c.users_all_in(ActionState::Reverted));
    assert_eq!(c.users_to_revert(), vec![1]);

    assert!(c.record_users_revert(vec![UserTaskOutcome::Succeeded(1)]).is_ok());
    assert!(c.users_all_in(ActionState::Reverted));
    assert!(c.record_group_revert(Ok(())).is_ok());
    assert_eq!(c.create_group.action_state, ActionState::Reverted);
    assert_eq!(c.action_state, ActionState::Reverted);
}

#[test]
fn group_revert_failure_leaves_group_completed() {
    let mut c = executed(1);
    c.record_users_revert(vec![UserTaskOutcome::Succeeded(0)]).unwrap();
    let r = c.record_group_revert(Err(CommandError { command: String::from("groupdel") }));
    assert!(matches!(r, Err(CreateUsersAndGroupError::CreateGroup(_))));
    assert_eq!(c.create_group.action_state, ActionState::Completed);
    assert_eq!(c.action_state, ActionState::Completed);
}

#[test]
fn composite_description() {
    let d = planned(32).description();
    assert_eq!(d.len(), 1);
    assert_eq!(d[0].description, "Create build users and group");
    assert_eq!(d[0].explanation.len(), 3);
    assert_eq!(d[0].explanation[1], "Create group `nixbld` with uid `3000`");
    assert_eq!(
        d[0].explanation[2],
        "Create 32 users with prefix `nixbld` starting at uid `3001`"
    );
}

#[test]
fn leaf_commands() {
    let g = CreateGroup::plan(String::from("nixbld"), 3000);
    assert_eq!(g.execute_command(), vec!["groupadd", "-g", "3000", "--system", "nixbld"]);
    assert_eq!(g.revert_command(), vec!["groupdel", "nixbld"]);
    let u = CreateUser::plan(String::from("nixbld4"), 3005, 3000);
    let args = u.execute_command();
    assert_eq!(args[0], "useradd");
    assert_eq!(args[6], "3000");
    assert_eq!(args[14], "3005");
    assert_eq!(args[17], "nixbld4");
    assert_eq!(u.revert_command(), vec!["userdel", "nixbld4"]);
    assert_eq!(
        u.description()[0].description,
        "Create user `nixbld4` with UID `3005` in group `3000`"
    );
    assert_eq!(g.description()[0].description, "Create group `nixbld` with GID `3000`");
}

#[test]
fn leaf_state_transitions() {
    let mut u = CreateUser::plan(String::from("u"), 1, 2);
    assert!(u.record_execute(Err(CommandError { command: String::from("x") })).is_err());
    assert_eq!(u.action_state, ActionState::Planned);
    assert!(u.record_execute(Ok(())).is_ok());
    assert_eq!(u.action_state, ActionState::Completed);
    assert!(u.record_revert(Ok(())).is_ok());
    assert_eq!(u.action_state, ActionState::Reverted);
}

#[test]
fn status_check() {
    assert!(check_status(String::from("true"), true).is_ok());
    let e = check_status(String::from("false"), false).unwrap_err();
    assert_eq!(e.command, "false");
    assert_eq!(e.message(), "Command `false` failed status");
}

#[test]
fn nix_tree_dirs_lifecycle() {
    let mut d = CreateNixTreeDirs::plan(String::from("nixbld"), 3000);
    assert_eq!(d.action_state, ActionState::Planned);
    assert_eq!(d.description()[0].description, "Create a directory tree in `/nix`");
    let _receipt = d.execute();
    assert_eq!(d.action_state, ActionState::Completed);
    d.revert();
    assert_eq!(d.action_state, ActionState::Reverted);
}

#[test]
fn plan_orders_install_and_revert() {
    let mut p = InstallPlan::plan(settings(2));
    assert_eq!(p.actions.len(), 2);
    assert_eq!(p.description().len(), 2);
    assert_eq!(p.next_to_install(), Some(0));
    assert_eq!(p.next_to_revert(), None);
    if let Action::CreateNixTreeDirs(d) = &mut p.actions[0] {
        d.execute();
    }
    assert_eq!(p.next_to_install(), Some(1));
    assert_eq!(p.next_to_revert(), Some(0));
    if let Action::CreateUsersAndGroup(c) = &mut p.actions[1] {
        *c = executed(2);
    }
    assert_eq!(p.next_to_install(), None);
    assert_eq!(p.next_to_revert(), Some(1));
    let a: Action = planned(1).into();
    assert_eq!(a.action_state(), ActionState::Planned);
}
