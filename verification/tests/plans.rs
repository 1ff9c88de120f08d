use nsbox::container::context::Context;
use nsbox::container::outcome::{run_outcome, RunError, StepFailure};
use nsbox::container::plan::{apply_action, Action};
use nsbox::container::step::mount_namespace::{overlay_data, MountNamespace, MountOperation};
use nsbox::container::step::pid_namespace::PIDNamespace;
use nsbox::container::step::run_command::RunCommand;
use nsbox::container::step::switch_user::SwitchUser;
use nsbox::container::step::switch_working_directory::SwitchWorkingDirectory;
use nsbox::container::step::user_namespace::UserNamespaceRoot;
use nsbox::container::step::Step;
use nsbox::container::ContainerBuilder;
use nsbox::container::{Group, IdMap, User};
use nsbox::linux::{SwitchUserError, SwitchUserErrorKind, SwitchUserProperty};
use nsbox::{CLONE_NEWPID, CLONE_NEWUSER};

fn single_user_ns(next: Step) -> Step {
    let mut uid_map: IdMap<User> = IdMap::new();
    uid_map.add(0, 1234, 1);
    let mut gid_map: IdMap<Group> = IdMap::new();
    gid_map.add(0, 1234, 1);
    let root =
        UserNamespaceRoot::with_capabilities(uid_map, gid_map, Some((0, 0)), next, true, true)
            .unwrap();
    Step::UserNamespace(root)
}

fn run_true() -> Step {
    Step::RunCommand(RunCommand::new(b"/bin/true".to_vec(), Vec::new()))
}

#[test]
fn minimal_single_user_container_plan() {
    let plan = ContainerBuilder::new(single_user_ns(run_true())).run();
    let expected = vec![
        Action::CreateEventChannels,
        Action::CloneChild { flags: CLONE_NEWUSER },
        Action::ChildSignalsReady,
        Action::AwaitChildReady,
        Action::WriteUidMap { content: b"0 1234 1\n".to_vec() },
        Action::WriteSetgroupsDeny,
        Action::WriteGidMap { content: b"0 1234 1\n".to_vec() },
        Action::ReleaseChild,
        Action::ChildAwaitsRelease,
        Action::SwitchUser { uid: 0, gid: 0 },
        Action::Execute { program: b"/bin/true".to_vec(), args: Vec::new() },
        Action::AwaitChild,
    ];
    assert_eq!(plan, expected);
}

#[test]
fn gid_map_write_comes_after_setgroups_deny() {
    let plan = ContainerBuilder::new(single_user_ns(run_true())).run();
    let deny = plan
        .iter()
        .position(|a| matches!(a, Action::WriteSetgroupsDeny))
        .unwrap();
    let gid = plan
        .iter()
        .position(|a| matches!(a, Action::WriteGidMap { .. }))
        .unwrap();
    assert!(deny < gid);
}

#[test]
fn uid_map_write_sits_inside_the_rendezvous() {
    let plan = ContainerBuilder::new(single_user_ns(run_true())).run();
    let ready = plan
        .iter()
        .position(|a| matches!(a, Action::AwaitChildReady))
        .unwrap();
    let uid = plan
        .iter()
        .position(|a| matches!(a, Action::WriteUidMap { .. }))
        .unwrap();
    let release = plan
        .iter()
        .position(|a| matches!(a, Action::ReleaseChild))
        .unwrap();
    assert!(ready < uid && uid < release);
}

#[test]
fn every_clone_is_followed_by_a_wait() {
    let inner = Step::PidNamespace(PIDNamespace::new(run_true()));
    let plan = ContainerBuilder::new(single_user_ns(inner)).run();
    let clones = plan
        .iter()
        .filter(|a| matches!(a, Action::CloneChild { .. }))
        .count();
    let waits = plan
        .iter()
        .filter(|a| matches!(a, Action::AwaitChild))
        .count();
    assert_eq!(clones, 2);
    assert_eq!(clones, waits);
    let last_clone = plan
        .iter()
        .rposition(|a| matches!(a, Action::CloneChild { .. }))
        .unwrap();
    assert!(plan[last_clone + 1..].iter().any(|a| matches!(a, Action::AwaitChild)));
}

#[test]
fn overlay_data_string_is_exact() {
    let data = overlay_data(b"/low", b"/up", b"/work");
    assert_eq!(data, b"lowerdir=/low,upperdir=/up,workdir=/work".to_vec());
}

#[test]
fn switch_root_with_overlay_expands_to_three_operations() {
    let ops = MountOperation::switch_root_with_overlay(
        b"/low", b"/up", b"/work", b"/merged", b"put-old",
    );
    assert_eq!(
        ops,
        vec![
            MountOperation::OverlayMount {
                lower: b"/low".to_vec(),
                upper: b"/up".to_vec(),
                work: b"/work".to_vec(),
                merged: b"/merged".to_vec(),
            },
            MountOperation::BindMount {
                src: Some(b"/merged".to_vec()),
                target: b"/merged".to_vec(),
            },
            MountOperation::PivotRoot {
                new_root: b"/merged".to_vec(),
                put_old: b"put-old".to_vec(),
                auto_unmount: false,
                create_put_old_if_missing: false,
            },
        ]
    );
}

#[test]
fn switch_root_expands_to_bind_then_pivot() {
    let ops = MountOperation::switch_root(b"/new", b"old");
    assert_eq!(
        ops,
        vec![
            MountOperation::BindMount { src: Some(b"/new".to_vec()), target: b"/new".to_vec() },
            MountOperation::PivotRoot {
                new_root: b"/new".to_vec(),
                put_old: b"old".to_vec(),
                auto_unmount: true,
                create_put_old_if_missing: true,
            },
        ]
    );
}

#[test]
fn overlay_pivot_root_plan_keeps_operation_order() {
    let ops = MountOperation::switch_root_with_overlay(
        b"/low", b"/up", b"/work", b"/merged", b"put-old",
    );
    let mount_step = Step::MountNamespace(MountNamespace::new(
        ops.clone(),
        Step::RunCommand(RunCommand::new(b"/bin/ls".to_vec(), vec![b"/".to_vec()])),
    ));
    let plan = ContainerBuilder::new(single_user_ns(mount_step)).run();
    let unshare_at = plan
        .iter()
        .position(|a| matches!(a, Action::UnshareMountNamespace))
        .unwrap();
    assert_eq!(plan[unshare_at + 1], Action::Mount(ops[0].clone()));
    assert_eq!(plan[unshare_at + 2], Action::Mount(ops[1].clone()));
    assert_eq!(plan[unshare_at + 3], Action::Mount(ops[2].clone()));
    assert!(matches!(plan[unshare_at + 4], Action::Execute { .. }));
}

#[test]
fn pid_namespace_plan_clones_before_the_command() {
    let shell = Step::RunCommand(RunCommand::new(
        b"/bin/sh".to_vec(),
        vec![b"-c".to_vec(), b"echo $$".to_vec()],
    ));
    let chain = single_user_ns(Step::PidNamespace(PIDNamespace::new(shell)));
    let plan = ContainerBuilder::new(chain).run();
    let pid_clone = plan
        .iter()
        .position(|a| matches!(a, Action::CloneChild { flags } if *flags == CLONE_NEWPID))
        .unwrap();
    let exec = plan
        .iter()
        .position(|a| matches!(a, Action::Execute { .. }))
        .unwrap();
    assert!(pid_clone < exec);
}

#[test]
fn working_directory_and_identity_steps_plan_in_order() {
    let chain = Step::SwitchWorkingDirectory(SwitchWorkingDirectory::new(
        b"/tmp".to_vec(),
        Step::SwitchUser(SwitchUser::new(5, 6, run_true())),
    ));
    let plan = ContainerBuilder::new(chain).run();
    assert_eq!(
        plan,
        vec![
            Action::ChangeDirectory { path: b"/tmp".to_vec() },
            Action::SwitchUser { uid: 5, gid: 6 },
            Action::Execute { program: b"/bin/true".to_vec(), args: Vec::new() },
        ]
    );
}

#[test]
fn context_record_follows_the_performed_actions() {
    let mut ctx = Context::new();
    apply_action(&mut ctx, &Action::CloneChild { flags: CLONE_NEWUSER });
    assert!(ctx.user() && !ctx.pid() && !ctx.mnt());
    apply_action(&mut ctx, &Action::UnshareMountNamespace);
    assert!(ctx.mnt());
    apply_action(&mut ctx, &Action::CloneChild { flags: CLONE_NEWPID });
    assert!(ctx.user() && ctx.pid() && ctx.mnt());
    apply_action(&mut ctx, &Action::WriteSetgroupsDeny);
    assert!(ctx.user() && ctx.pid() && ctx.mnt());
}

fn three_step_chain() -> Step {
    Step::SwitchWorkingDirectory(SwitchWorkingDirectory::new(
        b"/tmp".to_vec(),
        Step::SwitchUser(SwitchUser::new(1, 2, run_true())),
    ))
}

#[test]
fn outcome_is_ok_when_every_step_succeeds() {
    let chain = three_step_chain();
    let got = run_outcome(&chain, &vec![None, None, None]);
    assert_eq!(got, Ok(()));
}

#[test]
fn failure_at_the_first_step_has_no_wrapping() {
    let chain = three_step_chain();
    let got = run_outcome(&chain, &vec![Some(StepFailure::SwitchDir(2)), None, None]);
    assert_eq!(got, Err(RunError::Failed(StepFailure::SwitchDir(2))));
}

#[test]
fn failure_at_step_one_is_wrapped_once() {
    let chain = three_step_chain();
    let failure = StepFailure::SwitchUser(SwitchUserError {
        property: SwitchUserProperty::Uid,
        kind: SwitchUserErrorKind::MissingPermissions,
    });
    let got = run_outcome(&chain, &vec![None, Some(failure), None]);
    assert_eq!(
        got,
        Err(RunError::ChildError(Box::new(RunError::Failed(failure))))
    );
}

#[test]
fn failure_at_the_leaf_is_wrapped_through_every_step() {
    let chain = three_step_chain();
    let got = run_outcome(&chain, &vec![None, None, Some(StepFailure::Spawn(13))]);
    assert_eq!(
        got,
        Err(RunError::ChildError(Box::new(RunError::ChildError(Box::new(
            RunError::Failed(StepFailure::Spawn(13))
        )))))
    );
}
