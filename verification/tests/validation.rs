use nsbox::container::define::{Container, MountNamespace, Network, UserNamespace};
use nsbox::container::step::run_command::RunCommand;
use nsbox::container::step::user_namespace::{NewUserNamespaceError, UserNamespaceRoot};
use nsbox::container::step::Step;
use nsbox::container::validate::{self, MountValidationError, UserValidationError};
use nsbox::container::{Group, IdMap, User};

fn single_entry_user_ns(internal: u32, run_as: (u32, u32)) -> UserNamespace<nsbox::container::define::NotValidated> {
    let mut uid_map: IdMap<User> = IdMap::new();
    uid_map.add(internal, 1000, 1);
    let mut gid_map: IdMap<Group> = IdMap::new();
    gid_map.add(internal, 1000, 1);
    UserNamespace::new(uid_map, gid_map, run_as)
}

#[test]
fn run_as_mapped_validates() {
    let ns = single_entry_user_ns(0, (0, 0));
    assert!(validate::user(ns).is_ok());
}

#[test]
fn run_as_uid_not_mapped_is_rejected_first() {
    let ns = single_entry_user_ns(5, (4, 5));
    assert_eq!(validate::user(ns).unwrap_err(), UserValidationError::RunAsUidNotMapped);
}

#[test]
fn run_as_gid_not_mapped_is_rejected() {
    let mut uid_map: IdMap<User> = IdMap::new();
    uid_map.add(0, 1000, 10);
    let mut gid_map: IdMap<Group> = IdMap::new();
    gid_map.add(100, 1000, 1);
    let ns = UserNamespace::new(uid_map, gid_map, (5, 5));
    assert_eq!(validate::user(ns).unwrap_err(), UserValidationError::RunAsGidNotMapped);
}

#[test]
fn run_as_at_range_end_is_not_mapped() {
    let mut uid_map: IdMap<User> = IdMap::new();
    uid_map.add(10, 1000, 5);
    let mut gid_map: IdMap<Group> = IdMap::new();
    gid_map.add(10, 1000, 5);
    let ns = UserNamespace::new(uid_map, gid_map, (15, 10));
    assert_eq!(validate::user(ns).unwrap_err(), UserValidationError::RunAsUidNotMapped);
}

#[test]
fn mount_without_user_namespace_is_rejected() {
    let mount = MountNamespace::new(Vec::new());
    let got = validate::mount(mount, None);
    assert_eq!(got.unwrap_err(), MountValidationError::RootNotMapped);
}

#[test]
fn mount_without_root_in_user_namespace_is_rejected() {
    // The user namespace maps interior id 1000 alone, so no id is root
    // inside it and unprivileged mounting cannot work.
    let user_ns = single_entry_user_ns(1000, (1000, 1000));
    let mount = MountNamespace::new(Vec::new());
    let got = validate::mount(mount, Some(&user_ns));
    assert_eq!(got.unwrap_err(), MountValidationError::RootNotMapped);
}

#[test]
fn mount_with_root_mapped_validates() {
    let user_ns = single_entry_user_ns(0, (0, 0));
    let mount = MountNamespace::new(Vec::new());
    assert!(validate::mount(mount, Some(&user_ns)).is_ok());
}

#[test]
fn container_validate_combines_both_rules() {
    let c = Container::new()
        .create_user_namespace(single_entry_user_ns(0, (0, 0)))
        .create_mount_namespace(MountNamespace::new(Vec::new()))
        .create_pid_namespace()
        .create_net_namespace(Network);
    assert!(c.validate().is_ok());

    let c = Container::new()
        .create_user_namespace(single_entry_user_ns(1000, (1000, 1000)))
        .create_mount_namespace(MountNamespace::new(Vec::new()));
    assert!(matches!(
        c.validate().unwrap_err(),
        nsbox::container::validate::ValidationError::MountValidationError(
            MountValidationError::RootNotMapped
        )
    ));
}

#[test]
fn validated_configuration_instantiates_the_full_chain() {
    let c = Container::new()
        .create_user_namespace(single_entry_user_ns(0, (0, 0)))
        .create_mount_namespace(MountNamespace::new(Vec::new()))
        .create_pid_namespace();
    let validated = c.validate().unwrap();
    let chain = validated.to_step(RunCommand::new(b"/bin/true".to_vec(), Vec::new()));
    let plan = nsbox::container::ContainerBuilder::new(chain).run();
    // The rendezvous opening, the identity switch, the mount unshare,
    // the pid clone, the command, and the two waits.
    assert_eq!(plan.len(), 15);
    assert!(matches!(
        plan[9],
        nsbox::container::plan::Action::SwitchUser { uid: 0, gid: 0 }
    ));
    assert!(matches!(plan[10], nsbox::container::plan::Action::UnshareMountNamespace));
    assert!(matches!(
        plan[11],
        nsbox::container::plan::Action::CloneChild { flags } if flags == nsbox::CLONE_NEWPID
    ));
    assert!(matches!(plan[12], nsbox::container::plan::Action::Execute { .. }));
}

#[test]
fn multi_range_map_without_setuid_capability_is_rejected() {
    // Two uid ranges while the capability oracle answers no: the
    // constructor refuses, so no process is ever cloned for this step.
    let mut uid_map: IdMap<User> = IdMap::new();
    uid_map.add(0, 1000, 1);
    uid_map.add(1, 100000, 65536);
    let gid_map: IdMap<Group> = IdMap::new_with_current_user_as_root();
    let leaf = Step::RunCommand(RunCommand::new(b"/bin/true".to_vec(), Vec::new()));
    let got = UserNamespaceRoot::with_capabilities(uid_map, gid_map, None, leaf, false, true);
    assert_eq!(got.unwrap_err(), NewUserNamespaceError::MissingCapabilitySetUid);
}

#[test]
fn multi_range_gid_map_without_setgid_capability_is_rejected() {
    let uid_map: IdMap<User> = IdMap::new_with_current_user_as_root();
    let mut gid_map: IdMap<Group> = IdMap::new();
    gid_map.add(0, 1000, 1);
    gid_map.add(1, 200000, 65536);
    let leaf = Step::RunCommand(RunCommand::new(b"/bin/true".to_vec(), Vec::new()));
    let got = UserNamespaceRoot::with_capabilities(uid_map, gid_map, None, leaf, true, false);
    assert_eq!(got.unwrap_err(), NewUserNamespaceError::MissingCapabilitySetGid);
}

#[test]
fn single_entry_maps_need_no_capability() {
    let uid_map: IdMap<User> = IdMap::new_with_current_user_as_root();
    let gid_map: IdMap<Group> = IdMap::new_with_current_user_as_root();
    let leaf = Step::RunCommand(RunCommand::new(b"/bin/true".to_vec(), Vec::new()));
    let got =
        UserNamespaceRoot::with_capabilities(uid_map, gid_map, Some((0, 0)), leaf, false, false);
    assert!(got.is_ok());
}

#[test]
fn new_admits_single_entry_maps_whatever_the_oracle_says() {
    let uid_map: IdMap<User> = IdMap::new_with_current_user_as_root();
    let gid_map: IdMap<Group> = IdMap::new_with_current_user_as_root();
    let leaf = Step::RunCommand(RunCommand::new(b"/bin/true".to_vec(), Vec::new()));
    assert!(UserNamespaceRoot::new(uid_map, gid_map, Some((0, 0)), leaf).is_ok());
}
