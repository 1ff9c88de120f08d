use nsbox::bytes::{eq_bytes, parse_u32, split, u32_to_dec};
use nsbox::container::step::mount_namespace::join_path;
use nsbox::container::step::user_namespace::proc_file_path;
use nsbox::linux::libcap::{Capability, CAP_SETGID, CAP_SETUID};
use nsbox::linux::{
    check_clone_flags, classify_pivot_root_errno, mounts_table_lists, switch_user_error_from_errno,
    unshare_error_from_errno, CloneError, EventFd, PivotRootError, SwitchUserErrorKind,
    SwitchUserProperty, UnshareError, EBUSY, EINVAL, ENOMEM, ENOSPC, ENOTDIR, EPERM, EUSERS,
};
use nsbox::{namespaces_flags, Namespace, CLONE_NEWNS, CLONE_NEWPID, CLONE_NEWUSER};

#[test]
fn decimal_rendering_is_exact() {
    assert_eq!(u32_to_dec(0), b"0".to_vec());
    assert_eq!(u32_to_dec(7), b"7".to_vec());
    assert_eq!(u32_to_dec(100000), b"100000".to_vec());
    assert_eq!(u32_to_dec(u32::MAX), b"4294967295".to_vec());
}

#[test]
fn decimal_parsing_round_trips_and_rejects() {
    assert_eq!(parse_u32(b"0"), Some(0));
    assert_eq!(parse_u32(b"65536"), Some(65536));
    assert_eq!(parse_u32(b"4294967295"), Some(u32::MAX));
    assert_eq!(parse_u32(b"4294967296"), None);
    assert_eq!(parse_u32(b""), None);
    assert_eq!(parse_u32(b"12a"), None);
    assert_eq!(parse_u32(&u32_to_dec(987654321)), Some(987654321));
}

#[test]
fn split_keeps_all_parts() {
    let parts = split(b"a:bb::c", 58);
    let expect: Vec<Vec<u8>> =
        vec![b"a".to_vec(), b"bb".to_vec(), Vec::new(), b"c".to_vec()];
    assert_eq!(parts, expect);
    assert_eq!(split(b"", 58), vec![Vec::<u8>::new()]);
    assert!(eq_bytes(b"xy", b"xy"));
    assert!(!eq_bytes(b"xy", b"xz"));
}

#[test]
fn unshare_errno_classification() {
    assert_eq!(unshare_error_from_errno(EINVAL), UnshareError::UnsupportedFeature);
    assert_eq!(unshare_error_from_errno(ENOMEM), UnshareError::NotEnoughMemory);
    assert_eq!(unshare_error_from_errno(ENOSPC), UnshareError::ToManyNamespaces);
    assert_eq!(unshare_error_from_errno(EUSERS), UnshareError::ToManyNamespaces);
    assert_eq!(unshare_error_from_errno(EPERM), UnshareError::MissingPermissions);
    assert_eq!(unshare_error_from_errno(9999), UnshareError::Unexpected(9999));
}

#[test]
fn switch_user_errno_classification() {
    let e = switch_user_error_from_errno(SwitchUserProperty::Uid, EINVAL);
    assert_eq!(e.property, SwitchUserProperty::Uid);
    assert_eq!(e.kind, SwitchUserErrorKind::InvalidId);
    let e = switch_user_error_from_errno(SwitchUserProperty::Gid, EPERM);
    assert_eq!(e.property, SwitchUserProperty::Gid);
    assert_eq!(e.kind, SwitchUserErrorKind::MissingPermissions);
    let e = switch_user_error_from_errno(SwitchUserProperty::Gid, 7);
    assert_eq!(e.kind, SwitchUserErrorKind::Unexpected(7));
}

#[test]
fn pivot_root_errno_disambiguation() {
    assert_eq!(
        classify_pivot_root_errno(EBUSY, true, true, true, true),
        PivotRootError::NewRootIsOldRoot
    );
    assert_eq!(
        classify_pivot_root_errno(EINVAL, false, true, true, true),
        PivotRootError::NewRootIsNotMountPoint
    );
    assert_eq!(
        classify_pivot_root_errno(EINVAL, true, false, true, true),
        PivotRootError::CurrentRootIsNotMountPoint
    );
    assert_eq!(
        classify_pivot_root_errno(ENOTDIR, true, true, false, true),
        PivotRootError::NewRootIsNotDir
    );
    assert_eq!(
        classify_pivot_root_errno(ENOTDIR, true, true, true, false),
        PivotRootError::PutOldIsNotDir
    );
    assert_eq!(
        classify_pivot_root_errno(EPERM, true, true, true, true),
        PivotRootError::MissingPermissions
    );
    assert_eq!(
        classify_pivot_root_errno(EINVAL, true, true, true, true),
        PivotRootError::Unexpected(EINVAL)
    );
}

#[test]
fn unshare_rejects_bits_the_adapter_cannot_pass_on() {
    // The time namespace is among the bits the adapter cannot hand on;
    // the pre-check refuses it before any syscall.
    assert_eq!(
        nsbox::linux::unshare(nsbox::CLONE_NEWTIME),
        Err(UnshareError::UnsupportedFeature)
    );
    assert_eq!(nsbox::linux::unshare(0x100), Err(UnshareError::UnsupportedFeature));
}

#[test]
fn clone_flags_outside_the_namespace_set_are_rejected() {
    assert!(check_clone_flags(CLONE_NEWUSER).is_ok());
    assert!(check_clone_flags(CLONE_NEWUSER | CLONE_NEWPID | CLONE_NEWNS).is_ok());
    assert_eq!(check_clone_flags(0x100), Err(CloneError::InvalidFlags));
    assert_eq!(check_clone_flags(1), Err(CloneError::InvalidFlags));
}

#[test]
fn namespace_flags_fold_with_bitwise_or() {
    assert_eq!(namespaces_flags(&[]), 0);
    assert_eq!(
        namespaces_flags(&[Namespace::User, Namespace::Pid]),
        CLONE_NEWUSER | CLONE_NEWPID
    );
    assert_eq!(Namespace::Mnt.ns_type(), CLONE_NEWNS);
}

#[test]
fn capability_values_match_the_kernel_numbering() {
    assert_eq!(Capability::SETGID.to_cap(), CAP_SETGID);
    assert_eq!(Capability::SETUID.to_cap(), CAP_SETUID);
    assert_eq!(CAP_SETGID, 6);
    assert_eq!(CAP_SETUID, 7);
}

#[test]
fn event_channel_carries_a_value_each_way() {
    let ctp = EventFd::new().unwrap();
    let other_end = ctp.try_clone().unwrap();
    ctp.send(1).unwrap();
    assert_eq!(other_end.receive().unwrap(), 1);
    other_end.send(7).unwrap();
    assert_eq!(ctp.receive().unwrap(), 7);
    ctp.close().unwrap();
    other_end.close().unwrap();
}

#[test]
fn mount_table_probe_reads_the_second_field() {
    let table = b"overlay /merged overlay rw 0 0\n/dev/sda1 / ext4 rw 0 0\n";
    assert!(mounts_table_lists(table, b"/merged"));
    assert!(mounts_table_lists(table, b"/"));
    assert!(!mounts_table_lists(table, b"/tmp"));
    assert!(!mounts_table_lists(b"", b"/merged"));
}

#[test]
fn proc_paths_carry_the_pid_in_decimal() {
    assert_eq!(proc_file_path(1234, b"uid_map"), b"/proc/1234/uid_map".to_vec());
    assert_eq!(proc_file_path(1, b"setgroups"), b"/proc/1/setgroups".to_vec());
}

#[test]
fn id_map_error_keeps_stage_and_errno() {
    let e: nsbox::container::step::user_namespace::IdMapError<nsbox::container::User> =
        nsbox::container::step::user_namespace::IdMapError::new(
            nsbox::container::step::user_namespace::IdMapErrorKind::FailedToPrepareProcess,
            EPERM,
        );
    assert_eq!(
        e.kind,
        nsbox::container::step::user_namespace::IdMapErrorKind::FailedToPrepareProcess
    );
    assert_eq!(e.errno, EPERM);
}

#[test]
fn subid_permission_query_answers_without_failing() {
    let map: nsbox::container::IdMap<nsbox::container::User> =
        nsbox::container::IdMap::new_with_current_user_as_root();
    // The verdict depends on this machine's subid table; the call must
    // come back with a plain answer either way.
    let _ = map.is_valid_for_current_process();
}

#[test]
fn path_joining_keeps_absolute_right_sides() {
    assert_eq!(join_path(b"/new", b"old"), b"/new/old".to_vec());
    assert_eq!(join_path(b"/", b"/abs/put-old"), b"/abs/put-old".to_vec());
}
