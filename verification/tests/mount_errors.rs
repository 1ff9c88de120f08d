use nsbox::container::step::mount_namespace::{
    run_operations, MountKind, MountOperation, MountingError,
};

#[test]
fn failed_unmount_is_tagged_umount() {
    let e = MountOperation::Unmount { mount: b"/nsbox-missing-target".to_vec(), lazy: false }
        .run()
        .unwrap_err();
    assert!(matches!(e, MountingError::Fallback { mount_type: MountKind::Umount, .. }));
}

#[test]
fn failed_bind_mount_is_tagged_bind() {
    let e = MountOperation::BindMount {
        src: Some(b"/nsbox-missing-src".to_vec()),
        target: b"/nsbox-missing-target".to_vec(),
    }
    .run()
    .unwrap_err();
    assert!(matches!(e, MountingError::Fallback { mount_type: MountKind::Bind, .. }));
}

#[test]
fn failed_overlay_mount_is_tagged_overlay() {
    let e = MountOperation::OverlayMount {
        lower: b"/nsbox-missing-low".to_vec(),
        upper: b"/nsbox-missing-up".to_vec(),
        work: b"/nsbox-missing-work".to_vec(),
        merged: b"/nsbox-missing-merged".to_vec(),
    }
    .run()
    .unwrap_err();
    assert!(matches!(e, MountingError::Fallback { mount_type: MountKind::Overlay, .. }));
}

#[test]
fn failed_plain_mount_is_tagged_mount() {
    let e = MountOperation::Mount {
        source: None,
        target: b"/nsbox-missing-target".to_vec(),
        fs_type: Some(b"proc".to_vec()),
        flags: 0,
        data: None,
    }
    .run()
    .unwrap_err();
    assert!(matches!(e, MountingError::Fallback { mount_type: MountKind::Mount, .. }));
}

#[test]
fn failed_pivot_root_surfaces_its_own_errors() {
    let e = MountOperation::PivotRoot {
        new_root: b"/nsbox-missing-root".to_vec(),
        put_old: b"old".to_vec(),
        auto_unmount: false,
        create_put_old_if_missing: false,
    }
    .run()
    .unwrap_err();
    assert!(matches!(e, MountingError::PivotRoot(_)));
}

#[test]
fn operation_list_surfaces_the_failing_operation_kind() {
    let ops = vec![MountOperation::Unmount { mount: b"/nsbox-missing".to_vec(), lazy: true }];
    let e = run_operations(ops).unwrap_err();
    assert!(matches!(e, MountingError::Fallback { mount_type: MountKind::Umount, .. }));
}
