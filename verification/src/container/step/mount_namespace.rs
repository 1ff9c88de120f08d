//! The mount-namespace step: unshares the mount namespace, applies an
//! ordered list of mount operations, then runs the successor. Each
//! operation is one atomic filesystem change; the first failure aborts
//! the list.
use vstd::prelude::*;

verus! {

use vstd::string::{StrSliceExecFns, StringSliceAdditionalSpecFns};

use crate::container::step::Step;
use crate::linux;
use crate::linux::sys;
use crate::linux::{PivotRootError, EEXIST, MNT_DETACH, MS_BIND};

/// A mount-namespace step: the operations to apply, in order, and the
/// successor.
#[derive(Debug)]
pub struct MountNamespace {
    pub operations: Vec<MountOperation>,
    pub next: Box<Step>,
}

impl MountNamespace {
    /// Wraps `c` in a mount-namespace step applying `operations` in
    /// order.
    pub fn new(operations: Vec<MountOperation>, c: Step) -> (r: Self)
        ensures
            r.operations@ == operations@,
            *r.next == c,
    {
        Self { next: Box::new(c), operations }
    }
}

/// Applies mount operations in order, stopping at the first failure
/// and surfacing it: operations after a failed one are not attempted.
/// This is the body of a mount-namespace step between the unshare and
/// the successor. A surfaced error carries the tag of the operation
/// that failed.
pub fn run_operations(operations: Vec<MountOperation>) -> (r: Result<(), MountingError>)
    ensures
        r matches Err(e) ==> some_op_failure_matches(operations@, e),
{
    let ghost ops0 = operations@;
    let mut ops = operations;
    let total: usize = ops.len();
    let mut done: usize = 0;
    while ops.len() > 0
        invariant
            ops0 == operations@,
            ops0.len() == total,
            done + ops@.len() == total,
            ops@ =~= ops0.skip(done as int),
        decreases ops@.len(),
    {
        proof {
            assert(ops0.skip(done as int)[0] == ops0[done as int]);
        }
        let op = ops.remove(0);
        proof {
            assert(ops@ =~= ops0.skip(done as int + 1));
        }
        match op.run() {
            Ok(()) => {},
            Err(e) => {
                proof {
                    assert(op_failure_matches(ops0[done as int], e));
                    assert(some_op_failure_matches(ops0, e));
                }
                return Err(e);
            },
        }
        done += 1;
    }
    Ok(())
}

/// One atomic filesystem change, with paths as bytes.
#[derive(Debug, Clone, PartialEq, Eq)]
pub enum MountOperation {
    OverlayMount { lower: Vec<u8>, upper: Vec<u8>, work: Vec<u8>, merged: Vec<u8> },
    PivotRoot {
        new_root: Vec<u8>,
        put_old: Vec<u8>,
        auto_unmount: bool,
        create_put_old_if_missing: bool,
    },
    BindMount { src: Option<Vec<u8>>, target: Vec<u8> },
    Unmount { mount: Vec<u8>, lazy: bool },
    Mount {
        source: Option<Vec<u8>>,
        target: Vec<u8>,
        fs_type: Option<Vec<u8>>,
        flags: u64,
        data: Option<Vec<u8>>,
    },
}

/// The ghost image of a mount operation, with paths as byte sequences.
pub enum MountOperationModel {
    OverlayMount { lower: Seq<u8>, upper: Seq<u8>, work: Seq<u8>, merged: Seq<u8> },
    PivotRoot {
        new_root: Seq<u8>,
        put_old: Seq<u8>,
        auto_unmount: bool,
        create_put_old_if_missing: bool,
    },
    BindMount { src: Option<Seq<u8>>, target: Seq<u8> },
    Unmount { mount: Seq<u8>, lazy: bool },
    Mount {
        source: Option<Seq<u8>>,
        target: Seq<u8>,
        fs_type: Option<Seq<u8>>,
        flags: u64,
        data: Option<Seq<u8>>,
    },
}

impl View for MountOperation {
    type V = MountOperationModel;

    open spec fn view(&self) -> MountOperationModel {
        match self {
            MountOperation::OverlayMount { lower, upper, work, merged } => {
                MountOperationModel::OverlayMount {
                    lower: lower@,
                    upper: upper@,
                    work: work@,
                    merged: merged@,
                }
            },
            MountOperation::PivotRoot {
                new_root,
                put_old,
                auto_unmount,
                create_put_old_if_missing,
            } => {
                MountOperationModel::PivotRoot {
                    new_root: new_root@,
                    put_old: put_old@,
                    auto_unmount: *auto_unmount,
                    create_put_old_if_missing: *create_put_old_if_missing,
                }
            },
            MountOperation::BindMount { src, target } => {
                MountOperationModel::BindMount {
                    src: match src {
                        Some(s) => Some(s@),
                        None => None,
                    },
                    target: target@,
                }
            },
            MountOperation::Unmount { mount, lazy } => {
                MountOperationModel::Unmount { mount: mount@, lazy: *lazy }
            },
            MountOperation::Mount { source, target, fs_type, flags, data } => {
                MountOperationModel::Mount {
                    source: match source {
                        Some(s) => Some(s@),
                        None => None,
                    },
                    target: target@,
                    fs_type: match fs_type {
                        Some(s) => Some(s@),
                        None => None,
                    },
                    flags: *flags,
                    data: match data {
                        Some(s) => Some(s@),
                        None => None,
                    },
                }
            },
        }
    }
}

/// The operation kinds a fallback mounting error is tagged with.
#[derive(Debug, Clone, Copy, PartialEq, Eq)]
pub enum MountKind {
    Overlay,
    Bind,
    Umount,
    Mount,
}

/// A failed mount operation: the operation kind and the raw `errno`,
/// or the disambiguated pivot-root failure, or a failure to create or
/// remove the `put_old` directory.
#[derive(Debug, Clone, Copy, PartialEq, Eq)]
pub enum MountingError {
    Fallback { mount_type: MountKind, errno: i32 },
    PivotRoot(PivotRootError),
    UnableToCreatePutOld(i32),
    UnableToRmPutOld(i32),
}

/// Some operation of the list owns the surfaced error.
pub open spec fn some_op_failure_matches(ops: Seq<MountOperation>, e: MountingError) -> bool {
    exists|k: int| 0 <= k < ops.len() && op_failure_matches(#[trigger] ops[k], e)
}

/// The errors each operation kind owns: a failed operation is tagged
/// with its own kind. The pivot-root handler may also surface its
/// `put_old` bookkeeping and the unmount of the old root.
pub open spec fn op_failure_matches(op: MountOperation, e: MountingError) -> bool {
    match op {
        MountOperation::OverlayMount { .. } => e matches MountingError::Fallback {
            mount_type: MountKind::Overlay,
            errno: _,
        },
        MountOperation::PivotRoot { .. } => {
            ||| e matches MountingError::PivotRoot(_)
            ||| e matches MountingError::UnableToCreatePutOld(_)
            ||| e matches MountingError::UnableToRmPutOld(_)
            ||| e matches MountingError::Fallback { mount_type: MountKind::Umount, errno: _ }
        },
        MountOperation::BindMount { .. } => e matches MountingError::Fallback {
            mount_type: MountKind::Bind,
            errno: _,
        },
        MountOperation::Unmount { .. } => e matches MountingError::Fallback {
            mount_type: MountKind::Umount,
            errno: _,
        },
        MountOperation::Mount { .. } => e matches MountingError::Fallback {
            mount_type: MountKind::Mount,
            errno: _,
        },
    }
}

/// The kernel data string of an overlay mount:
/// `lowerdir=<L>,upperdir=<U>,workdir=<W>`. Path bytes pass through
/// verbatim; a comma inside a path is not escaped.
pub open spec fn spec_overlay_data(lower: Seq<u8>, upper: Seq<u8>, work: Seq<u8>) -> Seq<u8> {
    "lowerdir=".spec_bytes() + lower + ",upperdir=".spec_bytes() + upper + ",workdir=".spec_bytes()
        + work
}

/// Assembles the overlay data string.
pub fn overlay_data(lower: &[u8], upper: &[u8], work: &[u8]) -> (r: Vec<u8>)
    ensures
        r@ == spec_overlay_data(lower@, upper@, work@),
{
    let mut data = "lowerdir=".as_bytes_vec();
    let mut lower_part = copy_bytes(lower);
    data.append(&mut lower_part);
    let mut upper_tag = ",upperdir=".as_bytes_vec();
    data.append(&mut upper_tag);
    let mut upper_part = copy_bytes(upper);
    data.append(&mut upper_part);
    let mut work_tag = ",workdir=".as_bytes_vec();
    data.append(&mut work_tag);
    let mut work_part = copy_bytes(work);
    data.append(&mut work_part);
    proof {
        assert(data@ =~= spec_overlay_data(lower@, upper@, work@));
    }
    data
}

/// Copies a byte slice into a fresh vector.
pub fn copy_bytes(s: &[u8]) -> (r: Vec<u8>)
    ensures
        r@ == s@,
{
    let mut out: Vec<u8> = Vec::new();
    let mut i: usize = 0;
    while i < s.len()
        invariant
            0 <= i <= s@.len(),
            out@ == s@.take(i as int),
        decreases s@.len() - i,
    {
        proof {
            assert(s@.take(i as int + 1) =~= s@.take(i as int).push(s@[i as int]));
        }
        out.push(s[i]);
        i += 1;
    }
    proof {
        assert(s@.take(i as int) =~= s@);
    }
    out
}

/// Joining of paths as the pivot-root handler resolves `put_old` under
/// `new_root`: an absolute right side stands alone, any other is placed
/// under the left side with a separating slash.
pub open spec fn spec_join_path(base: Seq<u8>, rel: Seq<u8>) -> Seq<u8> {
    if rel.len() > 0 && rel[0] == 47 {
        rel
    } else {
        base + "/".spec_bytes() + rel
    }
}

/// Joins two byte paths.
pub fn join_path(base: &[u8], rel: &[u8]) -> (r: Vec<u8>)
    ensures
        r@ == spec_join_path(base@, rel@),
{
    if rel.len() > 0 && rel[0] == 47 {
        copy_bytes(rel)
    } else {
        let mut out = copy_bytes(base);
        let mut slash = "/".as_bytes_vec();
        out.append(&mut slash);
        let mut rel_part = copy_bytes(rel);
        out.append(&mut rel_part);
        proof {
            assert(out@ =~= spec_join_path(base@, rel@));
        }
        out
    }
}

impl MountOperation {
    /// The two operations of a plain root switch: bind the new root to
    /// itself — `pivot_root` demands a mount point — then pivot onto it,
    /// creating `put_old` if missing and lazily unmounting the old root.
    pub fn switch_root(new_root: &[u8], put_old: &[u8]) -> (r: Vec<MountOperation>)
        ensures
            r@.len() == 2,
            r@[0]@ == (MountOperationModel::BindMount { src: Some(new_root@), target: new_root@ }),
            r@[1]@ == (MountOperationModel::PivotRoot {
                new_root: new_root@,
                put_old: put_old@,
                auto_unmount: true,
                create_put_old_if_missing: true,
            }),
    {
        let mut ops: Vec<MountOperation> = Vec::new();
        ops.push(
            MountOperation::BindMount { src: Some(copy_bytes(new_root)), target: copy_bytes(
                new_root,
            ) },
        );
        ops.push(
            MountOperation::PivotRoot {
                new_root: copy_bytes(new_root),
                put_old: copy_bytes(put_old),
                auto_unmount: true,
                create_put_old_if_missing: true,
            },
        );
        ops
    }

    /// The three operations of an overlay root switch: mount the overlay
    /// at the new root, bind the new root to itself, then pivot onto it.
    pub fn switch_root_with_overlay(
        lower_ro: &[u8],
        upper_rw: &[u8],
        work_sys: &[u8],
        new_root: &[u8],
        put_old: &[u8],
    ) -> (r: Vec<MountOperation>)
        ensures
            r@.len() == 3,
            r@[0]@ == (MountOperationModel::OverlayMount {
                lower: lower_ro@,
                upper: upper_rw@,
                work: work_sys@,
                merged: new_root@,
            }),
            r@[1]@ == (MountOperationModel::BindMount { src: Some(new_root@), target: new_root@ }),
            r@[2]@ == (MountOperationModel::PivotRoot {
                new_root: new_root@,
                put_old: put_old@,
                auto_unmount: false,
                create_put_old_if_missing: false,
            }),
    {
        let mut ops: Vec<MountOperation> = Vec::new();
        ops.push(
            MountOperation::OverlayMount {
                lower: copy_bytes(lower_ro),
                upper: copy_bytes(upper_rw),
                work: copy_bytes(work_sys),
                merged: copy_bytes(new_root),
            },
        );
        ops.push(
            MountOperation::BindMount { src: Some(copy_bytes(new_root)), target: copy_bytes(
                new_root,
            ) },
        );
        ops.push(
            MountOperation::PivotRoot {
                new_root: copy_bytes(new_root),
                put_old: copy_bytes(put_old),
                auto_unmount: false,
                create_put_old_if_missing: false,
            },
        );
        ops
    }

    /// Performs this operation. The kernel decides each outcome; a
    /// failure is tagged with the operation's own kind and the raw
    /// `errno`, and pivot-root failures are disambiguated by probes, as
    /// [`op_failure_matches`] states.
    pub fn run(self) -> (r: Result<(), MountingError>)
        ensures
            r matches Err(e) ==> op_failure_matches(self, e),
    {
        match self {
            MountOperation::OverlayMount { lower, upper, work, merged } => {
                let data = overlay_data(lower.as_slice(), upper.as_slice(), work.as_slice());
                let overlay = "overlay".as_bytes_vec();
                match linux::mount(
                    Some(overlay.as_slice()),
                    merged.as_slice(),
                    Some(overlay.as_slice()),
                    0,
                    Some(data.as_slice()),
                ) {
                    Ok(()) => Ok(()),
                    Err(errno) => Err(
                        MountingError::Fallback { mount_type: MountKind::Overlay, errno },
                    ),
                }
            },
            MountOperation::PivotRoot {
                new_root,
                put_old,
                auto_unmount,
                create_put_old_if_missing,
            } => {
                pivot_root(
                    new_root.as_slice(),
                    put_old.as_slice(),
                    auto_unmount,
                    create_put_old_if_missing,
                )
            },
            MountOperation::BindMount { src, target } => {
                let res = match &src {
                    Some(s) => linux::mount(
                        Some(s.as_slice()),
                        target.as_slice(),
                        None,
                        MS_BIND,
                        None,
                    ),
                    None => linux::mount(None, target.as_slice(), None, MS_BIND, None),
                };
                match res {
                    Ok(()) => Ok(()),
                    Err(errno) => Err(MountingError::Fallback { mount_type: MountKind::Bind, errno }),
                }
            },
            MountOperation::Unmount { mount, lazy } => {
                let flags: i32 = if lazy {
                    MNT_DETACH
                } else {
                    0
                };
                match sys::umount2_raw(mount.as_slice(), flags) {
                    Ok(()) => Ok(()),
                    Err(errno) => Err(
                        MountingError::Fallback { mount_type: MountKind::Umount, errno },
                    ),
                }
            },
            MountOperation::Mount { source, target, fs_type, flags, data } => {
                let res = linux::mount(
                    match &source {
                        Some(s) => Some(s.as_slice()),
                        None => None,
                    },
                    target.as_slice(),
                    match &fs_type {
                        Some(s) => Some(s.as_slice()),
                        None => None,
                    },
                    flags,
                    match &data {
                        Some(s) => Some(s.as_slice()),
                        None => None,
                    },
                );
                match res {
                    Ok(()) => Ok(()),
                    Err(errno) => Err(
                        MountingError::Fallback { mount_type: MountKind::Mount, errno },
                    ),
                }
            },
        }
    }
}

/// Whether `path` names an existing filesystem object.
fn path_exists(path: &[u8]) -> bool {
    match sys::stat_mode_raw(path) {
        Ok(_) => true,
        Err(_) => false,
    }
}

/// Creates `path` and its missing ancestors: every proper prefix ending
/// before a slash is tried first, then the path itself. An existing
/// directory is no failure.
fn create_dir_all(path: &[u8]) -> Result<(), i32> {
    let mut i: usize = 1;
    while i < path.len()
        invariant
            1 <= i,
        decreases path@.len() - i,
    {
        if path[i] == 47 {
            let prefix = sub_bytes(path, i);
            let _ = sys::mkdir_raw(prefix.as_slice());
        }
        i += 1;
    }
    match sys::mkdir_raw(path) {
        Ok(()) => Ok(()),
        Err(e) => {
            if e == EEXIST {
                Ok(())
            } else {
                Err(e)
            }
        },
    }
}

/// Copies the first `n` bytes of `s` into a fresh vector.
fn sub_bytes(s: &[u8], n: usize) -> (r: Vec<u8>)
    requires
        n <= s@.len(),
    ensures
        r@ == s@.take(n as int),
{
    let mut out: Vec<u8> = Vec::new();
    let mut i: usize = 0;
    while i < n
        invariant
            0 <= i <= n <= s@.len(),
            out@ == s@.take(i as int),
        decreases n - i,
    {
        proof {
            assert(s@.take(i as int + 1) =~= s@.take(i as int).push(s@[i as int]));
        }
        out.push(s[i]);
        i += 1;
    }
    out
}

/// The pivot-root handler: resolves `put_old` under `new_root`, creates
/// it if asked and missing, pivots, then — if asked — lazily unmounts
/// the old root from inside the new one and removes a directory this
/// handler created itself.
fn pivot_root(
    new_root: &[u8],
    put_old: &[u8],
    auto_unmount: bool,
    create_put_old_if_missing: bool,
) -> (r: Result<(), MountingError>)
    ensures
        r matches Err(e) ==> {
            ||| e matches MountingError::PivotRoot(_)
            ||| e matches MountingError::UnableToCreatePutOld(_)
            ||| e matches MountingError::UnableToRmPutOld(_)
            ||| e matches MountingError::Fallback { mount_type: MountKind::Umount, errno: _ }
        },
{
    let abs_put_old = join_path(new_root, put_old);
    let existed = if create_put_old_if_missing && !path_exists(abs_put_old.as_slice()) {
        match create_dir_all(abs_put_old.as_slice()) {
            Ok(()) => {},
            Err(e) => {
                return Err(MountingError::UnableToCreatePutOld(e));
            },
        }
        false
    } else {
        true
    };
    match linux::pivot_root(new_root, abs_put_old.as_slice()) {
        Ok(()) => {},
        Err(e) => {
            return Err(MountingError::PivotRoot(e));
        },
    }
    if auto_unmount {
        let root = linux::root_path();
        let target = join_path(root.as_slice(), abs_put_old.as_slice());
        match sys::umount2_raw(target.as_slice(), MNT_DETACH) {
            Ok(()) => {},
            Err(errno) => {
                return Err(MountingError::Fallback { mount_type: MountKind::Umount, errno });
            },
        }
    }
    if !existed {
        match sys::rmdir_raw(abs_put_old.as_slice()) {
            Ok(()) => {},
            Err(e) => {
                return Err(MountingError::UnableToRmPutOld(e));
            },
        }
    }
    Ok(())
}

} // verus!
