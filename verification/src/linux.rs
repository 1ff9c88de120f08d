//! The syscall adaptation layer: thin verified logic around the trusted
//! `nix` wrappers — flag validation, errno classification, the event
//! channel used for the user-namespace rendezvous, and the probes that
//! disambiguate `pivot_root` failures.
pub mod libcap;
pub(crate) mod sys;

use vstd::prelude::*;

verus! {

use vstd::string::{StrSliceExecFns, StringSliceAdditionalSpecFns};

use crate::bytes::{eq_bytes, split, split_spec};
use crate::{CLONE_NEWCGROUP, CLONE_NEWIPC, CLONE_NEWNET, CLONE_NEWNS, CLONE_NEWPID,
    CLONE_NEWTIME, CLONE_NEWUSER, CLONE_NEWUTS};

/// `errno` for a missing permission.
pub const EPERM: i32 = 1;

/// `errno` for exhausted memory.
pub const ENOMEM: i32 = 12;

/// `errno` for a busy resource.
pub const EBUSY: i32 = 16;

/// `errno` for an existing file.
pub const EEXIST: i32 = 17;

/// `errno` for a path component that is not a directory.
pub const ENOTDIR: i32 = 20;

/// `errno` for an invalid argument.
pub const EINVAL: i32 = 22;

/// `errno` for an exhausted resource limit.
pub const ENOSPC: i32 = 28;

/// `errno` for too many users, the legacy report of exhausted namespaces.
pub const EUSERS: i32 = 87;

/// `umount2` flag for a lazy detach (`MNT_DETACH`).
pub const MNT_DETACH: i32 = 2;

/// `mount` flag for a bind mount (`MS_BIND`).
pub const MS_BIND: u64 = 4096;

/// Mask of the file-type bits in `st_mode` (`S_IFMT`).
pub const S_IFMT: u32 = 0o170000;

/// File-type bits of a directory (`S_IFDIR`).
pub const S_IFDIR: u32 = 0o040000;

/// Failures of `unshare`, by cause.
#[derive(Debug, Clone, Copy, PartialEq, Eq)]
pub enum UnshareError {
    UnsupportedFeature,
    NotEnoughMemory,
    ToManyNamespaces,
    MissingPermissions,
    Unexpected(i32),
}

/// The namespace bits `unshare` hands on to the kernel. The syscall
/// adapter takes nothing else: an unknown or unsupported bit — the time
/// namespace among them — is rejected up front rather than silently
/// dropped.
pub const UNSHARE_FLAGS: i32 = CLONE_NEWNS | CLONE_NEWCGROUP | CLONE_NEWUTS | CLONE_NEWIPC
    | CLONE_NEWUSER | CLONE_NEWPID | CLONE_NEWNET;

/// Classifies the `errno` of a failed `unshare` call.
pub fn unshare_error_from_errno(e: i32) -> (r: UnshareError)
    ensures
        e == EINVAL ==> r is UnsupportedFeature,
        e == ENOMEM ==> r is NotEnoughMemory,
        e == ENOSPC || e == EUSERS ==> r is ToManyNamespaces,
        e == EPERM ==> r is MissingPermissions,
        e != EINVAL && e != ENOMEM && e != ENOSPC && e != EUSERS && e != EPERM ==> r
            == UnshareError::Unexpected(e),
{
    if e == EINVAL {
        UnshareError::UnsupportedFeature
    } else if e == ENOMEM {
        UnshareError::NotEnoughMemory
    } else if e == ENOSPC || e == EUSERS {
        UnshareError::ToManyNamespaces
    } else if e == EPERM {
        UnshareError::MissingPermissions
    } else {
        UnshareError::Unexpected(e)
    }
}

/// Moves the calling process into the namespaces selected by `flags`.
/// A flag word holding anything besides the bits of [`UNSHARE_FLAGS`]
/// is rejected at this boundary without a syscall; past that the
/// outcome rests with the kernel, and a failure is classified by
/// [`unshare_error_from_errno`].
pub fn unshare(flags: i32) -> (r: Result<(), UnshareError>)
    ensures
        flags & !UNSHARE_FLAGS != 0 ==> r == Err::<(), _>(UnshareError::UnsupportedFeature),
{
    if flags & !UNSHARE_FLAGS != 0 {
        return Err(UnshareError::UnsupportedFeature);
    }
    match sys::unshare_raw(flags) {
        Ok(()) => Ok(()),
        Err(e) => Err(unshare_error_from_errno(e)),
    }
}

/// Failures of the VM-sharing clone entry point.
#[derive(Debug, Clone, Copy, PartialEq, Eq)]
pub enum CloneError {
    InvalidFlags,
}

/// The namespace bits a clone request may carry; anything else is rejected
/// at the adapter boundary.
pub const NAMESPACE_FLAGS: i32 = CLONE_NEWNS | CLONE_NEWIPC | CLONE_NEWNET | CLONE_NEWPID
    | CLONE_NEWUTS | CLONE_NEWTIME | CLONE_NEWUSER | CLONE_NEWCGROUP;

/// Accepts a clone flag word exactly when it holds namespace bits alone.
pub fn check_clone_flags(flags: i32) -> (r: Result<(), CloneError>)
    ensures
        r is Ok <==> flags & !NAMESPACE_FLAGS == 0,
{
    if flags & !NAMESPACE_FLAGS == 0 {
        Ok(())
    } else {
        Err(CloneError::InvalidFlags)
    }
}

/// Which identity property a failed switch concerned.
#[derive(Debug, Clone, Copy, PartialEq, Eq)]
pub enum SwitchUserProperty {
    Uid,
    Gid,
}

/// Why an identity switch failed.
#[derive(Debug, Clone, Copy, PartialEq, Eq)]
pub enum SwitchUserErrorKind {
    InvalidId,
    MissingPermissions,
    Unexpected(i32),
}

/// A failed `seteuid` or `setegid` call.
#[derive(Debug, Clone, Copy, PartialEq, Eq)]
pub struct SwitchUserError {
    pub property: SwitchUserProperty,
    pub kind: SwitchUserErrorKind,
}

/// Classifies the `errno` of a failed `seteuid` or `setegid` call.
pub fn switch_user_error_from_errno(property: SwitchUserProperty, e: i32) -> (r: SwitchUserError)
    ensures
        r.property == property,
        e == EINVAL ==> r.kind is InvalidId,
        e == EPERM ==> r.kind is MissingPermissions,
        e != EINVAL && e != EPERM ==> r.kind == SwitchUserErrorKind::Unexpected(e),
{
    let kind = if e == EINVAL {
        SwitchUserErrorKind::InvalidId
    } else if e == EPERM {
        SwitchUserErrorKind::MissingPermissions
    } else {
        SwitchUserErrorKind::Unexpected(e)
    };
    SwitchUserError { property, kind }
}

/// Sets the effective user id, then the effective group id, in that order.
/// An error names the property whose switch failed; when the uid switch
/// fails the gid switch is not attempted.
pub fn switch_user(user: (u32, u32)) -> (r: Result<(), SwitchUserError>) {
    let (uid, gid) = user;
    match sys::seteuid_raw(uid) {
        Ok(()) => {},
        Err(e) => {
            return Err(switch_user_error_from_errno(SwitchUserProperty::Uid, e));
        },
    }
    match sys::setegid_raw(gid) {
        Ok(()) => {},
        Err(e) => {
            return Err(switch_user_error_from_errno(SwitchUserProperty::Gid, e));
        },
    }
    Ok(())
}

/// The effective user id of the calling process; never the all-ones
/// sentinel.
pub(crate) fn get_euid() -> (r: u32)
    ensures
        r < u32::MAX,
{
    sys::geteuid_raw()
}

/// The effective group id of the calling process; never the all-ones
/// sentinel.
pub(crate) fn get_egid() -> (r: u32)
    ensures
        r < u32::MAX,
{
    sys::getegid_raw()
}

/// The real user id of the calling process.
pub(crate) fn get_uid() -> u32 {
    sys::getuid_raw()
}

/// The login name recorded for `uid`, as bytes, if the password database
/// knows one.
pub(crate) fn get_user_name(uid: u32) -> Option<Vec<u8>> {
    sys::username_of_raw(uid)
}

/// One endpoint of the kernel-backed event channel used for the
/// parent–child rendezvous. Parent and VM-sharing child each hold a file
/// descriptor referring to the same underlying counter; each `send` is
/// consumed by exactly one `receive`.
#[derive(Debug)]
pub struct EventFd {
    fd: i32,
}

impl EventFd {
    /// Creates a fresh event channel with counter zero. `Err` carries the
    /// raw `errno`.
    pub fn new() -> (r: Result<EventFd, i32>) {
        match sys::eventfd_raw() {
            Ok(fd) => Ok(EventFd { fd }),
            Err(e) => Err(e),
        }
    }

    /// Posts `data` on the channel. `Err` carries the raw `errno`.
    pub fn send(&self, data: u64) -> (r: Result<(), i32>) {
        match sys::write_u64_raw(self.fd, data) {
            Ok(_) => Ok(()),
            Err(e) => Err(e),
        }
    }

    /// Blocks until a value is posted and takes it. `Err` carries the
    /// raw `errno`; a short read — which the eight-byte eventfd
    /// interface does not produce — surfaces as `Err(0)` rather than a
    /// half-decoded value.
    pub fn receive(&self) -> (r: Result<u64, i32>) {
        match sys::read_u64_raw(self.fd) {
            Ok((n, value)) => {
                if n == 8 {
                    Ok(value)
                } else {
                    Err(0)
                }
            },
            Err(e) => Err(e),
        }
    }

    /// Duplicates the endpoint; both endpoints refer to the same counter.
    /// `Err` carries the raw `errno`.
    pub fn try_clone(&self) -> (r: Result<EventFd, i32>) {
        match sys::dup_raw(self.fd) {
            Ok(fd) => Ok(EventFd { fd }),
            Err(e) => Err(e),
        }
    }

    /// Releases the endpoint's file descriptor. `Err` carries the raw
    /// `errno`.
    pub fn close(self) -> (r: Result<(), i32>) {
        sys::close_raw(self.fd)
    }

    /// The raw file descriptor of this endpoint.
    pub fn raw_fd(&self) -> i32 {
        self.fd
    }
}

/// Failures of `pivot_root`, disambiguated by runtime probes where the
/// `errno` alone is ambiguous.
#[derive(Debug, Clone, Copy, PartialEq, Eq)]
pub enum PivotRootError {
    NewRootIsOldRoot,
    NewRootIsNotDir,
    PutOldIsNotDir,
    MissingPermissions,
    NewRootIsNotMountPoint,
    CurrentRootIsNotMountPoint,
    Unexpected(i32),
}

/// Classifies the `errno` of a failed `pivot_root` call, given the probe
/// results: whether the new root and the current root are mount points,
/// and whether the new root and `put_old` are directories.
pub fn classify_pivot_root_errno(
    e: i32,
    new_root_is_mount_point: bool,
    root_is_mount_point: bool,
    new_root_is_dir: bool,
    put_old_is_dir: bool,
) -> (r: PivotRootError)
    ensures
        e == EBUSY ==> r is NewRootIsOldRoot,
        e == EINVAL && !new_root_is_mount_point ==> r is NewRootIsNotMountPoint,
        e == EINVAL && new_root_is_mount_point && !root_is_mount_point ==> r
            is CurrentRootIsNotMountPoint,
        e == ENOTDIR && !new_root_is_dir ==> r is NewRootIsNotDir,
        e == ENOTDIR && new_root_is_dir && !put_old_is_dir ==> r is PutOldIsNotDir,
        e == EPERM ==> r is MissingPermissions,
        e != EBUSY && e != EINVAL && e != ENOTDIR && e != EPERM ==> r == PivotRootError::Unexpected(
            e,
        ),
{
    if e == EBUSY {
        PivotRootError::NewRootIsOldRoot
    } else if e == EINVAL {
        if !new_root_is_mount_point {
            PivotRootError::NewRootIsNotMountPoint
        } else if !root_is_mount_point {
            PivotRootError::CurrentRootIsNotMountPoint
        } else {
            PivotRootError::Unexpected(e)
        }
    } else if e == ENOTDIR {
        if !new_root_is_dir {
            PivotRootError::NewRootIsNotDir
        } else if !put_old_is_dir {
            PivotRootError::PutOldIsNotDir
        } else {
            PivotRootError::Unexpected(e)
        }
    } else if e == EPERM {
        PivotRootError::MissingPermissions
    } else {
        PivotRootError::Unexpected(e)
    }
}

/// Whether `path` names a directory. A failed `stat` counts as no.
pub(crate) fn is_dir(path: &[u8]) -> bool {
    match sys::stat_mode_raw(path) {
        Ok(mode) => mode & S_IFMT == S_IFDIR,
        Err(_) => false,
    }
}

/// Reads a whole file through the descriptor wrappers, capped at four
/// MiB — ample for the tables probed here. `None` on any read error.
pub(crate) fn read_file_bounded(path: &[u8]) -> Option<Vec<u8>> {
    let fd = match sys::open_read_raw(path) {
        Ok(fd) => fd,
        Err(_) => {
            return None;
        },
    };
    let mut buf: Vec<u8> = Vec::new();
    let mut rounds: usize = 0;
    while rounds < 1024
        invariant
            true,
        decreases 1024 - rounds,
    {
        match sys::read_chunk_raw(fd, 4096) {
            Ok(chunk) => {
                if chunk.len() == 0 {
                    let _ = sys::close_raw(fd);
                    return Some(buf);
                }
                let mut chunk = chunk;
                buf.append(&mut chunk);
            },
            Err(_) => {
                let _ = sys::close_raw(fd);
                return None;
            },
        }
        rounds += 1;
    }
    let _ = sys::close_raw(fd);
    Some(buf)
}

/// The mount target named by one line of the mount table: its second
/// space-separated field.
pub open spec fn line_mount_target(l: Seq<u8>) -> Option<Seq<u8>> {
    let fields = split_spec(l, 32);
    if fields.len() >= 2 {
        Some(fields[1])
    } else {
        None
    }
}

/// Some line of `content` names `path` as its mount target.
pub open spec fn lists_mount_point(content: Seq<u8>, path: Seq<u8>) -> bool {
    exists|i: int|
        0 <= i < split_spec(content, 10).len() && line_mount_target(
            split_spec(content, 10)[i],
        ) == Some(path)
}

/// Decides whether the mount table in `content` lists `path` as a mount
/// target. Lines are newline-separated; fields are space-separated with
/// the target second, as `/proc/self/mounts` has them.
pub fn mounts_table_lists(content: &[u8], path: &[u8]) -> (r: bool)
    ensures
        r == lists_mount_point(content@, path@),
{
    let lines = split(content, 10);
    let mut i: usize = 0;
    while i < lines.len()
        invariant
            0 <= i <= lines@.len(),
            lines@.len() == split_spec(content@, 10).len(),
            forall|k: int| 0 <= k < lines@.len() ==> lines@[k]@ == split_spec(content@, 10)[k],
            forall|k: int| 0 <= k < i ==> line_mount_target(split_spec(content@, 10)[k]) != Some(
                path@,
            ),
        decreases lines@.len() - i,
    {
        let fields = split(lines[i].as_slice(), 32);
        if fields.len() >= 2 && eq_bytes(fields[1].as_slice(), path) {
            proof {
                assert(line_mount_target(split_spec(content@, 10)[i as int]) == Some(path@));
            }
            return true;
        }
        proof {
            assert(line_mount_target(split_spec(content@, 10)[i as int]) != Some(path@));
        }
        i += 1;
    }
    false
}

/// Whether `path` is currently a mount point, probed through the process's
/// own mount table. An unreadable table counts as no.
pub(crate) fn is_mount_point(path: &[u8]) -> bool {
    let table_path = proc_mounts_path();
    match read_file_bounded(table_path.as_slice()) {
        Some(content) => mounts_table_lists(content.as_slice(), path),
        None => false,
    }
}

/// The path of the calling process's mount table.
pub fn proc_mounts_path() -> (r: Vec<u8>)
    ensures
        r@ == "/proc/self/mounts".spec_bytes(),
{
    "/proc/self/mounts".as_bytes_vec()
}

/// Swaps the root filesystem: `new_root` becomes `/`, the old root is
/// stashed at `put_old`. A failure is disambiguated by probing the mount
/// table and the two paths, as [`classify_pivot_root_errno`] states.
pub fn pivot_root(new_root: &[u8], put_old: &[u8]) -> (r: Result<(), PivotRootError>) {
    match sys::pivot_root_raw(new_root, put_old) {
        Ok(()) => Ok(()),
        Err(e) => {
            let new_root_mp = if e == EINVAL {
                is_mount_point(new_root)
            } else {
                true
            };
            let root_mp = if e == EINVAL {
                let root: Vec<u8> = root_path();
                is_mount_point(root.as_slice())
            } else {
                true
            };
            let new_root_dir = if e == ENOTDIR {
                is_dir(new_root)
            } else {
                true
            };
            let put_old_dir = if e == ENOTDIR {
                is_dir(put_old)
            } else {
                true
            };
            Err(classify_pivot_root_errno(e, new_root_mp, root_mp, new_root_dir, put_old_dir))
        },
    }
}

/// The root path, as bytes.
pub fn root_path() -> (r: Vec<u8>)
    ensures
        r@ == "/".spec_bytes(),
{
    "/".as_bytes_vec()
}

/// Performs the mount syscall on byte paths; all arguments pass through
/// to the kernel unchanged. `Err` carries the raw `errno`.
pub fn mount(
    source: Option<&[u8]>,
    target: &[u8],
    file_system_type: Option<&[u8]>,
    mount_flags: u64,
    data: Option<&[u8]>,
) -> (r: Result<(), i32>) {
    sys::mount_raw(source, target, file_system_type, mount_flags, data)
}

} // verus!
