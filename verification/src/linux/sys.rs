//! Trusted wrappers around the `nix` crate, one per outside function.
//!
//! Each wrapper converts between this crate's plain values (byte paths,
//! raw `i32` file descriptors, raw `errno` numbers) and the `nix` types,
//! and nothing more. Every decision taken on the returned values is made
//! by verified callers.
use vstd::prelude::*;

verus! {

/// Relies on `nix::sched::unshare`: moves the calling process into new
/// namespaces. Flag bits outside `nix::sched::CloneFlags` are dropped by
/// `from_bits_truncate` — the verified caller rejects them first, so the
/// call only ever sees bits the conversion keeps. `Err` carries the raw
/// `errno`.
#[verifier::external_body]
pub(crate) fn unshare_raw(flags: i32) -> (r: Result<(), i32>) {
    nix::sched::unshare(nix::sched::CloneFlags::from_bits_truncate(flags)).map_err(|e| e as i32)
}

/// Relies on `nix::unistd::geteuid`: the effective user id of this
/// process. The all-ones value is reserved as the id syscalls' error
/// sentinel and is never a real id.
#[verifier::external_body]
pub(crate) fn geteuid_raw() -> (r: u32)
    ensures
        r < u32::MAX,
{
    nix::unistd::geteuid().as_raw()
}

/// Relies on `nix::unistd::getegid`: the effective group id of this
/// process. The all-ones value is reserved as the id syscalls' error
/// sentinel and is never a real id.
#[verifier::external_body]
pub(crate) fn getegid_raw() -> (r: u32)
    ensures
        r < u32::MAX,
{
    nix::unistd::getegid().as_raw()
}

/// Relies on `nix::unistd::getuid`: the real user id of this process.
#[verifier::external_body]
pub(crate) fn getuid_raw() -> u32 {
    nix::unistd::getuid().as_raw()
}

/// Relies on `nix::unistd::seteuid`: sets the effective user id;
/// `Err` carries the raw `errno`.
#[verifier::external_body]
pub(crate) fn seteuid_raw(uid: u32) -> (r: Result<(), i32>) {
    nix::unistd::seteuid(nix::unistd::Uid::from_raw(uid)).map_err(|e| e as i32)
}

/// Relies on `nix::unistd::setegid`: sets the effective group id;
/// `Err` carries the raw `errno`.
#[verifier::external_body]
pub(crate) fn setegid_raw(gid: u32) -> (r: Result<(), i32>) {
    nix::unistd::setegid(nix::unistd::Gid::from_raw(gid)).map_err(|e| e as i32)
}

/// Relies on `nix::unistd::chdir`: changes the working directory to the
/// given byte path; `Err` carries the raw `errno`.
#[verifier::external_body]
pub(crate) fn chdir_raw(path: &[u8]) -> (r: Result<(), i32>) {
    nix::unistd::chdir(path).map_err(|e| e as i32)
}

/// Relies on `nix::fcntl::open`: opens the byte path read-only and returns
/// the raw file descriptor; `Err` carries the raw `errno`.
#[verifier::external_body]
pub(crate) fn open_read_raw(path: &[u8]) -> (r: Result<i32, i32>) {
    nix::fcntl::open(path, nix::fcntl::OFlag::O_RDONLY, nix::sys::stat::Mode::empty()).map_err(
        |e| e as i32,
    )
}

/// Relies on `nix::fcntl::open`: opens the byte path write-only and returns
/// the raw file descriptor; `Err` carries the raw `errno`.
#[verifier::external_body]
pub(crate) fn open_write_raw(path: &[u8]) -> (r: Result<i32, i32>) {
    nix::fcntl::open(path, nix::fcntl::OFlag::O_WRONLY, nix::sys::stat::Mode::empty()).map_err(
        |e| e as i32,
    )
}

/// Relies on `nix::unistd::read`: reads at most `cap` bytes from `fd`;
/// `Err` carries the raw `errno`.
#[verifier::external_body]
pub(crate) fn read_chunk_raw(fd: i32, cap: usize) -> (r: Result<Vec<u8>, i32>)
    ensures
        r is Ok ==> r->Ok_0@.len() <= cap,
{
    let mut buf = vec![0u8; cap];
    match nix::unistd::read(fd, &mut buf) {
        Ok(n) => {
            buf.truncate(n);
            Ok(buf)
        },
        Err(e) => Err(e as i32),
    }
}

/// Relies on `nix::unistd::write`: writes `buf` to `fd` and returns how many
/// bytes the kernel accepted; `Err` carries the raw `errno`.
#[verifier::external_body]
pub(crate) fn write_raw(fd: i32, buf: &[u8]) -> (r: Result<usize, i32>)
    ensures
        r is Ok ==> r->Ok_0 <= buf@.len(),
{
    nix::unistd::write(fd, buf).map_err(|e| e as i32)
}

/// Relies on `nix::unistd::close`: closes `fd`; `Err` carries the raw
/// `errno`.
#[verifier::external_body]
pub(crate) fn close_raw(fd: i32) -> (r: Result<(), i32>) {
    nix::unistd::close(fd).map_err(|e| e as i32)
}

/// Relies on `nix::unistd::dup`: duplicates `fd`; `Err` carries the raw
/// `errno`.
#[verifier::external_body]
pub(crate) fn dup_raw(fd: i32) -> (r: Result<i32, i32>) {
    nix::unistd::dup(fd).map_err(|e| e as i32)
}

/// Relies on `nix::sys::eventfd::eventfd`: creates an event file descriptor
/// with counter zero; `Err` carries the raw `errno`.
#[verifier::external_body]
pub(crate) fn eventfd_raw() -> (r: Result<i32, i32>) {
    nix::sys::eventfd::eventfd(0, nix::sys::eventfd::EfdFlags::empty()).map_err(|e| e as i32)
}

/// Relies on `nix::unistd::write`: posts `data` to an event file descriptor
/// in the kernel's eight-byte native encoding; `Err` carries the raw
/// `errno`.
#[verifier::external_body]
pub(crate) fn write_u64_raw(fd: i32, data: u64) -> (r: Result<usize, i32>) {
    nix::unistd::write(fd, &data.to_ne_bytes()).map_err(|e| e as i32)
}

/// Relies on `nix::unistd::read`: reads up to eight bytes from an event
/// file descriptor, returning how many came and the buffer decoded
/// natively; `Err` carries the raw `errno`.
#[verifier::external_body]
pub(crate) fn read_u64_raw(fd: i32) -> (r: Result<(usize, u64), i32>)
    ensures
        r is Ok ==> r->Ok_0.0 <= 8,
{
    let mut buf = [0u8; 8];
    match nix::unistd::read(fd, &mut buf) {
        Ok(n) => Ok((n, u64::from_ne_bytes(buf))),
        Err(e) => Err(e as i32),
    }
}

/// Relies on `nix::mount::mount`: performs the mount syscall on byte paths;
/// flag bits outside `nix::mount::MsFlags` are dropped by
/// `from_bits_truncate`; `Err` carries the raw `errno`.
#[verifier::external_body]
pub(crate) fn mount_raw(
    source: Option<&[u8]>,
    target: &[u8],
    fs_type: Option<&[u8]>,
    flags: u64,
    data: Option<&[u8]>,
) -> (r: Result<(), i32>) {
    nix::mount::mount(
        source,
        target,
        fs_type,
        nix::mount::MsFlags::from_bits_truncate(flags),
        data,
    ).map_err(|e| e as i32)
}

/// Relies on `nix::mount::umount2`: unmounts the byte path; flag bits
/// outside `nix::mount::MntFlags` are dropped by `from_bits_truncate`;
/// `Err` carries the raw `errno`.
#[verifier::external_body]
pub(crate) fn umount2_raw(target: &[u8], flags: i32) -> (r: Result<(), i32>) {
    nix::mount::umount2(target, nix::mount::MntFlags::from_bits_truncate(flags)).map_err(
        |e| e as i32,
    )
}

/// Relies on `nix::unistd::pivot_root`: swaps the root filesystem;
/// `Err` carries the raw `errno`.
#[verifier::external_body]
pub(crate) fn pivot_root_raw(new_root: &[u8], put_old: &[u8]) -> (r: Result<(), i32>) {
    nix::unistd::pivot_root(new_root, put_old).map_err(|e| e as i32)
}

/// Relies on `nix::unistd::mkdir`: creates a directory with conventional
/// permissions; `Err` carries the raw `errno`.
#[verifier::external_body]
pub(crate) fn mkdir_raw(path: &[u8]) -> (r: Result<(), i32>) {
    nix::unistd::mkdir(path, nix::sys::stat::Mode::from_bits_truncate(0o755)).map_err(
        |e| e as i32,
    )
}

/// Relies on `nix::unistd::unlinkat`: removes an empty directory;
/// `Err` carries the raw `errno`.
#[verifier::external_body]
pub(crate) fn rmdir_raw(path: &[u8]) -> (r: Result<(), i32>) {
    nix::unistd::unlinkat(None, path, nix::unistd::UnlinkatFlags::RemoveDir).map_err(
        |e| e as i32,
    )
}

/// Relies on `nix::sys::stat::stat`: the raw `st_mode` of the byte path;
/// `Err` carries the raw `errno`.
#[verifier::external_body]
pub(crate) fn stat_mode_raw(path: &[u8]) -> (r: Result<u32, i32>) {
    nix::sys::stat::stat(path).map(|st| st.st_mode as u32).map_err(|e| e as i32)
}

/// Relies on `nix::unistd::User::from_uid`: the login name recorded for
/// `uid` in the system password database, as bytes.
#[verifier::external_body]
pub(crate) fn username_of_raw(uid: u32) -> (r: Option<Vec<u8>>) {
    match nix::unistd::User::from_uid(nix::unistd::Uid::from_raw(uid)) {
        Ok(Some(user)) => Some(user.name.into_bytes()),
        _ => None,
    }
}

} // verus!
