//! The user-namespace step: clones a VM-sharing child into a new user
//! namespace, installs the configured uid and gid maps through the
//! rendezvous protocol, optionally switches identity, and runs the
//! successor inside the namespace. The cloning and the rendezvous belong
//! to the unverified driver; this module holds the configuration, the
//! construction-time capability rule, and the parent-side map
//! installation.
use vstd::prelude::*;

verus! {

use vstd::string::{StrSliceExecFns, StringSliceAdditionalSpecFns};

use crate::bytes::{dec_rep, u32_to_dec};
use crate::container::step::Step;
use crate::container::{Group, IdMap, User};
use crate::linux::libcap::{has_capability, Capability};
use crate::linux::sys;

/// Configuration of a user-namespace step: the maps to install, the
/// identity the child assumes before invoking the successor, and the
/// successor itself.
#[derive(Debug)]
pub struct UserNamespaceRoot {
    pub uid_map: IdMap<User>,
    pub gid_map: IdMap<Group>,
    pub switch_to: Option<(u32, u32)>,
    pub next_step: Box<Step>,
}

/// Why a user-namespace step cannot be built.
#[derive(Debug, Clone, Copy, PartialEq, Eq)]
pub enum NewUserNamespaceError {
    MissingCapabilitySetUid,
    MissingCapabilitySetGid,
}

impl UserNamespaceRoot {
    /// The step that maps the current effective uid and gid to root
    /// inside the namespace and switches the child to (0, 0).
    pub fn new_with_current_user_as_root(next_step: Step) -> (r: Self)
        ensures
            r.uid_map@.len() == 1,
            r.uid_map@[0].internal == 0,
            r.uid_map@[0].len == 1,
            r.gid_map@.len() == 1,
            r.gid_map@[0].internal == 0,
            r.gid_map@[0].len == 1,
            r.switch_to == Some((0u32, 0u32)),
            *r.next_step == next_step,
    {
        Self {
            next_step: Box::new(next_step),
            uid_map: IdMap::<User>::new_with_current_user_as_root(),
            gid_map: IdMap::<Group>::new_with_current_user_as_root(),
            switch_to: Some((0, 0)),
        }
    }

    /// The construction rule, decided from the given capability answers:
    /// a map of more than one entry demands the matching capability; a
    /// single-entry map is the unprivileged "map self" path and is always
    /// admitted. The uid rule is checked first.
    pub fn with_capabilities(
        uid_map: IdMap<User>,
        gid_map: IdMap<Group>,
        user: Option<(u32, u32)>,
        next_step: Step,
        has_setuid: bool,
        has_setgid: bool,
    ) -> (r: Result<Self, NewUserNamespaceError>)
        ensures
            r is Ok <==> ((uid_map@.len() <= 1 || has_setuid) && (gid_map@.len() <= 1
                || has_setgid)),
            r == Err::<Self, _>(NewUserNamespaceError::MissingCapabilitySetUid) <==> (
            uid_map@.len() > 1 && !has_setuid),
            r == Err::<Self, _>(NewUserNamespaceError::MissingCapabilitySetGid) <==> (!(
            uid_map@.len() > 1 && !has_setuid) && gid_map@.len() > 1 && !has_setgid),
            r matches Ok(s) ==> s.uid_map@ == uid_map@ && s.gid_map@ == gid_map@ && s.switch_to
                == user && *s.next_step == next_step,
    {
        if uid_map.len() > 1 && !has_setuid {
            return Err(NewUserNamespaceError::MissingCapabilitySetUid);
        }
        if gid_map.len() > 1 && !has_setgid {
            return Err(NewUserNamespaceError::MissingCapabilitySetGid);
        }
        Ok(Self { next_step: Box::new(next_step), uid_map, gid_map, switch_to: user })
    }

    /// Builds the step, asking the capability oracle for `CAP_SETUID` and
    /// `CAP_SETGID`. Single-entry maps are admitted whatever the oracle
    /// answers; the full rule is pinned by
    /// [`UserNamespaceRoot::with_capabilities`].
    pub fn new(
        uid_map: IdMap<User>,
        gid_map: IdMap<Group>,
        user: Option<(u32, u32)>,
        next_step: Step,
    ) -> (r: Result<Self, NewUserNamespaceError>)
        ensures
            uid_map@.len() <= 1 && gid_map@.len() <= 1 ==> r is Ok,
            r == Err::<Self, _>(NewUserNamespaceError::MissingCapabilitySetUid) ==> uid_map@.len()
                > 1,
            r == Err::<Self, _>(NewUserNamespaceError::MissingCapabilitySetGid) ==> gid_map@.len()
                > 1,
            r matches Ok(s) ==> s.uid_map@ == uid_map@ && s.gid_map@ == gid_map@ && s.switch_to
                == user && *s.next_step == next_step,
    {
        let has_setuid = has_capability(Capability::SETUID);
        let has_setgid = has_capability(Capability::SETGID);
        Self::with_capabilities(uid_map, gid_map, user, next_step, has_setuid, has_setgid)
    }
}

/// What went wrong while installing an id map.
#[derive(Debug, Clone, Copy, PartialEq, Eq)]
pub enum IdMapErrorKind {
    FailedToPrepareProcess,
    FailedToCreateIdMapFile,
    FailedToWriteIdMapFile,
}

/// A failed id-map installation: the stage that failed and the raw
/// `errno`. The kind parameter keeps uid-map and gid-map failures apart.
#[derive(Debug, PartialEq, Eq)]
pub struct IdMapError<T> {
    pub kind: IdMapErrorKind,
    pub errno: i32,
    pub _p: core::marker::PhantomData<T>,
}

impl<T> IdMapError<T> {
    /// Packs a stage and an `errno`.
    pub fn new(kind: IdMapErrorKind, errno: i32) -> (r: Self)
        ensures
            r.kind == kind,
            r.errno == errno,
    {
        Self { kind, errno, _p: core::marker::PhantomData }
    }
}

/// The path `/proc/<pid>/<file>`, as bytes.
pub open spec fn spec_proc_file_path(pid: u32, file: Seq<u8>) -> Seq<u8> {
    "/proc/".spec_bytes() + dec_rep(pid as nat) + "/".spec_bytes() + file
}

/// Builds the path `/proc/<pid>/<file>`.
pub fn proc_file_path(pid: u32, file: &[u8]) -> (r: Vec<u8>)
    ensures
        r@ == spec_proc_file_path(pid, file@),
{
    let mut path = "/proc/".as_bytes_vec();
    let mut pid_part = u32_to_dec(pid);
    path.append(&mut pid_part);
    let mut slash = "/".as_bytes_vec();
    path.append(&mut slash);
    let mut file_part: Vec<u8> = Vec::new();
    let mut i: usize = 0;
    while i < file.len()
        invariant
            0 <= i <= file@.len(),
            file_part@ == file@.take(i as int),
        decreases file@.len() - i,
    {
        proof {
            assert(file@.take(i as int + 1) =~= file@.take(i as int).push(file@[i as int]));
        }
        file_part.push(file[i]);
        i += 1;
    }
    proof {
        assert(file@.take(i as int) =~= file@);
    }
    path.append(&mut file_part);
    proof {
        assert(path@ =~= spec_proc_file_path(pid, file@));
    }
    path
}

/// Writes `content` to `/proc/<pid>/<file>` in one shot, as the id-map
/// files demand. The open and write outcomes rest with the kernel; a
/// short write counts as a failed write, and a failure names the stage
/// it came from: opening the file or writing it.
fn write_proc_file(pid: u32, file: &[u8], content: &[u8]) -> (r: Result<(), (IdMapErrorKind, i32)>)
    ensures
        r matches Err(f) ==> (f.0 == IdMapErrorKind::FailedToCreateIdMapFile || f.0
            == IdMapErrorKind::FailedToWriteIdMapFile),
{
    let path = proc_file_path(pid, file);
    let fd = match sys::open_write_raw(path.as_slice()) {
        Ok(fd) => fd,
        Err(e) => {
            return Err((IdMapErrorKind::FailedToCreateIdMapFile, e));
        },
    };
    let written = sys::write_raw(fd, content);
    let _ = sys::close_raw(fd);
    match written {
        Ok(n) => {
            if n == content.len() {
                Ok(())
            } else {
                Err((IdMapErrorKind::FailedToWriteIdMapFile, 0))
            }
        },
        Err(e) => Err((IdMapErrorKind::FailedToWriteIdMapFile, e)),
    }
}

/// Writes a ready-rendered uid map to `/proc/<pid>/uid_map` in one
/// shot. The run plan carries the rendered contents; this is the
/// action that installs them. A failure names the stage: creating the
/// map file or writing it.
pub fn write_uid_map_content(pid: u32, content: &[u8]) -> (r: Result<(), IdMapError<User>>)
    ensures
        r matches Err(e) ==> (e.kind == IdMapErrorKind::FailedToCreateIdMapFile || e.kind
            == IdMapErrorKind::FailedToWriteIdMapFile),
{
    let file = "uid_map".as_bytes_vec();
    match write_proc_file(pid, file.as_slice(), content) {
        Ok(()) => Ok(()),
        Err((kind, errno)) => Err(IdMapError::new(kind, errno)),
    }
}

/// Writes `deny` to `/proc/<pid>/setgroups`. Without it the kernel
/// refuses an unprivileged gid-map write, so the run plan places this
/// before every gid-map write. A failure is always the
/// prepare-process stage.
pub fn write_setgroups_deny(pid: u32) -> (r: Result<(), IdMapError<Group>>)
    ensures
        r matches Err(e) ==> e.kind == IdMapErrorKind::FailedToPrepareProcess,
{
    let setgroups = "setgroups".as_bytes_vec();
    let deny = "deny".as_bytes_vec();
    match write_proc_file(pid, setgroups.as_slice(), deny.as_slice()) {
        Ok(()) => Ok(()),
        Err((_, errno)) => Err(IdMapError::new(IdMapErrorKind::FailedToPrepareProcess, errno)),
    }
}

/// Writes a ready-rendered gid map to `/proc/<pid>/gid_map` in one
/// shot. A failure names the stage: creating the map file or writing
/// it.
pub fn write_gid_map_content(pid: u32, content: &[u8]) -> (r: Result<(), IdMapError<Group>>)
    ensures
        r matches Err(e) ==> (e.kind == IdMapErrorKind::FailedToCreateIdMapFile || e.kind
            == IdMapErrorKind::FailedToWriteIdMapFile),
{
    let file = "gid_map".as_bytes_vec();
    match write_proc_file(pid, file.as_slice(), content) {
        Ok(()) => Ok(()),
        Err((kind, errno)) => Err(IdMapError::new(kind, errno)),
    }
}

/// Installs the uid map of process `pid`: renders the entries in order
/// and writes them in one shot. A failure names the stage: creating
/// the map file or writing it.
pub fn write_uid_map(map: &IdMap<User>, pid: u32) -> (r: Result<(), IdMapError<User>>)
    ensures
        r matches Err(e) ==> (e.kind == IdMapErrorKind::FailedToCreateIdMapFile || e.kind
            == IdMapErrorKind::FailedToWriteIdMapFile),
{
    let content = map.render();
    write_uid_map_content(pid, content.as_slice())
}

/// Installs the gid map of process `pid`: first the `setgroups` deny,
/// then the rendered entries in one shot. A failure names the stage it
/// came from: preparing the process, creating the map file, or
/// writing it.
pub fn write_gid_map(map: &IdMap<Group>, pid: u32) -> (r: Result<(), IdMapError<Group>>)
    ensures
        r matches Err(e) ==> (e.kind == IdMapErrorKind::FailedToPrepareProcess || e.kind
            == IdMapErrorKind::FailedToCreateIdMapFile || e.kind
            == IdMapErrorKind::FailedToWriteIdMapFile),
{
    match write_setgroups_deny(pid) {
        Ok(()) => {},
        Err(e) => {
            return Err(e);
        },
    }
    let content = map.render();
    write_gid_map_content(pid, content.as_slice())
}

} // verus!
