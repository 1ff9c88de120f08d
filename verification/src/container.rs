//! Id maps and the container-facing API: the map of outside ids to ids
//! inside a user namespace, its rendering into the kernel's
//! `/proc/<pid>/{uid_map,gid_map}` line format, and the subid containment
//! check that decides whether a map is permitted for the calling user.
mod builder;
pub mod context;
pub mod define;
pub mod outcome;
pub mod plan;
pub mod step;
pub mod validate;

pub use builder::ContainerBuilder;

use vstd::prelude::*;

verus! {

use vstd::string::{StrSliceExecFns, StringSliceAdditionalSpecFns};

use crate::bytes::{dec_rep, u32_to_dec};
use crate::linux;
use crate::subid::{subid_ranges, SubidRange};

/// What creating the backing processes of a validated configuration
/// can surface: the driver performing the run reports these.
#[derive(Debug, Clone, Copy, PartialEq, Eq)]
pub enum CreateError {
    Unshare(linux::UnshareError),
    SwitchUser(linux::SwitchUserError),
}

/// The two kinds of id map a user namespace installs.
pub trait MapType {
    /// The calling process's current effective id of this kind. The
    /// all-ones value is the kernel's error sentinel and never a real id.
    fn get_current() -> (r: u32)
        ensures
            r < u32::MAX,
    ;

    /// The path of the subid table consulted for this kind, as bytes.
    fn subid_file() -> Vec<u8>;
}

/// The user-id kind: effective uid, `/etc/subuid`.
#[derive(Debug, Clone, Copy, PartialEq, Eq)]
pub struct User;

impl MapType for User {
    fn get_current() -> (r: u32) {
        linux::get_euid()
    }

    fn subid_file() -> Vec<u8> {
        "/etc/subuid".as_bytes_vec()
    }
}

/// The group-id kind: effective gid, `/etc/subgid`.
#[derive(Debug, Clone, Copy, PartialEq, Eq)]
pub struct Group;

impl MapType for Group {
    fn get_current() -> (r: u32) {
        linux::get_egid()
    }

    fn subid_file() -> Vec<u8> {
        "/etc/subgid".as_bytes_vec()
    }
}

/// One line of an id map: ids `internal..internal+len` inside the
/// namespace map to `external..external+len` outside it.
#[derive(Debug, Clone, Copy, PartialEq, Eq, Hash, Structural)]
pub struct IdMapEntry {
    pub internal: u32,
    pub external: u32,
    pub len: u32,
}

/// An entry whose id ranges stay within the 32-bit id space.
pub open spec fn entry_in_id_space(e: IdMapEntry) -> bool {
    &&& e.internal + e.len <= u32::MAX
    &&& e.external + e.len <= u32::MAX
}

/// An ordered list of id-map entries, written to the kernel in the order
/// given. The kind parameter keeps uid maps and gid maps apart.
#[derive(Debug, PartialEq, Eq, Hash)]
pub struct IdMap<T> {
    entries: Vec<IdMapEntry>,
    _p: core::marker::PhantomData<T>,
}

impl<T> View for IdMap<T> {
    type V = Seq<IdMapEntry>;

    closed spec fn view(&self) -> Seq<IdMapEntry> {
        self.entries@
    }
}

impl<T> IdMap<T> {
    /// The empty map.
    pub fn new() -> (r: Self)
        ensures
            r@ == Seq::<IdMapEntry>::empty(),
    {
        Self { entries: Vec::new(), _p: core::marker::PhantomData }
    }

    /// Appends the entry mapping `internal..internal+len` to
    /// `external..external+len`, after all entries already present.
    pub fn add(&mut self, internal: u32, external: u32, len: u32)
        requires
            internal + len <= u32::MAX,
            external + len <= u32::MAX,
        ensures
            final(self)@ == old(self)@.push(IdMapEntry { internal, external, len }),
    {
        self.entries.push(IdMapEntry { internal, external, len });
    }

    /// Swaps the inside and outside ranges of every entry, keeping order.
    pub fn invert(m: Self) -> (r: Self)
        ensures
            r@.len() == m@.len(),
            forall|i: int|
                0 <= i < m@.len() ==> r@[i] == (IdMapEntry {
                    internal: m@[i].external,
                    external: m@[i].internal,
                    len: m@[i].len,
                }),
    {
        let mut entries: Vec<IdMapEntry> = Vec::new();
        let mut i: usize = 0;
        while i < m.entries.len()
            invariant
                0 <= i <= m@.len(),
                entries@.len() == i,
                forall|k: int|
                    0 <= k < i ==> entries@[k] == (IdMapEntry {
                        internal: m@[k].external,
                        external: m@[k].internal,
                        len: m@[k].len,
                    }),
            decreases m@.len() - i,
        {
            let e = m.entries[i];
            entries.push(IdMapEntry { internal: e.external, external: e.internal, len: e.len });
            i += 1;
        }
        Self { entries, _p: core::marker::PhantomData }
    }

    /// Whether some entry's inside range holds `id`.
    pub fn contains_interior_id(&self, id: u32) -> (r: bool)
        ensures
            r == id_mapped(self@, id),
    {
        let mut i: usize = 0;
        while i < self.entries.len()
            invariant
                0 <= i <= self@.len(),
                forall|k: int|
                    0 <= k < i ==> !((#[trigger] self@[k]).internal <= id && id < self@[k].internal
                        + self@[k].len),
            decreases self@.len() - i,
        {
            let e = self.entries[i];
            if e.internal <= id && (id as u64) < (e.internal as u64 + e.len as u64) {
                return true;
            }
            i += 1;
        }
        false
    }

    /// Whether some entry maps interior id zero.
    pub fn maps_root(&self) -> (r: bool)
        ensures
            r == has_root_entry(self@),
    {
        let mut i: usize = 0;
        while i < self.entries.len()
            invariant
                0 <= i <= self@.len(),
                forall|k: int| 0 <= k < i ==> (#[trigger] self@[k]).internal != 0,
            decreases self@.len() - i,
        {
            if self.entries[i].internal == 0 {
                return true;
            }
            i += 1;
        }
        false
    }

    /// Copies the map entry by entry.
    pub fn duplicate(&self) -> (r: Self)
        ensures
            r@ == self@,
    {
        let mut entries: Vec<IdMapEntry> = Vec::new();
        let mut i: usize = 0;
        while i < self.entries.len()
            invariant
                0 <= i <= self@.len(),
                entries@ == self@.take(i as int),
            decreases self@.len() - i,
        {
            proof {
                assert(self@.take(i as int + 1) =~= self@.take(i as int).push(self@[i as int]));
            }
            entries.push(self.entries[i]);
            i += 1;
        }
        proof {
            assert(self@.take(i as int) =~= self@);
        }
        Self { entries, _p: core::marker::PhantomData }
    }

    /// The number of entries.
    pub fn len(&self) -> (r: usize)
        ensures
            r == self@.len(),
    {
        self.entries.len()
    }

    /// Renders the map in the kernel's id-map file format.
    pub fn render(&self) -> (r: Vec<u8>)
        ensures
            r@ == id_map_content(self@),
    {
        render_id_map_entries(&self.entries)
    }

    /// Whether every entry's inside range is contained in some allowed
    /// subid range. Note the closed upper end: both `internal` and
    /// `internal + len` must lie inside one half-open allowed range, so
    /// an entry that fills an allowed range exactly is rejected — its
    /// upper end coincides with the range's first excluded id.
    pub fn is_valid(&self, ranges: &Vec<SubidRange>) -> (r: bool)
        ensures
            r == map_allowed(self@, ranges@),
    {
        let mut i: usize = 0;
        while i < self.entries.len()
            invariant
                0 <= i <= self@.len(),
                forall|k: int| 0 <= k < i ==> entry_allowed(self@[k], ranges@),
            decreases self@.len() - i,
        {
            let e = self.entries[i];
            let mut found = false;
            let mut j: usize = 0;
            while j < ranges.len()
                invariant
                    0 <= j <= ranges@.len(),
                    found ==> entry_allowed(e, ranges@),
                    !found ==> forall|k: int| 0 <= k < j ==> !range_covers(ranges@[k], e),
                decreases ranges@.len() - j,
            {
                let rg = ranges[j];
                if rg.start <= e.internal && (e.internal as u64 + e.len as u64) < (
                rg.start as u64 + rg.len as u64) {
                    found = true;
                }
                j += 1;
            }
            if !found {
                return false;
            }
            i += 1;
        }
        true
    }
}

impl<T: MapType> IdMap<T> {
    /// The map whose single entry makes the current effective id the
    /// root id inside the namespace.
    pub fn new_with_current_user_as_root() -> (r: Self)
        ensures
            r@.len() == 1,
            r@[0].internal == 0,
            r@[0].len == 1,
    {
        let mut map = Self { entries: Vec::new(), _p: core::marker::PhantomData };
        let ext_id = T::get_current();
        map.add(0, ext_id, 1);
        map
    }

    /// Whether this map is permitted by the kind's subid table for the
    /// calling user. Reads the table and resolves the caller's name, so
    /// the answer depends on the system's current state; the containment
    /// rule itself is pinned by [`IdMap::is_valid`]. An unreadable table
    /// counts as not permitted.
    pub fn is_valid_for_current_process(&self) -> bool {
        let path = T::subid_file();
        match linux::read_file_bounded(path.as_slice()) {
            Some(text) => {
                let uid = linux::get_uid();
                let username = linux::get_user_name(uid);
                let ranges = subid_ranges(text.as_slice(), uid, &username);
                self.is_valid(&ranges)
            },
            None => false,
        }
    }
}

/// Some entry's inside range holds `id`.
pub open spec fn id_mapped(entries: Seq<IdMapEntry>, id: u32) -> bool {
    exists|k: int|
        0 <= k < entries.len() && (#[trigger] entries[k]).internal <= id && id < entries[k].internal
            + entries[k].len
}

/// Some entry maps interior id zero, whatever its length.
pub open spec fn has_root_entry(entries: Seq<IdMapEntry>) -> bool {
    exists|k: int| 0 <= k < entries.len() && (#[trigger] entries[k]).internal == 0
}

/// `r` covers `e`: both ends of the inside range, `internal` and
/// `internal + len`, lie inside the half-open allowed range.
pub open spec fn range_covers(r: SubidRange, e: IdMapEntry) -> bool {
    r.start <= e.internal && e.internal + e.len < r.start + r.len
}

/// Some allowed range covers `e`.
pub open spec fn entry_allowed(e: IdMapEntry, ranges: Seq<SubidRange>) -> bool {
    exists|k: int| 0 <= k < ranges.len() && range_covers(#[trigger] ranges[k], e)
}

/// Every entry of the map is covered by some allowed range.
pub open spec fn map_allowed(entries: Seq<IdMapEntry>, ranges: Seq<SubidRange>) -> bool {
    forall|i: int| 0 <= i < entries.len() ==> entry_allowed(#[trigger] entries[i], ranges)
}

/// One line of an id-map file: `"internal external len\n"`.
pub open spec fn id_map_line(e: IdMapEntry) -> Seq<u8> {
    dec_rep(e.internal as nat) + " ".spec_bytes() + dec_rep(e.external as nat) + " ".spec_bytes()
        + dec_rep(e.len as nat) + "\n".spec_bytes()
}

/// The full contents of an id-map file: the entries' lines in order.
pub open spec fn id_map_content(entries: Seq<IdMapEntry>) -> Seq<u8>
    decreases entries.len(),
{
    if entries.len() == 0 {
        Seq::empty()
    } else {
        id_map_line(entries[0]) + id_map_content(entries.drop_first())
    }
}

/// Renders one entry as its id-map file line.
fn render_id_map_line(e: &IdMapEntry) -> (r: Vec<u8>)
    ensures
        r@ == id_map_line(*e),
{
    let mut line = u32_to_dec(e.internal);
    let mut sp1 = " ".as_bytes_vec();
    line.append(&mut sp1);
    let mut ext = u32_to_dec(e.external);
    line.append(&mut ext);
    let mut sp2 = " ".as_bytes_vec();
    line.append(&mut sp2);
    let mut len = u32_to_dec(e.len);
    line.append(&mut len);
    let mut nl = "\n".as_bytes_vec();
    line.append(&mut nl);
    proof {
        assert(line@ =~= id_map_line(*e));
    }
    line
}

/// Renders a list of entries as the contents of an id-map file.
fn render_id_map_entries(entries: &Vec<IdMapEntry>) -> (r: Vec<u8>)
    ensures
        r@ == id_map_content(entries@),
{
    let mut out: Vec<u8> = Vec::new();
    let mut i: usize = 0;
    proof {
        assert(entries@.skip(0) =~= entries@);
        assert(out@ + id_map_content(entries@) =~= id_map_content(entries@));
    }
    while i < entries.len()
        invariant
            0 <= i <= entries@.len(),
            id_map_content(entries@) == out@ + id_map_content(entries@.skip(i as int)),
        decreases entries@.len() - i,
    {
        let mut line = render_id_map_line(&entries[i]);
        proof {
            assert(entries@.skip(i as int)[0] == entries@[i as int]);
            assert(entries@.skip(i as int).drop_first() =~= entries@.skip(i as int + 1));
            assert(out@ + id_map_content(entries@.skip(i as int)) =~= (out@ + line@)
                + id_map_content(entries@.skip(i as int + 1)));
        }
        out.append(&mut line);
        i += 1;
    }
    proof {
        assert(id_map_content(entries@.skip(i as int)) =~= Seq::<u8>::empty());
        assert(out@ + id_map_content(entries@.skip(i as int)) =~= out@);
    }
    out
}

} // verus!
