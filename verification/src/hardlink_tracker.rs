//! Hardlink tracking for race-free hardlink synchronization.
//!
//! The first task to meet a hardlinked inode becomes its "copier"; every
//! later task meeting the same inode is a "linker" that waits for the copier
//! to signal completion and then links to the copier's destination.

use vstd::prelude::*;
use std::path::PathBuf;
use std::sync::Arc;
use dashmap::DashMap;
use crate::condvar::Condvar;

verus! {

// ============================================================================
// The inode table (a concurrent map from the outside crate `dashmap`)
// ============================================================================

/// Concurrent hash map from the `dashmap` crate.
#[verifier::external_type_specification]
#[verifier::external_body]
#[verifier::reject_recursive_types(K)]
#[verifier::reject_recursive_types(V)]
#[verifier::reject_recursive_types(S)]
pub struct ExDashMap<K, V, S>(DashMap<K, V, S>);

/// Table from (device, inode) to the index of the inode's record.
pub type InodeTable = DashMap<(u64, u64), usize>;

/// The entries of an inode table: (device, inode) to record index.
pub uninterp spec fn inode_table_entries(table: DashMap<(u64, u64), usize>) -> Map<(u64, u64), usize>;

/// The empty inode table contents.
pub open spec fn no_inodes() -> Map<(u64, u64), usize> {
    Map::empty()
}

/// `DashMap::new`: an empty map.
#[verifier::external_body]
fn inode_table_new() -> (r: InodeTable)
    ensures
        inode_table_entries(r) == no_inodes(),
{
    DashMap::new()
}

/// `DashMap::get`: the value stored under `key`, if any (copied out of the
/// returned reference).
#[verifier::external_body]
fn inode_table_get(table: &DashMap<(u64, u64), usize>, key: (u64, u64)) -> (r: Option<usize>)
    ensures
        r == (if inode_table_entries(*table).contains_key(key) {
            Some(inode_table_entries(*table)[key])
        } else {
            None::<usize>
        }),
{
    table.get(&key).map(|entry| *entry.value())
}

/// `DashMap::insert`: store `value` under `key`, replacing any old value,
/// which is returned.
#[verifier::external_body]
fn inode_table_insert(table: &mut DashMap<(u64, u64), usize>, key: (u64, u64), value: usize) -> (r: Option<usize>)
    ensures
        inode_table_entries(*final(table)) == inode_table_entries(*old(table)).insert(key, value),
        r == (if inode_table_entries(*old(table)).contains_key(key) {
            Some(inode_table_entries(*old(table))[key])
        } else {
            None::<usize>
        }),
{
    table.insert(key, value)
}

/// `DashMap::len`: the number of entries.
#[verifier::external_body]
fn inode_table_len(table: &DashMap<(u64, u64), usize>) -> (n: usize)
    ensures
        n == inode_table_entries(*table).dom().len(),
{
    table.len()
}

/// The entries of an optional inode table (none when there is no table).
pub open spec fn table_entries(table: Option<InodeTable>) -> Map<(u64, u64), usize> {
    match table {
        Some(t) => inode_table_entries(t),
        None => no_inodes(),
    }
}

/// The value stored under `key`, if any.
fn table_get(table: &Option<InodeTable>, key: (u64, u64)) -> (r: Option<usize>)
    ensures
        r == (if table_entries(*table).contains_key(key) {
            Some(table_entries(*table)[key])
        } else {
            None::<usize>
        }),
{
    match table {
        Some(t) => inode_table_get(t, key),
        None => None,
    }
}

/// Store `value` under `key`, creating the table if there is none.
fn table_insert(table: &mut Option<InodeTable>, key: (u64, u64), value: usize)
    ensures
        *final(table) is Some,
        table_entries(*final(table)) == table_entries(*old(table)).insert(key, value),
{
    let mut t = match table.take() {
        Some(t) => t,
        None => inode_table_new(),
    };
    let _ = inode_table_insert(&mut t, key, value);
    *table = Some(t);
}

/// The number of entries.
fn table_len(table: &Option<InodeTable>) -> (n: usize)
    ensures
        n == table_entries(*table).dom().len(),
{
    match table {
        Some(t) => inode_table_len(t),
        None => {
            assert(no_inodes().dom() =~= Set::<(u64, u64)>::empty());
            0
        },
    }
}

// ============================================================================
// Records
// ============================================================================

/// Inode information used as a key for hardlink tracking.
#[derive(Debug, Clone, Copy, PartialEq, Eq, Hash)]
pub struct InodeInfo {
    /// Device ID.
    pub dev: u64,
    /// Inode number.
    pub ino: u64,
}

/// Hardlink tracking information for one inode.
pub struct HardlinkInfo {
    /// Source path of the first registration.
    pub original_path: PathBuf,
    /// Inode number.
    pub inode_number: u64,
    /// Number of registrations of this inode (counted modulo 2^64).
    pub link_count: u64,
    /// Destination path chosen by the copier at registration.
    pub dst_path: PathBuf,
    /// Signalled when the copier has finished (whether or not it succeeded).
    pub copy_complete: Arc<Condvar>,
}

/// Statistics about hardlink tracking.
#[derive(Debug, Clone, Copy, Default, PartialEq, Eq)]
pub struct FilesystemStats {
    /// Total number of tracked inodes.
    pub total_files: usize,
    /// Number of inodes registered more than once.
    pub hardlink_groups: usize,
    /// Total number of registrations.
    pub total_hardlinks: u64,
}

/// Outcome of registering a file.
pub enum Registration {
    /// The file has a single link: copy it normally.
    Single,
    /// First registration of a hardlinked inode: copy it, then signal.
    Copier,
    /// Later registration: wait on the condition variable, then link to the
    /// copier's destination.
    Linker(Arc<Condvar>),
}

/// `x + 1` modulo 2^64.
pub open spec fn wrapping_inc_u64(x: u64) -> u64 {
    if x == u64::MAX { 0 } else { (x + 1) as u64 }
}

/// Sum of the registration counts of `records`.
pub open spec fn total_links(records: Seq<HardlinkInfo>) -> nat
    decreases records.len(),
{
    if records.len() == 0 {
        0
    } else {
        (total_links(records.drop_last()) + records.last().link_count) as nat
    }
}

/// Number of `records` registered more than once.
pub open spec fn group_count(records: Seq<HardlinkInfo>) -> nat
    decreases records.len(),
{
    if records.len() == 0 {
        0
    } else {
        group_count(records.drop_last()) + (if records.last().link_count > 1 { 1nat } else { 0nat })
    }
}

/// Index of the first record for inode number `ino`, if any.
pub open spec fn first_with_inode(records: Seq<HardlinkInfo>, ino: u64) -> Option<int> {
    if exists|i: int| 0 <= i < records.len() && records[i].inode_number == ino {
        Some(choose|i: int| 0 <= i < records.len() && records[i].inode_number == ino
            && forall|j: int| 0 <= j < i ==> records[j].inode_number != ino)
    } else {
        None
    }
}

/// The groups reported by `get_hardlink_groups`: (inode, count) of every
/// record registered more than once, in registration order.
pub open spec fn groups_of(records: Seq<HardlinkInfo>) -> Seq<(u64, u64)>
    decreases records.len(),
{
    if records.len() == 0 {
        Seq::empty()
    } else {
        let rest = groups_of(records.drop_last());
        if records.last().link_count > 1 {
            rest.push((records.last().inode_number, records.last().link_count))
        } else {
            rest
        }
    }
}

// ============================================================================
// Tracker
// ============================================================================

/// Filesystem boundary and hardlink tracker.
pub struct FilesystemTracker {
    hardlinks: Option<InodeTable>,
    records: Vec<HardlinkInfo>,
    source_filesystem: Option<u64>,
}

impl FilesystemTracker {
    /// The tracker's invariant: the inode table maps each tracked
    /// (device, inode) to its own record, one entry per record.
    #[verifier::type_invariant]
    spec fn wf(self) -> bool {
        let t = table_entries(self.hardlinks);
        &&& forall|k: (u64, u64)| #[trigger] t.contains_key(k) ==> t[k] < self.records@.len()
            && self.records@[t[k] as int].inode_number == k.1
        &&& forall|k1: (u64, u64), k2: (u64, u64)| #[trigger] t.contains_key(k1) && #[trigger] t.contains_key(k2) && k1 != k2 ==> t[k1] != t[k2]
        &&& t.dom().finite()
        &&& t.dom().len() == self.records@.len()
    }

    /// Tracked inodes: (device, inode) to its record.
    pub closed spec fn spec_entries(self) -> Map<(u64, u64), HardlinkInfo> {
        let t = table_entries(self.hardlinks);
        Map::new(|k: (u64, u64)| t.contains_key(k), |k: (u64, u64)| self.records@[t[k] as int])
    }

    /// Records in registration order.
    pub closed spec fn spec_records(self) -> Seq<HardlinkInfo> {
        self.records@
    }

    /// Device ID of the source filesystem, once known.
    pub closed spec fn spec_source_filesystem(self) -> Option<u64> {
        self.source_filesystem
    }

    /// Create a new filesystem tracker.
    pub fn new() -> (t: Self)
        ensures
            t.spec_entries() == Map::<(u64, u64), HardlinkInfo>::empty(),
            t.spec_records() == Seq::<HardlinkInfo>::empty(),
            t.spec_source_filesystem() is None,
    {
        let t = FilesystemTracker { hardlinks: Some(inode_table_new()), records: Vec::new(), source_filesystem: None };
        proof {
            assert(t.spec_entries() =~= Map::<(u64, u64), HardlinkInfo>::empty());
            assert(t.records@ =~= Seq::<HardlinkInfo>::empty());
        }
        t
    }

    /// Create a tracker with a known source filesystem.
    pub fn with_source_filesystem(dev: u64) -> (t: Self)
        ensures
            t.spec_entries() == Map::<(u64, u64), HardlinkInfo>::empty(),
            t.spec_records() == Seq::<HardlinkInfo>::empty(),
            t.spec_source_filesystem() == Some(dev),
    {
        let mut t = Self::new();
        proof { use_type_invariant(&t); }
        t.source_filesystem = Some(dev);
        t
    }

    /// Set the source filesystem device ID.
    pub fn set_source_filesystem(&mut self, dev: u64)
        ensures
            final(self).spec_source_filesystem() == Some(dev),
            final(self).spec_entries() == old(self).spec_entries(),
            final(self).spec_records() == old(self).spec_records(),
    {
        proof { use_type_invariant(&*self); }
        self.source_filesystem = Some(dev);
    }

    /// Whether a device is on the source filesystem; true when no source is
    /// set.
    pub fn is_on_source_filesystem(&self, dev: u64) -> (r: bool)
        ensures
            r == (self.spec_source_filesystem() is None || self.spec_source_filesystem() == Some(dev)),
    {
        match self.source_filesystem {
            None => true,
            Some(source) => source == dev,
        }
    }

    /// Alias of `is_on_source_filesystem`.
    pub fn is_same_filesystem(&self, dev: u64) -> (r: bool)
        ensures
            r == (self.spec_source_filesystem() is None || self.spec_source_filesystem() == Some(dev)),
    {
        self.is_on_source_filesystem(dev)
    }

    /// False when a source is set and `dev` is not it; otherwise the answer
    /// of `predicate` applied to the source setting.
    pub fn check_source_filesystem<F: FnOnce(Option<u64>) -> bool>(&self, dev: u64, predicate: F) -> (r: bool)
        requires
            forall|o: Option<u64>| predicate.requires((o,)),
        ensures
            (self.spec_source_filesystem() matches Some(s) && s != dev) ==> !r,
            !(self.spec_source_filesystem() matches Some(s) && s != dev)
                ==> predicate.ensures((self.spec_source_filesystem(),), r),
    {
        match self.source_filesystem {
            Some(source) => {
                if source != dev {
                    false
                } else {
                    predicate(self.source_filesystem)
                }
            },
            None => predicate(self.source_filesystem),
        }
    }

    /// Register a file for hardlink tracking. A file with one link is not
    /// tracked; the first registration of an inode becomes its copier and
    /// records `dst_path`; later ones are linkers, counted, and handed the
    /// condition variable to wait on.
    pub fn register_file(&mut self, src_path: &PathBuf, dst_path: &PathBuf, dev: u64, ino: u64, link_count: u64) -> (r: Registration)
        ensures
            final(self).spec_source_filesystem() == old(self).spec_source_filesystem(),
            link_count == 1 ==> r is Single && final(self).spec_records() == old(self).spec_records()
                && final(self).spec_entries() == old(self).spec_entries(),
            link_count != 1 && !old(self).spec_entries().contains_key((dev, ino))
                && old(self).spec_records().len() == usize::MAX ==> r is Single
                && final(self).spec_records() == old(self).spec_records()
                && final(self).spec_entries() == old(self).spec_entries(),
            link_count != 1 && !old(self).spec_entries().contains_key((dev, ino))
                && old(self).spec_records().len() < usize::MAX ==> {
                &&& r is Copier
                &&& final(self).spec_entries().dom() == old(self).spec_entries().dom().insert((dev, ino))
                &&& final(self).spec_entries()[(dev, ino)].original_path == *src_path
                &&& final(self).spec_entries()[(dev, ino)].dst_path == *dst_path
                &&& final(self).spec_entries()[(dev, ino)].inode_number == ino
                &&& final(self).spec_entries()[(dev, ino)].link_count == 1
                &&& forall|k: (u64, u64)| k != (dev, ino) && old(self).spec_entries().contains_key(k)
                    ==> #[trigger] final(self).spec_entries()[k] == old(self).spec_entries()[k]
                &&& final(self).spec_records() == old(self).spec_records().push(final(self).spec_entries()[(dev, ino)])
            },
            link_count != 1 && old(self).spec_entries().contains_key((dev, ino)) ==> {
                let before = old(self).spec_entries()[(dev, ino)];
                let after = final(self).spec_entries()[(dev, ino)];
                &&& r matches Registration::Linker(cv) && cv == before.copy_complete
                &&& final(self).spec_entries().dom() == old(self).spec_entries().dom()
                &&& after.link_count == wrapping_inc_u64(before.link_count)
                &&& after.original_path == before.original_path
                &&& after.dst_path == before.dst_path
                &&& after.inode_number == before.inode_number
                &&& after.copy_complete == before.copy_complete
                &&& forall|k: (u64, u64)| k != (dev, ino) && old(self).spec_entries().contains_key(k)
                    ==> #[trigger] final(self).spec_entries()[k] == old(self).spec_entries()[k]
                &&& final(self).spec_records().len() == old(self).spec_records().len()
            },
    {
        proof { use_type_invariant(&*self); }
        if link_count == 1 {
            return Registration::Single;
        }
        let key = (dev, ino);
        let found = table_get(&self.hardlinks, key);
        if found.is_none() && self.records.len() == usize::MAX {
            return Registration::Single;
        }
        let ghost t0 = table_entries(self.hardlinks);
        let ghost before_entries = self.spec_entries();
        let mut taken = FilesystemTracker { hardlinks: None, records: Vec::new(), source_filesystem: None };
        proof {
            assert(table_entries(taken.hardlinks).dom() =~= Set::<(u64, u64)>::empty());
        }
        std::mem::swap(&mut taken, self);
        let FilesystemTracker { mut hardlinks, mut records, source_filesystem } = taken;
        let ghost r0 = records@;
        let result = match found {
            Some(idx) => {
                let old_rec = &records[idx];
                let rec = HardlinkInfo {
                    original_path: old_rec.original_path.clone(),
                    inode_number: old_rec.inode_number,
                    link_count: old_rec.link_count.wrapping_add(1),
                    dst_path: old_rec.dst_path.clone(),
                    copy_complete: Arc::clone(&old_rec.copy_complete),
                };
                let cv = Arc::clone(&rec.copy_complete);
                records.set(idx, rec);
                proof {
                    assert(records@ =~= r0.update(idx as int, records@[idx as int]));
                }
                Registration::Linker(cv)
            },
            None => {
                let idx = records.len();
                let rec = HardlinkInfo {
                    original_path: src_path.clone(),
                    inode_number: ino,
                    link_count: 1,
                    dst_path: dst_path.clone(),
                    copy_complete: Arc::new(Condvar::new()),
                };
                records.push(rec);
                table_insert(&mut hardlinks, key, idx);
                proof {
                    let t = table_entries(hardlinks);
                    assert(t == t0.insert(key, idx));
                    assert forall|k: (u64, u64)| #[trigger] t.contains_key(k) implies t[k] < records@.len()
                        && records@[t[k] as int].inode_number == k.1 by {
                        if k != key {
                            assert(t0.contains_key(k));
                        }
                    }
                    assert forall|k1: (u64, u64), k2: (u64, u64)| #[trigger] t.contains_key(k1) && #[trigger] t.contains_key(k2) && k1 != k2 implies t[k1] != t[k2] by {
                        if k1 != key && k2 != key {
                            assert(t0.contains_key(k1) && t0.contains_key(k2));
                        } else if k1 == key {
                            assert(t0.contains_key(k2));
                        } else {
                            assert(t0.contains_key(k1));
                        }
                    }
                    assert(!t0.contains_key(key));
                    assert(t.dom() =~= t0.dom().insert(key));
                }
                Registration::Copier
            },
        };
        *self = FilesystemTracker { hardlinks, records, source_filesystem };
        proof {
            let t = table_entries(self.hardlinks);
            if found is Some {
                assert forall|k: (u64, u64)| k != key && t.contains_key(k) implies #[trigger] self.spec_entries()[k] == before_entries[k] by {
                    assert(t[k] != t[key]);
                }
                assert(self.spec_entries().dom() =~= before_entries.dom());
            } else {
                assert forall|k: (u64, u64)| k != key && before_entries.contains_key(k) implies #[trigger] self.spec_entries()[k] == before_entries[k] by {
                    assert(t0.contains_key(k));
                }
                assert(self.spec_entries().dom() =~= before_entries.dom().insert(key));
            }
        }
        result
    }
}

impl FilesystemTracker {
    /// Sum of the registration counts of all tracked inodes.
    pub open spec fn spec_total_links(self) -> nat {
        total_links(self.spec_records())
    }

    /// Get all hardlink groups: (inode number, registrations) of every inode
    /// registered more than once, in registration order.
    pub fn get_hardlink_groups(&self) -> (groups: Vec<(u64, u64)>)
        ensures
            groups@ == groups_of(self.spec_records()),
    {
        let mut groups: Vec<(u64, u64)> = Vec::new();
        let mut i: usize = 0;
        while i < self.records.len()
            invariant
                i <= self.records@.len(),
                groups@ == groups_of(self.records@.take(i as int)),
            decreases self.records@.len() - i,
        {
            proof { assert(self.records@.take(i + 1).drop_last() =~= self.records@.take(i as int)); }
            let rec = &self.records[i];
            if rec.link_count > 1 {
                groups.push((rec.inode_number, rec.link_count));
            }
            i = i + 1;
        }
        proof { assert(self.records@.take(i as int) =~= self.records@); }
        groups
    }

    /// Index of the first record with inode number `ino`.
    fn find_inode(&self, ino: u64) -> (r: Option<usize>)
        ensures
            r matches Some(i) ==> i < self.spec_records().len() && self.spec_records()[i as int].inode_number == ino
                && forall|j: int| 0 <= j < i ==> self.spec_records()[j].inode_number != ino,
            r is None ==> forall|j: int| 0 <= j < self.spec_records().len() ==> self.spec_records()[j].inode_number != ino,
            r matches Some(i) ==> first_with_inode(self.spec_records(), ino) == Some(i as int),
            r is None ==> first_with_inode(self.spec_records(), ino) is None,
    {
        let mut i: usize = 0;
        while i < self.records.len()
            invariant
                i <= self.records@.len(),
                forall|j: int| 0 <= j < i ==> self.records@[j].inode_number != ino,
            decreases self.records@.len() - i,
        {
            if self.records[i].inode_number == ino {
                proof {
                    let recs = self.records@;
                    let w = choose|k: int| 0 <= k < recs.len() && recs[k].inode_number == ino
                        && forall|j: int| 0 <= j < k ==> recs[j].inode_number != ino;
                    assert(0 <= i < recs.len() && recs[i as int].inode_number == ino
                        && forall|j: int| 0 <= j < i ==> recs[j].inode_number != ino);
                    if w < i {
                    } else if w > i {
                        assert(recs[i as int].inode_number != ino);
                    }
                    assert(w == i);
                }
                return Some(i);
            }
            i = i + 1;
        }
        None
    }

    /// Signal that an inode's copy is complete: wake every task waiting on
    /// the first record with inode number `ino`. Returns whether such a
    /// record exists.
    pub fn signal_copy_complete(&self, ino: u64) -> (found: bool)
        ensures
            found == first_with_inode(self.spec_records(), ino) is Some,
    {
        match self.find_inode(ino) {
            Some(i) => {
                self.records[i].copy_complete.notify_all();
                true
            },
            None => false,
        }
    }

    /// Destination path recorded for the first record with inode number
    /// `ino`.
    pub fn get_dst_path_for_inode(&self, ino: u64) -> (r: Option<PathBuf>)
        ensures
            r == (match first_with_inode(self.spec_records(), ino) {
                Some(i) => Some(self.spec_records()[i].dst_path),
                None => None::<PathBuf>,
            }),
    {
        match self.find_inode(ino) {
            Some(i) => Some(self.records[i].dst_path.clone()),
            None => None,
        }
    }

    /// Whether the inode (device, inode number) has been registered.
    pub fn is_inode_copied(&self, dev: u64, ino: u64) -> (r: bool)
        ensures
            r == self.spec_entries().contains_key((dev, ino)),
    {
        proof { use_type_invariant(self); }
        table_get(&self.hardlinks, (dev, ino)).is_some()
    }

    /// Source path of the first registration of (device, inode number).
    pub fn get_original_path_for_inode(&self, dev: u64, ino: u64) -> (r: Option<PathBuf>)
        ensures
            r == (if self.spec_entries().contains_key((dev, ino)) {
                Some(self.spec_entries()[(dev, ino)].original_path)
            } else {
                None::<PathBuf>
            }),
    {
        proof { use_type_invariant(self); }
        match table_get(&self.hardlinks, (dev, ino)) {
            Some(i) => Some(self.records[i].original_path.clone()),
            None => None,
        }
    }

    /// Statistics about the tracked inodes.
    pub fn get_stats(&self) -> (s: FilesystemStats)
        requires
            self.spec_total_links() <= u64::MAX,
        ensures
            s.total_files == self.spec_records().len(),
            s.total_files == self.spec_entries().dom().len(),
            s.hardlink_groups == group_count(self.spec_records()),
            s.total_hardlinks == self.spec_total_links(),
    {
        proof { use_type_invariant(self); }
        let total_files = table_len(&self.hardlinks);
        let mut hardlink_groups: usize = 0;
        let mut total_hardlinks: u64 = 0;
        let mut i: usize = 0;
        proof {
            assert(self.spec_entries().dom() =~= table_entries(self.hardlinks).dom());
        }
        while i < self.records.len()
            invariant
                i <= self.records@.len(),
                total_links(self.records@) <= u64::MAX,
                hardlink_groups == group_count(self.records@.take(i as int)),
                total_hardlinks == total_links(self.records@.take(i as int)),
                group_count(self.records@.take(i as int)) <= i,
            decreases self.records@.len() - i,
        {
            proof {
                assert(self.records@.take(i + 1).drop_last() =~= self.records@.take(i as int));
                lemma_prefix_links_bounded(self.records@, i + 1);
            }
            let count = self.records[i].link_count;
            if count > 1 {
                hardlink_groups = hardlink_groups + 1;
            }
            total_hardlinks = total_hardlinks + count;
            i = i + 1;
        }
        proof { assert(self.records@.take(i as int) =~= self.records@); }
        FilesystemStats { total_files, hardlink_groups, total_hardlinks }
    }
}

/// The links counted in a prefix of the records never exceed the total.
pub proof fn lemma_prefix_links_bounded(records: Seq<HardlinkInfo>, n: int)
    requires
        0 <= n <= records.len(),
    ensures
        total_links(records.take(n)) <= total_links(records),
    decreases records.len(),
{
    if n < records.len() {
        assert(records.drop_last().take(n) =~= records.take(n));
        lemma_prefix_links_bounded(records.drop_last(), n);
    } else {
        assert(records.take(n) =~= records);
    }
}

/// The hardlink groups are exactly the records registered more than once:
/// every such record appears as (inode number, registrations), every group
/// comes from such a record, and there is one group per such record.
pub proof fn lemma_groups_are_repeated_records(records: Seq<HardlinkInfo>)
    ensures
        forall|i: int| 0 <= i < records.len() && #[trigger] records[i].link_count > 1 ==> exists|j: int|
            0 <= j < groups_of(records).len() && #[trigger] groups_of(records)[j] == (
                records[i].inode_number,
                records[i].link_count,
            ),
        forall|j: int| 0 <= j < groups_of(records).len() ==> exists|i: int|
            0 <= i < records.len() && #[trigger] records[i].link_count > 1 && #[trigger] groups_of(records)[j] == (
                records[i].inode_number,
                records[i].link_count,
            ),
        groups_of(records).len() == group_count(records),
        group_count(records) <= records.len(),
    decreases records.len(),
{
    if records.len() > 0 {
        let init = records.drop_last();
        let n = records.len() - 1;
        lemma_groups_are_repeated_records(init);
        let g0 = groups_of(init);
        let g = groups_of(records);
        assert forall|i: int| 0 <= i < records.len() && #[trigger] records[i].link_count > 1 implies exists|j: int|
            0 <= j < g.len() && #[trigger] g[j] == (records[i].inode_number, records[i].link_count) by {
            if i < n {
                assert(init[i] == records[i]);
                assert(init[i].link_count > 1);
                let j = choose|j: int| 0 <= j < g0.len() && #[trigger] g0[j] == (init[i].inode_number, init[i].link_count);
                assert(g[j] == g0[j]);
            } else {
                assert(g[g0.len() as int] == (records[i].inode_number, records[i].link_count));
            }
        }
        assert forall|j: int| 0 <= j < g.len() implies exists|i: int|
            0 <= i < records.len() && #[trigger] records[i].link_count > 1 && #[trigger] g[j] == (
                records[i].inode_number,
                records[i].link_count,
            ) by {
            if j < g0.len() {
                assert(g[j] == g0[j]);
                let i = choose|i: int| 0 <= i < init.len() && #[trigger] init[i].link_count > 1 && #[trigger] g0[j] == (
                    init[i].inode_number,
                    init[i].link_count,
                );
                assert(init[i] == records[i]);
                assert(records[i].link_count > 1);
            } else {
                assert(records[n].link_count > 1);
            }
        }
    }
}

impl Default for FilesystemTracker {
    fn default() -> (t: Self)
        ensures
            t.spec_entries() == Map::<(u64, u64), HardlinkInfo>::empty(),
            t.spec_source_filesystem() is None,
    {
        Self::new()
    }
}

} // verus!
