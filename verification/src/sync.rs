//! The synchronization workflow: change detection between the tracked
//! manifest and a crawl of the live tree, and the ordered action plans for
//! creating, updating and deleting a save. The filesystem and the metadata
//! store are driven by the caller; every decision is made here.

use crate::archive::{Archive, ArchiveError};
use crate::change::{SaveUpdate, Type};
use crate::config::Config;
use crate::models::{EditFile, File, NewFile, NewSave, NewUser, Save, User};
use crate::paths::{
    backup_root_of, basename_of, lemma_backup_root_basename, mappable, maps_to, parent_of,
};
use crate::query::bytes_eq;
use vstd::prelude::*;

verus! {

/// Options for creating a save.
#[derive(Debug, Clone)]
pub struct SaveOptions {
    pub friendly_name: Option<String>,
}

/// One entry of a crawl of the live tree: a path and whether it is a
/// regular file (directories carry `false`).
#[derive(Debug, Clone)]
pub struct CrawlEntry {
    pub path: String,
    pub is_file: bool,
}

/// One entry of the live tree with its current content digest. The digest
/// is meaningful only for regular files.
#[derive(Debug, Clone)]
pub struct LiveEntry {
    pub path: String,
    pub is_file: bool,
    pub hash: Vec<u8>,
}

/// One step of a synchronization plan. The caller performs the filesystem
/// steps and the metadata-store steps in the order the plan lists them: that
/// order is what bounds the damage of a crash in the middle.
#[derive(Debug, Clone)]
pub enum SyncAction {
    CopyFile { source: String, dest: String },
    EnsureDir { dest: String },
    RecordSave { save: NewSave },
    RecordFile { path: String },
    UpdateFileRecord { path: String },
    DeleteFileRecord { id: i32 },
    DeleteFileRecordByPath { path: String },
    DeleteSaveRecord { id: i32 },
    RemoveBackupFile { dest: String },
    RemoveBackupDir { dest: String },
}

/// The action copies the live file at `p` to its mapped place under `b`.
pub open spec fn is_copy_to(a: SyncAction, p: Seq<char>, b: Seq<char>) -> bool {
    match a {
        SyncAction::CopyFile { source, dest } => source@ == p && maps_to(p, b, dest@),
        _ => false,
    }
}

/// The action ensures the mapped image of directory `p` exists under `b`.
pub open spec fn is_dir_to(a: SyncAction, p: Seq<char>, b: Seq<char>) -> bool {
    match a {
        SyncAction::EnsureDir { dest } => maps_to(p, b, dest@),
        _ => false,
    }
}

/// The action records the Save that the create operation promises: backup
/// path per the Save invariant, both timestamps at creation time, and the
/// friendly name defaulting to empty.
pub open spec fn records_new_save(
    a: SyncAction,
    save_path: Seq<char>,
    b: Seq<char>,
    uuid: Seq<char>,
    user_id: i32,
    friendly: Option<String>,
    time: i64,
) -> bool {
    match a {
        SyncAction::RecordSave { save } => {
            &&& save.save_path@ == save_path
            &&& save.backup_path@ == b
            &&& save.uuid@ == uuid
            &&& save.user_id == user_id
            &&& save.created_at == time
            &&& save.modified_at == time
            &&& match friendly {
                Option::Some(f) => save.friendly_name@ == f@,
                Option::None => save.friendly_name@ == Seq::<char>::empty(),
            }
        },
        _ => false,
    }
}

/// How many crawl entries are regular files.
pub open spec fn num_files(c: Seq<CrawlEntry>) -> int
    decreases c.len(),
{
    if c.len() == 0 {
        0
    } else {
        num_files(c.drop_last()) + if c.last().is_file {
            1int
        } else {
            0int
        }
    }
}

/// Some crawl entry is a regular file with this path.
pub open spec fn crawl_has_file(c: Seq<CrawlEntry>, p: Seq<char>) -> bool {
    exists|t: int| 0 <= t < c.len() && c[t].is_file && c[t].path@ == p
}

/// The action records a File for this path.
pub open spec fn action_record_file_at(a: SyncAction, p: Seq<char>) -> bool {
    match a {
        SyncAction::RecordFile { path } => path@ == p,
        _ => false,
    }
}

/// The action records a File for one of the crawl's regular files.
pub open spec fn is_record_file_of(a: SyncAction, c: Seq<CrawlEntry>) -> bool {
    match a {
        SyncAction::RecordFile { path } => crawl_has_file(c, path@),
        _ => false,
    }
}

/// The plan, at an index at or past `lo`, records a File for this path.
pub open spec fn plan_has_record_file(plan: Seq<SyncAction>, lo: int, p: Seq<char>) -> bool {
    exists|j: int| lo <= j < plan.len() && action_record_file_at(plan[j], p)
}

/// The two actions that apply one change record: a missing file's record and
/// backup copy are removed; a new file is copied and recorded; an updated
/// file is re-copied and its record's digest refreshed.
pub open spec fn update_actions_ok(
    a0: SyncAction,
    a1: SyncAction,
    u: SaveUpdate,
    b: Seq<char>,
) -> bool {
    match u.change {
        Type::Missing => match (a0, a1) {
            (
                SyncAction::DeleteFileRecordByPath { path },
                SyncAction::RemoveBackupFile { dest },
            ) => path@ == u.path@ && maps_to(u.path@, b, dest@),
            _ => false,
        },
        Type::New => match (a0, a1) {
            (SyncAction::CopyFile { source, dest }, SyncAction::RecordFile { path }) => source@
                == u.path@ && maps_to(u.path@, b, dest@) && path@ == u.path@,
            _ => false,
        },
        Type::Update => match (a0, a1) {
            (SyncAction::CopyFile { source, dest }, SyncAction::UpdateFileRecord { path }) => source@
                == u.path@ && maps_to(u.path@, b, dest@) && path@ == u.path@,
            _ => false,
        },
    }
}

/// The changelog line that the update operation writes for one change.
pub open spec fn changelog_line(u: SaveUpdate) -> Seq<char> {
    match u.change {
        Type::Missing => "\nMissing (NOW DELETING!!!): "@ + u.path@,
        Type::New => "\nNew: "@ + u.path@,
        Type::Update => "\nUpdated: "@ + u.path@,
    }
}

/// The whole changelog of an update: one line per change, in order.
pub open spec fn changelog_of(cs: Seq<SaveUpdate>) -> Seq<char>
    decreases cs.len(),
{
    if cs.len() == 0 {
        Seq::empty()
    } else {
        changelog_of(cs.drop_last()) + changelog_line(cs.last())
    }
}

/// How the local user is resolved at startup.
#[derive(Debug)]
pub enum UserResolution {
    Existing(User),
    AdoptSingle(User),
    CreateNew(NewUser),
}

/// Some tracked record carries this path.
pub open spec fn tracked_has(t: Seq<File>, p: Seq<char>) -> bool {
    exists|k: int| 0 <= k < t.len() && t[k].file_path@ == p
}

/// Some live entry carries this path.
pub open spec fn live_has(l: Seq<LiveEntry>, p: Seq<char>) -> bool {
    exists|k: int| 0 <= k < l.len() && l[k].path@ == p
}

/// Some live regular file carries this path.
pub open spec fn live_has_file(l: Seq<LiveEntry>, p: Seq<char>) -> bool {
    exists|k: int| 0 <= k < l.len() && l[k].is_file && l[k].path@ == p
}

/// The report contains a record of this kind for this path.
pub open spec fn has_record(r: Seq<SaveUpdate>, c: Type, p: Seq<char>) -> bool {
    exists|j: int| 0 <= j < r.len() && r[j].change == c && r[j].path@ == p
}

/// No two tracked records share a path.
pub open spec fn distinct_tracked_paths(t: Seq<File>) -> bool {
    forall|k1: int, k2: int| 0 <= k1 < k2 < t.len() ==> t[k1].file_path@ != t[k2].file_path@
}

/// No two live entries share a path.
pub open spec fn distinct_live_paths(l: Seq<LiveEntry>) -> bool {
    forall|k1: int, k2: int| 0 <= k1 < k2 < l.len() ==> l[k1].path@ != l[k2].path@
}

/// Tracked record `k` and live file `m` share a path but their digests
/// disagree: the file drifted since its last backup.
pub open spec fn updated_pair(t: Seq<File>, l: Seq<LiveEntry>, k: int, m: int) -> bool {
    &&& 0 <= k < t.len()
    &&& 0 <= m < l.len()
    &&& l[m].is_file
    &&& t[k].file_path@ == l[m].path@
    &&& t[k].file_hash@ != l[m].hash@
}

/// Some tracked record and live file share this path with disagreeing
/// digests: the path names a drifted file.
pub open spec fn some_updated_pair_at(t: Seq<File>, l: Seq<LiveEntry>, p: Seq<char>) -> bool {
    exists|k: int, m: int| updated_pair(t, l, k, m) && l[m].path@ == p
}

/// The list contains a string with these characters.
pub open spec fn strs_has(v: Seq<String>, p: Seq<char>) -> bool {
    exists|j: int| 0 <= j < v.len() && v[j]@ == p
}

/// Growing a list of paths keeps every path it already holds.
proof fn lemma_strs_preserved(v0: Seq<String>, v1: Seq<String>)
    requires
        v0.len() <= v1.len(),
        forall|j: int| 0 <= j < v0.len() ==> v1[j] == v0[j],
    ensures
        forall|p: Seq<char>| strs_has(v0, p) ==> strs_has(v1, p),
{
    assert forall|p: Seq<char>| strs_has(v0, p) implies strs_has(v1, p) by {
        let j = choose|j: int| 0 <= j < v0.len() && v0[j]@ == p;
        assert(v1[j]@ == p);
    }
}

/// Growing a plan keeps every file-record action it already holds.
proof fn lemma_plan_records_preserved(p0: Seq<SyncAction>, p1: Seq<SyncAction>, lo: int)
    requires
        lo >= 0,
        p0.len() <= p1.len(),
        forall|j: int| 0 <= j < p0.len() ==> p1[j] == p0[j],
    ensures
        forall|p: Seq<char>| plan_has_record_file(p0, lo, p) ==> plan_has_record_file(p1, lo, p),
{
    assert forall|p: Seq<char>| plan_has_record_file(p0, lo, p) implies plan_has_record_file(
        p1,
        lo,
        p,
    ) by {
        let j = choose|j: int| lo <= j < p0.len() && action_record_file_at(p0[j], p);
        assert(action_record_file_at(p1[j], p));
    }
}

/// Growing a report keeps every record it already holds.
proof fn lemma_records_preserved(r0: Seq<SaveUpdate>, r1: Seq<SaveUpdate>)
    requires
        r0.len() <= r1.len(),
        forall|j: int| 0 <= j < r0.len() ==> r1[j] == r0[j],
    ensures
        forall|c: Type, p: Seq<char>| has_record(r0, c, p) ==> has_record(r1, c, p),
{
    assert forall|c: Type, p: Seq<char>| has_record(r0, c, p) implies has_record(r1, c, p) by {
        let j = choose|j: int| 0 <= j < r0.len() && r0[j].change == c && r0[j].path@ == p;
        assert(r1[j].change == c && r1[j].path@ == p);
    }
}

/// Whether any live entry carries this path.
fn live_contains(live: &Vec<LiveEntry>, p: &String) -> (r: bool)
    ensures
        r == live_has(live@, p@),
{
    let n = live.len();
    let mut k: usize = 0;
    while k < n
        invariant
            k <= n,
            n == live@.len(),
            forall|m: int| 0 <= m < k ==> live@[m].path@ != p@,
        decreases n - k,
    {
        if live[k].path == *p {
            return true;
        }
        k += 1;
    }
    false
}

/// Finds the tracked record that carries this path.
fn find_tracked(manifest: &Vec<File>, p: &String) -> (r: Option<usize>)
    ensures
        r matches Some(k) ==> k < manifest@.len() && manifest@[k as int].file_path@ == p@,
        r is None ==> !tracked_has(manifest@, p@),
{
    let n = manifest.len();
    let mut k: usize = 0;
    while k < n
        invariant
            k <= n,
            n == manifest@.len(),
            forall|m: int| 0 <= m < k ==> manifest@[m].file_path@ != p@,
        decreases n - k,
    {
        if manifest[k].file_path == *p {
            return Some(k);
        }
        k += 1;
    }
    None
}

impl Archive {
    /// The change detector: compares the tracked manifest against a crawl of
    /// the live tree (each live file carrying its current digest) and
    /// classifies every drifted path exactly once — `Missing` for tracked
    /// paths absent from the crawl, `New` for untracked live files,
    /// `Update` for tracked live files whose digest disagrees. Unchanged
    /// files are not reported, and every `Missing` record precedes the rest.
    pub fn check_save(manifest: &Vec<File>, live: &Vec<LiveEntry>) -> (r: Vec<SaveUpdate>)
        requires
            distinct_tracked_paths(manifest@),
            distinct_live_paths(live@),
        ensures
            forall|k: int|
                0 <= k < manifest@.len() && !live_has(live@, manifest@[k].file_path@)
                    ==> has_record(r@, Type::Missing, manifest@[k].file_path@),
            forall|j: int|
                0 <= j < r@.len() && r@[j].change == Type::Missing ==> tracked_has(
                    manifest@,
                    r@[j].path@,
                ) && !live_has(live@, r@[j].path@),
            forall|m: int|
                0 <= m < live@.len() && live@[m].is_file && !tracked_has(manifest@, live@[m].path@)
                    ==> has_record(r@, Type::New, live@[m].path@),
            forall|j: int|
                0 <= j < r@.len() && r@[j].change == Type::New ==> live_has_file(live@, r@[j].path@)
                    && !tracked_has(manifest@, r@[j].path@),
            forall|k: int, m: int|
                updated_pair(manifest@, live@, k, m) ==> has_record(r@, Type::Update, live@[m].path@),
            forall|j: int|
                0 <= j < r@.len() && r@[j].change == Type::Update ==> exists|k: int, m: int|
                    updated_pair(manifest@, live@, k, m) && live@[m].path@ == r@[j].path@,
            forall|j1: int, j2: int| 0 <= j1 < j2 < r@.len() ==> r@[j1].path@ != r@[j2].path@,
            forall|j1: int, j2: int|
                0 <= j1 < j2 < r@.len() && r@[j2].change == Type::Missing ==> r@[j1].change
                    == Type::Missing,
    {
        let mut result: Vec<SaveUpdate> = Vec::new();
        let tn = manifest.len();
        let mut k: usize = 0;
        while k < tn
            invariant
                distinct_tracked_paths(manifest@),
                tn == manifest@.len(),
                k <= tn,
                forall|j: int| 0 <= j < result@.len() ==> result@[j].change == Type::Missing,
                forall|j: int|
                    0 <= j < result@.len() ==> tracked_has(manifest@, result@[j].path@) && !live_has(
                        live@,
                        result@[j].path@,
                    ),
                forall|k2: int|
                    0 <= k2 < k && !live_has(live@, manifest@[k2].file_path@) ==> has_record(
                        result@,
                        Type::Missing,
                        manifest@[k2].file_path@,
                    ),
                forall|j: int| #![trigger result@[j]]
                    0 <= j < result@.len() ==> exists|k2: int|
                        0 <= k2 < k && result@[j].path@ == manifest@[k2].file_path@,
                forall|j1: int, j2: int|
                    0 <= j1 < j2 < result@.len() ==> result@[j1].path@ != result@[j2].path@,
            decreases tn - k,
        {
            let absent = !live_contains(live, &manifest[k].file_path);
            if absent {
                let rec = SaveUpdate { change: Type::Missing, path: manifest[k].file_path.clone() };
                proof {
                    assert forall|j: int| 0 <= j < result@.len() implies result@[j].path@
                        != manifest@[k as int].file_path@ by {
                        let k2 = choose|k2: int|
                            0 <= k2 < k && result@[j].path@ == manifest@[k2].file_path@;
                        assert(manifest@[k2].file_path@ != manifest@[k as int].file_path@);
                    }
                }
                let ghost r0 = result@;
                result.push(rec);
                proof {
                    lemma_records_preserved(r0, result@);
                    assert(result@[r0.len() as int].change == Type::Missing);
                    assert(result@[r0.len() as int].path@ == manifest@[k as int].file_path@);
                }
            }
            k += 1;
        }
        let ghost n1 = result@.len();
        let ghost mut srcs: Seq<int> = Seq::empty();
        let ln = live.len();
        let mut m: usize = 0;
        while m < ln
            invariant
                distinct_tracked_paths(manifest@),
                distinct_live_paths(live@),
                ln == live@.len(),
                m <= ln,
                n1 <= result@.len(),
                forall|j: int| 0 <= j < n1 ==> result@[j].change == Type::Missing,
                forall|j: int| n1 <= j < result@.len() ==> result@[j].change != Type::Missing,
                forall|j: int|
                    0 <= j < result@.len() && result@[j].change == Type::Missing ==> tracked_has(
                        manifest@,
                        result@[j].path@,
                    ) && !live_has(live@, result@[j].path@),
                forall|k2: int|
                    0 <= k2 < manifest@.len() && !live_has(live@, manifest@[k2].file_path@)
                        ==> has_record(result@, Type::Missing, manifest@[k2].file_path@),
                forall|m2: int|
                    0 <= m2 < m && live@[m2].is_file && !tracked_has(manifest@, live@[m2].path@)
                        ==> has_record(result@, Type::New, live@[m2].path@),
                forall|j: int|
                    0 <= j < result@.len() && result@[j].change == Type::New ==> live_has_file(
                        live@,
                        result@[j].path@,
                    ) && !tracked_has(manifest@, result@[j].path@),
                forall|k2: int, m2: int|
                    updated_pair(manifest@, live@, k2, m2) && m2 < m ==> has_record(
                        result@,
                        Type::Update,
                        live@[m2].path@,
                    ),
                forall|j: int|
                    0 <= j < result@.len() && result@[j].change == Type::Update ==> exists|
                        k2: int,
                        m2: int,
                    |
                        updated_pair(manifest@, live@, k2, m2) && live@[m2].path@ == result@[j].path@,
                n1 + srcs.len() == result@.len(),
                forall|j: int| #![trigger srcs[j]]
                    0 <= j < srcs.len() ==> 0 <= srcs[j] < m && result@[n1 + j].path@
                        == live@[srcs[j]].path@ && live@[srcs[j]].is_file,
                forall|j1: int, j2: int|
                    0 <= j1 < j2 < result@.len() ==> result@[j1].path@ != result@[j2].path@,
            decreases ln - m,
        {
            if live[m].is_file {
                proof {
                    assert forall|j: int| 0 <= j < result@.len() implies result@[j].path@
                        != live@[m as int].path@ by {
                        if j < n1 {
                            assert(!live_has(live@, result@[j].path@));
                        } else {
                            let jj = j - n1;
                            assert(0 <= srcs[jj] < m && result@[j].path@ == live@[srcs[jj]].path@);
                            assert(live@[srcs[jj]].path@ != live@[m as int].path@);
                        }
                    }
                }
                match find_tracked(manifest, &live[m].path) {
                    None => {
                        let rec = SaveUpdate { change: Type::New, path: live[m].path.clone() };
                        let ghost r0 = result@;
                        result.push(rec);
                        proof {
                            lemma_records_preserved(r0, result@);
                            srcs = srcs.push(m as int);
                            assert(result@[r0.len() as int].change == Type::New);
                            assert(result@[r0.len() as int].path@ == live@[m as int].path@);
                            assert(live@[m as int].is_file);
                            assert(srcs[srcs.len() - 1] == m as int);
                        }
                    },
                    Some(ki) => {
                        let differs = !bytes_eq(
                            manifest[ki].file_hash.as_slice(),
                            live[m].hash.as_slice(),
                        );
                        if differs {
                            let rec = SaveUpdate {
                                change: Type::Update,
                                path: live[m].path.clone(),
                            };
                            proof {
                                assert(updated_pair(manifest@, live@, ki as int, m as int));
                            }
                            let ghost r0 = result@;
                            result.push(rec);
                            proof {
                                lemma_records_preserved(r0, result@);
                                srcs = srcs.push(m as int);
                                assert(result@[r0.len() as int].change == Type::Update);
                                assert(result@[r0.len() as int].path@ == live@[m as int].path@);
                                assert(live@[m as int].is_file);
                                assert(srcs[srcs.len() - 1] == m as int);
                            }
                        } else {
                            proof {
                                assert forall|k2: int, m2: int|
                                    updated_pair(manifest@, live@, k2, m2) && m2 < m + 1 implies
                                    has_record(result@, Type::Update, live@[m2].path@) by {
                                    if m2 == m {
                                        assert(manifest@[k2].file_path@ == live@[m as int].path@);
                                        assert(manifest@[ki as int].file_path@
                                            == live@[m as int].path@);
                                        if k2 != ki {
                                            if k2 < ki {
                                                assert(manifest@[k2].file_path@
                                                    != manifest@[ki as int].file_path@);
                                            } else {
                                                assert(manifest@[ki as int].file_path@
                                                    != manifest@[k2].file_path@);
                                            }
                                        }
                                        assert(manifest@[k2].file_hash@ == live@[m as int].hash@);
                                    }
                                }
                            }
                        }
                    },
                }
            }
            m += 1;
        }
        result
    }

    /// The earlier form of the change detector: reports the untracked live
    /// files and the tracked live files whose digest drifted, as two lists
    /// of paths, without looking for missing ones.
    pub fn old_check_save(manifest: &Vec<File>, live: &Vec<LiveEntry>) -> (r: (
        Vec<String>,
        Vec<String>,
    ))
        requires
            distinct_tracked_paths(manifest@),
            distinct_live_paths(live@),
        ensures
            forall|m: int|
                0 <= m < live@.len() && live@[m].is_file && !tracked_has(manifest@, live@[m].path@)
                    ==> strs_has(r.0@, live@[m].path@),
            forall|j: int|
                0 <= j < r.0@.len() ==> live_has_file(live@, r.0@[j]@) && !tracked_has(
                    manifest@,
                    r.0@[j]@,
                ),
            forall|k: int, m: int|
                updated_pair(manifest@, live@, k, m) ==> strs_has(r.1@, live@[m].path@),
            forall|j: int| #![trigger r.1@[j]]
                0 <= j < r.1@.len() ==> some_updated_pair_at(manifest@, live@, r.1@[j]@),
            forall|j1: int, j2: int| 0 <= j1 < j2 < r.0@.len() ==> r.0@[j1]@ != r.0@[j2]@,
            forall|j1: int, j2: int| 0 <= j1 < j2 < r.1@.len() ==> r.1@[j1]@ != r.1@[j2]@,
    {
        let recs = Self::check_save(manifest, live);
        let mut new_files: Vec<String> = Vec::new();
        let mut changed_files: Vec<String> = Vec::new();
        let ghost mut ns: Seq<int> = Seq::empty();
        let ghost mut cs: Seq<int> = Seq::empty();
        let n = recs.len();
        let mut i: usize = 0;
        while i < n
            invariant
                n == recs@.len(),
                i <= n,
                forall|j: int|
                    0 <= j < n && recs@[j].change == Type::New ==> live_has_file(
                        live@,
                        recs@[j].path@,
                    ) && !tracked_has(manifest@, recs@[j].path@),
                forall|j: int|
                    0 <= j < n && recs@[j].change == Type::Update ==> exists|k2: int, m2: int|
                        updated_pair(manifest@, live@, k2, m2) && live@[m2].path@ == recs@[j].path@,
                forall|j1: int, j2: int| 0 <= j1 < j2 < n ==> recs@[j1].path@ != recs@[j2].path@,
                forall|j: int|
                    0 <= j < i && recs@[j].change == Type::New ==> strs_has(
                        new_files@,
                        recs@[j].path@,
                    ),
                forall|j: int|
                    0 <= j < i && recs@[j].change == Type::Update ==> strs_has(
                        changed_files@,
                        recs@[j].path@,
                    ),
                ns.len() == new_files@.len(),
                forall|jj: int| #![trigger ns[jj]]
                    0 <= jj < ns.len() ==> 0 <= ns[jj] < i && recs@[ns[jj]].change == Type::New
                        && new_files@[jj]@ == recs@[ns[jj]].path@,
                cs.len() == changed_files@.len(),
                forall|jj: int| #![trigger cs[jj]]
                    0 <= jj < cs.len() ==> 0 <= cs[jj] < i && recs@[cs[jj]].change == Type::Update
                        && changed_files@[jj]@ == recs@[cs[jj]].path@,
                forall|j1: int, j2: int|
                    0 <= j1 < j2 < new_files@.len() ==> new_files@[j1]@ != new_files@[j2]@,
                forall|j1: int, j2: int|
                    0 <= j1 < j2 < changed_files@.len() ==> changed_files@[j1]@
                        != changed_files@[j2]@,
            decreases n - i,
        {
            let is_new = matches!(recs[i].change, Type::New);
            let is_update = matches!(recs[i].change, Type::Update);
            if is_new {
                proof {
                    assert forall|jj: int| 0 <= jj < new_files@.len() implies new_files@[jj]@
                        != recs@[i as int].path@ by {
                        assert(recs@[ns[jj]].path@ != recs@[i as int].path@);
                    }
                }
                let ghost v0 = new_files@;
                new_files.push(recs[i].path.clone());
                proof {
                    lemma_strs_preserved(v0, new_files@);
                    ns = ns.push(i as int);
                    assert(new_files@[v0.len() as int]@ == recs@[i as int].path@);
                    assert(ns[ns.len() - 1] == i as int);
                }
            } else if is_update {
                proof {
                    assert forall|jj: int| 0 <= jj < changed_files@.len() implies
                        changed_files@[jj]@ != recs@[i as int].path@ by {
                        assert(recs@[cs[jj]].path@ != recs@[i as int].path@);
                    }
                }
                let ghost v0 = changed_files@;
                changed_files.push(recs[i].path.clone());
                proof {
                    lemma_strs_preserved(v0, changed_files@);
                    cs = cs.push(i as int);
                    assert(changed_files@[v0.len() as int]@ == recs@[i as int].path@);
                    assert(cs[cs.len() - 1] == i as int);
                }
            }
            i += 1;
        }
        proof {
            assert forall|m: int|
                0 <= m < live@.len() && live@[m].is_file && !tracked_has(manifest@, live@[m].path@)
                    implies strs_has(new_files@, live@[m].path@) by {
                let j = choose|j: int|
                    0 <= j < recs@.len() && recs@[j].change == Type::New && recs@[j].path@
                        == live@[m].path@;
                assert(strs_has(new_files@, recs@[j].path@));
            }
            assert forall|k: int, m: int|
                updated_pair(manifest@, live@, k, m) implies strs_has(
                changed_files@,
                live@[m].path@,
            ) by {
                let j = choose|j: int|
                    0 <= j < recs@.len() && recs@[j].change == Type::Update && recs@[j].path@
                        == live@[m].path@;
                assert(strs_has(changed_files@, recs@[j].path@));
            }
            assert forall|j: int| 0 <= j < new_files@.len() implies live_has_file(
                live@,
                new_files@[j]@,
            ) && !tracked_has(manifest@, new_files@[j]@) by {
                assert(recs@[ns[j]].change == Type::New);
            }
            assert forall|j: int| #![trigger changed_files@[j]]
                0 <= j < changed_files@.len() implies some_updated_pair_at(
                manifest@,
                live@,
                changed_files@[j]@,
            ) by {
                assert(recs@[cs[j]].change == Type::Update);
                let (k2, m2) = choose|k2: int, m2: int|
                    updated_pair(manifest@, live@, k2, m2) && live@[m2].path@
                        == recs@[cs[j]].path@;
                assert(updated_pair(manifest@, live@, k2, m2) && live@[m2].path@
                    == changed_files@[j]@);
            }
        }
        (new_files, changed_files)
    }

    /// Plans the creation of a save: every crawled entry is copied into the
    /// backup location first, the Save record is written only after all of
    /// them, and a File record follows for every regular file. `root_exists`
    /// reports whether the save path is present on disk; the crawl is the
    /// live enumeration of that root.
    pub fn create_save(
        root_exists: bool,
        save_path: &str,
        user: &User,
        opt: &SaveOptions,
        uuid: &str,
        config: &Config,
        time: i64,
        crawl: &Vec<CrawlEntry>,
    ) -> (r: Result<Vec<SyncAction>, ArchiveError>)
        ensures
            !root_exists ==> (r matches Err(e) && e matches ArchiveError::InvalidPath(m) && m@
                == save_path@),
            root_exists && basename_of(save_path@).len() == 0 ==> (r matches Err(e) && e matches
                ArchiveError::UnknownFileName(m) && m@ == save_path@),
            r is Ok <==> root_exists && basename_of(save_path@).len() > 0 && (forall|t: int|
                0 <= t < crawl@.len() ==> mappable(
                    crawl@[t].path@,
                    backup_root_of(config.data_location@, uuid@, save_path@),
                )),
            root_exists && basename_of(save_path@).len() > 0 && !(forall|t: int|
                0 <= t < crawl@.len() ==> mappable(
                    crawl@[t].path@,
                    backup_root_of(config.data_location@, uuid@, save_path@),
                )) ==> (r matches Err(e) && e matches ArchiveError::InvalidPath(m) && exists|t: int|
                0 <= t < crawl@.len() && crawl@[t].path@ == m@ && !mappable(
                    crawl@[t].path@,
                    backup_root_of(config.data_location@, uuid@, save_path@),
                )),
            r matches Ok(plan) ==> ({
                let b = backup_root_of(config.data_location@, uuid@, save_path@);
                let n = crawl@.len() as int;
                &&& plan@.len() == n + 1 + num_files(crawl@)
                &&& forall|t: int|
                    0 <= t < n && crawl@[t].is_file ==> is_copy_to(
                        #[trigger] plan@[t],
                        crawl@[t].path@,
                        b,
                    )
                &&& forall|t: int|
                    0 <= t < n && !crawl@[t].is_file ==> is_dir_to(
                        #[trigger] plan@[t],
                        crawl@[t].path@,
                        b,
                    )
                &&& records_new_save(
                    plan@[n],
                    save_path@,
                    b,
                    uuid@,
                    user.id,
                    opt.friendly_name,
                    time,
                )
                &&& forall|j: int| n < j < plan@.len() ==> is_record_file_of(#[trigger] plan@[j], crawl@)
                &&& forall|t: int|
                    0 <= t < n && crawl@[t].is_file ==> plan_has_record_file(
                        plan@,
                        n + 1,
                        crawl@[t].path@,
                    )
            }),
    {
        if !root_exists {
            return Err(ArchiveError::InvalidPath(save_path.to_owned()));
        }
        let backup_path = match Self::create_backup_path(save_path, uuid, config.data_location.as_str()) {
            Err(e) => { return Err(e) },
            Ok(b) => b,
        };
        proof {
            lemma_backup_root_basename(config.data_location@, uuid@, save_path@);
        }
        let n = crawl.len();
        let mut plan: Vec<SyncAction> = Vec::new();
        let mut i: usize = 0;
        while i < n
            invariant
                root_exists,
                basename_of(save_path@).len() > 0,
                n == crawl@.len(),
                i <= n,
                plan@.len() == i,
                backup_path@ == backup_root_of(config.data_location@, uuid@, save_path@),
                basename_of(backup_path@).len() > 0,
                forall|t: int|
                    0 <= t < i && crawl@[t].is_file ==> is_copy_to(
                        #[trigger] plan@[t],
                        crawl@[t].path@,
                        backup_path@,
                    ),
                forall|t: int|
                    0 <= t < i && !crawl@[t].is_file ==> is_dir_to(
                        #[trigger] plan@[t],
                        crawl@[t].path@,
                        backup_path@,
                    ),
                forall|t: int| 0 <= t < i ==> mappable(crawl@[t].path@, backup_path@),
            decreases n - i,
        {
            let dest = match Self::get_backup_path(crawl[i].path.as_str(), backup_path.as_str()) {
                Err(e) => {
                    proof {
                        assert(!mappable(crawl@[i as int].path@, backup_path@));
                    }
                    return Err(e);
                },
                Ok(d) => d,
            };
            if crawl[i].is_file {
                plan.push(SyncAction::CopyFile { source: crawl[i].path.clone(), dest });
            } else {
                plan.push(SyncAction::EnsureDir { dest });
            }
            i += 1;
        }
        let friendly_name = match &opt.friendly_name {
            Some(f) => f.clone(),
            None => String::new(),
        };
        let save = NewSave {
            friendly_name,
            save_path: save_path.to_owned(),
            backup_path: backup_path.clone(),
            uuid: uuid.to_owned(),
            user_id: user.id,
            created_at: time,
            modified_at: time,
        };
        plan.push(SyncAction::RecordSave { save });
        let ghost base = plan@.len() as int;
        let mut t: usize = 0;
        while t < n
            invariant
                n == crawl@.len(),
                t <= n,
                base == n + 1,
                base <= plan@.len(),
                backup_path@ == backup_root_of(config.data_location@, uuid@, save_path@),
                forall|t2: int|
                    0 <= t2 < n && crawl@[t2].is_file ==> is_copy_to(
                        #[trigger] plan@[t2],
                        crawl@[t2].path@,
                        backup_path@,
                    ),
                forall|t2: int|
                    0 <= t2 < n && !crawl@[t2].is_file ==> is_dir_to(
                        #[trigger] plan@[t2],
                        crawl@[t2].path@,
                        backup_path@,
                    ),
                records_new_save(
                    plan@[n as int],
                    save_path@,
                    backup_path@,
                    uuid@,
                    user.id,
                    opt.friendly_name,
                    time,
                ),
                plan@.len() == base + num_files(crawl@.subrange(0, t as int)),
                forall|j: int| base <= j < plan@.len() ==> is_record_file_of(#[trigger] plan@[j], crawl@),
                forall|t2: int|
                    0 <= t2 < t && crawl@[t2].is_file ==> plan_has_record_file(
                        plan@,
                        base,
                        crawl@[t2].path@,
                    ),
            decreases n - t,
        {
            if crawl[t].is_file {
                let ghost p0 = plan@;
                plan.push(SyncAction::RecordFile { path: crawl[t].path.clone() });
                proof {
                    lemma_plan_records_preserved(p0, plan@, base);
                    assert(action_record_file_at(
                        plan@[p0.len() as int],
                        crawl@[t as int].path@,
                    ));
                    assert(crawl_has_file(crawl@, crawl@[t as int].path@));
                }
            }
            proof {
                assert(crawl@.subrange(0, t + 1).drop_last() =~= crawl@.subrange(0, t as int));
                assert(crawl@.subrange(0, t + 1).last() == crawl@[t as int]);
            }
            t += 1;
        }
        proof {
            assert(crawl@.subrange(0, n as int) =~= crawl@);
        }
        Ok(plan)
    }

    /// Plans the application of a change report against a save: per change,
    /// the pair of actions that removes, copies or refreshes, in the order
    /// listed, and the human-readable changelog; `None` when there is
    /// nothing to do. Fails when a changed path cannot be mapped into the
    /// save's backup tree.
    pub fn update_save(save: &Save, changes: &Vec<SaveUpdate>) -> (r: Result<
        (Vec<SyncAction>, Option<String>),
        ArchiveError,
    >)
        ensures
            r is Ok <==> (forall|i: int|
                0 <= i < changes@.len() ==> mappable(changes@[i].path@, save.backup_path@)),
            r matches Err(e) ==> (basename_of(save.backup_path@).len() == 0 ==> (e matches
                ArchiveError::UnknownFileName(m) && m@ == save.backup_path@)),
            r matches Err(e) ==> (basename_of(save.backup_path@).len() > 0 ==> (e matches
                ArchiveError::InvalidPath(m) && exists|i: int|
                0 <= i < changes@.len() && changes@[i].path@ == m@ && !mappable(
                    changes@[i].path@,
                    save.backup_path@,
                ))),
            changes@.len() == 0 ==> (r matches Ok(pair) && pair.0@.len() == 0 && pair.1 is None),
            changes@.len() > 0 ==> (r matches Ok(pair) ==> {
                &&& pair.0@.len() == 2 * changes@.len()
                &&& forall|i: int|
                    0 <= i < changes@.len() ==> update_actions_ok(
                        #[trigger] pair.0@[2 * i],
                        pair.0@[2 * i + 1],
                        changes@[i],
                        save.backup_path@,
                    )
                &&& (pair.1 matches Some(log) && log@ == changelog_of(changes@))
            }),
    {
        let n = changes.len();
        if n == 0 {
            return Ok((Vec::new(), None));
        }
        let mut plan: Vec<SyncAction> = Vec::new();
        let mut log = String::new();
        let mut i: usize = 0;
        while i < n
            invariant
                n == changes@.len(),
                i <= n,
                plan@.len() == 2 * i,
                log@ == changelog_of(changes@.subrange(0, i as int)),
                forall|i2: int|
                    0 <= i2 < i ==> update_actions_ok(
                        #[trigger] plan@[2 * i2],
                        plan@[2 * i2 + 1],
                        changes@[i2],
                        save.backup_path@,
                    ),
                forall|i2: int| 0 <= i2 < i ==> mappable(changes@[i2].path@, save.backup_path@),
            decreases n - i,
        {
            let dest = match Self::get_backup_path(
                changes[i].path.as_str(),
                save.backup_path.as_str(),
            ) {
                Err(e) => {
                    proof {
                        assert(!mappable(changes@[i as int].path@, save.backup_path@));
                    }
                    return Err(e);
                },
                Ok(d) => d,
            };
            match changes[i].change {
                Type::Missing => {
                    log.append("\nMissing (NOW DELETING!!!): ");
                    log.append(changes[i].path.as_str());
                    plan.push(SyncAction::DeleteFileRecordByPath {
                        path: changes[i].path.clone(),
                    });
                    plan.push(SyncAction::RemoveBackupFile { dest });
                },
                Type::New => {
                    log.append("\nNew: ");
                    log.append(changes[i].path.as_str());
                    plan.push(SyncAction::CopyFile { source: changes[i].path.clone(), dest });
                    plan.push(SyncAction::RecordFile { path: changes[i].path.clone() });
                },
                Type::Update => {
                    log.append("\nUpdated: ");
                    log.append(changes[i].path.as_str());
                    plan.push(SyncAction::CopyFile { source: changes[i].path.clone(), dest });
                    plan.push(SyncAction::UpdateFileRecord { path: changes[i].path.clone() });
                },
            }
            proof {
                assert(changes@.subrange(0, i + 1).drop_last() =~= changes@.subrange(0, i as int));
                assert(changes@.subrange(0, i + 1).last() == changes@[i as int]);
                assert(log@ =~= changelog_of(changes@.subrange(0, i + 1)));
            }
            i += 1;
        }
        proof {
            assert(changes@.subrange(0, n as int) =~= changes@);
        }
        Ok((plan, Some(log)))
    }

    /// Plans the deletion of a save: every File record first, then the Save
    /// record, and only after both the removal of the backup directory (the
    /// uuid directory above the backup path) from disk. Fails when the
    /// backup path has no parent.
    pub fn delete_save(save: &Save, files: &Vec<File>) -> (r: Result<Vec<SyncAction>, ArchiveError>)
        ensures
            r is Ok <==> parent_of(save.backup_path@) is Some,
            r matches Err(e) ==> e matches ArchiveError::UnknownFileName(m) && m@
                == save.backup_path@,
            r matches Ok(plan) ==> {
                &&& plan@.len() == files@.len() + 2
                &&& forall|i: int|
                    0 <= i < files@.len() ==> (#[trigger] plan@[i] matches
                        SyncAction::DeleteFileRecord { id } && id == files@[i].id)
                &&& (plan@[files@.len() as int] matches SyncAction::DeleteSaveRecord { id } && id
                    == save.id)
                &&& (plan@[files@.len() as int + 1] matches SyncAction::RemoveBackupDir { dest }
                    && parent_of(save.backup_path@) == Some(dest@))
            },
    {
        let parent = match crate::paths::parent(save.backup_path.as_str()) {
            None => { return Err(ArchiveError::UnknownFileName(save.backup_path.clone())) },
            Some(p) => p,
        };
        let n = files.len();
        let mut plan: Vec<SyncAction> = Vec::new();
        let mut i: usize = 0;
        while i < n
            invariant
                n == files@.len(),
                i <= n,
                plan@.len() == i,
                forall|i2: int|
                    0 <= i2 < i ==> (#[trigger] plan@[i2] matches SyncAction::DeleteFileRecord {
                        id,
                    } && id == files@[i2].id),
            decreases n - i,
        {
            plan.push(SyncAction::DeleteFileRecord { id: files[i].id });
            i += 1;
        }
        plan.push(SyncAction::DeleteSaveRecord { id: save.id });
        plan.push(SyncAction::RemoveBackupDir { dest: parent });
        Ok(plan)
    }

    /// The File record that first backing up `path` writes: the path, the
    /// digest of the copied content, the owning save, and both timestamps at
    /// the time of the backup.
    pub fn create_file(save: &Save, path: &str, digest: &[u8], time: i64) -> (r: NewFile)
        ensures
            r.file_path@ == path@,
            r.file_hash@ == digest@,
            r.save_id == save.id,
            r.created_at == time,
            r.modified_at == time,
    {
        NewFile {
            file_path: path.to_owned(),
            file_hash: vstd::slice::slice_to_vec(digest),
            save_id: save.id,
            created_at: time,
            modified_at: time,
        }
    }

    /// The edit that re-backing up `path` writes to its existing File
    /// record: the fresh digest and the modification time. Fails when the
    /// store had no record for the path.
    pub fn update_file(original: Option<File>, path: &str, digest: &[u8], time: i64) -> (r: Result<
        EditFile,
        ArchiveError,
    >)
        ensures
            original matches Some(f) ==> (r matches Ok(e) && e.id == f.id && e.file_hash@
                == digest@ && e.modified_at == time),
            original is None ==> (r matches Err(e) && e matches ArchiveError::NotFound(m) && m@
                == path@),
    {
        match original {
            None => Err(ArchiveError::NotFound(path.to_owned())),
            Some(f) => Ok(
                EditFile {
                    id: f.id,
                    file_hash: vstd::slice::slice_to_vec(digest),
                    modified_at: time,
                },
            ),
        }
    }
}

/// Decides how the local user is resolved at startup from what the store
/// returned: the user found by username is kept; with no users at all a new
/// one is created with both timestamps at `time`; with exactly one existing
/// user that user is adopted as the new local default; with several existing
/// users and none matching, the situation is ambiguous and must be resolved
/// by hand, not guessed.
pub fn get_local_user(
    lookup: Option<User>,
    all_users: Option<Vec<User>>,
    username: &str,
    time: i64,
) -> (r: Result<UserResolution, ArchiveError>)
    ensures
        lookup matches Some(u) ==> (r matches Ok(res) && res matches UserResolution::Existing(e)
            && e == u),
        lookup is None && all_users is None ==> (r matches Ok(res) && res matches
            UserResolution::CreateNew(nu) && nu.username@ == username@ && nu.created_at == time
            && nu.modified_at == time),
        lookup is None ==> (all_users matches Some(v) ==> (v@.len() == 1 ==> (r matches Ok(res)
            && res matches UserResolution::AdoptSingle(a) && a == v@[0]))),
        lookup is None ==> (all_users matches Some(v) ==> (v@.len() != 1 ==> (r matches Err(e)
            && e matches ArchiveError::AmbiguousUser))),
{
    match lookup {
        Some(u) => Ok(UserResolution::Existing(u)),
        None => match all_users {
            None => Ok(
                UserResolution::CreateNew(
                    NewUser { username: username.to_owned(), created_at: time, modified_at: time },
                ),
            ),
            Some(mut v) => {
                if v.len() == 1 {
                    let u = v.remove(0);
                    Ok(UserResolution::AdoptSingle(u))
                } else {
                    Err(ArchiveError::AmbiguousUser)
                }
            },
        },
    }
}

} // verus!
