//! Files that live beside the database file in its directory, and the plan
//! that quarantines a database whose sync state conflicts with the remote.
//!
//! Names here are entry names inside the database's directory; the embedding
//! application joins them onto the directory path.

use vstd::prelude::*;
use crate::text::{chars_of, concat};

verus! {

/// Name of the sync sidecar file.
pub open spec fn config_file_name() -> Seq<char> {
    "sync_config.json"@
}

/// Index of the last `.` among the first `i` characters of `n`, or -1.
pub open spec fn last_dot_before(n: Seq<char>, i: int) -> int
    decreases i,
{
    if i <= 0 {
        -1
    } else if n[i - 1] == '.' {
        i - 1
    } else {
        last_dot_before(n, i - 1)
    }
}

/// The file stem: the name without its extension. A leading dot does not
/// start an extension (`.hidden` is its own stem).
pub open spec fn file_stem(n: Seq<char>) -> Seq<char> {
    let k = last_dot_before(n, n.len() as int);
    if k > 0 {
        n.take(k)
    } else {
        n
    }
}

/// The quarantined copy of the database: its stem with `.db.legacy`.
pub open spec fn legacy_name(n: Seq<char>) -> Seq<char> {
    file_stem(n) + ".db.legacy"@
}

/// The engine's write-ahead log beside the database.
pub open spec fn wal_name(n: Seq<char>) -> Seq<char> {
    file_stem(n) + ".db-wal"@
}

/// The engine's shared-memory file beside the database.
pub open spec fn shm_name(n: Seq<char>) -> Seq<char> {
    file_stem(n) + ".db-shm"@
}

/// The sync engine's metadata directory: the file name with `-sync`.
pub open spec fn sync_dir_name(n: Seq<char>) -> Seq<char> {
    n + "-sync"@
}

/// The location of the database: its file name inside the data directory.
pub struct DbFiles {
    pub file_name: String,
}

/// One file-system step of the quarantine, on an entry of the data directory.
pub enum FileOp {
    /// Remove the file if it is there.
    Remove(String),
    /// Rename `from` to `to`; where the rename fails, remove `from` instead.
    RenameOrRemove { from: String, to: String },
    /// Remove the entry if it is there, a whole directory included.
    RemoveTree(String),
}

/// A step of the quarantine, over character sequences.
pub enum FileOpModel {
    Remove(Seq<char>),
    RenameOrRemove { from: Seq<char>, to: Seq<char> },
    RemoveTree(Seq<char>),
}

impl View for FileOp {
    type V = FileOpModel;

    open spec fn view(&self) -> FileOpModel {
        match self {
            FileOp::Remove(n) => FileOpModel::Remove(n@),
            FileOp::RenameOrRemove { from, to } => FileOpModel::RenameOrRemove {
                from: from@,
                to: to@,
            },
            FileOp::RemoveTree(n) => FileOpModel::RemoveTree(n@),
        }
    }
}

/// The entries of the directory after one step; `renamed` says whether a
/// rename, where one is tried, succeeds.
pub open spec fn apply_op(entries: Set<Seq<char>>, op: FileOpModel, renamed: bool) -> Set<
    Seq<char>,
> {
    match op {
        FileOpModel::Remove(n) => entries.remove(n),
        FileOpModel::RemoveTree(n) => entries.remove(n),
        FileOpModel::RenameOrRemove { from, to } => {
            if !entries.contains(from) {
                entries
            } else if renamed {
                entries.remove(from).insert(to)
            } else {
                entries.remove(from)
            }
        },
    }
}

/// The entries of the directory after the steps, in order.
pub open spec fn apply_ops(entries: Set<Seq<char>>, ops: Seq<FileOpModel>, renamed: bool) -> Set<
    Seq<char>,
>
    decreases ops.len(),
{
    if ops.len() == 0 {
        entries
    } else {
        apply_ops(apply_op(entries, ops[0], renamed), ops.skip(1), renamed)
    }
}

/// The quarantine of database `n`: drop an older backup, move the database
/// aside (or delete it), then wipe the log, shared-memory and sync metadata.
pub open spec fn quarantine_ops(n: Seq<char>) -> Seq<FileOpModel> {
    seq![
        FileOpModel::Remove(legacy_name(n)),
        FileOpModel::RenameOrRemove { from: n, to: legacy_name(n) },
        FileOpModel::Remove(wal_name(n)),
        FileOpModel::Remove(shm_name(n)),
        FileOpModel::RemoveTree(sync_dir_name(n)),
    ]
}

proof fn lemma_last_dot_before(n: Seq<char>, i: int)
    requires
        0 <= i <= n.len(),
    ensures
        -1 <= last_dot_before(n, i) < i,
        last_dot_before(n, i) >= 0 ==> n[last_dot_before(n, i)] == '.',
        forall|j: int| last_dot_before(n, i) < j < i ==> n[j] != '.',
    decreases i,
{
    if i > 0 && n[i - 1] != '.' {
        lemma_last_dot_before(n, i - 1);
    }
}

/// The stem is a prefix of the name; past it comes either nothing, or a dot
/// followed by an extension without dots.
proof fn lemma_stem_shape(n: Seq<char>)
    ensures
        n.take(file_stem(n).len() as int) == file_stem(n),
        file_stem(n).len() == n.len() || (file_stem(n).len() > 0 && file_stem(n).len() < n.len()
            && n[file_stem(n).len() as int] == '.'),
        forall|j: int| file_stem(n).len() < j < n.len() ==> n[j] != '.',
{
    lemma_last_dot_before(n, n.len() as int);
    assert(n.take(n.len() as int) =~= n);
}

/// The backup name differs from the database, log, shared-memory and sync
/// metadata names.
proof fn lemma_names_distinct(n: Seq<char>)
    ensures
        legacy_name(n) != n,
        legacy_name(n) != wal_name(n),
        legacy_name(n) != shm_name(n),
        legacy_name(n) != sync_dir_name(n),
{
    reveal_strlit(".db.legacy");
    reveal_strlit(".db-wal");
    reveal_strlit(".db-shm");
    reveal_strlit("-sync");
    lemma_stem_shape(n);
    let s = file_stem(n);
    let k = s.len() as int;
    let l = legacy_name(n);
    assert(l[k + 3] == '.');
    assert(wal_name(n)[k + 3] == '-');
    assert(shm_name(n)[k + 3] == '-');
    if l == n {
        assert(n.len() == k + 10);
        assert(n[k + 3] == '.');
    }
    if l == sync_dir_name(n) {
        assert(n.len() == k + 5);
        assert(n[k + 3] == l[k + 3]);
    }
}

/// Quarantine leaves no database, log, shared-memory or sync metadata entry;
/// it leaves exactly one backup when the database was there and the rename
/// succeeded (and none otherwise); every other entry is untouched.
pub proof fn lemma_quarantine_effect(entries: Set<Seq<char>>, n: Seq<char>, renamed: bool)
    ensures
        ({
            let after = apply_ops(entries, quarantine_ops(n), renamed);
            &&& !after.contains(n)
            &&& !after.contains(wal_name(n))
            &&& !after.contains(shm_name(n))
            &&& !after.contains(sync_dir_name(n))
            &&& after.contains(legacy_name(n)) <==> (entries.contains(n) && renamed)
            &&& forall|e: Seq<char>|
                e != n && e != legacy_name(n) && e != wal_name(n) && e != shm_name(n) && e
                    != sync_dir_name(n) ==> (after.contains(e) <==> entries.contains(e))
        }),
{
    lemma_names_distinct(n);
    let ops = quarantine_ops(n);
    let s1 = apply_op(entries, ops[0], renamed);
    let s2 = apply_op(s1, ops[1], renamed);
    let s3 = apply_op(s2, ops[2], renamed);
    let s4 = apply_op(s3, ops[3], renamed);
    let s5 = apply_op(s4, ops[4], renamed);
    let t1 = ops.skip(1);
    let t2 = t1.skip(1);
    let t3 = t2.skip(1);
    let t4 = t3.skip(1);
    let t5 = t4.skip(1);
    assert(t1[0] == ops[1] && t2[0] == ops[2] && t3[0] == ops[3] && t4[0] == ops[4]);
    assert(t5.len() == 0);
    assert(apply_ops(s5, t5, renamed) == s5);
    assert(apply_ops(s4, t4, renamed) == s5);
    assert(apply_ops(s3, t3, renamed) == s5);
    assert(apply_ops(s2, t2, renamed) == s5);
    assert(apply_ops(s1, t1, renamed) == s5);
}

/// The stem of `v`, as the count of its leading characters.
fn stem_len(v: &Vec<char>) -> (r: usize)
    ensures
        r == file_stem(v@).len(),
{
    let mut i = v.len();
    while i > 0
        invariant
            i <= v@.len(),
            last_dot_before(v@, i as int) == last_dot_before(v@, v@.len() as int),
        decreases i,
    {
        if v[i - 1] == '.' {
            if i - 1 > 0 {
                return i - 1;
            } else {
                return v.len();
            }
        }
        i = i - 1;
    }
    v.len()
}

impl DbFiles {
    /// The name of the database file without its extension.
    fn stem(&self) -> (r: String)
        ensures
            r@ == file_stem(self.file_name@),
    {
        let v = chars_of(self.file_name.as_str());
        let k = stem_len(&v);
        proof {
            lemma_stem_shape(self.file_name@);
        }
        let s = self.file_name.as_str().substring_char(0, k);
        assert(s@ =~= file_stem(self.file_name@));
        String::from_str(s)
    }

    /// Name of the quarantined backup, e.g. `accounts.db.legacy`.
    pub fn legacy_name(&self) -> (r: String)
        ensures
            r@ == legacy_name(self.file_name@),
    {
        let s = self.stem();
        concat(s.as_str(), ".db.legacy")
    }

    /// Name of the engine's write-ahead log.
    pub fn wal_name(&self) -> (r: String)
        ensures
            r@ == wal_name(self.file_name@),
    {
        let s = self.stem();
        concat(s.as_str(), ".db-wal")
    }

    /// Name of the engine's shared-memory file.
    pub fn shm_name(&self) -> (r: String)
        ensures
            r@ == shm_name(self.file_name@),
    {
        let s = self.stem();
        concat(s.as_str(), ".db-shm")
    }

    /// Name of the sync engine's metadata directory.
    pub fn sync_dir_name(&self) -> (r: String)
        ensures
            r@ == sync_dir_name(self.file_name@),
    {
        concat(self.file_name.as_str(), "-sync")
    }

    /// The file-system steps that quarantine this database, in order.
    pub fn quarantine_plan(&self) -> (r: Vec<FileOp>)
        ensures
            r@.map_values(|o: FileOp| o@) == quarantine_ops(self.file_name@),
    {
        let legacy = self.legacy_name();
        let mut r: Vec<FileOp> = Vec::new();
        r.push(FileOp::Remove(legacy.clone()));
        r.push(FileOp::RenameOrRemove { from: self.file_name.clone(), to: legacy });
        r.push(FileOp::Remove(self.wal_name()));
        r.push(FileOp::Remove(self.shm_name()));
        r.push(FileOp::RemoveTree(self.sync_dir_name()));
        assert(r@.map_values(|o: FileOp| o@) =~= quarantine_ops(self.file_name@));
        r
    }
}

/// Name of the sync sidecar file, which sits beside the database.
pub fn get_config_path(_db: &DbFiles) -> (r: String)
    ensures
        r@ == config_file_name(),
{
    String::from_str("sync_config.json")
}

/// Whether a quarantined backup of the database is among the directory's
/// entries.
pub fn has_legacy_db(db: &DbFiles, entries: &Vec<String>) -> (r: bool)
    ensures
        r == exists|i: int| 0 <= i < entries@.len() && entries@[i]@ == legacy_name(db.file_name@),
{
    let legacy = db.legacy_name();
    let mut i: usize = 0;
    while i < entries.len()
        invariant
            i <= entries@.len(),
            legacy@ == legacy_name(db.file_name@),
            forall|j: int| 0 <= j < i ==> entries@[j]@ != legacy@,
        decreases entries.len() - i,
    {
        if entries[i] == legacy {
            return true;
        }
        i = i + 1;
    }
    false
}

} // verus!
