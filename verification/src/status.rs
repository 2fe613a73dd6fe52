use vstd::prelude::*;
use crate::text::str_eq;

verus! {

/// Status bits reported for one path by the object-store query, following
/// the flag values of the underlying version-control library.
pub const STATUS_INDEX_NEW: u32 = 0x1;

pub const STATUS_INDEX_MODIFIED: u32 = 0x2;

pub const STATUS_INDEX_DELETED: u32 = 0x4;

pub const STATUS_INDEX_RENAMED: u32 = 0x8;

pub const STATUS_WT_NEW: u32 = 0x80;

pub const STATUS_WT_MODIFIED: u32 = 0x100;

pub const STATUS_WT_DELETED: u32 = 0x200;

pub const STATUS_WT_RENAMED: u32 = 0x800;

pub const STATUS_CONFLICTED: u32 = 0x8000;

/// The classification of one changed file.
#[derive(Clone, Copy, Debug, PartialEq, Eq, Structural)]
pub enum FileStatusType {
    Added,
    Modified,
    Deleted,
    Renamed,
    Untracked,
    Conflicted,
}

/// One entry of a status list: a path, its classification, and whether it
/// came from the index-vs-HEAD comparison (`staged`) or from the
/// working-tree-vs-index comparison.
#[derive(Clone, Debug)]
pub struct FileStatus {
    pub path: String,
    pub status: FileStatusType,
    pub staged: bool,
}

/// A commit reachable from HEAD: full and abbreviated identifier, author
/// display name, one-line summary, and the recorded commit time as seconds
/// since the epoch.
#[derive(Clone, Debug)]
pub struct CommitInfo {
    pub hash: String,
    pub short_hash: String,
    pub author: String,
    pub message: String,
    pub timestamp_secs: i64,
}

/// Relationship of the current branch to its upstream.
#[derive(Clone, Debug)]
pub struct RemoteStatus {
    pub remote_name: String,
    pub branch_name: String,
    pub ahead: usize,
    pub behind: usize,
}

impl RemoteStatus {
    pub fn is_up_to_date(&self) -> (r: bool)
        ensures
            r == (self.ahead == 0 && self.behind == 0),
    {
        self.ahead == 0 && self.behind == 0
    }
}

/// Classification of index-vs-HEAD status bits, first match wins:
/// Added > Modified > Deleted > Renamed.
pub open spec fn spec_classify_staged(bits: u32) -> Option<FileStatusType> {
    if bits & STATUS_INDEX_NEW != 0 {
        Some(FileStatusType::Added)
    } else if bits & STATUS_INDEX_MODIFIED != 0 {
        Some(FileStatusType::Modified)
    } else if bits & STATUS_INDEX_DELETED != 0 {
        Some(FileStatusType::Deleted)
    } else if bits & STATUS_INDEX_RENAMED != 0 {
        Some(FileStatusType::Renamed)
    } else {
        None
    }
}

/// Classification of working-tree-vs-index status bits, first match wins:
/// Untracked > Modified > Deleted > Renamed > Conflicted.
pub open spec fn spec_classify_unstaged(bits: u32) -> Option<FileStatusType> {
    if bits & STATUS_WT_NEW != 0 {
        Some(FileStatusType::Untracked)
    } else if bits & STATUS_WT_MODIFIED != 0 {
        Some(FileStatusType::Modified)
    } else if bits & STATUS_WT_DELETED != 0 {
        Some(FileStatusType::Deleted)
    } else if bits & STATUS_WT_RENAMED != 0 {
        Some(FileStatusType::Renamed)
    } else if bits & STATUS_CONFLICTED != 0 {
        Some(FileStatusType::Conflicted)
    } else {
        None
    }
}

pub open spec fn spec_classify(bits: u32, staged: bool) -> Option<FileStatusType> {
    if staged {
        spec_classify_staged(bits)
    } else {
        spec_classify_unstaged(bits)
    }
}

pub fn classify_staged(bits: u32) -> (r: Option<FileStatusType>)
    ensures
        r == spec_classify_staged(bits),
{
    if bits & STATUS_INDEX_NEW != 0 {
        Some(FileStatusType::Added)
    } else if bits & STATUS_INDEX_MODIFIED != 0 {
        Some(FileStatusType::Modified)
    } else if bits & STATUS_INDEX_DELETED != 0 {
        Some(FileStatusType::Deleted)
    } else if bits & STATUS_INDEX_RENAMED != 0 {
        Some(FileStatusType::Renamed)
    } else {
        None
    }
}

pub fn classify_unstaged(bits: u32) -> (r: Option<FileStatusType>)
    ensures
        r == spec_classify_unstaged(bits),
{
    if bits & STATUS_WT_NEW != 0 {
        Some(FileStatusType::Untracked)
    } else if bits & STATUS_WT_MODIFIED != 0 {
        Some(FileStatusType::Modified)
    } else if bits & STATUS_WT_DELETED != 0 {
        Some(FileStatusType::Deleted)
    } else if bits & STATUS_WT_RENAMED != 0 {
        Some(FileStatusType::Renamed)
    } else if bits & STATUS_CONFLICTED != 0 {
        Some(FileStatusType::Conflicted)
    } else {
        None
    }
}

/// A working-tree path whose bits show a new, never-tracked file is
/// classified Untracked, whatever other working-tree bits are set.
pub proof fn lemma_new_file_is_untracked(bits: u32)
    requires
        bits & STATUS_WT_NEW != 0,
    ensures
        spec_classify_unstaged(bits) == Some(FileStatusType::Untracked),
{
}

/// Bits that carry no index-side flag produce no staged entry, so a
/// never-staged file cannot appear in the staged list.
pub proof fn lemma_pure_worktree_bits_not_staged(bits: u32)
    requires
        bits & STATUS_INDEX_NEW == 0,
        bits & STATUS_INDEX_MODIFIED == 0,
        bits & STATUS_INDEX_DELETED == 0,
        bits & STATUS_INDEX_RENAMED == 0,
    ensures
        spec_classify_staged(bits) == None::<FileStatusType>,
{
}

/// Bits whose index-side flag is "new" are classified Added in the staged
/// list, whatever other index bits are set.
pub proof fn lemma_index_new_is_added(bits: u32)
    requires
        bits & STATUS_INDEX_NEW != 0,
    ensures
        spec_classify_staged(bits) == Some(FileStatusType::Added),
{
}

/// Bits that carry no working-tree flag and no conflict produce no
/// unstaged entry, so a fully staged file leaves the unstaged list.
pub proof fn lemma_pure_index_bits_not_unstaged(bits: u32)
    requires
        bits & STATUS_WT_NEW == 0,
        bits & STATUS_WT_MODIFIED == 0,
        bits & STATUS_WT_DELETED == 0,
        bits & STATUS_WT_RENAMED == 0,
        bits & STATUS_CONFLICTED == 0,
    ensures
        spec_classify_unstaged(bits) == None::<FileStatusType>,
{
}

/// Whether some entry of `l` carries the path `p`.
pub open spec fn list_has_path(l: Seq<FileStatus>, p: Seq<char>) -> bool {
    exists|i: int| 0 <= i < l.len() && l[i].path@ == p
}

/// No two entries of `l` carry the same path.
pub open spec fn paths_distinct(l: Seq<FileStatus>) -> bool {
    forall|i: int, j: int| 0 <= i < j < l.len() ==> l[i].path@ != l[j].path@
}

/// The status list built from raw `(path, bits)` entries: each entry is
/// classified by the precedence chain for its side; entries whose bits
/// match no classification are omitted, and a path already present in the
/// list is not added again.
pub open spec fn spec_status_list(entries: Seq<(String, u32)>, staged: bool) -> Seq<FileStatus>
    decreases entries.len(),
{
    if entries.len() == 0 {
        Seq::empty()
    } else {
        let prefix = spec_status_list(entries.drop_last(), staged);
        let last = entries.last();
        match spec_classify(last.1, staged) {
            Some(kind) => if list_has_path(prefix, last.0@) {
                prefix
            } else {
                prefix.push(FileStatus { path: last.0, status: kind, staged })
            },
            None => prefix,
        }
    }
}

/// Every entry of a built status list carries the side it was built for,
/// and a classification that the side's precedence chain can produce.
pub proof fn lemma_status_list_entries(entries: Seq<(String, u32)>, staged: bool)
    ensures
        forall|i: int| 0 <= i < spec_status_list(entries, staged).len()
            ==> (#[trigger] spec_status_list(entries, staged)[i]).staged == staged,
        forall|i: int| 0 <= i < spec_status_list(entries, staged).len()
            ==> exists|bits: u32| spec_classify(bits, staged)
                == Some((#[trigger] spec_status_list(entries, staged)[i]).status),
    decreases entries.len(),
{
    if entries.len() > 0 {
        lemma_status_list_entries(entries.drop_last(), staged);
        let prefix = spec_status_list(entries.drop_last(), staged);
        let last = entries.last();
        match spec_classify(last.1, staged) {
            Some(kind) => {
                if !list_has_path(prefix, last.0@) {
                    assert(spec_classify(last.1, staged)
                        == Some(spec_status_list(entries, staged).last().status));
                }
            },
            None => {},
        }
    }
}

/// Entries of a staged list never carry the working-tree-only kinds
/// Untracked or Conflicted, and entries of an unstaged list never carry
/// the index-only kind Added: each side's precedence chain cannot
/// produce them.
pub proof fn lemma_status_list_kind_range(entries: Seq<(String, u32)>, staged: bool)
    ensures
        staged ==> forall|i: int| 0 <= i < spec_status_list(entries, staged).len()
            ==> (#[trigger] spec_status_list(entries, staged)[i]).status
                != FileStatusType::Untracked
            && spec_status_list(entries, staged)[i].status != FileStatusType::Conflicted,
        !staged ==> forall|i: int| 0 <= i < spec_status_list(entries, staged).len()
            ==> (#[trigger] spec_status_list(entries, staged)[i]).status != FileStatusType::Added,
    decreases entries.len(),
{
    if entries.len() > 0 {
        lemma_status_list_kind_range(entries.drop_last(), staged);
    }
}

/// A built status list never repeats a path.
pub proof fn lemma_status_list_distinct(entries: Seq<(String, u32)>, staged: bool)
    ensures
        paths_distinct(spec_status_list(entries, staged)),
    decreases entries.len(),
{
    if entries.len() > 0 {
        lemma_status_list_distinct(entries.drop_last(), staged);
        let prefix = spec_status_list(entries.drop_last(), staged);
        let last = entries.last();
        match spec_classify(last.1, staged) {
            Some(kind) => {
                if !list_has_path(prefix, last.0@) {
                    let built = prefix.push(FileStatus { path: last.0, status: kind, staged });
                    assert forall|i: int, j: int| 0 <= i < j < built.len()
                        implies built[i].path@ != built[j].path@ by {
                        if j == built.len() - 1 {
                            assert(built[i] == prefix[i]);
                            assert(!(prefix[i].path@ == last.0@));
                        }
                    }
                }
            },
            None => {},
        }
    }
}

/// Whether some entry of `out` carries the path `p`.
pub fn contains_path(out: &Vec<FileStatus>, p: &str) -> (r: bool)
    ensures
        r == list_has_path(out@, p@),
{
    let mut j: usize = 0;
    while j < out.len()
        invariant
            j <= out@.len(),
            forall|k: int| 0 <= k < j ==> out@[k].path@ != p@,
        decreases out@.len() - j,
    {
        if str_eq(out[j].path.as_str(), p) {
            return true;
        }
        j = j + 1;
    }
    false
}

/// Builds one status list from raw `(path, bits)` entries, classifying
/// each path by the precedence chain of its side and keeping only the
/// first occurrence of a path.
pub fn build_status_list(entries: &Vec<(String, u32)>, staged: bool) -> (r: Vec<FileStatus>)
    ensures
        r@ == spec_status_list(entries@, staged),
        paths_distinct(r@),
{
    let mut out: Vec<FileStatus> = Vec::new();
    let mut i: usize = 0;
    while i < entries.len()
        invariant
            i <= entries@.len(),
            out@ == spec_status_list(entries@.subrange(0, i as int), staged),
        decreases entries@.len() - i,
    {
        let kind_opt = if staged {
            classify_staged(entries[i].1)
        } else {
            classify_unstaged(entries[i].1)
        };
        match kind_opt {
            Some(kind) => {
                if !contains_path(&out, entries[i].0.as_str()) {
                    let path = entries[i].0.clone();
                    out.push(FileStatus { path, status: kind, staged });
                }
            },
            None => {},
        }
        proof {
            assert(entries@.subrange(0, i + 1).drop_last() =~= entries@.subrange(0, i as int));
            assert(entries@.subrange(0, i + 1).last() == entries@[i as int]);
        }
        i = i + 1;
    }
    proof {
        assert(entries@.subrange(0, entries@.len() as int) =~= entries@);
        lemma_status_list_distinct(entries@, staged);
    }
    out
}

/// The display symbol shown beside a classification.
pub open spec fn spec_status_symbol(status: FileStatusType) -> Seq<char> {
    match status {
        FileStatusType::Added => "+"@,
        FileStatusType::Modified => "M"@,
        FileStatusType::Deleted => "-"@,
        FileStatusType::Renamed => "R"@,
        FileStatusType::Untracked => "?"@,
        FileStatusType::Conflicted => "!"@,
    }
}

pub fn get_status_symbol(status: &FileStatusType) -> (r: &'static str)
    ensures
        r@ == spec_status_symbol(*status),
{
    match status {
        FileStatusType::Added => "+",
        FileStatusType::Modified => "M",
        FileStatusType::Deleted => "-",
        FileStatusType::Renamed => "R",
        FileStatusType::Untracked => "?",
        FileStatusType::Conflicted => "!",
    }
}

} // verus!
