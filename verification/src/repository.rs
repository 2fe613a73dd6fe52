use vstd::prelude::*;
use vstd::string::StrSliceExecFns;
use crate::status::{
    CommitInfo, FileStatus, FileStatusType, RemoteStatus, build_status_list, paths_distinct,
    lemma_status_list_entries, lemma_status_list_kind_range,
};
use crate::text::{find_from, find_char_from};

verus! {

/// Why a repository query could not be answered.
#[derive(Clone, Copy, Debug, PartialEq, Eq, Structural)]
pub enum GitError {
    OpenFailed,
    HeadUnavailable,
    StatusUnavailable,
    HistoryUnavailable,
    RemoteUnavailable,
}

#[verifier::external_type_specification]
#[verifier::external_body]
pub struct ExRepository(git2::Repository);

#[verifier::external_type_specification]
#[verifier::external_body]
pub struct ExOid(git2::Oid);

#[verifier::external_type_specification]
#[verifier::external_body]
pub struct ExReference<'a>(git2::Reference<'a>);

/// One commit as the object store hands it out, reduced to plain values:
/// full hex identifier, author name and summary where they were valid
/// text, and the recorded commit time in seconds since the epoch.
pub struct RawCommit {
    pub id: String,
    pub author: Option<String>,
    pub summary: Option<String>,
    pub time_secs: i64,
}

/// Relies on git2::Repository::open: opens the repository at `path`, and
/// fails when the path holds none.
#[verifier::external_body]
fn raw_open(path: &str) -> (r: Result<git2::Repository, GitError>)
    ensures
        r matches Err(e) ==> e == GitError::OpenFailed,
{
    match git2::Repository::open(path) {
        Ok(repo) => Ok(repo),
        Err(_) => Err(GitError::OpenFailed),
    }
}

/// Relies on git2::Repository::head: resolves the HEAD reference.
#[verifier::external_body]
fn raw_head<'r>(repo: &'r git2::Repository) -> (r: Result<git2::Reference<'r>, GitError>)
    ensures
        r matches Err(e) ==> e == GitError::HeadUnavailable,
{
    match repo.head() {
        Ok(head) => Ok(head),
        Err(_) => Err(GitError::HeadUnavailable),
    }
}

/// Relies on git2::Reference::shorthand: the reference's short name where
/// it is valid text.
#[verifier::external_body]
fn ref_shorthand(reference: &git2::Reference<'_>) -> (r: Option<String>)
{
    reference.shorthand().ok().map(|s| s.to_string())
}

/// Relies on git2::Reference::name: the reference's full name where it is
/// valid text.
#[verifier::external_body]
fn ref_name(reference: &git2::Reference<'_>) -> (r: Option<String>)
{
    reference.name().ok().map(|s| s.to_string())
}

/// Relies on git2::Reference::target: the object the reference points at,
/// where it is direct.
#[verifier::external_body]
fn ref_target(reference: &git2::Reference<'_>) -> (r: Option<git2::Oid>)
{
    reference.target()
}

/// Relies on git2::Repository::branch_upstream_name: the full name of the
/// upstream of the given local branch reference, or nothing when no
/// upstream is configured.
#[verifier::external_body]
fn raw_upstream_name(repo: &git2::Repository, refname: &str) -> (r: Option<String>)
{
    match repo.branch_upstream_name(refname) {
        Ok(buf) => Some(buf.as_str().unwrap_or("").to_string()),
        Err(_) => None,
    }
}

/// Relies on git2::Repository::refname_to_id: resolves a reference name to
/// the object it points at.
#[verifier::external_body]
fn raw_refname_to_id(repo: &git2::Repository, name: &str) -> (r: Result<git2::Oid, GitError>)
    ensures
        r matches Err(e) ==> e == GitError::RemoteUnavailable,
{
    match repo.refname_to_id(name) {
        Ok(oid) => Ok(oid),
        Err(_) => Err(GitError::RemoteUnavailable),
    }
}

/// Relies on git2::Repository::graph_ahead_behind: counts the commits
/// reachable from each of the two given commits but not the other.
#[verifier::external_body]
fn raw_ahead_behind(repo: &git2::Repository, local: git2::Oid, upstream: git2::Oid) -> (r: Result<
    (usize, usize),
    GitError,
>)
    ensures
        r matches Err(e) ==> e == GitError::RemoteUnavailable,
{
    match repo.graph_ahead_behind(local, upstream) {
        Ok(counts) => Ok(counts),
        Err(_) => Err(GitError::RemoteUnavailable),
    }
}

/// Relies on git2::Repository::statuses, asked for the index-vs-HEAD
/// comparison without untracked files: one `(path, status bits)` pair per
/// reported entry, in the reported order.
#[verifier::external_body]
fn raw_index_statuses(repo: &git2::Repository) -> (r: Result<Vec<(String, u32)>, GitError>)
    ensures
        r matches Err(e) ==> e == GitError::StatusUnavailable,
{
    let mut opts = git2::StatusOptions::new();
    opts.show(git2::StatusShow::Index);
    opts.include_untracked(false);
    match repo.statuses(Some(&mut opts)) {
        Ok(statuses) => Ok(statuses
            .iter()
            .map(|entry| (entry.path().unwrap_or("").to_string(), entry.status().bits()))
            .collect()),
        Err(_) => Err(GitError::StatusUnavailable),
    }
}

/// Relies on git2::Repository::statuses, asked for the working-tree-vs-
/// index comparison with untracked files included: one `(path, status
/// bits)` pair per reported entry, in the reported order.
#[verifier::external_body]
fn raw_workdir_statuses(repo: &git2::Repository) -> (r: Result<Vec<(String, u32)>, GitError>)
    ensures
        r matches Err(e) ==> e == GitError::StatusUnavailable,
{
    let mut opts = git2::StatusOptions::new();
    opts.show(git2::StatusShow::Workdir);
    opts.include_untracked(true);
    match repo.statuses(Some(&mut opts)) {
        Ok(statuses) => Ok(statuses
            .iter()
            .map(|entry| (entry.path().unwrap_or("").to_string(), entry.status().bits()))
            .collect()),
        Err(_) => Err(GitError::StatusUnavailable),
    }
}

/// Relies on git2::Revwalk, pushed to HEAD, which yields the identifiers
/// of the commits reachable from HEAD most recent first, and on
/// Iterator::take, which caps the walk at `count` of them.
#[verifier::external_body]
fn raw_head_oids(repo: &git2::Repository, count: usize) -> (r: Result<Vec<git2::Oid>, GitError>)
    ensures
        r matches Ok(v) ==> v@.len() <= count,
        r matches Err(e) ==> e == GitError::HistoryUnavailable,
{
    let mut walk = repo.revwalk().map_err(|_| GitError::HistoryUnavailable)?;
    walk.push_head().map_err(|_| GitError::HistoryUnavailable)?;
    let mut out = Vec::new();
    for oid in walk.take(count) {
        out.push(oid.map_err(|_| GitError::HistoryUnavailable)?);
    }
    Ok(out)
}

/// Relies on git2::Repository::find_commit and the commit's accessors:
/// reduces one commit to its hex identifier, author name, summary and
/// recorded time.
#[verifier::external_body]
fn raw_commit_of(repo: &git2::Repository, oid: &git2::Oid) -> (r: Result<RawCommit, GitError>)
    ensures
        r matches Err(e) ==> e == GitError::HistoryUnavailable,
{
    let commit = repo.find_commit(*oid).map_err(|_| GitError::HistoryUnavailable)?;
    let author = commit.author().name().ok().map(|s| s.to_string());
    let summary = commit.summary().ok().flatten().map(|s| s.to_string());
    Ok(RawCommit { id: oid.to_string(), author, summary, time_secs: commit.time().seconds() })
}

/// The string an optional value displays as: itself when present, the
/// fallback when absent.
pub open spec fn spec_opt_or(o: Option<String>, fallback: Seq<char>) -> Seq<char> {
    match o {
        Some(s) => s@,
        None => fallback,
    }
}

/// The branch name shown for a resolved HEAD: its short name, or the
/// literal `HEAD` when the reference is unnamed or detached.
pub fn branch_display(name: Option<String>) -> (r: String)
    ensures
        r@ == spec_opt_or(name, "HEAD"@),
{
    match name {
        Some(n) => n,
        None => "HEAD".to_owned(),
    }
}

/// The remote name held in an upstream reference's namespaced path: the
/// third `/`-separated segment, or `origin` when the path has fewer than
/// three segments.
pub open spec fn spec_remote_name(u: Seq<char>) -> Seq<char> {
    let i = find_from(u, '/', 0);
    if i == u.len() {
        "origin"@
    } else {
        let j = find_from(u, '/', i + 1);
        if j == u.len() {
            "origin"@
        } else {
            let k = find_from(u, '/', j + 1);
            u.subrange(j + 1, k)
        }
    }
}

pub fn parse_remote_name(upstream: &str) -> (r: String)
    ensures
        r@ == spec_remote_name(upstream@),
{
    let n = upstream.unicode_len();
    let i = find_char_from(upstream, '/', 0);
    if i == n {
        return "origin".to_owned();
    }
    let j = find_char_from(upstream, '/', i + 1);
    if j == n {
        return "origin".to_owned();
    }
    let k = find_char_from(upstream, '/', j + 1);
    upstream.substring_char(j + 1, k).to_owned()
}

/// The abbreviated identifier: the first eight characters of the full
/// one, or all of it when it is shorter.
pub open spec fn spec_short_hash(h: Seq<char>) -> Seq<char> {
    if h.len() <= 8 {
        h
    } else {
        h.subrange(0, 8)
    }
}

pub fn short_hash_of(hash: &str) -> (r: String)
    ensures
        r@ == spec_short_hash(hash@),
{
    let n = hash.unicode_len();
    let end = if n < 8 {
        n
    } else {
        8
    };
    hash.substring_char(0, end).to_owned()
}

/// How one displayed record relates to the raw commit it came from.
pub open spec fn commit_info_matches(c: CommitInfo, raw: RawCommit) -> bool {
    &&& c.hash@ == raw.id@
    &&& c.short_hash@ == spec_short_hash(raw.id@)
    &&& c.author@ == spec_opt_or(raw.author, "Unknown"@)
    &&& c.message@ == spec_opt_or(raw.summary, ""@)
    &&& c.timestamp_secs == raw.time_secs
}

/// Builds the displayed record of one raw commit: abbreviated identifier,
/// author with an `Unknown` fallback, summary with an empty fallback.
pub fn make_commit_info(raw: &RawCommit) -> (r: CommitInfo)
    ensures
        commit_info_matches(r, *raw),
{
    let hash = raw.id.clone();
    let short_hash = short_hash_of(raw.id.as_str());
    let author = match &raw.author {
        Some(a) => a.clone(),
        None => "Unknown".to_owned(),
    };
    let message = match &raw.summary {
        Some(m) => m.clone(),
        None => "".to_owned(),
    };
    CommitInfo { hash, short_hash, author, message, timestamp_secs: raw.time_secs }
}

/// Builds the displayed records of a sequence of raw commits, in order.
pub fn make_commit_infos(raws: &Vec<RawCommit>) -> (r: Vec<CommitInfo>)
    ensures
        r@.len() == raws@.len(),
        forall|i: int| 0 <= i < r@.len() ==> commit_info_matches(#[trigger] r@[i], raws@[i]),
{
    let mut out: Vec<CommitInfo> = Vec::new();
    let mut i: usize = 0;
    while i < raws.len()
        invariant
            i <= raws@.len(),
            out@.len() == i,
            forall|j: int| 0 <= j < i ==> commit_info_matches(#[trigger] out@[j], raws@[j]),
        decreases raws@.len() - i,
    {
        out.push(make_commit_info(&raws[i]));
        i = i + 1;
    }
    out
}

/// The zeroed remote status reported when no upstream is configured: not
/// an error, but a normal state, with the conventional placeholder as the
/// remote name and no divergence in either direction.
pub fn fallback_remote_status(branch: String) -> (r: RemoteStatus)
    ensures
        r.remote_name@ == "origin"@,
        r.branch_name@ == branch@,
        r.ahead == 0,
        r.behind == 0,
{
    RemoteStatus { remote_name: "origin".to_owned(), branch_name: branch, ahead: 0, behind: 0 }
}

/// One complete, consistent read of the repository's display state,
/// produced wholesale per refresh.
pub struct Snapshot {
    pub branch: String,
    pub staged: Vec<FileStatus>,
    pub unstaged: Vec<FileStatus>,
    pub remote: RemoteStatus,
    pub commits: Vec<CommitInfo>,
}

/// Owns the connection to one repository at a filesystem path; all
/// queries go through it, each reflecting the live on-disk state at call
/// time, and none writing to the store.
pub struct GitRepository {
    repo: git2::Repository,
    path: String,
}

impl GitRepository {
    pub closed spec fn spec_path(&self) -> Seq<char> {
        self.path@
    }

    /// Opens the repository at `path`; fails when the path is not a
    /// repository.
    pub fn open(path: &str) -> (r: Result<GitRepository, GitError>)
        ensures
            r matches Ok(handle) ==> handle.spec_path() == path@,
            r matches Err(e) ==> e == GitError::OpenFailed,
    {
        match raw_open(path) {
            Ok(repo) => Ok(GitRepository { repo, path: path.to_owned() }),
            Err(e) => Err(e),
        }
    }

    pub fn path(&self) -> (r: &String)
        ensures
            r@ == self.spec_path(),
    {
        &self.path
    }

    /// The short name of the current branch, or the literal `HEAD` when
    /// the reference is unnamed or detached.
    pub fn current_branch(&self) -> (r: Result<String, GitError>)
        ensures
            r matches Err(e) ==> e == GitError::HeadUnavailable,
    {
        match raw_head(&self.repo) {
            Ok(head) => Ok(branch_display(ref_shorthand(&head))),
            Err(e) => Err(e),
        }
    }

    /// The index-vs-HEAD changes: every entry carries `staged`, a path no
    /// other entry repeats, and a kind the staged precedence chain can
    /// produce, so never Untracked or Conflicted.
    pub fn staged_files(&self) -> (r: Result<Vec<FileStatus>, GitError>)
        ensures
            r matches Ok(v) ==> paths_distinct(v@),
            r matches Ok(v) ==> forall|i: int| 0 <= i < v@.len() ==> (#[trigger] v@[i]).staged,
            r matches Ok(v) ==> forall|i: int| 0 <= i < v@.len() ==> (#[trigger] v@[i]).status
                != FileStatusType::Untracked && v@[i].status != FileStatusType::Conflicted,
            r matches Err(e) ==> e == GitError::StatusUnavailable,
    {
        match raw_index_statuses(&self.repo) {
            Ok(entries) => {
                proof {
                    lemma_status_list_entries(entries@, true);
                    lemma_status_list_kind_range(entries@, true);
                }
                Ok(build_status_list(&entries, true))
            },
            Err(e) => Err(e),
        }
    }

    /// The working-tree-vs-index changes, untracked files included: every
    /// entry carries `staged == false`, a path no other entry repeats, and
    /// a kind the unstaged precedence chain can produce, so never Added.
    pub fn unstaged_files(&self) -> (r: Result<Vec<FileStatus>, GitError>)
        ensures
            r matches Ok(v) ==> paths_distinct(v@),
            r matches Ok(v) ==> forall|i: int| 0 <= i < v@.len() ==> !(#[trigger] v@[i]).staged,
            r matches Ok(v) ==> forall|i: int| 0 <= i < v@.len() ==> (#[trigger] v@[i]).status
                != FileStatusType::Added,
            r matches Err(e) ==> e == GitError::StatusUnavailable,
    {
        match raw_workdir_statuses(&self.repo) {
            Ok(entries) => {
                proof {
                    lemma_status_list_entries(entries@, false);
                    lemma_status_list_kind_range(entries@, false);
                }
                Ok(build_status_list(&entries, false))
            },
            Err(e) => Err(e),
        }
    }

    /// The at most `count` most recent commits reachable from HEAD, most
    /// recent first; a repository with fewer commits yields fewer records,
    /// not an error.
    pub fn recent_commits(&self, count: usize) -> (r: Result<Vec<CommitInfo>, GitError>)
        ensures
            r matches Ok(v) ==> v@.len() <= count,
            r matches Err(e) ==> e == GitError::HistoryUnavailable,
    {
        let oids = match raw_head_oids(&self.repo, count) {
            Ok(oids) => oids,
            Err(e) => {
                return Err(e);
            },
        };
        let mut raws: Vec<RawCommit> = Vec::new();
        let mut i: usize = 0;
        while i < oids.len()
            invariant
                i <= oids@.len(),
                oids@.len() <= count,
                raws@.len() == i,
            decreases oids@.len() - i,
        {
            match raw_commit_of(&self.repo, &oids[i]) {
                Ok(raw) => raws.push(raw),
                Err(e) => {
                    return Err(e);
                },
            }
            i = i + 1;
        }
        Ok(make_commit_infos(&raws))
    }

    /// The relationship to the configured upstream. A branch without one
    /// yields the zeroed placeholder status, not an error.
    pub fn remote_status(&self) -> (r: Result<RemoteStatus, GitError>)
        ensures
            r matches Err(e) ==> e == GitError::HeadUnavailable || e
                == GitError::RemoteUnavailable,
    {
        let head = match raw_head(&self.repo) {
            Ok(head) => head,
            Err(e) => {
                return Err(e);
            },
        };
        let local_branch = branch_display(ref_shorthand(&head));
        let head_name = match ref_name(&head) {
            Some(name) => name,
            None => "".to_owned(),
        };
        let upstream = match raw_upstream_name(&self.repo, head_name.as_str()) {
            Some(upstream) => upstream,
            None => {
                return Ok(fallback_remote_status(local_branch));
            },
        };
        let remote_name = parse_remote_name(upstream.as_str());
        let local_oid = match ref_target(&head) {
            Some(oid) => oid,
            None => {
                return Err(GitError::HeadUnavailable);
            },
        };
        let upstream_oid = match raw_refname_to_id(&self.repo, upstream.as_str()) {
            Ok(oid) => oid,
            Err(e) => {
                return Err(e);
            },
        };
        let counts = match raw_ahead_behind(&self.repo, local_oid, upstream_oid) {
            Ok(counts) => counts,
            Err(e) => {
                return Err(e);
            },
        };
        Ok(RemoteStatus {
            remote_name,
            branch_name: local_branch,
            ahead: counts.0,
            behind: counts.1,
        })
    }

    /// One refresh: queries every field and substitutes an empty or
    /// zeroed value for any that fails, so a transient repository state
    /// degrades the display instead of crashing it. The snapshot is
    /// internally consistent: each list is duplicate-free and carries
    /// only its own side's entries.
    pub fn snapshot(&self, commit_count: usize) -> (s: Snapshot)
        ensures
            paths_distinct(s.staged@),
            paths_distinct(s.unstaged@),
            forall|i: int| 0 <= i < s.staged@.len() ==> (#[trigger] s.staged@[i]).staged,
            forall|i: int| 0 <= i < s.unstaged@.len() ==> !(#[trigger] s.unstaged@[i]).staged,
            forall|i: int| 0 <= i < s.staged@.len() ==> (#[trigger] s.staged@[i]).status
                != FileStatusType::Untracked && s.staged@[i].status != FileStatusType::Conflicted,
            forall|i: int| 0 <= i < s.unstaged@.len() ==> (#[trigger] s.unstaged@[i]).status
                != FileStatusType::Added,
            s.commits@.len() <= commit_count,
    {
        let branch = match self.current_branch() {
            Ok(branch) => branch,
            Err(_) => "Unknown".to_owned(),
        };
        let staged = match self.staged_files() {
            Ok(files) => files,
            Err(_) => Vec::new(),
        };
        let unstaged = match self.unstaged_files() {
            Ok(files) => files,
            Err(_) => Vec::new(),
        };
        let remote = match self.remote_status() {
            Ok(remote) => remote,
            Err(_) => fallback_remote_status(branch.clone()),
        };
        let commits = match self.recent_commits(commit_count) {
            Ok(commits) => commits,
            Err(_) => Vec::new(),
        };
        Snapshot { branch, staged, unstaged, remote, commits }
    }
}

} // verus!
