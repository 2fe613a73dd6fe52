use gittop::dispatcher::{App, AppEvent, KeyCode, KeyInput, KeyModifier, StepAction, TabType};
use gittop::repository::{
    branch_display, fallback_remote_status, make_commit_info, parse_remote_name, short_hash_of,
    GitError, GitRepository, RawCommit,
};

#[test]
fn remote_name_parsing() {
    assert_eq!(parse_remote_name("refs/remotes/origin/main"), "origin");
    assert_eq!(parse_remote_name("refs/remotes/upstream/feature/x"), "upstream");
    assert_eq!(parse_remote_name("refs/heads"), "origin");
    assert_eq!(parse_remote_name("no-slashes"), "origin");
    assert_eq!(parse_remote_name(""), "origin");
    assert_eq!(parse_remote_name("a/b"), "origin");
    assert_eq!(parse_remote_name("a/b/c"), "c");
    assert_eq!(parse_remote_name("a//b"), "b");
}

#[test]
fn short_hash_truncation() {
    assert_eq!(short_hash_of("0123456789abcdef"), "01234567");
    assert_eq!(short_hash_of("0123456"), "0123456");
    assert_eq!(short_hash_of("01234567"), "01234567");
    assert_eq!(short_hash_of(""), "");
}

#[test]
fn branch_display_fallback() {
    assert_eq!(branch_display(Some(String::from("main"))), "main");
    assert_eq!(branch_display(None), "HEAD");
}

#[test]
fn commit_record_fallbacks() {
    let raw = RawCommit {
        id: String::from("0011223344556677889900112233445566778899"),
        author: None,
        summary: None,
        time_secs: 1700000000,
    };
    let info = make_commit_info(&raw);
    assert_eq!(info.hash, "0011223344556677889900112233445566778899");
    assert_eq!(info.short_hash, "00112233");
    assert_eq!(info.author, "Unknown");
    assert_eq!(info.message, "");
    assert_eq!(info.timestamp_secs, 1700000000);

    let raw = RawCommit {
        id: String::from("abc"),
        author: Some(String::from("Ada")),
        summary: Some(String::from("first")),
        time_secs: -5,
    };
    let info = make_commit_info(&raw);
    assert_eq!(info.short_hash, "abc");
    assert_eq!(info.author, "Ada");
    assert_eq!(info.message, "first");
    assert_eq!(info.timestamp_secs, -5);
}

#[test]
fn zeroed_remote_status_without_upstream() {
    let status = fallback_remote_status(String::from("main"));
    assert_eq!(status.remote_name, "origin");
    assert_eq!(status.branch_name, "main");
    assert_eq!(status.ahead, 0);
    assert_eq!(status.behind, 0);
    assert!(status.is_up_to_date());
}

fn fresh_repo_dir(tag: &str) -> String {
    let nanos = std::time::SystemTime::now()
        .duration_since(std::time::UNIX_EPOCH)
        .unwrap()
        .as_nanos();
    format!("/tmp/gittop_it_{}_{}", tag, nanos)
}

fn make_commit(repo: &git2::Repository, message: &str, secs: i64) -> git2::Oid {
    let blob = repo.blob(message.as_bytes()).unwrap();
    let mut builder = repo.treebuilder(None).unwrap();
    builder.insert("file.txt", blob, 0o100644).unwrap();
    let tree_id = builder.write().unwrap();
    let tree = repo.find_tree(tree_id).unwrap();
    let time = git2::Time::new(secs, 0);
    let sig = git2::Signature::new("Tester", "tester@example.com", &time).unwrap();
    let parent = repo.head().ok().and_then(|h| h.peel_to_commit().ok());
    let parents: Vec<&git2::Commit> = parent.iter().collect();
    repo.commit(Some("HEAD"), &sig, &sig, message, &tree, &parents).unwrap()
}

#[test]
fn open_rejects_non_repository() {
    let dir = fresh_repo_dir("norepo");
    let result = GitRepository::open(&dir);
    assert!(matches!(result, Err(GitError::OpenFailed)));
}

#[test]
fn recent_commits_short_history() {
    let dir = fresh_repo_dir("hist");
    let raw = git2::Repository::init(&dir).unwrap();
    make_commit(&raw, "first", 1_700_000_000);
    make_commit(&raw, "second", 1_700_000_100);
    make_commit(&raw, "third", 1_700_000_200);

    let repo = GitRepository::open(&dir).unwrap();
    // Three commits, five asked for: exactly three come back, most
    // recent first.
    let commits = repo.recent_commits(5).unwrap();
    assert_eq!(commits.len(), 3);
    assert_eq!(commits[0].message, "third");
    assert_eq!(commits[1].message, "second");
    assert_eq!(commits[2].message, "first");
    assert_eq!(commits[0].author, "Tester");
    assert_eq!(commits[0].timestamp_secs, 1_700_000_200);
    assert_eq!(commits[0].hash.len(), 40);
    assert_eq!(commits[0].short_hash, commits[0].hash[..8]);

    // The cap holds when fewer are asked for.
    let capped = repo.recent_commits(2).unwrap();
    assert_eq!(capped.len(), 2);
    assert_eq!(capped[0].message, "third");
}

#[test]
fn recent_commits_idempotent_without_new_commits() {
    let dir = fresh_repo_dir("idem");
    let raw = git2::Repository::init(&dir).unwrap();
    make_commit(&raw, "only", 1_700_000_000);
    make_commit(&raw, "tip", 1_700_000_050);

    let repo = GitRepository::open(&dir).unwrap();
    let first = repo.recent_commits(5).unwrap();
    let second = repo.recent_commits(5).unwrap();
    assert_eq!(first.len(), second.len());
    for (a, b) in first.iter().zip(second.iter()) {
        assert_eq!(a.hash, b.hash);
        assert_eq!(a.short_hash, b.short_hash);
        assert_eq!(a.author, b.author);
        assert_eq!(a.message, b.message);
        assert_eq!(a.timestamp_secs, b.timestamp_secs);
    }
}

#[test]
fn remote_status_without_upstream_is_zeroed() {
    let dir = fresh_repo_dir("remote");
    let raw = git2::Repository::init(&dir).unwrap();
    make_commit(&raw, "base", 1_700_000_000);

    let repo = GitRepository::open(&dir).unwrap();
    let status = repo.remote_status().unwrap();
    assert_eq!(status.ahead, 0);
    assert_eq!(status.behind, 0);
    assert_eq!(status.remote_name, "origin");
    assert!(status.is_up_to_date());

    let branch = repo.current_branch().unwrap();
    assert_eq!(status.branch_name, branch);
    assert!(!branch.is_empty());
}

#[test]
fn staged_files_sees_index_addition() {
    let dir = fresh_repo_dir("staged");
    let raw = git2::Repository::init(&dir).unwrap();

    let mut entry = git2::IndexEntry {
        ctime: git2::IndexTime::new(0, 0),
        mtime: git2::IndexTime::new(0, 0),
        dev: 0,
        ino: 0,
        mode: 0o100644,
        uid: 0,
        gid: 0,
        file_size: 0,
        id: git2::Oid::zero(),
        flags: 0,
        flags_extended: 0,
        path: b"fresh.rs".to_vec(),
    };
    entry.flags = 8; // path length, kept in the low bits of the flags
    let mut index = raw.index().unwrap();
    index.add_frombuffer(&entry, b"fn main() {}\n").unwrap();
    index.write().unwrap();

    let repo = GitRepository::open(&dir).unwrap();
    let staged = repo.staged_files().unwrap();
    assert_eq!(staged.len(), 1);
    assert_eq!(staged[0].path, "fresh.rs");
    assert_eq!(staged[0].status, gittop::status::FileStatusType::Added);
    assert!(staged[0].staged);

    // The staged path is not reported as untracked on the unstaged side.
    let unstaged = repo.unstaged_files().unwrap();
    for entry in unstaged.iter() {
        assert_ne!(entry.status, gittop::status::FileStatusType::Untracked);
    }
}

#[test]
fn snapshot_is_consistent_on_fresh_repository() {
    let dir = fresh_repo_dir("snap");
    let raw = git2::Repository::init(&dir).unwrap();
    make_commit(&raw, "base", 1_700_000_000);

    let repo = GitRepository::open(&dir).unwrap();
    let snapshot = repo.snapshot(10);
    assert!(snapshot.commits.len() <= 10);
    assert_eq!(snapshot.commits.len(), 1);
    assert_eq!(snapshot.commits[0].message, "base");
    assert!(snapshot.remote.is_up_to_date());
    for entry in snapshot.staged.iter() {
        assert!(entry.staged);
    }
    for entry in snapshot.unstaged.iter() {
        assert!(!entry.staged);
    }
}

#[test]
fn app_scenario_against_real_repository() {
    let dir = fresh_repo_dir("app");
    let raw = git2::Repository::init(&dir).unwrap();
    make_commit(&raw, "base", 1_700_000_000);

    let mut app = App::new(&dir).unwrap();
    assert!(!app.is_terminated());
    assert!(matches!(app.current_tab(), TabType::Status));

    app.set_error(String::from("transient"));
    assert_eq!(app.last_error().as_deref(), Some("transient"));

    let tab = KeyInput { code: KeyCode::Tab, modifiers: KeyModifier::Plain };
    app.handle_key_event(tab).unwrap();
    assert!(matches!(app.current_tab(), TabType::Commits));

    let a = app.step(&AppEvent::KeyPress(KeyInput {
        code: KeyCode::Char('r'),
        modifiers: KeyModifier::Plain,
    }));
    assert_eq!(a, StepAction::Refresh);
    assert_eq!(app.last_error().as_deref(), None);
    let snapshot = app.refresh_snapshot(10);
    assert_eq!(snapshot.commits.len(), 1);

    let a = app.step(&AppEvent::KeyPress(KeyInput {
        code: KeyCode::Char('c'),
        modifiers: KeyModifier::Control,
    }));
    assert_eq!(a, StepAction::Terminate);
    assert!(app.is_terminated());
}
