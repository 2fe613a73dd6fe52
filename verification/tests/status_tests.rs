use gittop::status::{
    build_status_list, classify_staged, classify_unstaged, get_status_symbol, FileStatusType,
    RemoteStatus, STATUS_CONFLICTED, STATUS_INDEX_DELETED, STATUS_INDEX_MODIFIED,
    STATUS_INDEX_NEW, STATUS_INDEX_RENAMED, STATUS_WT_DELETED, STATUS_WT_MODIFIED, STATUS_WT_NEW,
    STATUS_WT_RENAMED,
};

#[test]
fn staged_classification_precedence() {
    assert_eq!(classify_staged(STATUS_INDEX_NEW), Some(FileStatusType::Added));
    assert_eq!(classify_staged(STATUS_INDEX_MODIFIED), Some(FileStatusType::Modified));
    assert_eq!(classify_staged(STATUS_INDEX_DELETED), Some(FileStatusType::Deleted));
    assert_eq!(classify_staged(STATUS_INDEX_RENAMED), Some(FileStatusType::Renamed));
    // First match wins when several bits are set at once.
    assert_eq!(
        classify_staged(STATUS_INDEX_NEW | STATUS_INDEX_MODIFIED | STATUS_INDEX_RENAMED),
        Some(FileStatusType::Added)
    );
    assert_eq!(
        classify_staged(STATUS_INDEX_MODIFIED | STATUS_INDEX_DELETED),
        Some(FileStatusType::Modified)
    );
    assert_eq!(classify_staged(0), None);
    // Pure working-tree bits produce no staged entry.
    assert_eq!(classify_staged(STATUS_WT_NEW), None);
}

#[test]
fn unstaged_classification_precedence() {
    assert_eq!(classify_unstaged(STATUS_WT_NEW), Some(FileStatusType::Untracked));
    assert_eq!(classify_unstaged(STATUS_WT_MODIFIED), Some(FileStatusType::Modified));
    assert_eq!(classify_unstaged(STATUS_WT_DELETED), Some(FileStatusType::Deleted));
    assert_eq!(classify_unstaged(STATUS_WT_RENAMED), Some(FileStatusType::Renamed));
    assert_eq!(classify_unstaged(STATUS_CONFLICTED), Some(FileStatusType::Conflicted));
    // Untracked beats every other working-tree classification.
    assert_eq!(
        classify_unstaged(STATUS_WT_NEW | STATUS_WT_MODIFIED | STATUS_CONFLICTED),
        Some(FileStatusType::Untracked)
    );
    assert_eq!(
        classify_unstaged(STATUS_WT_RENAMED | STATUS_CONFLICTED),
        Some(FileStatusType::Renamed)
    );
    assert_eq!(classify_unstaged(0), None);
    // Pure index bits produce no unstaged entry.
    assert_eq!(classify_unstaged(STATUS_INDEX_NEW), None);
}

#[test]
fn new_file_untracked_in_unstaged_not_in_staged() {
    // A never-committed, never-staged file carries only the working-tree
    // "new" bit: it shows up as Untracked on the unstaged side and not at
    // all on the staged side.
    let entries = vec![(String::from("notes.txt"), STATUS_WT_NEW)];
    let unstaged = build_status_list(&entries, false);
    assert_eq!(unstaged.len(), 1);
    assert_eq!(unstaged[0].path, "notes.txt");
    assert_eq!(unstaged[0].status, FileStatusType::Untracked);
    assert!(!unstaged[0].staged);
    let staged = build_status_list(&entries, true);
    assert_eq!(staged.len(), 0);
}

#[test]
fn staged_file_added_and_gone_from_unstaged() {
    // After staging, the same path carries only the index "new" bit: it
    // shows up as Added on the staged side and leaves the unstaged side.
    let entries = vec![(String::from("notes.txt"), STATUS_INDEX_NEW)];
    let staged = build_status_list(&entries, true);
    assert_eq!(staged.len(), 1);
    assert_eq!(staged[0].path, "notes.txt");
    assert_eq!(staged[0].status, FileStatusType::Added);
    assert!(staged[0].staged);
    let unstaged = build_status_list(&entries, false);
    assert_eq!(unstaged.len(), 0);
}

#[test]
fn status_list_drops_duplicate_paths() {
    let entries = vec![
        (String::from("a.rs"), STATUS_INDEX_NEW),
        (String::from("b.rs"), STATUS_INDEX_MODIFIED),
        (String::from("a.rs"), STATUS_INDEX_DELETED),
    ];
    let staged = build_status_list(&entries, true);
    assert_eq!(staged.len(), 2);
    assert_eq!(staged[0].path, "a.rs");
    assert_eq!(staged[0].status, FileStatusType::Added);
    assert_eq!(staged[1].path, "b.rs");
    assert_eq!(staged[1].status, FileStatusType::Modified);
}

#[test]
fn status_list_skips_unclassified_bits() {
    let entries = vec![
        (String::from("ignored"), 0),
        (String::from("kept.rs"), STATUS_WT_MODIFIED),
    ];
    let unstaged = build_status_list(&entries, false);
    assert_eq!(unstaged.len(), 1);
    assert_eq!(unstaged[0].path, "kept.rs");
}

#[test]
fn status_list_empty_input() {
    let entries: Vec<(String, u32)> = Vec::new();
    assert_eq!(build_status_list(&entries, true).len(), 0);
    assert_eq!(build_status_list(&entries, false).len(), 0);
}

#[test]
fn status_symbols() {
    assert_eq!(get_status_symbol(&FileStatusType::Added), "+");
    assert_eq!(get_status_symbol(&FileStatusType::Modified), "M");
    assert_eq!(get_status_symbol(&FileStatusType::Deleted), "-");
    assert_eq!(get_status_symbol(&FileStatusType::Renamed), "R");
    assert_eq!(get_status_symbol(&FileStatusType::Untracked), "?");
    assert_eq!(get_status_symbol(&FileStatusType::Conflicted), "!");
}

#[test]
fn up_to_date_exactly_when_no_divergence() {
    let up = RemoteStatus {
        remote_name: String::from("origin"),
        branch_name: String::from("main"),
        ahead: 0,
        behind: 0,
    };
    assert!(up.is_up_to_date());
    let ahead = RemoteStatus { ahead: 2, ..up.clone() };
    assert!(!ahead.is_up_to_date());
    let behind = RemoteStatus { behind: 1, ..up.clone() };
    assert!(!behind.is_up_to_date());
}
