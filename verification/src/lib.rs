pub mod dispatcher;
pub mod repository;
pub mod status;
pub mod watcher;
pub mod text;

pub use dispatcher::{App, AppEvent, EventHandler, KeyCode, KeyInput, KeyModifier, StepAction, TabType, UiState, should_quit, should_refresh, ui_step, dispatch_action};
pub use repository::{GitRepository, GitError, Snapshot};
pub use status::{FileStatus, FileStatusType, RemoteStatus, CommitInfo, get_status_symbol};
pub use watcher::{ChangeWatcher, WatchEvent, WatchKind, is_git_related, path_relevant};
