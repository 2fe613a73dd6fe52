use vstd::prelude::*;
use crate::repository::{GitError, GitRepository, Snapshot};

verus! {

/// The key of one terminal key press, reduced to what the dispatcher
/// reads: a character, the tab key, or anything else.
#[derive(Clone, Copy, Debug, PartialEq, Eq, Structural)]
pub enum KeyCode {
    Char(char),
    Tab,
    Other,
}

/// The modifier held during a key press: none, control, or anything else.
#[derive(Clone, Copy, Debug, PartialEq, Eq, Structural)]
pub enum KeyModifier {
    Plain,
    Control,
    Other,
}

/// One terminal key press.
#[derive(Clone, Copy, Debug, PartialEq, Eq, Structural)]
pub struct KeyInput {
    pub code: KeyCode,
    pub modifiers: KeyModifier,
}

/// One input to the dispatcher: a key press, a filesystem-change
/// notification, the periodic tick, or an explicit quit request.
#[derive(Clone, Copy, Debug, PartialEq, Eq, Structural)]
pub enum AppEvent {
    KeyPress(KeyInput),
    FileSystemChange,
    Tick,
    Quit,
}

/// The display view that is active.
#[derive(Clone, Copy, Debug, PartialEq, Eq, Structural)]
pub enum TabType {
    Status,
    Commits,
}

/// What the dispatcher decides to do on one input.
#[derive(Clone, Copy, Debug, PartialEq, Eq, Structural)]
pub enum StepAction {
    Idle,
    Refresh,
    ToggleView,
    Terminate,
}

/// The dispatcher's own state: whether it has terminated, the active
/// view, and the last recorded transient error.
#[derive(Clone, Debug)]
pub struct UiState {
    pub should_quit: bool,
    pub current_tab: TabType,
    pub last_error: Option<String>,
}

/// A quit input: the character `q` with no modifier, or control-`c`.
pub open spec fn spec_should_quit(key: KeyInput) -> bool {
    ||| (key.code == KeyCode::Char('q') && key.modifiers == KeyModifier::Plain)
    ||| (key.code == KeyCode::Char('c') && key.modifiers == KeyModifier::Control)
}

/// A refresh input: the character `r` with no modifier.
pub open spec fn spec_should_refresh(key: KeyInput) -> bool {
    key.code == KeyCode::Char('r') && key.modifiers == KeyModifier::Plain
}

pub fn should_quit(key: &KeyInput) -> (r: bool)
    ensures
        r == spec_should_quit(*key),
{
    (key.code == KeyCode::Char('q') && key.modifiers == KeyModifier::Plain) || (key.code
        == KeyCode::Char('c') && key.modifiers == KeyModifier::Control)
}

pub fn should_refresh(key: &KeyInput) -> (r: bool)
    ensures
        r == spec_should_refresh(*key),
{
    key.code == KeyCode::Char('r') && key.modifiers == KeyModifier::Plain
}

pub open spec fn spec_toggle_tab(t: TabType) -> TabType {
    match t {
        TabType::Status => TabType::Commits,
        TabType::Commits => TabType::Status,
    }
}

/// What one input makes the dispatcher do: a quit input terminates, a
/// refresh input or a relevant filesystem change recomputes the snapshot,
/// the tab key switches the view without recomputing, and a plain tick
/// changes nothing.
pub open spec fn spec_action(ev: AppEvent) -> StepAction {
    match ev {
        AppEvent::KeyPress(key) => if spec_should_quit(key) {
            StepAction::Terminate
        } else if spec_should_refresh(key) {
            StepAction::Refresh
        } else if key.code == KeyCode::Tab {
            StepAction::ToggleView
        } else {
            StepAction::Idle
        },
        AppEvent::FileSystemChange => StepAction::Refresh,
        AppEvent::Tick => StepAction::Idle,
        AppEvent::Quit => StepAction::Terminate,
    }
}

/// The dispatcher state after one input: termination latches, a toggle
/// switches the view, a refresh clears the recorded transient error.
pub open spec fn spec_ui_step(s: UiState, ev: AppEvent) -> UiState {
    let a = spec_action(ev);
    UiState {
        should_quit: s.should_quit || a == StepAction::Terminate,
        current_tab: if a == StepAction::ToggleView {
            spec_toggle_tab(s.current_tab)
        } else {
            s.current_tab
        },
        last_error: if a == StepAction::Refresh {
            None
        } else {
            s.last_error
        },
    }
}

/// Applies one input to the dispatcher state and returns the decided
/// action; the caller performs the action (renders, or recomputes the
/// snapshot) outside this state machine.
pub fn ui_step(state: &mut UiState, ev: &AppEvent) -> (a: StepAction)
    ensures
        a == spec_action(*ev),
        *final(state) == spec_ui_step(*old(state), *ev),
{
    let a = dispatch_action(ev);
    match a {
        StepAction::Idle => {},
        StepAction::Refresh => {
            state.last_error = None;
        },
        StepAction::ToggleView => {
            state.current_tab = match state.current_tab {
                TabType::Status => TabType::Commits,
                TabType::Commits => TabType::Status,
            };
        },
        StepAction::Terminate => {
            state.should_quit = true;
        },
    }
    a
}

/// Decides the action for one input without touching any state.
pub fn dispatch_action(ev: &AppEvent) -> (a: StepAction)
    ensures
        a == spec_action(*ev),
{
    match ev {
        AppEvent::KeyPress(key) => {
            if should_quit(key) {
                StepAction::Terminate
            } else if should_refresh(key) {
                StepAction::Refresh
            } else if key.code == KeyCode::Tab {
                StepAction::ToggleView
            } else {
                StepAction::Idle
            }
        },
        AppEvent::FileSystemChange => StepAction::Refresh,
        AppEvent::Tick => StepAction::Idle,
        AppEvent::Quit => StepAction::Terminate,
    }
}

/// The key press of one character with no modifier.
pub open spec fn plain_key(c: char) -> AppEvent {
    AppEvent::KeyPress(KeyInput { code: KeyCode::Char(c), modifiers: KeyModifier::Plain })
}

/// The key press of one character with control held.
pub open spec fn control_key(c: char) -> AppEvent {
    AppEvent::KeyPress(KeyInput { code: KeyCode::Char(c), modifiers: KeyModifier::Control })
}

/// Control-`c` terminates at once, whatever the prior state: after it the
/// dispatcher has quit, so no further refresh or render occurs.
pub proof fn lemma_control_c_terminates(s: UiState)
    ensures
        spec_action(control_key('c')) == StepAction::Terminate,
        spec_ui_step(s, control_key('c')).should_quit,
{
}

/// The input sequence tick, `r`, tick, `q` keeps the dispatcher running
/// through the first three inputs, decides exactly one snapshot
/// recomputation (on `r`), and terminates on `q`; once terminated, the
/// run loop's guard admits no further render.
pub proof fn lemma_tick_refresh_tick_quit(s0: UiState)
    requires
        !s0.should_quit,
    ensures
        spec_action(AppEvent::Tick) == StepAction::Idle,
        spec_action(plain_key('r')) == StepAction::Refresh,
        spec_action(plain_key('q')) == StepAction::Terminate,
        !spec_ui_step(s0, AppEvent::Tick).should_quit,
        !spec_ui_step(spec_ui_step(s0, AppEvent::Tick), plain_key('r')).should_quit,
        !spec_ui_step(
            spec_ui_step(spec_ui_step(s0, AppEvent::Tick), plain_key('r')),
            AppEvent::Tick,
        ).should_quit,
        spec_ui_step(
            spec_ui_step(spec_ui_step(spec_ui_step(s0, AppEvent::Tick), plain_key('r')), AppEvent::Tick),
            plain_key('q'),
        ).should_quit,
{
}

/// Once terminated, the dispatcher stays terminated under every further
/// input.
pub proof fn lemma_termination_latches(s: UiState, ev: AppEvent)
    requires
        s.should_quit,
    ensures
        spec_ui_step(s, ev).should_quit,
{
}

/// The application: the repository handle and the dispatcher state, as
/// the run loop outside this library drives it.
pub struct App {
    repo: GitRepository,
    should_quit: bool,
    current_tab: TabType,
    last_error: Option<String>,
}

impl App {
    /// The dispatcher-visible part of the state.
    pub closed spec fn ui(&self) -> UiState {
        UiState {
            should_quit: self.should_quit,
            current_tab: self.current_tab,
            last_error: self.last_error,
        }
    }

    pub closed spec fn repo_path(&self) -> Seq<char> {
        self.repo.spec_path()
    }

    /// Opens the repository at `repo_path` and starts the dispatcher in
    /// its initial state: running, status view active, no recorded error.
    pub fn new(repo_path: &str) -> (r: Result<App, GitError>)
        ensures
            r matches Ok(app) ==> app.repo_path() == repo_path@ && !app.ui().should_quit
                && app.ui().current_tab == TabType::Status && app.ui().last_error is None,
            r matches Err(e) ==> e == GitError::OpenFailed,
    {
        match GitRepository::open(repo_path) {
            Ok(repo) => Ok(
                App { repo, should_quit: false, current_tab: TabType::Status, last_error: None },
            ),
            Err(e) => Err(e),
        }
    }

    /// Applies one input and returns the decided action; the caller
    /// renders and, on a refresh action, recomputes the snapshot.
    pub fn step(&mut self, ev: &AppEvent) -> (a: StepAction)
        ensures
            a == spec_action(*ev),
            final(self).ui() == spec_ui_step(old(self).ui(), *ev),
            final(self).repo_path() == old(self).repo_path(),
    {
        let a = dispatch_action(ev);
        match a {
            StepAction::Idle => {},
            StepAction::Refresh => {
                self.last_error = None;
            },
            StepAction::ToggleView => {
                self.current_tab = match self.current_tab {
                    TabType::Status => TabType::Commits,
                    TabType::Commits => TabType::Status,
                };
            },
            StepAction::Terminate => {
                self.should_quit = true;
            },
        }
        a
    }

    /// Whether the dispatcher has terminated; once true, the run loop
    /// renders nothing more.
    pub fn is_terminated(&self) -> (r: bool)
        ensures
            r == self.ui().should_quit,
    {
        self.should_quit
    }

    /// The tab key toggles the active view without recomputing the
    /// snapshot; every other key here changes nothing.
    pub fn handle_key_event(&mut self, key: KeyInput) -> (r: Result<(), GitError>)
        ensures
            r is Ok,
            key.code == KeyCode::Tab ==> final(self).ui().current_tab == spec_toggle_tab(
                old(self).ui().current_tab,
            ),
            key.code != KeyCode::Tab ==> final(self).ui().current_tab == old(
                self,
            ).ui().current_tab,
            final(self).ui().should_quit == old(self).ui().should_quit,
            final(self).ui().last_error == old(self).ui().last_error,
            final(self).repo_path() == old(self).repo_path(),
    {
        if key.code == KeyCode::Tab {
            self.current_tab = match self.current_tab {
                TabType::Status => TabType::Commits,
                TabType::Commits => TabType::Status,
            };
        }
        Ok(())
    }

    /// A refresh clears the recorded transient error; the snapshot itself
    /// is recomputed through the repository handle.
    pub fn update(&mut self) -> (r: Result<(), GitError>)
        ensures
            r is Ok,
            final(self).ui().last_error is None,
            final(self).ui().should_quit == old(self).ui().should_quit,
            final(self).ui().current_tab == old(self).ui().current_tab,
            final(self).repo_path() == old(self).repo_path(),
    {
        self.last_error = None;
        Ok(())
    }

    /// One full refresh against the repository.
    pub fn refresh_snapshot(&self, commit_count: usize) -> (s: Snapshot)
        ensures
            crate::status::paths_distinct(s.staged@),
            crate::status::paths_distinct(s.unstaged@),
            s.commits@.len() <= commit_count,
    {
        self.repo.snapshot(commit_count)
    }

    pub fn repo(&self) -> (r: &GitRepository)
        ensures
            r.spec_path() == self.repo_path(),
    {
        &self.repo
    }

    pub fn current_tab(&self) -> (r: &TabType)
        ensures
            *r == self.ui().current_tab,
    {
        &self.current_tab
    }

    pub fn last_error(&self) -> (r: &Option<String>)
        ensures
            *r == self.ui().last_error,
    {
        &self.last_error
    }

    pub fn set_error(&mut self, error: String)
        ensures
            final(self).ui().last_error == Some(error),
            final(self).ui().should_quit == old(self).ui().should_quit,
            final(self).ui().current_tab == old(self).ui().current_tab,
            final(self).repo_path() == old(self).repo_path(),
    {
        self.last_error = Some(error);
    }
}

/// The timing configuration of the event source: how long one wait for
/// input may block before it yields a tick.
pub struct EventHandler {
    tick_rate_ms: u64,
}

impl EventHandler {
    pub closed spec fn spec_tick_rate_ms(&self) -> u64 {
        self.tick_rate_ms
    }

    pub fn new(tick_rate_ms: u64) -> (r: EventHandler)
        ensures
            r.spec_tick_rate_ms() == tick_rate_ms,
    {
        EventHandler { tick_rate_ms }
    }

    pub fn tick_rate_ms(&self) -> (r: u64)
        ensures
            r == self.spec_tick_rate_ms(),
    {
        self.tick_rate_ms
    }
}

} // verus!
