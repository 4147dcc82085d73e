//! Shared result types of the wip verbs and their mathematical views.

use vstd::prelude::*;

verus! {

/// What to stage before the wip checkpoint commit.
#[derive(Clone, Copy, Debug, PartialEq, Eq, Structural)]
pub enum StageMode {
    /// Stage everything: untracked files + unstaged tracked changes (default)
    All,
    /// Stage tracked changes only (like `git add -u`); `tracked` on the
    /// command line and in config
    TrackedOnly,
    /// Stage nothing; commit only what's already in the index; `none` on the
    /// command line and in config
    IndexOnly,
}

/// How a push ended.
#[derive(Clone, Copy, Debug, PartialEq, Eq, Structural)]
pub enum PushOutcome {
    Pushed,
    UpToDate,
}

/// How a pull ended.
#[derive(Clone, Copy, Debug, PartialEq, Eq, Structural)]
pub enum PullOutcome {
    FastForwarded,
    UpToDate,
}

/// The kebab-case name under which a push outcome is reported in JSON.
pub open spec fn push_outcome_name(o: PushOutcome) -> Seq<char> {
    match o {
        PushOutcome::Pushed => "pushed"@,
        PushOutcome::UpToDate => "up-to-date"@,
    }
}

/// The kebab-case name under which a pull outcome is reported in JSON.
pub open spec fn pull_outcome_name(o: PullOutcome) -> Seq<char> {
    match o {
        PullOutcome::FastForwarded => "fast-forwarded"@,
        PullOutcome::UpToDate => "up-to-date"@,
    }
}

impl PushOutcome {
    /// The name of this outcome on the wire (`--format json`).
    pub fn wire_name(&self) -> (name: &'static str)
        ensures
            name@ == push_outcome_name(*self),
    {
        match self {
            PushOutcome::Pushed => "pushed",
            PushOutcome::UpToDate => "up-to-date",
        }
    }
}

impl PullOutcome {
    /// The name of this outcome on the wire (`--format json`).
    pub fn wire_name(&self) -> (name: &'static str)
        ensures
            name@ == pull_outcome_name(*self),
    {
        match self {
            PullOutcome::FastForwarded => "fast-forwarded",
            PullOutcome::UpToDate => "up-to-date",
        }
    }
}

/// Result of `wt-wip push`.
#[derive(Debug)]
pub struct PushResult {
    pub branch: String,
    pub remote: String,
    /// `Some(sha)` if a wip commit was created this run; `None` if nothing was staged.
    pub committed: Option<String>,
    pub outcome: PushOutcome,
    /// Commits pushed to the remote (0 when already up to date).
    pub commits_pushed: usize,
}

/// Result of `wt-wip pull`.
#[derive(Debug)]
pub struct PullResult {
    pub branch: String,
    pub remote: String,
    pub outcome: PullOutcome,
    /// Commits fast-forwarded into the local branch (0 when already up to date).
    pub commits_pulled: usize,
}

/// Result of `wt-wip get`.
#[derive(Debug)]
pub struct GetResult {
    pub branch: String,
    pub remote: String,
    /// Absolute path of the worktree `get` landed on.
    pub worktree_path: String,
    /// `true` if `get` provisioned the worktree this run; `false` if it
    /// already existed.
    pub created: bool,
    /// Outcome of the fast-forward step inside the worktree.
    pub pull_outcome: PullOutcome,
    /// Commits fast-forwarded into the worktree (0 when already up to date).
    pub commits_pulled: usize,
}

/// Why a wip verb stopped: a message, and the underlying failure it
/// explains when there is one (rendered as `message: cause`).
#[derive(Debug)]
pub struct WipError {
    pub message: String,
    pub cause: Option<String>,
}

pub struct PushResultView {
    pub branch: Seq<char>,
    pub remote: Seq<char>,
    pub committed: Option<Seq<char>>,
    pub outcome: PushOutcome,
    pub commits_pushed: nat,
}

pub struct PullResultView {
    pub branch: Seq<char>,
    pub remote: Seq<char>,
    pub outcome: PullOutcome,
    pub commits_pulled: nat,
}

pub struct GetResultView {
    pub branch: Seq<char>,
    pub remote: Seq<char>,
    pub worktree_path: Seq<char>,
    pub created: bool,
    pub pull_outcome: PullOutcome,
    pub commits_pulled: nat,
}

pub struct WipErrorView {
    pub message: Seq<char>,
    pub cause: Option<Seq<char>>,
}

impl View for PushResult {
    type V = PushResultView;

    open spec fn view(&self) -> PushResultView {
        PushResultView {
            branch: self.branch@,
            remote: self.remote@,
            committed: self.committed.deep_view(),
            outcome: self.outcome,
            commits_pushed: self.commits_pushed as nat,
        }
    }
}

impl View for PullResult {
    type V = PullResultView;

    open spec fn view(&self) -> PullResultView {
        PullResultView {
            branch: self.branch@,
            remote: self.remote@,
            outcome: self.outcome,
            commits_pulled: self.commits_pulled as nat,
        }
    }
}

impl View for GetResult {
    type V = GetResultView;

    open spec fn view(&self) -> GetResultView {
        GetResultView {
            branch: self.branch@,
            remote: self.remote@,
            worktree_path: self.worktree_path@,
            created: self.created,
            pull_outcome: self.pull_outcome,
            commits_pulled: self.commits_pulled as nat,
        }
    }
}

impl View for WipError {
    type V = WipErrorView;

    open spec fn view(&self) -> WipErrorView {
        WipErrorView { message: self.message@, cause: self.cause.deep_view() }
    }
}

} // verus!
