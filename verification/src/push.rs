//! `wt-wip push`: stage, wip-commit, and push. Append-only: never
//! rewrites history, never overwrites remote commits.

use vstd::prelude::*;
use crate::config::{config_stage, config_stage_mode, effective_stage, resolve_stage_mode};
use crate::protocol::{
    cat, error_explained, error_out_of_turn, error_passed_on, explained, out_of_turn, passed_on,
    push_arg, Command, CommandView, Note, NoteView, Reply, ReplyView, Step, StepView,
};
use crate::text::{count_of, parse_count, trim, trimmed};
use crate::types::{PushOutcome, PushResult, PushResultView, StageMode, WipError};
use crate::util::{remote_for, resolve_remote};

verus! {

/// Where a push stands.
#[derive(Clone, Copy, Debug, PartialEq, Eq, Structural)]
pub enum PushPhase {
    /// Not started; will open the current directory's repository.
    Start,
    /// Waiting for the repository to open.
    Opening,
    /// Waiting for the current branch.
    Branching,
    /// Waiting for the branch's push remote.
    Resolving,
    /// Waiting for the project config.
    ProjectConfig,
    /// Waiting for the user config.
    UserConfig,
    /// Waiting for `git add`.
    Staging,
    /// Waiting for whether the index is clean.
    Checking,
    /// Waiting for a generated commit message.
    Generating,
    /// Showing that the commit starts.
    Announcing,
    /// Waiting for the commit.
    Committing,
    /// Waiting for the new commit's id.
    Recording,
    /// Waiting for the branch's upstream.
    Tracking,
    /// Waiting for the count of commits to send.
    Counting,
    /// Showing that the push starts.
    Sending,
    /// Waiting for the push.
    Pushing,
    /// Showing how the push ended.
    Reporting,
    /// Finished; every further reply is out of turn.
    Over,
}

/// The state of a push.
pub struct PushState {
    pub phase: PushPhase,
    /// The `--stage` flag.
    pub flag: Option<StageMode>,
    /// The `-m` message.
    pub message: Option<Seq<char>>,
    pub branch: Seq<char>,
    pub remote: Seq<char>,
    /// The stage mode in force, once resolved.
    pub mode: StageMode,
    /// The message of the checkpoint commit, once known.
    pub commit_message: Seq<char>,
    /// The id of the checkpoint commit, once made.
    pub committed: Option<Seq<char>>,
    pub has_upstream: bool,
    /// Commits the push sends, once counted.
    pub pushed: nat,
}

/// The step machine of `wt-wip push`.
pub struct PushMachine {
    phase: PushPhase,
    flag: Option<StageMode>,
    message: Option<String>,
    branch: String,
    remote: String,
    mode: StageMode,
    commit_message: String,
    committed: Option<String>,
    has_upstream: bool,
    pushed: usize,
}

impl View for PushMachine {
    type V = PushState;

    closed spec fn view(&self) -> PushState {
        PushState {
            phase: self.phase,
            flag: self.flag,
            message: self.message.deep_view(),
            branch: self.branch@,
            remote: self.remote@,
            mode: self.mode,
            commit_message: self.commit_message@,
            committed: self.committed.deep_view(),
            has_upstream: self.has_upstream,
            pushed: self.pushed as nat,
        }
    }
}

/// The `git add` a stage mode runs, if any.
pub open spec fn stage_args(mode: StageMode) -> Option<Seq<Seq<char>>> {
    match mode {
        StageMode::All => Some(seq!["add"@, "-A"@]),
        StageMode::TrackedOnly => Some(seq!["add"@, "-u"@]),
        StageMode::IndexOnly => None,
    }
}

pub open spec fn stage_failure(mode: StageMode) -> Seq<char> {
    match mode {
        StageMode::TrackedOnly => "Failed to stage tracked changes"@,
        _ => "Failed to stage changes"@,
    }
}

/// `diff --cached --quiet` exits 0 exactly when nothing is staged.
pub open spec fn index_clean_args() -> Seq<Seq<char>> {
    seq!["diff"@, "--cached"@, "--quiet"@]
}

pub open spec fn commit_args(message: Seq<char>) -> Seq<Seq<char>> {
    seq!["commit"@, "-m"@, message]
}

pub open spec fn head_args() -> Seq<Seq<char>> {
    seq!["rev-parse"@, "HEAD"@]
}

/// The commits to send: those ahead of the upstream, or on a first push
/// those that no ref of the remote reaches.
pub open spec fn ahead_args(has_upstream: bool, remote: Seq<char>) -> Seq<Seq<char>> {
    if has_upstream {
        seq!["rev-list"@, "--count"@, "@{upstream}..HEAD"@]
    } else {
        seq!["rev-list"@, "--count"@, "HEAD"@, "--not"@, "--remotes="@ + remote]
    }
}

/// The push itself; it sets the upstream (`-u`) on the first push.
pub open spec fn push_args(has_upstream: bool, remote: Seq<char>, branch: Seq<char>) -> Seq<Seq<char>> {
    if has_upstream {
        seq!["push"@, "--end-of-options"@, remote, branch]
    } else {
        seq!["push"@, "-u"@, "--end-of-options"@, remote, branch]
    }
}

/// The count that a push reports: what `rev-list --count` printed, and where
/// that cannot be read, 0 with an upstream, else whether a checkpoint was made.
pub open spec fn pushed_count(
    has_upstream: bool,
    committed: Option<Seq<char>>,
    out: Result<Seq<char>, Seq<char>>,
) -> nat {
    let fallback: nat = if has_upstream {
        0
    } else if committed is Some {
        1
    } else {
        0
    };
    match out {
        Ok(t) => match count_of(trimmed(t)) {
            Ok(n) => n,
            Err(_) => fallback,
        },
        Err(_) => fallback,
    }
}

/// The refusal when the remote rejects the push; it names `wt wip pull`.
pub open spec fn push_rejection(remote: Seq<char>, branch: Seq<char>) -> Seq<char> {
    "Push to "@ + remote + "/"@ + branch
        + " was rejected — the remote has commits you don't have. Run `"@ + "wt wip pull"@
        + "` first."@
}

pub open spec fn push_outcome_of(pushed: nat) -> PushOutcome {
    if pushed > 0 {
        PushOutcome::Pushed
    } else {
        PushOutcome::UpToDate
    }
}

pub open spec fn push_start(flag: Option<StageMode>, message: Option<Seq<char>>) -> PushState {
    PushState {
        phase: PushPhase::Start,
        flag,
        message,
        branch: Seq::empty(),
        remote: Seq::empty(),
        mode: StageMode::All,
        commit_message: Seq::empty(),
        committed: None,
        has_upstream: false,
        pushed: 0,
    }
}

pub open spec fn push_over(s: PushState) -> PushState {
    PushState { phase: PushPhase::Over, ..s }
}

/// Staging begins once the mode is known.
pub open spec fn begin_staging(s: PushState, mode: StageMode) -> (PushState, StepView<PushResultView>) {
    match stage_args(mode) {
        Some(a) => (
            PushState { phase: PushPhase::Staging, mode, ..s },
            StepView::Run(CommandView::Git(a)),
        ),
        None => (
            PushState { phase: PushPhase::Checking, mode, ..s },
            StepView::Run(CommandView::GitCheck(index_clean_args())),
        ),
    }
}

/// The stage mode that a config reply sets; a missing or unreadable file
/// sets none.
pub open spec fn config_reply_stage(r: ReplyView) -> Option<StageMode> {
    match r {
        ReplyView::MaybeText(Ok(Some(t))) => config_stage(t),
        _ => None,
    }
}

/// Showing the commit, once its message is known.
pub open spec fn announce_commit(s: PushState, message: Seq<char>) -> (PushState, StepView<PushResultView>) {
    (
        PushState { phase: PushPhase::Announcing, commit_message: message, ..s },
        StepView::Say(NoteView::Committing),
    )
}

/// Asking for the upstream, once the checkpoint (if any) is made.
pub open spec fn ask_upstream(s: PushState, committed: Option<Seq<char>>) -> (PushState, StepView<PushResultView>) {
    (
        PushState { phase: PushPhase::Tracking, committed, ..s },
        StepView::Run(CommandView::Upstream(s.branch)),
    )
}

pub open spec fn push_report(s: PushState) -> NoteView {
    if s.pushed > 0 {
        NoteView::Pushed(s.branch, s.remote)
    } else {
        NoteView::PushUpToDate(s.remote, s.branch)
    }
}

pub open spec fn push_result(s: PushState) -> PushResultView {
    PushResultView {
        branch: s.branch,
        remote: s.remote,
        committed: s.committed,
        outcome: push_outcome_of(s.pushed),
        commits_pushed: s.pushed,
    }
}

/// One step of a push: the state after `r` and what the push asks for next.
pub open spec fn push_next(s: PushState, r: ReplyView) -> (PushState, StepView<PushResultView>) {
    let fail = (push_over(s), StepView::Fail(out_of_turn()));
    match s.phase {
        PushPhase::Start => match r {
            ReplyView::Ack => (
                PushState { phase: PushPhase::Opening, ..s },
                StepView::Run(CommandView::OpenCurrent),
            ),
            _ => fail,
        },
        PushPhase::Opening => match r {
            ReplyView::Opened(Ok(())) => (
                PushState { phase: PushPhase::Branching, ..s },
                StepView::Run(CommandView::CurrentBranch("wip push"@)),
            ),
            ReplyView::Opened(Err(e)) => (push_over(s), StepView::Fail(passed_on(e))),
            _ => fail,
        },
        PushPhase::Branching => match r {
            ReplyView::Text(Ok(b)) => (
                PushState { phase: PushPhase::Resolving, branch: b, ..s },
                StepView::Run(CommandView::PushRemote(b)),
            ),
            ReplyView::Text(Err(e)) => (push_over(s), StepView::Fail(passed_on(e))),
            _ => fail,
        },
        PushPhase::Resolving => match r {
            ReplyView::MaybeText(Ok(o)) => {
                let s1 = PushState { remote: remote_for(o), ..s };
                match s.flag {
                    Some(m) => begin_staging(s1, m),
                    None => (
                        PushState { phase: PushPhase::ProjectConfig, ..s1 },
                        StepView::Run(CommandView::ProjectConfig),
                    ),
                }
            },
            ReplyView::MaybeText(Err(e)) => (push_over(s), StepView::Fail(passed_on(e))),
            _ => fail,
        },
        PushPhase::ProjectConfig => match r {
            ReplyView::MaybeText(_) => match config_reply_stage(r) {
                Some(m) => begin_staging(s, m),
                None => (
                    PushState { phase: PushPhase::UserConfig, ..s },
                    StepView::Run(CommandView::UserConfig),
                ),
            },
            _ => fail,
        },
        PushPhase::UserConfig => match r {
            ReplyView::MaybeText(_) => begin_staging(
                s,
                effective_stage(None, None, config_reply_stage(r)),
            ),
            _ => fail,
        },
        PushPhase::Staging => match r {
            ReplyView::Text(Ok(_)) => (
                PushState { phase: PushPhase::Checking, ..s },
                StepView::Run(CommandView::GitCheck(index_clean_args())),
            ),
            ReplyView::Text(Err(e)) => (
                push_over(s),
                StepView::Fail(explained(stage_failure(s.mode), e)),
            ),
            _ => fail,
        },
        PushPhase::Checking => match r {
            ReplyView::Flag(Ok(clean)) => if clean {
                ask_upstream(s, None)
            } else {
                match s.message {
                    Some(m) => announce_commit(s, m),
                    None => (
                        PushState { phase: PushPhase::Generating, ..s },
                        StepView::Run(CommandView::NewMessage),
                    ),
                }
            },
            ReplyView::Flag(Err(e)) => (push_over(s), StepView::Fail(passed_on(e))),
            _ => fail,
        },
        PushPhase::Generating => match r {
            ReplyView::Text(Ok(m)) => announce_commit(s, m),
            ReplyView::Text(Err(e)) => (push_over(s), StepView::Fail(passed_on(e))),
            _ => fail,
        },
        PushPhase::Announcing => match r {
            ReplyView::Ack => (
                PushState { phase: PushPhase::Committing, ..s },
                StepView::Run(CommandView::Git(commit_args(s.commit_message))),
            ),
            _ => fail,
        },
        PushPhase::Committing => match r {
            ReplyView::Text(Ok(_)) => (
                PushState { phase: PushPhase::Recording, ..s },
                StepView::Run(CommandView::Git(head_args())),
            ),
            ReplyView::Text(Err(e)) => (
                push_over(s),
                StepView::Fail(explained("Failed to create wip commit"@, e)),
            ),
            _ => fail,
        },
        PushPhase::Recording => match r {
            ReplyView::Text(Ok(out)) => ask_upstream(s, Some(trimmed(out))),
            ReplyView::Text(Err(e)) => (push_over(s), StepView::Fail(passed_on(e))),
            _ => fail,
        },
        PushPhase::Tracking => match r {
            ReplyView::MaybeText(Ok(u)) => (
                PushState { phase: PushPhase::Counting, has_upstream: u is Some, ..s },
                StepView::Run(CommandView::Git(ahead_args(u is Some, s.remote))),
            ),
            ReplyView::MaybeText(Err(e)) => (push_over(s), StepView::Fail(passed_on(e))),
            _ => fail,
        },
        PushPhase::Counting => match r {
            ReplyView::Text(out) => (
                PushState {
                    phase: PushPhase::Sending,
                    pushed: pushed_count(s.has_upstream, s.committed, out),
                    ..s
                },
                StepView::Say(NoteView::Pushing(s.branch, s.remote)),
            ),
            _ => fail,
        },
        PushPhase::Sending => match r {
            ReplyView::Ack => (
                PushState { phase: PushPhase::Pushing, ..s },
                StepView::Run(CommandView::Git(push_args(s.has_upstream, s.remote, s.branch))),
            ),
            _ => fail,
        },
        PushPhase::Pushing => match r {
            ReplyView::Text(Ok(_)) => (
                PushState { phase: PushPhase::Reporting, ..s },
                StepView::Say(push_report(s)),
            ),
            ReplyView::Text(Err(e)) => (
                push_over(s),
                StepView::Fail(explained(push_rejection(s.remote, s.branch), e)),
            ),
            _ => fail,
        },
        PushPhase::Reporting => match r {
            ReplyView::Ack => (push_over(s), StepView::Done(push_result(s))),
            _ => fail,
        },
        PushPhase::Over => fail,
    }
}

impl PushMachine {
    /// A push of the current branch; `stage` is the `--stage` flag and
    /// `message` the `-m` message.
    pub fn new(stage: Option<StageMode>, message: Option<String>) -> (m: PushMachine)
        ensures
            m@ == push_start(stage, message.deep_view()),
    {
        PushMachine {
            phase: PushPhase::Start,
            flag: stage,
            message,
            branch: String::new(),
            remote: String::new(),
            mode: StageMode::All,
            commit_message: String::new(),
            committed: None,
            has_upstream: false,
            pushed: 0,
        }
    }

    fn fail(&mut self, e: WipError) -> (st: Step<PushResult>)
        ensures
            final(self)@ == push_over(old(self)@),
            st@ == StepView::<PushResultView>::Fail(e@),
    {
        self.phase = PushPhase::Over;
        Step::Fail(e)
    }

    fn begin_staging(&mut self, mode: StageMode) -> (st: Step<PushResult>)
        ensures
            (final(self)@, st@) == begin_staging(old(self)@, mode),
    {
        self.mode = mode;
        let mut args: Vec<String> = Vec::new();
        match mode {
            StageMode::All => {
                self.phase = PushPhase::Staging;
                push_arg(&mut args, "add");
                push_arg(&mut args, "-A");
                assert(args.deep_view() =~= stage_args(mode)->0);
                Step::Run(Command::Git(args))
            },
            StageMode::TrackedOnly => {
                self.phase = PushPhase::Staging;
                push_arg(&mut args, "add");
                push_arg(&mut args, "-u");
                assert(args.deep_view() =~= stage_args(mode)->0);
                Step::Run(Command::Git(args))
            },
            StageMode::IndexOnly => {
                self.phase = PushPhase::Checking;
                Step::Run(Command::GitCheck(index_clean_command()))
            },
        }
    }

    fn announce_commit(&mut self, message: String) -> (st: Step<PushResult>)
        ensures
            (final(self)@, st@) == announce_commit(old(self)@, message@),
    {
        self.phase = PushPhase::Announcing;
        self.commit_message = message;
        Step::Say(Note::Committing)
    }

    fn ask_upstream(&mut self, committed: Option<String>) -> (st: Step<PushResult>)
        ensures
            (final(self)@, st@) == ask_upstream(old(self)@, committed.deep_view()),
    {
        self.phase = PushPhase::Tracking;
        self.committed = committed;
        Step::Run(Command::Upstream(self.branch.clone()))
    }

    /// Takes the driver's reply to the last step and returns the next one.
    pub fn step(&mut self, reply: Reply) -> (st: Step<PushResult>)
        ensures
            (final(self)@, st@) == push_next(old(self)@, reply@),
    {
        match self.phase {
            PushPhase::Start => match reply {
                Reply::Ack => {
                    self.phase = PushPhase::Opening;
                    Step::Run(Command::OpenCurrent)
                },
                _ => self.fail(error_out_of_turn()),
            },
            PushPhase::Opening => match reply {
                Reply::Opened(Ok(())) => {
                    self.phase = PushPhase::Branching;
                    Step::Run(Command::CurrentBranch(String::from_str("wip push")))
                },
                Reply::Opened(Err(e)) => self.fail(error_passed_on(e)),
                _ => self.fail(error_out_of_turn()),
            },
            PushPhase::Branching => match reply {
                Reply::Text(Ok(b)) => {
                    self.phase = PushPhase::Resolving;
                    self.branch = b.clone();
                    Step::Run(Command::PushRemote(b))
                },
                Reply::Text(Err(e)) => self.fail(error_passed_on(e)),
                _ => self.fail(error_out_of_turn()),
            },
            PushPhase::Resolving => match reply {
                Reply::MaybeText(Ok(o)) => {
                    self.remote = resolve_remote(o);
                    match self.flag {
                        Some(m) => self.begin_staging(m),
                        None => {
                            self.phase = PushPhase::ProjectConfig;
                            Step::Run(Command::ProjectConfig)
                        },
                    }
                },
                Reply::MaybeText(Err(e)) => self.fail(error_passed_on(e)),
                _ => self.fail(error_out_of_turn()),
            },
            PushPhase::ProjectConfig => match reply {
                Reply::MaybeText(r) => {
                    let ghost rv = Reply::MaybeText(r)@;
                    let set = config_reply_mode(r);
                    assert(set == config_reply_stage(rv));
                    match set {
                        Some(m) => self.begin_staging(m),
                        None => {
                            self.phase = PushPhase::UserConfig;
                            Step::Run(Command::UserConfig)
                        },
                    }
                },
                _ => self.fail(error_out_of_turn()),
            },
            PushPhase::UserConfig => match reply {
                Reply::MaybeText(r) => {
                    let ghost rv = Reply::MaybeText(r)@;
                    let set = config_reply_mode(r);
                    assert(set == config_reply_stage(rv));
                    let mode = resolve_stage_mode(None, None, set);
                    self.begin_staging(mode)
                },
                _ => self.fail(error_out_of_turn()),
            },
            PushPhase::Staging => match reply {
                Reply::Text(Ok(_)) => {
                    self.phase = PushPhase::Checking;
                    Step::Run(Command::GitCheck(index_clean_command()))
                },
                Reply::Text(Err(e)) => {
                    let m = match self.mode {
                        StageMode::TrackedOnly => String::from_str(
                            "Failed to stage tracked changes",
                        ),
                        _ => String::from_str("Failed to stage changes"),
                    };
                    self.fail(error_explained(m, e))
                },
                _ => self.fail(error_out_of_turn()),
            },
            PushPhase::Checking => match reply {
                Reply::Flag(Ok(clean)) => {
                    if clean {
                        self.ask_upstream(None)
                    } else {
                        match &self.message {
                            Some(m) => {
                                let m = m.clone();
                                self.announce_commit(m)
                            },
                            None => {
                                self.phase = PushPhase::Generating;
                                Step::Run(Command::NewMessage)
                            },
                        }
                    }
                },
                Reply::Flag(Err(e)) => self.fail(error_passed_on(e)),
                _ => self.fail(error_out_of_turn()),
            },
            PushPhase::Generating => match reply {
                Reply::Text(Ok(m)) => self.announce_commit(m),
                Reply::Text(Err(e)) => self.fail(error_passed_on(e)),
                _ => self.fail(error_out_of_turn()),
            },
            PushPhase::Announcing => match reply {
                Reply::Ack => {
                    self.phase = PushPhase::Committing;
                    let mut args: Vec<String> = Vec::new();
                    push_arg(&mut args, "commit");
                    push_arg(&mut args, "-m");
                    push_arg(&mut args, self.commit_message.as_str());
                    assert(args.deep_view() =~= commit_args(self.commit_message@));
                    Step::Run(Command::Git(args))
                },
                _ => self.fail(error_out_of_turn()),
            },
            PushPhase::Committing => match reply {
                Reply::Text(Ok(_)) => {
                    self.phase = PushPhase::Recording;
                    let mut args: Vec<String> = Vec::new();
                    push_arg(&mut args, "rev-parse");
                    push_arg(&mut args, "HEAD");
                    assert(args.deep_view() =~= head_args());
                    Step::Run(Command::Git(args))
                },
                Reply::Text(Err(e)) => {
                    let m = String::from_str("Failed to create wip commit");
                    self.fail(error_explained(m, e))
                },
                _ => self.fail(error_out_of_turn()),
            },
            PushPhase::Recording => match reply {
                Reply::Text(Ok(out)) => {
                    let sha = trim(out.as_str());
                    self.ask_upstream(Some(sha))
                },
                Reply::Text(Err(e)) => self.fail(error_passed_on(e)),
                _ => self.fail(error_out_of_turn()),
            },
            PushPhase::Tracking => match reply {
                Reply::MaybeText(Ok(u)) => {
                    let has_upstream = u.is_some();
                    self.phase = PushPhase::Counting;
                    self.has_upstream = has_upstream;
                    let mut args: Vec<String> = Vec::new();
                    push_arg(&mut args, "rev-list");
                    push_arg(&mut args, "--count");
                    if has_upstream {
                        push_arg(&mut args, "@{upstream}..HEAD");
                    } else {
                        push_arg(&mut args, "HEAD");
                        push_arg(&mut args, "--not");
                        let exclude = cat("--remotes=", self.remote.as_str());
                        push_arg(&mut args, exclude.as_str());
                    }
                    assert(args.deep_view() =~= ahead_args(has_upstream, self.remote@));
                    Step::Run(Command::Git(args))
                },
                Reply::MaybeText(Err(e)) => self.fail(error_passed_on(e)),
                _ => self.fail(error_out_of_turn()),
            },
            PushPhase::Counting => match reply {
                Reply::Text(out) => {
                    let ghost outv = match &out {
                        Ok(t) => Ok::<Seq<char>, Seq<char>>(t@),
                        Err(e) => Err(e@),
                    };
                    let fallback: usize = if self.has_upstream {
                        0
                    } else if self.committed.is_some() {
                        1
                    } else {
                        0
                    };
                    let n = match out {
                        Ok(t) => {
                            let t = trim(t.as_str());
                            match parse_count(t.as_str()) {
                                Ok(n) => n,
                                Err(_) => fallback,
                            }
                        },
                        Err(_) => fallback,
                    };
                    assert(n == pushed_count(self.has_upstream, self.committed.deep_view(), outv));
                    self.phase = PushPhase::Sending;
                    self.pushed = n;
                    Step::Say(Note::Pushing(self.branch.clone(), self.remote.clone()))
                },
                _ => self.fail(error_out_of_turn()),
            },
            PushPhase::Sending => match reply {
                Reply::Ack => {
                    self.phase = PushPhase::Pushing;
                    let mut args: Vec<String> = Vec::new();
                    push_arg(&mut args, "push");
                    if !self.has_upstream {
                        push_arg(&mut args, "-u");
                    }
                    push_arg(&mut args, "--end-of-options");
                    push_arg(&mut args, self.remote.as_str());
                    push_arg(&mut args, self.branch.as_str());
                    assert(args.deep_view() =~= push_args(
                        self.has_upstream,
                        self.remote@,
                        self.branch@,
                    ));
                    Step::Run(Command::Git(args))
                },
                _ => self.fail(error_out_of_turn()),
            },
            PushPhase::Pushing => match reply {
                Reply::Text(Ok(_)) => {
                    self.phase = PushPhase::Reporting;
                    if self.pushed > 0 {
                        Step::Say(Note::Pushed(self.branch.clone(), self.remote.clone()))
                    } else {
                        Step::Say(Note::PushUpToDate(self.remote.clone(), self.branch.clone()))
                    }
                },
                Reply::Text(Err(e)) => {
                    let mut m = cat("Push to ", self.remote.as_str());
                    m.append("/");
                    m.append(self.branch.as_str());
                    m.append(" was rejected — the remote has commits you don't have. Run `");
                    m.append("wt wip pull");
                    m.append("` first.");
                    self.fail(error_explained(m, e))
                },
                _ => self.fail(error_out_of_turn()),
            },
            PushPhase::Reporting => match reply {
                Reply::Ack => {
                    self.phase = PushPhase::Over;
                    let outcome = if self.pushed > 0 {
                        PushOutcome::Pushed
                    } else {
                        PushOutcome::UpToDate
                    };
                    Step::Done(
                        PushResult {
                            branch: self.branch.clone(),
                            remote: self.remote.clone(),
                            committed: self.committed.clone(),
                            outcome,
                            commits_pushed: self.pushed,
                        },
                    )
                },
                _ => self.fail(error_out_of_turn()),
            },
            PushPhase::Over => self.fail(error_out_of_turn()),
        }
    }
}

/// `wt-wip push`: the machine that stages per the resolved stage mode,
/// makes a wip checkpoint commit when something is staged (with `message`,
/// else a generated one), and pushes, setting the upstream on a first push.
pub fn push(stage: Option<StageMode>, message: Option<String>) -> (m: PushMachine)
    ensures
        m@ == push_start(stage, message.deep_view()),
{
    PushMachine::new(stage, message)
}

fn index_clean_command() -> (args: Vec<String>)
    ensures
        args.deep_view() == index_clean_args(),
{
    let mut args: Vec<String> = Vec::new();
    push_arg(&mut args, "diff");
    push_arg(&mut args, "--cached");
    push_arg(&mut args, "--quiet");
    assert(args.deep_view() =~= index_clean_args());
    args
}

/// The stage mode that a config file's reply sets.
fn config_reply_mode(r: Result<Option<String>, String>) -> (m: Option<StageMode>)
    ensures
        m == config_reply_stage(Reply::MaybeText(r)@),
{
    match r {
        Ok(Some(t)) => config_stage_mode(t.as_str()),
        _ => None,
    }
}

} // verus!
