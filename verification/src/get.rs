//! `wt-wip get`: materialize a branch's WIP into a worktree, then pull.
//!
//! A branch pushed to from another machine may have no worktree here yet.
//! `get` finds its worktree or provisions one with worktrunk's `wt switch`
//! (tracking first; `--create` only as an opt-in fallback when there is
//! nothing to track), then runs the same fast-forward-only pull inside it.

use vstd::prelude::*;
use crate::protocol::{
    cat, error_explained, error_out_of_turn, error_passed_on, error_refused, explained,
    out_of_turn, passed_on, push_arg, refused, Command, CommandView, Note, NoteView, Reply,
    ReplyView, Step, StepView,
};
use crate::pull::{pull_next, pull_start_in_repo, PullMachine, PullState};
use crate::types::{GetResult, GetResultView, PullOutcome, PullResult, PullResultView, WipError};
use crate::util::{remote_for, resolve_remote};

verus! {

/// Where a get stands.
#[derive(Clone, Copy, Debug, PartialEq, Eq, Structural)]
pub enum GetPhase {
    /// Not started; will open the current directory's repository.
    Start,
    /// Waiting for the repository to open.
    Opening,
    /// Waiting for the branch's worktree, if it has one.
    Looking,
    /// Showing that the worktree exists.
    Found,
    /// Showing that a worktree is provisioned.
    Provisioning,
    /// Waiting for `wt switch <branch>`.
    Switching,
    /// Showing that the branch is created.
    Announcing,
    /// Waiting for `wt switch --create <branch>`.
    Creating,
    /// Waiting for a fresh handle on the current directory's repository.
    Reopening,
    /// Waiting for the provisioned worktree's path.
    Locating,
    /// Waiting for the worktree's repository to open.
    Entering,
    /// Waiting for the worktree's current branch.
    Branching,
    /// Waiting for that branch's upstream.
    Tracking,
    /// Showing that there is no upstream to pull from.
    Untracked,
    /// Waiting for the branch's push remote.
    Resolving,
    /// A pull runs inside the worktree.
    Pulling,
    /// Showing where the worktree is.
    Ready,
    /// Finished; every further reply is out of turn.
    Over,
}

/// The state of a get.
pub struct GetState {
    pub phase: GetPhase,
    /// The branch asked for.
    pub branch: Seq<char>,
    /// Whether `--create` was given.
    pub create: bool,
    /// The worktree's path, once known.
    pub path: Seq<char>,
    /// Whether this run provisioned the worktree.
    pub created: bool,
    /// The branch checked out in the worktree, once known.
    pub current: Seq<char>,
    /// The pull inside the worktree.
    pub pull: PullState,
    /// What the fast-forward step gave, once over.
    pub pulled: PullResultView,
}

/// The step machine of `wt-wip get`.
pub struct GetMachine {
    phase: GetPhase,
    branch: String,
    create: bool,
    path: String,
    created: bool,
    current: String,
    pull: PullMachine,
    pulled_branch: String,
    pulled_remote: String,
    pull_outcome: PullOutcome,
    commits_pulled: usize,
}

impl View for GetMachine {
    type V = GetState;

    closed spec fn view(&self) -> GetState {
        GetState {
            phase: self.phase,
            branch: self.branch@,
            create: self.create,
            path: self.path@,
            created: self.created,
            current: self.current@,
            pull: self.pull@,
            pulled: PullResultView {
                branch: self.pulled_branch@,
                remote: self.pulled_remote@,
                outcome: self.pull_outcome,
                commits_pulled: self.commits_pulled as nat,
            },
        }
    }
}

pub open spec fn switch_args(branch: Seq<char>) -> Seq<Seq<char>> {
    seq!["switch"@, branch]
}

pub open spec fn create_args(branch: Seq<char>) -> Seq<Seq<char>> {
    seq!["switch"@, "--create"@, branch]
}

pub open spec fn wt_unavailable() -> Seq<char> {
    "Failed to run `wt switch` — is worktrunk (`wt`) installed and on PATH?"@
}

/// The refusal for a branch that exists nowhere when `--create` was not
/// given; it names `--create`.
pub open spec fn not_found(branch: Seq<char>) -> Seq<char> {
    "Branch `"@ + branch + "` was not found locally or on the remote. If it is new, re-run with `"@
        + "--create"@ + "` to start it here."@
}

pub open spec fn create_failed(branch: Seq<char>) -> Seq<char> {
    "`wt switch --create "@ + branch + "` failed; cannot provision a worktree for `get`"@
}

pub open spec fn worktree_missing(branch: Seq<char>) -> Seq<char> {
    "`wt switch "@ + branch + "` reported success but no worktree for `"@ + branch
        + "` was found"@
}

pub open spec fn get_start(branch: Seq<char>, create: bool) -> GetState {
    GetState {
        phase: GetPhase::Start,
        branch,
        create,
        path: Seq::empty(),
        created: false,
        current: Seq::empty(),
        pull: pull_start_in_repo(),
        pulled: PullResultView {
            branch: Seq::empty(),
            remote: Seq::empty(),
            outcome: PullOutcome::UpToDate,
            commits_pulled: 0,
        },
    }
}

pub open spec fn get_over(s: GetState) -> GetState {
    GetState { phase: GetPhase::Over, ..s }
}

/// Showing where the worktree is, once the fast-forward step is over.
pub open spec fn get_ready(s: GetState, pulled: PullResultView) -> (GetState, StepView<GetResultView>) {
    (GetState { phase: GetPhase::Ready, pulled, ..s }, StepView::Say(NoteView::Ready(s.path)))
}

/// Passing on what the pull inside the worktree asks for.
pub open spec fn forward_pull(s: GetState, ps: PullState, st: StepView<PullResultView>) -> (GetState, StepView<GetResultView>) {
    match st {
        StepView::Run(c) => (GetState { phase: GetPhase::Pulling, pull: ps, ..s }, StepView::Run(c)),
        StepView::Say(n) => (GetState { phase: GetPhase::Pulling, pull: ps, ..s }, StepView::Say(n)),
        StepView::Done(p) => get_ready(GetState { pull: ps, ..s }, p),
        StepView::Fail(e) => (get_over(GetState { pull: ps, ..s }), StepView::Fail(e)),
    }
}

pub open spec fn get_result(s: GetState) -> GetResultView {
    GetResultView {
        branch: s.pulled.branch,
        remote: s.pulled.remote,
        worktree_path: s.path,
        created: s.created,
        pull_outcome: s.pulled.outcome,
        commits_pulled: s.pulled.commits_pulled,
    }
}

/// Handling what `wt switch` (first or second attempt) answered.
pub open spec fn after_switch(s: GetState, r: ReplyView, second: bool) -> (GetState, StepView<GetResultView>) {
    match r {
        ReplyView::Flag(Ok(true)) => (
            GetState { phase: GetPhase::Reopening, ..s },
            StepView::Run(CommandView::OpenCurrent),
        ),
        ReplyView::Flag(Ok(false)) => if second {
            (get_over(s), StepView::Fail(refused(create_failed(s.branch))))
        } else if s.create {
            (GetState { phase: GetPhase::Announcing, ..s }, StepView::Say(NoteView::Creating(s.branch)))
        } else {
            (get_over(s), StepView::Fail(refused(not_found(s.branch))))
        },
        ReplyView::Flag(Err(e)) => (get_over(s), StepView::Fail(explained(wt_unavailable(), e))),
        _ => (get_over(s), StepView::Fail(out_of_turn())),
    }
}

/// One step of a get: the state after `r` and what the get asks for next.
pub open spec fn get_next(s: GetState, r: ReplyView) -> (GetState, StepView<GetResultView>) {
    let fail = (get_over(s), StepView::Fail(out_of_turn()));
    match s.phase {
        GetPhase::Start => match r {
            ReplyView::Ack => (
                GetState { phase: GetPhase::Opening, ..s },
                StepView::Run(CommandView::OpenCurrent),
            ),
            _ => fail,
        },
        GetPhase::Opening => match r {
            ReplyView::Opened(Ok(())) => (
                GetState { phase: GetPhase::Looking, ..s },
                StepView::Run(CommandView::WorktreeFor(s.branch)),
            ),
            ReplyView::Opened(Err(e)) => (get_over(s), StepView::Fail(passed_on(e))),
            _ => fail,
        },
        GetPhase::Looking => match r {
            ReplyView::MaybeText(Ok(Some(p))) => (
                GetState { phase: GetPhase::Found, path: p, created: false, ..s },
                StepView::Say(NoteView::WorktreeExists(s.branch)),
            ),
            ReplyView::MaybeText(Ok(None)) => (
                GetState { phase: GetPhase::Provisioning, created: true, ..s },
                StepView::Say(NoteView::Provisioning(s.branch)),
            ),
            ReplyView::MaybeText(Err(e)) => (get_over(s), StepView::Fail(passed_on(e))),
            _ => fail,
        },
        GetPhase::Found => match r {
            ReplyView::Ack => (
                GetState { phase: GetPhase::Entering, ..s },
                StepView::Run(CommandView::OpenAt(s.path)),
            ),
            _ => fail,
        },
        GetPhase::Provisioning => match r {
            ReplyView::Ack => (
                GetState { phase: GetPhase::Switching, ..s },
                StepView::Run(CommandView::Wt(switch_args(s.branch))),
            ),
            _ => fail,
        },
        GetPhase::Switching => after_switch(s, r, false),
        GetPhase::Announcing => match r {
            ReplyView::Ack => (
                GetState { phase: GetPhase::Creating, ..s },
                StepView::Run(CommandView::Wt(create_args(s.branch))),
            ),
            _ => fail,
        },
        GetPhase::Creating => after_switch(s, r, true),
        GetPhase::Reopening => match r {
            ReplyView::Opened(Ok(())) => (
                GetState { phase: GetPhase::Locating, ..s },
                StepView::Run(CommandView::WorktreeFor(s.branch)),
            ),
            ReplyView::Opened(Err(e)) => (get_over(s), StepView::Fail(passed_on(e))),
            _ => fail,
        },
        GetPhase::Locating => match r {
            ReplyView::MaybeText(Ok(Some(p))) => (
                GetState { phase: GetPhase::Entering, path: p, ..s },
                StepView::Run(CommandView::OpenAt(p)),
            ),
            ReplyView::MaybeText(Ok(None)) => (
                get_over(s),
                StepView::Fail(refused(worktree_missing(s.branch))),
            ),
            ReplyView::MaybeText(Err(e)) => (get_over(s), StepView::Fail(passed_on(e))),
            _ => fail,
        },
        GetPhase::Entering => match r {
            ReplyView::Opened(Ok(())) => (
                GetState { phase: GetPhase::Branching, ..s },
                StepView::Run(CommandView::CurrentBranch("wip get"@)),
            ),
            ReplyView::Opened(Err(e)) => (get_over(s), StepView::Fail(passed_on(e))),
            _ => fail,
        },
        GetPhase::Branching => match r {
            ReplyView::Text(Ok(c)) => (
                GetState { phase: GetPhase::Tracking, current: c, ..s },
                StepView::Run(CommandView::Upstream(c)),
            ),
            ReplyView::Text(Err(e)) => (get_over(s), StepView::Fail(passed_on(e))),
            _ => fail,
        },
        GetPhase::Tracking => match r {
            ReplyView::MaybeText(Ok(Some(_))) => {
                let (ps, st) = pull_next(pull_start_in_repo(), ReplyView::Ack);
                forward_pull(s, ps, st)
            },
            ReplyView::MaybeText(Ok(None)) => (
                GetState { phase: GetPhase::Untracked, ..s },
                StepView::Say(NoteView::NoUpstream(s.current)),
            ),
            ReplyView::MaybeText(Err(e)) => (get_over(s), StepView::Fail(passed_on(e))),
            _ => fail,
        },
        GetPhase::Untracked => match r {
            ReplyView::Ack => (
                GetState { phase: GetPhase::Resolving, ..s },
                StepView::Run(CommandView::PushRemote(s.current)),
            ),
            _ => fail,
        },
        GetPhase::Resolving => match r {
            ReplyView::MaybeText(Ok(o)) => get_ready(
                s,
                PullResultView {
                    branch: s.current,
                    remote: remote_for(o),
                    outcome: PullOutcome::UpToDate,
                    commits_pulled: 0,
                },
            ),
            ReplyView::MaybeText(Err(e)) => (get_over(s), StepView::Fail(passed_on(e))),
            _ => fail,
        },
        GetPhase::Pulling => {
            let (ps, st) = pull_next(s.pull, r);
            forward_pull(s, ps, st)
        },
        GetPhase::Ready => match r {
            ReplyView::Ack => (get_over(s), StepView::Done(get_result(s))),
            _ => fail,
        },
        GetPhase::Over => fail,
    }
}

/// `wt-wip get`: the machine that finds or provisions the worktree for
/// `branch` (creating the branch only with `create` and only when there is
/// nothing to track), then fast-forwards it.
pub fn get(branch: &str, create: bool) -> (m: GetMachine)
    ensures
        m@ == get_start(branch@, create),
{
    GetMachine::new(String::from_str(branch), create)
}

impl GetMachine {
    /// A get of `branch`; `create` is the `--create` flag.
    pub fn new(branch: String, create: bool) -> (m: GetMachine)
        ensures
            m@ == get_start(branch@, create),
    {
        GetMachine {
            phase: GetPhase::Start,
            branch,
            create,
            path: String::new(),
            created: false,
            current: String::new(),
            pull: PullMachine::in_repo(),
            pulled_branch: String::new(),
            pulled_remote: String::new(),
            pull_outcome: PullOutcome::UpToDate,
            commits_pulled: 0,
        }
    }

    fn fail(&mut self, e: WipError) -> (st: Step<GetResult>)
        ensures
            final(self)@ == get_over(old(self)@),
            st@ == StepView::<GetResultView>::Fail(e@),
    {
        self.phase = GetPhase::Over;
        Step::Fail(e)
    }

    fn ready(&mut self, pulled: PullResult) -> (st: Step<GetResult>)
        ensures
            (final(self)@, st@) == get_ready(old(self)@, pulled@),
    {
        self.phase = GetPhase::Ready;
        self.pulled_branch = pulled.branch;
        self.pulled_remote = pulled.remote;
        self.pull_outcome = pulled.outcome;
        self.commits_pulled = pulled.commits_pulled;
        Step::Say(Note::Ready(self.path.clone()))
    }

    fn forward_pull(&mut self, st: Step<PullResult>) -> (out: Step<GetResult>)
        ensures
            (final(self)@, out@) == forward_pull(old(self)@, old(self)@.pull, st@),
    {
        match st {
            Step::Run(c) => {
                self.phase = GetPhase::Pulling;
                Step::Run(c)
            },
            Step::Say(n) => {
                self.phase = GetPhase::Pulling;
                Step::Say(n)
            },
            Step::Done(p) => self.ready(p),
            Step::Fail(e) => self.fail(e),
        }
    }

    fn after_switch(&mut self, reply: Reply, second: bool) -> (st: Step<GetResult>)
        ensures
            (final(self)@, st@) == after_switch(old(self)@, reply@, second),
    {
        match reply {
            Reply::Flag(Ok(true)) => {
                self.phase = GetPhase::Reopening;
                Step::Run(Command::OpenCurrent)
            },
            Reply::Flag(Ok(false)) => {
                if second {
                    let mut m = cat("`wt switch --create ", self.branch.as_str());
                    m.append("` failed; cannot provision a worktree for `get`");
                    self.fail(error_refused(m))
                } else if self.create {
                    self.phase = GetPhase::Announcing;
                    Step::Say(Note::Creating(self.branch.clone()))
                } else {
                    let mut m = cat("Branch `", self.branch.as_str());
                    m.append(
                        "` was not found locally or on the remote. If it is new, re-run with `",
                    );
                    m.append("--create");
                    m.append("` to start it here.");
                    self.fail(error_refused(m))
                }
            },
            Reply::Flag(Err(e)) => {
                let m = String::from_str(
                    "Failed to run `wt switch` — is worktrunk (`wt`) installed and on PATH?",
                );
                self.fail(error_explained(m, e))
            },
            _ => self.fail(error_out_of_turn()),
        }
    }

    /// Takes the driver's reply to the last step and returns the next one.
    pub fn step(&mut self, reply: Reply) -> (st: Step<GetResult>)
        ensures
            (final(self)@, st@) == get_next(old(self)@, reply@),
    {
        match self.phase {
            GetPhase::Start => match reply {
                Reply::Ack => {
                    self.phase = GetPhase::Opening;
                    Step::Run(Command::OpenCurrent)
                },
                _ => self.fail(error_out_of_turn()),
            },
            GetPhase::Opening => match reply {
                Reply::Opened(Ok(())) => {
                    self.phase = GetPhase::Looking;
                    Step::Run(Command::WorktreeFor(self.branch.clone()))
                },
                Reply::Opened(Err(e)) => self.fail(error_passed_on(e)),
                _ => self.fail(error_out_of_turn()),
            },
            GetPhase::Looking => match reply {
                Reply::MaybeText(Ok(Some(p))) => {
                    self.phase = GetPhase::Found;
                    self.path = p;
                    self.created = false;
                    Step::Say(Note::WorktreeExists(self.branch.clone()))
                },
                Reply::MaybeText(Ok(None)) => {
                    self.phase = GetPhase::Provisioning;
                    self.created = true;
                    Step::Say(Note::Provisioning(self.branch.clone()))
                },
                Reply::MaybeText(Err(e)) => self.fail(error_passed_on(e)),
                _ => self.fail(error_out_of_turn()),
            },
            GetPhase::Found => match reply {
                Reply::Ack => {
                    self.phase = GetPhase::Entering;
                    Step::Run(Command::OpenAt(self.path.clone()))
                },
                _ => self.fail(error_out_of_turn()),
            },
            GetPhase::Provisioning => match reply {
                Reply::Ack => {
                    self.phase = GetPhase::Switching;
                    let mut args: Vec<String> = Vec::new();
                    push_arg(&mut args, "switch");
                    push_arg(&mut args, self.branch.as_str());
                    assert(args.deep_view() =~= switch_args(self.branch@));
                    Step::Run(Command::Wt(args))
                },
                _ => self.fail(error_out_of_turn()),
            },
            GetPhase::Switching => self.after_switch(reply, false),
            GetPhase::Announcing => match reply {
                Reply::Ack => {
                    self.phase = GetPhase::Creating;
                    let mut args: Vec<String> = Vec::new();
                    push_arg(&mut args, "switch");
                    push_arg(&mut args, "--create");
                    push_arg(&mut args, self.branch.as_str());
                    assert(args.deep_view() =~= create_args(self.branch@));
                    Step::Run(Command::Wt(args))
                },
                _ => self.fail(error_out_of_turn()),
            },
            GetPhase::Creating => self.after_switch(reply, true),
            GetPhase::Reopening => match reply {
                Reply::Opened(Ok(())) => {
                    self.phase = GetPhase::Locating;
                    Step::Run(Command::WorktreeFor(self.branch.clone()))
                },
                Reply::Opened(Err(e)) => self.fail(error_passed_on(e)),
                _ => self.fail(error_out_of_turn()),
            },
            GetPhase::Locating => match reply {
                Reply::MaybeText(Ok(Some(p))) => {
                    self.phase = GetPhase::Entering;
                    self.path = p.clone();
                    Step::Run(Command::OpenAt(p))
                },
                Reply::MaybeText(Ok(None)) => {
                    let mut m = cat("`wt switch ", self.branch.as_str());
                    m.append("` reported success but no worktree for `");
                    m.append(self.branch.as_str());
                    m.append("` was found");
                    self.fail(error_refused(m))
                },
                Reply::MaybeText(Err(e)) => self.fail(error_passed_on(e)),
                _ => self.fail(error_out_of_turn()),
            },
            GetPhase::Entering => match reply {
                Reply::Opened(Ok(())) => {
                    self.phase = GetPhase::Branching;
                    Step::Run(Command::CurrentBranch(String::from_str("wip get")))
                },
                Reply::Opened(Err(e)) => self.fail(error_passed_on(e)),
                _ => self.fail(error_out_of_turn()),
            },
            GetPhase::Branching => match reply {
                Reply::Text(Ok(c)) => {
                    self.phase = GetPhase::Tracking;
                    self.current = c.clone();
                    Step::Run(Command::Upstream(c))
                },
                Reply::Text(Err(e)) => self.fail(error_passed_on(e)),
                _ => self.fail(error_out_of_turn()),
            },
            GetPhase::Tracking => match reply {
                Reply::MaybeText(Ok(Some(_))) => {
                    self.pull = PullMachine::in_repo();
                    let st = self.pull.step(Reply::Ack);
                    self.forward_pull(st)
                },
                Reply::MaybeText(Ok(None)) => {
                    self.phase = GetPhase::Untracked;
                    Step::Say(Note::NoUpstream(self.current.clone()))
                },
                Reply::MaybeText(Err(e)) => self.fail(error_passed_on(e)),
                _ => self.fail(error_out_of_turn()),
            },
            GetPhase::Untracked => match reply {
                Reply::Ack => {
                    self.phase = GetPhase::Resolving;
                    Step::Run(Command::PushRemote(self.current.clone()))
                },
                _ => self.fail(error_out_of_turn()),
            },
            GetPhase::Resolving => match reply {
                Reply::MaybeText(Ok(o)) => {
                    let remote = resolve_remote(o);
                    let pulled = PullResult {
                        branch: self.current.clone(),
                        remote,
                        outcome: PullOutcome::UpToDate,
                        commits_pulled: 0,
                    };
                    self.ready(pulled)
                },
                Reply::MaybeText(Err(e)) => self.fail(error_passed_on(e)),
                _ => self.fail(error_out_of_turn()),
            },
            GetPhase::Pulling => {
                let st = self.pull.step(reply);
                self.forward_pull(st)
            },
            GetPhase::Ready => match reply {
                Reply::Ack => {
                    self.phase = GetPhase::Over;
                    Step::Done(
                        GetResult {
                            branch: self.pulled_branch.clone(),
                            remote: self.pulled_remote.clone(),
                            worktree_path: self.path.clone(),
                            created: self.created,
                            pull_outcome: self.pull_outcome,
                            commits_pulled: self.commits_pulled,
                        },
                    )
                },
                _ => self.fail(error_out_of_turn()),
            },
            GetPhase::Over => self.fail(error_out_of_turn()),
        }
    }
}

} // verus!
