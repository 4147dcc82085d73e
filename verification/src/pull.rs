//! `wt-wip pull`: fetch and fast-forward the current branch.
//! Fast-forward only: refuses divergence rather than rewriting anything.

use vstd::prelude::*;
use crate::protocol::{
    cat, error_explained, error_out_of_turn, error_passed_on, explained, out_of_turn, passed_on,
    push_arg, Command, CommandView, Note, NoteView, Reply, ReplyView, Step, StepView,
};
use crate::types::WipError;
use crate::text::{count_of, count_error_text, parse_count, trim, trimmed};
use crate::types::{PullOutcome, PullResult, PullResultView};
use crate::util::{remote_for, resolve_remote};

verus! {

/// Where a pull stands.
#[derive(Clone, Copy, Debug, PartialEq, Eq, Structural)]
pub enum PullPhase {
    /// Not started; will open the current directory's repository.
    Start,
    /// Not started; runs in a repository that is already open.
    StartInRepo,
    /// Waiting for the repository to open.
    Opening,
    /// Waiting for the current branch.
    Branching,
    /// Waiting for the branch's push remote.
    Resolving,
    /// Showing that the fetch starts.
    Announcing,
    /// Waiting for the fetch.
    Fetching,
    /// Waiting for the count of commits the remote is ahead.
    Counting,
    /// Showing that there is nothing to pull.
    UpToDate,
    /// Waiting for the fast-forward merge.
    Merging,
    /// Showing the fast-forward.
    Merged,
    /// Finished; every further reply is out of turn.
    Over,
}

/// The state of a pull.
pub struct PullState {
    pub phase: PullPhase,
    pub branch: Seq<char>,
    pub remote: Seq<char>,
    pub count: nat,
}

/// The step machine of `wt-wip pull`.
pub struct PullMachine {
    phase: PullPhase,
    branch: String,
    remote: String,
    count: usize,
}

impl View for PullMachine {
    type V = PullState;

    closed spec fn view(&self) -> PullState {
        PullState {
            phase: self.phase,
            branch: self.branch@,
            remote: self.remote@,
            count: self.count as nat,
        }
    }
}

/// `<remote>/<branch>`, the remote-tracking ref that is pulled from.
pub open spec fn remote_ref(remote: Seq<char>, branch: Seq<char>) -> Seq<char> {
    remote + "/"@ + branch
}

pub open spec fn fetch_args(remote: Seq<char>, branch: Seq<char>) -> Seq<Seq<char>> {
    seq!["fetch"@, remote, "--end-of-options"@, branch]
}

pub open spec fn behind_args(rref: Seq<char>) -> Seq<Seq<char>> {
    seq!["rev-list"@, "--count"@, "--end-of-options"@, "HEAD.."@ + rref]
}

pub open spec fn fast_forward_args(rref: Seq<char>) -> Seq<Seq<char>> {
    seq!["merge"@, "--ff-only"@, "--end-of-options"@, rref]
}

pub open spec fn fetch_failure(branch: Seq<char>, remote: Seq<char>) -> Seq<char> {
    "Failed to fetch "@ + branch + " from "@ + remote
}

pub open spec fn count_failure(rref: Seq<char>) -> Seq<char> {
    "Failed to count commits behind "@ + rref
}

pub open spec fn count_unreadable() -> Seq<char> {
    "Unexpected non-numeric rev-list output"@
}

/// The refusal when the branch cannot be fast-forwarded; it names
/// `wt wip push`.
pub open spec fn fast_forward_refusal(branch: Seq<char>, rref: Seq<char>) -> Seq<char> {
    "Cannot fast-forward "@ + branch + " to "@ + rref
        + " — the local branch has diverged (you may have unpushed commits) or has conflicting uncommitted changes. Run `"@
        + "wt wip push"@ + "` or reconcile manually."@
}

pub open spec fn pull_start() -> PullState {
    PullState { phase: PullPhase::Start, branch: Seq::empty(), remote: Seq::empty(), count: 0 }
}

pub open spec fn pull_start_in_repo() -> PullState {
    PullState { phase: PullPhase::StartInRepo, ..pull_start() }
}

pub open spec fn pull_over(s: PullState) -> PullState {
    PullState { phase: PullPhase::Over, ..s }
}

pub open spec fn pull_result(s: PullState, outcome: PullOutcome) -> PullResultView {
    PullResultView { branch: s.branch, remote: s.remote, outcome, commits_pulled: s.count }
}

/// One step of a pull: the state after `r` and what the pull asks for next.
pub open spec fn pull_next(s: PullState, r: ReplyView) -> (PullState, StepView<PullResultView>) {
    let fail = (pull_over(s), StepView::Fail(out_of_turn()));
    match s.phase {
        PullPhase::Start => match r {
            ReplyView::Ack => (
                PullState { phase: PullPhase::Opening, ..s },
                StepView::Run(CommandView::OpenCurrent),
            ),
            _ => fail,
        },
        PullPhase::StartInRepo => match r {
            ReplyView::Ack => (
                PullState { phase: PullPhase::Branching, ..s },
                StepView::Run(CommandView::CurrentBranch("wip pull"@)),
            ),
            _ => fail,
        },
        PullPhase::Opening => match r {
            ReplyView::Opened(Ok(())) => (
                PullState { phase: PullPhase::Branching, ..s },
                StepView::Run(CommandView::CurrentBranch("wip pull"@)),
            ),
            ReplyView::Opened(Err(e)) => (pull_over(s), StepView::Fail(passed_on(e))),
            _ => fail,
        },
        PullPhase::Branching => match r {
            ReplyView::Text(Ok(b)) => (
                PullState { phase: PullPhase::Resolving, branch: b, ..s },
                StepView::Run(CommandView::PushRemote(b)),
            ),
            ReplyView::Text(Err(e)) => (pull_over(s), StepView::Fail(passed_on(e))),
            _ => fail,
        },
        PullPhase::Resolving => match r {
            ReplyView::MaybeText(Ok(o)) => (
                PullState { phase: PullPhase::Announcing, remote: remote_for(o), ..s },
                StepView::Say(NoteView::Fetching(s.branch, remote_for(o))),
            ),
            ReplyView::MaybeText(Err(e)) => (pull_over(s), StepView::Fail(passed_on(e))),
            _ => fail,
        },
        PullPhase::Announcing => match r {
            ReplyView::Ack => (
                PullState { phase: PullPhase::Fetching, ..s },
                StepView::Run(CommandView::Git(fetch_args(s.remote, s.branch))),
            ),
            _ => fail,
        },
        PullPhase::Fetching => match r {
            ReplyView::Text(Ok(_)) => (
                PullState { phase: PullPhase::Counting, ..s },
                StepView::Run(CommandView::Git(behind_args(remote_ref(s.remote, s.branch)))),
            ),
            ReplyView::Text(Err(e)) => (
                pull_over(s),
                StepView::Fail(explained(fetch_failure(s.branch, s.remote), e)),
            ),
            _ => fail,
        },
        PullPhase::Counting => match r {
            ReplyView::Text(Ok(out)) => match count_of(trimmed(out)) {
                Ok(n) => if n == 0 {
                    (
                        PullState { phase: PullPhase::UpToDate, count: 0, ..s },
                        StepView::Say(NoteView::PullUpToDate(remote_ref(s.remote, s.branch))),
                    )
                } else {
                    (
                        PullState { phase: PullPhase::Merging, count: n, ..s },
                        StepView::Run(
                            CommandView::Git(fast_forward_args(remote_ref(s.remote, s.branch))),
                        ),
                    )
                },
                Err(k) => (
                    pull_over(s),
                    StepView::Fail(explained(count_unreadable(), count_error_text(k))),
                ),
            },
            ReplyView::Text(Err(e)) => (
                pull_over(s),
                StepView::Fail(explained(count_failure(remote_ref(s.remote, s.branch)), e)),
            ),
            _ => fail,
        },
        PullPhase::UpToDate => match r {
            ReplyView::Ack => (pull_over(s), StepView::Done(pull_result(s, PullOutcome::UpToDate))),
            _ => fail,
        },
        PullPhase::Merging => match r {
            ReplyView::Text(Ok(_)) => (
                PullState { phase: PullPhase::Merged, ..s },
                StepView::Say(
                    NoteView::FastForwarded(s.branch, remote_ref(s.remote, s.branch), s.count),
                ),
            ),
            ReplyView::Text(Err(e)) => (
                pull_over(s),
                StepView::Fail(
                    explained(fast_forward_refusal(s.branch, remote_ref(s.remote, s.branch)), e),
                ),
            ),
            _ => fail,
        },
        PullPhase::Merged => match r {
            ReplyView::Ack => (
                pull_over(s),
                StepView::Done(pull_result(s, PullOutcome::FastForwarded)),
            ),
            _ => fail,
        },
        PullPhase::Over => fail,
    }
}

/// `wt-wip pull`: the machine that fetches and fast-forwards the current
/// branch of the current directory's repository.
pub fn pull() -> (m: PullMachine)
    ensures
        m@ == pull_start(),
{
    PullMachine::new()
}

/// The same fetch and fast-forward in a repository that the driver has
/// already opened (such as a freshly provisioned worktree).
pub fn pull_in() -> (m: PullMachine)
    ensures
        m@ == pull_start_in_repo(),
{
    PullMachine::in_repo()
}

fn remote_ref_of(remote: &String, branch: &String) -> (r: String)
    ensures
        r@ == remote_ref(remote@, branch@),
{
    let mut r = cat(remote.as_str(), "/");
    r.append(branch.as_str());
    r
}

impl PullMachine {
    /// A pull of the current directory's repository.
    pub fn new() -> (m: PullMachine)
        ensures
            m@ == pull_start(),
    {
        PullMachine {
            phase: PullPhase::Start,
            branch: String::new(),
            remote: String::new(),
            count: 0,
        }
    }

    /// A pull in a repository that the driver has already opened.
    pub fn in_repo() -> (m: PullMachine)
        ensures
            m@ == pull_start_in_repo(),
    {
        PullMachine {
            phase: PullPhase::StartInRepo,
            branch: String::new(),
            remote: String::new(),
            count: 0,
        }
    }

    fn finish(&mut self, outcome: PullOutcome) -> (st: Step<PullResult>)
        ensures
            final(self)@ == pull_over(old(self)@),
            st@ == StepView::Done(pull_result(old(self)@, outcome)),
    {
        self.phase = PullPhase::Over;
        Step::Done(
            PullResult {
                branch: self.branch.clone(),
                remote: self.remote.clone(),
                outcome,
                commits_pulled: self.count,
            },
        )
    }

    fn fail(&mut self, e: WipError) -> (st: Step<PullResult>)
        ensures
            final(self)@ == pull_over(old(self)@),
            st@ == StepView::<PullResultView>::Fail(e@),
    {
        self.phase = PullPhase::Over;
        Step::Fail(e)
    }

    /// Takes the driver's reply to the last step and returns the next one.
    pub fn step(&mut self, reply: Reply) -> (st: Step<PullResult>)
        ensures
            (final(self)@, st@) == pull_next(old(self)@, reply@),
    {
        match self.phase {
            PullPhase::Start => match reply {
                Reply::Ack => {
                    self.phase = PullPhase::Opening;
                    Step::Run(Command::OpenCurrent)
                },
                _ => self.fail(error_out_of_turn()),
            },
            PullPhase::StartInRepo => match reply {
                Reply::Ack => {
                    self.phase = PullPhase::Branching;
                    Step::Run(Command::CurrentBranch(String::from_str("wip pull")))
                },
                _ => self.fail(error_out_of_turn()),
            },
            PullPhase::Opening => match reply {
                Reply::Opened(Ok(())) => {
                    self.phase = PullPhase::Branching;
                    Step::Run(Command::CurrentBranch(String::from_str("wip pull")))
                },
                Reply::Opened(Err(e)) => self.fail(error_passed_on(e)),
                _ => self.fail(error_out_of_turn()),
            },
            PullPhase::Branching => match reply {
                Reply::Text(Ok(b)) => {
                    self.phase = PullPhase::Resolving;
                    self.branch = b.clone();
                    Step::Run(Command::PushRemote(b))
                },
                Reply::Text(Err(e)) => self.fail(error_passed_on(e)),
                _ => self.fail(error_out_of_turn()),
            },
            PullPhase::Resolving => match reply {
                Reply::MaybeText(Ok(o)) => {
                    let remote = resolve_remote(o);
                    self.phase = PullPhase::Announcing;
                    self.remote = remote.clone();
                    Step::Say(Note::Fetching(self.branch.clone(), remote))
                },
                Reply::MaybeText(Err(e)) => self.fail(error_passed_on(e)),
                _ => self.fail(error_out_of_turn()),
            },
            PullPhase::Announcing => match reply {
                Reply::Ack => {
                    self.phase = PullPhase::Fetching;
                    let mut args: Vec<String> = Vec::new();
                    push_arg(&mut args, "fetch");
                    push_arg(&mut args, self.remote.as_str());
                    push_arg(&mut args, "--end-of-options");
                    push_arg(&mut args, self.branch.as_str());
                    assert(args.deep_view() =~= fetch_args(self.remote@, self.branch@));
                    Step::Run(Command::Git(args))
                },
                _ => self.fail(error_out_of_turn()),
            },
            PullPhase::Fetching => match reply {
                Reply::Text(Ok(_)) => {
                    self.phase = PullPhase::Counting;
                    let rref = remote_ref_of(&self.remote, &self.branch);
                    let mut args: Vec<String> = Vec::new();
                    push_arg(&mut args, "rev-list");
                    push_arg(&mut args, "--count");
                    push_arg(&mut args, "--end-of-options");
                    let range = cat("HEAD..", rref.as_str());
                    push_arg(&mut args, range.as_str());
                    assert(args.deep_view() =~= behind_args(rref@));
                    Step::Run(Command::Git(args))
                },
                Reply::Text(Err(e)) => {
                    let mut m = cat("Failed to fetch ", self.branch.as_str());
                    m.append(" from ");
                    m.append(self.remote.as_str());
                    self.fail(error_explained(m, e))
                },
                _ => self.fail(error_out_of_turn()),
            },
            PullPhase::Counting => match reply {
                Reply::Text(Ok(out)) => {
                    let t = trim(out.as_str());
                    match parse_count(t.as_str()) {
                        Ok(n) => {
                            let rref = remote_ref_of(&self.remote, &self.branch);
                            if n == 0 {
                                self.phase = PullPhase::UpToDate;
                                self.count = 0;
                                Step::Say(Note::PullUpToDate(rref))
                            } else {
                                self.phase = PullPhase::Merging;
                                self.count = n;
                                let mut args: Vec<String> = Vec::new();
                                push_arg(&mut args, "merge");
                                push_arg(&mut args, "--ff-only");
                                push_arg(&mut args, "--end-of-options");
                                push_arg(&mut args, rref.as_str());
                                assert(args.deep_view() =~= fast_forward_args(rref@));
                                Step::Run(Command::Git(args))
                            }
                        },
                        Err(k) => {
                            let m = String::from_str("Unexpected non-numeric rev-list output");
                            self.fail(error_explained(m, k.describe()))
                        },
                    }
                },
                Reply::Text(Err(e)) => {
                    let rref = remote_ref_of(&self.remote, &self.branch);
                    let m = cat("Failed to count commits behind ", rref.as_str());
                    self.fail(error_explained(m, e))
                },
                _ => self.fail(error_out_of_turn()),
            },
            PullPhase::UpToDate => match reply {
                Reply::Ack => self.finish(PullOutcome::UpToDate),
                _ => self.fail(error_out_of_turn()),
            },
            PullPhase::Merging => match reply {
                Reply::Text(Ok(_)) => {
                    self.phase = PullPhase::Merged;
                    let rref = remote_ref_of(&self.remote, &self.branch);
                    Step::Say(Note::FastForwarded(self.branch.clone(), rref, self.count))
                },
                Reply::Text(Err(e)) => {
                    let rref = remote_ref_of(&self.remote, &self.branch);
                    let mut m = cat("Cannot fast-forward ", self.branch.as_str());
                    m.append(" to ");
                    m.append(rref.as_str());
                    m.append(
                        " — the local branch has diverged (you may have unpushed commits) or has conflicting uncommitted changes. Run `",
                    );
                    m.append("wt wip push");
                    m.append("` or reconcile manually.");
                    self.fail(error_explained(m, e))
                },
                _ => self.fail(error_out_of_turn()),
            },
            PullPhase::Merged => match reply {
                Reply::Ack => self.finish(PullOutcome::FastForwarded),
                _ => self.fail(error_out_of_turn()),
            },
            PullPhase::Over => self.fail(error_out_of_turn()),
        }
    }
}

} // verus!
