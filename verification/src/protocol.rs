//! The conversation between a wip step machine and the program that drives
//! it: the machine asks for outside work (`Command`) or for a line to be
//! shown (`Note`), the driver answers with a `Reply`, and at the end the
//! machine hands back a result or a `WipError`.

use vstd::prelude::*;
use crate::types::WipError;
use crate::types::WipErrorView;

verus! {

/// Outside work a machine asks its driver to do, each with the reply it
/// expects.
pub enum Command {
    /// Open the repository of the process's directory; `Reply::Opened`.
    OpenCurrent,
    /// Open the repository rooted at this worktree path; `Reply::Opened`.
    OpenAt(String),
    /// The name of the checked-out branch; the text says what needs one;
    /// `Reply::Text`, an error where HEAD is detached.
    CurrentBranch(String),
    /// The remote this branch pushes to, where git resolves one;
    /// `Reply::MaybeText`.
    PushRemote(String),
    /// The upstream of this branch, if it has one; `Reply::MaybeText`.
    Upstream(String),
    /// The text of the project config file, if there is one;
    /// `Reply::MaybeText`.
    ProjectConfig,
    /// The text of the user config file, if there is one; `Reply::MaybeText`.
    UserConfig,
    /// A freshly generated wip commit message; `Reply::Text`.
    NewMessage,
    /// Run git with these arguments; `Reply::Text` with its standard output.
    Git(Vec<String>),
    /// Run git with these arguments; `Reply::Flag`, whether it exited 0.
    GitCheck(Vec<String>),
    /// The path of the worktree that has this branch checked out;
    /// `Reply::MaybeText`.
    WorktreeFor(String),
    /// Run worktrunk's `wt` with these arguments; `Reply::Flag`, whether it
    /// exited 0, an error where it could not be started.
    Wt(Vec<String>),
}

/// A line the driver shows the user (on stderr).
pub enum Note {
    /// "Committing wip checkpoint..."
    Committing,
    /// Pushing branch (first) to remote (second).
    Pushing(String, String),
    /// Pushed branch (first) to remote (second).
    Pushed(String, String),
    /// Already up to date with remote (first) / branch (second).
    PushUpToDate(String, String),
    /// Fetching branch (first) from remote (second).
    Fetching(String, String),
    /// Already up to date with this remote ref.
    PullUpToDate(String),
    /// Fast-forwarded branch to remote ref, with the number of commits.
    FastForwarded(String, String, usize),
    /// The worktree for this branch already exists.
    WorktreeExists(String),
    /// Provisioning a worktree for this branch via `wt switch`.
    Provisioning(String),
    /// This branch was not found to track; creating it.
    Creating(String),
    /// This branch has no upstream; nothing to fast-forward.
    NoUpstream(String),
    /// Ready at this worktree path.
    Ready(String),
}

/// The driver's answer to the machine's last step. `Ack` starts a machine
/// and answers every `Say`; errors carry the failure's full text.
pub enum Reply {
    Ack,
    Opened(Result<(), String>),
    Text(Result<String, String>),
    MaybeText(Result<Option<String>, String>),
    Flag(Result<bool, String>),
}

/// What a machine asks for next.
pub enum Step<R> {
    Run(Command),
    Say(Note),
    Done(R),
    Fail(WipError),
}

pub enum CommandView {
    OpenCurrent,
    OpenAt(Seq<char>),
    CurrentBranch(Seq<char>),
    PushRemote(Seq<char>),
    Upstream(Seq<char>),
    ProjectConfig,
    UserConfig,
    NewMessage,
    Git(Seq<Seq<char>>),
    GitCheck(Seq<Seq<char>>),
    WorktreeFor(Seq<char>),
    Wt(Seq<Seq<char>>),
}

pub enum NoteView {
    Committing,
    Pushing(Seq<char>, Seq<char>),
    Pushed(Seq<char>, Seq<char>),
    PushUpToDate(Seq<char>, Seq<char>),
    Fetching(Seq<char>, Seq<char>),
    PullUpToDate(Seq<char>),
    FastForwarded(Seq<char>, Seq<char>, nat),
    WorktreeExists(Seq<char>),
    Provisioning(Seq<char>),
    Creating(Seq<char>),
    NoUpstream(Seq<char>),
    Ready(Seq<char>),
}

pub enum ReplyView {
    Ack,
    Opened(Result<(), Seq<char>>),
    Text(Result<Seq<char>, Seq<char>>),
    MaybeText(Result<Option<Seq<char>>, Seq<char>>),
    Flag(Result<bool, Seq<char>>),
}

pub enum StepView<R> {
    Run(CommandView),
    Say(NoteView),
    Done(R),
    Fail(WipErrorView),
}

impl View for Command {
    type V = CommandView;

    open spec fn view(&self) -> CommandView {
        match self {
            Command::OpenCurrent => CommandView::OpenCurrent,
            Command::OpenAt(p) => CommandView::OpenAt(p@),
            Command::CurrentBranch(w) => CommandView::CurrentBranch(w@),
            Command::PushRemote(b) => CommandView::PushRemote(b@),
            Command::Upstream(b) => CommandView::Upstream(b@),
            Command::ProjectConfig => CommandView::ProjectConfig,
            Command::UserConfig => CommandView::UserConfig,
            Command::NewMessage => CommandView::NewMessage,
            Command::Git(a) => CommandView::Git(a.deep_view()),
            Command::GitCheck(a) => CommandView::GitCheck(a.deep_view()),
            Command::WorktreeFor(b) => CommandView::WorktreeFor(b@),
            Command::Wt(a) => CommandView::Wt(a.deep_view()),
        }
    }
}

impl View for Note {
    type V = NoteView;

    open spec fn view(&self) -> NoteView {
        match self {
            Note::Committing => NoteView::Committing,
            Note::Pushing(b, r) => NoteView::Pushing(b@, r@),
            Note::Pushed(b, r) => NoteView::Pushed(b@, r@),
            Note::PushUpToDate(r, b) => NoteView::PushUpToDate(r@, b@),
            Note::Fetching(b, r) => NoteView::Fetching(b@, r@),
            Note::PullUpToDate(r) => NoteView::PullUpToDate(r@),
            Note::FastForwarded(b, r, n) => NoteView::FastForwarded(b@, r@, *n as nat),
            Note::WorktreeExists(b) => NoteView::WorktreeExists(b@),
            Note::Provisioning(b) => NoteView::Provisioning(b@),
            Note::Creating(b) => NoteView::Creating(b@),
            Note::NoUpstream(b) => NoteView::NoUpstream(b@),
            Note::Ready(p) => NoteView::Ready(p@),
        }
    }
}

impl View for Reply {
    type V = ReplyView;

    open spec fn view(&self) -> ReplyView {
        match self {
            Reply::Ack => ReplyView::Ack,
            Reply::Opened(r) => ReplyView::Opened(
                match r {
                    Ok(()) => Ok(()),
                    Err(e) => Err(e@),
                },
            ),
            Reply::Text(r) => ReplyView::Text(
                match r {
                    Ok(t) => Ok(t@),
                    Err(e) => Err(e@),
                },
            ),
            Reply::MaybeText(r) => ReplyView::MaybeText(
                match r {
                    Ok(t) => Ok(t.deep_view()),
                    Err(e) => Err(e@),
                },
            ),
            Reply::Flag(r) => ReplyView::Flag(
                match r {
                    Ok(b) => Ok(*b),
                    Err(e) => Err(e@),
                },
            ),
        }
    }
}

impl<R: View> View for Step<R> {
    type V = StepView<R::V>;

    open spec fn view(&self) -> StepView<R::V> {
        match self {
            Step::Run(c) => StepView::Run(c@),
            Step::Say(n) => StepView::Say(n@),
            Step::Done(r) => StepView::Done(r@),
            Step::Fail(e) => StepView::Fail(e@),
        }
    }
}

/// A failure passed on as it came, with no explanation added.
pub open spec fn passed_on(e: Seq<char>) -> WipErrorView {
    WipErrorView { message: e, cause: None }
}

/// A failure explained by `message`.
pub open spec fn explained(message: Seq<char>, e: Seq<char>) -> WipErrorView {
    WipErrorView { message, cause: Some(e) }
}

/// A refusal of the verb itself, with no underlying failure.
pub open spec fn refused(message: Seq<char>) -> WipErrorView {
    WipErrorView { message, cause: None }
}

/// What a machine answers to a reply it did not ask for, or to any reply
/// once it has finished.
pub open spec fn out_of_turn() -> WipErrorView {
    refused("wip step machine: reply out of turn"@)
}

pub fn error_passed_on(e: String) -> (r: WipError)
    ensures
        r@ == passed_on(e@),
{
    WipError { message: e, cause: None }
}

pub fn error_explained(message: String, e: String) -> (r: WipError)
    ensures
        r@ == explained(message@, e@),
{
    WipError { message, cause: Some(e) }
}

pub fn error_refused(message: String) -> (r: WipError)
    ensures
        r@ == refused(message@),
{
    WipError { message, cause: None }
}

pub fn error_out_of_turn() -> (r: WipError)
    ensures
        r@ == out_of_turn(),
{
    WipError { message: String::from_str("wip step machine: reply out of turn"), cause: None }
}

/// Appends one argument to an argument list.
pub fn push_arg(args: &mut Vec<String>, a: &str)
    ensures
        final(args).deep_view() == old(args).deep_view().push(a@),
{
    args.push(String::from_str(a));
    assert(args.deep_view() =~= old(args).deep_view().push(a@));
}

/// The concatenation of `a` and `b`.
pub fn cat(a: &str, b: &str) -> (r: String)
    ensures
        r@ == a@ + b@,
{
    let mut r = String::from_str(a);
    r.append(b);
    r
}

} // verus!
