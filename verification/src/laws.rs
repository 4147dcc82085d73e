//! The safety model that all three verbs share: append-only.
//! Push only ever adds commits, pull only ever fast-forwards, and get adds
//! no history-touching git of its own.

use vstd::prelude::*;
use crate::get::{create_args, get_next, get_start, not_found, switch_args, GetPhase, GetState};
use crate::protocol::{explained, out_of_turn, refused, CommandView, NoteView, ReplyView, StepView};
use crate::pull::{
    behind_args, fast_forward_args, fast_forward_refusal, fetch_args, pull_next,
    pull_start, pull_start_in_repo, remote_ref, PullPhase, PullState,
};
use crate::push::{
    ahead_args, announce_commit, begin_staging, stage_args, commit_args, head_args, index_clean_args,
    push_args, push_next, push_rejection, PushPhase, PushState,
};
use crate::text::{count_of, trimmed};
use crate::types::{GetResultView, PullOutcome, PullResultView, PushOutcome, PushResultView, StageMode};
use crate::util::remote_for;

verus! {

/// The git commands that a push may run: stage, check the index, commit,
/// read the new commit's id, count what to send, and push without force.
pub open spec fn push_git(a: Seq<Seq<char>>) -> bool {
    ||| a == seq!["add"@, "-A"@]
    ||| a == seq!["add"@, "-u"@]
    ||| a == index_clean_args()
    ||| (exists|m: Seq<char>| a == #[trigger] commit_args(m))
    ||| a == head_args()
    ||| (exists|h: bool, r: Seq<char>| a == #[trigger] ahead_args(h, r))
    ||| (exists|h: bool, r: Seq<char>, b: Seq<char>| a == #[trigger] push_args(h, r, b))
}

/// The git commands that a pull may run: fetch, count what to pull, and
/// merge fast-forward only.
pub open spec fn pull_git(a: Seq<Seq<char>>) -> bool {
    ||| (exists|r: Seq<char>, b: Seq<char>| a == #[trigger] fetch_args(r, b))
    ||| (exists|rr: Seq<char>| a == #[trigger] behind_args(rr))
    ||| (exists|rr: Seq<char>| a == #[trigger] fast_forward_args(rr))
}

/// The git commands that a wip verb may run; none of them rewrites
/// history, moves a branch backwards or discards work.
pub open spec fn append_only_git(a: Seq<Seq<char>>) -> bool {
    push_git(a) || pull_git(a)
}

/// The git arguments that a step asks to run, if it asks to run git.
pub open spec fn git_of<R>(st: StepView<R>) -> Option<Seq<Seq<char>>> {
    match st {
        StepView::Run(CommandView::Git(a)) => Some(a),
        StepView::Run(CommandView::GitCheck(a)) => Some(a),
        _ => None,
    }
}

/// Every git command that a push runs, in any state and on any reply, is
/// one of the push's own append-only commands.
pub proof fn law_push_append_only(s: PushState, r: ReplyView)
    ensures
        git_of(push_next(s, r).1) matches Some(a) ==> push_git(a) && append_only_git(a),
{
}

/// Every git command that a pull runs, in any state and on any reply, is a
/// fetch, a count or a fast-forward-only merge: a pull never stages,
/// commits or pushes.
pub proof fn law_pull_append_only(s: PullState, r: ReplyView)
    ensures
        git_of(pull_next(s, r).1) matches Some(a) ==> pull_git(a) && append_only_git(a),
{
}

/// Every git command that a get runs (all of them from the pull inside the
/// worktree) is append-only, and the only `wt` commands it runs are
/// `switch <branch>` and `switch --create <branch>` for the branch asked for.
pub proof fn law_get_append_only(s: GetState, r: ReplyView)
    ensures
        git_of(get_next(s, r).1) matches Some(a) ==> pull_git(a) && append_only_git(a),
        get_next(s, r).1 matches StepView::Run(CommandView::Wt(a)) ==> (a == switch_args(s.branch)
            || a == create_args(s.branch)),
{
    law_pull_append_only(pull_start_in_repo(), ReplyView::Ack);
    law_pull_append_only(s.pull, r);
}

/// `word` occurs in `msg`.
pub open spec fn mentions(msg: Seq<char>, word: Seq<char>) -> bool {
    exists|i: int| 0 <= i && i + word.len() <= msg.len() && #[trigger] msg.subrange(i, i + word.len()) == word
}

proof fn lemma_mentions(pre: Seq<char>, word: Seq<char>, post: Seq<char>)
    ensures
        mentions(pre + word + post, word),
{
    let msg = pre + word + post;
    assert(msg.subrange(pre.len() as int, pre.len() + word.len() as int) =~= word);
}

/// A push that the remote rejects stops with an error that names
/// `wt wip pull`, with git's own message as its cause.
pub proof fn law_rejected_push_names_pull(s: PushState, e: Seq<char>)
    requires
        s.phase == PushPhase::Pushing,
    ensures
        push_next(s, ReplyView::Text(Err(e))).0.phase == PushPhase::Over,
        push_next(s, ReplyView::Text(Err(e))).1 == StepView::<PushResultView>::Fail(explained(push_rejection(s.remote, s.branch), e)),
        mentions(push_rejection(s.remote, s.branch), "wt wip pull"@),
{
    lemma_mentions(
        "Push to "@ + s.remote + "/"@ + s.branch
            + " was rejected — the remote has commits you don't have. Run `"@,
        "wt wip pull"@,
        "` first."@,
    );
}

/// A pull that cannot fast-forward (diverged branch, or uncommitted changes
/// in the way) stops with an error that names `wt wip push`, with git's own
/// message as its cause.
pub proof fn law_refused_pull_names_push(s: PullState, e: Seq<char>)
    requires
        s.phase == PullPhase::Merging,
    ensures
        pull_next(s, ReplyView::Text(Err(e))).0.phase == PullPhase::Over,
        pull_next(s, ReplyView::Text(Err(e))).1 == StepView::<PullResultView>::Fail(
            explained(fast_forward_refusal(s.branch, remote_ref(s.remote, s.branch)), e),
        ),
        mentions(fast_forward_refusal(s.branch, remote_ref(s.remote, s.branch)), "wt wip push"@),
{
    let rref = remote_ref(s.remote, s.branch);
    lemma_mentions(
        "Cannot fast-forward "@ + s.branch + " to "@ + rref
            + " — the local branch has diverged (you may have unpushed commits) or has conflicting uncommitted changes. Run `"@,
        "wt wip push"@,
        "` or reconcile manually."@,
    );
}

/// A get of a branch that exists nowhere, without `--create`, stops with an
/// error that names `--create`.
pub proof fn law_unknown_branch_names_create(s: GetState)
    requires
        s.phase == GetPhase::Switching,
        !s.create,
    ensures
        get_next(s, ReplyView::Flag(Ok(false))).1 == StepView::<GetResultView>::Fail(
            refused(not_found(s.branch)),
        ),
        mentions(not_found(s.branch), "--create"@),
{
    lemma_mentions(
        "Branch `"@ + s.branch
            + "` was not found locally or on the remote. If it is new, re-run with `"@,
        "--create"@,
        "` to start it here."@,
    );
}

/// What a pull keeps true: once it merges, it has counted commits to pull;
/// when it is up to date, it counted none.
pub open spec fn pull_inv(s: PullState) -> bool {
    &&& (s.phase == PullPhase::Merging || s.phase == PullPhase::Merged) ==> s.count > 0
    &&& s.phase == PullPhase::UpToDate ==> s.count == 0
}

/// Every pull starts in a state of `pull_inv`, and every step keeps it.
pub proof fn law_pull_inv(s: PullState, r: ReplyView)
    ensures
        pull_inv(pull_start()),
        pull_inv(pull_start_in_repo()),
        pull_inv(s) ==> pull_inv(pull_next(s, r).0),
{
}

/// A pull reports `up-to-date` exactly when it pulled no commit, and
/// `fast-forwarded` exactly when it pulled some.
pub proof fn law_pull_outcome(s: PullState, r: ReplyView)
    requires
        pull_inv(s),
    ensures
        pull_next(s, r).1 matches StepView::Done(p) ==> (p.outcome == PullOutcome::UpToDate
            <==> p.commits_pulled == 0),
{
}

/// The count of commits that a reply to `rev-list --count` reads as.
pub open spec fn counted(r: ReplyView) -> Option<nat> {
    match r {
        ReplyView::Text(Ok(out)) => match count_of(trimmed(out)) {
            Ok(n) => Some(n),
            Err(_) => None,
        },
        _ => None,
    }
}

/// The fast-forward merge is asked for only right after git counted a
/// positive number of commits that the remote is ahead; with none, the pull
/// reports that it is up to date instead.
pub proof fn law_merge_only_when_behind(s: PullState, r: ReplyView)
    ensures
        (pull_next(s, r).0.phase == PullPhase::Merging && s.phase != PullPhase::Merging) ==> (
        s.phase == PullPhase::Counting && counted(r) == Some(pull_next(s, r).0.count)
            && pull_next(s, r).0.count > 0 && pull_next(s, r).1
            == StepView::<PullResultView>::Run(
            CommandView::Git(fast_forward_args(remote_ref(s.remote, s.branch))),
        )),
        (s.phase == PullPhase::Counting && counted(r) == Some(0nat)) ==> pull_next(s, r).1
            == StepView::<PullResultView>::Say(
            NoteView::PullUpToDate(remote_ref(s.remote, s.branch)),
        ),
{
}

/// A push reports `pushed` exactly when it counted commits to send.
pub proof fn law_push_outcome(s: PushState, r: ReplyView)
    ensures
        push_next(s, r).1 matches StepView::Done(p) ==> (p.outcome == PushOutcome::Pushed
            <==> p.commits_pushed > 0),
{
}

/// A clean index makes no commit: the push goes straight on to the upstream
/// with nothing committed. A dirty one is committed with the `-m` message
/// when one was given, without generating one.
pub proof fn law_commit_only_when_staged(s: PushState)
    requires
        s.phase == PushPhase::Checking,
    ensures
        push_next(s, ReplyView::Flag(Ok(true))).0.committed is None,
        push_next(s, ReplyView::Flag(Ok(true))).1 == StepView::<PushResultView>::Run(
            CommandView::Upstream(s.branch),
        ),
        s.message matches Some(m) ==> push_next(s, ReplyView::Flag(Ok(false))) == announce_commit(s, m),
        s.message is None ==> push_next(s, ReplyView::Flag(Ok(false))).1 == StepView::<PushResultView>::Run(
            CommandView::NewMessage,
        ),
{
}

/// The checkpoint commit is made only in the step after it was announced,
/// and a commit is announced only after the index was found dirty (directly,
/// or once a message was generated for it).
pub proof fn law_commit_follows_dirty_index(s: PushState, r: ReplyView)
    ensures
        (push_next(s, r).0.phase == PushPhase::Announcing && s.phase != PushPhase::Announcing) ==> (
        (s.phase == PushPhase::Checking && r == ReplyView::Flag(Ok(false))) || s.phase == PushPhase::Generating),
        (push_next(s, r).0.phase == PushPhase::Generating && s.phase != PushPhase::Generating) ==> (
        s.phase == PushPhase::Checking && r == ReplyView::Flag(Ok(false)) && s.message is None),
        (push_next(s, r).0.phase == PushPhase::Committing && s.phase != PushPhase::Committing) ==> (
        s.phase == PushPhase::Announcing && push_next(s, r).1 == StepView::<PushResultView>::Run(
            CommandView::Git(commit_args(s.commit_message)),
        )),
{
}

/// The `--stage` flag beats config: with a flag, a push reads no config and
/// stages in the flag's mode.
pub proof fn law_push_flag_beats_config(s: PushState, o: Option<Seq<char>>)
    requires
        s.phase == PushPhase::Resolving,
        s.flag is Some,
    ensures
        push_next(s, ReplyView::MaybeText(Ok(o))) == begin_staging(
            PushState { remote: remote_for(o), ..s },
            s.flag->0,
        ),
{
}

/// The only `git add` a push runs is the one of its stage mode: `add -A`
/// for `all`, `add -u` for `tracked`, and none for `none`.
pub proof fn law_stage_mode_decides_add(s: PushState, r: ReplyView, x: Seq<char>)
    ensures
        push_next(s, r).1 == StepView::<PushResultView>::Run(CommandView::Git(seq!["add"@, x]))
            ==> stage_args(push_next(s, r).0.mode) == Some(seq!["add"@, x]),
{
    reveal_strlit("add");
    reveal_strlit("rev-parse");
    let add = seq!["add"@, x];
    assert(head_args() != add) by {
        assert(head_args()[0].len() != add[0].len());
    }
    if s.phase == PushPhase::Resolving || s.phase == PushPhase::ProjectConfig
        || s.phase == PushPhase::UserConfig {
        let s1 = PushState { remote: remote_for(r->MaybeText_0->Ok_0), ..s };
        lemma_staging_add(s, add);
        lemma_staging_add(s1, add);
    }
    // The other git commands with the same length as `add` start differently;
    // the longer ones differ in length.
    assert(ahead_args(true, s.remote).len() == 3 && ahead_args(false, s.remote).len() == 5);
    assert(push_args(true, s.remote, s.branch).len() == 4 && push_args(false, s.remote, s.branch).len() == 5);
    assert(commit_args(s.commit_message).len() == 3 && index_clean_args().len() == 3);
}

proof fn lemma_staging_add(s: PushState, add: Seq<Seq<char>>)
    ensures
        forall|m: StageMode| #[trigger] begin_staging(s, m).1
            == StepView::<PushResultView>::Run(CommandView::Git(add)) ==> stage_args(
            begin_staging(s, m).0.mode,
        ) == Some(add),
{
}

/// The first push of a branch (no upstream) sets the upstream with `-u`;
/// later pushes do not.
pub proof fn law_first_push_sets_upstream(h: bool, r: Seq<char>, b: Seq<char>)
    ensures
        (push_args(h, r, b)[1] == "-u"@) <==> !h,
{
    reveal_strlit("-u");
    reveal_strlit("--end-of-options");
    if h {
        assert(push_args(h, r, b)[1].len() != "-u"@.len());
    }
}

/// What a get keeps true: it provisions (runs `wt`) only for a branch that
/// had no worktree, and creates a branch only when asked to.
pub open spec fn get_inv(s: GetState) -> bool {
    &&& (s.phase == GetPhase::Provisioning || s.phase == GetPhase::Switching
        || s.phase == GetPhase::Announcing || s.phase == GetPhase::Creating
        || s.phase == GetPhase::Reopening || s.phase == GetPhase::Locating) ==> s.created
    &&& (s.phase == GetPhase::Announcing || s.phase == GetPhase::Creating) ==> s.create
}

/// Every get starts in a state of `get_inv`, and every step keeps it.
pub proof fn law_get_inv(s: GetState, r: ReplyView, branch: Seq<char>, create: bool)
    ensures
        get_inv(get_start(branch, create)),
        get_inv(s) ==> get_inv(get_next(s, r).0),
{
}

/// A get runs `wt` only while provisioning a worktree that did not exist,
/// and runs `wt switch --create` only when `--create` was given and after
/// the plain `wt switch` (tracking) failed.
pub proof fn law_get_provisions_only_when_missing(s: GetState, r: ReplyView)
    requires
        get_inv(s),
    ensures
        get_next(s, r).1 matches StepView::Run(CommandView::Wt(_)) ==> s.created && get_next(s, r).0.created,
        get_next(s, r).1 == StepView::<GetResultView>::Run(CommandView::Wt(create_args(s.branch))) ==> s.create
            && s.phase == GetPhase::Announcing,
        (get_next(s, r).0.phase == GetPhase::Announcing && s.phase != GetPhase::Announcing) ==> (
        s.phase == GetPhase::Switching && r == ReplyView::Flag(Ok(false)) && s.create),
{
    assert(switch_args(s.branch).len() != create_args(s.branch).len());
}

/// An existing worktree is reused: the get reports it as not created and
/// opens it without provisioning.
pub proof fn law_get_reuses_worktree(s: GetState, p: Seq<char>)
    requires
        s.phase == GetPhase::Looking,
    ensures
        !get_next(s, ReplyView::MaybeText(Ok(Some(p)))).0.created,
        get_next(s, ReplyView::MaybeText(Ok(Some(p)))).0.path == p,
        get_next(s, ReplyView::MaybeText(Ok(Some(p)))).0.phase == GetPhase::Found,
{
}

/// When the pull inside the worktree finishes with `p`, the get shows where
/// the worktree is and then reports `p`'s branch, remote, outcome and count
/// unchanged, beside that worktree's path and whether it was created.
pub proof fn law_get_reports_pull_result(s: GetState, r: ReplyView, p: PullResultView)
    requires
        s.phase == GetPhase::Pulling,
        pull_next(s.pull, r).1 == StepView::<PullResultView>::Done(p),
    ensures
        get_next(s, r).1 == StepView::<GetResultView>::Say(NoteView::Ready(s.path)),
        get_next(get_next(s, r).0, ReplyView::Ack).1 == StepView::<GetResultView>::Done(
            (GetResultView {
                branch: p.branch,
                remote: p.remote,
                worktree_path: s.path,
                created: s.created,
                pull_outcome: p.outcome,
                commits_pulled: p.commits_pulled,
            }),
        ),
{
}

/// A worktree whose branch tracks nothing is not pulled: the get reports it
/// up to date with no commit pulled, for the branch checked out there and
/// the remote that the push-remote query named (`origin` without one).
pub proof fn law_get_untracked_is_up_to_date(s: GetState, o: Option<Seq<char>>)
    requires
        s.phase == GetPhase::Resolving,
    ensures
        get_next(get_next(s, ReplyView::MaybeText(Ok(o))).0, ReplyView::Ack).1
            == StepView::<GetResultView>::Done(
            (GetResultView {
                branch: s.current,
                remote: remote_for(o),
                worktree_path: s.path,
                created: s.created,
                pull_outcome: PullOutcome::UpToDate,
                commits_pulled: 0,
            }),
        ),
{
}

pub open spec fn push_rank(p: PushPhase) -> nat {
    match p {
        PushPhase::Start => 0,
        PushPhase::Opening => 1,
        PushPhase::Branching => 2,
        PushPhase::Resolving => 3,
        PushPhase::ProjectConfig => 4,
        PushPhase::UserConfig => 5,
        PushPhase::Staging => 6,
        PushPhase::Checking => 7,
        PushPhase::Generating => 8,
        PushPhase::Announcing => 9,
        PushPhase::Committing => 10,
        PushPhase::Recording => 11,
        PushPhase::Tracking => 12,
        PushPhase::Counting => 13,
        PushPhase::Sending => 14,
        PushPhase::Pushing => 15,
        PushPhase::Reporting => 16,
        PushPhase::Over => 17,
    }
}

pub open spec fn pull_rank(p: PullPhase) -> nat {
    match p {
        PullPhase::Start => 0,
        PullPhase::StartInRepo => 1,
        PullPhase::Opening => 2,
        PullPhase::Branching => 3,
        PullPhase::Resolving => 4,
        PullPhase::Announcing => 5,
        PullPhase::Fetching => 6,
        PullPhase::Counting => 7,
        PullPhase::UpToDate => 8,
        PullPhase::Merging => 9,
        PullPhase::Merged => 10,
        PullPhase::Over => 11,
    }
}

pub open spec fn get_rank(p: GetPhase) -> nat {
    match p {
        GetPhase::Start => 0,
        GetPhase::Opening => 1,
        GetPhase::Looking => 2,
        GetPhase::Found => 3,
        GetPhase::Provisioning => 4,
        GetPhase::Switching => 5,
        GetPhase::Announcing => 6,
        GetPhase::Creating => 7,
        GetPhase::Reopening => 8,
        GetPhase::Locating => 9,
        GetPhase::Entering => 10,
        GetPhase::Branching => 11,
        GetPhase::Tracking => 12,
        GetPhase::Untracked => 13,
        GetPhase::Resolving => 14,
        GetPhase::Pulling => 15,
        GetPhase::Ready => 16,
        GetPhase::Over => 17,
    }
}

/// Every push step moves strictly forward until the push is over, so a push
/// ends after at most 18 steps; once over, it stays over and asks for
/// nothing more.
pub proof fn law_push_progress(s: PushState, r: ReplyView)
    ensures
        s.phase != PushPhase::Over ==> push_rank(push_next(s, r).0.phase) > push_rank(s.phase),
        s.phase == PushPhase::Over ==> push_next(s, r).0.phase == PushPhase::Over
            && push_next(s, r).1 == StepView::<PushResultView>::Fail(out_of_turn()),
{
}

/// Every pull step moves strictly forward until the pull is over, so a pull
/// ends after at most 12 steps; once over (a refused fast-forward included),
/// it stays over and asks for nothing more.
pub proof fn law_pull_progress(s: PullState, r: ReplyView)
    ensures
        s.phase != PullPhase::Over ==> pull_rank(pull_next(s, r).0.phase) > pull_rank(s.phase),
        s.phase == PullPhase::Over ==> pull_next(s, r).0.phase == PullPhase::Over
            && pull_next(s, r).1 == StepView::<PullResultView>::Fail(out_of_turn()),
{
}

/// Every get step moves forward (its own phase, or the pull inside the
/// worktree while the phase stays `Pulling`) until the get is over; once
/// over, it stays over and asks for nothing more.
pub proof fn law_get_progress(s: GetState, r: ReplyView)
    ensures
        s.phase != GetPhase::Over ==> (get_rank(get_next(s, r).0.phase) > get_rank(s.phase) || (
        s.phase == GetPhase::Pulling && get_next(s, r).0.phase == GetPhase::Pulling && pull_rank(
            get_next(s, r).0.pull.phase,
        ) > pull_rank(s.pull.phase))),
        s.phase == GetPhase::Over ==> get_next(s, r).0.phase == GetPhase::Over
            && get_next(s, r).1 == StepView::<GetResultView>::Fail(out_of_turn()),
{
    law_pull_progress(s.pull, r);
}

} // verus!
