//! Laws about whole runs: what a machine did over every sequence of replies
//! its driver can give, from the start.

use vstd::prelude::*;
use crate::laws::counted;
use crate::protocol::{CommandView, ReplyView, StepView};
use crate::pull::{
    behind_args, fast_forward_args, fetch_args, pull_next, pull_start, pull_start_in_repo,
    remote_ref, PullPhase, PullState,
};
use crate::get::{create_args, get_next, get_start, switch_args, GetPhase, GetState};
use crate::config::config_stage;
use crate::laws::{get_inv, law_get_inv};
use crate::push::{head_args, push_args, push_next, PushPhase, PushState};
use crate::text::trimmed;
use crate::types::{PushOutcome, PushResultView, StageMode};
use crate::types::{GetResultView, PullOutcome, PullResultView};

verus! {

/// One step of a pull: the same as `pull_next`, kept opaque so that the
/// whole-run proof below goes through the step facts of `lemma_pull_step`.
#[verifier::opaque]
pub open spec fn pull_step(s: PullState, r: ReplyView) -> (PullState, StepView<PullResultView>) {
    pull_next(s, r)
}

/// The state of a pull after the replies `rs`, from `s`.
pub open spec fn pull_after(s: PullState, rs: Seq<ReplyView>) -> PullState
    decreases rs.len(),
{
    if rs.len() == 0 {
        s
    } else {
        pull_step(pull_after(s, rs.drop_last()), rs.last()).0
    }
}

/// The step with which a pull, from `s`, answers reply `k` of `rs`.
pub open spec fn pull_step_at(s: PullState, rs: Seq<ReplyView>, k: int) -> StepView<PullResultView> {
    pull_step(pull_after(s, rs.take(k)), rs[k]).1
}

pub open spec fn pull_git_step(a: Seq<Seq<char>>) -> StepView<PullResultView> {
    StepView::Run(CommandView::Git(a))
}

pub open spec fn late_pull(p: PullPhase) -> bool {
    p == PullPhase::Merging || p == PullPhase::Merged || p == PullPhase::Over
}

/// The remote that a reply to the push-remote query names for syncing: the
/// push remote git resolved, or `origin` when there is none.
pub open spec fn reply_remote(r: ReplyView) -> Option<Seq<char>> {
    match r {
        ReplyView::MaybeText(Ok(Some(x))) => Some(x),
        ReplyView::MaybeText(Ok(None)) => Some("origin"@),
        _ => None,
    }
}

/// The index of the reply that names the current branch in a pull run.
pub open spec fn branch_reply_index(s0: PullState) -> int {
    if s0 == pull_start() {
        2
    } else {
        1
    }
}

pub open spec fn mid_pull(p: PullPhase) -> bool {
    p == PullPhase::Announcing || p == PullPhase::Fetching || p == PullPhase::Counting || p
        == PullPhase::UpToDate || p == PullPhase::Merging || p == PullPhase::Merged
}

/// What one pull step does that whole runs depend on.
proof fn lemma_pull_step(sp: PullState, r: ReplyView)
    ensures
        ({
            let (s, st) = pull_step(sp, r);
            let same = s.remote == sp.remote && s.branch == sp.branch;
            let rref = remote_ref(sp.remote, sp.branch);
            &&& s.phase == PullPhase::Fetching ==> sp.phase == PullPhase::Announcing && same
                && st == pull_git_step(fetch_args(sp.remote, sp.branch))
            &&& s.phase == PullPhase::Counting ==> sp.phase == PullPhase::Fetching && same
                && st == pull_git_step(behind_args(rref))
            &&& s.phase == PullPhase::UpToDate ==> sp.phase == PullPhase::Counting && same
                && counted(r) == Some(0nat) && s.count == 0
            &&& s.phase == PullPhase::Merging ==> sp.phase == PullPhase::Counting && same
                && counted(r) == Some(s.count) && s.count > 0 && st == pull_git_step(
                fast_forward_args(rref),
            )
            &&& s.phase == PullPhase::Merged ==> sp.phase == PullPhase::Merging && same && s.count
                == sp.count && r is Text && r->Text_0 is Ok
            &&& is_merge(st) ==> s.phase == PullPhase::Merging
            &&& late_pull(sp.phase) ==> late_pull(s.phase)
            &&& s.phase != PullPhase::Start && s.phase != PullPhase::StartInRepo
            &&& s.phase == PullPhase::Opening ==> sp.phase == PullPhase::Start
            &&& s.phase == PullPhase::Branching ==> (sp.phase == PullPhase::Opening || sp.phase
                == PullPhase::StartInRepo) && st == StepView::<PullResultView>::Run(
                CommandView::CurrentBranch("wip pull"@),
            )
            &&& s.phase == PullPhase::Resolving ==> sp.phase == PullPhase::Branching && r
                == ReplyView::Text(Ok(s.branch))
            &&& s.phase == PullPhase::Announcing ==> sp.phase == PullPhase::Resolving && s.branch
                == sp.branch && reply_remote(r) == Some(s.remote)
            &&& st matches StepView::Done(p) ==> ((sp.phase == PullPhase::UpToDate && p.outcome
                == PullOutcome::UpToDate) || (sp.phase == PullPhase::Merged && p.outcome
                == PullOutcome::FastForwarded)) && p.branch == sp.branch && p.remote == sp.remote
                && p.commits_pulled == sp.count
        }),
{
    reveal(pull_step);
    lemma_merge_enters_merging(sp, r);
}

/// A step that runs a merge.
pub open spec fn is_merge<R>(st: StepView<R>) -> bool {
    st matches StepView::Run(CommandView::Git(a)) && a.len() > 0 && a[0] == "merge"@
}

proof fn lemma_pull_after_take(s: PullState, rs: Seq<ReplyView>, k: int)
    requires
        0 <= k < rs.len(),
    ensures
        pull_after(s, rs.take(k + 1)) == pull_step(pull_after(s, rs.take(k)), rs[k]).0,
{
    assert(rs.take(k + 1).drop_last() =~= rs.take(k));
}

/// A pull runs a merge only as it starts merging.
proof fn lemma_merge_enters_merging(s: PullState, r: ReplyView)
    ensures
        is_merge(pull_next(s, r).1) ==> pull_next(s, r).0.phase == PullPhase::Merging,
{
    reveal_strlit("merge");
    reveal_strlit("fetch");
    reveal_strlit("rev-list");
    assert("merge"@[0] != "fetch"@[0]);
    assert("merge"@.len() != "rev-list"@.len());
}

/// What a run of a pull from a start state has done by reply `k`.
pub open spec fn pull_history(s0: PullState, rs: Seq<ReplyView>, k: int) -> bool {
    let s = pull_after(s0, rs.take(k));
    let t = |j: int| pull_step_at(s0, rs, j);
    let fetch = StepView::<PullResultView>::Run(CommandView::Git(fetch_args(s.remote, s.branch)));
    let behind = StepView::<PullResultView>::Run(CommandView::Git(behind_args(remote_ref(s.remote, s.branch))));
    let merge = StepView::<PullResultView>::Run(CommandView::Git(fast_forward_args(remote_ref(s.remote, s.branch))));
    &&& (s.phase == PullPhase::Start || s.phase == PullPhase::StartInRepo) ==> k == 0
    &&& s.phase == PullPhase::Opening ==> k == 1 && s0 == pull_start()
    &&& s.phase == PullPhase::Branching ==> k == branch_reply_index(s0) && t(k - 1)
        == StepView::<PullResultView>::Run(CommandView::CurrentBranch("wip pull"@))
    &&& s.phase == PullPhase::Resolving ==> k == branch_reply_index(s0) + 1 && rs[k - 1]
        == ReplyView::Text(Ok(s.branch))
    &&& mid_pull(s.phase) ==> k >= branch_reply_index(s0) + 2 && rs[branch_reply_index(s0)]
        == ReplyView::Text(Ok(s.branch)) && reply_remote(rs[branch_reply_index(s0) + 1])
        == Some(s.remote)
    &&& s.phase == PullPhase::Fetching ==> k >= 1 && t(k - 1) == fetch
    &&& s.phase == PullPhase::Counting ==> k >= 2 && t(k - 2) == fetch && t(k - 1) == behind
    &&& s.phase == PullPhase::UpToDate ==> k >= 3 && t(k - 3) == fetch && t(k - 2) == behind
        && counted(rs[k - 1]) == Some(0nat) && s.count == 0
    &&& s.phase == PullPhase::Merging ==> k >= 3 && t(k - 3) == fetch && t(k - 2) == behind
        && counted(rs[k - 1]) == Some(s.count) && s.count > 0 && t(k - 1) == merge
    &&& s.phase == PullPhase::Merged ==> k >= 4 && t(k - 4) == fetch && t(k - 3) == behind
        && counted(rs[k - 2]) == Some(s.count) && s.count > 0 && t(k - 2) == merge
        && rs[k - 1] is Text && rs[k - 1]->Text_0 is Ok
    &&& forall|j: int| 0 <= j < k && #[trigger] is_merge(pull_step_at(s0, rs, j)) ==> (
        s.phase == PullPhase::Merging || s.phase == PullPhase::Merged || s.phase == PullPhase::Over)
}

proof fn lemma_pull_history(s0: PullState, rs: Seq<ReplyView>, k: int)
    requires
        s0 == pull_start() || s0 == pull_start_in_repo(),
        0 <= k <= rs.len(),
    ensures
        pull_history(s0, rs, k),
    decreases k,
{
    if k > 0 {
        lemma_pull_history(s0, rs, k - 1);
        lemma_pull_after_take(s0, rs, k - 1);
        let sp = pull_after(s0, rs.take(k - 1));
        lemma_pull_step(sp, rs[k - 1]);
        let s = pull_after(s0, rs.take(k));
        assert(s == pull_step(sp, rs[k - 1]).0);
        assert(pull_step_at(s0, rs, k - 1) == pull_step(sp, rs[k - 1]).1);
        assert forall|j: int| 0 <= j < k && #[trigger] is_merge(pull_step_at(s0, rs, j)) implies (
        s.phase == PullPhase::Merging || s.phase == PullPhase::Merged || s.phase == PullPhase::Over) by {
            if j < k - 1 {
            }
        }
    } else {
        assert(rs.take(0) =~= Seq::<ReplyView>::empty());
    }
}

/// A whole pull, from either start, over any replies: when it finishes with
/// a result, that result is for the branch the current-branch query named
/// and for the remote the push-remote query named (or `origin` without
/// one); it fetched that branch from that remote; it counts what git counted
/// behind `<remote>/<branch>`; it is `up-to-date` exactly when that count is
/// 0, and then no merge was ever run; it is `fast-forwarded` only after the
/// fast-forward-only merge of `<remote>/<branch>` was run and succeeded.
pub proof fn law_pull_run(s0: PullState, rs: Seq<ReplyView>, k: int)
    requires
        s0 == pull_start() || s0 == pull_start_in_repo(),
        0 <= k < rs.len(),
    ensures
        pull_step_at(s0, rs, k) matches StepView::Done(p) ==> {
            let bi = branch_reply_index(s0);
            let rref = p.remote + "/"@ + p.branch;
            let fetch = StepView::<PullResultView>::Run(
                CommandView::Git(seq!["fetch"@, p.remote, "--end-of-options"@, p.branch]),
            );
            let behind = StepView::<PullResultView>::Run(
                CommandView::Git(seq!["rev-list"@, "--count"@, "--end-of-options"@, "HEAD.."@ + rref]),
            );
            let merge = StepView::<PullResultView>::Run(
                CommandView::Git(seq!["merge"@, "--ff-only"@, "--end-of-options"@, rref]),
            );
            &&& rs[bi] == ReplyView::Text(Ok(p.branch))
            &&& rs[bi + 1] matches ReplyView::MaybeText(Ok(o)) && (o matches Some(x) ==> p.remote == x)
                && (o is None ==> p.remote == "origin"@)
            &&& (p.outcome == PullOutcome::UpToDate <==> p.commits_pulled == 0)
            &&& p.outcome == PullOutcome::UpToDate ==> {
                &&& k >= 3
                &&& pull_step_at(s0, rs, k - 3) == fetch
                &&& pull_step_at(s0, rs, k - 2) == behind
                &&& counted(rs[k - 1]) == Some(0nat)
                &&& forall|j: int| 0 <= j < k ==> !#[trigger] is_merge(pull_step_at(s0, rs, j))
            }
            &&& p.outcome == PullOutcome::FastForwarded ==> {
                &&& k >= 4
                &&& pull_step_at(s0, rs, k - 4) == fetch
                &&& pull_step_at(s0, rs, k - 3) == behind
                &&& counted(rs[k - 2]) == Some(p.commits_pulled)
                &&& pull_step_at(s0, rs, k - 2) == merge
                &&& rs[k - 1] is Text && rs[k - 1]->Text_0 is Ok
            }
        },
{
    lemma_pull_history(s0, rs, k);
    lemma_pull_step(pull_after(s0, rs.take(k)), rs[k]);
}

/// One step of a get: the same as `get_next`, kept opaque so that the
/// whole-run proof below goes through the step facts of `lemma_get_step`.
#[verifier::opaque]
pub open spec fn get_step(s: GetState, r: ReplyView) -> (GetState, StepView<GetResultView>) {
    get_next(s, r)
}

/// The state of a get after the replies `rs`, from `s`.
pub open spec fn get_after(s: GetState, rs: Seq<ReplyView>) -> GetState
    decreases rs.len(),
{
    if rs.len() == 0 {
        s
    } else {
        get_step(get_after(s, rs.drop_last()), rs.last()).0
    }
}

/// The step with which a get, from `s`, answers reply `k` of `rs`.
pub open spec fn get_step_at(s: GetState, rs: Seq<ReplyView>, k: int) -> StepView<GetResultView> {
    get_step(get_after(s, rs.take(k)), rs[k]).1
}

/// A step that runs `wt`.
pub open spec fn is_wt<R>(st: StepView<R>) -> bool {
    st matches StepView::Run(CommandView::Wt(_))
}

/// No step before step `j` ran `wt`.
pub open spec fn no_wt_before(s0: GetState, rs: Seq<ReplyView>, j: int) -> bool {
    forall|i: int| 0 <= i < j ==> !#[trigger] is_wt(get_step_at(s0, rs, i))
}

/// Step `j` runs `wt` in the order that provisioning allows: first
/// `switch <branch>` (tracking), and `switch --create <branch>` only with
/// `--create`, right after the plain switch reported failure.
pub open spec fn wt_in_order(s0: GetState, rs: Seq<ReplyView>, j: int) -> bool {
    let b = s0.branch;
    ||| (get_step_at(s0, rs, j) == StepView::<GetResultView>::Run(CommandView::Wt(switch_args(b)))
        && no_wt_before(s0, rs, j))
    ||| (get_step_at(s0, rs, j) == StepView::<GetResultView>::Run(CommandView::Wt(create_args(b)))
        && s0.create && j >= 2 && get_step_at(s0, rs, j - 2) == StepView::<GetResultView>::Run(
        CommandView::Wt(switch_args(b)),
    ) && rs[j - 1] == ReplyView::Flag(Ok(false)) && no_wt_before(s0, rs, j - 2))
}

pub open spec fn get_early(p: GetPhase) -> bool {
    p == GetPhase::Start || p == GetPhase::Opening || p == GetPhase::Looking
}

proof fn lemma_get_after_take(s: GetState, rs: Seq<ReplyView>, k: int)
    requires
        0 <= k < rs.len(),
    ensures
        get_after(s, rs.take(k + 1)) == get_step(get_after(s, rs.take(k)), rs[k]).0,
{
    assert(rs.take(k + 1).drop_last() =~= rs.take(k));
}

/// What one get step does that whole runs depend on.
proof fn lemma_get_step(sp: GetState, r: ReplyView)
    ensures
        get_step(sp, r).0.branch == sp.branch && get_step(sp, r).0.create == sp.create,
        get_inv(sp) ==> get_inv(get_step(sp, r).0),
        get_step(sp, r).0.phase != GetPhase::Start,
        get_step(sp, r).0.phase == GetPhase::Opening ==> sp.phase == GetPhase::Start,
        get_step(sp, r).0.phase == GetPhase::Looking ==> sp.phase == GetPhase::Opening && get_step(sp, r).1 == StepView::<GetResultView>::Run(CommandView::WorktreeFor(sp.branch)),
        get_step(sp, r).0.created != sp.created ==> sp.phase == GetPhase::Looking && (get_step(sp, r).0.created <==> r == ReplyView::MaybeText(Ok(None))),
        (get_inv(sp) && !get_early(get_step(sp, r).0.phase) && get_step(sp, r).0.phase != GetPhase::Over) ==> ((!get_early(sp.phase) && sp.phase != GetPhase::Over && (!get_step(sp, r).0.created ==> get_step(sp, r).0.path == sp.path)) || (sp.phase == GetPhase::Looking && (r == ReplyView::MaybeText(Ok(None)) || r == ReplyView::MaybeText(Ok(Some(get_step(sp, r).0.path)))))),
        is_wt(get_step(sp, r).1) ==> ((sp.phase == GetPhase::Provisioning && get_step(sp, r).1 == StepView::<GetResultView>::Run(CommandView::Wt(switch_args(sp.branch))) && get_step(sp, r).0.phase == GetPhase::Switching) || (sp.phase == GetPhase::Announcing && get_step(sp, r).1 == StepView::<GetResultView>::Run(CommandView::Wt(create_args(sp.branch))) && get_step(sp, r).0.phase == GetPhase::Creating)),
        get_step(sp, r).0.phase == GetPhase::Provisioning ==> sp.phase == GetPhase::Looking && !is_wt(get_step(sp, r).1),
        get_step(sp, r).0.phase == GetPhase::Switching ==> sp.phase == GetPhase::Provisioning && get_step(sp, r).1 == StepView::<GetResultView>::Run(CommandView::Wt(switch_args(sp.branch))),
        sp.phase == GetPhase::Looking && r == ReplyView::MaybeText(Ok(None)) ==> get_step(sp, r).0.created,
        sp.phase == GetPhase::Looking && r is MaybeText && r->MaybeText_0 is Ok && r->MaybeText_0->Ok_0 is Some ==> !get_step(sp, r).0.created && get_step(sp, r).0.path == r->MaybeText_0->Ok_0->Some_0,
        get_step(sp, r).0.phase == GetPhase::Announcing ==> sp.phase == GetPhase::Switching && r == ReplyView::Flag(Ok(false)) && !is_wt(get_step(sp, r).1),
        get_step(sp, r).1 matches StepView::Done(g) ==> sp.phase == GetPhase::Ready && g.created == sp.created && g.worktree_path == sp.path,
        sp.pull.phase != PullPhase::Start ==> get_step(sp, r).0.pull.phase != PullPhase::Start,
        get_step(sp, r).0.phase == GetPhase::Found ==> sp.phase == GetPhase::Looking,
        sp.phase == GetPhase::Locating && get_step(sp, r).0.phase == GetPhase::Entering ==> get_step(sp, r).1
            == StepView::<GetResultView>::Run(CommandView::OpenAt(get_step(sp, r).0.path)),
        sp.phase != GetPhase::Looking && sp.phase != GetPhase::Locating ==> get_step(sp, r).0.path
            == sp.path,
        sp.phase == GetPhase::Found && get_step(sp, r).0.phase != GetPhase::Over ==> get_step(sp, r).1
            == StepView::<GetResultView>::Run(CommandView::OpenAt(sp.path)) && get_step(sp, r).0.path
            == sp.path,
        get_step(sp, r).0.phase == GetPhase::Entering ==> sp.phase == GetPhase::Found || sp.phase == GetPhase::Locating,
        get_step(sp, r).0.phase == GetPhase::Branching ==> sp.phase == GetPhase::Entering && get_step(sp, r).1 == StepView::<GetResultView>::Run(CommandView::CurrentBranch("wip get"@)),
        get_step(sp, r).0.phase == GetPhase::Tracking ==> sp.phase == GetPhase::Branching && r == ReplyView::Text(Ok(get_step(sp, r).0.current)),
        sp.phase != GetPhase::Branching ==> get_step(sp, r).0.current == sp.current,
        (get_step(sp, r).0.phase == GetPhase::Untracked || get_step(sp, r).0.phase == GetPhase::Resolving) ==> (sp.phase == GetPhase::Tracking || sp.phase == GetPhase::Untracked),
        get_step(sp, r).0.phase == GetPhase::Pulling ==> (sp.phase == GetPhase::Tracking && get_step(sp, r).0.pull.phase == PullPhase::Branching && get_step(sp, r).1 == StepView::<GetResultView>::Run(CommandView::CurrentBranch("wip pull"@))) || (sp.phase == GetPhase::Pulling && (get_step(sp, r).0.pull.phase == PullPhase::Resolving ==> sp.pull.phase == PullPhase::Branching && r == ReplyView::Text(Ok(get_step(sp, r).0.pull.branch))) && (sp.pull.phase != PullPhase::Branching ==> get_step(sp, r).0.pull.branch == sp.pull.branch) && (pull_past_branch(get_step(sp, r).0.pull.phase) ==> pull_past_branch(sp.pull.phase) || sp.pull.phase == PullPhase::Branching) && (get_step(sp, r).0.pull.phase == PullPhase::Branching ==> sp.pull.phase == PullPhase::StartInRepo || sp.pull.phase == PullPhase::Opening) && (sp.pull.phase == PullPhase::Branching && pull_past_branch(get_step(sp, r).0.pull.phase) ==> get_step(sp, r).0.pull.phase == PullPhase::Resolving) && (sp.pull.phase != PullPhase::Start ==> get_step(sp, r).0.pull.phase == PullPhase::Branching || pull_past_branch(get_step(sp, r).0.pull.phase))),
        get_step(sp, r).0.phase == GetPhase::Ready ==> (sp.phase == GetPhase::Resolving && get_step(sp, r).0.pulled.branch == sp.current) || (sp.phase == GetPhase::Pulling && get_step(sp, r).0.pulled.branch == sp.pull.branch && pull_past_branch(sp.pull.phase)),
        get_step(sp, r).1 matches StepView::Done(g) ==> g.branch == sp.pulled.branch,
        sp.pull.phase != PullPhase::Start && is_open(get_step(sp, r).1) ==> (sp.phase == GetPhase::Start || (sp.phase == GetPhase::Found && get_step(sp, r).1 == StepView::<GetResultView>::Run(CommandView::OpenAt(sp.path))) || sp.phase == GetPhase::Switching || sp.phase == GetPhase::Creating || sp.phase == GetPhase::Locating),
{
    reveal(get_step);
    lemma_pull_opens_only_at_start(sp.pull, r);
    lemma_pull_branch_facts(sp.pull, r);
    lemma_pull_opens_only_at_start(crate::pull::pull_start_in_repo(), ReplyView::Ack);
    law_get_inv(sp, r, sp.branch, sp.create);
    lemma_pull_runs_no_wt(sp.pull, r);
    lemma_pull_runs_no_wt(crate::pull::pull_start_in_repo(), ReplyView::Ack);
}

/// A pull past the point where it learned its branch.
pub open spec fn pull_past_branch(p: PullPhase) -> bool {
    p == PullPhase::Resolving || mid_pull(p)
}

/// How a pull learns its branch and keeps it.
proof fn lemma_pull_branch_facts(ps: PullState, r: ReplyView)
    ensures
        pull_next(ps, r).0.phase == PullPhase::Resolving ==> ps.phase == PullPhase::Branching && r
            == ReplyView::Text(Ok(pull_next(ps, r).0.branch)),
        ps.phase != PullPhase::Branching ==> pull_next(ps, r).0.branch == ps.branch,
        pull_past_branch(pull_next(ps, r).0.phase) ==> pull_past_branch(ps.phase) || ps.phase
            == PullPhase::Branching,
        pull_next(ps, r).0.phase == PullPhase::Branching ==> (ps.phase == PullPhase::StartInRepo
            || ps.phase == PullPhase::Opening),
        (pull_next(ps, r).1 is Run || pull_next(ps, r).1 is Say) && ps.phase != PullPhase::Start
            ==> pull_next(ps, r).0.phase == PullPhase::Branching || pull_past_branch(
            pull_next(ps, r).0.phase,
        ),
        ps.phase == PullPhase::Branching && pull_past_branch(pull_next(ps, r).0.phase) ==> pull_next(
            ps,
            r,
        ).0.phase == PullPhase::Resolving,
        pull_next(ps, r).1 matches StepView::Done(p) ==> p.branch == ps.branch && pull_past_branch(
            ps.phase,
        ),
{
}

/// Reply `j + 1` of `rs` answers a current-branch query made at step `j`,
/// naming `name`.
pub open spec fn names_branch(s0: GetState, rs: Seq<ReplyView>, j: int, name: Seq<char>) -> bool {
    &&& get_step_at(s0, rs, j) is Run && get_step_at(s0, rs, j)->Run_0 is CurrentBranch
    &&& rs[j + 1] == ReplyView::Text(Ok(name))
}

/// No step from `j` up to (not including) `k` opens a repository.
pub open spec fn no_open_between(s0: GetState, rs: Seq<ReplyView>, j: int, k: int) -> bool {
    forall|m: int| j <= m < k ==> !#[trigger] is_open(get_step_at(s0, rs, m))
}

/// The phases of a get after it opened the worktree it works in.
pub open spec fn get_post_open(p: GetPhase) -> bool {
    ||| p == GetPhase::Entering
    ||| p == GetPhase::Branching
    ||| p == GetPhase::Tracking
    ||| p == GetPhase::Untracked
    ||| p == GetPhase::Resolving
    ||| p == GetPhase::Pulling
    ||| p == GetPhase::Ready
}

proof fn lemma_no_open_extend(s0: GetState, rs: Seq<ReplyView>, j: int, k: int)
    requires
        j <= k,
        no_open_between(s0, rs, j, k - 1),
        !is_open(get_step_at(s0, rs, k - 1)),
    ensures
        no_open_between(s0, rs, j, k),
{
    assert forall|m: int| j <= m < k implies !#[trigger] is_open(get_step_at(s0, rs, m)) by {
        if m == k - 1 {
        }
    }
}

/// A step that opens a repository.
pub open spec fn is_open<R>(st: StepView<R>) -> bool {
    ||| st matches StepView::Run(CommandView::OpenCurrent)
    ||| st matches StepView::Run(CommandView::OpenAt(_))
}

/// A pull opens a repository only from its own start, and never returns there.
proof fn lemma_pull_opens_only_at_start(s: PullState, r: ReplyView)
    ensures
        s.phase != PullPhase::Start ==> !is_open(pull_next(s, r).1),
        pull_next(s, r).0.phase != PullPhase::Start,
{
}

/// The pull inside a worktree never runs `wt`.
proof fn lemma_pull_runs_no_wt(s: PullState, r: ReplyView)
    ensures
        !is_wt(pull_next(s, r).1),
{
}

/// What a run of a get from its start has done by reply `k`.
pub open spec fn get_history(s0: GetState, rs: Seq<ReplyView>, k: int) -> bool {
    let s = get_after(s0, rs.take(k));
    let b = s0.branch;
    &&& s.branch == b && s.create == s0.create
    &&& get_inv(s)
    &&& s.pull.phase != PullPhase::Start
    &&& s.phase == GetPhase::Found ==> k == 3
    &&& s.phase == GetPhase::Entering ==> k >= 4
    &&& s.phase == GetPhase::Branching ==> k >= 5 && get_step_at(s0, rs, k - 1)
        == StepView::<GetResultView>::Run(CommandView::CurrentBranch("wip get"@))
    &&& (s.phase == GetPhase::Tracking || s.phase == GetPhase::Untracked || s.phase
        == GetPhase::Resolving || s.phase == GetPhase::Pulling || s.phase == GetPhase::Ready) ==> exists|j: int|
        3 <= j && j + 1 < k && #[trigger] names_branch(s0, rs, j, s.current) && no_open_between(s0, rs, j, k)
    &&& (s.phase == GetPhase::Pulling && s.pull.phase == PullPhase::Branching) ==> k >= 4
        && get_step_at(s0, rs, k - 1) == StepView::<GetResultView>::Run(
        CommandView::CurrentBranch("wip pull"@),
    )
    &&& (s.phase == GetPhase::Pulling && pull_past_branch(s.pull.phase)) ==> exists|j: int|
        3 <= j && j + 1 < k && #[trigger] names_branch(s0, rs, j, s.pull.branch) && no_open_between(s0, rs, j, k)
    &&& s.phase == GetPhase::Pulling ==> s.pull.phase == PullPhase::Branching || pull_past_branch(s.pull.phase)
    &&& s.phase == GetPhase::Ready ==> exists|j: int|
        3 <= j && j + 1 < k && #[trigger] names_branch(s0, rs, j, s.pulled.branch) && no_open_between(s0, rs, j, k)
    &&& (!s.created && !get_early(s.phase) && s.phase != GetPhase::Over && s.phase
        != GetPhase::Found) ==> k >= 4 && get_step_at(s0, rs, 3) == StepView::<GetResultView>::Run(
        CommandView::OpenAt(s.path),
    )
    &&& get_post_open(s.phase) ==> exists|i: int|
        3 <= i < k && #[trigger] get_step_at(s0, rs, i) == StepView::<GetResultView>::Run(
        CommandView::OpenAt(s.path),
    ) && no_open_between(s0, rs, i + 1, k)
    &&& s.phase == GetPhase::Start ==> k == 0
    &&& s.phase == GetPhase::Opening ==> k == 1
    &&& s.phase == GetPhase::Looking ==> k == 2 && get_step_at(s0, rs, 1)
        == StepView::<GetResultView>::Run(CommandView::WorktreeFor(b))
    &&& get_early(s.phase) ==> !s.created
    &&& (!get_early(s.phase) && s.phase != GetPhase::Over) ==> {
        &&& k >= 3
        &&& get_step_at(s0, rs, 1) == StepView::<GetResultView>::Run(CommandView::WorktreeFor(b))
        &&& (s.created <==> rs[2] == ReplyView::MaybeText(Ok(None)))
        &&& !s.created ==> rs[2] == ReplyView::MaybeText(Ok(Some(s.path)))
    }
    &&& !s.created ==> no_wt_before(s0, rs, k)
    &&& s.phase == GetPhase::Provisioning ==> no_wt_before(s0, rs, k)
    &&& s.phase == GetPhase::Switching ==> k >= 1 && get_step_at(s0, rs, k - 1)
        == StepView::<GetResultView>::Run(CommandView::Wt(switch_args(b))) && no_wt_before(
        s0,
        rs,
        k - 1,
    )
    &&& s.phase == GetPhase::Announcing ==> k >= 2 && get_step_at(s0, rs, k - 2)
        == StepView::<GetResultView>::Run(CommandView::Wt(switch_args(b))) && rs[k - 1]
        == ReplyView::Flag(Ok(false)) && no_wt_before(s0, rs, k - 2)
    &&& forall|j: int| 0 <= j < k && #[trigger] is_wt(get_step_at(s0, rs, j)) ==> wt_in_order(s0, rs, j)
}

proof fn lemma_get_history(s0: GetState, rs: Seq<ReplyView>, k: int)
    requires
        s0 == get_start(s0.branch, s0.create),
        0 <= k <= rs.len(),
    ensures
        get_history(s0, rs, k),
    decreases k,
{
    if k > 0 {
        lemma_get_history(s0, rs, k - 1);
        lemma_get_after_take(s0, rs, k - 1);
        let sp = get_after(s0, rs.take(k - 1));
        let r = rs[k - 1];
        lemma_get_step(sp, r);
        let s = get_after(s0, rs.take(k));
        let st = get_step_at(s0, rs, k - 1);
        assert(s == get_step(sp, r).0);
        assert(st == get_step(sp, r).1);
        if !s.created || s.phase == GetPhase::Provisioning {
            assert forall|i: int| 0 <= i < k implies !#[trigger] is_wt(get_step_at(s0, rs, i)) by {
                if i == k - 1 {
                    assert(!is_wt(st));
                }
            }
        }
        if s.phase == GetPhase::Switching {
            assert(no_wt_before(s0, rs, k - 1));
        }
        if get_post_open(sp.phase) {
            assert(!is_open(st));
        }
        if get_post_open(s.phase) {
            if get_post_open(sp.phase) {
                let i = choose|i: int|
                    3 <= i < k - 1 && #[trigger] get_step_at(s0, rs, i) == StepView::<GetResultView>::Run(
                    CommandView::OpenAt(sp.path),
                ) && no_open_between(s0, rs, i + 1, k - 1);
                lemma_no_open_extend(s0, rs, i + 1, k);
                assert(get_step_at(s0, rs, i) == StepView::<GetResultView>::Run(CommandView::OpenAt(s.path)));
            } else {
                assert(get_step_at(s0, rs, k - 1) == StepView::<GetResultView>::Run(CommandView::OpenAt(s.path)));
                assert(no_open_between(s0, rs, k, k));
            }
        }
        if s.phase == GetPhase::Tracking || (s.phase == GetPhase::Pulling && sp.phase == GetPhase::Pulling
            && sp.pull.phase == PullPhase::Branching) {
            lemma_no_open_extend(s0, rs, k - 2, k - 1);
            lemma_no_open_extend(s0, rs, k - 2, k);
        }
        if s.phase == GetPhase::Tracking {
            assert(names_branch(s0, rs, k - 2, s.current));
        } else if s.phase == GetPhase::Untracked || s.phase == GetPhase::Resolving || s.phase
            == GetPhase::Pulling || s.phase == GetPhase::Ready {
            let j = choose|j: int| 3 <= j && j + 1 < k - 1 && #[trigger] names_branch(s0, rs, j, sp.current) && no_open_between(s0, rs, j, k - 1);
                lemma_no_open_extend(s0, rs, j, k);
            assert(names_branch(s0, rs, j, s.current));
        }
        if s.phase == GetPhase::Pulling && pull_past_branch(s.pull.phase) {
            if sp.pull.phase == PullPhase::Branching {
                assert(names_branch(s0, rs, k - 2, s.pull.branch));
            } else {
                let j = choose|j: int| 3 <= j && j + 1 < k - 1 && #[trigger] names_branch(s0, rs, j, sp.pull.branch) && no_open_between(s0, rs, j, k - 1);
                lemma_no_open_extend(s0, rs, j, k);
                assert(names_branch(s0, rs, j, s.pull.branch));
            }
        }
        if s.phase == GetPhase::Ready {
            if sp.phase == GetPhase::Resolving {
                let j = choose|j: int| 3 <= j && j + 1 < k - 1 && #[trigger] names_branch(s0, rs, j, sp.current) && no_open_between(s0, rs, j, k - 1);
                lemma_no_open_extend(s0, rs, j, k);
                assert(names_branch(s0, rs, j, s.pulled.branch));
            } else {
                let j = choose|j: int| 3 <= j && j + 1 < k - 1 && #[trigger] names_branch(s0, rs, j, sp.pull.branch) && no_open_between(s0, rs, j, k - 1);
                lemma_no_open_extend(s0, rs, j, k);
                assert(names_branch(s0, rs, j, s.pulled.branch));
            }
        }
        assert forall|j: int| 0 <= j < k && #[trigger] is_wt(get_step_at(s0, rs, j)) implies wt_in_order(
            s0,
            rs,
            j,
        ) by {
            if j == k - 1 {
                assert(wt_in_order(s0, rs, j));
            }
        }
    } else {
        assert(rs.take(0) =~= Seq::<ReplyView>::empty());
    }
}

/// When a get finds that `branch` already has a worktree at `p`, the only
/// repository it opens from then on is that worktree: its own checks and
/// the fast-forward run there, never in the directory it was started from.
pub proof fn law_get_works_in_existing_worktree(
    branch: Seq<char>,
    create: bool,
    rs: Seq<ReplyView>,
    p: Seq<char>,
    k: int,
)
    requires
        1 <= k < rs.len(),
        rs[2] == ReplyView::MaybeText(Ok(Some(p))),
    ensures
        is_open(get_step_at(get_start(branch, create), rs, k)) ==> get_step_at(
            get_start(branch, create),
            rs,
            k,
        ) == StepView::<GetResultView>::Run(CommandView::OpenAt(p)),
{
    let s0 = get_start(branch, create);
    lemma_get_history(s0, rs, k);
    lemma_get_step(get_after(s0, rs.take(k)), rs[k]);
}

/// When the first lookup finds that `branch` already has a worktree at `p`,
/// the get opens `p` next, and a finished get reports that worktree, as not
/// created, with the branch that a current-branch query answered after that
/// opening: the branch checked out at `p`, not that of the directory the get
/// started in.
pub proof fn law_get_reports_existing_worktree_branch(
    branch: Seq<char>,
    create: bool,
    rs: Seq<ReplyView>,
    p: Seq<char>,
    k: int,
)
    requires
        0 <= k < rs.len(),
        rs[2] == ReplyView::MaybeText(Ok(Some(p))),
    ensures
        get_step_at(get_start(branch, create), rs, k) matches StepView::Done(g) ==> {
            &&& get_step_at(get_start(branch, create), rs, 3) == StepView::<GetResultView>::Run(
                CommandView::OpenAt(p),
            )
            &&& g.worktree_path == p && !g.created
            &&& exists|j: int|
                3 < j && j + 1 < k && #[trigger] names_branch(get_start(branch, create), rs, j, g.branch)
        },
{
    let s0 = get_start(branch, create);
    lemma_get_history(s0, rs, k);
    let s = get_after(s0, rs.take(k));
    lemma_get_step(s, rs[k]);
    if get_step_at(s0, rs, k) is Done {
        let j = choose|j: int| 3 <= j && j + 1 < k && #[trigger] names_branch(s0, rs, j, s.pulled.branch);
        assert(names_branch(s0, rs, j, get_step_at(s0, rs, k)->Done_0.branch));
    }
}

/// A finished get reports the worktree it opened last, and the branch that a
/// current-branch query answered after that opening; no repository is
/// opened between that opening and the report, so the branch checks and the
/// fast-forward all ran in the worktree reported.
pub proof fn law_get_reports_opened_worktree(branch: Seq<char>, create: bool, rs: Seq<ReplyView>, k: int)
    requires
        0 <= k < rs.len(),
    ensures
        get_step_at(get_start(branch, create), rs, k) matches StepView::Done(g) ==> exists|i: int, j: int|
            3 <= i < j && j + 1 < k && #[trigger] get_step_at(get_start(branch, create), rs, i)
                == StepView::<GetResultView>::Run(CommandView::OpenAt(g.worktree_path))
                && #[trigger] names_branch(get_start(branch, create), rs, j, g.branch)
                && no_open_between(get_start(branch, create), rs, i + 1, k),
{
    let s0 = get_start(branch, create);
    lemma_get_history(s0, rs, k);
    let s = get_after(s0, rs.take(k));
    lemma_get_step(s, rs[k]);
    if get_step_at(s0, rs, k) is Done {
        let g = get_step_at(s0, rs, k)->Done_0;
        let i = choose|i: int|
            3 <= i < k && #[trigger] get_step_at(s0, rs, i) == StepView::<GetResultView>::Run(
            CommandView::OpenAt(s.path),
        ) && no_open_between(s0, rs, i + 1, k);
        let j = choose|j: int|
            3 <= j && j + 1 < k && #[trigger] names_branch(s0, rs, j, s.pulled.branch)
                && no_open_between(s0, rs, j, k);
        assert(is_open(get_step_at(s0, rs, i)));
        assert(i < j);
        assert(names_branch(s0, rs, j, g.branch));
    }
}

/// A whole get of `branch`, over any replies: it runs `wt` only in the
/// provisioning order (`switch <branch>` first; `switch --create <branch>`
/// only with `--create` and right after that switch failed); and when it
/// finishes, `created` is true exactly when the first worktree lookup found
/// none, and a worktree that existed is reported at the path that lookup
/// gave, with no `wt` run at all.
pub proof fn law_get_run(branch: Seq<char>, create: bool, rs: Seq<ReplyView>, k: int)
    requires
        0 <= k < rs.len(),
    ensures
        is_wt(get_step_at(get_start(branch, create), rs, k)) ==> wt_in_order(
            get_start(branch, create),
            rs,
            k,
        ),
        get_step_at(get_start(branch, create), rs, k) matches StepView::Done(g) ==> {
            &&& k >= 3
            &&& get_step_at(get_start(branch, create), rs, 1) == StepView::<GetResultView>::Run(
                CommandView::WorktreeFor(branch),
            )
            &&& (g.created <==> rs[2] == ReplyView::MaybeText(Ok(None)))
            &&& !g.created ==> rs[2] == ReplyView::MaybeText(Ok(Some(g.worktree_path)))
                && no_wt_before(get_start(branch, create), rs, k)
        },
{
    let s0 = get_start(branch, create);
    lemma_get_history(s0, rs, k + 1);
    lemma_get_history(s0, rs, k);
    lemma_get_step(get_after(s0, rs.take(k)), rs[k]);
}

/// One step of a push: the same as `push_next`, kept opaque so that the
/// whole-run proofs below go through the step facts of `lemma_push_step`.
#[verifier::opaque]
pub open spec fn push_step(s: PushState, r: ReplyView) -> (PushState, StepView<PushResultView>) {
    push_next(s, r)
}

/// The state of a push after the replies `rs`, from `s`.
pub open spec fn push_after(s: PushState, rs: Seq<ReplyView>) -> PushState
    decreases rs.len(),
{
    if rs.len() == 0 {
        s
    } else {
        push_step(push_after(s, rs.drop_last()), rs.last()).0
    }
}

/// The step with which a push, from `s`, answers reply `k` of `rs`.
pub open spec fn push_step_at(s: PushState, rs: Seq<ReplyView>, k: int) -> StepView<PushResultView> {
    push_step(push_after(s, rs.take(k)), rs[k]).1
}

proof fn lemma_push_after_take(s: PushState, rs: Seq<ReplyView>, k: int)
    requires
        0 <= k < rs.len(),
    ensures
        push_after(s, rs.take(k + 1)) == push_step(push_after(s, rs.take(k)), rs[k]).0,
{
    assert(rs.take(k + 1).drop_last() =~= rs.take(k));
}

/// A step that runs git.
pub open spec fn is_git<R>(st: StepView<R>) -> bool {
    ||| st matches StepView::Run(CommandView::Git(_))
    ||| st matches StepView::Run(CommandView::GitCheck(_))
}

/// A step that runs `git rev-list --count …`.
pub open spec fn is_count<R>(st: StepView<R>) -> bool {
    st matches StepView::Run(CommandView::Git(a)) && a.len() >= 3 && a[0] == "rev-list"@ && a[1]
        == "--count"@
}

/// The git command that stages for a mode: `add -A` for `all`, `add -u` for
/// `tracked`, and for `none` no staging (the index check comes first).
pub open spec fn staging_for(m: StageMode) -> StepView<PushResultView> {
    match m {
        StageMode::All => StepView::Run(CommandView::Git(seq!["add"@, "-A"@])),
        StageMode::TrackedOnly => StepView::Run(CommandView::Git(seq!["add"@, "-u"@])),
        StageMode::IndexOnly => StepView::Run(
            CommandView::GitCheck(seq!["diff"@, "--cached"@, "--quiet"@]),
        ),
    }
}

/// The stage mode that a reply carrying a config file's text sets, if any.
pub open spec fn config_set(r: ReplyView) -> Option<StageMode> {
    match r {
        ReplyView::MaybeText(Ok(Some(t))) => config_stage(t),
        _ => None,
    }
}

/// The phases of a push before anything is staged.
pub open spec fn before_staging(p: PushPhase) -> bool {
    p == PushPhase::Start || p == PushPhase::Opening || p == PushPhase::Branching || p
        == PushPhase::Resolving || p == PushPhase::ProjectConfig || p == PushPhase::UserConfig
}

/// What one push step does that whole runs depend on.
proof fn lemma_push_step(sp: PushState, r: ReplyView)
    ensures
        ({
            let (s, st) = push_step(sp, r);
            &&& s.flag == sp.flag
            &&& s.phase != PushPhase::Start
            &&& s.phase == PushPhase::Opening ==> sp.phase == PushPhase::Start
            &&& s.phase == PushPhase::Branching ==> sp.phase == PushPhase::Opening
            &&& s.phase == PushPhase::Resolving ==> sp.phase == PushPhase::Branching
            &&& s.phase == PushPhase::ProjectConfig ==> sp.phase == PushPhase::Resolving
                && sp.flag is None
            &&& s.phase == PushPhase::UserConfig ==> sp.phase == PushPhase::ProjectConfig
                && config_set(r) is None
            &&& sp.phase == PushPhase::Over ==> s.phase == PushPhase::Over && !is_git(st)
            &&& (!before_staging(s.phase) && s.phase != PushPhase::Over) ==> (!before_staging(
                sp.phase) && sp.phase != PushPhase::Over) || is_git(st)
            &&& (before_staging(sp.phase) && is_git(st)) ==> {
                ||| (sp.phase == PushPhase::Resolving && sp.flag is Some && st == staging_for(
                    sp.flag->0,
                ))
                ||| (sp.phase == PushPhase::ProjectConfig && config_set(r) is Some && st
                    == staging_for(config_set(r)->0))
                ||| (sp.phase == PushPhase::UserConfig && st == staging_for(
                    match config_set(r) {
                        Some(m) => m,
                        None => StageMode::All,
                    },
                ))
            }
            &&& s.phase == PushPhase::Counting ==> is_count(st)
            &&& s.phase == PushPhase::Sending ==> sp.phase == PushPhase::Counting && (counted(r) is Some
                ==> s.pushed == counted(r)->0)
            &&& s.phase == PushPhase::Pushing ==> sp.phase == PushPhase::Sending && s.pushed
                == sp.pushed
            &&& s.phase == PushPhase::Reporting ==> sp.phase == PushPhase::Pushing && s.pushed
                == sp.pushed
            &&& sp.phase != PushPhase::Branching ==> s.branch == sp.branch
            &&& s.phase == PushPhase::Resolving ==> r == ReplyView::Text(Ok(s.branch))
            &&& sp.phase != PushPhase::Resolving ==> s.remote == sp.remote
            &&& (sp.phase == PushPhase::Resolving && s.phase != PushPhase::Over) ==> reply_remote(r)
                == Some(s.remote)
            &&& sp.phase != PushPhase::Tracking ==> s.has_upstream == sp.has_upstream
            &&& s.phase == PushPhase::Pushing ==> st == StepView::<PushResultView>::Run(
                CommandView::Git(push_args(sp.has_upstream, sp.remote, sp.branch)),
            )
            &&& s.phase == PushPhase::Tracking ==> st == StepView::<PushResultView>::Run(
                CommandView::Upstream(s.branch),
            )
            &&& s.phase == PushPhase::Counting ==> sp.phase == PushPhase::Tracking && r is MaybeText
                && r->MaybeText_0 is Ok && s.has_upstream == r->MaybeText_0->Ok_0 is Some
            &&& st matches StepView::Done(p) ==> p.branch == sp.branch && p.remote == sp.remote
            &&& st matches StepView::Done(p) ==> sp.phase == PushPhase::Reporting
                && p.commits_pushed == sp.pushed && (p.outcome == PushOutcome::Pushed <==> sp.pushed
                > 0)
        }),
{
    reveal(push_step);
}

/// What a run of a push from its start has done by reply `k`.
pub open spec fn push_history(s0: PushState, rs: Seq<ReplyView>, k: int) -> bool {
    let s = push_after(s0, rs.take(k));
    &&& s.flag == s0.flag
    &&& s.phase == PushPhase::Start ==> k == 0
    &&& s.phase == PushPhase::Opening ==> k == 1
    &&& s.phase == PushPhase::Branching ==> k == 2
    &&& s.phase == PushPhase::Resolving ==> k == 3
    &&& s.phase == PushPhase::ProjectConfig ==> k == 4 && s0.flag is None
    &&& s.phase == PushPhase::UserConfig ==> k == 5 && s0.flag is None && config_set(rs[4]) is None
    &&& before_staging(s.phase) ==> forall|j: int| 0 <= j < k ==> !#[trigger] is_git(push_step_at(s0, rs, j))
    &&& (!before_staging(s.phase) && s.phase != PushPhase::Over) ==> exists|j: int| 0 <= j < k && #[trigger] is_git(push_step_at(s0, rs, j))
    &&& s.phase == PushPhase::Sending ==> k >= 2 && is_count(push_step_at(s0, rs, k - 2)) && (counted(
        rs[k - 1],
    ) is Some ==> s.pushed == counted(rs[k - 1])->0)
    &&& s.phase == PushPhase::Pushing ==> k >= 3 && is_count(push_step_at(s0, rs, k - 3)) && (counted(
        rs[k - 2],
    ) is Some ==> s.pushed == counted(rs[k - 2])->0)
    &&& s.phase == PushPhase::Reporting ==> k >= 4 && is_count(push_step_at(s0, rs, k - 4)) && (counted(
        rs[k - 3],
    ) is Some ==> s.pushed == counted(rs[k - 3])->0)
    &&& s.phase == PushPhase::Counting ==> k >= 1 && is_count(push_step_at(s0, rs, k - 1))
    &&& push_knows_branch(s.phase) ==> k >= 3 && rs[2] == ReplyView::Text(Ok(s.branch))
    &&& (push_knows_branch(s.phase) && s.phase != PushPhase::Resolving) ==> k >= 4 && reply_remote(
        rs[3],
    ) == Some(s.remote)
    &&& s.phase == PushPhase::Pushing ==> push_step_at(s0, rs, k - 1)
        == StepView::<PushResultView>::Run(
        CommandView::Git(push_args(s.has_upstream, s.remote, s.branch)),
    )
    &&& s.phase == PushPhase::Reporting ==> push_step_at(s0, rs, k - 2)
        == StepView::<PushResultView>::Run(
        CommandView::Git(push_args(s.has_upstream, s.remote, s.branch)),
    )
    &&& s.phase == PushPhase::Tracking ==> k >= 1 && push_step_at(s0, rs, k - 1)
        == StepView::<PushResultView>::Run(CommandView::Upstream(s.branch))
    &&& (s.phase == PushPhase::Counting || s.phase == PushPhase::Sending || s.phase
        == PushPhase::Pushing || s.phase == PushPhase::Reporting) ==> exists|j: int|
        0 <= j && j + 1 < k && #[trigger] upstream_answer(s0, rs, j, s.branch, s.has_upstream)
}

/// Step `j` asks for `branch`'s upstream and reply `j + 1` answers whether
/// there is one (`h`).
pub open spec fn upstream_answer(
    s0: PushState,
    rs: Seq<ReplyView>,
    j: int,
    branch: Seq<char>,
    h: bool,
) -> bool {
    &&& push_step_at(s0, rs, j) == StepView::<PushResultView>::Run(CommandView::Upstream(branch))
    &&& rs[j + 1] is MaybeText && rs[j + 1]->MaybeText_0 is Ok
    &&& (rs[j + 1]->MaybeText_0->Ok_0 is Some) == h
}

/// The phases of a push in which it knows its branch.
pub open spec fn push_knows_branch(p: PushPhase) -> bool {
    p != PushPhase::Start && p != PushPhase::Opening && p != PushPhase::Branching && p
        != PushPhase::Over
}

proof fn lemma_push_history(s0: PushState, rs: Seq<ReplyView>, k: int)
    requires
        s0 == crate::push::push_start(s0.flag, s0.message),
        0 <= k <= rs.len(),
    ensures
        push_history(s0, rs, k),
    decreases k,
{
    if k > 0 {
        lemma_push_history(s0, rs, k - 1);
        lemma_push_after_take(s0, rs, k - 1);
        let sp = push_after(s0, rs.take(k - 1));
        let r = rs[k - 1];
        lemma_push_step(sp, r);
        let s = push_after(s0, rs.take(k));
        let st = push_step_at(s0, rs, k - 1);
        assert(s == push_step(sp, r).0);
        assert(st == push_step(sp, r).1);
        if before_staging(s.phase) {
            assert forall|j: int| 0 <= j < k implies !#[trigger] is_git(push_step_at(s0, rs, j)) by {
                if j == k - 1 {
                    assert(!is_git(st));
                }
            }
        }
        if s.phase == PushPhase::Counting {
            assert(upstream_answer(s0, rs, k - 2, s.branch, s.has_upstream));
        } else if s.phase == PushPhase::Sending || s.phase == PushPhase::Pushing || s.phase
            == PushPhase::Reporting {
            let j = choose|j: int|
                0 <= j && j + 1 < k - 1 && #[trigger] upstream_answer(s0, rs, j, sp.branch, sp.has_upstream);
            assert(upstream_answer(s0, rs, j, s.branch, s.has_upstream));
        }
        if !before_staging(s.phase) && s.phase != PushPhase::Over {
            if is_git(st) {
                assert(is_git(push_step_at(s0, rs, k - 1)));
            } else {
                let j = choose|j: int| 0 <= j < k - 1 && #[trigger] is_git(push_step_at(s0, rs, j));
                assert(is_git(push_step_at(s0, rs, j)));
            }
        }
    } else {
        assert(rs.take(0) =~= Seq::<ReplyView>::empty());
    }
}

/// A whole push, over any replies: the first git command it runs stages in
/// the resolved mode — the `--stage` flag if given; else what the project
/// config's `[wip] stage` sets; else what the user config's sets; else
/// `all` — as `add -A` (`all`), `add -u` (`tracked`), or no staging at all
/// (`none`: the index check comes first).
pub proof fn law_push_stages_in_resolved_mode(
    flag: Option<StageMode>,
    message: Option<Seq<char>>,
    rs: Seq<ReplyView>,
    k: int,
)
    requires
        0 <= k < rs.len(),
        is_git(push_step_at(crate::push::push_start(flag, message), rs, k)),
        forall|j: int| 0 <= j < k ==> !#[trigger] is_git(
            push_step_at(crate::push::push_start(flag, message), rs, j),
        ),
    ensures
        ({
            let st = push_step_at(crate::push::push_start(flag, message), rs, k);
            &&& flag matches Some(m) ==> k == 3 && st == staging_for(m)
            &&& (flag is None && config_set(rs[4]) is Some) ==> k == 4 && st == staging_for(
                config_set(rs[4])->0,
            )
            &&& (flag is None && config_set(rs[4]) is None) ==> k == 5 && st == staging_for(
                match config_set(rs[5]) {
                    Some(m) => m,
                    None => StageMode::All,
                },
            )
        }),
{
    let s0 = crate::push::push_start(flag, message);
    lemma_push_history(s0, rs, k);
    let s = push_after(s0, rs.take(k));
    lemma_push_step(s, rs[k]);
    if !before_staging(s.phase) && s.phase != PushPhase::Over {
        let j = choose|j: int| 0 <= j < k && #[trigger] is_git(push_step_at(s0, rs, j));
        assert(!is_git(push_step_at(s0, rs, j)));
    }
}

/// A whole push, over any replies: when it finishes, it reports as pushed
/// the number that git's `rev-list --count` printed (whether or not this run
/// made a checkpoint), and it reports `pushed` exactly when that number is
/// positive.
pub proof fn law_push_reports_count(
    flag: Option<StageMode>,
    message: Option<Seq<char>>,
    rs: Seq<ReplyView>,
    k: int,
)
    requires
        0 <= k < rs.len(),
    ensures
        push_step_at(crate::push::push_start(flag, message), rs, k) matches StepView::Done(p) ==> {
            &&& k >= 4
            &&& is_count(push_step_at(crate::push::push_start(flag, message), rs, k - 4))
            &&& counted(rs[k - 3]) is Some ==> p.commits_pushed == counted(rs[k - 3])->0
            &&& (p.outcome == PushOutcome::Pushed <==> p.commits_pushed > 0)
        },
{
    let s0 = crate::push::push_start(flag, message);
    lemma_push_history(s0, rs, k);
    lemma_push_step(push_after(s0, rs.take(k)), rs[k]);
}

/// A whole push, over any replies: when it finishes, it reports the branch
/// that the current-branch query named and the remote that the push-remote
/// query named (`origin` without one), and the last git command it ran was
/// the push of that branch to that remote, without force, setting the
/// upstream (`-u`) exactly when the upstream query for that branch found none.
pub proof fn law_push_run_target(
    flag: Option<StageMode>,
    message: Option<Seq<char>>,
    rs: Seq<ReplyView>,
    k: int,
)
    requires
        0 <= k < rs.len(),
    ensures
        push_step_at(crate::push::push_start(flag, message), rs, k) matches StepView::Done(p) ==> {
            &&& k >= 4
            &&& rs[2] == ReplyView::Text(Ok(p.branch))
            &&& reply_remote(rs[3]) == Some(p.remote)
            &&& exists|j: int, h: bool|
                0 <= j && j + 1 < k - 2 && #[trigger] upstream_answer(
                    crate::push::push_start(flag, message),
                    rs,
                    j,
                    p.branch,
                    h,
                ) && push_step_at(crate::push::push_start(flag, message), rs, k - 2)
                    == StepView::<PushResultView>::Run(CommandView::Git(push_args(h, p.remote, p.branch)))
        },
{
    let s0 = crate::push::push_start(flag, message);
    lemma_push_history(s0, rs, k);
    let s = push_after(s0, rs.take(k));
    lemma_push_step(s, rs[k]);
    if push_step_at(s0, rs, k) is Done {
        lemma_push_history(s0, rs, k - 1);
        lemma_push_history(s0, rs, k - 2);
        lemma_push_after_take(s0, rs, k - 1);
        lemma_push_after_take(s0, rs, k - 2);
        let s1 = push_after(s0, rs.take(k - 1));
        let s2 = push_after(s0, rs.take(k - 2));
        lemma_push_step(s1, rs[k - 1]);
        lemma_push_step(s2, rs[k - 2]);
        let j = choose|j: int|
            0 <= j && j + 1 < k - 2 && #[trigger] upstream_answer(s0, rs, j, s2.branch, s2.has_upstream);
        assert(upstream_answer(s0, rs, j, s.branch, s.has_upstream));
    }
}

/// A step that runs `git commit -m …`.
pub open spec fn is_commit<R>(st: StepView<R>) -> bool {
    st matches StepView::Run(CommandView::Git(a)) && a.len() == 3 && a[0] == "commit"@
}

/// The phases of a push before its checkpoint commit could run.
pub open spec fn push_pre_commit(p: PushPhase) -> bool {
    before_staging(p) || p == PushPhase::Staging || p == PushPhase::Checking || p
        == PushPhase::Generating || p == PushPhase::Announcing
}

/// The phases of a push once the checkpoint, if any, is behind it.
pub open spec fn push_after_checkpoint(p: PushPhase) -> bool {
    p == PushPhase::Tracking || p == PushPhase::Counting || p == PushPhase::Sending || p
        == PushPhase::Pushing || p == PushPhase::Reporting
}

/// Step `j` ran `git commit`, step `j + 1` asked for `HEAD`'s id, and reply
/// `j + 2` gave it, `x` once trimmed.
pub open spec fn checkpoint_at(s0: PushState, rs: Seq<ReplyView>, j: int, x: Seq<char>) -> bool {
    &&& is_commit(push_step_at(s0, rs, j))
    &&& push_step_at(s0, rs, j + 1) == StepView::<PushResultView>::Run(CommandView::Git(head_args()))
    &&& rs[j + 2] is Text && rs[j + 2]->Text_0 is Ok
    &&& x == trimmed(rs[j + 2]->Text_0->Ok_0)
}

/// What one push step does with the checkpoint commit.
proof fn lemma_push_commit_step(sp: PushState, r: ReplyView)
    ensures
        ({
            let (s, st) = push_step(sp, r);
            &&& push_pre_commit(s.phase) ==> push_pre_commit(sp.phase) || sp.phase == PushPhase::Start
            &&& is_commit(st) ==> s.phase == PushPhase::Committing
            &&& s.phase == PushPhase::Committing ==> sp.phase == PushPhase::Announcing && is_commit(st)
            &&& s.phase == PushPhase::Recording ==> sp.phase == PushPhase::Committing && st
                == StepView::<PushResultView>::Run(CommandView::Git(head_args()))
            &&& s.committed != sp.committed ==> (sp.phase == PushPhase::Recording && r is Text
                && r->Text_0 is Ok && s.committed == Some(trimmed(r->Text_0->Ok_0))) || (sp.phase
                == PushPhase::Checking && s.committed is None)
            &&& push_after_checkpoint(s.phase) ==> push_after_checkpoint(sp.phase) || sp.phase
                == PushPhase::Checking || sp.phase == PushPhase::Recording
            &&& (sp.phase == PushPhase::Recording && s.phase == PushPhase::Tracking) ==> s.committed is Some
            &&& st matches StepView::Done(p) ==> p.committed == sp.committed
        }),
{
    reveal(push_step);
    reveal_strlit("commit");
    reveal_strlit("rev-list");
    assert("rev-list"@.len() != "commit"@.len());
}

/// What a run of a push from its start has done with its checkpoint by
/// reply `k`.
pub open spec fn push_commit_history(s0: PushState, rs: Seq<ReplyView>, k: int) -> bool {
    let s = push_after(s0, rs.take(k));
    &&& push_pre_commit(s.phase) ==> s.committed is None && forall|j: int|
        0 <= j < k ==> !#[trigger] is_commit(push_step_at(s0, rs, j))
    &&& s.phase == PushPhase::Committing ==> k >= 1 && is_commit(push_step_at(s0, rs, k - 1))
    &&& s.phase == PushPhase::Recording ==> k >= 2 && push_step_at(s0, rs, k - 1)
        == StepView::<PushResultView>::Run(CommandView::Git(head_args())) && is_commit(
        push_step_at(s0, rs, k - 2),
    )
    &&& s.committed matches Some(x) ==> exists|j: int| 0 <= j && j + 2 < k && #[trigger] checkpoint_at(s0, rs, j, x)
    &&& (s.committed is None && push_after_checkpoint(s.phase)) ==> forall|j: int|
        0 <= j < k ==> !#[trigger] is_commit(push_step_at(s0, rs, j))
}

proof fn lemma_push_commit_history(s0: PushState, rs: Seq<ReplyView>, k: int)
    requires
        s0 == crate::push::push_start(s0.flag, s0.message),
        0 <= k <= rs.len(),
    ensures
        push_commit_history(s0, rs, k),
    decreases k,
{
    if k > 0 {
        lemma_push_commit_history(s0, rs, k - 1);
        lemma_push_history(s0, rs, k - 1);
        lemma_push_after_take(s0, rs, k - 1);
        let sp = push_after(s0, rs.take(k - 1));
        let r = rs[k - 1];
        lemma_push_commit_step(sp, r);
        lemma_push_step(sp, r);
        let s = push_after(s0, rs.take(k));
        let st = push_step_at(s0, rs, k - 1);
        assert(s == push_step(sp, r).0);
        assert(st == push_step(sp, r).1);
        if push_pre_commit(s.phase) || (s.committed is None && push_after_checkpoint(s.phase)) {
            assert forall|j: int| 0 <= j < k implies !#[trigger] is_commit(push_step_at(s0, rs, j)) by {
                if j == k - 1 {
                    assert(!is_commit(st));
                }
            }
        }
        if s.committed is Some {
            if s.committed != sp.committed {
                assert(checkpoint_at(s0, rs, k - 3, s.committed->0));
            } else {
                let j = choose|j: int| 0 <= j && j + 2 < k - 1 && #[trigger] checkpoint_at(s0, rs, j, sp.committed->0);
                assert(checkpoint_at(s0, rs, j, s.committed->0));
            }
        }
    } else {
        assert(rs.take(0) =~= Seq::<ReplyView>::empty());
    }
}

/// A whole push, over any replies: when it finishes, the commit it reports is
/// the checkpoint it made in this run, by the id that `rev-parse HEAD` gave
/// right after `git commit` (trimmed); and when it reports none, it ran no
/// `git commit` at all.
pub proof fn law_push_reports_checkpoint(
    flag: Option<StageMode>,
    message: Option<Seq<char>>,
    rs: Seq<ReplyView>,
    k: int,
)
    requires
        0 <= k < rs.len(),
    ensures
        push_step_at(crate::push::push_start(flag, message), rs, k) matches StepView::Done(p) ==> {
            &&& p.committed matches Some(x) ==> exists|j: int|
                0 <= j && j + 2 < k && #[trigger] checkpoint_at(crate::push::push_start(flag, message), rs, j, x)
            &&& p.committed is None ==> forall|j: int|
                0 <= j < k ==> !#[trigger] is_commit(push_step_at(crate::push::push_start(flag, message), rs, j))
        },
{
    let s0 = crate::push::push_start(flag, message);
    lemma_push_commit_history(s0, rs, k);
    let s = push_after(s0, rs.take(k));
    lemma_push_commit_step(s, rs[k]);
    lemma_push_step(s, rs[k]);
}

} // verus!
