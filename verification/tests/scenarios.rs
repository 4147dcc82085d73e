//! End-to-end scenarios of push, pull and get, each driven against a
//! scripted repository that answers the machines' commands the way git and
//! worktrunk would in that situation.

use worktrunk_wip::get::{get, GetMachine};
use worktrunk_wip::protocol::{Command, Note, Reply, Step};
use worktrunk_wip::pull::{pull, PullMachine};
use worktrunk_wip::push::push;
use worktrunk_wip::types::{PullOutcome, PushOutcome, StageMode, WipError};

/// A scripted repository: what each query answers, and a log of the git and
/// `wt` commands run.
struct Repo {
    branch: Option<String>,
    push_remote: Option<String>,
    upstream: Option<String>,
    project_config: Option<String>,
    user_config: Option<String>,
    /// Tracked files with unstaged changes.
    tracked_changes: bool,
    /// Untracked files.
    untracked: bool,
    /// Changes already in the index.
    staged: bool,
    /// What `rev-list --count` prints for commits to send.
    ahead: String,
    /// What `rev-list --count` prints for commits to pull.
    behind: String,
    push_ok: bool,
    merge_ok: bool,
    head: String,
    /// Branches with a worktree, and its path.
    worktrees: Vec<(String, String)>,
    /// Branches that exist locally or on the remote.
    known: Vec<String>,
    git_log: Vec<Vec<String>>,
    wt_log: Vec<Vec<String>>,
    notes: usize,
}

fn repo() -> Repo {
    Repo {
        branch: Some("main".to_string()),
        push_remote: Some("origin".to_string()),
        upstream: Some("origin/main".to_string()),
        project_config: None,
        user_config: None,
        tracked_changes: false,
        untracked: false,
        staged: false,
        ahead: "0\n".to_string(),
        behind: "0\n".to_string(),
        push_ok: true,
        merge_ok: true,
        head: "0123abcd\n".to_string(),
        worktrees: Vec::new(),
        known: vec!["main".to_string()],
        git_log: Vec::new(),
        wt_log: Vec::new(),
        notes: 0,
    }
}

impl Repo {
    fn answer(&mut self, cmd: Command) -> Reply {
        match cmd {
            Command::OpenCurrent | Command::OpenAt(_) => Reply::Opened(Ok(())),
            Command::CurrentBranch(_) => match &self.branch {
                Some(b) => Reply::Text(Ok(b.clone())),
                None => Reply::Text(Err("HEAD is detached".to_string())),
            },
            Command::PushRemote(_) => Reply::MaybeText(Ok(self.push_remote.clone())),
            Command::Upstream(_) => Reply::MaybeText(Ok(self.upstream.clone())),
            Command::ProjectConfig => Reply::MaybeText(Ok(self.project_config.clone())),
            Command::UserConfig => Reply::MaybeText(Ok(self.user_config.clone())),
            Command::NewMessage => Reply::Text(Ok("wip @ testhost — 2026-01-01T00:00:00Z".to_string())),
            Command::Git(args) => {
                self.git_log.push(args.clone());
                let words: Vec<&str> = args.iter().map(|a| a.as_str()).collect();
                match words.as_slice() {
                    ["add", "-A"] => {
                        self.staged |= self.tracked_changes || self.untracked;
                        Reply::Text(Ok(String::new()))
                    }
                    ["add", "-u"] => {
                        self.staged |= self.tracked_changes;
                        Reply::Text(Ok(String::new()))
                    }
                    ["commit", "-m", _] => {
                        self.staged = false;
                        Reply::Text(Ok(String::new()))
                    }
                    ["rev-parse", "HEAD"] => Reply::Text(Ok(self.head.clone())),
                    ["rev-list", "--count", "--end-of-options", _] => Reply::Text(Ok(self.behind.clone())),
                    ["rev-list", "--count", ..] => Reply::Text(Ok(self.ahead.clone())),
                    ["push", ..] => {
                        if self.push_ok {
                            Reply::Text(Ok(String::new()))
                        } else {
                            Reply::Text(Err("! [rejected] main -> main (fetch first)".to_string()))
                        }
                    }
                    ["fetch", ..] => Reply::Text(Ok(String::new())),
                    ["merge", "--ff-only", ..] => {
                        if self.merge_ok {
                            Reply::Text(Ok(String::new()))
                        } else {
                            Reply::Text(Err("fatal: Not possible to fast-forward, aborting.".to_string()))
                        }
                    }
                    _ => panic!("unexpected git command {args:?}"),
                }
            }
            Command::GitCheck(args) => {
                self.git_log.push(args.clone());
                assert_eq!(args, vec!["diff", "--cached", "--quiet"]);
                Reply::Flag(Ok(!self.staged))
            }
            Command::WorktreeFor(b) => Reply::MaybeText(Ok(self
                .worktrees
                .iter()
                .find(|(wb, _)| *wb == b)
                .map(|(_, p)| p.clone()))),
            Command::Wt(args) => {
                self.wt_log.push(args.clone());
                let branch = args.last().unwrap().clone();
                let create = args.iter().any(|a| a == "--create");
                if create || self.known.contains(&branch) {
                    self.known.push(branch.clone());
                    self.worktrees.push((branch.clone(), format!("/work/repo.{branch}")));
                    Reply::Flag(Ok(true))
                } else {
                    Reply::Flag(Ok(false))
                }
            }
        }
    }

    fn drive<R>(&mut self, mut step: impl FnMut(Reply) -> Step<R>) -> Result<R, WipError> {
        let mut reply = Reply::Ack;
        for _ in 0..100 {
            match step(reply) {
                Step::Run(cmd) => reply = self.answer(cmd),
                Step::Say(_note) => {
                    self.notes += 1;
                    reply = Reply::Ack;
                }
                Step::Done(r) => return Ok(r),
                Step::Fail(e) => return Err(e),
            }
        }
        panic!("machine did not finish");
    }

    fn push(&mut self, stage: Option<StageMode>, message: Option<String>) -> Result<worktrunk_wip::types::PushResult, WipError> {
        let mut m = push(stage, message);
        self.drive(|r| m.step(r))
    }

    fn pull(&mut self) -> Result<worktrunk_wip::types::PullResult, WipError> {
        let mut m = pull();
        self.drive(|r| m.step(r))
    }

    fn get(&mut self, branch: &str, create: bool) -> Result<worktrunk_wip::types::GetResult, WipError> {
        let mut m = get(branch, create);
        self.drive(|r| m.step(r))
    }

    fn ran(&self, words: &[&str]) -> bool {
        self.git_log.iter().any(|a| a.iter().map(|s| s.as_str()).eq(words.iter().copied()))
    }

    fn committed_with(&self) -> Option<String> {
        self.git_log.iter().find(|a| a[0] == "commit").map(|a| a[2].clone())
    }
}

fn render(e: &WipError) -> String {
    match &e.cause {
        Some(c) => format!("{}: {}", e.message, c),
        None => e.message.clone(),
    }
}

#[test]
fn push_commits_and_pushes_changes() {
    let mut r = repo();
    r.untracked = true; // wip.txt
    r.ahead = "1\n".to_string();
    let result = r.push(None, None).unwrap();
    assert!(result.committed.is_some());
    assert_eq!(result.outcome, PushOutcome::Pushed);
    assert!(result.commits_pushed >= 1);
    assert_eq!(result.committed.as_deref(), Some("0123abcd"));
    assert!(r.committed_with().unwrap().starts_with("wip @ "));
}

#[test]
fn clean_tree_up_to_date_makes_no_commit() {
    let mut r = repo();
    let result = r.push(None, None).unwrap();
    assert!(result.committed.is_none());
    assert_eq!(result.outcome, PushOutcome::UpToDate);
    assert_eq!(result.commits_pushed, 0);
    assert!(r.committed_with().is_none());
}

#[test]
fn stage_tracked_excludes_untracked_files() {
    let mut r = repo();
    r.untracked = true; // untracked.txt
    let result = r.push(Some(StageMode::TrackedOnly), None).unwrap();
    assert!(result.committed.is_none());
    assert!(r.ran(&["add", "-u"]));
    assert!(!r.ran(&["add", "-A"]));
}

#[test]
fn custom_message_overrides_generated_one() {
    let mut r = repo();
    r.untracked = true;
    r.ahead = "1\n".to_string();
    r.push(None, Some("checkpoint: custom".into())).unwrap();
    assert_eq!(r.committed_with().as_deref(), Some("checkpoint: custom"));
}

#[test]
fn rejected_push_names_wip_pull() {
    let mut r = repo();
    r.untracked = true;
    r.ahead = "1\n".to_string();
    r.push_ok = false;
    let err = match r.push(None, None) {
        Err(e) => e,
        Ok(_) => panic!("expected push() to fail on rejected push"),
    };
    let text = render(&err);
    assert!(text.contains("wt wip pull"), "got: {text}");
    assert_eq!(
        err.message,
        "Push to origin/main was rejected — the remote has commits you don't have. Run `wt wip pull` first."
    );
}

#[test]
fn first_push_sets_upstream() {
    let mut r = repo();
    r.branch = Some("feature".to_string());
    r.push_remote = None;
    r.upstream = None;
    r.untracked = true;
    r.ahead = "1\n".to_string();
    let result = r.push(None, None).unwrap();
    assert_eq!(result.outcome, PushOutcome::Pushed);
    assert_eq!(result.commits_pushed, 1);
    assert_eq!(result.remote, "origin");
    assert!(r.ran(&["rev-list", "--count", "HEAD", "--not", "--remotes=origin"]));
    assert!(r.ran(&["push", "-u", "--end-of-options", "origin", "feature"]));
}

#[test]
fn first_push_falls_back_to_checkpoint_count() {
    let mut r = repo();
    r.upstream = None;
    r.untracked = true;
    r.ahead = "garbage".to_string();
    let result = r.push(None, None).unwrap();
    assert_eq!(result.commits_pushed, 1);
    assert_eq!(result.outcome, PushOutcome::Pushed);
}

#[test]
fn unreadable_count_with_upstream_reports_zero() {
    let mut r = repo();
    r.untracked = true;
    r.ahead = "".to_string();
    let result = r.push(None, None).unwrap();
    assert_eq!(result.commits_pushed, 0);
    assert_eq!(result.outcome, PushOutcome::UpToDate);
    assert!(result.committed.is_some());
}

#[test]
fn later_push_has_no_upstream_flag() {
    let mut r = repo();
    r.tracked_changes = true;
    r.ahead = "2\n".to_string();
    let result = r.push(None, None).unwrap();
    assert_eq!(result.commits_pushed, 2);
    assert!(r.ran(&["rev-list", "--count", "@{upstream}..HEAD"]));
    assert!(r.ran(&["push", "--end-of-options", "origin", "main"]));
}

#[test]
fn detached_head_push_is_refused() {
    let mut r = repo();
    r.branch = None;
    let err = match r.push(None, None) {
        Err(e) => e,
        Ok(_) => panic!("expected a refusal"),
    };
    assert_eq!(err.message, "HEAD is detached");
    assert!(err.cause.is_none());
    assert!(r.git_log.is_empty());
}

#[test]
fn pull_fast_forwards_and_counts() {
    let mut r = repo();
    r.behind = "1\n".to_string();
    let result = r.pull().unwrap();
    assert_eq!(result.outcome, PullOutcome::FastForwarded);
    assert_eq!(result.commits_pulled, 1);
    assert!(r.ran(&["fetch", "origin", "--end-of-options", "main"]));
    assert!(r.ran(&["rev-list", "--count", "--end-of-options", "HEAD..origin/main"]));
    assert!(r.ran(&["merge", "--ff-only", "--end-of-options", "origin/main"]));
}

#[test]
fn pull_up_to_date_is_a_no_op() {
    let mut r = repo();
    let result = r.pull().unwrap();
    assert_eq!(result.outcome, PullOutcome::UpToDate);
    assert_eq!(result.commits_pulled, 0);
    assert!(!r.git_log.iter().any(|a| a[0] == "merge"));
}

#[test]
fn pull_preserves_uncommitted_non_conflicting_changes() {
    let mut r = repo();
    r.behind = "1\n".to_string();
    r.untracked = true; // local-scratch.txt
    let result = r.pull().unwrap();
    assert_eq!(result.outcome, PullOutcome::FastForwarded);
    // Nothing but fetch, count and the fast-forward ran: the scratch file is
    // never touched.
    assert_eq!(r.git_log.len(), 3);
}

#[test]
fn diverged_pull_fails_cleanly_naming_wip_push() {
    let mut r = repo();
    r.behind = "1\n".to_string();
    r.merge_ok = false;
    let err = match r.pull() {
        Err(e) => e,
        Ok(_) => panic!("expected pull() to fail on divergence"),
    };
    let text = render(&err);
    assert!(text.contains("wt wip push"), "got: {text}");
    // Nothing after the refused fast-forward ran.
    assert_eq!(r.git_log.last().unwrap()[0], "merge");
}

#[test]
fn pull_non_numeric_count_is_an_error() {
    let mut r = repo();
    r.behind = "x1\n".to_string();
    let err = match r.pull() {
        Err(e) => e,
        Ok(_) => panic!("expected an error"),
    };
    assert_eq!(err.message, "Unexpected non-numeric rev-list output");
    assert_eq!(err.cause.as_deref(), Some("invalid digit found in string"));
}

#[test]
fn get_reuses_existing_worktree_and_fast_forwards() {
    let mut r = repo();
    r.branch = Some("feat".to_string());
    r.worktrees.push(("feat".to_string(), "/work/a-feat".to_string()));
    r.behind = "1\n".to_string();
    let result = r.get("feat", false).unwrap();
    assert!(!result.created, "worktree already existed");
    assert_eq!(result.pull_outcome, PullOutcome::FastForwarded);
    assert_eq!(result.commits_pulled, 1);
    assert_eq!(result.worktree_path, "/work/a-feat");
    assert!(r.wt_log.is_empty());
}

#[test]
fn get_on_up_to_date_worktree_is_a_no_op() {
    let mut r = repo();
    r.branch = Some("feat".to_string());
    r.worktrees.push(("feat".to_string(), "/work/a-feat".to_string()));
    let result = r.get("feat", false).unwrap();
    assert!(!result.created);
    assert_eq!(result.pull_outcome, PullOutcome::UpToDate);
    assert_eq!(result.commits_pulled, 0);
}

#[test]
fn e2e_get_tracks_remote_branch_then_reuses() {
    let mut r = repo();
    r.known.push("feat".to_string());
    r.branch = Some("feat".to_string());
    let v = r.get("feat", false).unwrap();
    assert_eq!(v.branch, "feat");
    assert!(v.created);
    assert_eq!(v.worktree_path, "/work/repo.feat");
    assert_eq!(r.wt_log, vec![vec!["switch".to_string(), "feat".to_string()]]);
    let v = r.get("feat", false).unwrap();
    assert!(!v.created);
    assert_eq!(v.pull_outcome, PullOutcome::UpToDate);
    assert_eq!(r.wt_log.len(), 1);
}

#[test]
fn e2e_get_create_is_opt_in_for_new_branches() {
    let mut r = repo();
    let err = match r.get("brand-new", false) {
        Err(e) => e,
        Ok(_) => panic!("get without --create must refuse an unknown branch"),
    };
    assert!(render(&err).contains("--create"), "the refusal names the --create escape hatch");
    assert_eq!(r.wt_log.len(), 1);
    r.branch = Some("brand-new".to_string());
    r.upstream = None;
    let v = r.get("brand-new", true).unwrap();
    assert_eq!(v.branch, "brand-new");
    assert!(v.created);
    assert_eq!(v.pull_outcome, PullOutcome::UpToDate);
    assert_eq!(v.commits_pulled, 0);
    assert_eq!(
        r.wt_log.last().unwrap(),
        &vec!["switch".to_string(), "--create".to_string(), "brand-new".to_string()]
    );
    assert!(!r.git_log.iter().any(|a| a[0] == "fetch"));
}

#[test]
fn get_reports_missing_wt() {
    let mut m = GetMachine::new("feat".to_string(), false);
    let mut r = repo();
    let mut reply = Reply::Ack;
    let err = loop {
        match m.step(reply) {
            Step::Run(Command::Wt(_)) => reply = Reply::Flag(Err("No such file or directory (os error 2)".to_string())),
            Step::Run(cmd) => reply = r.answer(cmd),
            Step::Say(_) => reply = Reply::Ack,
            Step::Done(_) => panic!("expected a failure"),
            Step::Fail(e) => break e,
        }
    };
    assert_eq!(
        err.message,
        "Failed to run `wt switch` — is worktrunk (`wt`) installed and on PATH?"
    );
    assert_eq!(err.cause.as_deref(), Some("No such file or directory (os error 2)"));
}

#[test]
fn message_override_and_stage_tracked() {
    let mut r = repo();
    r.untracked = true;
    r.tracked_changes = true;
    r.ahead = "1\n".to_string();
    r.push(Some(StageMode::TrackedOnly), Some("checkpoint: custom".to_string())).unwrap();
    assert_eq!(r.committed_with().as_deref(), Some("checkpoint: custom"));
    assert!(!r.ran(&["add", "-A"]));
}

#[test]
fn project_config_sets_stage_and_flag_beats_it() {
    let mut r = repo();
    r.project_config = Some("[wip]\nstage = \"none\"\n".to_string());
    r.tracked_changes = true;
    let result = r.push(None, None).unwrap();
    assert!(result.committed.is_none());
    assert!(!r.git_log.iter().any(|a| a[0] == "add"));
    r.ahead = "1\n".to_string();
    let result = r.push(Some(StageMode::All), None).unwrap();
    assert!(result.committed.is_some());
    assert!(r.committed_with().unwrap().starts_with("wip @ "));
}

#[test]
fn user_config_via_worktrunk_config_path_env() {
    let mut r = repo();
    r.user_config = Some("[wip]\nstage = \"none\"\n".to_string());
    r.tracked_changes = true;
    let result = r.push(None, None).unwrap();
    assert!(result.committed.is_none());
    assert!(r.committed_with().is_none());
}

#[test]
fn project_config_beats_user_config() {
    let mut r = repo();
    r.project_config = Some("[wip]\nstage = \"tracked\"\n".to_string());
    r.user_config = Some("[wip]\nstage = \"none\"\n".to_string());
    r.tracked_changes = true;
    r.push(None, None).unwrap();
    assert!(r.ran(&["add", "-u"]));
}

#[test]
fn malformed_config_degrades_to_all() {
    let mut r = repo();
    r.project_config = Some("[wip\nstage = ".to_string());
    r.user_config = Some("[wip]\nstage = \"sometimes\"\n".to_string());
    r.untracked = true;
    r.push(None, None).unwrap();
    assert!(r.ran(&["add", "-A"]));
}

#[test]
fn up_to_date_both_ways_exit_zero() {
    let mut r = repo();
    let v = r.push(None, None).unwrap();
    assert_eq!(v.outcome.wire_name(), "up-to-date");
    assert!(v.committed.is_none());
    let v = r.pull().unwrap();
    assert_eq!(v.outcome.wire_name(), "up-to-date");
}

#[test]
fn divergence_fails_safely_in_both_directions() {
    let mut r = repo();
    r.untracked = true;
    r.ahead = "1\n".to_string();
    r.behind = "1\n".to_string();
    r.push_ok = false;
    r.merge_ok = false;
    let err = r.push(None, None).err().expect("push from a diverged branch is rejected");
    assert!(render(&err).contains("wt wip pull"));
    let err = r.pull().err().expect("pull into a diverged branch refuses");
    assert!(render(&err).contains("wt wip push"));
}

#[test]
fn json_output_schema_push_and_pull() {
    let mut r = repo();
    r.untracked = true;
    r.ahead = "1\n".to_string();
    let v = r.push(None, None).unwrap();
    assert_eq!(v.branch, "main");
    assert_eq!(v.outcome.wire_name(), "pushed");
    assert!(v.committed.is_some());
    assert!(v.commits_pushed >= 1);
    r.behind = "1\n".to_string();
    let v = r.pull().unwrap();
    assert_eq!(v.outcome.wire_name(), "fast-forwarded");
    assert!(v.commits_pulled >= 1);
}

#[test]
fn reply_out_of_turn_stops_the_machine() {
    let mut m = PullMachine::new();
    match m.step(Reply::Flag(Ok(true))) {
        Step::Fail(e) => assert_eq!(e.message, "wip step machine: reply out of turn"),
        _ => panic!("expected a failure"),
    }
    match m.step(Reply::Ack) {
        Step::Fail(_) => {}
        _ => panic!("a finished machine stays finished"),
    }
}

#[test]
fn notes_are_shown_in_order() {
    let mut m = PullMachine::new();
    let mut r = repo();
    r.behind = "3\n".to_string();
    let mut reply = Reply::Ack;
    let mut notes = Vec::new();
    loop {
        match m.step(reply) {
            Step::Run(cmd) => reply = r.answer(cmd),
            Step::Say(n) => {
                notes.push(n);
                reply = Reply::Ack;
            }
            Step::Done(_) => break,
            Step::Fail(e) => panic!("{}", e.message),
        }
    }
    assert!(matches!(&notes[0], Note::Fetching(b, r) if b == "main" && r == "origin"));
    assert!(matches!(&notes[1], Note::FastForwarded(b, rr, 3) if b == "main" && rr == "origin/main"));
}

#[test]
fn pull_in_runs_in_an_open_repository() {
    let mut m = worktrunk_wip::pull::pull_in();
    match m.step(Reply::Ack) {
        Step::Run(Command::CurrentBranch(what)) => assert_eq!(what, "wip pull"),
        _ => panic!("pull_in asks for the current branch first"),
    }
}

#[test]
fn pull_preserves_dirty_non_conflicting_tree() {
    let mut r = repo();
    r.behind = "1\n".to_string();
    r.untracked = true; // scratch.txt
    let result = r.pull().unwrap();
    assert_eq!(result.outcome, PullOutcome::FastForwarded);
    assert!(!r.git_log.iter().any(|a| a[0] == "add" || a[0] == "commit"));
}

#[test]
fn bare_invocation_pushes_and_pull_round_trips() {
    // Machine a: the default push stages everything and commits with a
    // generated wip message.
    let mut a = repo();
    a.untracked = true; // wip.txt
    a.ahead = "1\n".to_string();
    let pushed = a.push(None, None).unwrap();
    assert!(a.committed_with().unwrap().starts_with("wip @ "));
    assert_eq!(pushed.commits_pushed, 1);
    // Machine b: the pull fast-forwards by what a pushed.
    let mut b = repo();
    b.behind = "1\n".to_string();
    let pulled = b.pull().unwrap();
    assert_eq!(pulled.outcome, PullOutcome::FastForwarded);
    assert_eq!(pulled.commits_pulled, pushed.commits_pushed);
}
