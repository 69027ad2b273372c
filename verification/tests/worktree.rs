use std::cell::RefCell;

use daemar::factory::git::Git;

use daemar::factory::worktree::{
    diff_against_base, git_failure, head, head_verdict, resolve_commit, status_verdict, verify,
    worktree_add_args, GitRunner, WorktreeError,
};

/// A git that answers from a script and remembers what it was asked.
struct ScriptedGit {
    answers: RefCell<Vec<Result<String, WorktreeError>>>,
    asked: RefCell<Vec<(String, Vec<String>)>>,
}

impl ScriptedGit {
    fn new(answers: Vec<Result<String, WorktreeError>>) -> ScriptedGit {
        ScriptedGit { answers: RefCell::new(answers), asked: RefCell::new(Vec::new()) }
    }
}

impl GitRunner for ScriptedGit {
    fn git(&self, dir: &str, args: &Vec<String>) -> Result<String, WorktreeError> {
        self.asked.borrow_mut().push((dir.to_string(), args.clone()));
        self.answers.borrow_mut().remove(0)
    }
}

fn scripted(answers: Vec<Result<String, WorktreeError>>) -> Git<ScriptedGit> {
    Git::new(ScriptedGit::new(answers))
}

const COMMIT: &str = "0123456789abcdef0123456789abcdef01234567";

#[test]
fn a_tampered_worktree_fails_verification() {
    let mut git = scripted(vec![Ok(format!("{COMMIT}\n")), Ok(" M src/lib.rs\n".to_string())]);
    match verify(&mut git, "/wt/slip-2/scout", COMMIT) {
        Err(WorktreeError::Dirty { worktree, status }) => {
            assert_eq!(worktree, "/wt/slip-2/scout");
            assert_eq!(status, "M src/lib.rs");
        }
        other => panic!("unexpected {other:?}"),
    }
    let asked = git.runner().asked.borrow();
    assert_eq!(asked[0].1, ["rev-parse", "HEAD"]);
    assert_eq!(asked[1].1, ["status", "--porcelain"]);
}

#[test]
fn a_worktree_at_another_commit_is_refused_before_its_status_is_asked() {
    let mut git = scripted(vec![Ok("feedface\n".to_string())]);
    match verify(&mut git, "/wt", COMMIT) {
        Err(WorktreeError::WrongHead { expected, found, .. }) => {
            assert_eq!(expected, COMMIT);
            assert_eq!(found, "feedface");
        }
        other => panic!("unexpected {other:?}"),
    }
    assert_eq!(git.runner().asked.borrow().len(), 1);
}

#[test]
fn a_clean_worktree_at_its_commit_vouches_for_itself() {
    let mut git = scripted(vec![Ok(format!("  {COMMIT}\n")), Ok("\n".to_string())]);
    assert!(verify(&mut git, "/wt", COMMIT).is_ok());
}

#[test]
fn a_runner_cannot_claim_a_verdict() {
    let mut git = scripted(vec![Err(WorktreeError::Dirty {
        worktree: "/elsewhere".to_string(),
        status: "x".to_string(),
    })]);
    assert!(matches!(verify(&mut git, "/wt", COMMIT), Err(WorktreeError::Git { .. })));
}

#[test]
fn verdicts_judge_trimmed_answers() {
    assert!(head_verdict("/wt", "abc", " abc\n").is_ok());
    assert!(matches!(head_verdict("/wt", "abc", "abd"), Err(WorktreeError::WrongHead { .. })));
    assert!(status_verdict("/wt", " \n\t").is_ok());
    assert!(matches!(status_verdict("/wt", "?? new.rs"), Err(WorktreeError::Dirty { .. })));
}

#[test]
fn a_territory_that_cannot_pin_refuses_before_any_flight() {
    let failed = git_failure(&vec!["rev-parse".to_string(), "--verify".to_string()], "fatal: not a git repository\n");
    let mut git = scripted(vec![Err(failed)]);
    match head(&mut git, "/not/a/repo") {
        Err(WorktreeError::NotACommit { spec, detail }) => {
            assert_eq!(spec, "HEAD");
            assert_eq!(detail, "git rev-parse --verify failed: fatal: not a git repository");
        }
        other => panic!("unexpected {other:?}"),
    }
    assert_eq!(git.runner().asked.borrow()[0].1, ["rev-parse", "--verify", "HEAD^{commit}"]);
}

#[test]
fn a_resolved_commit_is_trimmed() {
    let mut git = scripted(vec![Ok(format!("{COMMIT}\n"))]);
    assert_eq!(resolve_commit(&mut git, "/repo", "main").unwrap(), COMMIT);
}

#[test]
fn the_diff_sees_edits_and_brand_new_files_alike() {
    let mut git = scripted(vec![Ok(String::new()), Ok("diff --git a/new_file.rs".to_string())]);
    let patch = diff_against_base(&mut git, "/wt", COMMIT).unwrap();
    assert!(patch.contains("new_file.rs"));
    let asked = git.runner().asked.borrow();
    assert_eq!(asked[0].1, ["add", "-A", "-N", "-f"]);
    assert_eq!(asked[1].1, ["diff", "--binary", "--no-ext-diff", COMMIT]);
}

#[test]
fn a_stage_worktree_is_added_detached() {
    assert_eq!(
        worktree_add_args("/wt/slip-1/build", COMMIT),
        ["worktree", "add", "--detach", "/wt/slip-1/build", COMMIT]
    );
}
