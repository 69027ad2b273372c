//! Pinned worktrees: a tooled stage never flies over the live checkout.
//! The territory's HEAD is resolved before the slip is minted, and a
//! stage's worktree vouches for itself: exactly the pinned commit, nothing
//! dirty. Git is run through [`GitRunner`]; what its answers mean is
//! decided here.
use vstd::prelude::*;

use crate::factory::git::{git_ran, Git};
use crate::sandbox::changeset::strings_view;
use crate::text::{
    chars_of, push_str, string_from, string_from_chars, trim_chars, trim_ws,
};

verus! {

/// How pinning or checking a worktree fails.
#[derive(Debug, Clone, PartialEq, Eq)]
pub enum WorktreeError {
    Io { path: String, detail: String },
    Git { detail: String },
    /// The spec did not resolve to a commit: non-repository territory,
    /// unborn HEAD, or a bad ref.
    NotACommit { spec: String, detail: String },
    WrongHead { worktree: String, expected: String, found: String },
    Dirty { worktree: String, status: String },
}

/// The message of a worktree failure.
pub open spec fn worktree_error_text(e: WorktreeError) -> Seq<char> {
    match e {
        WorktreeError::Io { path, detail } => "worktree io at "@ + path@ + ": "@ + detail@,
        WorktreeError::Git { detail } => "git: "@ + detail@,
        WorktreeError::NotACommit { spec, detail } => "'"@ + spec@ + "' does not resolve to a commit: "@ + detail@,
        WorktreeError::WrongHead { worktree, expected, found } => "worktree "@ + worktree@ + " is at "@ + found@ + ", expected "@ + expected@,
        WorktreeError::Dirty { worktree, status } => "worktree "@ + worktree@ + " is dirty:\n"@ + status@,
    }
}

impl WorktreeError {
    /// The message describing this failure.
    pub fn message(&self) -> (r: String)
        ensures
            r@ == worktree_error_text(*self),
    {
        match self {
            WorktreeError::Io { path, detail } => {
                let mut s = string_from("worktree io at ");
                push_str(&mut s, path.as_str());
                push_str(&mut s, ": ");
                push_str(&mut s, detail.as_str());
                s
            },
            WorktreeError::Git { detail } => {
                let mut s = string_from("git: ");
                push_str(&mut s, detail.as_str());
                s
            },
            WorktreeError::NotACommit { spec, detail } => {
                let mut s = string_from("'");
                push_str(&mut s, spec.as_str());
                push_str(&mut s, "' does not resolve to a commit: ");
                push_str(&mut s, detail.as_str());
                s
            },
            WorktreeError::WrongHead { worktree, expected, found } => {
                let mut s = string_from("worktree ");
                push_str(&mut s, worktree.as_str());
                push_str(&mut s, " is at ");
                push_str(&mut s, found.as_str());
                push_str(&mut s, ", expected ");
                push_str(&mut s, expected.as_str());
                s
            },
            WorktreeError::Dirty { worktree, status } => {
                let mut s = string_from("worktree ");
                push_str(&mut s, worktree.as_str());
                push_str(&mut s, " is dirty:\n");
                push_str(&mut s, status.as_str());
                s
            },
        }
    }
}

/// How git is run: in a directory, with arguments, its standard output
/// back, or the failure. Nothing is assumed of a runner's answers.
pub trait GitRunner {
    /// Whether `answer` is one this runner may give back for git run in
    /// `dir` with `args`. A runner that says nothing more may give any
    /// answer; nothing else is assumed of it here. The relation ties what
    /// the library decides to what git was asked.
    closed spec fn answers(&self, dir: Seq<char>, args: Seq<Seq<char>>, answer: Result<String, WorktreeError>) -> bool {
        true
    }

    /// Run git in `dir` with `args`.
    fn git(&self, dir: &str, args: &Vec<String>) -> (r: Result<String, WorktreeError>)
        ensures
            self.answers(dir@, strings_view(args@), r),
    ;
}

/// The failure of a git run that exited nonzero: the arguments and the
/// trimmed standard error.
pub fn git_failure(args: &Vec<String>, stderr: &str) -> (r: WorktreeError)
    ensures
        r matches WorktreeError::Git { detail } && detail@ == "git "@ + crate::sandbox::runner::join(strings_view(args@), " "@) + " failed: "@ + trim_ws(stderr@),
{
    let mut d = string_from("git ");
    let ghost av = strings_view(args@);
    let mut i: usize = 0;
    let ghost start = d@;
    proof {
        assert(av.take(0) =~= Seq::<Seq<char>>::empty());
        reveal_strlit(" ");
    }
    while i < args.len()
        invariant
            i <= args@.len(),
            av == strings_view(args@),
            d@ == start + crate::sandbox::runner::join(av.take(i as int), " "@),
        decreases args@.len() - i,
    {
        proof {
            assert(av.take(i + 1).drop_last() =~= av.take(i as int));
            assert(av.take(i + 1).last() == av[i as int]);
        }
        if i > 0 {
            push_str(&mut d, " ");
        } else {
            proof {
                assert(av.take(1) =~= seq![av[0]]);
            }
        }
        push_str(&mut d, args[i].as_str());
        i = i + 1;
    }
    proof {
        assert(av.take(args@.len() as int) =~= av);
    }
    push_str(&mut d, " failed: ");
    let t = trim_chars(&chars_of(stderr));
    let ts = string_from_chars(&t);
    push_str(&mut d, ts.as_str());
    WorktreeError::Git { detail: d }
}

/// The failure of a git that could not be run at all.
pub fn git_unavailable(detail: &str) -> (r: WorktreeError)
    ensures
        r matches WorktreeError::Git { detail: d } && d@ == "could not run git: "@ + detail@,
{
    let mut d = string_from("could not run git: ");
    push_str(&mut d, detail);
    WorktreeError::Git { detail: d }
}

/// Appends one argument.
pub(crate) fn push_arg(v: &mut Vec<String>, a: String)
    ensures
        strings_view(final(v)@) == strings_view(old(v)@).push(a@),
{
    v.push(a);
    proof {
        assert(strings_view(v@) =~= strings_view(old(v)@).push(a@));
    }
}

/// A vector of strings from string slices.
fn strings2(a: &str, b: &str) -> (r: Vec<String>)
    ensures
        strings_view(r@) == seq![a@, b@],
{
    let mut v: Vec<String> = Vec::new();
    v.push(string_from(a));
    v.push(string_from(b));
    proof {
        assert(strings_view(v@) =~= seq![a@, b@]);
    }
    v
}

/// The arguments that resolve `spec` to a commit.
pub open spec fn rev_parse_argv(spec: Seq<char>) -> Seq<Seq<char>> {
    seq!["rev-parse"@, "--verify"@, spec + "^{commit}"@]
}

/// What resolving `spec` gives for git's answer: the trimmed commit; a
/// failed git run means the spec is not a commit; another failure as it
/// came.
pub open spec fn resolve_result(spec: Seq<char>, answer: Result<String, WorktreeError>, r: Result<String, WorktreeError>) -> bool {
    match answer {
        Ok(out) => r matches Ok(c) && c@ == trim_ws(out@),
        Err(WorktreeError::Git { detail }) => r matches Err(WorktreeError::NotACommit { spec: s, detail: d }) && s@ == spec && d == detail,
        Err(other) => r == Err::<String, WorktreeError>(other),
    }
}

/// What git's answer to `rev-parse --verify <spec>^{commit}` means.
pub fn resolve_answer(spec: &str, answer: Result<String, WorktreeError>) -> (r: Result<String, WorktreeError>)
    ensures
        resolve_result(spec@, answer, r),
{
    match answer {
        Ok(out) => {
            let v = chars_of(out.as_str());
            let t = trim_chars(&v);
            Ok(string_from_chars(&t))
        },
        Err(WorktreeError::Git { detail }) => Err(WorktreeError::NotACommit { spec: string_from(spec), detail }),
        Err(other) => Err(other),
    }
}

/// Resolve a spec to a full commit in `repo` with one run of
/// `git rev-parse --verify <spec>^{commit}`: the trimmed answer; a git
/// failure means the spec is not a commit.
pub fn resolve_commit<G: GitRunner>(git: &mut Git<G>, repo: &str, spec: &str) -> (r: Result<String, WorktreeError>)
    ensures
        final(git).driver() == old(git).driver(),
        final(git).asked().len() == old(git).asked().len() + 1,
        final(git).asked().drop_last() == old(git).asked(),
        git_ran(old(git).driver(), final(git).asked().last(), repo@, rev_parse_argv(spec@)),
        resolve_result(spec@, final(git).asked().last().answer, r),
        r matches Err(e) ==> !(e is Git),
        r matches Ok(c) ==> c@ == trim_ws(c@),
{
    let mut args = strings2("rev-parse", "--verify");
    let mut target = string_from(spec);
    push_str(&mut target, "^{commit}");
    push_arg(&mut args, target);
    proof {
        assert(strings_view(args@) =~= rev_parse_argv(spec@));
    }
    let answer = git.run(repo, &args);
    let ghost a = answer;
    proof {
        assert(git.asked().drop_last() =~= old(git).asked());
        if let Ok(out) = a {
            crate::text::lemma_trim_idempotent(out@);
        }
    }
    resolve_answer(spec, answer)
}

/// The commit the territory's HEAD names, with one run of git.
pub fn head<G: GitRunner>(git: &mut Git<G>, repo: &str) -> (r: Result<String, WorktreeError>)
    ensures
        final(git).driver() == old(git).driver(),
        final(git).asked().len() == old(git).asked().len() + 1,
        final(git).asked().drop_last() == old(git).asked(),
        git_ran(old(git).driver(), final(git).asked().last(), repo@, rev_parse_argv("HEAD"@)),
        resolve_result("HEAD"@, final(git).asked().last().answer, r),
        r matches Err(e) ==> !(e is Git),
{
    resolve_commit(git, repo, "HEAD")
}

/// The arguments that mark brand-new files intent-to-add, forced.
pub open spec fn intent_to_add_argv() -> Seq<Seq<char>> {
    seq!["add"@, "-A"@, "-N"@, "-f"@]
}

/// The arguments of the binary diff against `base`.
pub open spec fn diff_argv(base: Seq<char>) -> Seq<Seq<char>> {
    seq!["diff"@, "--binary"@, "--no-ext-diff"@, base]
}

/// The code-owned diff of a worktree against its pinned base, brand-new
/// files included: they are marked intent-to-add first (forced), then
/// `git diff --binary --no-ext-diff <base>` testifies. A failure of the
/// first run is the answer, and git is asked nothing more; otherwise the
/// diff's answer is.
pub fn diff_against_base<G: GitRunner>(git: &mut Git<G>, worktree: &str, base: &str) -> (r: Result<String, WorktreeError>)
    ensures
        final(git).driver() == old(git).driver(),
        ({
            let o = old(git).asked();
            let n = final(git).asked();
            let d = old(git).driver();
            &&& n.len() >= o.len() + 1
            &&& n.subrange(0, o.len() as int) == o
            &&& git_ran(d, n[o.len() as int], worktree@, intent_to_add_argv())
            &&& match n[o.len() as int].answer {
                Err(e) => n.len() == o.len() + 1 && r == Err::<String, WorktreeError>(e),
                Ok(_) => n.len() == o.len() + 2 && git_ran(d, n[o.len() + 1int], worktree@, diff_argv(base@))
                    && r == n[o.len() + 1int].answer,
            }
        }),
{
    let mut add = strings2("add", "-A");
    push_arg(&mut add, string_from("-N"));
    push_arg(&mut add, string_from("-f"));
    proof {
        assert(strings_view(add@) =~= intent_to_add_argv());
    }
    let added = git.run(worktree, &add);
    proof {
        assert(git.asked().subrange(0, old(git).asked().len() as int) =~= old(git).asked());
    }
    match added {
        Err(e) => {
            return Err(e);
        },
        Ok(_) => {},
    }
    let mut diff = strings2("diff", "--binary");
    push_arg(&mut diff, string_from("--no-ext-diff"));
    push_arg(&mut diff, string_from(base));
    proof {
        assert(strings_view(diff@) =~= diff_argv(base@));
    }
    let d = git.run(worktree, &diff);
    proof {
        assert(git.asked().subrange(0, old(git).asked().len() as int) =~= old(git).asked());
    }
    d
}

/// What a worktree's HEAD says of it: at exactly the pinned commit, or the
/// head it is at instead, trimmed.
pub fn head_verdict(worktree: &str, commit: &str, found: &str) -> (r: Result<(), WorktreeError>)
    ensures
        r is Ok <==> trim_ws(found@) == commit@,
        r matches Err(e) ==> e matches WorktreeError::WrongHead { worktree: w, expected, found: f }
            && w@ == worktree@ && expected@ == commit@ && f@ == trim_ws(found@),
{
    let fv = chars_of(found);
    let ft = trim_chars(&fv);
    if crate::text::chars_eq(&ft, &chars_of(commit)) {
        Ok(())
    } else {
        Err(
            WorktreeError::WrongHead {
                worktree: string_from(worktree),
                expected: string_from(commit),
                found: string_from_chars(&ft),
            },
        )
    }
}

/// What a worktree's status says of it: clean, or what is dirty, trimmed.
pub fn status_verdict(worktree: &str, status: &str) -> (r: Result<(), WorktreeError>)
    ensures
        r is Ok <==> trim_ws(status@).len() == 0,
        r matches Err(e) ==> e matches WorktreeError::Dirty { worktree: w, status: s } && w@
            == worktree@ && s@ == trim_ws(status@),
{
    let sv = chars_of(status);
    let st = trim_chars(&sv);
    if st.len() > 0 {
        Err(WorktreeError::Dirty { worktree: string_from(worktree), status: string_from_chars(&st) })
    } else {
        Ok(())
    }
}

/// A runner's failure as the library reports it: a verdict the runner
/// claims on a worktree (it has no say in those) becomes a git failure with
/// the claimed verdict's message; any other failure stays as it came.
pub open spec fn runner_failed(e: WorktreeError, r: WorktreeError) -> bool {
    if e is WrongHead || e is Dirty {
        r matches WorktreeError::Git { detail } && detail@ == worktree_error_text(e)
    } else {
        r == e
    }
}

/// A runner's failure as the failure of a git run.
fn runner_failure(e: WorktreeError) -> (r: WorktreeError)
    ensures
        runner_failed(e, r),
        !(r is WrongHead) && !(r is Dirty),
{
    match e {
        WorktreeError::WrongHead { .. } => WorktreeError::Git { detail: e.message() },
        WorktreeError::Dirty { .. } => WorktreeError::Git { detail: e.message() },
        other => other,
    }
}

/// The arguments that ask for a worktree's HEAD.
pub open spec fn head_argv() -> Seq<Seq<char>> {
    seq!["rev-parse"@, "HEAD"@]
}

/// The arguments that ask for a worktree's status.
pub open spec fn status_argv() -> Seq<Seq<char>> {
    seq!["status"@, "--porcelain"@]
}

/// A worktree vouches for itself: exactly the pinned commit, nothing
/// dirty. HEAD is asked first and judged by [`head_verdict`]; only when it
/// is the pinned commit is the status asked, once, and judged by
/// [`status_verdict`]. A failed git run is reported as [`runner_failed`]
/// says, and nothing more is asked.
pub fn verify<G: GitRunner>(git: &mut Git<G>, worktree: &str, commit: &str) -> (r: Result<(), WorktreeError>)
    ensures
        final(git).driver() == old(git).driver(),
        ({
            let o = old(git).asked();
            let n = final(git).asked();
            let d = old(git).driver();
            &&& n.len() >= o.len() + 1
            &&& n.subrange(0, o.len() as int) == o
            &&& git_ran(d, n[o.len() as int], worktree@, head_argv())
            &&& match n[o.len() as int].answer {
                Err(e) => n.len() == o.len() + 1 && (r matches Err(x) && runner_failed(e, x)),
                Ok(found) => if trim_ws(found@) != commit@ {
                    n.len() == o.len() + 1 && (r matches Err(WorktreeError::WrongHead { worktree: w, expected, found: f })
                        && w@ == worktree@ && expected@ == commit@ && f@ == trim_ws(found@))
                } else {
                    &&& n.len() == o.len() + 2
                    &&& git_ran(d, n[o.len() + 1int], worktree@, status_argv())
                    &&& match n[o.len() + 1int].answer {
                        Err(e) => r matches Err(x) && runner_failed(e, x),
                        Ok(status) => if trim_ws(status@).len() == 0 {
                            r is Ok
                        } else {
                            r matches Err(WorktreeError::Dirty { worktree: w, status: t }) && w@ == worktree@
                                && t@ == trim_ws(status@)
                        },
                    }
                },
            }
        }),
        r matches Err(WorktreeError::WrongHead { worktree: w, expected, found }) ==> w@ == worktree@ && expected@ == commit@ && found@ != commit@ && found@ == trim_ws(found@),
        r matches Err(WorktreeError::Dirty { worktree: w, status }) ==> w@ == worktree@ && status@.len() > 0 && status@ == trim_ws(status@),
{
    let head_args = strings2("rev-parse", "HEAD");
    let answer = git.run(worktree, &head_args);
    proof {
        assert(git.asked().subrange(0, old(git).asked().len() as int) =~= old(git).asked());
    }
    let found = match answer {
        Err(e) => {
            return Err(runner_failure(e));
        },
        Ok(f) => f,
    };
    match head_verdict(worktree, commit, found.as_str()) {
        Err(e) => {
            proof {
                crate::text::lemma_trim_idempotent(found@);
            }
            return Err(e);
        },
        Ok(()) => {},
    }
    let status_args = strings2("status", "--porcelain");
    let answer = git.run(worktree, &status_args);
    proof {
        assert(git.asked().subrange(0, old(git).asked().len() as int) =~= old(git).asked());
    }
    let status = match answer {
        Err(e) => {
            return Err(runner_failure(e));
        },
        Ok(s) => s,
    };
    proof {
        crate::text::lemma_trim_idempotent(status@);
    }
    status_verdict(worktree, status.as_str())
}

/// The arguments that materialize `commit` as a detached worktree at
/// `dest`.
pub fn worktree_add_args(dest: &str, commit: &str) -> (r: Vec<String>)
    ensures
        strings_view(r@) == seq!["worktree"@, "add"@, "--detach"@, dest@, commit@],
{
    let mut v = strings2("worktree", "add");
    let ghost v0 = v@;
    v.push(string_from("--detach"));
    v.push(string_from(dest));
    v.push(string_from(commit));
    proof {
        assert(strings_view(v0) == seq!["worktree"@, "add"@]);
        assert(strings_view(v0)[0] == v@[0]@);
        assert(strings_view(v0)[1] == v@[1]@);
        assert(strings_view(v@) =~= seq!["worktree"@, "add"@, "--detach"@, dest@, commit@]);
    }
    v
}

} // verus!
