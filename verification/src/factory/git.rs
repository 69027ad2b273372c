//! Git as the worktree checks reach it: every run goes through
//! [`Git::run`], which keeps the record of what was asked, where, and what
//! came back, so their contracts can say how many times git is asked, and
//! with what.
use vstd::prelude::*;

use crate::factory::worktree::{GitRunner, WorktreeError};
use crate::sandbox::changeset::strings_view;

verus! {

/// One run of git: where, with what arguments, and its answer.
pub struct GitCall {
    pub dir: Seq<char>,
    pub args: Seq<Seq<char>>,
    pub answer: Result<String, WorktreeError>,
}

/// Git over a runner, with the record of what it was asked.
pub struct Git<G: GitRunner> {
    runner: G,
    asked: Ghost<Seq<GitCall>>,
}

/// Whether `c` is a run in `dir` with `args` that the runner `g` may have
/// answered as it did.
pub open spec fn git_ran<G: GitRunner>(g: G, c: GitCall, dir: Seq<char>, args: Seq<Seq<char>>) -> bool {
    c.dir == dir && c.args == args && g.answers(dir, args, c.answer)
}

impl<G: GitRunner> Git<G> {
    /// The runner git is driven through.
    pub closed spec fn driver(&self) -> G {
        self.runner
    }

    /// Every run asked of this handle, in order.
    pub closed spec fn asked(&self) -> Seq<GitCall> {
        self.asked@
    }

    /// Git over `runner`, asked nothing yet.
    pub fn new(runner: G) -> (r: Git<G>)
        ensures
            r.driver() == runner,
            r.asked() == Seq::<GitCall>::empty(),
    {
        Git { runner, asked: Ghost(Seq::empty()) }
    }

    /// The runner.
    pub fn runner(&self) -> (r: &G)
        ensures
            *r == self.driver(),
    {
        &self.runner
    }

    /// Run git in `dir` with `args`: the answer is one the runner may give
    /// for exactly that, and the run is recorded.
    pub fn run(&mut self, dir: &str, args: &Vec<String>) -> (answer: Result<String, WorktreeError>)
        ensures
            final(self).driver() == old(self).driver(),
            final(self).asked() == old(self).asked().push(
                GitCall { dir: dir@, args: strings_view(args@), answer },
            ),
            git_ran(old(self).driver(), final(self).asked().last(), dir@, strings_view(args@)),
    {
        let answer = self.runner.git(dir, args);
        self.asked = Ghost(self.asked@.push(GitCall { dir: dir@, args: strings_view(args@), answer }));
        answer
    }
}

} // verus!
