//! The docker command as the Docker wall reaches it: every run goes
//! through [`Docker::run`], which keeps the record of what was asked and
//! what came back, so the wall's contracts can say how many times docker
//! is asked, and with what.
use vstd::prelude::*;

use std::sync::Arc;

use crate::card::domain::opt_str_view;
use crate::factory::sandbox::{CmdOut, CommandRunner};
use crate::sandbox::changeset::strings_view;

verus! {

/// One run of docker: its arguments, what it was fed, and its answer.
pub struct DockerCall {
    pub args: Seq<Seq<char>>,
    pub stdin: Option<Seq<char>>,
    pub out: Result<CmdOut, String>,
}

/// What was asked of a [`Docker`]: a run, or a second handle on the same
/// runner handed out (whose runs are recorded in that handle).
pub enum DockerAsk {
    Run(DockerCall),
    Fork,
}

/// The docker command over a runner, with the record of what it was asked.
pub struct Docker<R: CommandRunner> {
    runner: Arc<R>,
    asked: Ghost<Seq<DockerAsk>>,
}

impl<R: CommandRunner> Docker<R> {
    /// The runner docker is driven through.
    pub closed spec fn driver(&self) -> R {
        *self.runner
    }

    /// Everything asked of this handle, in order.
    pub closed spec fn asked(&self) -> Seq<DockerAsk> {
        self.asked@
    }

    /// A handle on `runner` that has been asked nothing.
    pub fn new(runner: Arc<R>) -> (r: Docker<R>)
        ensures
            r.driver() == *runner,
            r.asked() == Seq::<DockerAsk>::empty(),
    {
        Docker { runner, asked: Ghost(Seq::empty()) }
    }

    /// Run docker with `args`, fed `stdin`: the answer is one the runner
    /// may give for exactly that, and the run is recorded.
    pub fn run(&mut self, args: &Vec<String>, stdin: Option<&str>) -> (out: Result<CmdOut, String>)
        ensures
            old(self).driver().answers("docker"@, strings_view(args@), opt_str_view(stdin), out),
            final(self).driver() == old(self).driver(),
            final(self).asked() == old(self).asked().push(
                DockerAsk::Run(
                    DockerCall { args: strings_view(args@), stdin: opt_str_view(stdin), out },
                ),
            ),
    {
        let out = self.runner.run("docker", args, stdin);
        self.asked = Ghost(
            self.asked@.push(
                DockerAsk::Run(
                    DockerCall { args: strings_view(args@), stdin: opt_str_view(stdin), out },
                ),
            ),
        );
        out
    }

    /// A second handle on the same runner, asked nothing yet; handing it
    /// out is recorded.
    pub fn fork(&mut self) -> (r: Docker<R>)
        ensures
            r.driver() == old(self).driver(),
            r.asked() == Seq::<DockerAsk>::empty(),
            final(self).driver() == old(self).driver(),
            final(self).asked() == old(self).asked().push(DockerAsk::Fork),
    {
        self.asked = Ghost(self.asked@.push(DockerAsk::Fork));
        Docker { runner: Arc::clone(&self.runner), asked: Ghost(Seq::empty()) }
    }
}

} // verus!
