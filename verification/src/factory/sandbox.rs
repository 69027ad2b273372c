//! The Docker wall: a per-stage container holding the stage's entire
//! visible world to its worktree, bind-mounted at `/workspace`: no
//! network, non-root, every capability dropped, and an image carrying
//! exactly one static binary. Docker is driven through [`CommandRunner`],
//! so every lifecycle branch is decided here, whatever the runner is.
use vstd::prelude::*;

use std::sync::Arc;

use crate::card::domain::opt_str_view;
use crate::factory::roster::ToolAccess;
use crate::factory::wall::{Mount, StagePolicy, StageWall, Teardown, WallError};
use crate::factory::docker::{Docker, DockerAsk};
use crate::factory::worktree::push_arg;
use crate::sandbox::changeset::strings_view;
use crate::text::{
    chars_of, contains_seq, copy_string, dec, find_seq, push_str, push_u64, string_from,
    string_from_chars, trim_chars, trim_ws,
};

verus! {

/// What one command run produced.
#[derive(Debug, Clone)]
pub struct CmdOut {
    pub success: bool,
    pub stdout: String,
    pub stderr: String,
}

/// The command seam: how docker is run. Nothing is assumed of a runner's
/// answers; every branch on them is decided in this module.
pub trait CommandRunner {
    /// Whether `out` is one this runner may give back for running `program`
    /// with `args`, fed `stdin`. A runner that says nothing more may give
    /// any answer; nothing else is assumed of it here. The relation ties
    /// what the library decides to what docker was asked.
    closed spec fn answers(&self, program: Seq<char>, args: Seq<Seq<char>>, stdin: Option<Seq<char>>, out: Result<CmdOut, String>) -> bool {
        true
    }

    /// Run `program` with `args`, feeding `stdin` when given.
    fn run(&self, program: &str, args: &Vec<String>, stdin: Option<&str>) -> (out: Result<CmdOut, String>)
        ensures
            self.answers(program@, strings_view(args@), opt_str_view(stdin), out),
    ;
}

/// The remedy for a missing stage image.
pub open spec fn image_remedy(image: Seq<char>) -> Seq<char> {
    "build it (docker build -f Dockerfile.cage -t "@ + image + " .)"@
}

/// The detail of a toolless seat asking for a wall.
pub const TOOLLESS_DETAIL: &'static str = "a toolless seat has no business behind a wall";

/// The detail of a root-owned worktree asked to be writable.
pub const ROOT_OWNED_DETAIL: &'static str = "worktree is root-owned — refusing a root wall";

/// The mount and identity of a stage's world, by the seat's access: a
/// read-only seat gets a read-only world under the policy's nonroot
/// identity; a write seat gets a writable world under the worktree
/// owner's identity (`owner`, as `uid`, `gid`), never root's.
pub open spec fn world(access: ToolAccess, worktree: Seq<char>, policy_user: Seq<char>, owner:
    Result<(u32, u32), Seq<char>>) -> Result<(Seq<char>, Seq<char>), Seq<char>> {
    match access {
        ToolAccess::Toolless => Err(TOOLLESS_DETAIL@),
        ToolAccess::ReadOnly => Ok((worktree + ":/workspace:ro"@, policy_user)),
        ToolAccess::ReadWrite => match owner {
            Err(e) => Err("cannot stat worktree for a writable wall: "@ + e),
            Ok((uid, gid)) => if uid == 0 {
                Err(ROOT_OWNED_DETAIL@)
            } else {
                Ok((worktree + ":/workspace"@, dec(uid as nat) + ":"@ + dec(gid as nat)))
            },
        },
    }
}

/// The text of an owner lookup's outcome.
pub open spec fn owner_view(o: Result<(u32, u32), String>) -> Result<(u32, u32), Seq<char>> {
    match o {
        Ok(p) => Ok(p),
        Err(e) => Err(e@),
    }
}

/// Decide the mount and identity of a stage's world.
pub fn wall_world(access: ToolAccess, worktree: &str, policy_user: &str, owner: &Result<
    (u32, u32),
    String,
>) -> (r: Result<(String, String), WallError>)
    ensures
        world(access, worktree@, policy_user@, owner_view(*owner)) matches Ok((m, u)) ==> (r matches Ok((rm, ru)) && rm@ == m && ru@ == u),
        world(access, worktree@, policy_user@, owner_view(*owner)) matches Err(d) ==> (r matches Err(WallError::Lifecycle { detail }) && detail@ == d),
{
    match access {
        ToolAccess::Toolless => Err(WallError::Lifecycle { detail: string_from(TOOLLESS_DETAIL) }),
        ToolAccess::ReadOnly => {
            let mut m = string_from(worktree);
            push_str(&mut m, ":/workspace:ro");
            Ok((m, string_from(policy_user)))
        },
        ToolAccess::ReadWrite => match owner {
            Err(e) => {
                let mut d = string_from("cannot stat worktree for a writable wall: ");
                push_str(&mut d, e.as_str());
                Err(WallError::Lifecycle { detail: d })
            },
            Ok((uid, gid)) => {
                if *uid == 0 {
                    return Err(WallError::Lifecycle { detail: string_from(ROOT_OWNED_DETAIL) });
                }
                let mut m = string_from(worktree);
                push_str(&mut m, ":/workspace");
                let mut u = String::new();
                push_u64(&mut u, *uid as u64);
                push_str(&mut u, ":");
                push_u64(&mut u, *gid as u64);
                Ok((m, u))
            },
        },
    }
}

/// The container name of a stage: the hint and the host process id.
pub open spec fn cage_name(name_hint: Seq<char>, pid: u32) -> Seq<char> {
    "daemar-cage-"@ + name_hint + "-"@ + dec(pid as nat)
}

/// The container name of a stage.
pub fn container_name(name_hint: &str, pid: u32) -> (r: String)
    ensures
        r@ == cage_name(name_hint@, pid),
{
    let mut s = string_from("daemar-cage-");
    push_str(&mut s, name_hint);
    push_str(&mut s, "-");
    push_u64(&mut s, pid as u64);
    s
}

/// The `-v` arguments of the policy's extra mounts.
pub open spec fn extra_mount_args(ms: Seq<Mount>) -> Seq<Seq<char>>
    decreases ms.len(),
{
    if ms.len() == 0 {
        Seq::empty()
    } else {
        let m = ms.last();
        extra_mount_args(ms.drop_last()) + seq![
            "-v"@,
            m.host@ + ":"@ + m.guest@ + (if m.read_only {
                ":ro"@
            } else {
                Seq::<char>::empty()
            }),
        ]
    }
}

/// The optional `--cpus` and `--memory` arguments.
pub open spec fn resource_args(policy: StagePolicy) -> Seq<Seq<char>> {
    (match policy.resources.cpus {
        Some(c) => seq!["--cpus"@, c@],
        None => Seq::empty(),
    }) + (match policy.resources.memory {
        Some(m) => seq!["--memory"@, m@],
        None => Seq::empty(),
    })
}

/// The arguments of `docker` that start a stage's container: detached,
/// named, no network, the given identity, every capability dropped, no
/// privilege escalation, the world mounted at `/workspace` as the working
/// directory, the policy's limits and extra mounts, then the image running
/// the executor's `hold`.
pub open spec fn run_argv(policy: StagePolicy, name: Seq<char>, user: Seq<char>, mount: Seq<
    char,
>) -> Seq<Seq<char>> {
    seq![
        "run"@,
        "-d"@,
        "--name"@,
        name,
        "--network"@,
        "none"@,
        "--user"@,
        user,
        "--cap-drop"@,
        "ALL"@,
        "--security-opt"@,
        "no-new-privileges"@,
        "-v"@,
        mount,
        "-w"@,
        "/workspace"@,
    ] + resource_args(policy) + extra_mount_args(policy.extra_mounts@) + seq![
        policy.image@,
        "/cage-executor"@,
        "hold"@,
    ]
}

/// The arguments of `docker` that start a stage's container.
pub fn run_args(policy: &StagePolicy, name: &str, user: &str, mount: &str) -> (r: Vec<String>)
    ensures
        strings_view(r@) == run_argv(*policy, name@, user@, mount@),
{
    let mut args: Vec<String> = Vec::new();
    args.push(string_from("run"));
    args.push(string_from("-d"));
    args.push(string_from("--name"));
    args.push(string_from(name));
    args.push(string_from("--network"));
    args.push(string_from("none"));
    args.push(string_from("--user"));
    args.push(string_from(user));
    args.push(string_from("--cap-drop"));
    args.push(string_from("ALL"));
    args.push(string_from("--security-opt"));
    args.push(string_from("no-new-privileges"));
    args.push(string_from("-v"));
    args.push(string_from(mount));
    args.push(string_from("-w"));
    args.push(string_from("/workspace"));
    let ghost head = strings_view(args@);
    proof {
        assert(head =~= run_argv(*policy, name@, user@, mount@).take(16));
    }
    match &policy.resources.cpus {
        Some(c) => {
            args.push(string_from("--cpus"));
            args.push(copy_string(c));
        },
        None => {},
    }
    match &policy.resources.memory {
        Some(m) => {
            args.push(string_from("--memory"));
            args.push(copy_string(m));
        },
        None => {},
    }
    proof {
        assert(strings_view(args@) =~= head + resource_args(*policy));
    }
    let ghost mid = strings_view(args@);
    let mut i: usize = 0;
    while i < policy.extra_mounts.len()
        invariant
            i <= policy.extra_mounts@.len(),
            strings_view(args@) == mid + extra_mount_args(policy.extra_mounts@.take(i as int)),
        decreases policy.extra_mounts@.len() - i,
    {
        let m = &policy.extra_mounts[i];
        let mut v = copy_string(&m.host);
        push_str(&mut v, ":");
        push_str(&mut v, m.guest.as_str());
        if m.read_only {
            push_str(&mut v, ":ro");
        }
        let ghost before = args@;
        args.push(string_from("-v"));
        args.push(v);
        proof {
            let ms = policy.extra_mounts@;
            assert(ms.take(i + 1).drop_last() =~= ms.take(i as int));
            assert(ms.take(i + 1).last() == ms[i as int]);
            if !m.read_only {
                assert(v@ =~= m.host@ + ":"@ + m.guest@ + Seq::<char>::empty());
            }
            assert(strings_view(args@) =~= strings_view(before) + seq!["-v"@, v@]);
        }
        i = i + 1;
    }
    proof {
        assert(policy.extra_mounts@.take(policy.extra_mounts@.len() as int) =~= policy.extra_mounts@);
    }
    let ghost tail_start = strings_view(args@);
    args.push(copy_string(&policy.image));
    args.push(string_from("/cage-executor"));
    args.push(string_from("hold"));
    proof {
        assert(strings_view(args@) =~= tail_start + seq![
            policy.image@,
            "/cage-executor"@,
            "hold"@,
        ]);
        assert(strings_view(args@) =~= run_argv(*policy, name@, user@, mount@));
    }
    args
}

/// What `docker version` answered means for preflight: the runtime
/// answers, or it is unavailable (with the failure, or the CLI's trimmed
/// standard error).
pub open spec fn runtime_result(out: Result<CmdOut, String>, r: Result<(), WallError>) -> bool {
    match out {
        Err(d) => r == Err::<(), WallError>(WallError::Unavailable { detail: d }),
        Ok(o) => if o.success {
            r is Ok
        } else {
            r matches Err(WallError::Unavailable { detail }) && detail@ == trim_ws(o.stderr@)
        },
    }
}

/// What `docker image inspect` answered means for preflight: the image is
/// present, the runtime is unavailable, or the image is missing, refused
/// with the remedy and never pulled.
pub open spec fn image_result(image: Seq<char>, out: Result<CmdOut, String>, r: Result<(), WallError>) -> bool {
    match out {
        Err(d) => r == Err::<(), WallError>(WallError::Unavailable { detail: d }),
        Ok(o) => if o.success {
            r is Ok
        } else {
            r matches Err(WallError::ImageMissing { image: i, remedy, detail }) && i@ == image
                && remedy@ == image_remedy(image) && detail@ == trim_ws(o.stderr@)
        },
    }
}

/// What `docker version` answered means for preflight.
pub fn runtime_verdict(out: Result<CmdOut, String>) -> (r: Result<(), WallError>)
    ensures
        runtime_result(out, r),
{
    match out {
        Err(detail) => Err(WallError::Unavailable { detail }),
        Ok(o) => {
            if o.success {
                Ok(())
            } else {
                let t = trim_chars(&chars_of(o.stderr.as_str()));
                Err(WallError::Unavailable { detail: string_from_chars(&t) })
            }
        },
    }
}

/// What `docker image inspect` answered means for preflight.
pub fn image_verdict(image: &str, out: Result<CmdOut, String>) -> (r: Result<(), WallError>)
    ensures
        image_result(image@, out, r),
{
    match out {
        Err(detail) => Err(WallError::Unavailable { detail }),
        Ok(o) => {
            if o.success {
                Ok(())
            } else {
                let mut remedy = string_from("build it (docker build -f Dockerfile.cage -t ");
                push_str(&mut remedy, image);
                push_str(&mut remedy, " .)");
                let t = trim_chars(&chars_of(o.stderr.as_str()));
                Err(
                    WallError::ImageMissing {
                        image: string_from(image),
                        remedy,
                        detail: string_from_chars(&t),
                    },
                )
            }
        },
    }
}

/// What `docker exec` answered for a request: the outcome's text, or why
/// the request could not be carried (which kills the session).
pub open spec fn exec_result(out: Result<CmdOut, String>, r: Result<String, String>) -> bool {
    match out {
        Err(d) => r == Err::<String, String>(d),
        Ok(o) => if o.success {
            r == Ok::<String, String>(o.stdout)
        } else {
            r matches Err(d) && d@ == "docker exec failed: "@ + trim_ws(o.stderr@)
        },
    }
}

/// What `docker exec` answered for a request.
pub fn exec_reply(out: Result<CmdOut, String>) -> (r: Result<String, String>)
    ensures
        exec_result(out, r),
{
    match out {
        Err(e) => Err(e),
        Ok(o) => {
            if o.success {
                Ok(o.stdout)
            } else {
                let t = trim_chars(&chars_of(o.stderr.as_str()));
                let mut d = string_from("docker exec failed: ");
                push_str(&mut d, string_from_chars(&t).as_str());
                Err(d)
            }
        },
    }
}

/// The outcome of `docker run`: the container's identifier (its trimmed
/// output), or the failure.
pub fn started_container(out: Result<CmdOut, String>) -> (r: Result<String, WallError>)
    ensures
        out matches Err(d) ==> r == Err::<String, WallError>(WallError::Lifecycle { detail: d }),
        out matches Ok(o) ==> (if o.success {
            r matches Ok(id) && id@ == trim_ws(o.stdout@)
        } else {
            r matches Err(WallError::Lifecycle { detail }) && detail@ == "docker run failed: "@
                + trim_ws(o.stderr@)
        }),
{
    match out {
        Err(detail) => Err(WallError::Lifecycle { detail }),
        Ok(o) => {
            if o.success {
                let v = chars_of(o.stdout.as_str());
                let t = trim_chars(&v);
                Ok(string_from_chars(&t))
            } else {
                let v = chars_of(o.stderr.as_str());
                let t = trim_chars(&v);
                let mut d = string_from("docker run failed: ");
                let ts = string_from_chars(&t);
                push_str(&mut d, ts.as_str());
                Err(WallError::Lifecycle { detail: d })
            }
        },
    }
}

/// The arguments that ask the docker runtime for its version.
pub open spec fn version_argv() -> Seq<Seq<char>> {
    seq!["version"@, "--format"@, "{{.Server.Version}}"@]
}

/// The arguments that ask whether `image` is present.
pub open spec fn inspect_argv(image: Seq<char>) -> Seq<Seq<char>> {
    seq!["image"@, "inspect"@, image, "--format"@, "{{.Id}}"@]
}

/// The arguments that carry one request into `container`.
pub open spec fn exec_argv(container: Seq<char>) -> Seq<Seq<char>> {
    seq!["exec"@, "-i"@, container, "/cage-executor"@, "request"@]
}

/// The arguments that remove `container`, forcibly.
pub open spec fn rm_argv(container: Seq<char>) -> Seq<Seq<char>> {
    seq!["rm"@, "-f"@, container]
}

/// Whether `a` is a run of docker with `args`, fed `stdin`, that the
/// runner `r` may have answered as it did.
pub open spec fn ran<R: CommandRunner>(r: R, a: DockerAsk, args: Seq<Seq<char>>, stdin: Option<Seq<char>>) -> bool {
    a matches DockerAsk::Run(c) && c.args == args && c.stdin == stdin && r.answers(
        "docker"@,
        args,
        stdin,
        c.out,
    )
}

/// The answer of a run.
pub open spec fn answer_of(a: DockerAsk) -> Result<CmdOut, String> {
    a->Run_0.out
}

/// Whether a docker answer is a success.
pub open spec fn succeeded(out: Result<CmdOut, String>) -> bool {
    out matches Ok(o) && o.success
}

/// Opens Docker walls.
pub struct DockerOpener<R: CommandRunner> {
    docker: Docker<R>,
}

impl<R: CommandRunner> DockerOpener<R> {
    /// The runner docker is driven through.
    pub closed spec fn driver(&self) -> R {
        self.docker.driver()
    }

    /// Everything this opener has asked of docker, in order.
    pub closed spec fn asked(&self) -> Seq<DockerAsk> {
        self.docker.asked()
    }

    /// An opener driving docker through `runner`, having asked nothing.
    pub fn new(runner: Arc<R>) -> (r: DockerOpener<R>)
        ensures
            r.driver() == *runner,
            r.asked() == Seq::<DockerAsk>::empty(),
    {
        DockerOpener { docker: Docker::new(runner) }
    }

    /// The implementation's name, for receipts.
    pub fn wall_name(&self) -> (r: &'static str)
        ensures
            r@ == "docker"@,
    {
        "docker"
    }

    /// The runtime must answer and the stage image must be present; a
    /// missing image is refused with the remedy, never pulled. Docker is
    /// asked for its version once; only when that succeeds is the image
    /// inspected, once.
    pub fn preflight(&mut self, policy: &StagePolicy) -> (r: Result<(), WallError>)
        ensures
            final(self).driver() == old(self).driver(),
            ({
                let o = old(self).asked();
                let n = final(self).asked();
                let d = old(self).driver();
                &&& n.len() >= o.len() + 1
                &&& n.subrange(0, o.len() as int) == o
                &&& ran(d, n[o.len() as int], version_argv(), None)
                &&& if succeeded(answer_of(n[o.len() as int])) {
                    &&& n.len() == o.len() + 2
                    &&& ran(d, n[o.len() + 1int], inspect_argv(policy.image@), None)
                    &&& image_result(policy.image@, answer_of(n[o.len() + 1int]), r)
                } else {
                    n.len() == o.len() + 1 && runtime_result(answer_of(n[o.len() as int]), r)
                }
            }),
            r matches Err(WallError::ImageMissing { image, remedy, .. }) ==> image@ == policy.image@
                && remedy@ == image_remedy(policy.image@),
            r matches Err(e) ==> e is Unavailable || e is ImageMissing,
    {
        let mut version_args: Vec<String> = Vec::new();
        push_arg(&mut version_args, string_from("version"));
        push_arg(&mut version_args, string_from("--format"));
        push_arg(&mut version_args, string_from("{{.Server.Version}}"));
        proof {
            assert(strings_view(version_args@) =~= version_argv());
        }
        let version = self.docker.run(&version_args, None);
        match runtime_verdict(version) {
            Err(e) => {
                proof {
                    assert(self.asked().subrange(0, old(self).asked().len() as int) =~= old(self).asked());
                }
                return Err(e);
            },
            Ok(()) => {},
        }
        let mut inspect_args: Vec<String> = Vec::new();
        push_arg(&mut inspect_args, string_from("image"));
        push_arg(&mut inspect_args, string_from("inspect"));
        push_arg(&mut inspect_args, copy_string(&policy.image));
        push_arg(&mut inspect_args, string_from("--format"));
        push_arg(&mut inspect_args, string_from("{{.Id}}"));
        proof {
            assert(strings_view(inspect_args@) =~= inspect_argv(policy.image@));
        }
        let inspect = self.docker.run(&inspect_args, None);
        proof {
            assert(self.asked().subrange(0, old(self).asked().len() as int) =~= old(self).asked());
        }
        image_verdict(policy.image.as_str(), inspect)
    }

    /// Open a stage's wall: the world [`wall_world`] decides, started with
    /// [`run_args`] under the name [`container_name`] gives for `name_hint`
    /// and the host process id `pid`; `owner` is the worktree owner's
    /// (`uid`, `gid`), or why it could not be read. Docker is asked to run
    /// the container exactly once, and only when the world is decided;
    /// the wall it returns holds a handle of its own on the same runner.
    pub fn open(
        &mut self,
        policy: &StagePolicy,
        worktree: &str,
        access: ToolAccess,
        name_hint: &str,
        pid: u32,
        owner: &Result<(u32, u32), String>,
    ) -> (r: Result<DockerWall<R>, WallError>)
        ensures
            final(self).driver() == old(self).driver(),
            world(access, worktree@, policy.user@, owner_view(*owner)) matches Err(d) ==> (r matches Err(WallError::Lifecycle { detail }) && detail@ == d) && final(self).asked() == old(self).asked(),
            world(access, worktree@, policy.user@, owner_view(*owner)) matches Ok((m, u)) ==> ({
                let o = old(self).asked();
                let n = final(self).asked();
                let run = n[o.len() as int];
                &&& n.len() >= o.len() + 1
                &&& n.subrange(0, o.len() as int) == o
                &&& ran(old(self).driver(), run, run_argv(*policy, cage_name(name_hint@, pid), u, m), None)
                &&& match answer_of(run) {
                    Err(d) => n.len() == o.len() + 1 && r == Err::<DockerWall<R>, WallError>(WallError::Lifecycle { detail: d }),
                    Ok(out) => if out.success {
                        &&& n.len() == o.len() + 2
                        &&& n[o.len() + 1int] is Fork
                        &&& (r matches Ok(w) && w.container_id() == trim_ws(out.stdout@)
                            && w.driver() == old(self).driver() && w.asked() == Seq::<DockerAsk>::empty())
                    } else {
                        n.len() == o.len() + 1 && (r matches Err(WallError::Lifecycle { detail }) && detail@ == "docker run failed: "@
                            + trim_ws(out.stderr@))
                    },
                }
            }),
            r matches Ok(w) ==> !w.is_dead(),
            r matches Err(e) ==> e is Lifecycle,
    {
        let (mount, user) = match wall_world(access, worktree, policy.user.as_str(), owner) {
            Err(e) => {
                return Err(e);
            },
            Ok(p) => p,
        };
        let name = container_name(name_hint, pid);
        let args = run_args(policy, name.as_str(), user.as_str(), mount.as_str());
        let out = self.docker.run(&args, None);
        proof {
            assert(self.asked().subrange(0, old(self).asked().len() as int) =~= old(self).asked());
        }
        match started_container(out) {
            Err(e) => Err(e),
            Ok(container) => {
                let docker = self.docker.fork();
                proof {
                    assert(self.asked().subrange(0, old(self).asked().len() as int) =~= old(self).asked());
                }
                Ok(DockerWall { docker, container, dead: false })
            },
        }
    }
}

/// A running Docker wall: one container per stage, `docker exec` per tool
/// call, forcibly removed at teardown.
pub struct DockerWall<R: CommandRunner> {
    docker: Docker<R>,
    container: String,
    dead: bool,
}

impl<R: CommandRunner> DockerWall<R> {
    /// The runner docker is driven through.
    pub closed spec fn driver(&self) -> R {
        self.docker.driver()
    }

    /// Everything this wall has asked of docker, in order.
    pub closed spec fn asked(&self) -> Seq<DockerAsk> {
        self.docker.asked()
    }

    /// Whether the session can no longer be trusted.
    pub closed spec fn is_dead(&self) -> bool {
        self.dead
    }

    /// The container's identifier.
    pub closed spec fn container_id(&self) -> Seq<char> {
        self.container@
    }

    /// The container's identifier.
    pub fn id(&self) -> (r: &str)
        ensures
            r@ == self.container_id(),
    {
        self.container.as_str()
    }

    /// True once the session can no longer be trusted.
    pub fn dead(&self) -> (r: bool)
        ensures
            r == self.is_dead(),
    {
        self.dead
    }

    /// Carry one request across the wall with one `docker exec`; any
    /// failure marks the session dead, and a dead session stays dead.
    pub fn send(&mut self, request_json: &str) -> (r: Result<String, String>)
        ensures
            final(self).asked().len() == old(self).asked().len() + 1,
            final(self).asked().subrange(0, old(self).asked().len() as int) == old(self).asked(),
            ran(
                old(self).driver(),
                final(self).asked().last(),
                exec_argv(old(self).container_id()),
                Some(request_json@),
            ),
            exec_result(answer_of(final(self).asked().last()), r),
            final(self).is_dead() == (old(self).is_dead() || r is Err),
            final(self).container_id() == old(self).container_id(),
            final(self).driver() == old(self).driver(),
    {
        let mut args: Vec<String> = Vec::new();
        push_arg(&mut args, string_from("exec"));
        push_arg(&mut args, string_from("-i"));
        push_arg(&mut args, copy_string(&self.container));
        push_arg(&mut args, string_from("/cage-executor"));
        push_arg(&mut args, string_from("request"));
        proof {
            assert(strings_view(args@) =~= exec_argv(self.container@));
        }
        let out = self.docker.run(&args, Some(request_json));
        let reply = exec_reply(out);
        if reply.is_err() {
            self.dead = true;
        }
        proof {
            assert(self.asked().subrange(0, old(self).asked().len() as int) =~= old(self).asked());
        }
        reply
    }

    /// Prove the container gone with one `docker rm -f`. "No such
    /// container" is proof too, but an anomaly: something else removed it.
    pub fn terminate(self) -> (r: Result<Teardown, WallError>)
        ensures
            exists|out: Result<CmdOut, String>|
                #[trigger] self.driver().answers("docker"@, rm_argv(self.container_id()), None, out)
                && match out {
                    Err(d) => r == Err::<Teardown, WallError>(WallError::Lifecycle { detail: d }),
                    Ok(o) => match teardown_verdict(o.success, o.stderr@) {
                        Ok(t) => r == Ok::<Teardown, WallError>(t),
                        Err(d) => r matches Err(WallError::Lifecycle { detail }) && detail@ == d,
                    },
                },
            r matches Err(e) ==> e is Lifecycle,
    {
        let ghost d = self.driver();
        let ghost id = self.container_id();
        let mut docker = self.docker;
        let mut args: Vec<String> = Vec::new();
        push_arg(&mut args, string_from("rm"));
        push_arg(&mut args, string_from("-f"));
        push_arg(&mut args, copy_string(&self.container));
        proof {
            assert(strings_view(args@) =~= rm_argv(id));
        }
        let answer = docker.run(&args, None);
        let ghost a = answer;
        proof {
            assert(d.answers("docker"@, rm_argv(id), None, a));
        }
        let out = match answer {
            Err(detail) => {
                return Err(WallError::Lifecycle { detail });
            },
            Ok(o) => o,
        };
        teardown_outcome(&out)
    }
}

/// What `docker rm -f` answered means for the teardown.
pub open spec fn teardown_verdict(success: bool, stderr: Seq<char>) -> Result<Teardown, Seq<char>> {
    if success {
        Ok(Teardown::Removed)
    } else if contains_seq(stderr, "No such container"@) {
        Ok(Teardown::AlreadyGone)
    } else {
        Err("docker rm -f failed: "@ + trim_ws(stderr))
    }
}

/// What `docker rm -f` answered means for the teardown: removed, already
/// gone, or a failure.
pub fn teardown_outcome(out: &CmdOut) -> (r: Result<Teardown, WallError>)
    ensures
        teardown_verdict(out.success, out.stderr@) matches Ok(t) ==> r == Ok::<Teardown, WallError>(t),
        teardown_verdict(out.success, out.stderr@) matches Err(d) ==> (r matches Err(WallError::Lifecycle { detail }) && detail@ == d),
{
    if out.success {
        return Ok(Teardown::Removed);
    }
    let hay = chars_of(out.stderr.as_str());
    let needle = chars_of("No such container");
    if find_seq(&hay, &needle).is_some() {
        return Ok(Teardown::AlreadyGone);
    }
    let t = trim_chars(&hay);
    let mut d = string_from("docker rm -f failed: ");
    let ts = string_from_chars(&t);
    push_str(&mut d, ts.as_str());
    Err(WallError::Lifecycle { detail: d })
}


impl<R: CommandRunner> StageWall for DockerWall<R> {
    closed spec fn is_dead(&self) -> bool {
        self.dead
    }

    fn id(&self) -> &str {
        self.container.as_str()
    }

    fn send(&mut self, request_json: &str) -> Result<String, String> {
        DockerWall::send(self, request_json)
    }

    fn dead(&self) -> (r: bool) {
        self.dead
    }

    fn terminate(self: Box<Self>) -> Result<Teardown, WallError> {
        DockerWall::terminate(*self)
    }
}

} // verus!
