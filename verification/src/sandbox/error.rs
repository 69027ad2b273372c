//! The failure surface of a sandboxed run. A failure's message describes
//! it; the cause behind it (an operating-system error's description) is
//! carried separately and never part of the message.
use vstd::prelude::*;

use crate::text::{debug_str, dec, idec, push_int, push_str, push_u64, str_debug, string_from};

verus! {

/// Which stage of the in-guest driver failed.
#[derive(Debug, Clone, Copy, PartialEq, Eq, Structural)]
pub enum DriverStage {
    /// `mkdir -p` of the overlay directories failed (before the workload).
    Mkdir,
    /// The overlay mount failed (before the workload).
    OverlayMount,
    /// `cd` into the merged overlay failed (before the workload).
    Cd,
    /// Export of the change archive failed after the workload ran; its
    /// exit code was recorded and is carried here.
    Export { workload_exit: i32 },
    /// Container-level failure (bad image, runtime error); whether the
    /// workload ran is unknown.
    Container,
}

/// The short label of a stage.
pub open spec fn stage_label(s: DriverStage) -> Seq<char> {
    match s {
        DriverStage::Mkdir => "mkdir"@,
        DriverStage::OverlayMount => "overlay mount"@,
        DriverStage::Cd => "cd"@,
        DriverStage::Export { .. } => "export"@,
        DriverStage::Container => "container"@,
    }
}

impl DriverStage {
    /// The short label used in diagnostics.
    pub fn label(&self) -> (r: String)
        ensures
            r@ == stage_label(*self),
    {
        match self {
            DriverStage::Mkdir => string_from("mkdir"),
            DriverStage::OverlayMount => string_from("overlay mount"),
            DriverStage::Cd => string_from("cd"),
            DriverStage::Export { .. } => string_from("export"),
            DriverStage::Container => string_from("container"),
        }
    }
}

/// Everything that can go wrong in a sandboxed run.
#[derive(Debug, Clone, PartialEq, Eq)]
pub enum Error {
    /// The requested worktree does not exist or is not a directory; the
    /// cause is present when resolving the path failed.
    BadWorktree { path: String, source: Option<String> },
    /// The command was empty: there is nothing to run.
    EmptyCommand,
    /// The per-run session directory could not be prepared.
    Session { path: String, source: String },
    /// The `container` CLI could not be spawned.
    Spawn(String),
    /// The run exceeded its wall-clock limit, in seconds, and was killed.
    Timeout(u64),
    /// The in-guest driver failed at `stage`; `code` is the container's
    /// exit code, when it exited at all.
    Driver { stage: DriverStage, code: Option<i32> },
    /// The run's results could not be read back.
    Results(String),
    /// The exported change archive was malformed.
    Archive(String),
    /// The driver's exit-code file held something other than an integer.
    ExitCode { raw: String },
    /// A failure during a named host-side operation.
    Io(String, String),
}

/// The `Debug` rendering of an optional exit code.
pub open spec fn code_debug(c: Option<i32>) -> Seq<char> {
    match c {
        Some(v) => "Some("@ + idec(v as int) + ")"@,
        None => "None"@,
    }
}

/// Renders an optional exit code as `Debug` does.
pub fn fmt_code(c: Option<i32>) -> (r: String)
    ensures
        r@ == code_debug(c),
{
    match c {
        Some(v) => {
            let mut s = string_from("Some(");
            push_int(&mut s, v as i64);
            push_str(&mut s, ")");
            s
        },
        None => string_from("None"),
    }
}

/// The message of a failure.
pub open spec fn error_text(e: Error) -> Seq<char> {
    match e {
        Error::BadWorktree { path, .. } => "worktree "@ + path@
            + " does not exist or is not a directory"@,
        Error::EmptyCommand => "command must not be empty"@,
        Error::Session { path, .. } => "failed to prepare session directory "@ + path@,
        Error::Spawn(_) => "failed to spawn `container` (is the container CLI installed and running?)"@,
        Error::Timeout(secs) => "run exceeded timeout of "@ + dec(secs as nat)
            + "s and was killed"@,
        Error::Driver { stage, code } => match stage {
            DriverStage::Export { workload_exit } =>
                "driver failed to export changes after the command ran (workload exit code "@
                + idec(workload_exit as int) + "); container exit code "@ + code_debug(code),
            DriverStage::Container =>
                "container failed (bad image or runtime error); container exit code "@
                + code_debug(code),
            _ => "driver failed before the command ran ("@ + stage_label(stage)
                + "); container exit code "@ + code_debug(code),
        },
        Error::Results(_) => "failed to read run results from session"@,
        Error::Archive(_) => "malformed change archive"@,
        Error::ExitCode { raw } => "unparseable workload exit code "@ + str_debug(raw@),
        Error::Io(during, _) => "io error during "@ + during@,
    }
}

/// The cause behind a failure, when there is one.
pub open spec fn error_cause(e: Error) -> Option<Seq<char>> {
    match e {
        Error::BadWorktree { source, .. } => match source {
            Some(s) => Some(s@),
            None => None,
        },
        Error::Session { source, .. } => Some(source@),
        Error::Spawn(s) => Some(s@),
        Error::Results(s) => Some(s@),
        Error::Archive(s) => Some(s@),
        Error::Io(_, s) => Some(s@),
        _ => None,
    }
}

impl Error {
    /// The message describing this failure.
    pub fn message(&self) -> (r: String)
        ensures
            r@ == error_text(*self),
    {
        match self {
            Error::BadWorktree { path, .. } => {
                let mut s = string_from("worktree ");
                push_str(&mut s, path.as_str());
                push_str(&mut s, " does not exist or is not a directory");
                s
            },
            Error::EmptyCommand => string_from("command must not be empty"),
            Error::Session { path, .. } => {
                let mut s = string_from("failed to prepare session directory ");
                push_str(&mut s, path.as_str());
                s
            },
            Error::Spawn(_) => string_from(
                "failed to spawn `container` (is the container CLI installed and running?)",
            ),
            Error::Timeout(secs) => {
                let mut s = string_from("run exceeded timeout of ");
                push_u64(&mut s, *secs);
                push_str(&mut s, "s and was killed");
                s
            },
            Error::Driver { stage, code } => {
                let c = fmt_code(*code);
                match stage {
                    DriverStage::Export { workload_exit } => {
                        let mut s = string_from(
                            "driver failed to export changes after the command ran (workload exit code ",
                        );
                        push_int(&mut s, *workload_exit as i64);
                        push_str(&mut s, "); container exit code ");
                        push_str(&mut s, c.as_str());
                        s
                    },
                    DriverStage::Container => {
                        let mut s = string_from(
                            "container failed (bad image or runtime error); container exit code ",
                        );
                        push_str(&mut s, c.as_str());
                        s
                    },
                    _ => {
                        let mut s = string_from("driver failed before the command ran (");
                        let l = stage.label();
                        push_str(&mut s, l.as_str());
                        push_str(&mut s, "); container exit code ");
                        push_str(&mut s, c.as_str());
                        s
                    },
                }
            },
            Error::Results(_) => string_from("failed to read run results from session"),
            Error::Archive(_) => string_from("malformed change archive"),
            Error::ExitCode { raw } => {
                let mut s = string_from("unparseable workload exit code ");
                let q = debug_str(raw.as_str());
                push_str(&mut s, q.as_str());
                s
            },
            Error::Io(during, _) => {
                let mut s = string_from("io error during ");
                push_str(&mut s, during.as_str());
                s
            },
        }
    }

    /// The cause behind this failure, when there is one.
    pub fn cause(&self) -> (r: Option<&String>)
        ensures
            r matches Some(c) ==> error_cause(*self) == Some(c@),
            r is None ==> error_cause(*self) is None,
    {
        match self {
            Error::BadWorktree { source, .. } => match source {
                Some(s) => Some(s),
                None => None,
            },
            Error::Session { source, .. } => Some(source),
            Error::Spawn(s) => Some(s),
            Error::Results(s) => Some(s),
            Error::Archive(s) => Some(s),
            Error::Io(_, s) => Some(s),
            _ => None,
        }
    }
}

} // verus!
