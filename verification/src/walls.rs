//! The microVM wall's decisions. The wall itself (a microVM per stage,
//! driven through the sandbox SDK on an async runtime) runs outside this
//! library; what it decides is decided here: the retired wall dial, the
//! host's fitness for hardware virtualization, the world a seat gets, the
//! sandbox's name, and what a teardown proved.
use vstd::prelude::*;

use crate::factory::roster::ToolAccess;
use crate::factory::sandbox::TOOLLESS_DETAIL;
use crate::factory::wall::{Teardown, WallError};
use crate::text::{chars_of, contains_seq, dec, find_seq, push_str, push_u64, string_from};

verus! {

/// The environment variable that once chose the wall.
pub const WALL_DIAL_VAR: &'static str = "DAEMAR_WALL";

/// The name the microVM wall gives itself in receipts.
pub const MICROVM_WALL_NAME: &'static str = "microsandbox";

/// The guest path the stage's worktree is mounted at: the whole world.
pub const WORKSPACE: &'static str = "/workspace";

/// The one program the guest is expected to run.
pub const EXECUTOR: &'static str = "/cage-executor";

/// The refusal of a stale wall dial.
pub open spec fn dial_refusal(value: Seq<char>) -> Seq<char> {
    "DAEMAR_WALL='"@ + value + "' is retired — microsandbox is the only wall; unset it"@
}

/// The wall dial is retired: unset (or empty) is the only accepted state.
/// Any value left in the environment is stale automation and is refused,
/// naming the value, never silently ignored.
pub fn check_retired_dial(value: Option<&str>) -> (r: Result<(), String>)
    ensures
        (value is None || value->0@.len() == 0) ==> r is Ok,
        value matches Some(v) ==> (v@.len() > 0 ==> (r matches Err(m) && m@ == dial_refusal(v@))),
{
    match value {
        None => Ok(()),
        Some(v) => {
            if v.is_empty() {
                return Ok(());
            }
            let mut m = string_from("DAEMAR_WALL='");
            push_str(&mut m, v);
            push_str(&mut m, "' is retired — microsandbox is the only wall; unset it");
            Err(m)
        },
    }
}

/// Why a Linux host cannot hold a microVM: `/dev/kvm` absent, or present
/// but not openable by this user. The two have different remedies and are
/// kept apart.
pub open spec fn kvm_refusal(exists: bool, openable: bool) -> Option<Seq<char>> {
    if !exists {
        Some(
            "/dev/kvm is absent — microVMs need hardware virtualization (inside a VM, enable nested virt)"@,
        )
    } else if !openable {
        Some("/dev/kvm exists but this user cannot open it — add the user to the kvm group"@)
    } else {
        None
    }
}

/// Preflight on a Linux host: proves the host can hold a wall before a
/// slip is minted, from whether `/dev/kvm` exists and whether this user
/// can open it for reading and writing.
pub fn kvm_preflight(exists: bool, openable: bool) -> (r: Result<(), WallError>)
    ensures
        kvm_refusal(exists, openable) is None ==> r is Ok,
        kvm_refusal(exists, openable) matches Some(d) ==> (r matches Err(WallError::Unavailable { detail }) && detail@ == d),
{
    if !exists {
        return Err(
            WallError::Unavailable {
                detail: string_from(
                    "/dev/kvm is absent — microVMs need hardware virtualization (inside a VM, enable nested virt)",
                ),
            },
        );
    }
    if !openable {
        return Err(
            WallError::Unavailable {
                detail: string_from(
                    "/dev/kvm exists but this user cannot open it — add the user to the kvm group",
                ),
            },
        );
    }
    Ok(())
}

/// Whether a seat's world is read-only: a read-only seat gets a read-only
/// worktree, a write seat a writable one, and a toolless seat no wall.
pub fn seat_read_only(access: ToolAccess) -> (r: Result<bool, WallError>)
    ensures
        access == ToolAccess::Toolless ==> (r matches Err(WallError::Lifecycle { detail }) && detail@ == TOOLLESS_DETAIL@),
        access == ToolAccess::ReadOnly ==> r == Ok::<bool, WallError>(true),
        access == ToolAccess::ReadWrite ==> r == Ok::<bool, WallError>(false),
{
    match access {
        ToolAccess::Toolless => Err(WallError::Lifecycle { detail: string_from(TOOLLESS_DETAIL) }),
        ToolAccess::ReadOnly => Ok(true),
        ToolAccess::ReadWrite => Ok(false),
    }
}

/// A stage's sandbox name: the hint and the host process id.
pub open spec fn microvm_name(name_hint: Seq<char>, pid: u32) -> Seq<char> {
    "daemar-"@ + name_hint + "-"@ + dec(pid as nat)
}

/// A stage's sandbox name.
pub fn sandbox_name(name_hint: &str, pid: u32) -> (r: String)
    ensures
        r@ == microvm_name(name_hint@, pid),
{
    let mut s = string_from("daemar-");
    push_str(&mut s, name_hint);
    push_str(&mut s, "-");
    push_u64(&mut s, pid as u64);
    s
}

/// What a teardown proved, from how the removal went and how the stop
/// before it went: removed; already gone when the SDK reports the sandbox
/// not found or not existing (the goal holds, an anomaly worth a note);
/// else a lifecycle failure that tells both stories.
pub open spec fn removal_verdict(remove: Result<(), Seq<char>>, stop: Result<(), Seq<char>>) -> Result<
    Teardown,
    Seq<char>,
> {
    match remove {
        Ok(()) => Ok(Teardown::Removed),
        Err(d) => if contains_seq(d, "not found"@) || contains_seq(d, "does not exist"@) {
            Ok(Teardown::AlreadyGone)
        } else {
            match stop {
                Ok(()) => Err("sandbox remove failed: "@ + d),
                Err(s) => Err("sandbox stop failed ("@ + s + ") and remove failed: "@ + d),
            }
        },
    }
}

/// The text of an outcome.
pub open spec fn outcome_view(o: Result<(), String>) -> Result<(), Seq<char>> {
    match o {
        Ok(()) => Ok(()),
        Err(e) => Err(e@),
    }
}

/// What a teardown proved.
pub fn teardown_after_removal(remove: &Result<(), String>, stop: &Result<(), String>) -> (r: Result<
    Teardown,
    WallError,
>)
    ensures
        removal_verdict(outcome_view(*remove), outcome_view(*stop)) matches Ok(t) ==> r == Ok::<Teardown, WallError>(t),
        removal_verdict(outcome_view(*remove), outcome_view(*stop)) matches Err(d) ==> (r matches Err(WallError::Lifecycle { detail }) && detail@ == d),
{
    match remove {
        Ok(()) => Ok(Teardown::Removed),
        Err(d) => {
            let hay = chars_of(d.as_str());
            if find_seq(&hay, &chars_of("not found")).is_some() || find_seq(
                &hay,
                &chars_of("does not exist"),
            ).is_some() {
                return Ok(Teardown::AlreadyGone);
            }
            match stop {
                Ok(()) => {
                    let mut m = string_from("sandbox remove failed: ");
                    push_str(&mut m, d.as_str());
                    Err(WallError::Lifecycle { detail: m })
                },
                Err(s) => {
                    let mut m = string_from("sandbox stop failed (");
                    push_str(&mut m, s.as_str());
                    push_str(&mut m, ") and remove failed: ");
                    push_str(&mut m, d.as_str());
                    Err(WallError::Lifecycle { detail: m })
                },
            }
        },
    }
}

/// How a request the microVM could not carry reads: the exec itself
/// failed, or its output could not be read.
pub enum SendFailure {
    /// The sandbox was torn down already.
    TornDown,
    /// The exec failed, with the SDK's description.
    Exec(String),
    /// The exec's output was unreadable, with the SDK's description.
    Stdout(String),
}

/// The message of a failed send.
pub open spec fn send_failure_text(f: SendFailure) -> Seq<char> {
    match f {
        SendFailure::TornDown => "sandbox already torn down"@,
        SendFailure::Exec(e) => "sandbox exec failed: "@ + e@,
        SendFailure::Stdout(e) => "sandbox stdout was unreadable: "@ + e@,
    }
}

/// The message of a failed send; any failure marks the session dead.
pub fn send_failure(f: SendFailure) -> (r: String)
    ensures
        r@ == send_failure_text(f),
{
    match f {
        SendFailure::TornDown => string_from("sandbox already torn down"),
        SendFailure::Exec(e) => {
            let mut m = string_from("sandbox exec failed: ");
            push_str(&mut m, e.as_str());
            m
        },
        SendFailure::Stdout(e) => {
            let mut m = string_from("sandbox stdout was unreadable: ");
            push_str(&mut m, e.as_str());
            m
        },
    }
}

} // verus!
