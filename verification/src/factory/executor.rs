//! The executor seam: where a stage's tool calls run, in-process or
//! across a wall. Across the wall, the host keeps the read-hash record: an
//! edit of a file with no recorded read is refused before a crossing is
//! paid for, the expected hash rides to the guest in a field the model
//! never controls, and a successful read or mutation advances the record
//! to the image it reported.
use vstd::prelude::*;

use crate::factory::config::opt_view;
use crate::factory::roster::ToolAccess;
use crate::factory::tools::{ReadRecord, ToolContext, ToolOutcome};
use crate::factory::wall::StageWall;
use crate::text::{push_str, str_eq, string_from};

verus! {

/// Where a stage's tool calls run.
pub enum StageExecutor {
    /// In this process, over the stage's worktree.
    InProcess { ctx: ToolContext, access: ToolAccess },
    /// Across a wall, with the host's read-hash record.
    Sandboxed { wall: Box<dyn StageWall>, access: ToolAccess, read_hashes: ReadRecord },
}

impl StageExecutor {
    /// A dead wall cannot be trusted for another call; in-process
    /// execution has no such state.
    pub fn dead(&self) -> (r: bool)
        ensures
            match self {
                StageExecutor::InProcess { .. } => !r,
                StageExecutor::Sandboxed { wall, .. } => r == wall.is_dead(),
            },
    {
        match self {
            StageExecutor::InProcess { .. } => false,
            StageExecutor::Sandboxed { wall, .. } => wall.dead(),
        }
    }
}

/// The hash an edit request carries across the wall: the one recorded for
/// its path. An edit of a path with no record is refused on the host;
/// other calls carry none.
pub fn expected_hash(name: &str, path: Option<&str>, record: &ReadRecord) -> (r: Result<Option<String>, ToolOutcome>)
    ensures
        name@ == "edit"@ ==> (path matches Some(p) ==> (if record@.contains_key(p@) {
            r matches Ok(Some(h)) && h@ == record@[p@]
        } else {
            r matches Err(o) && o.is_error && o.content@ == "edit: '"@ + p@ + "' has not been read — read it first"@
        })),
        name@ != "edit"@ || path is None ==> r == Ok::<Option<String>, ToolOutcome>(None),
{
    if !str_eq(name, "edit") {
        return Ok(None);
    }
    match path {
        None => Ok(None),
        Some(p) => match record.get(p) {
            Some(h) => Ok(Some(h)),
            None => {
                let mut s = string_from("edit: '");
                push_str(&mut s, p);
                push_str(&mut s, "' has not been read — read it first");
                Err(ToolOutcome::error(s))
            },
        },
    }
}

/// Whether a call's outcome advances the record: a successful read, edit
/// or write with a reported hash, at a named path.
pub open spec fn advances(name: Seq<char>, path: Option<Seq<char>>, outcome: ToolOutcome) -> bool {
    (name == "read"@ || name == "edit"@ || name == "write"@) && !outcome.is_error
        && outcome.hash@.len() > 0 && path is Some
}

/// The record after a call at `path` reported `outcome`: the reported hash
/// replaces what was recorded for the path when the call advances the
/// record; otherwise nothing changes.
pub open spec fn recorded(
    m: Map<Seq<char>, Seq<char>>,
    name: Seq<char>,
    path: Option<Seq<char>>,
    outcome: ToolOutcome,
) -> Map<Seq<char>, Seq<char>> {
    if advances(name, path, outcome) {
        m.insert(path->0, outcome.hash@)
    } else {
        m
    }
}

/// A successful read, edit or write of a path seeds what the next edit of
/// that path carries across the wall: the hash of the image the call
/// reported.
pub proof fn law_success_seeds_the_next_edit(
    m: Map<Seq<char>, Seq<char>>,
    name: Seq<char>,
    p: Seq<char>,
    outcome: ToolOutcome,
)
    requires
        advances(name, Some(p), outcome),
    ensures
        recorded(m, name, Some(p), outcome).contains_key(p),
        recorded(m, name, Some(p), outcome)[p] == outcome.hash@,
{
}

/// Recording never forgets a path: once read, a path stays editable.
pub proof fn law_the_record_never_forgets(
    m: Map<Seq<char>, Seq<char>>,
    name: Seq<char>,
    path: Option<Seq<char>>,
    outcome: ToolOutcome,
    q: Seq<char>,
)
    requires
        m.contains_key(q),
    ensures
        recorded(m, name, path, outcome).contains_key(q),
{
}

/// A failed call changes nothing the record holds.
pub proof fn law_failures_leave_the_record_alone(
    m: Map<Seq<char>, Seq<char>>,
    name: Seq<char>,
    path: Option<Seq<char>>,
    outcome: ToolOutcome,
)
    requires
        outcome.is_error,
    ensures
        recorded(m, name, path, outcome) == m,
{
}

/// The record after a run of calls, each a tool's name, the path it named
/// and the outcome it reported, taken in order.
pub open spec fn record_after(
    m: Map<Seq<char>, Seq<char>>,
    calls: Seq<(Seq<char>, Option<Seq<char>>, ToolOutcome)>,
) -> Map<Seq<char>, Seq<char>>
    decreases calls.len(),
{
    if calls.len() == 0 {
        m
    } else {
        let c = calls.last();
        recorded(record_after(m, calls.drop_last()), c.0, c.1, c.2)
    }
}

/// The position of the last call in a run that advanced the record at `p`.
pub open spec fn last_advance(calls: Seq<(Seq<char>, Option<Seq<char>>, ToolOutcome)>, p: Seq<char>) -> Option<int>
    decreases calls.len(),
{
    if calls.len() == 0 {
        None
    } else if advances(calls.last().0, calls.last().1, calls.last().2) && calls.last().1 == Some(p) {
        Some(calls.len() - 1)
    } else {
        last_advance(calls.drop_last(), p)
    }
}

/// Over any run of calls, the hash an edit of `p` carries next is the one
/// the last successful read, edit or write of `p` reported; a path that no
/// call advanced keeps what it had before the run, and a path never read
/// stays unrecorded, so its edit is refused.
pub proof fn law_an_edit_carries_the_latest_hash(
    m: Map<Seq<char>, Seq<char>>,
    calls: Seq<(Seq<char>, Option<Seq<char>>, ToolOutcome)>,
    p: Seq<char>,
)
    ensures
        match last_advance(calls, p) {
            Some(i) => 0 <= i < calls.len() && record_after(m, calls).contains_key(p)
                && record_after(m, calls)[p] == calls[i].2.hash@,
            None => record_after(m, calls).contains_key(p) == m.contains_key(p)
                && (m.contains_key(p) ==> record_after(m, calls)[p] == m[p]),
        },
    decreases calls.len(),
{
    if calls.len() > 0 {
        law_an_edit_carries_the_latest_hash(m, calls.drop_last(), p);
        match last_advance(calls.drop_last(), p) {
            Some(i) => {
                assert(calls.drop_last()[i] == calls[i]);
            },
            None => {},
        }
    }
}

/// Record what a call reported, so the next request is stamped against the
/// world it made.
pub fn record_outcome(record: &mut ReadRecord, name: &str, path: Option<String>, outcome: &ToolOutcome)
    ensures
        final(record)@ == recorded(old(record)@, name@, opt_view(path), *outcome),
{
    let named = str_eq(name, "read") || str_eq(name, "edit") || str_eq(name, "write");
    if named && !outcome.is_error && !outcome.hash.as_str().is_empty() {
        match path {
            Some(p) => record.insert(p, outcome.hash.clone()),
            None => {},
        }
    }
}

/// The outcome of a request the wall could not carry.
pub fn sandbox_failure(detail: &str) -> (r: ToolOutcome)
    ensures
        r.is_error,
        r.content@ == "sandbox failure: "@ + detail@,
{
    let mut s = string_from("sandbox failure: ");
    push_str(&mut s, detail);
    ToolOutcome::error(s)
}

/// The outcome of a reply the host could not read back.
pub fn unreadable_outcome(error: &str) -> (r: ToolOutcome)
    ensures
        r.is_error,
        r.content@ == "the sandbox returned an unreadable outcome: "@ + error@,
{
    let mut s = string_from("the sandbox returned an unreadable outcome: ");
    push_str(&mut s, error);
    ToolOutcome::error(s)
}

/// The outcome of a call whose arguments were not valid JSON.
pub fn invalid_arguments(name: &str) -> (r: ToolOutcome)
    ensures
        r.is_error,
        r.content@ == name@ + ": arguments were not valid JSON"@,
{
    let mut s = string_from(name);
    push_str(&mut s, ": arguments were not valid JSON");
    ToolOutcome::error(s)
}

} // verus!
