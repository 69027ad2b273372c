//! The flights' decisions: how a flight fails, the receipts that carry a
//! stamped artifact's coordinates across a boundary, and where a granted
//! slip continues.
use vstd::prelude::*;

use crate::card::json::{json_quote, json_string};
use crate::factory::engine::{short, short_of, summarize, summary_of};
use crate::factory::roster::{Role, ToolAccess};
use crate::factory::wall::WallMode;
use crate::path::is_absolute;
use crate::ledger::event::PhaseOutcome;
use crate::ledger::fold::{opt_view, rows_view, ClearanceRow, ClearanceRowV, SectionRow, SectionRowV};
use crate::text::{all_ws, chars_of, copy_string, is_blank, push_str, str_eq, string_from};

verus! {

/// The boundary between a plan and its response.
pub const PLAN_TO_RESPOND: &'static str = "plan->respond";

/// The boundary between a build and its application.
pub const BUILD_TO_APPLY: &'static str = "build->apply";

/// The boundary between a parked commit and its landing.
pub const APPLY_TO_LAND: &'static str = "apply->land";

/// How a flight fails; every variant is a different conversation with the
/// controller.
#[derive(Debug, Clone, PartialEq, Eq)]
pub enum FlightError {
    /// The flight never happened and no events were minted; says why.
    Refused(String),
    /// A phase failed, the reason is on the ledger, and the slip stays open.
    Failed { slip_id: String },
    /// The ledger itself could not be written; its description.
    Ledger(String),
}

/// The message of a flight failure.
pub open spec fn flight_error_text(e: FlightError) -> Seq<char> {
    match e {
        FlightError::Refused(m) => m@,
        FlightError::Failed { slip_id } => "slip "@ + slip_id@ + " failed; reason on the ledger"@,
        FlightError::Ledger(d) => "ledger failure: "@ + d@,
    }
}

impl FlightError {
    /// The message describing this failure.
    pub fn message(&self) -> (r: String)
        ensures
            r@ == flight_error_text(*self),
    {
        match self {
            FlightError::Refused(m) => string_from(m.as_str()),
            FlightError::Failed { slip_id } => {
                let mut s = string_from("slip ");
                push_str(&mut s, slip_id.as_str());
                push_str(&mut s, " failed; reason on the ledger");
                s
            },
            FlightError::Ledger(d) => {
                let mut s = string_from("ledger failure: ");
                push_str(&mut s, d.as_str());
                s
            },
        }
    }
}

// ── Territories ─────────────────────────────────────────────────────────────

/// A territory, given what resolving it gave: its canonical path and
/// whether that is a directory, or why it could not be resolved.
pub fn canonical_territory(repo: &str, resolved: Result<(String, bool), String>) -> (r: Result<String, FlightError>)
    ensures
        resolved matches Err(e) ==> (r matches Err(FlightError::Refused(m)) && m@ == "territory "@ + repo@ + " cannot be resolved: "@ + e@),
        resolved matches Ok((c, is_dir)) ==> (if is_dir {
            r == Ok::<String, FlightError>(c)
        } else {
            r matches Err(FlightError::Refused(m)) && m@ == "territory "@ + c@ + " is not a directory"@
        }),
{
    match resolved {
        Err(e) => {
            let mut m = string_from("territory ");
            push_str(&mut m, repo);
            push_str(&mut m, " cannot be resolved: ");
            push_str(&mut m, e.as_str());
            Err(FlightError::Refused(m))
        },
        Ok((c, is_dir)) => {
            if is_dir {
                Ok(c)
            } else {
                let mut m = string_from("territory ");
                push_str(&mut m, c.as_str());
                push_str(&mut m, " is not a directory");
                Err(FlightError::Refused(m))
            }
        },
    }
}

/// The refusal of a territory whose HEAD cannot be pinned.
pub fn unpinnable(source: &str, error: &str) -> (r: FlightError)
    ensures
        r matches FlightError::Refused(m) && m@ == "territory "@ + source@ + " cannot pin: "@ + error@,
{
    let mut m = string_from("territory ");
    push_str(&mut m, source);
    push_str(&mut m, " cannot pin: ");
    push_str(&mut m, error);
    FlightError::Refused(m)
}

/// Whether pinning a territory preflights the wall: a write seat always
/// does; a read-only seat follows the cage dial.
pub fn needs_preflight(access: ToolAccess, dial: WallMode) -> (r: bool)
    ensures
        r == (access == ToolAccess::ReadWrite || dial == WallMode::On),
{
    access == ToolAccess::ReadWrite || dial == WallMode::On
}

// ── Receipts ────────────────────────────────────────────────────────────────

/// Whether a character is an ASCII hexadecimal digit.
pub open spec fn is_hex(c: char) -> bool {
    ('0' <= c && c <= '9') || ('a' <= c && c <= 'f') || ('A' <= c && c <= 'F')
}

/// Exactly forty hexadecimal characters: the only shape a stamped commit
/// takes.
pub open spec fn full_sha(s: Seq<char>) -> bool {
    s.len() == 40 && forall|i: int| 0 <= i < s.len() ==> is_hex(#[trigger] s[i])
}

/// Whether a text is a full commit SHA.
pub fn is_full_sha(s: &str) -> (r: bool)
    ensures
        r == full_sha(s@),
{
    let v = chars_of(s);
    if v.len() != 40 {
        return false;
    }
    let mut i: usize = 0;
    while i < v.len()
        invariant
            i <= v@.len(),
            v@.len() == 40,
            v@ == s@,
            forall|j: int| 0 <= j < i ==> is_hex(#[trigger] v@[j]),
        decreases v@.len() - i,
    {
        let c = v[i];
        if !(('0' <= c && c <= '9') || ('a' <= c && c <= 'f') || ('A' <= c && c <= 'F')) {
            proof {
                assert(!is_hex(v@[i as int]));
            }
            return false;
        }
        i = i + 1;
    }
    true
}

/// The diff receipt: the canonical carrier of a stamped artifact's
/// coordinates, as compact JSON with its members in key order.
pub open spec fn diff_receipt_text(base: Seq<char>, worktree: Seq<char>) -> Seq<char> {
    "{\"base\":"@ + json_string(base) + ",\"v\":1,\"worktree\":"@ + json_string(worktree) + "}"@
}

/// The diff receipt of a build's worktree over its base.
pub fn diff_receipt(base: &str, worktree: &str) -> (r: String)
    ensures
        r@ == diff_receipt_text(base@, worktree@),
{
    let mut s = string_from("{\"base\":");
    push_str(&mut s, json_quote(base).as_str());
    push_str(&mut s, ",\"v\":1,\"worktree\":");
    push_str(&mut s, json_quote(worktree).as_str());
    push_str(&mut s, "}");
    s
}

/// The park receipt: what the land leg needs, as compact JSON with its
/// members in key order.
pub open spec fn park_receipt_text(base: Seq<char>, worktree: Seq<char>, commit: Seq<char>, branch: Seq<char>) -> Seq<char> {
    "{\"base\":"@ + json_string(base) + ",\"branch\":"@ + json_string(branch) + ",\"commit\":"@
        + json_string(commit) + ",\"v\":1,\"worktree\":"@ + json_string(worktree) + "}"@
}

/// The park receipt of a commit parked on a branch.
pub fn park_receipt(base: &str, worktree: &str, commit: &str, branch: &str) -> (r: String)
    ensures
        r@ == park_receipt_text(base@, worktree@, commit@, branch@),
{
    let mut s = string_from("{\"base\":");
    push_str(&mut s, json_quote(base).as_str());
    push_str(&mut s, ",\"branch\":");
    push_str(&mut s, json_quote(branch).as_str());
    push_str(&mut s, ",\"commit\":");
    push_str(&mut s, json_quote(commit).as_str());
    push_str(&mut s, ",\"v\":1,\"worktree\":");
    push_str(&mut s, json_quote(worktree).as_str());
    push_str(&mut s, "}");
    s
}

/// A decoded diff receipt.
#[derive(Debug, Clone, PartialEq, Eq)]
pub struct DiffReceipt {
    pub base: String,
    pub worktree: String,
}

/// The members a receipt's JSON carried, each when it has the expected
/// JSON type: `v` as an unsigned integer, the others as strings.
#[derive(Debug, Clone, PartialEq, Eq)]
pub struct ReceiptFields {
    pub v: Option<u64>,
    pub base: Option<String>,
    pub worktree: Option<String>,
    pub commit: Option<String>,
    pub branch: Option<String>,
}

/// A diff receipt is held to the shape it was written in: version 1, a
/// full commit base, an absolute worktree.
pub fn decode_diff_receipt(f: &ReceiptFields) -> (r: Option<DiffReceipt>)
    ensures
        r matches Some(d) ==> f.v == Some(1u64) && f.base == Some(d.base) && f.worktree == Some(d.worktree)
            && full_sha(d.base@) && is_absolute(d.worktree@),
        r is None ==> !(f.v == Some(1u64) && f.base is Some && f.worktree is Some && full_sha(f.base->0@) && is_absolute(f.worktree->0@)),
{
    match (f.v, &f.base, &f.worktree) {
        (Some(1), Some(base), Some(worktree)) => {
            let wv = chars_of(worktree.as_str());
            if is_full_sha(base.as_str()) && wv.len() > 0 && wv[0] == '/' {
                Some(DiffReceipt { base: base.clone(), worktree: worktree.clone() })
            } else {
                None
            }
        },
        _ => None,
    }
}

/// A decoded park receipt.
#[derive(Debug, Clone, PartialEq, Eq)]
pub struct ParkReceipt {
    pub base: String,
    pub worktree: String,
    pub commit: String,
    pub branch: String,
}

/// A park receipt is held to the shape it was written in: version 1, full
/// commits for base and commit, an absolute worktree, a named branch.
pub fn decode_park_receipt(f: &ReceiptFields) -> (r: Option<ParkReceipt>)
    ensures
        r matches Some(p) ==> f.v == Some(1u64) && f.base == Some(p.base) && f.worktree == Some(p.worktree)
            && f.commit == Some(p.commit) && f.branch == Some(p.branch) && full_sha(p.base@) && full_sha(p.commit@)
            && is_absolute(p.worktree@) && p.branch@.len() > 0,
        r is None ==> !(f.v == Some(1u64) && f.base is Some && f.worktree is Some && f.commit is Some && f.branch is Some
            && full_sha(f.base->0@) && full_sha(f.commit->0@) && is_absolute(f.worktree->0@) && f.branch->0@.len() > 0),
{
    match (f.v, &f.base, &f.worktree, &f.commit, &f.branch) {
        (Some(1), Some(base), Some(worktree), Some(commit), Some(branch)) => {
            let wv = chars_of(worktree.as_str());
            if is_full_sha(base.as_str()) && is_full_sha(commit.as_str()) && wv.len() > 0 && wv[0]
                == '/' && !branch.as_str().is_empty() {
                Some(
                    ParkReceipt {
                        base: base.clone(),
                        worktree: worktree.clone(),
                        commit: commit.clone(),
                        branch: branch.clone(),
                    },
                )
            } else {
                None
            }
        },
        _ => None,
    }
}

// ── What a continuing leg reads off the slip ────────────────────────────────

/// The section a diff receipt is written under.
pub const DIFF_SECTION: &'static str = "diff.v1";

/// The section a park receipt is written under.
pub const APPLY_SECTION: &'static str = "apply.v1";

/// Who granted an application when the ledger does not say.
pub const UNKNOWN_GRANTER: &'static str = "unknown";

/// The index of the newest section of the given name: a later section of
/// the same name supersedes an earlier one.
pub open spec fn newest_section_index(rows: Seq<SectionRowV>, name: Seq<char>) -> Option<int>
    decreases rows.len(),
{
    if rows.len() == 0 {
        None
    } else if rows.last().section == name {
        Some(rows.len() - 1)
    } else {
        newest_section_index(rows.drop_last(), name)
    }
}

/// Who granted the build->apply boundary: the answer to the newest request
/// at that boundary, or the unknown granter when that request has no answer
/// or none was made.
pub open spec fn apply_granter_of(rows: Seq<ClearanceRowV>) -> Seq<char>
    decreases rows.len(),
{
    if rows.len() == 0 {
        UNKNOWN_GRANTER@
    } else if rows.last().boundary == BUILD_TO_APPLY@ {
        match rows.last().response {
            Some(r) => r.by,
            None => UNKNOWN_GRANTER@,
        }
    } else {
        apply_granter_of(rows.drop_last())
    }
}

proof fn lemma_newest_section_index(rows: Seq<SectionRowV>, name: Seq<char>)
    ensures
        match newest_section_index(rows, name) {
            Some(i) => 0 <= i < rows.len() && rows[i].section == name
                && forall|j: int| i < j < rows.len() ==> rows[j].section != name,
            None => forall|j: int| 0 <= j < rows.len() ==> rows[j].section != name,
        },
    decreases rows.len(),
{
    if rows.len() > 0 && rows.last().section != name {
        let front = rows.drop_last();
        lemma_newest_section_index(front, name);
        assert(forall|j: int| 0 <= j < front.len() ==> #[trigger] front[j] == rows[j]);
        match newest_section_index(front, name) {
            Some(i) => {
                assert forall|j: int| i < j < rows.len() implies rows[j].section != name by {
                    if j < front.len() {
                        assert(front[j] == rows[j]);
                    }
                }
            },
            None => {
                assert forall|j: int| 0 <= j < rows.len() implies rows[j].section != name by {
                    if j < front.len() {
                        assert(front[j] == rows[j]);
                    }
                }
            },
        }
    }
}

/// Find the newest section of the given name among a slip's sections.
pub fn newest_section(sections: &Vec<SectionRow>, name: &str) -> (r: Option<usize>)
    ensures
        r == (match newest_section_index(rows_view(sections@), name@) {
            Some(i) => Some(i as usize),
            None => None::<usize>,
        }),
        match r {
            Some(i) => i < sections.len() && sections@[i as int].section@ == name@
                && forall|j: int| i < j < sections.len() ==> sections@[j].section@ != name@,
            None => forall|j: int| 0 <= j < sections.len() ==> sections@[j].section@ != name@,
        },
{
    let mut k: usize = sections.len();
    assert(sections@.subrange(0, k as int) == sections@);
    let ghost full = rows_view(sections@);
    assert(forall|j: int| 0 <= j < sections.len() ==> #[trigger] full[j] == sections@[j]@);
    while k > 0
        invariant
            k <= sections.len(),
            full == rows_view(sections@),
            forall|j: int| 0 <= j < sections.len() ==> #[trigger] full[j] == sections@[j]@,
            newest_section_index(rows_view(sections@), name@)
                == newest_section_index(rows_view(sections@.subrange(0, k as int)), name@),
        decreases k,
    {
        let ghost pre = rows_view(sections@.subrange(0, k as int));
        assert(pre.drop_last() == rows_view(sections@.subrange(0, k - 1)));
        if str_eq(sections[k - 1].section.as_str(), name) {
            proof {
                assert(pre.last() == sections@[k - 1]@);
                lemma_newest_section_index(full, name@);
                assert forall|j: int| k - 1 < j < sections.len() implies sections@[j].section@ != name@ by {
                    assert(full[j] == sections@[j]@);
                }
            }
            return Some(k - 1);
        }
        k = k - 1;
    }
    proof {
        assert(rows_view(sections@.subrange(0, 0)).len() == 0);
        lemma_newest_section_index(full, name@);
        assert forall|j: int| 0 <= j < sections.len() implies sections@[j].section@ != name@ by {
            assert(full[j] == sections@[j]@);
        }
    }
    None
}

/// Who granted the build->apply boundary, as the ledger records it.
pub fn apply_granter(clearances: &Vec<ClearanceRow>) -> (r: String)
    ensures
        r@ == apply_granter_of(rows_view(clearances@)),
{
    let mut k: usize = clearances.len();
    assert(clearances@.subrange(0, k as int) == clearances@);
    while k > 0
        invariant
            k <= clearances.len(),
            apply_granter_of(rows_view(clearances@))
                == apply_granter_of(rows_view(clearances@.subrange(0, k as int))),
        decreases k,
    {
        let ghost pre = rows_view(clearances@.subrange(0, k as int));
        assert(pre.drop_last() == rows_view(clearances@.subrange(0, k - 1)));
        let row = &clearances[k - 1];
        assert(pre.last() == clearances@[k - 1]@);
        if str_eq(row.boundary.as_str(), BUILD_TO_APPLY) {
            return match &row.response {
                Some(resp) => resp.by.clone(),
                None => string_from(UNKNOWN_GRANTER),
            };
        }
        k = k - 1;
    }
    string_from(UNKNOWN_GRANTER)
}

/// The section a plan is written under.
pub const PLAN_SECTION: &'static str = "plan.v1";

/// The refusal when the responder leg finds no plan to continue from.
pub fn no_plan_refusal(slip_id: &str) -> (r: FlightError)
    ensures
        r matches FlightError::Refused(m) && m@ == slip_id@ + " has no plan.v1 section to continue from"@,
{
    let mut m = string_from(slip_id);
    push_str(&mut m, " has no plan.v1 section to continue from");
    FlightError::Refused(m)
}

/// The refusal when a continuing leg finds no receipt it can decode.
pub fn no_receipt_refusal(slip_id: &str, section: &str, verb: &str) -> (r: FlightError)
    ensures
        r matches FlightError::Refused(m) && m@ == slip_id@ + " has no decodable "@ + section@ + " receipt — cannot "@ + verb@,
{
    let mut m = string_from(slip_id);
    push_str(&mut m, " has no decodable ");
    push_str(&mut m, section);
    push_str(&mut m, " receipt — cannot ");
    push_str(&mut m, verb);
    FlightError::Refused(m)
}

// ── Continuing a slip ───────────────────────────────────────────────────────

/// Where a granted slip continues.
#[derive(Debug, Clone, PartialEq, Eq)]
pub enum Leg {
    /// The responder, after plan->respond.
    Respond,
    /// The apply gate, after build->apply.
    Apply,
    /// The land gate, after apply->land.
    Land,
}

/// Route a slip by the fold's projections: a slip awaiting clearance is
/// refused; the granted boundary nothing has flown since picks the leg.
pub fn route(slip_id: &str, cocked: Option<&str>, holding: Option<&str>) -> (r: Result<Leg, FlightError>)
    ensures
        cocked matches Some(b) ==> (r matches Err(FlightError::Refused(m)) && m@ == slip_id@ + " is awaiting clearance at "@ + b@ + " — daemar grant "@ + slip_id@ + " first"@),
        cocked is None ==> (holding matches Some(h) ==> (if h@ == PLAN_TO_RESPOND@ {
            r == Ok::<Leg, FlightError>(Leg::Respond)
        } else if h@ == BUILD_TO_APPLY@ {
            r == Ok::<Leg, FlightError>(Leg::Apply)
        } else if h@ == APPLY_TO_LAND@ {
            r == Ok::<Leg, FlightError>(Leg::Land)
        } else {
            r matches Err(FlightError::Refused(m)) && m@ == slip_id@ + " holds an unknown boundary '"@ + h@ + "' — this daemar does not fly it"@
        })),
        cocked is None && holding is None ==> (r matches Err(FlightError::Refused(m)) && m@ == slip_id@ + " has no granted boundary awaiting throttle — nothing to continue"@),
{
    match cocked {
        Some(b) => {
            let mut m = string_from(slip_id);
            push_str(&mut m, " is awaiting clearance at ");
            push_str(&mut m, b);
            push_str(&mut m, " — daemar grant ");
            push_str(&mut m, slip_id);
            push_str(&mut m, " first");
            Err(FlightError::Refused(m))
        },
        None => match holding {
            Some(h) => {
                if str_eq(h, PLAN_TO_RESPOND) {
                    Ok(Leg::Respond)
                } else if str_eq(h, BUILD_TO_APPLY) {
                    Ok(Leg::Apply)
                } else if str_eq(h, APPLY_TO_LAND) {
                    Ok(Leg::Land)
                } else {
                    let mut m = string_from(slip_id);
                    push_str(&mut m, " holds an unknown boundary '");
                    push_str(&mut m, h);
                    push_str(&mut m, "' — this daemar does not fly it");
                    Err(FlightError::Refused(m))
                }
            },
            None => {
                let mut m = string_from(slip_id);
                push_str(&mut m, " has no granted boundary awaiting throttle — nothing to continue");
                Err(FlightError::Refused(m))
            },
        },
    }
}

/// The responder's printout, assembled from the ledger alone: the request,
/// the plan, the task.
pub fn respond_printout(request: &str, plan: &str) -> (r: String)
    ensures
        r@ == "## Request\n\n"@ + request@ + "\n\n## Plan (from the plan phase)\n\n"@ + plan@
            + "\n\n## Task\n\nAnswer the request, following the plan."@,
{
    let mut s = string_from("## Request\n\n");
    push_str(&mut s, request);
    push_str(&mut s, "\n\n## Plan (from the plan phase)\n\n");
    push_str(&mut s, plan);
    push_str(&mut s, "\n\n## Task\n\nAnswer the request, following the plan.");
    s
}

/// The message of the apply gate's commit: the slip, the request's
/// summary, who granted it.
pub fn apply_commit_message(slip_id: &str, request: &str, granter: &str) -> (r: String)
    ensures
        r@ == "slip "@ + slip_id@ + ": "@ + summary_of(request@) + "\n\ngranted-by: "@ + granter@
            + "\nvia: daemar gate:apply"@,
{
    let mut s = string_from("slip ");
    push_str(&mut s, slip_id);
    push_str(&mut s, ": ");
    push_str(&mut s, summarize(request).as_str());
    push_str(&mut s, "\n\ngranted-by: ");
    push_str(&mut s, granter);
    push_str(&mut s, "\nvia: daemar gate:apply");
    s
}

/// The branch a slip's commit parks on.
pub fn park_branch(slip_id: &str) -> (r: String)
    ensures
        r@ == "daemar/slip-"@ + short_of(slip_id@),
{
    let mut s = string_from("daemar/slip-");
    push_str(&mut s, short(slip_id).as_str());
    s
}

/// How the apply gate ends once the commit exists: a clean territory still
/// at the base fast-forwards and closes; anything else parks.
pub fn lands_directly(dirty: bool, head_now: &str, base: &str) -> (r: bool)
    ensures
        r == (!dirty && head_now@ == base@),
{
    !dirty && str_eq(head_now, base)
}

/// Why a commit parked.
pub fn park_reason(dirty: bool) -> (r: &'static str)
    ensures
        dirty ==> r@ == "territory dirty"@,
        !dirty ==> r@ == "territory HEAD moved"@,
{
    if dirty {
        "territory dirty"
    } else {
        "territory HEAD moved"
    }
}

/// Whether the land leg may close the slip: the commit is already
/// reachable from the territory's HEAD, or the territory is clean and
/// still at the base.
pub fn may_land(landed_already: bool, dirty: bool, head: &str, base: &str) -> (r: bool)
    ensures
        r == (landed_already || (!dirty && head@ == base@)),
{
    landed_already || (!dirty && str_eq(head, base))
}


// ── Flights ─────────────────────────────────────────────────────────────────

/// The flights a slip can take: the model-seated ones, and the responder
/// leg that continues a granted plan.
#[derive(Debug, Clone, Copy, PartialEq, Eq, Structural)]
pub enum FlightKind {
    /// One responder stage; closes accepted.
    Prompt,
    /// A grounded plan; cocks at plan->respond.
    Plan,
    /// Read-only reconnaissance; closes accepted.
    Scout,
    /// One builder stage, then the code-owned diff: an empty diff closes
    /// accepted, any other cocks at build->apply.
    Build,
    /// The responder after a granted plan; closes accepted.
    Respond,
}

/// The seat, phase and section of a flight's stage.
pub open spec fn flight_stage_spec(kind: FlightKind) -> (Role, Seq<char>, Seq<char>) {
    match kind {
        FlightKind::Prompt => (Role::Responder, "respond"@, "response.v1"@),
        FlightKind::Plan => (Role::Planner, "plan"@, "plan.v1"@),
        FlightKind::Scout => (Role::Scout, "scout"@, "scout.v1"@),
        FlightKind::Build => (Role::Builder, "build"@, "build.v1"@),
        FlightKind::Respond => (Role::Responder, "respond"@, "response.v1"@),
    }
}

/// The workflow name a new slip is opened under; the responder leg opens
/// none, it resumes the planned slip.
pub open spec fn flight_workflow_spec(kind: FlightKind) -> Option<Seq<char>> {
    match kind {
        FlightKind::Prompt => Some("prompt"@),
        FlightKind::Plan => Some("plan"@),
        FlightKind::Scout => Some("scout"@),
        FlightKind::Build => Some("build"@),
        FlightKind::Respond => None,
    }
}

/// The seat, phase and section of a flight's stage.
pub fn flight_stage(kind: FlightKind) -> (r: (Role, String, String))
    ensures
        (r.0, r.1@, r.2@) == flight_stage_spec(kind),
{
    match kind {
        FlightKind::Prompt => (Role::Responder, string_from("respond"), string_from("response.v1")),
        FlightKind::Plan => (Role::Planner, string_from("plan"), string_from("plan.v1")),
        FlightKind::Scout => (Role::Scout, string_from("scout"), string_from("scout.v1")),
        FlightKind::Build => (Role::Builder, string_from("build"), string_from("build.v1")),
        FlightKind::Respond => (Role::Responder, string_from("respond"), string_from("response.v1")),
    }
}

/// What a flown stage handed back.
#[derive(Debug, Clone, PartialEq, Eq)]
pub struct StageOut {
    /// The stage's report.
    pub text: String,
    /// The worktree a tooled stage flew in.
    pub worktree: Option<String>,
    /// Tokens the stage's model calls used.
    pub tokens: u64,
    /// Model turns the stage took.
    pub turns: usize,
}

/// How a flight ended well: the stage's report, and the boundary the slip
/// cocked at instead of closing, if it did.
#[derive(Debug, Clone, PartialEq, Eq)]
pub struct FlightEnd {
    pub text: String,
    pub cocked_at: Option<String>,
    pub tokens: u64,
    pub turns: usize,
}

/// Where a flight stands.
#[derive(Debug, Clone, Copy, PartialEq, Eq, Structural)]
pub enum FlightAt {
    /// Waiting on its stage.
    Stage,
    /// Waiting on the diff of the build's worktree.
    Diff,
    /// Over.
    Done,
}

/// A flight under way.
#[derive(Debug, Clone)]
pub struct FlightState {
    pub kind: FlightKind,
    pub at: FlightAt,
    /// The commit the territory was pinned at.
    pub base: String,
    /// The stage's output, once a build waits on its diff.
    pub out: Option<StageOut>,
}

/// What a flight is told.
#[derive(Debug)]
pub enum FlightEvent {
    /// The stage ended: its output, or `None` after a witnessed failure.
    StageDone(Option<StageOut>),
    /// The diff of the build's worktree against its base, or why it could
    /// not be taken.
    Diffed(Result<String, String>),
}

/// What a flight asks of its driver.
#[derive(Debug, Clone, PartialEq, Eq)]
pub enum FlightAction {
    /// Open a new slip under this workflow name.
    OpenSlip(String),
    /// Resume the slip being continued.
    ResumeSlip,
    /// Fly the flight's stage.
    RunStage,
    /// Record a note.
    Note(String),
    /// Start the code-lane diff phase, owned by gate:diff.
    StartDiff,
    /// Take the diff of the build's worktree against its base.
    ComputeDiff,
    /// Write the diff.v1 section, by gate:diff.
    WriteDiff { summary: String, body: String },
    /// End the diff phase.
    EndDiff(PhaseOutcome),
    /// Request clearance at a boundary.
    RequestClearance { boundary: String, by: String },
    /// Close the slip accepted, by daemar.
    CloseAccepted,
    /// The flight is over: how it ended well, or `None` after a witnessed
    /// failure (the slip stays open).
    Finish(Option<FlightEnd>),
}

/// The mathematical form of a [`FlightEnd`].
pub struct FlightEndV {
    pub text: Seq<char>,
    pub cocked_at: Option<Seq<char>>,
    pub tokens: u64,
    pub turns: usize,
}

/// The mathematical form of a [`FlightAction`].
pub enum FlightActionV {
    OpenSlip(Seq<char>),
    ResumeSlip,
    RunStage,
    Note(Seq<char>),
    StartDiff,
    ComputeDiff,
    WriteDiff { summary: Seq<char>, body: Seq<char> },
    EndDiff(PhaseOutcome),
    RequestClearance { boundary: Seq<char>, by: Seq<char> },
    CloseAccepted,
    Finish(Option<FlightEndV>),
}

impl View for FlightEnd {
    type V = FlightEndV;

    open spec fn view(&self) -> FlightEndV {
        FlightEndV { text: self.text@, cocked_at: opt_view(self.cocked_at), tokens: self.tokens, turns: self.turns }
    }
}

impl View for FlightAction {
    type V = FlightActionV;

    open spec fn view(&self) -> FlightActionV {
        match self {
            FlightAction::OpenSlip(w) => FlightActionV::OpenSlip(w@),
            FlightAction::ResumeSlip => FlightActionV::ResumeSlip,
            FlightAction::RunStage => FlightActionV::RunStage,
            FlightAction::Note(t) => FlightActionV::Note(t@),
            FlightAction::StartDiff => FlightActionV::StartDiff,
            FlightAction::ComputeDiff => FlightActionV::ComputeDiff,
            FlightAction::WriteDiff { summary, body } => FlightActionV::WriteDiff { summary: summary@, body: body@ },
            FlightAction::EndDiff(o) => FlightActionV::EndDiff(*o),
            FlightAction::RequestClearance { boundary, by } => FlightActionV::RequestClearance {
                boundary: boundary@,
                by: by@,
            },
            FlightAction::CloseAccepted => FlightActionV::CloseAccepted,
            FlightAction::Finish(e) => FlightActionV::Finish(
                match e {
                    Some(x) => Some(x@),
                    None => None,
                },
            ),
        }
    }
}

/// The views of a list of flight actions.
pub open spec fn flight_actions_view(a: Seq<FlightAction>) -> Seq<FlightActionV> {
    a.map_values(|x: FlightAction| x@)
}

/// The note a build leaves when its stage handed back no worktree.
pub const NO_WORKTREE_NOTE: &'static str = "build stage returned no worktree — engine bug";

/// How a flight that ended well reports: the stage's output, and where it
/// cocked.
pub open spec fn end_of(o: StageOut, cocked_at: Option<Seq<char>>) -> FlightEndV {
    FlightEndV { text: o.text@, cocked_at, tokens: o.tokens, turns: o.turns }
}

/// A flight's first requests: open the slip (or resume the one being
/// continued), then fly the stage.
pub open spec fn flight_begin_spec(kind: FlightKind) -> Seq<FlightActionV> {
    match flight_workflow_spec(kind) {
        Some(w) => seq![FlightActionV::OpenSlip(w), FlightActionV::RunStage],
        None => seq![FlightActionV::ResumeSlip, FlightActionV::RunStage],
    }
}

/// One step of a flight. A failed stage ends the flight with nothing more
/// said (the stage witnessed it). A stage that ended well closes the slip
/// accepted — or, for a plan, cocks it at plan->respond — except a build,
/// whose worktree is diffed first: an empty diff (only whitespace) closes
/// accepted as an explicit no-op, any other diff is written and cocks at
/// build->apply. A build without a worktree, or whose diff cannot be taken,
/// is a witnessed failure. Anything else leaves the flight as it is.
pub open spec fn flight_spec(s: FlightState, e: FlightEvent) -> (FlightState, Seq<FlightActionV>) {
    let done = FlightState { at: FlightAt::Done, ..s };
    match (s.at, e) {
        (FlightAt::Stage, FlightEvent::StageDone(None)) => (done, seq![FlightActionV::Finish(None)]),
        (FlightAt::Stage, FlightEvent::StageDone(Some(o))) => match s.kind {
            FlightKind::Plan => (
                done,
                seq![
                    FlightActionV::RequestClearance { boundary: PLAN_TO_RESPOND@, by: "planner"@ },
                    FlightActionV::Finish(Some(end_of(o, Some(PLAN_TO_RESPOND@)))),
                ],
            ),
            FlightKind::Build => match o.worktree {
                None => (done, seq![FlightActionV::Note(NO_WORKTREE_NOTE@), FlightActionV::Finish(None)]),
                Some(_) => (
                    FlightState { at: FlightAt::Diff, out: Some(o), ..s },
                    seq![FlightActionV::StartDiff, FlightActionV::ComputeDiff],
                ),
            },
            _ => (done, seq![FlightActionV::CloseAccepted, FlightActionV::Finish(Some(end_of(o, None)))]),
        },
        (FlightAt::Diff, FlightEvent::Diffed(d)) => match s.out {
            Some(o) => match o.worktree {
                Some(wt) => match d {
                    Err(why) => (
                        done,
                        seq![
                            FlightActionV::Note("diff gate failed: "@ + why@),
                            FlightActionV::EndDiff(PhaseOutcome::Error),
                            FlightActionV::Finish(None),
                        ],
                    ),
                    Ok(patch) => if all_ws(patch@) {
                        (
                            done,
                            seq![
                                FlightActionV::WriteDiff { summary: diff_receipt_text(s.base@, wt@), body: Seq::empty() },
                                FlightActionV::EndDiff(PhaseOutcome::Success),
                                FlightActionV::CloseAccepted,
                                FlightActionV::Finish(Some(end_of(o, None))),
                            ],
                        )
                    } else {
                        (
                            done,
                            seq![
                                FlightActionV::WriteDiff { summary: diff_receipt_text(s.base@, wt@), body: patch@ },
                                FlightActionV::EndDiff(PhaseOutcome::Success),
                                FlightActionV::RequestClearance { boundary: BUILD_TO_APPLY@, by: "gate:diff"@ },
                                FlightActionV::Finish(Some(end_of(o, Some(BUILD_TO_APPLY@)))),
                            ],
                        )
                    },
                },
                None => (s, Seq::empty()),
            },
            None => (s, Seq::empty()),
        },
        _ => (s, Seq::empty()),
    }
}

/// A flight of `kind` from a territory pinned at `base`: waiting on its
/// stage, having asked to open (or resume) the slip and fly the stage.
pub fn flight_begin(kind: FlightKind, base: String) -> (r: (FlightState, Vec<FlightAction>))
    ensures
        r.0 == (FlightState { kind, at: FlightAt::Stage, base, out: None }),
        flight_actions_view(r.1@) == flight_begin_spec(kind),
{
    let first = match kind {
        FlightKind::Prompt => FlightAction::OpenSlip(string_from("prompt")),
        FlightKind::Plan => FlightAction::OpenSlip(string_from("plan")),
        FlightKind::Scout => FlightAction::OpenSlip(string_from("scout")),
        FlightKind::Build => FlightAction::OpenSlip(string_from("build")),
        FlightKind::Respond => FlightAction::ResumeSlip,
    };
    let a = vec![first, FlightAction::RunStage];
    proof {
        assert(flight_actions_view(a@) =~= flight_begin_spec(kind));
    }
    (FlightState { kind, at: FlightAt::Stage, base, out: None }, a)
}

/// The actions `v` as their views.
proof fn lemma_actions_view(v: Seq<FlightAction>, w: Seq<FlightActionV>)
    requires
        v.len() == w.len(),
        forall|i: int| 0 <= i < v.len() ==> #[trigger] v[i]@ == w[i],
    ensures
        flight_actions_view(v) == w,
{
    assert(flight_actions_view(v) =~= w);
}

/// The report of a stage output, and where the flight cocked.
fn end_from(o: &StageOut, cocked_at: Option<&str>) -> (r: FlightEnd)
    ensures
        r@ == end_of(*o, match cocked_at {
            Some(b) => Some(b@),
            None => None,
        }),
{
    FlightEnd {
        text: copy_string(&o.text),
        cocked_at: match cocked_at {
            Some(b) => Some(string_from(b)),
            None => None,
        },
        tokens: o.tokens,
        turns: o.turns,
    }
}

/// Take one step of a flight: exactly what [`flight_spec`] says.
pub fn flight_step(s: FlightState, e: FlightEvent) -> (r: (FlightState, Vec<FlightAction>))
    ensures
        (r.0, flight_actions_view(r.1@)) == flight_spec(s, e),
{
    let ghost (ns, na) = flight_spec(s, e);
    match (s.at, e) {
        (FlightAt::Stage, FlightEvent::StageDone(None)) => {
            let a = vec![FlightAction::Finish(None)];
            proof {
                lemma_actions_view(a@, na);
            }
            (FlightState { at: FlightAt::Done, ..s }, a)
        },
        (FlightAt::Stage, FlightEvent::StageDone(Some(o))) => match s.kind {
            FlightKind::Plan => {
                let end = end_from(&o, Some(PLAN_TO_RESPOND));
                let a = vec![
                    FlightAction::RequestClearance {
                        boundary: string_from(PLAN_TO_RESPOND),
                        by: string_from("planner"),
                    },
                    FlightAction::Finish(Some(end)),
                ];
                proof {
                    lemma_actions_view(a@, na);
                }
                (FlightState { at: FlightAt::Done, ..s }, a)
            },
            FlightKind::Build => {
                if o.worktree.is_none() {
                    let a = vec![FlightAction::Note(string_from(NO_WORKTREE_NOTE)), FlightAction::Finish(None)];
                    proof {
                        lemma_actions_view(a@, na);
                    }
                    (FlightState { at: FlightAt::Done, ..s }, a)
                } else {
                    let a = vec![FlightAction::StartDiff, FlightAction::ComputeDiff];
                    proof {
                        lemma_actions_view(a@, na);
                    }
                    (FlightState { at: FlightAt::Diff, out: Some(o), ..s }, a)
                }
            },
            _ => {
                let end = end_from(&o, None);
                let a = vec![FlightAction::CloseAccepted, FlightAction::Finish(Some(end))];
                proof {
                    lemma_actions_view(a@, na);
                }
                (FlightState { at: FlightAt::Done, ..s }, a)
            },
        },
        (FlightAt::Diff, FlightEvent::Diffed(d)) => {
            let (o, wt) = match &s.out {
                Some(o) => match &o.worktree {
                    Some(wt) => (o, wt),
                    None => {
                        return (s, Vec::new());
                    },
                },
                None => {
                    return (s, Vec::new());
                },
            };
            let a = match d {
                Err(why) => {
                    let mut m = string_from("diff gate failed: ");
                    push_str(&mut m, why.as_str());
                    vec![FlightAction::Note(m), FlightAction::EndDiff(PhaseOutcome::Error), FlightAction::Finish(None)]
                },
                Ok(patch) => {
                    let receipt = diff_receipt(s.base.as_str(), wt.as_str());
                    if is_blank(&chars_of(patch.as_str())) {
                        vec![
                            FlightAction::WriteDiff { summary: receipt, body: String::new() },
                            FlightAction::EndDiff(PhaseOutcome::Success),
                            FlightAction::CloseAccepted,
                            FlightAction::Finish(Some(end_from(o, None))),
                        ]
                    } else {
                        vec![
                            FlightAction::WriteDiff { summary: receipt, body: patch },
                            FlightAction::EndDiff(PhaseOutcome::Success),
                            FlightAction::RequestClearance {
                                boundary: string_from(BUILD_TO_APPLY),
                                by: string_from("gate:diff"),
                            },
                            FlightAction::Finish(Some(end_from(o, Some(BUILD_TO_APPLY)))),
                        ]
                    }
                },
            };
            proof {
                lemma_actions_view(a@, na);
            }
            (FlightState { at: FlightAt::Done, ..s }, a)
        },
        _ => {
            proof {
                lemma_actions_view(Seq::empty(), na);
            }
            (s, Vec::new())
        },
    }
}

/// An empty diff closes the slip accepted as an explicit no-op: the
/// receipt is written with no body, the diff phase ends in success, the
/// slip closes, and nothing cocks.
pub proof fn law_empty_diff_closes_accepted(s: FlightState, patch: String)
    requires
        s.at == FlightAt::Diff,
        s.out matches Some(o) && o.worktree is Some,
        all_ws(patch@),
    ensures
        ({
            let (n, a) = flight_spec(s, FlightEvent::Diffed(Ok(patch)));
            &&& n.at == FlightAt::Done
            &&& a == seq![
                FlightActionV::WriteDiff {
                    summary: diff_receipt_text(s.base@, s.out->0.worktree->0@),
                    body: Seq::empty(),
                },
                FlightActionV::EndDiff(PhaseOutcome::Success),
                FlightActionV::CloseAccepted,
                FlightActionV::Finish(Some(end_of(s.out->0, None))),
            ]
            &&& forall|k: int| 0 <= k < a.len() ==> !(#[trigger] a[k] is RequestClearance)
        }),
{
    let (n, a) = flight_spec(s, FlightEvent::Diffed(Ok(patch)));
    assert(!(a[0] is RequestClearance) && !(a[1] is RequestClearance) && !(a[2] is RequestClearance)
        && !(a[3] is RequestClearance));
}

/// A diff with anything but whitespace is written as the diff.v1 section
/// with the patch as its body, the diff phase ends in success, and the slip
/// cocks at build->apply, signed gate:diff; it does not close.
pub proof fn law_nonempty_diff_cocks_at_build_to_apply(s: FlightState, patch: String)
    requires
        s.at == FlightAt::Diff,
        s.out matches Some(o) && o.worktree is Some,
        !all_ws(patch@),
    ensures
        ({
            let (n, a) = flight_spec(s, FlightEvent::Diffed(Ok(patch)));
            &&& n.at == FlightAt::Done
            &&& a == seq![
                FlightActionV::WriteDiff {
                    summary: diff_receipt_text(s.base@, s.out->0.worktree->0@),
                    body: patch@,
                },
                FlightActionV::EndDiff(PhaseOutcome::Success),
                FlightActionV::RequestClearance { boundary: BUILD_TO_APPLY@, by: "gate:diff"@ },
                FlightActionV::Finish(Some(end_of(s.out->0, Some(BUILD_TO_APPLY@)))),
            ]
            &&& forall|k: int| 0 <= k < a.len() ==> !(#[trigger] a[k] is CloseAccepted)
        }),
{
    let (n, a) = flight_spec(s, FlightEvent::Diffed(Ok(patch)));
    assert(!(a[0] is CloseAccepted) && !(a[1] is CloseAccepted) && !(a[2] is CloseAccepted)
        && !(a[3] is CloseAccepted));
}


/// A flight over a sequence of answers: its final state, and every action
/// it asked for, in order.
pub open spec fn flight_run(s: FlightState, es: Seq<FlightEvent>) -> (FlightState, Seq<FlightActionV>)
    decreases es.len(),
{
    if es.len() == 0 {
        (s, Seq::empty())
    } else {
        let (s1, t1) = flight_run(s, es.drop_last());
        let (s2, a) = flight_spec(s1, es.last());
        (s2, t1 + a)
    }
}

/// Whether an action settles the slip: closing it, or cocking it at a
/// boundary.
pub open spec fn settles(a: FlightActionV) -> bool {
    a is CloseAccepted || a is RequestClearance
}

/// Whether an action finishes a failed flight.
pub open spec fn finishes_failed(a: FlightActionV) -> bool {
    a matches FlightActionV::Finish(None)
}

/// Whether the action at `k`, if it finishes a flight that ended well,
/// follows the slip's settling: closed when the flight did not cock,
/// cocked at the boundary it reports when it did.
pub open spec fn settled_before(t: Seq<FlightActionV>, k: int) -> bool {
    match t[k] {
        FlightActionV::Finish(Some(e)) => k >= 1 && match e.cocked_at {
            None => t[k - 1] is CloseAccepted,
            Some(b) => match t[k - 1] {
                FlightActionV::RequestClearance { boundary, .. } => boundary == b,
                _ => false,
            },
        },
        _ => true,
    }
}

/// What the workflow owns of a run of actions: the slip is settled at most
/// once and the flight finishes at most once; a flight that ended well
/// settled the slip just before, by closing it when it did not cock and by
/// cocking it at the boundary it reports; a failed flight settled nothing.
pub open spec fn settled_once(t: Seq<FlightActionV>) -> bool {
    &&& forall|i: int, j: int| 0 <= i < j < t.len() ==> !(settles(#[trigger] t[i]) && settles(#[trigger] t[j]))
    &&& forall|i: int, j: int| 0 <= i < j < t.len() ==> !((#[trigger] t[i]) is Finish && (#[trigger] t[j]) is Finish)
    &&& forall|k: int, i: int|
        0 <= k < t.len() && 0 <= i < t.len() && finishes_failed(#[trigger] t[k]) ==> !settles(#[trigger] t[i])
    &&& forall|k: int| 0 <= k < t.len() ==> #[trigger] settled_before(t, k)
}

/// Whether a run of actions neither settles the slip nor finishes.
pub open spec fn unsettled(t: Seq<FlightActionV>) -> bool {
    forall|i: int| 0 <= i < t.len() ==> !settles(#[trigger] t[i]) && !(t[i] is Finish)
}

proof fn lemma_flight_step_facts(s: FlightState, e: FlightEvent)
    ensures
        ({
            let (n, a) = flight_spec(s, e);
            &&& settled_once(a)
            &&& s.at == FlightAt::Done ==> n.at == FlightAt::Done && a.len() == 0
            &&& n.at != FlightAt::Done ==> unsettled(a)
        }),
{
    let (n, a) = flight_spec(s, e);
    assert(settled_once(a));
}

proof fn lemma_settled_concat(t: Seq<FlightActionV>, a: Seq<FlightActionV>)
    requires
        unsettled(t),
        settled_once(a),
    ensures
        settled_once(t + a),
{
    let r = t + a;
    assert forall|i: int| 0 <= i < r.len() implies (i < t.len() ==> r[i] == t[i]) && (i >= t.len() ==> r[i]
        == a[i - t.len()]) by {}
    assert forall|i: int, j: int| 0 <= i < j < r.len() implies !(settles(#[trigger] r[i]) && settles(#[trigger] r[j])) by {
        if j >= t.len() && i >= t.len() {
            assert(r[i] == a[i - t.len()] && r[j] == a[j - t.len()]);
        } else if i < t.len() {
            assert(r[i] == t[i]);
        }
    }
    assert forall|i: int, j: int| 0 <= i < j < r.len() implies !((#[trigger] r[i]) is Finish && (#[trigger] r[j]) is Finish) by {
        if j >= t.len() && i >= t.len() {
            assert(r[i] == a[i - t.len()] && r[j] == a[j - t.len()]);
        } else if i < t.len() {
            assert(r[i] == t[i]);
        }
    }
    assert forall|k: int, i: int|
        0 <= k < r.len() && 0 <= i < r.len() && finishes_failed(#[trigger] r[k]) implies !settles(#[trigger] r[i]) by {
        if k < t.len() {
            assert(r[k] == t[k]);
        } else {
            assert(r[k] == a[k - t.len()]);
            if i < t.len() {
                assert(r[i] == t[i]);
            } else {
                assert(r[i] == a[i - t.len()]);
            }
        }
    }
    assert forall|k: int| 0 <= k < r.len() implies #[trigger] settled_before(r, k) by {
        if k < t.len() {
            assert(r[k] == t[k]);
        } else {
            let ka = k - t.len();
            assert(r[k] == a[ka]);
            assert(settled_before(a, ka));
            if ka >= 1 {
                assert(r[k - 1] == a[ka - 1]);
            }
        }
    }
}

proof fn lemma_flight_run_facts(s: FlightState, es: Seq<FlightEvent>)
    requires
        s.at != FlightAt::Done,
    ensures
        ({
            let (n, t) = flight_run(s, es);
            &&& settled_once(t)
            &&& n.at != FlightAt::Done ==> unsettled(t)
        }),
    decreases es.len(),
{
    if es.len() == 0 {
        let t = flight_run(s, es).1;
        assert(t.len() == 0);
    } else {
        lemma_flight_run_facts(s, es.drop_last());
        let (s1, t1) = flight_run(s, es.drop_last());
        lemma_flight_step_facts(s1, es.last());
        let (s2, a) = flight_spec(s1, es.last());
        if s1.at == FlightAt::Done {
            assert(t1 + a =~= t1);
        } else {
            lemma_settled_concat(t1, a);
            if s2.at != FlightAt::Done {
                assert forall|i: int| 0 <= i < (t1 + a).len() implies !settles(#[trigger] (t1 + a)[i]) && !((t1
                    + a)[i] is Finish) by {
                    if i < t1.len() {
                        assert((t1 + a)[i] == t1[i]);
                    } else {
                        assert((t1 + a)[i] == a[i - t1.len()]);
                    }
                }
            }
        }
    }
}

/// The workflow owns what closes and what cocks: over any run of a flight,
/// from its beginning, the slip is closed or cocked at most once and the
/// flight finishes at most once; a flight that ended well closed the slip
/// just before, or cocked it at the boundary it reports; a failed flight
/// left the slip open, neither closed nor cocked.
pub proof fn law_a_flight_closes_or_cocks_at_most_once(kind: FlightKind, base: String, es: Seq<FlightEvent>)
    ensures
        settled_once(flight_begin_spec(kind) + flight_run(
            FlightState { kind, at: FlightAt::Stage, base, out: None },
            es,
        ).1),
{
    let s = FlightState { kind, at: FlightAt::Stage, base, out: None };
    lemma_flight_run_facts(s, es);
    let b = flight_begin_spec(kind);
    assert(unsettled(b));
    lemma_settled_concat(b, flight_run(s, es).1);
}

} // verus!
