//! The apply and land gates as state machines. A gate asks the world one
//! question at a time (a git query or mutation) and is answered with its
//! outcome; from its state and the answer it decides its next state and
//! what the caller does next: perform another operation, refuse before the
//! ledger is touched, witness a failure, close the slip, or park the
//! commit. The caller owns the ledger and the repository; every decision
//! is made here.
use vstd::prelude::*;

use crate::factory::workflows::{
    apply_commit_message, park_branch, park_receipt, park_receipt_text, DiffReceipt, ParkReceipt,
};
use crate::factory::engine::{short_of, summary_of};
use crate::text::{copy_string, push_str, str_eq, string_from};

verus! {

/// An operation a gate needs performed.
#[derive(Debug, Clone, PartialEq, Eq)]
pub enum GateOp {
    /// The territory's HEAD commit; answered with `Text`.
    TerritoryHead,
    /// Whether the retained worktree is a directory; answered with `Flag`.
    WorktreeExists,
    /// The retained worktree's HEAD commit; answered with `Text`.
    WorktreeHead,
    /// The worktree's diff against the stamped base; answered with `Text`.
    WorktreeDiff,
    /// Commit everything in the worktree with `message`; answered with
    /// `Text`, the new commit.
    Commit { message: String },
    /// Whether the territory has uncommitted changes; answered with `Flag`.
    TerritoryDirty,
    /// Fast-forward the territory to `commit`; answered with `Done`.
    FastForward { commit: String },
    /// Remove the retained worktree; answered with `Done`.
    RemoveWorktree,
    /// Where `branch` points, if it exists; answered with `Target`.
    BranchTarget { branch: String },
    /// Create `branch` at `commit`; answered with `Done`.
    CreateBranch { branch: String, commit: String },
    /// Whether `commit` is reachable from the territory's HEAD; answered
    /// with `Flag`.
    IsLanded { commit: String },
}

/// The outcome of an operation.
#[derive(Debug, PartialEq, Eq)]
pub enum GateEvent {
    Text(Result<String, String>),
    Flag(Result<bool, String>),
    Done(Result<(), String>),
    Target(Result<Option<String>, String>),
}

/// What the caller does next.
#[derive(Debug, Clone, PartialEq, Eq)]
pub enum GateAction {
    /// Start the phase on the ledger, write `note` when there is
    /// one, then perform `op` and answer with its outcome.
    Begin { note: Option<String>, op: GateOp },
    /// Write `note` when there is one, then perform `op` and answer.
    Perform { note: Option<String>, op: GateOp },
    /// Refuse the continuation; nothing was written to the ledger.
    Refuse { reason: String },
    /// Witness `reason` (a note, then the phase ended in error); the
    /// flight fails, witnessed.
    Witness { reason: String },
    /// Write `note` when there is one, end the phase in success and close
    /// the slip accepted with `reason`, which is also the report.
    Close { note: Option<String>, reason: String },
    /// Write `note` when there is one, then the park section (its summary
    /// the receipt, its body the explanation), end the phase in success
    /// and request clearance across apply->land; `report` is the report.
    Park { note: Option<String>, receipt: String, body: String, report: String },
}

/// Whether `e` answers `op`.
pub open spec fn answers(op: GateOp, e: GateEvent) -> bool {
    match op {
        GateOp::TerritoryHead | GateOp::WorktreeHead | GateOp::WorktreeDiff | GateOp::Commit {
            ..
        } => e is Text,
        GateOp::WorktreeExists | GateOp::TerritoryDirty | GateOp::IsLanded { .. } => e is Flag,
        GateOp::FastForward { .. } | GateOp::RemoveWorktree | GateOp::CreateBranch { .. } => e is Done,
        GateOp::BranchTarget { .. } => e is Target,
    }
}

/// Whether `a` performs `op`, after writing `note` (none when `None`).
pub open spec fn performs(a: GateAction, note: Option<Seq<char>>, op: GateOp) -> bool {
    a matches GateAction::Perform { note: n, op: o } && o == op && match note {
        None => n is None,
        Some(t) => n matches Some(s) && s@ == t,
    }
}

/// Whether `a` witnesses `reason`.
pub open spec fn witnesses(a: GateAction, reason: Seq<char>) -> bool {
    a matches GateAction::Witness { reason: r } && r@ == reason
}

/// Whether `a` refuses with `reason`.
pub open spec fn refuses(a: GateAction, reason: Seq<char>) -> bool {
    a matches GateAction::Refuse { reason: r } && r@ == reason
}

/// Whether `a` closes the slip with `reason`, after writing `note`.
pub open spec fn closes(a: GateAction, note: Option<Seq<char>>, reason: Seq<char>) -> bool {
    a matches GateAction::Close { note: n, reason: r } && r@ == reason && match note {
        None => n is None,
        Some(t) => n matches Some(s) && s@ == t,
    }
}

// ── The apply gate ──────────────────────────────────────────────────────────

/// Where the apply gate stands: which question is outstanding, and what
/// it has learned.
#[derive(Debug, Clone, PartialEq, Eq)]
pub enum ApplyStep {
    TerritoryHead,
    WorktreeExists,
    WorktreeHead,
    WorktreeDiff,
    Commit,
    Dirty { commit: String },
    HeadNow { commit: String, dirty: bool },
    FastForward { commit: String },
    Remove { commit: String },
    BranchTarget { commit: String, dirty: bool, branch: String },
    CreateBranch { commit: String, dirty: bool, branch: String },
    Finished,
}

/// The apply gate: commits the cleared worktree and lands it when the
/// territory is clean and still at the stamped base, else parks it on a
/// branch. Every post-grant defect is witnessed.
#[derive(Debug, Clone, PartialEq, Eq)]
pub struct ApplyGate {
    pub slip_id: String,
    pub territory: String,
    pub base: String,
    pub worktree: String,
    /// The stamped diff the controller cleared.
    pub diff_body: String,
    /// The commit's message.
    pub message: String,
    pub step: ApplyStep,
}

/// The operation the apply gate's step is waiting on.
pub open spec fn apply_op(g: ApplyGate) -> Option<GateOp> {
    match g.step {
        ApplyStep::TerritoryHead => Some(GateOp::TerritoryHead),
        ApplyStep::WorktreeExists => Some(GateOp::WorktreeExists),
        ApplyStep::WorktreeHead => Some(GateOp::WorktreeHead),
        ApplyStep::WorktreeDiff => Some(GateOp::WorktreeDiff),
        ApplyStep::Commit => Some(GateOp::Commit { message: g.message }),
        ApplyStep::Dirty { .. } => Some(GateOp::TerritoryDirty),
        ApplyStep::HeadNow { .. } => Some(GateOp::TerritoryHead),
        ApplyStep::FastForward { commit } => Some(GateOp::FastForward { commit }),
        ApplyStep::Remove { .. } => Some(GateOp::RemoveWorktree),
        ApplyStep::BranchTarget { branch, .. } => Some(GateOp::BranchTarget { branch }),
        ApplyStep::CreateBranch { branch, commit, .. } => Some(GateOp::CreateBranch { branch, commit }),
        ApplyStep::Finished => None,
    }
}

/// Why a commit parks.
pub open spec fn why_parked(dirty: bool) -> Seq<char> {
    if dirty {
        "territory dirty"@
    } else {
        "territory HEAD moved"@
    }
}

/// The body of the park section.
pub open spec fn park_body(why: Seq<char>, commit: Seq<char>, branch: Seq<char>) -> Seq<char> {
    why + ": commit "@ + commit + " parked on "@ + branch
        + ". Land it with daemar grant + continue when the territory is ready, or merge the branch yourself — continue will recognize the landing either way."@
}

/// Whether `a` parks `commit` on `branch` for `g`, after writing
/// `note`.
pub open spec fn parks(g: ApplyGate, a: GateAction, note: Option<Seq<char>>, commit: Seq<char>, dirty: bool, branch: Seq<char>) -> bool {
    a matches GateAction::Park { note: n, receipt, body, report } && receipt@ == park_receipt_text(
        g.base@,
        g.worktree@,
        commit,
        branch,
    ) && body@ == park_body(why_parked(dirty), commit, branch) && report@ == why_parked(dirty)
        + ": parked "@ + commit + " on "@ + branch && match note {
        None => n is None,
        Some(t) => n matches Some(s) && s@ == t,
    }
}

/// The apply gate's decision on the answer `e` to its outstanding
/// question: its next step and the action it asks for.
pub open spec fn apply_decides(g: ApplyGate, e: GateEvent, n: ApplyStep, a: GateAction) -> bool {
    match g.step {
        ApplyStep::TerritoryHead => match e {
            GateEvent::Text(Ok(_)) => n == ApplyStep::WorktreeExists && performs(a, None, GateOp::WorktreeExists),
            _ => n == ApplyStep::Finished && witnesses(a, "territory "@ + g.territory@ + " is no longer a repository"@),
        },
        ApplyStep::WorktreeExists => match e {
            GateEvent::Flag(Ok(true)) => n == ApplyStep::WorktreeHead && performs(a, None, GateOp::WorktreeHead),
            _ => n == ApplyStep::Finished && witnesses(a, "retained worktree "@ + g.worktree@ + " is missing"@),
        },
        ApplyStep::WorktreeHead => match e {
            GateEvent::Text(Ok(h)) if h@ == g.base@ => n == ApplyStep::WorktreeDiff && performs(a, None, GateOp::WorktreeDiff),
            _ => n == ApplyStep::Finished && witnesses(a, "retained worktree is not at the stamped base"@),
        },
        ApplyStep::WorktreeDiff => match e {
            GateEvent::Text(Ok(p)) => if p@ == g.diff_body@ {
                n == ApplyStep::Commit && performs(a, None, GateOp::Commit { message: g.message })
            } else {
                n == ApplyStep::Finished && witnesses(a, "stamped diff mismatch — the worktree no longer matches what was cleared"@)
            },
            GateEvent::Text(Err(d)) => n == ApplyStep::Finished && witnesses(a, "diff verification failed: "@ + d@),
            _ => false,
        },
        ApplyStep::Commit => match e {
            GateEvent::Text(Ok(c)) => n == ApplyStep::Dirty { commit: c } && performs(
                a,
                Some("apply commit "@ + c@ + " (parent "@ + g.base@ + ")"@),
                GateOp::TerritoryDirty,
            ),
            GateEvent::Text(Err(d)) => n == ApplyStep::Finished && witnesses(a, "apply commit failed: "@ + d@),
            _ => false,
        },
        ApplyStep::Dirty { commit } => match e {
            GateEvent::Flag(Ok(dirty)) => n == ApplyStep::HeadNow { commit, dirty } && performs(a, None, GateOp::TerritoryHead),
            GateEvent::Flag(Err(d)) => n == ApplyStep::Finished && witnesses(a, "territory status failed: "@ + d@),
            _ => false,
        },
        ApplyStep::HeadNow { commit, dirty } => match e {
            GateEvent::Text(Ok(h)) => if !dirty && h@ == g.base@ {
                n == ApplyStep::FastForward { commit } && performs(a, None, GateOp::FastForward { commit })
            } else {
                n matches ApplyStep::BranchTarget { commit: c, dirty: d, branch } && c == commit && d == dirty
                    && branch@ == "daemar/slip-"@ + short_of(g.slip_id@)
                    && performs(a, None, GateOp::BranchTarget { branch })
            },
            GateEvent::Text(Err(d)) => n == ApplyStep::Finished && witnesses(a, "territory HEAD failed: "@ + d@),
            _ => false,
        },
        ApplyStep::FastForward { commit } => match e {
            GateEvent::Done(Ok(())) => n == ApplyStep::Remove { commit } && performs(
                a,
                Some("landed "@ + commit@ + " onto "@ + g.territory@),
                GateOp::RemoveWorktree,
            ),
            GateEvent::Done(Err(d)) => n == ApplyStep::Finished && witnesses(a, "fast-forward failed despite checks: "@ + d@),
            _ => false,
        },
        ApplyStep::Remove { commit } => match e {
            GateEvent::Done(Ok(())) => n == ApplyStep::Finished && closes(
                a,
                Some("worktree removed: "@ + g.worktree@),
                "landed "@ + commit@,
            ),
            GateEvent::Done(Err(d)) => n == ApplyStep::Finished && witnesses(a, "worktree removal failed: "@ + d@),
            _ => false,
        },
        ApplyStep::BranchTarget { commit, dirty, branch } => match e {
            GateEvent::Target(Ok(None)) => n == ApplyStep::CreateBranch { commit, dirty, branch }
                && performs(a, None, GateOp::CreateBranch { branch, commit }),
            GateEvent::Target(Ok(Some(x))) => if x@ == commit@ {
                n == ApplyStep::Finished && parks(
                    g,
                    a,
                    Some("branch "@ + branch@ + " already parked at "@ + commit@),
                    commit@,
                    dirty,
                    branch@,
                )
            } else {
                n == ApplyStep::Finished && witnesses(
                    a,
                    "branch "@ + branch@ + " exists at "@ + x@ + ", not "@ + commit@ + " — collision"@,
                )
            },
            GateEvent::Target(Err(d)) => n == ApplyStep::Finished && witnesses(a, "branch inspection failed: "@ + d@),
            _ => false,
        },
        ApplyStep::CreateBranch { commit, dirty, branch } => match e {
            GateEvent::Done(Ok(())) => n == ApplyStep::Finished && parks(g, a, None, commit@, dirty, branch@),
            GateEvent::Done(Err(d)) => n == ApplyStep::Finished && witnesses(a, "branch park failed: "@ + d@),
            _ => false,
        },
        ApplyStep::Finished => false,
    }
}

fn witness(reason: String) -> (a: GateAction)
    ensures
        a == (GateAction::Witness { reason }),
{
    GateAction::Witness { reason }
}

fn perform(op: GateOp) -> (a: GateAction)
    ensures
        performs(a, None, op),
{
    GateAction::Perform { note: None, op }
}

fn glue2(a: &str, b: &str) -> (r: String)
    ensures
        r@ == a@ + b@,
{
    let mut s = string_from(a);
    push_str(&mut s, b);
    s
}

fn glue3(a: &str, b: &str, c: &str) -> (r: String)
    ensures
        r@ == a@ + b@ + c@,
{
    let mut s = string_from(a);
    push_str(&mut s, b);
    push_str(&mut s, c);
    s
}

/// The park action for `commit` on `branch`, for a gate at `base` whose
/// worktree is `worktree`.
fn park_action(base: &str, worktree: &str, note: Option<String>, commit: &str, dirty: bool, branch: &str) -> (a: GateAction)
    ensures
        forall|g: ApplyGate| g.base@ == base@ && g.worktree@ == worktree@ ==> parks(g, a, match note {
            None => None,
            Some(t) => Some(t@),
        }, commit@, dirty, branch@),
{
    let why = if dirty {
        "territory dirty"
    } else {
        "territory HEAD moved"
    };
    proof {
        reveal_strlit("territory dirty");
        reveal_strlit("territory HEAD moved");
    }
    let receipt = park_receipt(base, worktree, commit, branch);
    let mut body = string_from(why);
    push_str(&mut body, ": commit ");
    push_str(&mut body, commit);
    push_str(&mut body, " parked on ");
    push_str(&mut body, branch);
    push_str(
        &mut body,
        ". Land it with daemar grant + continue when the territory is ready, or merge the branch yourself — continue will recognize the landing either way.",
    );
    let mut report = string_from(why);
    push_str(&mut report, ": parked ");
    push_str(&mut report, commit);
    push_str(&mut report, " on ");
    push_str(&mut report, branch);
    GateAction::Park { note, receipt, body, report }
}

impl ApplyGate {
    /// The apply gate of a slip whose diff receipt decoded: the retained
    /// worktree and its stamped base, the cleared diff, the request and
    /// who granted it. It begins its phase and asks for the
    /// territory's HEAD.
    pub fn start(
        slip_id: &str,
        territory: &str,
        receipt: &DiffReceipt,
        diff_body: &str,
        request: &str,
        granter: &str,
    ) -> (r: (ApplyGate, GateAction))
        ensures
            r.0.slip_id@ == slip_id@,
            r.0.territory@ == territory@,
            r.0.base@ == receipt.base@,
            r.0.worktree@ == receipt.worktree@,
            r.0.diff_body@ == diff_body@,
            r.0.message@ == "slip "@ + slip_id@ + ": "@ + summary_of(request@) + "\n\ngranted-by: "@
                + granter@ + "\nvia: daemar gate:apply"@,
            r.0.step == ApplyStep::TerritoryHead,
            r.1 == (GateAction::Begin { note: None, op: GateOp::TerritoryHead }),
    {
        let gate = ApplyGate {
            slip_id: string_from(slip_id),
            territory: string_from(territory),
            base: copy_string(&receipt.base),
            worktree: copy_string(&receipt.worktree),
            diff_body: string_from(diff_body),
            message: apply_commit_message(slip_id, request, granter),
            step: ApplyStep::TerritoryHead,
        };
        (gate, GateAction::Begin { note: None, op: GateOp::TerritoryHead })
    }

    /// Decide on the answer `e` to the outstanding question.
    pub fn answer(self, e: GateEvent) -> (r: (ApplyGate, GateAction))
        requires
            apply_op(self) matches Some(op) && answers(op, e),
        ensures
            r.0 == (ApplyGate { step: r.0.step, ..self }),
            apply_decides(self, e, r.0.step, r.1),
    {
        let g = self;
        match g.step {
            ApplyStep::TerritoryHead => match e {
                GateEvent::Text(Ok(_)) => {
                    let a = perform(GateOp::WorktreeExists);
                    (ApplyGate { step: ApplyStep::WorktreeExists, ..g }, a)
                },
                _ => {
                    let a = witness(glue3("territory ", g.territory.as_str(), " is no longer a repository"));
                    (ApplyGate { step: ApplyStep::Finished, ..g }, a)
                },
            },
            ApplyStep::WorktreeExists => match e {
                GateEvent::Flag(Ok(true)) => {
                    let a = perform(GateOp::WorktreeHead);
                    (ApplyGate { step: ApplyStep::WorktreeHead, ..g }, a)
                },
                _ => {
                    let a = witness(glue3("retained worktree ", g.worktree.as_str(), " is missing"));
                    (ApplyGate { step: ApplyStep::Finished, ..g }, a)
                },
            },
            ApplyStep::WorktreeHead => {
                let at_base = match &e {
                    GateEvent::Text(Ok(h)) => str_eq(h.as_str(), g.base.as_str()),
                    _ => false,
                };
                if at_base {
                    let a = perform(GateOp::WorktreeDiff);
                    (ApplyGate { step: ApplyStep::WorktreeDiff, ..g }, a)
                } else {
                    let a = witness(string_from("retained worktree is not at the stamped base"));
                    (ApplyGate { step: ApplyStep::Finished, ..g }, a)
                }
            },
            ApplyStep::WorktreeDiff => match e {
                GateEvent::Text(Ok(p)) => {
                    if str_eq(p.as_str(), g.diff_body.as_str()) {
                        let a = perform(GateOp::Commit { message: g.message.clone() });
                        (ApplyGate { step: ApplyStep::Commit, ..g }, a)
                    } else {
                        let a = witness(
                            string_from(
                                "stamped diff mismatch — the worktree no longer matches what was cleared",
                            ),
                        );
                        (ApplyGate { step: ApplyStep::Finished, ..g }, a)
                    }
                },
                GateEvent::Text(Err(d)) => {
                    let a = witness(glue2("diff verification failed: ", d.as_str()));
                    (ApplyGate { step: ApplyStep::Finished, ..g }, a)
                },
                _ => (ApplyGate { step: ApplyStep::Finished, ..g }, witness(String::new())),
            },
            ApplyStep::Commit => match e {
                GateEvent::Text(Ok(c)) => {
                    let mut note = string_from("apply commit ");
                    push_str(&mut note, c.as_str());
                    push_str(&mut note, " (parent ");
                    push_str(&mut note, g.base.as_str());
                    push_str(&mut note, ")");
                    let a = GateAction::Perform { note: Some(note), op: GateOp::TerritoryDirty };
                    (ApplyGate { step: ApplyStep::Dirty { commit: c }, ..g }, a)
                },
                GateEvent::Text(Err(d)) => {
                    let a = witness(glue2("apply commit failed: ", d.as_str()));
                    (ApplyGate { step: ApplyStep::Finished, ..g }, a)
                },
                _ => (ApplyGate { step: ApplyStep::Finished, ..g }, witness(String::new())),
            },
            ApplyStep::Dirty { commit } => match e {
                GateEvent::Flag(Ok(dirty)) => {
                    let a = perform(GateOp::TerritoryHead);
                    (ApplyGate { step: ApplyStep::HeadNow { commit, dirty }, ..g }, a)
                },
                GateEvent::Flag(Err(d)) => {
                    let a = witness(glue2("territory status failed: ", d.as_str()));
                    (ApplyGate { step: ApplyStep::Finished, ..g }, a)
                },
                _ => (ApplyGate { step: ApplyStep::Finished, ..g }, witness(String::new())),
            },
            ApplyStep::HeadNow { commit, dirty } => match e {
                GateEvent::Text(Ok(h)) => {
                    if !dirty && str_eq(h.as_str(), g.base.as_str()) {
                        let a = perform(GateOp::FastForward { commit: commit.clone() });
                        (ApplyGate { step: ApplyStep::FastForward { commit }, ..g }, a)
                    } else {
                        let branch = park_branch(g.slip_id.as_str());
                        let a = perform(GateOp::BranchTarget { branch: branch.clone() });
                        (ApplyGate { step: ApplyStep::BranchTarget { commit, dirty, branch }, ..g }, a)
                    }
                },
                GateEvent::Text(Err(d)) => {
                    let a = witness(glue2("territory HEAD failed: ", d.as_str()));
                    (ApplyGate { step: ApplyStep::Finished, ..g }, a)
                },
                _ => (ApplyGate { step: ApplyStep::Finished, ..g }, witness(String::new())),
            },
            ApplyStep::FastForward { commit } => match e {
                GateEvent::Done(Ok(())) => {
                    let mut note = string_from("landed ");
                    push_str(&mut note, commit.as_str());
                    push_str(&mut note, " onto ");
                    push_str(&mut note, g.territory.as_str());
                    let a = GateAction::Perform { note: Some(note), op: GateOp::RemoveWorktree };
                    (ApplyGate { step: ApplyStep::Remove { commit }, ..g }, a)
                },
                GateEvent::Done(Err(d)) => {
                    let a = witness(glue2("fast-forward failed despite checks: ", d.as_str()));
                    (ApplyGate { step: ApplyStep::Finished, ..g }, a)
                },
                _ => (ApplyGate { step: ApplyStep::Finished, ..g }, witness(String::new())),
            },
            ApplyStep::Remove { commit } => match e {
                GateEvent::Done(Ok(())) => {
                    let note = glue2("worktree removed: ", g.worktree.as_str());
                    let reason = glue2("landed ", commit.as_str());
                    let a = GateAction::Close { note: Some(note), reason };
                    (ApplyGate { step: ApplyStep::Finished, ..g }, a)
                },
                GateEvent::Done(Err(d)) => {
                    let a = witness(glue2("worktree removal failed: ", d.as_str()));
                    (ApplyGate { step: ApplyStep::Finished, ..g }, a)
                },
                _ => (ApplyGate { step: ApplyStep::Finished, ..g }, witness(String::new())),
            },
            ApplyStep::BranchTarget { commit, dirty, branch } => match e {
                GateEvent::Target(Ok(None)) => {
                    let a = perform(GateOp::CreateBranch { branch: branch.clone(), commit: commit.clone() });
                    (ApplyGate { step: ApplyStep::CreateBranch { commit, dirty, branch }, ..g }, a)
                },
                GateEvent::Target(Ok(Some(x))) => {
                    if str_eq(x.as_str(), commit.as_str()) {
                        let mut note = string_from("branch ");
                        push_str(&mut note, branch.as_str());
                        push_str(&mut note, " already parked at ");
                        push_str(&mut note, commit.as_str());
                        let a = park_action(g.base.as_str(), g.worktree.as_str(), Some(note), commit.as_str(), dirty, branch.as_str());
                        (ApplyGate { step: ApplyStep::Finished, ..g }, a)
                    } else {
                        let mut reason = string_from("branch ");
                        push_str(&mut reason, branch.as_str());
                        push_str(&mut reason, " exists at ");
                        push_str(&mut reason, x.as_str());
                        push_str(&mut reason, ", not ");
                        push_str(&mut reason, commit.as_str());
                        push_str(&mut reason, " — collision");
                        (ApplyGate { step: ApplyStep::Finished, ..g }, witness(reason))
                    }
                },
                GateEvent::Target(Err(d)) => {
                    let a = witness(glue2("branch inspection failed: ", d.as_str()));
                    (ApplyGate { step: ApplyStep::Finished, ..g }, a)
                },
                _ => (ApplyGate { step: ApplyStep::Finished, ..g }, witness(String::new())),
            },
            ApplyStep::CreateBranch { commit, dirty, branch } => match e {
                GateEvent::Done(Ok(())) => {
                    let a = park_action(g.base.as_str(), g.worktree.as_str(), None, commit.as_str(), dirty, branch.as_str());
                    (ApplyGate { step: ApplyStep::Finished, ..g }, a)
                },
                GateEvent::Done(Err(d)) => {
                    let a = witness(glue2("branch park failed: ", d.as_str()));
                    (ApplyGate { step: ApplyStep::Finished, ..g }, a)
                },
                _ => (ApplyGate { step: ApplyStep::Finished, ..g }, witness(String::new())),
            },
            ApplyStep::Finished => (g, witness(String::new())),
        }
    }
}


// ── The land gate ───────────────────────────────────────────────────────────

/// Whether `a` begins the phase, writes `note`, and performs `op`.
pub open spec fn begins(a: GateAction, note: Option<Seq<char>>, op: GateOp) -> bool {
    a matches GateAction::Begin { note: n, op: o } && o == op && match note {
        None => n is None,
        Some(t) => n matches Some(s) && s@ == t,
    }
}

/// Where the land gate stands.
#[derive(Debug, Clone, PartialEq, Eq)]
pub enum LandStep {
    IsLanded,
    Dirty,
    Head { dirty: bool },
    FastForward,
    WorktreeExists,
    Remove,
    Finished,
}

/// The land gate: the parked commit's journey home. The factory cares that
/// the change is in (reachable from the territory's HEAD), not who landed
/// it: a manual merge is recognized and closed. A dirty or moved territory
/// refuses before the ledger is touched; the slip stays retryable.
#[derive(Debug, Clone, PartialEq, Eq)]
pub struct LandGate {
    pub slip_id: String,
    pub territory: String,
    pub base: String,
    pub worktree: String,
    pub commit: String,
    pub branch: String,
    pub step: LandStep,
}

/// The operation the land gate's step is waiting on.
pub open spec fn land_op(g: LandGate) -> Option<GateOp> {
    match g.step {
        LandStep::IsLanded => Some(GateOp::IsLanded { commit: g.commit }),
        LandStep::Dirty => Some(GateOp::TerritoryDirty),
        LandStep::Head { .. } => Some(GateOp::TerritoryHead),
        LandStep::FastForward => Some(GateOp::FastForward { commit: g.commit }),
        LandStep::WorktreeExists => Some(GateOp::WorktreeExists),
        LandStep::Remove => Some(GateOp::RemoveWorktree),
        LandStep::Finished => None,
    }
}

/// The refusal of a territory that cannot be inspected.
pub open spec fn uninspectable(d: Seq<char>) -> Seq<char> {
    "cannot inspect territory: "@ + d
}

/// The land gate's decision on the answer `e` to its outstanding question.
pub open spec fn land_decides(g: LandGate, e: GateEvent, n: LandStep, a: GateAction) -> bool {
    match g.step {
        LandStep::IsLanded => match e {
            GateEvent::Flag(Ok(true)) => n == LandStep::WorktreeExists && begins(
                a,
                Some("commit "@ + g.commit@ + " already reachable from territory HEAD — landed by hand"@),
                GateOp::WorktreeExists,
            ),
            GateEvent::Flag(Ok(false)) => n == LandStep::Dirty && performs(a, None, GateOp::TerritoryDirty),
            GateEvent::Flag(Err(d)) => n == LandStep::Finished && refuses(a, uninspectable(d@)),
            _ => false,
        },
        LandStep::Dirty => match e {
            GateEvent::Flag(Ok(dirty)) => n == (LandStep::Head { dirty }) && performs(a, None, GateOp::TerritoryHead),
            GateEvent::Flag(Err(d)) => n == LandStep::Finished && refuses(a, uninspectable(d@)),
            _ => false,
        },
        LandStep::Head { dirty } => match e {
            GateEvent::Text(Ok(h)) => if !dirty && h@ == g.base@ {
                n == LandStep::FastForward && begins(a, None, GateOp::FastForward { commit: g.commit })
            } else {
                n == LandStep::Finished && refuses(
                    a,
                    g.slip_id@ + " cannot land yet — territory dirty or moved; merge "@ + g.branch@
                        + " manually and continue again, or continue once the territory is clean at the stamped base"@,
                )
            },
            GateEvent::Text(Err(d)) => n == LandStep::Finished && refuses(a, uninspectable(d@)),
            _ => false,
        },
        LandStep::FastForward => match e {
            GateEvent::Done(Ok(())) => n == LandStep::WorktreeExists && performs(
                a,
                Some("landed "@ + g.commit@ + " onto "@ + g.territory@),
                GateOp::WorktreeExists,
            ),
            GateEvent::Done(Err(d)) => n == LandStep::Finished && witnesses(a, "fast-forward failed despite checks: "@ + d@),
            _ => false,
        },
        LandStep::WorktreeExists => match e {
            GateEvent::Flag(Ok(true)) => n == LandStep::Remove && performs(a, None, GateOp::RemoveWorktree),
            _ => n == LandStep::Finished && closes(a, None, "landed "@ + g.commit@),
        },
        LandStep::Remove => match e {
            GateEvent::Done(Ok(())) => n == LandStep::Finished && closes(
                a,
                Some("worktree removed: "@ + g.worktree@),
                "landed "@ + g.commit@,
            ),
            GateEvent::Done(Err(d)) => n == LandStep::Finished && witnesses(a, "worktree removal failed: "@ + d@),
            _ => false,
        },
        LandStep::Finished => false,
    }
}

impl LandGate {
    /// The land gate of a slip whose park receipt decoded; it first asks
    /// whether the parked commit has landed already.
    pub fn start(slip_id: &str, territory: &str, receipt: &ParkReceipt) -> (r: (LandGate, GateAction))
        ensures
            r.0.slip_id@ == slip_id@,
            r.0.territory@ == territory@,
            r.0.base@ == receipt.base@,
            r.0.worktree@ == receipt.worktree@,
            r.0.commit@ == receipt.commit@,
            r.0.branch@ == receipt.branch@,
            r.0.step == LandStep::IsLanded,
            performs(r.1, None, GateOp::IsLanded { commit: r.0.commit }),
    {
        let gate = LandGate {
            slip_id: string_from(slip_id),
            territory: string_from(territory),
            base: copy_string(&receipt.base),
            worktree: copy_string(&receipt.worktree),
            commit: copy_string(&receipt.commit),
            branch: copy_string(&receipt.branch),
            step: LandStep::IsLanded,
        };
        let a = perform(GateOp::IsLanded { commit: gate.commit.clone() });
        (gate, a)
    }

    /// Decide on the answer `e` to the outstanding question.
    pub fn answer(self, e: GateEvent) -> (r: (LandGate, GateAction))
        requires
            land_op(self) matches Some(op) && answers(op, e),
        ensures
            r.0 == (LandGate { step: r.0.step, ..self }),
            land_decides(self, e, r.0.step, r.1),
    {
        let g = self;
        match g.step {
            LandStep::IsLanded => match e {
                GateEvent::Flag(Ok(true)) => {
                    let mut note = string_from("commit ");
                    push_str(&mut note, g.commit.as_str());
                    push_str(&mut note, " already reachable from territory HEAD — landed by hand");
                    let a = GateAction::Begin { note: Some(note), op: GateOp::WorktreeExists };
                    (LandGate { step: LandStep::WorktreeExists, ..g }, a)
                },
                GateEvent::Flag(Ok(false)) => {
                    let a = perform(GateOp::TerritoryDirty);
                    (LandGate { step: LandStep::Dirty, ..g }, a)
                },
                GateEvent::Flag(Err(d)) => {
                    let a = GateAction::Refuse { reason: glue2("cannot inspect territory: ", d.as_str()) };
                    (LandGate { step: LandStep::Finished, ..g }, a)
                },
                _ => (LandGate { step: LandStep::Finished, ..g }, witness(String::new())),
            },
            LandStep::Dirty => match e {
                GateEvent::Flag(Ok(dirty)) => {
                    let a = perform(GateOp::TerritoryHead);
                    (LandGate { step: LandStep::Head { dirty }, ..g }, a)
                },
                GateEvent::Flag(Err(d)) => {
                    let a = GateAction::Refuse { reason: glue2("cannot inspect territory: ", d.as_str()) };
                    (LandGate { step: LandStep::Finished, ..g }, a)
                },
                _ => (LandGate { step: LandStep::Finished, ..g }, witness(String::new())),
            },
            LandStep::Head { dirty } => match e {
                GateEvent::Text(Ok(h)) => {
                    if !dirty && str_eq(h.as_str(), g.base.as_str()) {
                        let a = GateAction::Begin { note: None, op: GateOp::FastForward { commit: g.commit.clone() } };
                        (LandGate { step: LandStep::FastForward, ..g }, a)
                    } else {
                        let mut reason = copy_string(&g.slip_id);
                        push_str(&mut reason, " cannot land yet — territory dirty or moved; merge ");
                        push_str(&mut reason, g.branch.as_str());
                        push_str(
                            &mut reason,
                            " manually and continue again, or continue once the territory is clean at the stamped base",
                        );
                        (LandGate { step: LandStep::Finished, ..g }, GateAction::Refuse { reason })
                    }
                },
                GateEvent::Text(Err(d)) => {
                    let a = GateAction::Refuse { reason: glue2("cannot inspect territory: ", d.as_str()) };
                    (LandGate { step: LandStep::Finished, ..g }, a)
                },
                _ => (LandGate { step: LandStep::Finished, ..g }, witness(String::new())),
            },
            LandStep::FastForward => match e {
                GateEvent::Done(Ok(())) => {
                    let mut note = string_from("landed ");
                    push_str(&mut note, g.commit.as_str());
                    push_str(&mut note, " onto ");
                    push_str(&mut note, g.territory.as_str());
                    let a = GateAction::Perform { note: Some(note), op: GateOp::WorktreeExists };
                    (LandGate { step: LandStep::WorktreeExists, ..g }, a)
                },
                GateEvent::Done(Err(d)) => {
                    let a = witness(glue2("fast-forward failed despite checks: ", d.as_str()));
                    (LandGate { step: LandStep::Finished, ..g }, a)
                },
                _ => (LandGate { step: LandStep::Finished, ..g }, witness(String::new())),
            },
            LandStep::WorktreeExists => match e {
                GateEvent::Flag(Ok(true)) => {
                    let a = perform(GateOp::RemoveWorktree);
                    (LandGate { step: LandStep::Remove, ..g }, a)
                },
                _ => {
                    let a = GateAction::Close { note: None, reason: glue2("landed ", g.commit.as_str()) };
                    (LandGate { step: LandStep::Finished, ..g }, a)
                },
            },
            LandStep::Remove => match e {
                GateEvent::Done(Ok(())) => {
                    let note = glue2("worktree removed: ", g.worktree.as_str());
                    let reason = glue2("landed ", g.commit.as_str());
                    let a = GateAction::Close { note: Some(note), reason };
                    (LandGate { step: LandStep::Finished, ..g }, a)
                },
                GateEvent::Done(Err(d)) => {
                    let a = witness(glue2("worktree removal failed: ", d.as_str()));
                    (LandGate { step: LandStep::Finished, ..g }, a)
                },
                _ => (LandGate { step: LandStep::Finished, ..g }, witness(String::new())),
            },
            LandStep::Finished => (g, witness(String::new())),
        }
    }
}


// ── Laws ────────────────────────────────────────────────────────────────────

/// Every defect the apply gate meets after the grant is witnessed on the
/// ledger: the apply gate never refuses silently.
pub proof fn law_apply_defects_are_witnessed(g: ApplyGate, e: GateEvent, n: ApplyStep, a: GateAction)
    requires
        apply_decides(g, e, n, a),
    ensures
        !(a is Refuse),
{
}

/// The apply gate fast-forwards the territory only after the territory
/// was seen clean and still at the stamped base.
pub proof fn law_apply_lands_only_a_clean_unmoved_territory(g: ApplyGate, e: GateEvent, n: ApplyStep, a: GateAction)
    requires
        apply_decides(g, e, n, a),
        a matches GateAction::Perform { op, .. } && op is FastForward,
    ensures
        g.step matches ApplyStep::HeadNow { dirty, .. } && !dirty,
        e matches GateEvent::Text(Ok(h)) && h@ == g.base@,
{
}

/// A stale or dirty territory refuses the land gate before its phase
/// begins: refusals come only from the questions asked before it.
pub proof fn law_land_refuses_only_before_its_phase(g: LandGate, e: GateEvent, n: LandStep, a: GateAction)
    requires
        land_decides(g, e, n, a),
        a is Refuse,
    ensures
        g.step is IsLanded || g.step is Dirty || g.step is Head,
{
}

/// The land gate fast-forwards only a clean territory still at the
/// stamped base.
pub proof fn law_land_merges_only_a_clean_unmoved_territory(g: LandGate, e: GateEvent, n: LandStep, a: GateAction)
    requires
        land_decides(g, e, n, a),
        a matches GateAction::Begin { op, .. } && op is FastForward,
    ensures
        g.step == (LandStep::Head { dirty: false }),
        e matches GateEvent::Text(Ok(h)) && h@ == g.base@,
{
}

} // verus!
