//! The slip: a fold over one ledger's events. It is never written, only
//! derived, so it cannot lie. Liveness and attention (in flight, cocked,
//! failed, holding) are derived states; no event ever asserts them.
use vstd::prelude::*;

use super::event::{ClearanceVerdict, Event, EventKind, Kind, Lane, PhaseOutcome, SlipId, SlipOutcome};


verus! {

/// Where a slip stands.
#[derive(Debug, Clone, Copy, PartialEq, Eq, Structural)]
pub enum Status {
    InFlight,
    Accepted,
    Rejected,
}

/// One phase as flown.
pub struct PhaseRow {
    pub phase: String,
    pub owner: String,
    pub lane: Lane,
    /// The engineer that flew this stage; empty on pre-attribution ledgers.
    pub engineer: String,
    pub started: String,
    pub ended: Option<String>,
    pub outcome: Option<PhaseOutcome>,
}

/// One entry in the tool trail.
pub struct ToolRow {
    pub phase: String,
    pub tool: String,
    pub ok: bool,
    pub summary: String,
    pub ts: String,
}

/// One written section.
pub struct SectionRow {
    pub section: String,
    pub by: String,
    pub summary: String,
    pub body: String,
    pub ts: String,
}

/// One model request as sent.
pub struct ModelRequestRow {
    pub phase: String,
    pub model: String,
    pub system: String,
    pub user: String,
    pub ts: String,
}

/// The controller's answer to one clearance request.
pub struct ClearanceResponse {
    pub verdict: ClearanceVerdict,
    pub by: String,
    pub ts: String,
    pub reason: String,
}

/// One clearance request and its answer, if any.
pub struct ClearanceRow {
    pub boundary: String,
    pub requested_by: String,
    pub requested_ts: String,
    pub response: Option<ClearanceResponse>,
}

/// The face of a slip plus everything its detail view discloses.
pub struct Slip {
    pub id: SlipId,
    pub request: String,
    pub workflow: String,
    pub engineer: String,
    pub repo: String,
    pub status: Status,
    /// The boundary awaiting the controller, when the strip is cocked.
    pub cocked: Option<String>,
    /// The phase whose error is unwitnessed.
    pub failed: Option<String>,
    /// Cleared and holding: the granted boundary nothing has flown since.
    pub holding: Option<String>,
    pub current_phase: Option<String>,
    pub close_reason: Option<String>,
    pub phases: Vec<PhaseRow>,
    pub sections: Vec<SectionRow>,
    pub model_requests: Vec<ModelRequestRow>,
    pub tool_trail: Vec<ToolRow>,
    pub clearances: Vec<ClearanceRow>,
    /// Total tokens over all model calls (saturating at `u64::MAX`).
    pub tokens: u64,
    /// Model calls made (saturating at `u32::MAX`).
    pub model_calls: u32,
    /// Queries made (saturating at `u32::MAX`).
    pub queries: u32,
    /// The airframe most recently requested or completed.
    pub last_model: Option<String>,
    pub opened_ts: String,
    pub last_ts: String,
    /// Events since (and including) the opening.
    pub event_count: usize,
}

// ── The model ───────────────────────────────────────────────────────────────

pub struct PhaseRowV {
    pub phase: Seq<char>,
    pub owner: Seq<char>,
    pub lane: Lane,
    pub engineer: Seq<char>,
    pub started: Seq<char>,
    pub ended: Option<Seq<char>>,
    pub outcome: Option<PhaseOutcome>,
}

pub struct ToolRowV {
    pub phase: Seq<char>,
    pub tool: Seq<char>,
    pub ok: bool,
    pub summary: Seq<char>,
    pub ts: Seq<char>,
}

pub struct SectionRowV {
    pub section: Seq<char>,
    pub by: Seq<char>,
    pub summary: Seq<char>,
    pub body: Seq<char>,
    pub ts: Seq<char>,
}

pub struct ModelRequestRowV {
    pub phase: Seq<char>,
    pub model: Seq<char>,
    pub system: Seq<char>,
    pub user: Seq<char>,
    pub ts: Seq<char>,
}

pub struct ClearanceResponseV {
    pub verdict: ClearanceVerdict,
    pub by: Seq<char>,
    pub ts: Seq<char>,
    pub reason: Seq<char>,
}

pub struct ClearanceRowV {
    pub boundary: Seq<char>,
    pub requested_by: Seq<char>,
    pub requested_ts: Seq<char>,
    pub response: Option<ClearanceResponseV>,
}

pub struct SlipV {
    pub id: Seq<char>,
    pub request: Seq<char>,
    pub workflow: Seq<char>,
    pub engineer: Seq<char>,
    pub repo: Seq<char>,
    pub status: Status,
    pub cocked: Option<Seq<char>>,
    pub failed: Option<Seq<char>>,
    pub holding: Option<Seq<char>>,
    pub current_phase: Option<Seq<char>>,
    pub close_reason: Option<Seq<char>>,
    pub phases: Seq<PhaseRowV>,
    pub sections: Seq<SectionRowV>,
    pub model_requests: Seq<ModelRequestRowV>,
    pub tool_trail: Seq<ToolRowV>,
    pub clearances: Seq<ClearanceRowV>,
    pub tokens: nat,
    pub model_calls: nat,
    pub queries: nat,
    pub last_model: Option<Seq<char>>,
    pub opened_ts: Seq<char>,
    pub last_ts: Seq<char>,
    pub event_count: nat,
}

pub open spec fn opt_view(o: Option<String>) -> Option<Seq<char>> {
    match o {
        Some(s) => Some(s@),
        None => None,
    }
}

impl View for PhaseRow {
    type V = PhaseRowV;

    open spec fn view(&self) -> PhaseRowV {
        PhaseRowV {
            phase: self.phase@,
            owner: self.owner@,
            lane: self.lane,
            engineer: self.engineer@,
            started: self.started@,
            ended: opt_view(self.ended),
            outcome: self.outcome,
        }
    }
}

impl View for ToolRow {
    type V = ToolRowV;

    open spec fn view(&self) -> ToolRowV {
        ToolRowV {
            phase: self.phase@,
            tool: self.tool@,
            ok: self.ok,
            summary: self.summary@,
            ts: self.ts@,
        }
    }
}

impl View for SectionRow {
    type V = SectionRowV;

    open spec fn view(&self) -> SectionRowV {
        SectionRowV {
            section: self.section@,
            by: self.by@,
            summary: self.summary@,
            body: self.body@,
            ts: self.ts@,
        }
    }
}

impl View for ModelRequestRow {
    type V = ModelRequestRowV;

    open spec fn view(&self) -> ModelRequestRowV {
        ModelRequestRowV {
            phase: self.phase@,
            model: self.model@,
            system: self.system@,
            user: self.user@,
            ts: self.ts@,
        }
    }
}

pub open spec fn response_view(r: Option<ClearanceResponse>) -> Option<ClearanceResponseV> {
    match r {
        Some(r) => Some(
            ClearanceResponseV { verdict: r.verdict, by: r.by@, ts: r.ts@, reason: r.reason@ },
        ),
        None => None,
    }
}

impl View for ClearanceRow {
    type V = ClearanceRowV;

    open spec fn view(&self) -> ClearanceRowV {
        ClearanceRowV {
            boundary: self.boundary@,
            requested_by: self.requested_by@,
            requested_ts: self.requested_ts@,
            response: response_view(self.response),
        }
    }
}

pub open spec fn rows_view<T: View>(v: Seq<T>) -> Seq<T::V> {
    v.map_values(|r: T| r@)
}

impl View for Slip {
    type V = SlipV;

    open spec fn view(&self) -> SlipV {
        SlipV {
            id: self.id.0@,
            request: self.request@,
            workflow: self.workflow@,
            engineer: self.engineer@,
            repo: self.repo@,
            status: self.status,
            cocked: opt_view(self.cocked),
            failed: opt_view(self.failed),
            holding: opt_view(self.holding),
            current_phase: opt_view(self.current_phase),
            close_reason: opt_view(self.close_reason),
            phases: rows_view(self.phases@),
            sections: rows_view(self.sections@),
            model_requests: rows_view(self.model_requests@),
            tool_trail: rows_view(self.tool_trail@),
            clearances: rows_view(self.clearances@),
            tokens: self.tokens as nat,
            model_calls: self.model_calls as nat,
            queries: self.queries as nat,
            last_model: opt_view(self.last_model),
            opened_ts: self.opened_ts@,
            last_ts: self.last_ts@,
            event_count: self.event_count as nat,
        }
    }
}

/// The fold's running state: the slip so far, and the boundary granted
/// with nothing flown since (tracked in event order, not by timestamp).
pub struct FoldV {
    pub slip: Option<SlipV>,
    pub throttle: Option<Seq<char>>,
}

/// Addition that stops at `max`.
pub open spec fn sat_add(a: nat, b: nat, max: nat) -> nat {
    if a + b > max {
        max
    } else {
        a + b
    }
}

/// The index of the newest row of `phase` that has not ended, if any.
pub open spec fn open_phase_index(rows: Seq<PhaseRowV>, phase: Seq<char>) -> Option<int> {
    if exists|i: int|
        0 <= i < rows.len() && rows[i].phase == phase && rows[i].ended is None && forall|j: int|
            i < j < rows.len() ==> !(rows[j].phase == phase && rows[j].ended is None) {
        Some(
            choose|i: int|
                0 <= i < rows.len() && rows[i].phase == phase && rows[i].ended is None && forall|
                    j: int,
                |
                    i < j < rows.len() ==> !(rows[j].phase == phase && rows[j].ended is None),
        )
    } else {
        None
    }
}

/// The index of the newest unanswered request at `boundary`, if any.
pub open spec fn open_clearance_index(rows: Seq<ClearanceRowV>, boundary: Seq<char>) -> Option<
    int,
> {
    if exists|i: int|
        0 <= i < rows.len() && rows[i].boundary == boundary && rows[i].response is None
            && forall|j: int|
            i < j < rows.len() ==> !(rows[j].boundary == boundary && rows[j].response is None) {
        Some(
            choose|i: int|
                0 <= i < rows.len() && rows[i].boundary == boundary && rows[i].response is None
                    && forall|j: int|
                    i < j < rows.len() ==> !(rows[j].boundary == boundary
                        && rows[j].response is None),
        )
    } else {
        None
    }
}

/// The index of the newest unanswered request at any boundary, if any.
pub open spec fn last_unanswered_index(rows: Seq<ClearanceRowV>) -> Option<int> {
    if exists|i: int|
        0 <= i < rows.len() && rows[i].response is None && forall|j: int|
            i < j < rows.len() ==> rows[j].response is Some {
        Some(
            choose|i: int|
                0 <= i < rows.len() && rows[i].response is None && forall|j: int|
                    i < j < rows.len() ==> rows[j].response is Some,
        )
    } else {
        None
    }
}

/// A fresh slip opened by `e`.
pub open spec fn opened_slip(e: Event, request: Seq<char>, workflow: Seq<char>, engineer: Seq<
    char,
>, repo: Seq<char>) -> SlipV {
    SlipV {
        id: e.slip_id.0@,
        request,
        workflow,
        engineer,
        repo,
        status: Status::InFlight,
        cocked: None,
        failed: None,
        holding: None,
        current_phase: None,
        close_reason: None,
        phases: Seq::empty(),
        sections: Seq::empty(),
        model_requests: Seq::empty(),
        tool_trail: Seq::empty(),
        clearances: Seq::empty(),
        tokens: 0,
        model_calls: 0,
        queries: 0,
        last_model: None,
        opened_ts: e.ts@,
        last_ts: e.ts@,
        event_count: 1,
    }
}

/// Answer the newest open request at `boundary`; unchanged when none is open.
pub open spec fn answered(s: SlipV, boundary: Seq<char>, response: ClearanceResponseV) -> SlipV {
    match open_clearance_index(s.clearances, boundary) {
        Some(i) => SlipV {
            clearances: s.clearances.update(
                i,
                ClearanceRowV { response: Some(response), ..s.clearances[i] },
            ),
            ..s
        },
        None => s,
    }
}

/// What one known, non-opening event does to an open slip.
#[verifier::opaque]
pub open spec fn apply_kind(s: SlipV, throttle: Option<Seq<char>>, k: Kind, ts: Seq<char>) -> FoldV {
    match k {
        Kind::SlipOpened { .. } => FoldV { slip: Some(s), throttle },
        Kind::PhaseStarted { phase, owner, lane, engineer } => FoldV {
            slip: Some(
                SlipV {
                    current_phase: Some(phase@),
                    phases: s.phases.push(
                        PhaseRowV {
                            phase: phase@,
                            owner: owner@,
                            lane,
                            engineer: engineer@,
                            started: ts,
                            ended: None,
                            outcome: None,
                        },
                    ),
                    ..s
                },
            ),
            throttle: None,
        },
        Kind::PhaseEnded { phase, outcome } => {
            let phases = match open_phase_index(s.phases, phase@) {
                Some(i) => s.phases.update(
                    i,
                    PhaseRowV { ended: Some(ts), outcome: Some(outcome), ..s.phases[i] },
                ),
                None => s.phases,
            };
            let current = if s.current_phase == Some(phase@) {
                None
            } else {
                s.current_phase
            };
            FoldV { slip: Some(SlipV { phases, current_phase: current, ..s }), throttle }
        },
        Kind::SectionWritten { section, by, summary, body } => FoldV {
            slip: Some(
                SlipV {
                    sections: s.sections.push(
                        SectionRowV {
                            section: section@,
                            by: by@,
                            summary: summary@,
                            body: body@,
                            ts,
                        },
                    ),
                    ..s
                },
            ),
            throttle,
        },
        Kind::ClearanceRequested { boundary, by } => FoldV {
            slip: Some(
                SlipV {
                    clearances: s.clearances.push(
                        ClearanceRowV {
                            boundary: boundary@,
                            requested_by: by@,
                            requested_ts: ts,
                            response: None,
                        },
                    ),
                    ..s
                },
            ),
            throttle,
        },
        Kind::ClearanceGranted { boundary, by } => {
            let response = ClearanceResponseV {
                verdict: ClearanceVerdict::Granted,
                by: by@,
                ts,
                reason: Seq::empty(),
            };
            let t = if open_clearance_index(s.clearances, boundary@) is Some {
                Some(boundary@)
            } else {
                throttle
            };
            FoldV { slip: Some(answered(s, boundary@, response)), throttle: t }
        },
        Kind::ClearanceRefused { boundary, by, reason } => {
            let response = ClearanceResponseV {
                verdict: ClearanceVerdict::Refused,
                by: by@,
                ts,
                reason: reason@,
            };
            FoldV { slip: Some(answered(s, boundary@, response)), throttle }
        },
        Kind::QueryMade { .. } => FoldV {
            slip: Some(SlipV { queries: sat_add(s.queries, 1, u32::MAX as nat), ..s }),
            throttle,
        },
        Kind::ModelRequested { phase, model, system, user } => FoldV {
            slip: Some(
                SlipV {
                    last_model: Some(model@),
                    model_requests: s.model_requests.push(
                        ModelRequestRowV {
                            phase: phase@,
                            model: model@,
                            system: system@,
                            user: user@,
                            ts,
                        },
                    ),
                    ..s
                },
            ),
            throttle,
        },
        Kind::ModelCall { model, tokens, .. } => FoldV {
            slip: Some(
                SlipV {
                    model_calls: sat_add(s.model_calls, 1, u32::MAX as nat),
                    tokens: sat_add(s.tokens, tokens as nat, u64::MAX as nat),
                    last_model: Some(model@),
                    ..s
                },
            ),
            throttle,
        },
        Kind::ToolCall { phase, tool, ok, summary, .. } => FoldV {
            slip: Some(
                SlipV {
                    tool_trail: s.tool_trail.push(
                        ToolRowV { phase: phase@, tool: tool@, ok, summary: summary@, ts },
                    ),
                    ..s
                },
            ),
            throttle,
        },
        Kind::Note { .. } => FoldV { slip: Some(s), throttle },
        Kind::SlipClosed { outcome, reason, .. } => FoldV {
            slip: Some(
                SlipV {
                    status: match outcome {
                        SlipOutcome::Accepted => Status::Accepted,
                        SlipOutcome::Rejected => Status::Rejected,
                    },
                    close_reason: if reason@.len() == 0 {
                        s.close_reason
                    } else {
                        Some(reason@)
                    },
                    ..s
                },
            ),
            throttle,
        },
    }
}

/// One event's effect on the fold. Every event after the opening counts
/// and stamps `last_ts`; an opening replaces the slip; unknown kinds and
/// events before any opening change nothing else.
pub open spec fn fold_step(st: FoldV, e: Event) -> FoldV {
    let touched = match st.slip {
        Some(s) => Some(SlipV { last_ts: e.ts@, event_count: s.event_count + 1, ..s }),
        None => None,
    };
    match e.kind {
        EventKind::Unknown { .. } => FoldV { slip: touched, throttle: st.throttle },
        EventKind::Known(k) => match k {
            Kind::SlipOpened { request, workflow, engineer, repo } => FoldV {
                slip: Some(opened_slip(e, request@, workflow@, engineer@, repo@)),
                throttle: st.throttle,
            },
            _ => match touched {
                Some(s) => apply_kind(s, st.throttle, k, e.ts@),
                None => FoldV { slip: None, throttle: st.throttle },
            },
        },
    }
}

/// The fold over the first `n` events.
pub open spec fn fold_prefix(events: Seq<Event>, n: nat) -> FoldV
    decreases n,
{
    if n == 0 || n > events.len() {
        FoldV { slip: None, throttle: None }
    } else {
        fold_step(fold_prefix(events, (n - 1) as nat), events[n - 1])
    }
}

/// The attention states, derived once every event has been seen.
pub open spec fn finish(st: FoldV) -> Option<SlipV> {
    match st.slip {
        None => None,
        Some(s) => if s.status == Status::InFlight {
            let cocked = match last_unanswered_index(s.clearances) {
                Some(i) => Some(s.clearances[i].boundary),
                None => None,
            };
            let failed = if s.phases.len() > 0 && s.phases.last().outcome == Some(
                PhaseOutcome::Error,
            ) {
                Some(s.phases.last().phase)
            } else {
                None
            };
            let holding = if cocked is None && failed is None {
                st.throttle
            } else {
                None
            };
            Some(SlipV { cocked, failed, holding, ..s })
        } else {
            Some(SlipV { cocked: None, failed: None, holding: None, ..s })
        },
    }
}

/// The slip a ledger folds to: `None` when no `slip_opened.v1` exists.
pub open spec fn fold_spec(events: Seq<Event>) -> Option<SlipV> {
    finish(fold_prefix(events, events.len()))
}

} // verus!

verus! {

// ── The executable fold ─────────────────────────────────────────────────────

pub open spec fn slip_opt_view(o: Option<Slip>) -> Option<SlipV> {
    match o {
        Some(s) => Some(s@),
        None => None,
    }
}

fn clone_opt(o: &Option<String>) -> (r: Option<String>)
    ensures
        opt_view(r) == opt_view(*o),
{
    match o {
        Some(s) => Some(s.clone()),
        None => None,
    }
}

proof fn lemma_rows_push<T: View>(v: Seq<T>, x: T)
    ensures
        rows_view(v.push(x)) == rows_view(v).push(x@),
{
    assert(rows_view(v.push(x)) =~= rows_view(v).push(x@));
}

proof fn lemma_rows_update<T: View>(v: Seq<T>, i: int, x: T)
    requires
        0 <= i < v.len(),
    ensures
        rows_view(v.update(i, x)) == rows_view(v).update(i, x@),
{
    assert(rows_view(v.update(i, x)) =~= rows_view(v).update(i, x@));
}

/// Replaces element `i` of a vector.
fn replace_at<T>(v: &mut Vec<T>, i: usize, x: T) -> (old_x: T)
    requires
        i < old(v).len(),
    ensures
        final(v)@ == old(v)@.update(i as int, x),
        old_x == old(v)@[i as int],
{
    let removed = v.remove(i);
    v.insert(i, x);
    proof {
        assert(final(v)@ =~= old(v)@.update(i as int, x));
    }
    removed
}

/// The newest row of `phase` that has not ended.
fn find_open_phase(rows: &Vec<PhaseRow>, phase: &String) -> (r: Option<usize>)
    ensures
        match r {
            Some(i) => open_phase_index(rows_view(rows@), phase@) == Some(i as int) && i
                < rows.len(),
            None => open_phase_index(rows_view(rows@), phase@) is None,
        },
{
    let ghost rv = rows_view(rows@);
    let mut i: usize = rows.len();
    while i > 0
        invariant
            i <= rows.len(),
            rv == rows_view(rows@),
            forall|j: int| i <= j < rows.len() ==> !(rv[j].phase == phase@ && rv[j].ended is None),
        decreases i,
    {
        i = i - 1;
        if rows[i].phase == *phase && rows[i].ended.is_none() {
            proof {
                assert(rv[i as int].phase == phase@ && rv[i as int].ended is None);
                let c = open_phase_index(rv, phase@);
                assert(c is Some);
                let k = c->0;
                if k < i {
                    assert(false);
                }
                if k > i {
                    assert(false);
                }
            }
            return Some(i);
        }
        proof {
            assert(!(rv[i as int].phase == phase@ && rv[i as int].ended is None));
        }
    }
    None
}

/// The newest unanswered request at `boundary`.
fn find_open_clearance(rows: &Vec<ClearanceRow>, boundary: &String) -> (r: Option<usize>)
    ensures
        match r {
            Some(i) => open_clearance_index(rows_view(rows@), boundary@) == Some(i as int) && i
                < rows.len(),
            None => open_clearance_index(rows_view(rows@), boundary@) is None,
        },
{
    let ghost rv = rows_view(rows@);
    let mut i: usize = rows.len();
    while i > 0
        invariant
            i <= rows.len(),
            rv == rows_view(rows@),
            forall|j: int|
                i <= j < rows.len() ==> !(rv[j].boundary == boundary@ && rv[j].response is None),
        decreases i,
    {
        i = i - 1;
        if rows[i].boundary == *boundary && rows[i].response.is_none() {
            proof {
                assert(rv[i as int].boundary == boundary@ && rv[i as int].response is None);
                let c = open_clearance_index(rv, boundary@);
                assert(c is Some);
                let k = c->0;
                if k < i {
                    assert(false);
                }
                if k > i {
                    assert(false);
                }
            }
            return Some(i);
        }
        proof {
            assert(!(rv[i as int].boundary == boundary@ && rv[i as int].response is None));
        }
    }
    None
}

/// The newest unanswered request at any boundary.
fn find_unanswered(rows: &Vec<ClearanceRow>) -> (r: Option<usize>)
    ensures
        match r {
            Some(i) => last_unanswered_index(rows_view(rows@)) == Some(i as int) && i
                < rows.len(),
            None => last_unanswered_index(rows_view(rows@)) is None,
        },
{
    let ghost rv = rows_view(rows@);
    let mut i: usize = rows.len();
    while i > 0
        invariant
            i <= rows.len(),
            rv == rows_view(rows@),
            forall|j: int| i <= j < rows.len() ==> rv[j].response is Some,
        decreases i,
    {
        i = i - 1;
        if rows[i].response.is_none() {
            proof {
                assert(rv[i as int].response is None);
                let c = last_unanswered_index(rv);
                assert(c is Some);
                let k = c->0;
                if k < i {
                    assert(false);
                }
                if k > i {
                    assert(false);
                }
            }
            return Some(i);
        }
        proof {
            assert(rv[i as int].response is Some);
        }
    }
    None
}

/// Answers the newest open request at `boundary`; reports whether one existed.
fn answer_clearance(s: &mut Slip, boundary: &String, response: ClearanceResponse) -> (found: bool)
    ensures
        final(s)@ == answered(
            old(s)@,
            boundary@,
            response_view(Some(response))->0,
        ),
        found == open_clearance_index(old(s)@.clearances, boundary@) is Some,
{
    match find_open_clearance(&s.clearances, boundary) {
        Some(i) => {
            let ghost before = s.clearances@;
            let row = ClearanceRow {
                boundary: s.clearances[i].boundary.clone(),
                requested_by: s.clearances[i].requested_by.clone(),
                requested_ts: s.clearances[i].requested_ts.clone(),
                response: Some(response),
            };
            let _old = replace_at(&mut s.clearances, i, row);
            proof {
                lemma_rows_update(before, i as int, row);
                assert(rows_view(s.clearances@) =~= answered(
                    old(s)@,
                    boundary@,
                    response_view(Some(response))->0,
                ).clearances);
            }
            true
        },
        None => false,
    }
}

fn saturating_inc(x: u32) -> (r: u32)
    ensures
        r == sat_add(x as nat, 1, u32::MAX as nat),
{
    if x == u32::MAX {
        x
    } else {
        x + 1
    }
}

/// What one known, non-opening event does to an open slip.
fn apply_known(s: Slip, throttle: Option<String>, k: &Kind, ts: &String) -> (r: (
    Slip,
    Option<String>,
))
    ensures
        ({
            let f = apply_kind(s@, opt_view(throttle), *k, ts@);
            f.slip == Some(r.0@) && f.throttle == opt_view(r.1)
        }),
{
    reveal(apply_kind);
    let mut s = s;
    match k {
        Kind::SlipOpened { .. } => (s, throttle),
        Kind::PhaseStarted { phase, owner, lane, engineer } => {
            let ghost before = s.phases@;
            let row = PhaseRow {
                phase: phase.clone(),
                owner: owner.clone(),
                lane: *lane,
                engineer: engineer.clone(),
                started: ts.clone(),
                ended: None,
                outcome: None,
            };
            s.phases.push(row);
            s.current_phase = Some(phase.clone());
            proof {
                lemma_rows_push(before, row);
            }
            (s, None)
        },
        Kind::PhaseEnded { phase, outcome } => {
            let ghost s0 = s@;
            match find_open_phase(&s.phases, phase) {
                Some(i) => {
                    let ghost before = s.phases@;
                    let row = PhaseRow {
                        phase: s.phases[i].phase.clone(),
                        owner: s.phases[i].owner.clone(),
                        lane: s.phases[i].lane,
                        engineer: s.phases[i].engineer.clone(),
                        started: s.phases[i].started.clone(),
                        ended: Some(ts.clone()),
                        outcome: Some(*outcome),
                    };
                    let _old = replace_at(&mut s.phases, i, row);
                    proof {
                        lemma_rows_update(before, i as int, row);
                        assert(rows_view(s.phases@) =~= rows_view(before).update(
                            i as int,
                            PhaseRowV {
                                ended: Some(ts@),
                                outcome: Some(*outcome),
                                ..rows_view(before)[i as int]
                            },
                        ));
                    }
                },
                None => {},
            }
            let same = match &s.current_phase {
                Some(c) => *c == *phase,
                None => false,
            };
            if same {
                s.current_phase = None;
            }
            (s, throttle)
        },
        Kind::SectionWritten { section, by, summary, body } => {
            let ghost before = s.sections@;
            let row = SectionRow {
                section: section.clone(),
                by: by.clone(),
                summary: summary.clone(),
                body: body.clone(),
                ts: ts.clone(),
            };
            s.sections.push(row);
            proof {
                lemma_rows_push(before, row);
            }
            (s, throttle)
        },
        Kind::ClearanceRequested { boundary, by } => {
            let ghost before = s.clearances@;
            let row = ClearanceRow {
                boundary: boundary.clone(),
                requested_by: by.clone(),
                requested_ts: ts.clone(),
                response: None,
            };
            s.clearances.push(row);
            proof {
                lemma_rows_push(before, row);
            }
            (s, throttle)
        },
        Kind::ClearanceGranted { boundary, by } => {
            let response = ClearanceResponse {
                verdict: ClearanceVerdict::Granted,
                by: by.clone(),
                ts: ts.clone(),
                reason: String::new(),
            };
            let found = answer_clearance(&mut s, boundary, response);
            if found {
                (s, Some(boundary.clone()))
            } else {
                (s, throttle)
            }
        },
        Kind::ClearanceRefused { boundary, by, reason } => {
            let response = ClearanceResponse {
                verdict: ClearanceVerdict::Refused,
                by: by.clone(),
                ts: ts.clone(),
                reason: reason.clone(),
            };
            let _found = answer_clearance(&mut s, boundary, response);
            (s, throttle)
        },
        Kind::QueryMade { .. } => {
            s.queries = saturating_inc(s.queries);
            (s, throttle)
        },
        Kind::ModelRequested { phase, model, system, user } => {
            let ghost before = s.model_requests@;
            let row = ModelRequestRow {
                phase: phase.clone(),
                model: model.clone(),
                system: system.clone(),
                user: user.clone(),
                ts: ts.clone(),
            };
            s.model_requests.push(row);
            s.last_model = Some(model.clone());
            proof {
                lemma_rows_push(before, row);
            }
            (s, throttle)
        },
        Kind::ModelCall { model, tokens, .. } => {
            s.model_calls = saturating_inc(s.model_calls);
            s.tokens = s.tokens.saturating_add(*tokens);
            s.last_model = Some(model.clone());
            (s, throttle)
        },
        Kind::ToolCall { phase, tool, ok, summary, .. } => {
            let ghost before = s.tool_trail@;
            let row = ToolRow {
                phase: phase.clone(),
                tool: tool.clone(),
                ok: *ok,
                summary: summary.clone(),
                ts: ts.clone(),
            };
            s.tool_trail.push(row);
            proof {
                lemma_rows_push(before, row);
            }
            (s, throttle)
        },
        Kind::Note { .. } => (s, throttle),
        Kind::SlipClosed { outcome, reason, .. } => {
            s.status = match outcome {
                SlipOutcome::Accepted => Status::Accepted,
                SlipOutcome::Rejected => Status::Rejected,
            };
            if !reason.as_str().is_empty() {
                s.close_reason = Some(reason.clone());
            }
            (s, throttle)
        },
    }
}

} // verus!

verus! {

fn touch(s: Slip, ts: &String) -> (r: Slip)
    requires
        s.event_count < usize::MAX,
    ensures
        r@ == (SlipV { last_ts: ts@, event_count: s@.event_count + 1, ..s@ }),
{
    let mut s = s;
    s.last_ts = ts.clone();
    s.event_count = s.event_count + 1;
    s
}

fn open_slip(e: &Event, request: &String, workflow: &String, engineer: &String, repo: &String) -> (r:
    Slip)
    ensures
        r@ == opened_slip(*e, request@, workflow@, engineer@, repo@),
{
    let r = Slip {
        id: SlipId(e.slip_id.0.clone()),
        request: request.clone(),
        workflow: workflow.clone(),
        engineer: engineer.clone(),
        repo: repo.clone(),
        status: Status::InFlight,
        cocked: None,
        failed: None,
        holding: None,
        current_phase: None,
        close_reason: None,
        phases: Vec::new(),
        sections: Vec::new(),
        model_requests: Vec::new(),
        tool_trail: Vec::new(),
        clearances: Vec::new(),
        tokens: 0,
        model_calls: 0,
        queries: 0,
        last_model: None,
        opened_ts: e.ts.clone(),
        last_ts: e.ts.clone(),
        event_count: 1,
    };
    proof {
        assert(rows_view(r.phases@) =~= Seq::<PhaseRowV>::empty());
        assert(rows_view(r.sections@) =~= Seq::<SectionRowV>::empty());
        assert(rows_view(r.model_requests@) =~= Seq::<ModelRequestRowV>::empty());
        assert(rows_view(r.tool_trail@) =~= Seq::<ToolRowV>::empty());
        assert(rows_view(r.clearances@) =~= Seq::<ClearanceRowV>::empty());
    }
    r
}

fn finish_exec(slip: Option<Slip>, throttle: Option<String>) -> (r: Option<Slip>)
    ensures
        slip_opt_view(r) == finish(FoldV { slip: slip_opt_view(slip), throttle: opt_view(throttle) }),
{
    match slip {
        None => None,
        Some(s) => {
            let mut s = s;
            if s.status == Status::InFlight {
                let cocked = match find_unanswered(&s.clearances) {
                    Some(i) => Some(s.clearances[i].boundary.clone()),
                    None => None,
                };
                let n = s.phases.len();
                let failed = if n > 0 && s.phases[n - 1].outcome == Some(PhaseOutcome::Error) {
                    Some(s.phases[n - 1].phase.clone())
                } else {
                    None
                };
                proof {
                    let v = rows_view(s.phases@);
                    if n > 0 {
                        assert(v.last() == s.phases@[n - 1]@);
                    }
                }
                let holding = if cocked.is_none() && failed.is_none() {
                    throttle
                } else {
                    None
                };
                s.cocked = cocked;
                s.failed = failed;
                s.holding = holding;
            } else {
                s.cocked = None;
                s.failed = None;
                s.holding = None;
            }
            Some(s)
        },
    }
}

fn step_exec(slip: Option<Slip>, throttle: Option<String>, e: &Event) -> (r: (
    Option<Slip>,
    Option<String>,
))
    requires
        slip matches Some(s) ==> s.event_count < usize::MAX,
    ensures
        (FoldV { slip: slip_opt_view(r.0), throttle: opt_view(r.1) }) == fold_step(
            FoldV { slip: slip_opt_view(slip), throttle: opt_view(throttle) },
            *e,
        ),
        r.0 matches Some(s2) ==> s2.event_count == 1 || (slip matches Some(s) && s2.event_count
            == s.event_count + 1),
{
    let slip = match slip {
        Some(s) => Some(touch(s, &e.ts)),
        None => None,
    };
    match &e.kind {
        EventKind::Unknown { .. } => (slip, throttle),
        EventKind::Known(k) => match k {
            Kind::SlipOpened { request, workflow, engineer, repo } => {
                (Some(open_slip(e, request, workflow, engineer, repo)), throttle)
            },
            _ => match slip {
                Some(s) => {
                    let ghost ec = s.event_count;
                    let (s2, t2) = apply_known(s, throttle, k, &e.ts);
                    proof {
                        lemma_apply_keeps_count(s@, opt_view(throttle), *k, e.ts@);
                    }
                    (Some(s2), t2)
                },
                None => (None, throttle),
            },
        },
    }
}

proof fn lemma_apply_keeps_count(s: SlipV, throttle: Option<Seq<char>>, k: Kind, ts: Seq<char>)
    ensures
        apply_kind(s, throttle, k, ts).slip matches Some(s2) && s2.event_count == s.event_count,
{
    reveal(apply_kind);
}

/// Folds a ledger into its slip. `None` when no `slip_opened.v1` exists —
/// a ledger that never opened has no face to show.
pub fn fold(events: &Vec<Event>) -> (r: Option<Slip>)
    ensures
        slip_opt_view(r) == fold_spec(events@),
{
    let mut slip: Option<Slip> = None;
    let mut throttle: Option<String> = None;
    let mut i: usize = 0;
    while i < events.len()
        invariant
            i <= events.len(),
            (FoldV { slip: slip_opt_view(slip), throttle: opt_view(throttle) }) == fold_prefix(
                events@,
                i as nat,
            ),
            slip matches Some(s) ==> s.event_count <= i,
        decreases events.len() - i,
    {
        let (s2, t2) = step_exec(slip, throttle, &events[i]);
        slip = s2;
        throttle = t2;
        proof {
            assert(fold_prefix(events@, (i + 1) as nat) == fold_step(
                fold_prefix(events@, i as nat),
                events@[i as int],
            ));
        }
        i = i + 1;
    }
    finish_exec(slip, throttle)
}

} // verus!

verus! {

// ── Laws of the fold ────────────────────────────────────────────────────────

/// Whether event `e` opens a slip.
pub open spec fn is_opening(e: Event) -> bool {
    e.kind matches EventKind::Known(Kind::SlipOpened { .. })
}

proof fn lemma_prefix_stable(a: Seq<Event>, b: Seq<Event>, n: nat)
    requires
        n <= a.len(),
        n <= b.len(),
        a.subrange(0, n as int) == b.subrange(0, n as int),
    ensures
        fold_prefix(a, n) == fold_prefix(b, n),
    decreases n,
{
    if n > 0 {
        assert(a.subrange(0, n - 1) =~= a.subrange(0, n as int).subrange(0, n - 1));
        assert(b.subrange(0, n - 1) =~= b.subrange(0, n as int).subrange(0, n - 1));
        lemma_prefix_stable(a, b, (n - 1) as nat);
        assert(a[n - 1] == a.subrange(0, n as int)[n - 1]);
        assert(b[n - 1] == b.subrange(0, n as int)[n - 1]);
    }
}

proof fn lemma_push_prefix(events: Seq<Event>, e: Event)
    ensures
        fold_prefix(events.push(e), (events.len() + 1) as nat) == fold_step(
            fold_prefix(events, events.len()),
            e,
        ),
{
    let pushed = events.push(e);
    assert(pushed.subrange(0, events.len() as int) =~= events.subrange(0, events.len() as int));
    lemma_prefix_stable(pushed, events, events.len());
}

proof fn lemma_opened_iff(events: Seq<Event>, n: nat)
    requires
        n <= events.len(),
    ensures
        fold_prefix(events, n).slip is Some <==> exists|i: int|
            0 <= i < n && is_opening(#[trigger] events[i]),
    decreases n,
{
    if n > 0 {
        lemma_opened_iff(events, (n - 1) as nat);
        let prev = fold_prefix(events, (n - 1) as nat);
        let e = events[n - 1];
        reveal(apply_kind);
        if is_opening(e) {
            assert(fold_prefix(events, n).slip is Some);
        } else {
            assert(fold_prefix(events, n).slip is Some <==> prev.slip is Some);
            if fold_prefix(events, n).slip is Some {
                let i = choose|i: int| 0 <= i < n - 1 && is_opening(#[trigger] events[i]);
                assert(0 <= i < n && is_opening(events[i]));
            }
            if exists|i: int| 0 <= i < n && is_opening(#[trigger] events[i]) {
                let i = choose|i: int| 0 <= i < n && is_opening(#[trigger] events[i]);
                assert(i < n - 1);
            }
        }
    }
}

/// A ledger folds to a slip exactly when one of its events opens it.
pub proof fn law_slip_exists_iff_opened(events: Seq<Event>)
    ensures
        fold_spec(events) is Some <==> exists|i: int|
            0 <= i < events.len() && is_opening(#[trigger] events[i]),
{
    lemma_opened_iff(events, events.len());
}

/// Attention is derived only on open slips: a closed slip is never
/// cocked, failed or holding.
pub proof fn law_closed_slips_need_no_attention(events: Seq<Event>)
    ensures
        fold_spec(events) matches Some(s) ==> (s.status != Status::InFlight ==> s.cocked is None
            && s.failed is None && s.holding is None),
{
}

/// Holding excludes the other attention states: a slip cleared and
/// waiting for `continue` is neither cocked nor failed.
pub proof fn law_holding_excludes_cocked_and_failed(events: Seq<Event>)
    ensures
        fold_spec(events) matches Some(s) ==> (s.holding is Some ==> s.cocked is None
            && s.failed is None && s.status == Status::InFlight),
{
}

/// A cocked strip names the newest clearance request nobody has answered,
/// and a failed one names the last phase, which ended in error.
pub proof fn law_attention_is_derived(events: Seq<Event>)
    ensures
        fold_spec(events) matches Some(s) ==> (s.cocked matches Some(b) ==> (exists|i: int|
            0 <= i < s.clearances.len() && s.clearances[i].response is None
                && s.clearances[i].boundary == b && forall|j: int|
                i < j < s.clearances.len() ==> s.clearances[j].response is Some)),
        fold_spec(events) matches Some(s) ==> (s.failed matches Some(p) ==> s.phases.len() > 0
            && s.phases.last().phase == p && s.phases.last().outcome == Some(
            PhaseOutcome::Error,
        )),
{
    let st = fold_prefix(events, events.len());
    if let Some(pre) = st.slip {
        if pre.status == Status::InFlight {
            if let Some(i) = last_unanswered_index(pre.clearances) {
                let s = finish(st)->0;
                assert(s.clearances == pre.clearances);
                assert(s.cocked == Some(pre.clearances[i].boundary));
                assert(0 <= i < s.clearances.len() && s.clearances[i].response is None
                    && s.clearances[i].boundary == s.cocked->0 && forall|j: int|
                    i < j < s.clearances.len() ==> s.clearances[j].response is Some);
            }
        }
    }
}

/// An unknown kind survives the fold as a count: appending one changes
/// nothing but the slip's `last_ts` and `event_count`.
pub proof fn law_unknown_events_only_count(events: Seq<Event>, e: Event)
    requires
        e.kind is Unknown,
    ensures
        fold_spec(events.push(e)) == match fold_spec(events) {
            Some(s) => Some(SlipV { last_ts: e.ts@, event_count: s.event_count + 1, ..s }),
            None => None,
        },
{
    lemma_push_prefix(events, e);
}

/// Pushing the throttle clears holding, and a new phase is progress, not
/// a corpse: after a phase starts the slip is neither holding nor failed.
pub proof fn law_phase_start_clears_holding_and_failed(events: Seq<Event>, e: Event)
    requires
        e.kind matches EventKind::Known(Kind::PhaseStarted { .. }),
    ensures
        fold_spec(events.push(e)) matches Some(s) ==> s.holding is None && s.failed is None,
{
    lemma_push_prefix(events, e);
    reveal(apply_kind);
}

/// A closing settles the slip: its status becomes the verdict and no
/// attention remains.
pub proof fn law_closing_settles(events: Seq<Event>, e: Event)
    requires
        e.kind matches EventKind::Known(Kind::SlipClosed { .. }),
        fold_spec(events) is Some,
    ensures
        fold_spec(events.push(e)) matches Some(s) && s.status != Status::InFlight
            && s.cocked is None && s.failed is None && s.holding is None,
{
    lemma_push_prefix(events, e);
    reveal(apply_kind);
}

/// The index of the last opening among the first `n` events.
pub open spec fn last_opening(events: Seq<Event>, n: nat) -> int
    decreases n,
{
    if n == 0 || n > events.len() {
        -1
    } else if is_opening(events[n - 1]) {
        n - 1
    } else {
        last_opening(events, (n - 1) as nat)
    }
}

proof fn lemma_event_count(events: Seq<Event>, n: nat)
    requires
        n <= events.len(),
    ensures
        fold_prefix(events, n).slip matches Some(s) ==> s.event_count == n - last_opening(
            events,
            n,
        ) && last_opening(events, n) >= 0,
    decreases n,
{
    if n > 0 {
        lemma_event_count(events, (n - 1) as nat);
        reveal(apply_kind);
    }
}

/// Every event from the opening on is counted, none dropped: the count
/// is the number of events since the last opening, inclusive.
pub proof fn law_event_count(events: Seq<Event>)
    ensures
        fold_spec(events) matches Some(s) ==> s.event_count == events.len() - last_opening(
            events,
            events.len(),
        ),
{
    lemma_event_count(events, events.len());
}

/// Tokens are totalled over every model call, never replaced: a model call
/// of `t` tokens appended to a ledger whose slip had used `T` tokens leaves
/// it at `T + t`, held at `u64::MAX`; the call count goes up by one, held
/// at `u32::MAX`, and the airframe called becomes the last one.
pub proof fn law_model_calls_add_up(events: Seq<Event>, e: Event)
    requires
        fold_spec(events) is Some,
        e.kind matches EventKind::Known(Kind::ModelCall { .. }),
    ensures
        ({
            let before = fold_spec(events)->0;
            let t = e.kind->Known_0->ModelCall_tokens;
            let after = fold_spec(events.push(e));
            &&& after is Some
            &&& after->0.tokens == (if before.tokens + t > u64::MAX { u64::MAX as int } else { before.tokens + t })
            &&& after->0.model_calls == (if before.model_calls + 1 > u32::MAX {
                u32::MAX as nat
            } else {
                before.model_calls + 1
            })
            &&& after->0.last_model == Some(e.kind->Known_0->ModelCall_model@)
        }),
{
    lemma_push_prefix(events, e);
    let st = fold_prefix(events, events.len());
    assert(st.slip is Some);
    let s0 = st.slip->0;
    let touched = SlipV { last_ts: e.ts@, event_count: s0.event_count + 1, ..s0 };
    let k = e.kind->Known_0;
    assert(fold_step(st, e) == apply_kind(touched, st.throttle, k, e.ts@));
    let n = fold_step(st, e);
    match k {
        Kind::ModelCall { model, tokens, .. } => {
            reveal(apply_kind);
            assert(apply_kind(touched, st.throttle, k, e.ts@) == FoldV {
                slip: Some(
                    SlipV {
                        model_calls: sat_add(touched.model_calls, 1, u32::MAX as nat),
                        tokens: sat_add(touched.tokens, tokens as nat, u64::MAX as nat),
                        last_model: Some(model@),
                        ..touched
                    },
                ),
                throttle: st.throttle,
            });
        },
        _ => {},
    }
    assert(n.slip is Some);
    assert(events.push(e).len() == events.len() + 1);
    assert(fold_spec(events.push(e)) == finish(n));
    assert(fold_spec(events) == finish(st));
    assert(finish(n)->0.tokens == n.slip->0.tokens);
    assert(finish(st)->0.tokens == s0.tokens);
}

#[verifier::spinoff_prover]
#[verifier::rlimit(60)]
proof fn lemma_apply_keeps_totals(s: SlipV, throttle: Option<Seq<char>>, k: Kind, ts: Seq<char>)
    requires
        !(k is ModelCall),
    ensures
        apply_kind(s, throttle, k, ts).slip is Some,
        apply_kind(s, throttle, k, ts).slip->0.tokens == s.tokens,
        apply_kind(s, throttle, k, ts).slip->0.model_calls == s.model_calls,
{
    reveal(apply_kind);
}

/// Nothing but a model call moves the totals: any other event after the
/// opening leaves the slip's tokens and model-call count as they were, and
/// an opening starts them at zero.
pub proof fn law_only_model_calls_move_the_totals(events: Seq<Event>, e: Event)
    requires
        fold_spec(events) is Some,
        !(e.kind matches EventKind::Known(Kind::ModelCall { .. })),
    ensures
        fold_spec(events.push(e)) is Some,
        is_opening(e) ==> fold_spec(events.push(e))->0.tokens == 0 && fold_spec(events.push(e))->0.model_calls == 0,
        !is_opening(e) ==> fold_spec(events.push(e))->0.tokens == fold_spec(events)->0.tokens
            && fold_spec(events.push(e))->0.model_calls == fold_spec(events)->0.model_calls,
{
    lemma_push_prefix(events, e);
    let st = fold_prefix(events, events.len());
    assert(st.slip is Some);
    let s0 = st.slip->0;
    let touched = SlipV { last_ts: e.ts@, event_count: s0.event_count + 1, ..s0 };
    match e.kind {
        EventKind::Known(k) => {
            if !is_opening(e) {
                lemma_apply_keeps_totals(touched, st.throttle, k, e.ts@);
            }
        },
        _ => {},
    }
}

} // verus!
