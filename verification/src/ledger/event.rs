//! Ledger events: the closed vocabulary of what can happen to a slip.
//!
//! Closed sets are enums, open vocabularies are strings, and a kind this
//! build does not know is an explicit variant carrying its raw wire text.
use vstd::prelude::*;

use crate::text::string_from;

verus! {

/// The ledger wire schema every event line carries.
pub const SCHEMA: &'static str = "ledger.v1";

/// A slip's identity (open vocabulary).
pub struct SlipId(pub String);

impl SlipId {
    /// The identity as text.
    pub fn as_str(&self) -> (s: &str)
        ensures
            s@ == self.0@,
    {
        self.0.as_str()
    }
}

/// Who flies a phase.
#[derive(Debug, Clone, Copy, PartialEq, Eq, Structural)]
pub enum Lane {
    Engineer,
    Agent,
    Code,
}

/// How a phase ended.
#[derive(Debug, Clone, Copy, PartialEq, Eq, Structural)]
pub enum PhaseOutcome {
    Success,
    Error,
}

/// How a slip closed.
#[derive(Debug, Clone, Copy, PartialEq, Eq, Structural)]
pub enum SlipOutcome {
    Accepted,
    Rejected,
}

/// The controller's answer to a clearance request.
#[derive(Debug, Clone, Copy, PartialEq, Eq, Structural)]
pub enum ClearanceVerdict {
    Granted,
    Refused,
}

/// The wire spelling of a lane.
pub open spec fn lane_text(l: Lane) -> Seq<char> {
    match l {
        Lane::Engineer => seq!['e', 'n', 'g', 'i', 'n', 'e', 'e', 'r'],
        Lane::Agent => seq!['a', 'g', 'e', 'n', 't'],
        Lane::Code => seq!['c', 'o', 'd', 'e'],
    }
}

impl Lane {
    /// The wire spelling: "engineer", "agent" or "code".
    pub fn as_string(&self) -> (s: String)
        ensures
            s@ == lane_text(*self),
    {
        let s = match self {
            Lane::Engineer => string_from("engineer"),
            Lane::Agent => string_from("agent"),
            Lane::Code => string_from("code"),
        };
        proof {
            reveal_strlit("engineer");
            reveal_strlit("agent");
            reveal_strlit("code");
        }
        s
    }
}

/// The wire spelling of a phase outcome.
pub open spec fn phase_outcome_text(o: PhaseOutcome) -> Seq<char> {
    match o {
        PhaseOutcome::Success => seq!['s', 'u', 'c', 'c', 'e', 's', 's'],
        PhaseOutcome::Error => seq!['e', 'r', 'r', 'o', 'r'],
    }
}

impl PhaseOutcome {
    /// The wire spelling: "success" or "error".
    pub fn as_string(&self) -> (s: String)
        ensures
            s@ == phase_outcome_text(*self),
    {
        let s = match self {
            PhaseOutcome::Success => string_from("success"),
            PhaseOutcome::Error => string_from("error"),
        };
        proof {
            reveal_strlit("success");
            reveal_strlit("error");
        }
        s
    }
}

/// The display spelling of a clearance verdict.
pub open spec fn verdict_text(v: ClearanceVerdict) -> Seq<char> {
    match v {
        ClearanceVerdict::Granted => seq!['g', 'r', 'a', 'n', 't', 'e', 'd'],
        ClearanceVerdict::Refused => seq!['r', 'e', 'f', 'u', 's', 'e', 'd'],
    }
}

impl ClearanceVerdict {
    /// The display spelling: "granted" or "refused".
    pub fn as_string(&self) -> (s: String)
        ensures
            s@ == verdict_text(*self),
    {
        let s = match self {
            ClearanceVerdict::Granted => string_from("granted"),
            ClearanceVerdict::Refused => string_from("refused"),
        };
        proof {
            reveal_strlit("granted");
            reveal_strlit("refused");
        }
        s
    }
}

/// The known event kinds, each with its payload.
///
/// `ModelCall::cost` and `ToolCall::args` keep the exact JSON text of
/// the wire value: the fold never reads them.
pub enum Kind {
    SlipOpened { request: String, workflow: String, engineer: String, repo: String },
    PhaseStarted { phase: String, owner: String, lane: Lane, engineer: String },
    PhaseEnded { phase: String, outcome: PhaseOutcome },
    SectionWritten { section: String, by: String, summary: String, body: String },
    ClearanceRequested { boundary: String, by: String },
    ClearanceGranted { boundary: String, by: String },
    ClearanceRefused { boundary: String, by: String, reason: String },
    QueryMade { phase: String, query: String },
    ModelRequested { phase: String, model: String, system: String, user: String },
    ModelCall {
        phase: String,
        model: String,
        tokens: u64,
        prompt_tokens: u64,
        cached_tokens: u64,
        completion_tokens: u64,
        cost: String,
    },
    ToolCall {
        phase: String,
        tool: String,
        args: String,
        ok: bool,
        summary: String,
        hash: String,
    },
    Note { text: String },
    SlipClosed { outcome: SlipOutcome, reason: String, by: String },
}

/// The wire name of a known kind.
pub open spec fn kind_name(k: Kind) -> Seq<char> {
    match k {
        Kind::SlipOpened { .. } => "slip_opened.v1"@,
        Kind::PhaseStarted { .. } => "phase_started.v1"@,
        Kind::PhaseEnded { .. } => "phase_ended.v1"@,
        Kind::SectionWritten { .. } => "section_written.v1"@,
        Kind::ClearanceRequested { .. } => "clearance_requested.v1"@,
        Kind::ClearanceGranted { .. } => "clearance_granted.v1"@,
        Kind::ClearanceRefused { .. } => "clearance_refused.v1"@,
        Kind::QueryMade { .. } => "query_made.v1"@,
        Kind::ModelRequested { .. } => "model_requested.v1"@,
        Kind::ModelCall { .. } => "model_call.v1"@,
        Kind::ToolCall { .. } => "tool_call.v1"@,
        Kind::Note { .. } => "note.v1"@,
        Kind::SlipClosed { .. } => "slip_closed.v1"@,
    }
}

impl Kind {
    /// The versioned wire name of this kind (e.g. "phase_ended.v1").
    pub fn wire_name(&self) -> (s: String)
        ensures
            s@ == kind_name(*self),
    {
        match self {
            Kind::SlipOpened { .. } => string_from("slip_opened.v1"),
            Kind::PhaseStarted { .. } => string_from("phase_started.v1"),
            Kind::PhaseEnded { .. } => string_from("phase_ended.v1"),
            Kind::SectionWritten { .. } => string_from("section_written.v1"),
            Kind::ClearanceRequested { .. } => string_from("clearance_requested.v1"),
            Kind::ClearanceGranted { .. } => string_from("clearance_granted.v1"),
            Kind::ClearanceRefused { .. } => string_from("clearance_refused.v1"),
            Kind::QueryMade { .. } => string_from("query_made.v1"),
            Kind::ModelRequested { .. } => string_from("model_requested.v1"),
            Kind::ModelCall { .. } => string_from("model_call.v1"),
            Kind::ToolCall { .. } => string_from("tool_call.v1"),
            Kind::Note { .. } => string_from("note.v1"),
            Kind::SlipClosed { .. } => string_from("slip_closed.v1"),
        }
    }
}

/// A known kind, or one this build does not know — kept whole with its
/// raw payload text, never half-parsed.
pub enum EventKind {
    Known(Kind),
    Unknown { kind: String, payload: String },
}

/// One ledger line.
pub struct Event {
    pub schema: String,
    pub slip_id: SlipId,
    pub seq: u64,
    pub ts: String,
    pub kind: EventKind,
}

/// The wire kind name of an event (known or not).
pub open spec fn event_kind_name(k: EventKind) -> Seq<char> {
    match k {
        EventKind::Known(kind) => kind_name(kind),
        EventKind::Unknown { kind, .. } => kind@,
    }
}

impl EventKind {
    /// The kind string the event carries on the wire.
    pub fn wire_kind(&self) -> (s: String)
        ensures
            s@ == event_kind_name(*self),
    {
        match self {
            EventKind::Known(kind) => kind.wire_name(),
            EventKind::Unknown { kind, .. } => crate::text::copy_string(kind),
        }
    }
}

} // verus!
