//! The phase engine's decisions: one agent stage, run as a turn loop with
//! its events on the ledger. Failure is witnessed: on a provider error,
//! turn-cap exhaustion, or a wall that cannot vouch for itself (including
//! an unproven teardown), the phase ends in error and the slip stays open.
use vstd::prelude::*;

use crate::factory::roster::{Role, ToolAccess};
use crate::ledger::event::PhaseOutcome;
use crate::factory::wall::{Teardown, WallError, WallMode, wall_error_text};
use crate::path::{push_path, push_segment};
use crate::text::{
    all_ws, copy_string, chars_of, dec, is_blank, lines_of, lines_of_chars, push_str, push_u64,
    string_from, string_from_chars, trim_chars, trim_ws,
};

verus! {

/// The turn cap of a role: it bounds pathology (loops, runaway spend),
/// never task scope; the builder's is four times the others'.
pub open spec fn cap_of(role: Role) -> nat {
    match role {
        Role::Builder => 48,
        _ => 12,
    }
}

/// The turn cap of a role.
pub fn turn_cap(role: Role) -> (r: usize)
    ensures
        r == cap_of(role),
{
    match role {
        Role::Scout => 12,
        Role::Planner => 12,
        Role::Responder => 12,
        Role::Builder => 48,
    }
}

/// The note recording an exhausted turn cap.
pub open spec fn exhausted_text(completed: nat, cap: nat) -> Seq<char> {
    "turn cap reached: completed_turns="@ + dec(completed) + " cap="@ + dec(cap)
        + " without a report"@
}

/// The note recording an exhausted turn cap.
pub fn turn_cap_exhausted_note(completed_turns: usize, cap: usize) -> (r: String)
    ensures
        r@ == exhausted_text(completed_turns as nat, cap as nat),
{
    let mut s = string_from("turn cap reached: completed_turns=");
    push_u64(&mut s, completed_turns as u64);
    push_str(&mut s, " cap=");
    push_u64(&mut s, cap as u64);
    push_str(&mut s, " without a report");
    s
}

/// A territory validated and pinned before the slip was minted: the
/// canonical source checkout and the exact commit the stage will see.
#[derive(Debug, Clone)]
pub struct PinnedTerritory {
    pub source: String,
    pub base: String,
}

/// Stage concerns only; everything about the seat's occupant comes from
/// the roster.
#[derive(Debug, Clone)]
pub struct StageSpec {
    pub phase: String,
    pub section: String,
    pub user: String,
    /// Required when the seated agent has tool access.
    pub territory: Option<PinnedTerritory>,
}

// ── Summaries ───────────────────────────────────────────────────────────────

/// The first line of `ls` that is not blank, if any.
pub open spec fn first_nonblank(ls: Seq<Seq<char>>) -> Option<Seq<char>>
    decreases ls.len(),
{
    if ls.len() == 0 {
        None
    } else if !all_ws(ls[0]) {
        Some(ls[0])
    } else {
        first_nonblank(ls.drop_first())
    }
}

/// The strip's table line of a text: its first non-blank line, trimmed,
/// clipped to 110 characters (109 and an ellipsis when longer).
pub open spec fn summary_of(text: Seq<char>) -> Seq<char> {
    let first = match first_nonblank(lines_of(text)) {
        Some(l) => trim_ws(l),
        None => Seq::empty(),
    };
    if first.len() <= 110 {
        first
    } else {
        first.take(109) + "…"@
    }
}

/// The position of the first non-blank line.
fn first_nonblank_index(lines: &Vec<Vec<char>>) -> (r: Option<usize>)
    ensures
        r matches Some(k) ==> k < lines@.len() && first_nonblank(lines@.map_values(|l: Vec<char>| l@)) == Some(lines@[k as int]@),
        r is None ==> first_nonblank(lines@.map_values(|l: Vec<char>| l@)) is None,
{
    let ghost lv = lines@.map_values(|l: Vec<char>| l@);
    let mut i: usize = 0;
    proof {
        assert(lv.skip(0) =~= lv);
    }
    while i < lines.len()
        invariant
            i <= lines@.len(),
            lv == lines@.map_values(|l: Vec<char>| l@),
            first_nonblank(lv.skip(i as int)) == first_nonblank(lv),
        decreases lines@.len() - i,
    {
        proof {
            assert(lv.skip(i as int).drop_first() =~= lv.skip(i + 1));
            assert(lv.skip(i as int)[0] == lv[i as int]);
            assert(lv[i as int] == lines@[i as int]@);
            assert(lv.skip(i as int).len() > 0);
        }
        if !is_blank(&lines[i]) {
            return Some(i);
        }
        i = i + 1;
    }
    proof {
        assert(lv.skip(lines@.len() as int).len() == 0);
    }
    None
}

/// The strip's table line: the first non-blank line of the text, clipped.
pub fn summarize(text: &str) -> (r: String)
    ensures
        r@ == summary_of(text@),
{
    let chars = chars_of(text);
    let lines = lines_of_chars(&chars);
    let ghost lv = lines@.map_values(|l: Vec<char>| l@);
    let found = first_nonblank_index(&lines);
    let first: Vec<char> = match found {
        Some(k) => trim_chars(&lines[k]),
        None => Vec::new(),
    };
    if first.len() <= 110 {
        string_from_chars(&first)
    } else {
        let clipped = crate::text::slice_chars(&first, 0, 109);
        let mut s = string_from_chars(&clipped);
        push_str(&mut s, "…");
        proof {
            assert(clipped@ =~= first@.take(109));
        }
        s
    }
}

/// The first eight characters of a slip identifier.
pub open spec fn short_of(slip_id: Seq<char>) -> Seq<char> {
    if slip_id.len() <= 8 {
        slip_id
    } else {
        slip_id.take(8)
    }
}

/// The first eight characters of a slip identifier.
pub fn short(slip_id: &str) -> (r: String)
    ensures
        r@ == short_of(slip_id@),
{
    let v = chars_of(slip_id);
    let n: usize = if v.len() <= 8 {
        v.len()
    } else {
        8
    };
    let t = crate::text::slice_chars(&v, 0, n);
    proof {
        if v.len() <= 8 {
            assert(t@ =~= v@);
        }
    }
    string_from_chars(&t)
}

// ── Preparing a stage ───────────────────────────────────────────────────────

/// How a stage's seat is filled before the turn loop.
#[derive(Debug, Clone, PartialEq, Eq)]
pub enum Preparation {
    /// A toolless seat: no worktree, no executor.
    Toolless,
    /// A tooled seat with no territory: a workflow bug, witnessed with this
    /// note.
    NoTerritory(String),
    /// A tooled seat over its territory, walled or not.
    Tooled { walled: bool },
}

/// Whether a tooled seat flies walled: a write seat always does; a
/// read-only seat follows the cage dial.
pub open spec fn walled(access: ToolAccess, dial: WallMode) -> bool {
    access == ToolAccess::ReadWrite || dial == WallMode::On
}

/// How a stage's seat is filled.
pub fn prepare(access: ToolAccess, dial: WallMode, stage: &StageSpec) -> (r: Preparation)
    ensures
        access == ToolAccess::Toolless ==> r == Preparation::Toolless,
        access != ToolAccess::Toolless && stage.territory is None ==> (r matches Preparation::NoTerritory(n) && n@ == "stage "@ + stage.phase@ + " seated a tooled agent with no territory — workflow bug"@),
        access != ToolAccess::Toolless && stage.territory is Some ==> r == (Preparation::Tooled { walled: walled(access, dial) }),
{
    if access == ToolAccess::Toolless {
        return Preparation::Toolless;
    }
    match &stage.territory {
        None => {
            let mut n = string_from("stage ");
            push_str(&mut n, stage.phase.as_str());
            push_str(&mut n, " seated a tooled agent with no territory — workflow bug");
            Preparation::NoTerritory(n)
        },
        Some(_) => Preparation::Tooled {
            walled: access == ToolAccess::ReadWrite || dial == WallMode::On,
        },
    }
}

/// Where a stage's worktree is materialized: one per slip and phase.
pub fn stage_worktree_dir(worktrees: &str, slip_id: &str, phase: &str) -> (r: String)
    ensures
        r@ == push_path(push_path(worktrees@, slip_id@), phase@),
{
    let mut p = chars_of(worktrees);
    push_segment(&mut p, &chars_of(slip_id));
    push_segment(&mut p, &chars_of(phase));
    string_from_chars(&p)
}

/// The name hint of a stage's wall: the slip's short identifier and the
/// phase.
pub fn wall_hint(slip_id: &str, phase: &str) -> (r: String)
    ensures
        r@ == short_of(slip_id@) + "-"@ + phase@,
{
    let mut s = short(slip_id);
    push_str(&mut s, "-");
    push_str(&mut s, phase);
    s
}

/// The note recording a materialized worktree.
pub fn worktree_note(phase: &str, base: &str, path: &str) -> (r: String)
    ensures
        r@ == "worktree materialized: phase="@ + phase@ + " base="@ + base@ + " path="@ + path@,
{
    let mut s = string_from("worktree materialized: phase=");
    push_str(&mut s, phase);
    push_str(&mut s, " base=");
    push_str(&mut s, base);
    push_str(&mut s, " path=");
    push_str(&mut s, path);
    s
}

/// The note recording a started wall.
pub fn sandbox_started_note(phase: &str, wall: &str, sandbox_id: &str, image: &str) -> (r: String)
    ensures
        r@ == "sandbox started: phase="@ + phase@ + " wall="@ + wall@ + " sandbox_id="@
            + sandbox_id@ + " image="@ + image@,
{
    let mut s = string_from("sandbox started: phase=");
    push_str(&mut s, phase);
    push_str(&mut s, " wall=");
    push_str(&mut s, wall);
    push_str(&mut s, " sandbox_id=");
    push_str(&mut s, sandbox_id);
    push_str(&mut s, " image=");
    push_str(&mut s, image);
    s
}

// ── The turn loop ───────────────────────────────────────────────────────────

/// The turn loop's bookkeeping: how many turns have started against the
/// role's cap, and whether the pricing complaint is on the ledger yet.
#[derive(Debug, Clone, Copy, PartialEq, Eq)]
pub struct TurnLoop {
    cap: usize,
    turns: usize,
    complaint_logged: bool,
}

impl View for TurnLoop {
    type V = (nat, nat, bool);

    closed spec fn view(&self) -> (nat, nat, bool) {
        (self.cap as nat, self.turns as nat, self.complaint_logged)
    }
}

impl TurnLoop {
    /// A fresh loop for a role: no turn yet, against the role's cap.
    pub fn new(role: Role) -> (r: TurnLoop)
        ensures
            r@ == (cap_of(role), 0nat, false),
    {
        TurnLoop { cap: turn_cap(role), turns: 0, complaint_logged: false }
    }

    /// Start the next turn, numbered from 1, while the cap allows one.
    pub fn begin_turn(&mut self) -> (r: Option<usize>)
        ensures
            old(self)@.1 < old(self)@.0 ==> r == Some((old(self)@.1 + 1) as usize) && final(self)@ == (
                old(self)@.0,
                old(self)@.1 + 1,
                old(self)@.2,
            ),
            old(self)@.1 >= old(self)@.0 ==> r is None && final(self)@ == old(self)@,
            final(self)@.1 <= final(self)@.0 || final(self)@ == old(self)@,
    {
        if self.turns < self.cap {
            self.turns = self.turns + 1;
            Some(self.turns)
        } else {
            None
        }
    }

    /// The note recording the cap's exhaustion.
    pub fn exhausted_note(&self) -> (r: String)
        ensures
            r@ == exhausted_text(self@.0, self@.0),
    {
        turn_cap_exhausted_note(self.cap, self.cap)
    }

    /// The pricing complaint to write now: written once, on the first turn
    /// that has one.
    pub fn complaint_to_log(&mut self, complaint: Option<String>) -> (r: Option<String>)
        ensures
            old(self)@.2 ==> r is None && final(self)@ == old(self)@,
            !old(self)@.2 ==> r == complaint && final(self)@ == (old(self)@.0, old(self)@.1, complaint is Some),
    {
        if self.complaint_logged {
            return None;
        }
        match complaint {
            Some(c) => {
                self.complaint_logged = true;
                Some(c)
            },
            None => None,
        }
    }
}

/// The prompts a turn's request records on the ledger: the full system
/// prompt and task only on the first turn.
pub fn request_prompts(turn: usize, system: &str, user: &str) -> (r: (String, String))
    ensures
        turn == 1 ==> r.0@ == system@ && r.1@ == user@,
        turn != 1 ==> r.0@.len() == 0 && r.1@.len() == 0,
{
    if turn == 1 {
        (string_from(system), string_from(user))
    } else {
        (String::new(), String::new())
    }
}

/// What the engine does with a model's reply.
#[derive(Debug, Clone, PartialEq, Eq)]
pub enum ReplyAction {
    /// A toolless seat was sent tool calls: refuse each, note this, and end
    /// the stage in failure.
    RefuseTools { note: String },
    /// Carry out the tool calls, then take another turn.
    RunTools,
    /// The stage's report.
    Report(String),
    /// Neither tool calls nor text: take another turn.
    Continue,
}

/// What the engine does with a reply carrying `tool_calls` calls and
/// `text`: tool calls come first; a seat without an executor cannot carry
/// them out.
pub fn reply_action(agent_name: &str, has_executor: bool, tool_calls: usize, text: Option<String>) -> (r: ReplyAction)
    ensures
        tool_calls > 0 && !has_executor ==> (r matches ReplyAction::RefuseTools { note } && note@ == agent_name@ + " requested tools but holds none — provider misbehavior"@),
        tool_calls > 0 && has_executor ==> r == ReplyAction::RunTools,
        tool_calls == 0 ==> (text matches Some(t) ==> r == ReplyAction::Report(t)),
        tool_calls == 0 && text is None ==> r == ReplyAction::Continue,
{
    if tool_calls > 0 {
        if !has_executor {
            let mut n = string_from(agent_name);
            push_str(&mut n, " requested tools but holds none — provider misbehavior");
            return ReplyAction::RefuseTools { note: n };
        }
        return ReplyAction::RunTools;
    }
    match text {
        Some(t) => ReplyAction::Report(t),
        None => ReplyAction::Continue,
    }
}

/// The summary recorded for a tool call refused to a toolless seat.
pub const REFUSED_TOOL_SUMMARY: &'static str = "refused: this agent has no tools";

/// The note ending a stage whose wall died mid-stage.
pub const DEAD_CAGE_NOTE: &'static str = "cage failed mid-stage — the flight cannot continue";

/// The note recording a failed model call.
pub fn model_failure_note(reason: &str) -> (r: String)
    ensures
        r@ == "model call failed: "@ + reason@,
{
    let mut s = string_from("model call failed: ");
    push_str(&mut s, reason);
    s
}

/// The note a teardown leaves, and whether it proved the wall gone.
pub open spec fn teardown_text(phase: Seq<char>, sandbox_id: Seq<char>, outcome: Result<Teardown, WallError>) -> (Seq<char>, bool) {
    match outcome {
        Ok(Teardown::Removed) => ("sandbox torn down: phase="@ + phase + " sandbox_id="@ + sandbox_id, true),
        Ok(Teardown::AlreadyGone) => ("sandbox torn down (was already gone): phase="@ + phase + " sandbox_id="@ + sandbox_id, true),
        Err(e) => ("sandbox teardown FAILED: phase="@ + phase + " sandbox_id="@ + sandbox_id + ": "@ + wall_error_text(e), false),
    }
}

/// The note a teardown leaves, and whether it proved the wall gone.
pub fn teardown_note(phase: &str, sandbox_id: &str, outcome: &Result<Teardown, WallError>) -> (r: (String, bool))
    ensures
        (r.0@, r.1) == teardown_text(phase@, sandbox_id@, *outcome),
{
    match outcome {
        Ok(t) => {
            let mut s = match t {
                Teardown::Removed => string_from("sandbox torn down: phase="),
                Teardown::AlreadyGone => string_from("sandbox torn down (was already gone): phase="),
            };
            push_str(&mut s, phase);
            push_str(&mut s, " sandbox_id=");
            push_str(&mut s, sandbox_id);
            (s, true)
        },
        Err(e) => {
            let mut s = string_from("sandbox teardown FAILED: phase=");
            push_str(&mut s, phase);
            push_str(&mut s, " sandbox_id=");
            push_str(&mut s, sandbox_id);
            push_str(&mut s, ": ");
            let m = e.message();
            push_str(&mut s, m.as_str());
            (s, false)
        },
    }
}

/// Whether a stage succeeds: only a report above a proven teardown does;
/// no success section rides above an unproven wall.
pub fn stage_succeeds(reported: bool, teardown_clean: bool) -> (r: bool)
    ensures
        r == (reported && teardown_clean),
{
    reported && teardown_clean
}


// ── The stage as a state machine ────────────────────────────────────────────

/// Where a stage stands, between the world's answers.
#[derive(Debug, Clone, Copy, PartialEq, Eq, Structural)]
pub enum StageAt {
    /// The phase has started; the seat's preparation is awaited.
    Start,
    /// The stage's worktree is being materialized.
    Worktree,
    /// The in-process tool context is being opened over the worktree.
    Context,
    /// The wall is being opened.
    Wall,
    /// A model turn has been asked for; its reply is awaited.
    Reply,
    /// The reply's tool calls are being carried out.
    Tools,
    /// The wall is being torn down.
    Teardown,
    /// The stage has finished; nothing more happens.
    Done,
}

/// A stage's state: where it stands, what it needs for its notes, the wall
/// it holds (by its sandbox identifier, once open), a report waiting on
/// teardown, and the turn count against the role's cap.
#[derive(Debug, Clone, PartialEq, Eq)]
pub struct StageState {
    pub at: StageAt,
    /// The phase's name.
    pub phase: String,
    /// The pinned base commit of the territory.
    pub base: String,
    /// The wall implementation's name, for notes.
    pub wall_name: String,
    /// The stage image, for notes.
    pub image: String,
    /// Whether the tooled seat flies walled.
    pub walled: bool,
    /// Whether the seat has an executor for tool calls.
    pub executor: bool,
    /// The open wall's sandbox identifier; once set, never cleared.
    pub wall: Option<String>,
    /// The report that waits on the wall's teardown.
    pub report: Option<String>,
    /// The role's turn cap.
    pub cap: usize,
    /// The turns asked for so far.
    pub turns: usize,
    /// Whether the pricing complaint is on the ledger.
    pub complaint_logged: bool,
}

/// What a model reply tells the stage.
#[derive(Debug, Clone, PartialEq, Eq)]
pub struct ReplyFacts {
    /// How many tool calls it carries.
    pub tool_calls: usize,
    /// Its text, if any.
    pub text: Option<String>,
    /// The pricing complaint of its model, if any.
    pub complaint: Option<String>,
    /// The seated agent's name.
    pub agent: String,
}

/// What the world answered.
#[derive(Debug)]
pub enum StageEvent {
    /// The seat was prepared (see [`prepare`]).
    Prepared(Preparation),
    /// The worktree was materialized at this path, or why not.
    WorktreeReady(Result<String, String>),
    /// The in-process tool context opened, or why not.
    ContextReady(Result<(), String>),
    /// The wall opened with this sandbox identifier, or why not.
    WallOpened(Result<String, WallError>),
    /// The model replied, or why the call failed.
    Replied(Result<ReplyFacts, String>),
    /// The tool calls were carried out; whether the wall died doing so.
    ToolsDone { wall_dead: bool },
    /// The wall's teardown answered.
    TornDown(Result<Teardown, WallError>),
}

/// What the stage asks of the world next.
#[derive(Debug, Clone, PartialEq, Eq)]
pub enum StageAction {
    /// Record that the phase started.
    StartPhase,
    /// Record a note.
    Note(String),
    /// Materialize the stage's detached worktree.
    MakeWorktree,
    /// Open the in-process tool context over the worktree.
    OpenContext,
    /// Open the wall over the worktree.
    StartWall,
    /// Ask the model for this turn.
    Ask { turn: usize },
    /// Carry out the reply's tool calls, stopping if the wall dies.
    RunTools,
    /// Record each of the reply's tool calls as refused.
    RefuseCalls,
    /// Tear the wall down.
    TearDown,
    /// Record the stage's section with this report.
    WriteSection(String),
    /// Record how the phase ended.
    EndPhase(PhaseOutcome),
    /// Hand the report back, or nothing after a witnessed failure.
    Finish(Option<String>),
}

/// The mathematical form of a [`StageAction`].
pub enum StageActionV {
    StartPhase,
    Note(Seq<char>),
    MakeWorktree,
    OpenContext,
    StartWall,
    Ask { turn: nat },
    RunTools,
    RefuseCalls,
    TearDown,
    WriteSection(Seq<char>),
    EndPhase(PhaseOutcome),
    Finish(Option<Seq<char>>),
}

impl View for StageAction {
    type V = StageActionV;

    open spec fn view(&self) -> StageActionV {
        match self {
            StageAction::StartPhase => StageActionV::StartPhase,
            StageAction::Note(n) => StageActionV::Note(n@),
            StageAction::MakeWorktree => StageActionV::MakeWorktree,
            StageAction::OpenContext => StageActionV::OpenContext,
            StageAction::StartWall => StageActionV::StartWall,
            StageAction::Ask { turn } => StageActionV::Ask { turn: *turn as nat },
            StageAction::RunTools => StageActionV::RunTools,
            StageAction::RefuseCalls => StageActionV::RefuseCalls,
            StageAction::TearDown => StageActionV::TearDown,
            StageAction::WriteSection(t) => StageActionV::WriteSection(t@),
            StageAction::EndPhase(o) => StageActionV::EndPhase(*o),
            StageAction::Finish(r) => StageActionV::Finish(
                match r {
                    Some(t) => Some(t@),
                    None => None,
                },
            ),
        }
    }
}

/// The views of a list of actions.
pub open spec fn actions_view(a: Seq<StageAction>) -> Seq<StageActionV> {
    a.map_values(|x: StageAction| x@)
}

/// The state with the stage now at `at`.
pub open spec fn now_at(s: StageState, at: StageAt) -> StageState {
    StageState { at, ..s }
}

/// A witnessed failure with `note`: with a wall open, the note and then the
/// teardown, whose answer ends the phase; with none, the note, the phase
/// ended in error, and nothing handed back.
pub open spec fn fail_spec(s: StageState, note: Seq<char>) -> (StageState, Seq<StageActionV>) {
    if s.wall is Some {
        (
            StageState { at: StageAt::Teardown, report: None, ..s },
            seq![StageActionV::Note(note), StageActionV::TearDown],
        )
    } else {
        (
            now_at(s, StageAt::Done),
            seq![
                StageActionV::Note(note),
                StageActionV::EndPhase(PhaseOutcome::Error),
                StageActionV::Finish(None),
            ],
        )
    }
}

/// The next turn, while the cap allows one; the cap's exhaustion is a
/// witnessed failure.
pub open spec fn next_turn_spec(s: StageState) -> (StageState, Seq<StageActionV>) {
    if s.turns < s.cap {
        (
            StageState { at: StageAt::Reply, turns: (s.turns + 1) as usize, ..s },
            seq![StageActionV::Ask { turn: (s.turns + 1) as nat }],
        )
    } else {
        fail_spec(s, exhausted_text(s.cap as nat, s.cap as nat))
    }
}

/// A report: with a wall open, the teardown first and the report held; with
/// none, the section, the phase ended in success, and the report handed
/// back.
pub open spec fn report_spec(s: StageState, t: String) -> (StageState, Seq<StageActionV>) {
    if s.wall is Some {
        (StageState { at: StageAt::Teardown, report: Some(t), ..s }, seq![StageActionV::TearDown])
    } else {
        (
            now_at(s, StageAt::Done),
            seq![
                StageActionV::WriteSection(t@),
                StageActionV::EndPhase(PhaseOutcome::Success),
                StageActionV::Finish(Some(t@)),
            ],
        )
    }
}

/// Actions `a` before those of the step `r`.
pub open spec fn prefixed(a: Seq<StageActionV>, r: (StageState, Seq<StageActionV>)) -> (StageState, Seq<StageActionV>) {
    (r.0, a + r.1)
}

/// What a reply means: the complaint noted once; tool calls to a seat
/// without an executor refused, noted, and a witnessed failure; tool calls
/// carried out; a text is the report; neither, another turn.
pub open spec fn reply_spec(s: StageState, f: ReplyFacts) -> (StageState, Seq<StageActionV>) {
    let note_complaint = !s.complaint_logged && f.complaint is Some;
    let s1 = StageState { complaint_logged: s.complaint_logged || f.complaint is Some, ..s };
    let pre = if note_complaint {
        seq![StageActionV::Note(f.complaint->0@)]
    } else {
        Seq::empty()
    };
    prefixed(
        pre,
        if f.tool_calls > 0 && !s.executor {
            prefixed(
                seq![StageActionV::RefuseCalls],
                fail_spec(s1, f.agent@ + " requested tools but holds none — provider misbehavior"@),
            )
        } else if f.tool_calls > 0 {
            (now_at(s1, StageAt::Tools), seq![StageActionV::RunTools])
        } else if f.text is Some {
            report_spec(s1, f.text->0)
        } else {
            next_turn_spec(s1)
        },
    )
}

/// The stage run over a sequence of answers: its final state, and every
/// action it asked for, in order.
pub open spec fn stage_run(s: StageState, es: Seq<StageEvent>) -> (StageState, Seq<StageActionV>)
    decreases es.len(),
{
    if es.len() == 0 {
        (s, Seq::empty())
    } else {
        let (s1, t1) = stage_run(s, es.drop_last());
        let (s2, a) = stage_spec(s1, es.last());
        (s2, t1 + a)
    }
}

/// Every `Finish(None)` in `t` follows a note and then the phase ended in
/// error.
pub open spec fn failure_witnessed(t: Seq<StageActionV>) -> bool {
    forall|k: int|
        0 <= k < t.len() && #[trigger] t[k] == StageActionV::Finish(None) ==> k >= 2 && t[k - 1]
            == StageActionV::EndPhase(PhaseOutcome::Error) && t[k - 2] is Note
}

/// Whether an action records success: the section, or the phase ended in
/// success.
pub open spec fn records_success(a: StageActionV) -> bool {
    a is WriteSection || a == StageActionV::EndPhase(PhaseOutcome::Success)
}

/// Whether `TearDown` stands in `t` before position `k`.
pub open spec fn torn_down_before(t: Seq<StageActionV>, k: int) -> bool {
    exists|j: int| 0 <= j < k && #[trigger] t[j] == StageActionV::TearDown
}

/// What one step keeps, whatever the answer.
pub open spec fn step_facts(s: StageState, e: StageEvent) -> bool {
    let (n, a) = stage_spec(s, e);
    &&& failure_witnessed(a)
    &&& s.at == StageAt::Done ==> n == s && a.len() == 0
    &&& s.wall is Some ==> n.wall is Some
    &&& n.at == StageAt::Teardown ==> (n == s && a.len() == 0) || torn_down_before(a, a.len() as int)
    &&& forall|k: int|
        0 <= k < a.len() && (#[trigger] a[k]) is Finish ==> n.at == StageAt::Done && (n.wall is Some
            ==> s.at == StageAt::Teardown)
    &&& forall|k: int|
        0 <= k < a.len() && records_success(#[trigger] a[k]) ==> (s.wall is None || (s.at
            == StageAt::Teardown && e matches StageEvent::TornDown(Ok(_)))) && n.at == StageAt::Done
            && (n.wall is Some ==> s.at == StageAt::Teardown)
}

proof fn lemma_fail_facts(s: StageState, note: Seq<char>)
    ensures
        failure_witnessed(fail_spec(s, note).1),
        fail_spec(s, note).0.wall == s.wall,
        fail_spec(s, note).0.at == StageAt::Teardown ==> torn_down_before(fail_spec(s, note).1, 2),
        fail_spec(s, note).0.at == StageAt::Teardown || fail_spec(s, note).0.at == StageAt::Done,
        forall|k: int|
            0 <= k < fail_spec(s, note).1.len() && (#[trigger] fail_spec(s, note).1[k]) is Finish
                ==> fail_spec(s, note).0.at == StageAt::Done && s.wall is None,
        forall|k: int|
            0 <= k < fail_spec(s, note).1.len() ==> !records_success(#[trigger] fail_spec(s, note).1[k]),
{
    let a = fail_spec(s, note).1;
    if s.wall is Some {
        assert(a[1] == StageActionV::TearDown);
    }
}

proof fn lemma_next_turn_facts(s: StageState)
    ensures
        failure_witnessed(next_turn_spec(s).1),
        next_turn_spec(s).0.wall == s.wall,
        next_turn_spec(s).0.at == StageAt::Teardown ==> torn_down_before(next_turn_spec(s).1, next_turn_spec(s).1.len() as int),
        forall|k: int|
            0 <= k < next_turn_spec(s).1.len() && (#[trigger] next_turn_spec(s).1[k]) is Finish
                ==> next_turn_spec(s).0.at == StageAt::Done && s.wall is None,
        forall|k: int|
            0 <= k < next_turn_spec(s).1.len() ==> !records_success(#[trigger] next_turn_spec(s).1[k]),
{
    if !(s.turns < s.cap) {
        lemma_fail_facts(s, exhausted_text(s.cap as nat, s.cap as nat));
    }
}

proof fn lemma_report_facts(s: StageState, t: String)
    ensures
        failure_witnessed(report_spec(s, t).1),
        report_spec(s, t).0.wall == s.wall,
        report_spec(s, t).0.at == StageAt::Teardown ==> torn_down_before(report_spec(s, t).1, report_spec(s, t).1.len() as int),
        forall|k: int|
            0 <= k < report_spec(s, t).1.len() && (#[trigger] report_spec(s, t).1[k]) is Finish
                ==> report_spec(s, t).0.at == StageAt::Done && s.wall is None,
        forall|k: int|
            0 <= k < report_spec(s, t).1.len() && records_success(#[trigger] report_spec(s, t).1[k]) ==> s.wall is None && report_spec(s, t).0.at == StageAt::Done,
{
    let a = report_spec(s, t).1;
    if s.wall is Some {
        assert(a[0] == StageActionV::TearDown);
    }
}

/// Prefixing actions that are neither a finish, nor a success record, nor
/// a teardown keeps a step's facts.
proof fn lemma_prefix_facts(pre: Seq<StageActionV>, a: Seq<StageActionV>)
    requires
        failure_witnessed(a),
        forall|k: int| 0 <= k < pre.len() ==> (#[trigger] pre[k]) is Note || pre[k] is RefuseCalls,
    ensures
        failure_witnessed(pre + a),
        forall|k: int| 0 <= k < (pre + a).len() && (#[trigger] (pre + a)[k]) is Finish ==> k >= pre.len() && a[k - pre.len()] is Finish,
        forall|k: int| 0 <= k < (pre + a).len() && records_success(#[trigger] (pre + a)[k]) ==> k >= pre.len() && records_success(a[k - pre.len()]),
        torn_down_before(a, a.len() as int) ==> torn_down_before(pre + a, (pre + a).len() as int),
{
    let c = pre + a;
    assert forall|k: int| 0 <= k < c.len() && #[trigger] c[k] == StageActionV::Finish(None) implies k >= 2
        && c[k - 1] == StageActionV::EndPhase(PhaseOutcome::Error) && c[k - 2] is Note by {
        if k < pre.len() {
            assert(c[k] == pre[k]);
        } else {
            assert(c[k] == a[k - pre.len()]);
            assert(a[k - pre.len()] == StageActionV::Finish(None));
            assert(c[k - 1] == a[k - pre.len() - 1]);
            assert(c[k - 2] == a[k - pre.len() - 2]);
        }
    }
    assert forall|k: int| 0 <= k < c.len() && (#[trigger] c[k]) is Finish implies k >= pre.len() && a[k - pre.len()] is Finish by {
        if k < pre.len() {
            assert(c[k] == pre[k]);
        }
    }
    assert forall|k: int| 0 <= k < c.len() && records_success(#[trigger] c[k]) implies k >= pre.len() && records_success(a[k - pre.len()]) by {
        if k < pre.len() {
            assert(c[k] == pre[k]);
        }
    }
    if torn_down_before(a, a.len() as int) {
        let j = choose|j: int| 0 <= j < a.len() && #[trigger] a[j] == StageActionV::TearDown;
        assert(c[j + pre.len()] == StageActionV::TearDown);
    }
}

#[verifier::spinoff_prover]
proof fn lemma_start_facts(s: StageState, e: StageEvent)
    requires
        s.at == StageAt::Start,
    ensures
        step_facts(s, e),
{
    match e {
        StageEvent::Prepared(p) => match p {
            Preparation::Toolless => lemma_next_turn_facts(StageState { executor: false, ..s }),
            Preparation::NoTerritory(n) => lemma_fail_facts(s, n@),
            Preparation::Tooled { walled } => {},
        },
        _ => {},
    }
}

#[verifier::spinoff_prover]
proof fn lemma_setup_facts(s: StageState, e: StageEvent)
    requires
        s.at == StageAt::Worktree || s.at == StageAt::Context,
    ensures
        step_facts(s, e),
{
    match (s.at, e) {
        (StageAt::Worktree, StageEvent::WorktreeReady(w)) => match w {
            Err(d) => lemma_fail_facts(s, "worktree failed: "@ + d@),
            Ok(path) => {},
        },
        (StageAt::Context, StageEvent::ContextReady(c)) => match c {
            Err(d) => lemma_fail_facts(s, d@),
            Ok(()) => lemma_next_turn_facts(StageState { executor: true, ..s }),
        },
        _ => {},
    }
}

#[verifier::spinoff_prover]
#[verifier::rlimit(40)]
proof fn lemma_wall_facts(s: StageState, e: StageEvent)
    requires
        s.at == StageAt::Wall,
    ensures
        step_facts(s, e),
{
    match e {
        StageEvent::WallOpened(w) => match w {
            Err(x) => lemma_fail_facts(s, "sandbox failed: "@ + wall_error_text(x)),
            Ok(id) => {
                let n = StageState { executor: true, wall: Some(id), ..s };
                lemma_next_turn_facts(n);
                let pre = seq![
                    StageActionV::Note(
                        "sandbox started: phase="@ + s.phase@ + " wall="@ + s.wall_name@
                            + " sandbox_id="@ + id@ + " image="@ + s.image@,
                    ),
                ];
                lemma_prefix_facts(pre, next_turn_spec(n).1);
            },
        },
        _ => {},
    }
}

#[verifier::spinoff_prover]
#[verifier::rlimit(100)]
proof fn lemma_reply_facts(s: StageState, f: ReplyFacts)
    requires
        s.at == StageAt::Reply,
    ensures
        step_facts(s, StageEvent::Replied(Ok(f))),
{
    let s1 = StageState { complaint_logged: s.complaint_logged || f.complaint is Some, ..s };
    let pre = if !s.complaint_logged && f.complaint is Some {
        seq![StageActionV::Note(f.complaint->0@)]
    } else {
        Seq::empty()
    };
    let inner = if f.tool_calls > 0 && !s.executor {
        let note = f.agent@ + " requested tools but holds none — provider misbehavior"@;
        lemma_fail_facts(s1, note);
        lemma_prefix_facts(seq![StageActionV::RefuseCalls], fail_spec(s1, note).1);
        prefixed(seq![StageActionV::RefuseCalls], fail_spec(s1, note))
    } else if f.tool_calls > 0 {
        (now_at(s1, StageAt::Tools), seq![StageActionV::RunTools])
    } else if f.text is Some {
        lemma_report_facts(s1, f.text->0);
        report_spec(s1, f.text->0)
    } else {
        lemma_next_turn_facts(s1);
        next_turn_spec(s1)
    };
    assert(reply_spec(s, f) == prefixed(pre, inner));
    lemma_prefix_facts(pre, inner.1);
}

#[verifier::spinoff_prover]
proof fn lemma_turn_facts(s: StageState, e: StageEvent)
    requires
        s.at == StageAt::Reply || s.at == StageAt::Tools,
    ensures
        step_facts(s, e),
{
    match (s.at, e) {
        (StageAt::Reply, StageEvent::Replied(r)) => match r {
            Err(reason) => lemma_fail_facts(s, "model call failed: "@ + reason@),
            Ok(f) => lemma_reply_facts(s, f),
        },
        (StageAt::Tools, StageEvent::ToolsDone { wall_dead }) => {
            if wall_dead {
                lemma_fail_facts(s, DEAD_CAGE_NOTE@);
            } else {
                lemma_next_turn_facts(s);
            }
        },
        _ => {},
    }
}

/// Every step keeps [`step_facts`].
pub proof fn lemma_step_facts(s: StageState, e: StageEvent)
    ensures
        step_facts(s, e),
{
    match s.at {
        StageAt::Start => lemma_start_facts(s, e),
        StageAt::Worktree | StageAt::Context => lemma_setup_facts(s, e),
        StageAt::Wall => lemma_wall_facts(s, e),
        StageAt::Reply | StageAt::Tools => lemma_turn_facts(s, e),
        _ => {},
    }
}


/// Actions `t` extended by `a`: a witnessed failure in each stays one.
proof fn lemma_witnessed_concat(t: Seq<StageActionV>, a: Seq<StageActionV>)
    requires
        failure_witnessed(t),
        failure_witnessed(a),
    ensures
        failure_witnessed(t + a),
{
    let c = t + a;
    assert forall|k: int| 0 <= k < c.len() && #[trigger] c[k] == StageActionV::Finish(None) implies k >= 2
        && c[k - 1] == StageActionV::EndPhase(PhaseOutcome::Error) && c[k - 2] is Note by {
        if k < t.len() {
            assert(c[k] == t[k]);
            assert(c[k - 1] == t[k - 1]);
            assert(c[k - 2] == t[k - 2]);
        } else {
            assert(c[k] == a[k - t.len()]);
            assert(c[k - 1] == a[k - t.len() - 1]);
            assert(c[k - 2] == a[k - t.len() - 2]);
        }
    }
}

/// Every failure is witnessed: wherever a stage hands back nothing, a note
/// and then the phase ended in error come just before, whatever the world
/// answered along the way.
pub proof fn law_failure_is_witnessed(s: StageState, es: Seq<StageEvent>)
    ensures
        failure_witnessed(stage_run(s, es).1),
    decreases es.len(),
{
    if es.len() > 0 {
        law_failure_is_witnessed(s, es.drop_last());
        let (s1, t1) = stage_run(s, es.drop_last());
        lemma_step_facts(s1, es.last());
        lemma_witnessed_concat(t1, stage_spec(s1, es.last()).1);
    }
}

/// What a run keeps: a stage waiting on its teardown has asked for it; a
/// finish and a success record come only as the stage is done, and, if it
/// holds a wall, only after the teardown was asked for.
proof fn lemma_run_facts(s: StageState, es: Seq<StageEvent>)
    requires
        s.at != StageAt::Teardown,
    ensures
        ({
            let (n, t) = stage_run(s, es);
            &&& n.at == StageAt::Teardown ==> torn_down_before(t, t.len() as int)
            &&& forall|k: int|
                0 <= k < t.len() && ((#[trigger] t[k]) is Finish || records_success(t[k]))
                    ==> n.at == StageAt::Done && (n.wall is Some ==> torn_down_before(t, k))
        }),
    decreases es.len(),
{
    if es.len() > 0 {
        lemma_run_facts(s, es.drop_last());
        let (s1, t1) = stage_run(s, es.drop_last());
        let e = es.last();
        lemma_step_facts(s1, e);
        let (s2, a) = stage_spec(s1, e);
        let t2 = t1 + a;
        assert(stage_run(s, es) == (s2, t2));
        assert forall|k: int| 0 <= k < t1.len() implies t2[k] == t1[k] by {}
        if s2.at == StageAt::Teardown {
            if a.len() == 0 {
                assert(t2 =~= t1);
            } else {
                let j = choose|j: int| 0 <= j < a.len() && #[trigger] a[j] == StageActionV::TearDown;
                assert(t2[j + t1.len()] == StageActionV::TearDown);
            }
        }
        assert forall|k: int|
            0 <= k < t2.len() && ((#[trigger] t2[k]) is Finish || records_success(t2[k]))
            implies s2.at == StageAt::Done && (s2.wall is Some ==> torn_down_before(t2, k)) by {
            if k < t1.len() {
                assert(t2[k] == t1[k]);
                if s2.wall is Some {
                    let j = choose|j: int| 0 <= j < k && #[trigger] t1[j] == StageActionV::TearDown;
                    assert(t2[j] == StageActionV::TearDown);
                }
            } else {
                assert(t2[k] == a[k - t1.len()]);
                if s2.wall is Some {
                    let j = choose|j: int| 0 <= j < t1.len() && #[trigger] t1[j] == StageActionV::TearDown;
                    assert(t2[j] == StageActionV::TearDown);
                }
            }
        }
    }
}

/// No success rides above an unproven wall. In any run that does not start
/// mid-teardown: once the stage holds a wall, every finish and every
/// success record (the section, or the phase ended in success) comes after
/// the teardown was asked for; and a step records success only where no
/// wall is held, or on the answer that the wall was torn down.
pub proof fn law_no_success_above_an_unproven_wall(s: StageState, es: Seq<StageEvent>, e: StageEvent)
    requires
        s.at != StageAt::Teardown,
    ensures
        ({
            let (n, t) = stage_run(s, es);
            forall|k: int|
                0 <= k < t.len() && n.wall is Some && ((#[trigger] t[k]) is Finish || records_success(t[k]))
                    ==> torn_down_before(t, k)
        }),
        ({
            let (n, t) = stage_run(s, es);
            let a = stage_spec(n, e).1;
            forall|k: int|
                0 <= k < a.len() && records_success(#[trigger] a[k]) ==> n.wall is None || (n.at
                    == StageAt::Teardown && e matches StageEvent::TornDown(Ok(_)))
        }),
{
    lemma_run_facts(s, es);
    lemma_step_facts(stage_run(s, es).0, e);
}

/// A teardown that fails fails the phase, even when the agent had already
/// reported: the failure is noted, the phase ends in error, nothing is
/// recorded as success and nothing is handed back.
pub proof fn law_a_failed_teardown_fails_the_phase(s: StageState, e: WallError)
    requires
        s.at == StageAt::Teardown,
    ensures
        ({
            let (n, a) = stage_spec(s, StageEvent::TornDown(Err(e)));
            &&& n.at == StageAt::Done
            &&& a.len() == 3
            &&& a[0] is Note
            &&& a[1] == StageActionV::EndPhase(PhaseOutcome::Error)
            &&& a[2] == StageActionV::Finish(None)
            &&& forall|k: int| 0 <= k < a.len() ==> !records_success(#[trigger] a[k])
        }),
{
    let (n, a) = stage_spec(s, StageEvent::TornDown(Err(e)));
    assert(a[0] is Note);
}

/// The stage's first state: the phase is started, and nothing else yet.
pub fn stage_begin(role: Role, phase: String, base: String, wall_name: String, image: String) -> (r: (
    StageState,
    Vec<StageAction>,
))
    ensures
        r.0 == (StageState {
            at: StageAt::Start,
            phase,
            base,
            wall_name,
            image,
            walled: false,
            executor: false,
            wall: None,
            report: None,
            cap: cap_of(role) as usize,
            turns: 0,
            complaint_logged: false,
        }),
        actions_view(r.1@) == seq![StageActionV::StartPhase],
{
    let s = StageState {
        at: StageAt::Start,
        phase,
        base,
        wall_name,
        image,
        walled: false,
        executor: false,
        wall: None,
        report: None,
        cap: turn_cap(role),
        turns: 0,
        complaint_logged: false,
    };
    let a = vec![StageAction::StartPhase];
    proof {
        assert(actions_view(a@) =~= seq![StageActionV::StartPhase]);
    }
    (s, a)
}

/// A witnessed failure with `note`.
fn stage_fail(s: StageState, note: String) -> (r: (StageState, Vec<StageAction>))
    ensures
        (r.0, actions_view(r.1@)) == fail_spec(s, note@),
{
    let ghost n = note@;
    if s.wall.is_some() {
        let a = vec![StageAction::Note(note), StageAction::TearDown];
        proof {
            assert(actions_view(a@) =~= seq![StageActionV::Note(n), StageActionV::TearDown]);
        }
        (StageState { at: StageAt::Teardown, report: None, ..s }, a)
    } else {
        let a = vec![
            StageAction::Note(note),
            StageAction::EndPhase(PhaseOutcome::Error),
            StageAction::Finish(None),
        ];
        proof {
            assert(actions_view(a@) =~= seq![
                StageActionV::Note(n),
                StageActionV::EndPhase(PhaseOutcome::Error),
                StageActionV::Finish(None),
            ]);
        }
        (StageState { at: StageAt::Done, ..s }, a)
    }
}

/// The next turn, or the cap's exhaustion.
fn stage_next_turn(s: StageState) -> (r: (StageState, Vec<StageAction>))
    ensures
        (r.0, actions_view(r.1@)) == next_turn_spec(s),
{
    if s.turns < s.cap {
        let turn = s.turns + 1;
        let a = vec![StageAction::Ask { turn }];
        proof {
            assert(actions_view(a@) =~= seq![StageActionV::Ask { turn: turn as nat }]);
        }
        (StageState { at: StageAt::Reply, turns: turn, ..s }, a)
    } else {
        let note = turn_cap_exhausted_note(s.cap, s.cap);
        stage_fail(s, note)
    }
}

/// A report, held behind the teardown when a wall is open.
fn stage_report(s: StageState, t: String) -> (r: (StageState, Vec<StageAction>))
    ensures
        (r.0, actions_view(r.1@)) == report_spec(s, t),
{
    let ghost tv = t@;
    if s.wall.is_some() {
        let a = vec![StageAction::TearDown];
        proof {
            assert(actions_view(a@) =~= seq![StageActionV::TearDown]);
        }
        (StageState { at: StageAt::Teardown, report: Some(t), ..s }, a)
    } else {
        let t2 = copy_string(&t);
        let a = vec![
            StageAction::WriteSection(t),
            StageAction::EndPhase(PhaseOutcome::Success),
            StageAction::Finish(Some(t2)),
        ];
        proof {
            assert(actions_view(a@) =~= seq![
                StageActionV::WriteSection(tv),
                StageActionV::EndPhase(PhaseOutcome::Success),
                StageActionV::Finish(Some(tv)),
            ]);
        }
        (StageState { at: StageAt::Done, ..s }, a)
    }
}

/// `pre` before the actions of `r`.
fn stage_prefixed(pre: Vec<StageAction>, r: (StageState, Vec<StageAction>)) -> (out: (
    StageState,
    Vec<StageAction>,
))
    ensures
        out.0 == r.0,
        actions_view(out.1@) == actions_view(pre@) + actions_view(r.1@),
{
    let (st, mut rest) = r;
    let mut a = pre;
    a.append(&mut rest);
    proof {
        assert(actions_view(a@) =~= actions_view(pre@) + actions_view(r.1@));
    }
    (st, a)
}

/// The stage's next state and actions for what the world answered. An
/// answer the stage is not waiting for changes nothing.
pub open spec fn stage_spec(s: StageState, e: StageEvent) -> (StageState, Seq<StageActionV>) {
    match (s.at, e) {
        (StageAt::Start, StageEvent::Prepared(p)) => match p {
            Preparation::Toolless => next_turn_spec(StageState { executor: false, ..s }),
            Preparation::NoTerritory(n) => fail_spec(s, n@),
            Preparation::Tooled { walled } => (
                StageState { at: StageAt::Worktree, walled, ..s },
                seq![StageActionV::MakeWorktree],
            ),
        },
        (StageAt::Worktree, StageEvent::WorktreeReady(w)) => match w {
            Err(d) => fail_spec(s, "worktree failed: "@ + d@),
            Ok(path) => {
                let note = StageActionV::Note(
                    "worktree materialized: phase="@ + s.phase@ + " base="@ + s.base@ + " path="@
                        + path@,
                );
                if s.walled {
                    (now_at(s, StageAt::Wall), seq![note, StageActionV::StartWall])
                } else {
                    (now_at(s, StageAt::Context), seq![note, StageActionV::OpenContext])
                }
            },
        },
        (StageAt::Context, StageEvent::ContextReady(c)) => match c {
            Err(d) => fail_spec(s, d@),
            Ok(()) => next_turn_spec(StageState { executor: true, ..s }),
        },
        (StageAt::Wall, StageEvent::WallOpened(w)) => match w {
            Err(e) => fail_spec(s, "sandbox failed: "@ + wall_error_text(e)),
            Ok(id) => prefixed(
                seq![
                    StageActionV::Note(
                        "sandbox started: phase="@ + s.phase@ + " wall="@ + s.wall_name@
                            + " sandbox_id="@ + id@ + " image="@ + s.image@,
                    ),
                ],
                next_turn_spec(StageState { executor: true, wall: Some(id), ..s }),
            ),
        },
        (StageAt::Reply, StageEvent::Replied(r)) => match r {
            Err(reason) => fail_spec(s, "model call failed: "@ + reason@),
            Ok(f) => reply_spec(s, f),
        },
        (StageAt::Tools, StageEvent::ToolsDone { wall_dead }) => if wall_dead {
            fail_spec(s, DEAD_CAGE_NOTE@)
        } else {
            next_turn_spec(s)
        },
        (StageAt::Teardown, StageEvent::TornDown(o)) => {
            let id = match s.wall {
                Some(w) => w@,
                None => Seq::empty(),
            };
            let (note, clean) = teardown_text(s.phase@, id, o);
            if clean && s.report is Some {
                (
                    now_at(s, StageAt::Done),
                    seq![
                        StageActionV::Note(note),
                        StageActionV::WriteSection(s.report->0@),
                        StageActionV::EndPhase(PhaseOutcome::Success),
                        StageActionV::Finish(Some(s.report->0@)),
                    ],
                )
            } else {
                (
                    now_at(s, StageAt::Done),
                    seq![
                        StageActionV::Note(note),
                        StageActionV::EndPhase(PhaseOutcome::Error),
                        StageActionV::Finish(None),
                    ],
                )
            }
        },
        _ => (s, Seq::empty()),
    }
}

/// What a reply means for the stage.
fn stage_reply(s: StageState, f: ReplyFacts) -> (r: (StageState, Vec<StageAction>))
    ensures
        (r.0, actions_view(r.1@)) == reply_spec(s, f),
{
    let ghost fs = f;
    let note_complaint = !s.complaint_logged && f.complaint.is_some();
    let logged = s.complaint_logged || f.complaint.is_some();
    let ReplyFacts { tool_calls, text, complaint, agent } = f;
    let mut pre: Vec<StageAction> = Vec::new();
    if note_complaint {
        match complaint {
            Some(c) => {
                pre.push(StageAction::Note(c));
            },
            None => {},
        }
    }
    proof {
        if note_complaint {
            assert(actions_view(pre@) =~= seq![StageActionV::Note(fs.complaint->0@)]);
        } else {
            assert(actions_view(pre@) =~= Seq::<StageActionV>::empty());
        }
    }
    let s1 = StageState { complaint_logged: logged, ..s };
    let rest = if tool_calls > 0 && !s1.executor {
        let mut note = string_from(agent.as_str());
        push_str(&mut note, " requested tools but holds none — provider misbehavior");
        let refuse = vec![StageAction::RefuseCalls];
        proof {
            assert(actions_view(refuse@) =~= seq![StageActionV::RefuseCalls]);
        }
        stage_prefixed(refuse, stage_fail(s1, note))
    } else if tool_calls > 0 {
        let a = vec![StageAction::RunTools];
        proof {
            assert(actions_view(a@) =~= seq![StageActionV::RunTools]);
        }
        (StageState { at: StageAt::Tools, ..s1 }, a)
    } else {
        match text {
            Some(t) => stage_report(s1, t),
            None => stage_next_turn(s1),
        }
    };
    stage_prefixed(pre, rest)
}

/// The stage's next state, and what it asks of the world, for what the
/// world answered: see [`stage_spec`].
pub fn stage_step(s: StageState, e: StageEvent) -> (r: (StageState, Vec<StageAction>))
    ensures
        (r.0, actions_view(r.1@)) == stage_spec(s, e),
{
    match (s.at, e) {
        (StageAt::Start, StageEvent::Prepared(p)) => match p {
            Preparation::Toolless => stage_next_turn(StageState { executor: false, ..s }),
            Preparation::NoTerritory(n) => stage_fail(s, n),
            Preparation::Tooled { walled } => {
                let a = vec![StageAction::MakeWorktree];
                proof {
                    assert(actions_view(a@) =~= seq![StageActionV::MakeWorktree]);
                }
                (StageState { at: StageAt::Worktree, walled, ..s }, a)
            },
        },
        (StageAt::Worktree, StageEvent::WorktreeReady(w)) => match w {
            Err(d) => {
                let mut n = string_from("worktree failed: ");
                push_str(&mut n, d.as_str());
                stage_fail(s, n)
            },
            Ok(path) => {
                let n = worktree_note(s.phase.as_str(), s.base.as_str(), path.as_str());
                let ghost nv = n@;
                if s.walled {
                    let a = vec![StageAction::Note(n), StageAction::StartWall];
                    proof {
                        assert(actions_view(a@) =~= seq![StageActionV::Note(nv), StageActionV::StartWall]);
                    }
                    (StageState { at: StageAt::Wall, ..s }, a)
                } else {
                    let a = vec![StageAction::Note(n), StageAction::OpenContext];
                    proof {
                        assert(actions_view(a@) =~= seq![StageActionV::Note(nv), StageActionV::OpenContext]);
                    }
                    (StageState { at: StageAt::Context, ..s }, a)
                }
            },
        },
        (StageAt::Context, StageEvent::ContextReady(c)) => match c {
            Err(d) => stage_fail(s, d),
            Ok(()) => stage_next_turn(StageState { executor: true, ..s }),
        },
        (StageAt::Wall, StageEvent::WallOpened(w)) => match w {
            Err(e) => {
                let mut n = string_from("sandbox failed: ");
                push_str(&mut n, e.message().as_str());
                stage_fail(s, n)
            },
            Ok(id) => {
                let n = sandbox_started_note(
                    s.phase.as_str(),
                    s.wall_name.as_str(),
                    id.as_str(),
                    s.image.as_str(),
                );
                let ghost nv = n@;
                let pre = vec![StageAction::Note(n)];
                proof {
                    assert(actions_view(pre@) =~= seq![StageActionV::Note(nv)]);
                }
                stage_prefixed(pre, stage_next_turn(StageState { executor: true, wall: Some(id), ..s }))
            },
        },
        (StageAt::Reply, StageEvent::Replied(r)) => match r {
            Err(reason) => {
                let n = model_failure_note(reason.as_str());
                stage_fail(s, n)
            },
            Ok(f) => stage_reply(s, f),
        },
        (StageAt::Tools, StageEvent::ToolsDone { wall_dead }) => {
            if wall_dead {
                stage_fail(s, string_from(DEAD_CAGE_NOTE))
            } else {
                stage_next_turn(s)
            }
        },
        (StageAt::Teardown, StageEvent::TornDown(o)) => {
            let id = match &s.wall {
                Some(i) => copy_string(i),
                None => String::new(),
            };
            let (note, clean) = teardown_note(s.phase.as_str(), id.as_str(), &o);
            let ghost nv = note@;
            match &s.report {
                Some(t) => {
                    if clean {
                        let w = copy_string(t);
                        let f = copy_string(t);
                        let ghost tv = t@;
                        let a = vec![
                            StageAction::Note(note),
                            StageAction::WriteSection(w),
                            StageAction::EndPhase(PhaseOutcome::Success),
                            StageAction::Finish(Some(f)),
                        ];
                        proof {
                            assert(actions_view(a@) =~= seq![
                                StageActionV::Note(nv),
                                StageActionV::WriteSection(tv),
                                StageActionV::EndPhase(PhaseOutcome::Success),
                                StageActionV::Finish(Some(tv)),
                            ]);
                        }
                        return (StageState { at: StageAt::Done, ..s }, a);
                    }
                },
                None => {},
            }
            let a = vec![
                StageAction::Note(note),
                StageAction::EndPhase(PhaseOutcome::Error),
                StageAction::Finish(None),
            ];
            proof {
                assert(actions_view(a@) =~= seq![
                    StageActionV::Note(nv),
                    StageActionV::EndPhase(PhaseOutcome::Error),
                    StageActionV::Finish(None),
                ]);
            }
            (StageState { at: StageAt::Done, ..s }, a)
        },
        (at, e) => {
            let a: Vec<StageAction> = Vec::new();
            proof {
                assert(actions_view(a@) =~= Seq::<StageActionV>::empty());
            }
            (s, a)
        },
    }
}

} // verus!
