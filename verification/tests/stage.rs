use daemar::factory::engine::{
    prepare, stage_begin, stage_step, Preparation, ReplyFacts, StageAction, StageAt, StageEvent,
    StageSpec, PinnedTerritory, DEAD_CAGE_NOTE,
};
use daemar::factory::roster::{Role, ToolAccess};
use daemar::factory::wall::{Teardown, WallError, WallMode};
use daemar::ledger::event::PhaseOutcome;

fn begin(role: Role) -> daemar::factory::engine::StageState {
    let (s, a) = stage_begin(
        role,
        "build".to_string(),
        "abc123".to_string(),
        "docker".to_string(),
        "daemar-cage:latest".to_string(),
    );
    assert_eq!(a, vec![StageAction::StartPhase]);
    s
}

fn reply(tool_calls: usize, text: Option<&str>) -> StageEvent {
    StageEvent::Replied(Ok(ReplyFacts {
        tool_calls,
        text: text.map(str::to_string),
        complaint: None,
        agent: "builder".to_string(),
    }))
}

/// Run the machine over the events, collecting every action.
fn run(mut s: daemar::factory::engine::StageState, events: Vec<StageEvent>) -> (StageAt, Vec<StageAction>) {
    let mut all = Vec::new();
    for e in events {
        let (n, a) = stage_step(s, e);
        s = n;
        all.extend(a);
    }
    (s.at, all)
}

#[test]
fn a_walled_report_waits_for_a_proven_teardown() {
    let (at, actions) = run(
        begin(Role::Builder),
        vec![
            StageEvent::Prepared(Preparation::Tooled { walled: true }),
            StageEvent::WorktreeReady(Ok("/wt/s/build".to_string())),
            StageEvent::WallOpened(Ok("cafe".to_string())),
            reply(1, None),
            StageEvent::ToolsDone { wall_dead: false },
            reply(0, Some("done")),
            StageEvent::TornDown(Ok(Teardown::Removed)),
        ],
    );
    assert_eq!(at, StageAt::Done);
    assert_eq!(
        actions,
        vec![
            StageAction::MakeWorktree,
            StageAction::Note("worktree materialized: phase=build base=abc123 path=/wt/s/build".to_string()),
            StageAction::StartWall,
            StageAction::Note(
                "sandbox started: phase=build wall=docker sandbox_id=cafe image=daemar-cage:latest".to_string()
            ),
            StageAction::Ask { turn: 1 },
            StageAction::RunTools,
            StageAction::Ask { turn: 2 },
            StageAction::TearDown,
            StageAction::Note("sandbox torn down: phase=build sandbox_id=cafe".to_string()),
            StageAction::WriteSection("done".to_string()),
            StageAction::EndPhase(PhaseOutcome::Success),
            StageAction::Finish(Some("done".to_string())),
        ]
    );
}

#[test]
fn a_teardown_failure_fails_the_phase_even_after_a_report() {
    let (_, actions) = run(
        begin(Role::Scout),
        vec![
            StageEvent::Prepared(Preparation::Tooled { walled: true }),
            StageEvent::WorktreeReady(Ok("/wt".to_string())),
            StageEvent::WallOpened(Ok("id".to_string())),
            reply(0, Some("report")),
            StageEvent::TornDown(Err(WallError::Lifecycle { detail: "stuck".to_string() })),
        ],
    );
    let tail = &actions[actions.len() - 3..];
    assert!(matches!(&tail[0], StageAction::Note(n) if n.starts_with("sandbox teardown FAILED")));
    assert_eq!(tail[1], StageAction::EndPhase(PhaseOutcome::Error));
    assert_eq!(tail[2], StageAction::Finish(None));
    assert!(!actions.iter().any(|a| matches!(a, StageAction::WriteSection(_))));
}

#[test]
fn a_dead_wall_is_witnessed_then_torn_down() {
    let (_, actions) = run(
        begin(Role::Builder),
        vec![
            StageEvent::Prepared(Preparation::Tooled { walled: true }),
            StageEvent::WorktreeReady(Ok("/wt".to_string())),
            StageEvent::WallOpened(Ok("id".to_string())),
            reply(2, None),
            StageEvent::ToolsDone { wall_dead: true },
            StageEvent::TornDown(Ok(Teardown::AlreadyGone)),
        ],
    );
    let dead = actions.iter().position(|a| *a == StageAction::Note(DEAD_CAGE_NOTE.to_string())).unwrap();
    assert_eq!(actions[dead + 1], StageAction::TearDown);
    assert_eq!(actions.last(), Some(&StageAction::Finish(None)));
}

#[test]
fn the_turn_cap_is_a_witnessed_failure() {
    let mut events = vec![StageEvent::Prepared(Preparation::Toolless)];
    for _ in 0..12 {
        events.push(reply(0, None));
    }
    let (at, actions) = run(begin(Role::Scout), events);
    assert_eq!(at, StageAt::Done);
    let n = actions.len();
    assert_eq!(
        actions[n - 3],
        StageAction::Note("turn cap reached: completed_turns=12 cap=12 without a report".to_string())
    );
    assert_eq!(actions[n - 2], StageAction::EndPhase(PhaseOutcome::Error));
    assert_eq!(actions[n - 1], StageAction::Finish(None));
    assert!(actions.contains(&StageAction::Ask { turn: 12 }));
    assert!(!actions.contains(&StageAction::Ask { turn: 13 }));
}

#[test]
fn a_toolless_seat_sent_tool_calls_refuses_them() {
    let (_, actions) = run(begin(Role::Planner), vec![StageEvent::Prepared(Preparation::Toolless), reply(1, None)]);
    assert_eq!(
        actions,
        vec![
            StageAction::Ask { turn: 1 },
            StageAction::RefuseCalls,
            StageAction::Note("builder requested tools but holds none — provider misbehavior".to_string()),
            StageAction::EndPhase(PhaseOutcome::Error),
            StageAction::Finish(None),
        ]
    );
}

#[test]
fn a_tooled_seat_without_territory_is_a_workflow_bug() {
    let stage = StageSpec {
        phase: "scout".to_string(),
        section: "findings".to_string(),
        user: "look".to_string(),
        territory: None,
    };
    let p = prepare(ToolAccess::ReadOnly, WallMode::Off, &stage);
    let (_, actions) = run(begin(Role::Scout), vec![StageEvent::Prepared(p)]);
    assert_eq!(actions[0], StageAction::Note("stage scout seated a tooled agent with no territory — workflow bug".to_string()));
    assert_eq!(actions[2], StageAction::Finish(None));
    let _ = PinnedTerritory { source: "/src".to_string(), base: "abc".to_string() };
}

#[test]
fn a_model_failure_without_a_wall_ends_at_once() {
    let (_, actions) = run(
        begin(Role::Planner),
        vec![StageEvent::Prepared(Preparation::Toolless), StageEvent::Replied(Err("timeout".to_string()))],
    );
    assert_eq!(
        &actions[1..],
        &[
            StageAction::Note("model call failed: timeout".to_string()),
            StageAction::EndPhase(PhaseOutcome::Error),
            StageAction::Finish(None),
        ]
    );
}
