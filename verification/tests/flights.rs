use daemar::factory::roster::Role;
use daemar::factory::workflows::{
    diff_receipt, flight_begin, flight_stage, flight_step, no_plan_refusal, FlightAction, FlightAt,
    FlightEnd, FlightError, FlightEvent, FlightKind, FlightState, StageOut, BUILD_TO_APPLY, PLAN_TO_RESPOND,
};
use daemar::ledger::event::PhaseOutcome;

const BASE: &str = "0123456789abcdef0123456789abcdef01234567";

fn out(worktree: Option<&str>) -> StageOut {
    StageOut { text: "done".to_string(), worktree: worktree.map(str::to_string), tokens: 42, turns: 3 }
}

fn end(cocked_at: Option<&str>) -> FlightEnd {
    FlightEnd { text: "done".to_string(), cocked_at: cocked_at.map(str::to_string), tokens: 42, turns: 3 }
}

fn run(kind: FlightKind, events: Vec<FlightEvent>) -> (FlightState, Vec<FlightAction>) {
    let (mut s, mut all) = flight_begin(kind, BASE.to_string());
    for e in events {
        let (n, a) = flight_step(s, e);
        s = n;
        all.extend(a);
    }
    (s, all)
}

#[test]
fn each_flight_seats_its_role() {
    assert_eq!(flight_stage(FlightKind::Build), (Role::Builder, "build".to_string(), "build.v1".to_string()));
    assert_eq!(flight_stage(FlightKind::Plan), (Role::Planner, "plan".to_string(), "plan.v1".to_string()));
    assert_eq!(flight_stage(FlightKind::Respond), (Role::Responder, "respond".to_string(), "response.v1".to_string()));
}

#[test]
fn an_empty_diff_closes_the_build_accepted() {
    let (s, actions) = run(
        FlightKind::Build,
        vec![FlightEvent::StageDone(Some(out(Some("/wt/s/build")))), FlightEvent::Diffed(Ok(" \n\t".to_string()))],
    );
    assert_eq!(s.at, FlightAt::Done);
    assert_eq!(
        actions,
        vec![
            FlightAction::OpenSlip("build".to_string()),
            FlightAction::RunStage,
            FlightAction::StartDiff,
            FlightAction::ComputeDiff,
            FlightAction::WriteDiff { summary: diff_receipt(BASE, "/wt/s/build"), body: String::new() },
            FlightAction::EndDiff(PhaseOutcome::Success),
            FlightAction::CloseAccepted,
            FlightAction::Finish(Some(end(None))),
        ]
    );
}

#[test]
fn a_nonempty_diff_cocks_the_build_at_build_to_apply() {
    let patch = "diff --git a/f b/f\n+x\n".to_string();
    let (_, actions) = run(
        FlightKind::Build,
        vec![FlightEvent::StageDone(Some(out(Some("/wt/s/build")))), FlightEvent::Diffed(Ok(patch.clone()))],
    );
    assert_eq!(
        actions[4..].to_vec(),
        vec![
            FlightAction::WriteDiff { summary: diff_receipt(BASE, "/wt/s/build"), body: patch },
            FlightAction::EndDiff(PhaseOutcome::Success),
            FlightAction::RequestClearance { boundary: BUILD_TO_APPLY.to_string(), by: "gate:diff".to_string() },
            FlightAction::Finish(Some(end(Some(BUILD_TO_APPLY)))),
        ]
    );
    assert!(!actions.contains(&FlightAction::CloseAccepted));
}

#[test]
fn a_failed_diff_or_missing_worktree_is_witnessed() {
    let (_, actions) = run(
        FlightKind::Build,
        vec![FlightEvent::StageDone(Some(out(Some("/wt")))), FlightEvent::Diffed(Err("no git".to_string()))],
    );
    assert_eq!(
        actions[4..].to_vec(),
        vec![
            FlightAction::Note("diff gate failed: no git".to_string()),
            FlightAction::EndDiff(PhaseOutcome::Error),
            FlightAction::Finish(None),
        ]
    );
    let (s, actions) = run(FlightKind::Build, vec![FlightEvent::StageDone(Some(out(None)))]);
    assert_eq!(s.at, FlightAt::Done);
    assert_eq!(
        actions[2..].to_vec(),
        vec![
            FlightAction::Note("build stage returned no worktree — engine bug".to_string()),
            FlightAction::Finish(None),
        ]
    );
}

#[test]
fn a_plan_cocks_and_the_others_close() {
    let (_, actions) = run(FlightKind::Plan, vec![FlightEvent::StageDone(Some(out(None)))]);
    assert_eq!(
        actions,
        vec![
            FlightAction::OpenSlip("plan".to_string()),
            FlightAction::RunStage,
            FlightAction::RequestClearance { boundary: PLAN_TO_RESPOND.to_string(), by: "planner".to_string() },
            FlightAction::Finish(Some(end(Some(PLAN_TO_RESPOND)))),
        ]
    );
    for (kind, first) in [
        (FlightKind::Prompt, FlightAction::OpenSlip("prompt".to_string())),
        (FlightKind::Scout, FlightAction::OpenSlip("scout".to_string())),
        (FlightKind::Respond, FlightAction::ResumeSlip),
    ] {
        let (_, actions) = run(kind, vec![FlightEvent::StageDone(Some(out(None)))]);
        assert_eq!(
            actions,
            vec![first, FlightAction::RunStage, FlightAction::CloseAccepted, FlightAction::Finish(Some(end(None)))]
        );
    }
}

#[test]
fn a_failed_stage_ends_the_flight_with_the_slip_open() {
    let (s, actions) = run(
        FlightKind::Scout,
        vec![FlightEvent::StageDone(None), FlightEvent::StageDone(Some(out(None)))],
    );
    assert_eq!(s.at, FlightAt::Done);
    assert_eq!(
        actions,
        vec![FlightAction::OpenSlip("scout".to_string()), FlightAction::RunStage, FlightAction::Finish(None)]
    );
}

#[test]
fn a_responder_without_a_plan_is_refused() {
    assert_eq!(
        no_plan_refusal("s-9"),
        FlightError::Refused("s-9 has no plan.v1 section to continue from".to_string())
    );
}
