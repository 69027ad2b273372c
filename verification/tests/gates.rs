use daemar::factory::gates::{ApplyGate, ApplyStep, GateAction, GateEvent, GateOp, LandGate, LandStep};
use daemar::factory::workflows::{
    apply_granter, newest_section, no_receipt_refusal, park_receipt, DiffReceipt, FlightError, ParkReceipt,
    APPLY_SECTION, APPLY_TO_LAND, BUILD_TO_APPLY, DIFF_SECTION,
};
use daemar::ledger::event::ClearanceVerdict;
use daemar::ledger::fold::{ClearanceResponse, ClearanceRow, SectionRow};

const BASE: &str = "0123456789abcdef0123456789abcdef01234567";
const COMMIT: &str = "89abcdef0123456789abcdef0123456789abcdef";

fn text(s: &str) -> GateEvent {
    GateEvent::Text(Ok(s.to_string()))
}

fn apply_gate() -> ApplyGate {
    let receipt = DiffReceipt { base: BASE.to_string(), worktree: "/wt/slip".to_string() };
    let (gate, first) =
        ApplyGate::start("slip-0123456789", "/repo", &receipt, "diff --git a b", "Fix it\nmore", "ops");
    assert_eq!(first, GateAction::Begin { note: None, op: GateOp::TerritoryHead });
    assert_eq!(gate.message, "slip slip-0123456789: Fix it\n\ngranted-by: ops\nvia: daemar gate:apply");
    gate
}

fn through_commit() -> ApplyGate {
    let (g, a) = apply_gate().answer(text("anything"));
    assert_eq!(a, GateAction::Perform { note: None, op: GateOp::WorktreeExists });
    let (g, a) = g.answer(GateEvent::Flag(Ok(true)));
    assert_eq!(a, GateAction::Perform { note: None, op: GateOp::WorktreeHead });
    let (g, a) = g.answer(text(BASE));
    assert_eq!(a, GateAction::Perform { note: None, op: GateOp::WorktreeDiff });
    let (g, a) = g.answer(text("diff --git a b"));
    assert!(matches!(a, GateAction::Perform { note: None, op: GateOp::Commit { .. } }));
    let (g, a) = g.answer(text(COMMIT));
    assert_eq!(
        a,
        GateAction::Perform {
            note: Some(format!("apply commit {COMMIT} (parent {BASE})")),
            op: GateOp::TerritoryDirty
        }
    );
    g
}

#[test]
fn a_clean_unmoved_territory_lands_directly() {
    let (g, a) = through_commit().answer(GateEvent::Flag(Ok(false)));
    assert_eq!(a, GateAction::Perform { note: None, op: GateOp::TerritoryHead });
    let (g, a) = g.answer(text(BASE));
    assert_eq!(a, GateAction::Perform { note: None, op: GateOp::FastForward { commit: COMMIT.to_string() } });
    let (g, a) = g.answer(GateEvent::Done(Ok(())));
    assert_eq!(
        a,
        GateAction::Perform { note: Some(format!("landed {COMMIT} onto /repo")), op: GateOp::RemoveWorktree }
    );
    let (g, a) = g.answer(GateEvent::Done(Ok(())));
    assert_eq!(
        a,
        GateAction::Close { note: Some("worktree removed: /wt/slip".to_string()), reason: format!("landed {COMMIT}") }
    );
    assert_eq!(g.step, ApplyStep::Finished);
}

#[test]
fn a_dirty_territory_parks_the_commit_on_a_branch() {
    let (g, _) = through_commit().answer(GateEvent::Flag(Ok(true)));
    let (g, a) = g.answer(text(BASE));
    assert_eq!(a, GateAction::Perform { note: None, op: GateOp::BranchTarget { branch: "daemar/slip-slip-012".to_string() } });
    let (g, a) = g.answer(GateEvent::Target(Ok(None)));
    assert_eq!(
        a,
        GateAction::Perform {
            note: None,
            op: GateOp::CreateBranch { branch: "daemar/slip-slip-012".to_string(), commit: COMMIT.to_string() }
        }
    );
    let (_, a) = g.answer(GateEvent::Done(Ok(())));
    match a {
        GateAction::Park { note, receipt, body, report } => {
            assert_eq!(note, None);
            assert_eq!(receipt, park_receipt(BASE, "/wt/slip", COMMIT, "daemar/slip-slip-012"));
            assert!(body.starts_with(&format!("territory dirty: commit {COMMIT} parked on daemar/slip-slip-012. ")));
            assert_eq!(report, format!("territory dirty: parked {COMMIT} on daemar/slip-slip-012"));
        }
        other => panic!("expected a park, got {other:?}"),
    }
}

#[test]
fn a_moved_territory_reuses_a_branch_already_at_the_commit_and_refuses_a_collision() {
    let (g, _) = through_commit().answer(GateEvent::Flag(Ok(false)));
    let (g, _) = g.answer(text("ffffffffffffffffffffffffffffffffffffffff"));
    let (_, a) = g.clone().answer(GateEvent::Target(Ok(Some(COMMIT.to_string()))));
    match a {
        GateAction::Park { note, report, .. } => {
            assert_eq!(note, Some(format!("branch daemar/slip-slip-012 already parked at {COMMIT}")));
            assert!(report.starts_with("territory HEAD moved: parked"));
        }
        other => panic!("expected a park, got {other:?}"),
    }
    let (_, a) = g.answer(GateEvent::Target(Ok(Some("other".to_string()))));
    assert_eq!(
        a,
        GateAction::Witness {
            reason: format!("branch daemar/slip-slip-012 exists at other, not {COMMIT} — collision")
        }
    );
}

#[test]
fn post_grant_defects_are_witnessed() {
    let (_, a) = apply_gate().answer(GateEvent::Text(Err("not a repo".to_string())));
    assert_eq!(a, GateAction::Witness { reason: "territory /repo is no longer a repository".to_string() });
    let (g, _) = apply_gate().answer(text("h"));
    let (_, a) = g.clone().answer(GateEvent::Flag(Ok(false)));
    assert_eq!(a, GateAction::Witness { reason: "retained worktree /wt/slip is missing".to_string() });
    let (g, _) = g.answer(GateEvent::Flag(Ok(true)));
    let (_, a) = g.clone().answer(text("elsewhere"));
    assert_eq!(a, GateAction::Witness { reason: "retained worktree is not at the stamped base".to_string() });
    let (g, _) = g.answer(text(BASE));
    let (_, a) = g.clone().answer(text("a different diff"));
    assert_eq!(
        a,
        GateAction::Witness {
            reason: "stamped diff mismatch — the worktree no longer matches what was cleared".to_string()
        }
    );
    let (_, a) = g.answer(GateEvent::Text(Err("git died".to_string())));
    assert_eq!(a, GateAction::Witness { reason: "diff verification failed: git died".to_string() });
}

fn land_gate() -> LandGate {
    let receipt = ParkReceipt {
        base: BASE.to_string(),
        worktree: "/wt/slip".to_string(),
        commit: COMMIT.to_string(),
        branch: "daemar/slip-x".to_string(),
    };
    let (gate, a) = LandGate::start("slip-x", "/repo", &receipt);
    assert_eq!(a, GateAction::Perform { note: None, op: GateOp::IsLanded { commit: COMMIT.to_string() } });
    gate
}

#[test]
fn a_commit_landed_by_hand_is_recognized_and_closed() {
    let (g, a) = land_gate().answer(GateEvent::Flag(Ok(true)));
    assert_eq!(
        a,
        GateAction::Begin {
            note: Some(format!("commit {COMMIT} already reachable from territory HEAD — landed by hand")),
            op: GateOp::WorktreeExists
        }
    );
    let (_, a) = g.answer(GateEvent::Flag(Ok(false)));
    assert_eq!(a, GateAction::Close { note: None, reason: format!("landed {COMMIT}") });
}

#[test]
fn a_dirty_or_moved_territory_refuses_to_land_without_events() {
    let (g, _) = land_gate().answer(GateEvent::Flag(Ok(false)));
    let (g, a) = g.answer(GateEvent::Flag(Ok(true)));
    assert_eq!(a, GateAction::Perform { note: None, op: GateOp::TerritoryHead });
    let (g, a) = g.answer(text(BASE));
    assert_eq!(
        a,
        GateAction::Refuse {
            reason: "slip-x cannot land yet — territory dirty or moved; merge daemar/slip-x manually and continue again, or continue once the territory is clean at the stamped base".to_string()
        }
    );
    assert_eq!(g.step, LandStep::Finished);
    let (_, a) = land_gate().answer(GateEvent::Flag(Err("no repo".to_string())));
    assert_eq!(a, GateAction::Refuse { reason: "cannot inspect territory: no repo".to_string() });
}

#[test]
fn a_clean_unmoved_territory_is_fast_forwarded_home() {
    let (g, _) = land_gate().answer(GateEvent::Flag(Ok(false)));
    let (g, _) = g.answer(GateEvent::Flag(Ok(false)));
    let (g, a) = g.answer(text(BASE));
    assert_eq!(a, GateAction::Begin { note: None, op: GateOp::FastForward { commit: COMMIT.to_string() } });
    let (g, a) = g.answer(GateEvent::Done(Ok(())));
    assert_eq!(
        a,
        GateAction::Perform { note: Some(format!("landed {COMMIT} onto /repo")), op: GateOp::WorktreeExists }
    );
    let (g, a) = g.answer(GateEvent::Flag(Ok(true)));
    assert_eq!(a, GateAction::Perform { note: None, op: GateOp::RemoveWorktree });
    let (_, a) = g.answer(GateEvent::Done(Err("locked".to_string())));
    assert_eq!(a, GateAction::Witness { reason: "worktree removal failed: locked".to_string() });
}

fn section(name: &str, summary: &str, body: &str) -> SectionRow {
    SectionRow {
        section: name.to_string(),
        by: "builder".to_string(),
        summary: summary.to_string(),
        body: body.to_string(),
        ts: "2026-01-01T00:00:00Z".to_string(),
    }
}

fn clearance(boundary: &str, by: Option<&str>) -> ClearanceRow {
    ClearanceRow {
        boundary: boundary.to_string(),
        requested_by: "builder".to_string(),
        requested_ts: "2026-01-01T00:00:00Z".to_string(),
        response: by.map(|b| ClearanceResponse {
            verdict: ClearanceVerdict::Granted,
            by: b.to_string(),
            ts: "2026-01-01T00:01:00Z".to_string(),
            reason: String::new(),
        }),
    }
}

#[test]
fn the_newest_receipt_section_is_the_one_read() {
    let rows = vec![
        section(DIFF_SECTION, "old", "first"),
        section("plan.v1", "p", "plan"),
        section(DIFF_SECTION, "new", "second"),
        section(APPLY_SECTION, "park", "parked"),
    ];
    assert_eq!(newest_section(&rows, DIFF_SECTION), Some(2));
    assert_eq!(newest_section(&rows, APPLY_SECTION), Some(3));
    assert_eq!(newest_section(&rows, "missing.v1"), None);
    assert_eq!(newest_section(&Vec::new(), DIFF_SECTION), None);
}

#[test]
fn the_granter_is_the_newest_build_to_apply_answer_or_unknown() {
    assert_eq!(apply_granter(&vec![]), "unknown");
    let answered = vec![
        clearance(BUILD_TO_APPLY, Some("alice")),
        clearance(APPLY_TO_LAND, Some("carol")),
    ];
    assert_eq!(apply_granter(&answered), "alice");
    let reasked = vec![clearance(BUILD_TO_APPLY, Some("alice")), clearance(BUILD_TO_APPLY, Some("bob"))];
    assert_eq!(apply_granter(&reasked), "bob");
    let unanswered = vec![clearance(BUILD_TO_APPLY, Some("alice")), clearance(BUILD_TO_APPLY, None)];
    assert_eq!(apply_granter(&unanswered), "unknown");
}

#[test]
fn a_missing_receipt_is_refused_by_name() {
    assert_eq!(
        no_receipt_refusal("s-1", DIFF_SECTION, "apply"),
        FlightError::Refused("s-1 has no decodable diff.v1 receipt — cannot apply".to_string())
    );
    assert_eq!(
        no_receipt_refusal("s-2", APPLY_SECTION, "land"),
        FlightError::Refused("s-2 has no decodable apply.v1 receipt — cannot land".to_string())
    );
}
