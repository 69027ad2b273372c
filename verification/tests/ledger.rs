use daemar::ledger::recent::{newest_first, text_before};
use daemar::ledger::event::{
    ClearanceVerdict, Event, EventKind, Kind, Lane, PhaseOutcome, SlipId, SlipOutcome,
};
use daemar::ledger::fold::{fold, Status};
use daemar::ledger::load::{collect_ledger, resumed_seq, LineRead};
use daemar::ledger::time::{format_ts, parse_ts};

fn s(t: &str) -> String {
    t.to_string()
}

fn ev(seq: u64, ts: &str, kind: Kind) -> Event {
    Event {
        schema: s("ledger.v1"),
        slip_id: SlipId(s("slip-1")),
        seq,
        ts: s(ts),
        kind: EventKind::Known(kind),
    }
}

fn opened(seq: u64, ts: &str) -> Event {
    ev(
        seq,
        ts,
        Kind::SlipOpened { request: s("r"), workflow: s("w"), engineer: s("e"), repo: s("") },
    )
}

fn started(seq: u64, ts: &str, phase: &str) -> Event {
    ev(
        seq,
        ts,
        Kind::PhaseStarted { phase: s(phase), owner: s("o"), lane: Lane::Agent, engineer: s("") },
    )
}

fn ended(seq: u64, ts: &str, phase: &str, outcome: PhaseOutcome) -> Event {
    ev(seq, ts, Kind::PhaseEnded { phase: s(phase), outcome })
}

#[test]
fn format_and_parse_are_inverses() {
    for epoch in [0u64, 1_785_776_400, 86_399, 86_400, 4_102_444_800] {
        assert_eq!(parse_ts(&format_ts(epoch)), Some(epoch), "epoch {epoch}");
    }
    assert_eq!(format_ts(1_785_776_400), "2026-08-03T17:00:00Z");
}

#[test]
fn timestamps_parse_to_epoch_seconds() {
    assert_eq!(parse_ts("2026-08-03T17:00:00Z"), Some(1_785_776_400));
    assert_eq!(parse_ts("1970-01-01T00:00:00Z"), Some(0));
    assert_eq!(parse_ts("2026-08-03T17:00:00.123Z"), Some(1_785_776_400));
    assert_eq!(parse_ts("not a timestamp"), None);
}

#[test]
fn the_last_representable_second_round_trips() {
    assert_eq!(format_ts(253_402_300_799), "9999-12-31T23:59:59Z");
    assert_eq!(parse_ts("9999-12-31T23:59:59Z"), Some(253_402_300_799));
    assert_eq!(format_ts(951_782_400), "2000-02-29T00:00:00Z");
}

#[test]
fn accepted_flight_folds_clean() {
    let events = vec![
        ev(
            1,
            "t1",
            Kind::SlipOpened {
                request: s("add /health"),
                workflow: s("simple"),
                engineer: s("kendall"),
                repo: s(""),
            },
        ),
        ev(
            2,
            "t2",
            Kind::PhaseStarted {
                phase: s("plan"),
                owner: s("planner"),
                lane: Lane::Agent,
                engineer: s(""),
            },
        ),
        ev(
            3,
            "t3",
            Kind::ModelRequested {
                phase: s("plan"),
                model: s("m"),
                system: s("be a planner"),
                user: s("plan it"),
            },
        ),
        ev(
            4,
            "t4",
            Kind::ModelCall {
                phase: s("plan"),
                model: s("m"),
                tokens: 1000,
                prompt_tokens: 0,
                cached_tokens: 0,
                completion_tokens: 0,
                cost: s("0.02"),
            },
        ),
        ev(
            5,
            "t5",
            Kind::SectionWritten {
                section: s("plan.v1"),
                by: s("planner"),
                summary: s(""),
                body: s(""),
            },
        ),
        ended(6, "t6", "plan", PhaseOutcome::Success),
        ev(7, "t7", Kind::ClearanceRequested { boundary: s("plan->build"), by: s("planner") }),
        ev(8, "t8", Kind::ClearanceGranted { boundary: s("plan->build"), by: s("kendall") }),
        ev(
            9,
            "t9",
            Kind::SlipClosed { outcome: SlipOutcome::Accepted, reason: s(""), by: s("") },
        ),
    ];
    let slip = fold(&events).expect("slip opened");
    assert_eq!(slip.status, Status::Accepted);
    assert_eq!(slip.cocked, None);
    assert_eq!(slip.current_phase, None);
    assert_eq!(slip.phases.len(), 1);
    assert_eq!(slip.phases[0].outcome, Some(PhaseOutcome::Success));
    assert_eq!(slip.phases[0].lane, Lane::Agent);
    assert_eq!(slip.phases[0].engineer, "");
    assert_eq!(slip.sections.len(), 1);
    assert_eq!(slip.tokens, 1000);
    assert_eq!(slip.last_model.as_deref(), Some("m"));
    assert_eq!(slip.model_requests.len(), 1);
    assert_eq!(slip.model_requests[0].system, "be a planner");
    assert_eq!(slip.model_requests[0].user, "plan it");
    assert_eq!(slip.event_count, 9);
    let response = slip.clearances[0].response.as_ref().expect("answered");
    assert_eq!(response.verdict, ClearanceVerdict::Granted);
}

#[test]
fn unanswered_clearance_cocks_the_strip() {
    let events = vec![
        opened(1, "t1"),
        ev(2, "t2", Kind::ClearanceRequested { boundary: s("plan->build"), by: s("planner") }),
    ];
    let slip = fold(&events).unwrap();
    assert_eq!(slip.status, Status::InFlight);
    assert_eq!(slip.cocked.as_deref(), Some("plan->build"));
}

#[test]
fn closed_slips_are_never_cocked() {
    let events = vec![
        opened(1, "t1"),
        ev(2, "t2", Kind::ClearanceRequested { boundary: s("ship"), by: s("approver") }),
        ev(
            3,
            "t3",
            Kind::SlipClosed {
                outcome: SlipOutcome::Rejected,
                reason: s("review failed"),
                by: s(""),
            },
        ),
    ];
    let slip = fold(&events).unwrap();
    assert_eq!(slip.status, Status::Rejected);
    assert_eq!(slip.cocked, None);
    assert_eq!(slip.close_reason.as_deref(), Some("review failed"));
}

#[test]
fn unknown_kinds_are_explicit_and_survive_the_fold() {
    let events = vec![
        opened(1, "t1"),
        Event {
            schema: s("ledger.v1"),
            slip_id: SlipId(s("slip-1")),
            seq: 2,
            ts: s("t2"),
            kind: EventKind::Unknown {
                kind: s("teleportation_requested.v9"),
                payload: s(r#"{"to":"moon"}"#),
            },
        },
    ];
    assert!(
        matches!(&events[1].kind, EventKind::Unknown { kind, .. } if kind == "teleportation_requested.v9")
    );
    assert_eq!(events[1].kind.wire_kind(), "teleportation_requested.v9");
    let slip = fold(&events).unwrap();
    assert_eq!(slip.status, Status::InFlight);
    assert_eq!(slip.event_count, 2);
}

#[test]
fn an_unwitnessed_error_derives_failed() {
    let events = vec![
        opened(1, "t1"),
        started(2, "t2", "respond"),
        ended(3, "t3", "respond", PhaseOutcome::Error),
    ];
    let slip = fold(&events).unwrap();
    assert_eq!(slip.status, Status::InFlight);
    assert_eq!(slip.failed.as_deref(), Some("respond"));
}

#[test]
fn disposition_clears_failed_and_a_retry_phase_clears_it_too() {
    let base = || {
        vec![
            opened(1, "t1"),
            started(2, "t2", "respond"),
            ended(3, "t3", "respond", PhaseOutcome::Error),
        ]
    };
    let mut disposed = base();
    disposed.push(ev(
        4,
        "t4",
        Kind::SlipClosed {
            outcome: SlipOutcome::Rejected,
            reason: s("disposed"),
            by: s("kendall"),
        },
    ));
    let slip = fold(&disposed).unwrap();
    assert_eq!(slip.status, Status::Rejected);
    assert_eq!(slip.failed, None);

    let mut retried = base();
    retried.push(started(4, "t4", "respond"));
    let slip = fold(&retried).unwrap();
    assert_eq!(slip.failed, None);
}

#[test]
fn a_granted_clearance_with_nothing_flown_is_holding() {
    let base = || {
        vec![
            opened(1, "2026-01-01T00:00:01Z"),
            started(2, "2026-01-01T00:00:02Z", "plan"),
            ended(3, "2026-01-01T00:00:03Z", "plan", PhaseOutcome::Success),
            ev(
                4,
                "2026-01-01T00:00:04Z",
                Kind::ClearanceRequested { boundary: s("plan->respond"), by: s("planner") },
            ),
            ev(
                5,
                "2026-01-01T00:00:05Z",
                Kind::ClearanceGranted { boundary: s("plan->respond"), by: s("kendall") },
            ),
        ]
    };
    let slip = fold(&base()).unwrap();
    assert_eq!(slip.cocked, None);
    assert_eq!(slip.holding.as_deref(), Some("plan->respond"));
    let mut continued = base();
    continued.push(started(6, "2026-01-01T00:00:06Z", "respond"));
    assert_eq!(fold(&continued).unwrap().holding, None);
}

#[test]
fn phase_engineers_ride_the_wire_and_survive_the_fold() {
    let events = vec![
        opened(1, "t1"),
        ev(
            2,
            "t2",
            Kind::PhaseStarted {
                phase: s("plan"),
                owner: s("planner"),
                lane: Lane::Agent,
                engineer: s("kendall"),
            },
        ),
    ];
    let slip = fold(&events).unwrap();
    assert_eq!(slip.phases[0].engineer, "kendall");
    assert_eq!(slip.current_phase.as_deref(), Some("plan"));
}

#[test]
fn a_ledger_without_an_opening_folds_to_nothing() {
    let events = vec![started(1, "t1", "plan")];
    assert!(fold(&events).is_none());
    assert!(fold(&Vec::new()).is_none());
}

#[test]
fn token_counts_saturate_instead_of_wrapping() {
    let call = |seq| {
        ev(
            seq,
            "t",
            Kind::ModelCall {
                phase: s("p"),
                model: s("m"),
                tokens: u64::MAX,
                prompt_tokens: 0,
                cached_tokens: 0,
                completion_tokens: 0,
                cost: s("0"),
            },
        )
    };
    let events = vec![opened(1, "t1"), call(2), call(3)];
    let slip = fold(&events).unwrap();
    assert_eq!(slip.tokens, u64::MAX);
    assert_eq!(slip.model_calls, 2);
}

#[test]
fn wire_names_are_versioned() {
    assert_eq!(Kind::Note { text: s("x") }.wire_name(), "note.v1");
    assert_eq!(Lane::Code.as_string(), "code");
    assert_eq!(PhaseOutcome::Error.as_string(), "error");
    assert_eq!(ClearanceVerdict::Refused.as_string(), "refused");
}

#[test]
fn anything_after_the_seconds_is_ignored() {
    assert_eq!(parse_ts("2026-08-03T17:00:00.123Z"), Some(1_785_776_400));
    assert_eq!(parse_ts("2026-08-03T17:00:00Z"), Some(1_785_776_400));
    assert_eq!(parse_ts("2026-08-03T17:00:00"), Some(1_785_776_400));
    assert_eq!(parse_ts("2026-08-03T17:00:0"), None);
}

fn note(seq: u64, text: &str) -> Event {
    ev(seq, "2026-08-03T17:00:00Z", Kind::Note { text: text.to_string() })
}

#[test]
fn bad_lines_are_counted_never_silently_dropped() {
    let file = collect_ledger(vec![
        LineRead::Parsed(opened(1, "t1")),
        LineRead::Bad,
        LineRead::Blank,
        LineRead::Parsed(note(2, "fine")),
        LineRead::Bad,
    ]);
    assert_eq!(file.events.len(), 2);
    assert_eq!(file.bad_lines, vec![2, 5]);
}

#[test]
fn loaded_events_stand_in_sequence_order_stably() {
    let file = collect_ledger(vec![
        LineRead::Parsed(note(3, "c")),
        LineRead::Parsed(note(1, "a")),
        LineRead::Parsed(note(3, "d")),
        LineRead::Parsed(note(2, "b")),
    ]);
    let order: Vec<(u64, String)> = file
        .events
        .iter()
        .map(|e| match &e.kind {
            EventKind::Known(Kind::Note { text }) => (e.seq, text.clone()),
            _ => (e.seq, String::new()),
        })
        .collect();
    assert_eq!(
        order,
        vec![(1, s("a")), (2, s("b")), (3, s("c")), (3, s("d"))]
    );
    assert_eq!(resumed_seq(&file.events), 3);
    assert_eq!(resumed_seq(&Vec::new()), 0);
}

#[test]
fn slips_are_listed_newest_first_ties_in_reading_order() {
    let stamps = vec![
        "2026-01-01T00:00:00Z".to_string(),
        "2026-03-01T00:00:00Z".to_string(),
        "2026-02-01T00:00:00Z".to_string(),
        "2026-03-01T00:00:00Z".to_string(),
    ];
    assert_eq!(newest_first(&stamps), vec![1, 3, 2, 0]);
    assert_eq!(newest_first(&Vec::new()), Vec::<usize>::new());
}

#[test]
fn text_order_is_character_order_with_prefixes_first() {
    assert!(text_before("2026-01-01", "2026-01-02"));
    assert!(!text_before("2026-01-02", "2026-01-01"));
    assert!(text_before("2026", "2026-01"));
    assert!(!text_before("same", "same"));
    assert!(text_before("", "a"));
}
