use daemar::card::cli::{
    append_plan, appended_json, create_request, created_json, db_path_json, history_filter,
    parse_u32_text, payload_from_args, require_producer, schema_version_from_arg,
    success_output, AppendFlags, ConfigProblem, Control, CreateFlags, Failure, PayloadFlag,
};
use daemar::card::config::Config;
use daemar::card::console::{ConfigSource, LoopbackAddr, Port};
use daemar::card::domain::{
    Accepted, CardId, DecisionV1, EntryId, EntryType, Payload, ProducerKind,
    CURRENT_SCHEMA_VERSION,
};
use daemar::card::error::Error;
use daemar::card::json::{JsonMembers, JsonValue};

fn decision_flag(summary: &str, reason: &str) -> PayloadFlag {
    PayloadFlag {
        text: format!("{{\"summary\":\"{summary}\",\"reason\":\"{reason}\"}}"),
        tree: Some(JsonValue::Object(JsonMembers::Cons(
            "summary".to_string(),
            Box::new(JsonValue::Scalar),
            Box::new(JsonMembers::Cons(
                "reason".to_string(),
                Box::new(JsonValue::Scalar),
                Box::new(JsonMembers::Nil),
            )),
        ))),
        as_decision: Ok(DecisionV1 { summary: summary.to_string(), reason: reason.to_string() }),
    }
}

fn object_flag(text: &str) -> PayloadFlag {
    PayloadFlag {
        text: text.to_string(),
        tree: Some(JsonValue::Object(JsonMembers::Nil)),
        as_decision: Err("missing field `summary`".to_string()),
    }
}

fn append_flags(entry_type: &str) -> AppendFlags {
    AppendFlags {
        card_id: Some("card-1".to_string()),
        entry_type: Some(entry_type.to_string()),
        payload: None,
        stage: None,
        summary: None,
        schema_version: None,
        producer: Some("builder".to_string()),
        producer_kind: Some("agent".to_string()),
        idempotency_key: None,
    }
}

fn invalid_message(failure: Failure) -> String {
    match failure {
        Failure::Invalid(message) => message,
        other => panic!("expected an invalid invocation, got {other:?}"),
    }
}

#[test]
fn reader_failure_is_domain_without_startup() {
    let failure = Failure::from(Error::DatabaseMissing { path: "missing.db".to_string() });
    assert!(matches!(failure, Failure::Domain(Error::DatabaseMissing { .. })));
}

#[test]
fn bind_failure_is_domain_without_startup() {
    let failure = Failure::from(Error::Bind {
        addr: LoopbackAddr::v4(Port::new(7331)),
        source: "occupied".to_string(),
    });
    assert!(matches!(failure, Failure::Domain(Error::Bind { .. })));
}

#[test]
fn serve_failure_is_domain() {
    let failure = Failure::from(Error::Serve { source: "accept failed".to_string() });
    assert!(matches!(failure, Failure::Domain(Error::Serve { .. })));
}

#[test]
fn serve_emits_no_second_success_line() {
    assert!(success_output(&Control::Served).is_empty());
}

#[test]
fn print_success_output_is_one_json_line() {
    let out = success_output(&Control::Print("{\"ok\":true}".to_string()));
    assert_eq!(out.as_bytes(), b"{\"ok\":true}\n");
}

#[test]
fn failure_reports_category_and_message_as_one_json_object() {
    let domain = Failure::from(Error::MissingProducer);
    assert_eq!(
        domain.to_json(),
        "{\"error\":{\"category\":\"validation\",\"message\":\"producer identity and kind are required on every entry\"}}"
    );
    let missing = Failure::from(Error::CardNotFound { card_id: CardId::from_text("c\"1".to_string()) });
    assert_eq!(
        missing.to_json(),
        "{\"error\":{\"category\":\"missing\",\"message\":\"no Card with id `c\\\"1`\"}}"
    );
    assert_eq!(
        Failure::Config(ConfigProblem::NoHome).to_json(),
        "{\"error\":{\"category\":\"storage\",\"message\":\"cannot resolve the factory home: HOME is not set\"}}"
    );
    let home = Failure::FactoryHome { path: "/h/.daemar".to_string(), source: "denied".to_string() };
    assert_eq!(home.category(), "storage");
    assert_eq!(home.message(), "cannot prepare the factory home /h/.daemar: denied");
    let dotenv = Failure::DotEnvFile { path: "/h/.daemar/.env".to_string(), source: "bad line".to_string() };
    assert_eq!(dotenv.message(), "cannot load the factory dotenv /h/.daemar/.env: bad line");
    assert_eq!(Failure::Invalid("x".to_string()).category(), "validation");
}

#[test]
fn producer_needs_both_flags_and_a_known_kind() {
    let p = require_producer(Some("builder".to_string()), Some("operator".to_string())).unwrap();
    assert_eq!(p.id, "builder");
    assert_eq!(p.kind, ProducerKind::Operator);
    assert!(matches!(
        require_producer(None, Some("bogus".to_string())),
        Err(Failure::Domain(Error::MissingProducer))
    ));
    assert!(matches!(
        require_producer(Some("builder".to_string()), None),
        Err(Failure::Domain(Error::MissingProducer))
    ));
    match require_producer(Some("builder".to_string()), Some("robot".to_string())) {
        Err(Failure::Domain(Error::UnknownProducerKind { requested })) => assert_eq!(requested, "robot"),
        other => panic!("unexpected {other:?}"),
    }
}

#[test]
fn schema_version_flag_reads_as_rust_reads_a_u32() {
    assert_eq!(schema_version_from_arg(None).unwrap(), CURRENT_SCHEMA_VERSION);
    assert_eq!(schema_version_from_arg(Some("7")).unwrap(), 7);
    assert_eq!(parse_u32_text("+12"), Some(12));
    assert_eq!(parse_u32_text("4294967295"), Some(u32::MAX));
    assert_eq!(parse_u32_text("4294967296"), None);
    assert_eq!(parse_u32_text("-1"), None);
    assert_eq!(parse_u32_text("+"), None);
    assert_eq!(parse_u32_text(""), None);
    assert_eq!(parse_u32_text("1 "), None);
    for text in ["0", "+0", "00042", "4294967295", "4294967296", "-0", "x", "99999999999999999999"] {
        assert_eq!(parse_u32_text(text), text.parse::<u32>().ok(), "{text}");
    }
    let refused = schema_version_from_arg(Some("two")).unwrap_err();
    assert_eq!(invalid_message(refused), "schema-version must be an unsigned integer, got `two`");
}

#[test]
fn decision_flags_refuse_stage_and_summary() {
    let stage = payload_from_args(
        EntryType::Decision,
        1,
        Some("review".to_string()),
        Some("s".to_string()),
        Some(decision_flag("ship", "green")),
    );
    assert_eq!(invalid_message(stage.unwrap_err()), "entry type decision does not accept --stage");
    let summary = payload_from_args(EntryType::Decision, 1, None, Some("s".to_string()), None);
    assert_eq!(invalid_message(summary.unwrap_err()), "entry type decision does not accept --summary");
    let missing = payload_from_args(EntryType::Decision, 1, None, None, None);
    assert_eq!(invalid_message(missing.unwrap_err()), "payload is required");
}

#[test]
fn decision_flags_check_version_then_reading_then_content() {
    let p = payload_from_args(EntryType::Decision, 1, None, None, Some(decision_flag("ship", "green")))
        .unwrap();
    assert_eq!(
        p,
        Payload::DecisionV1(DecisionV1 { summary: "ship".to_string(), reason: "green".to_string() })
    );
    assert!(matches!(
        payload_from_args(EntryType::Decision, 2, None, None, Some(object_flag("{}"))),
        Err(Failure::Domain(Error::UnknownSchemaVersion { entry_type: EntryType::Decision, requested: 2 }))
    ));
    match payload_from_args(EntryType::Decision, 1, None, None, Some(object_flag("{}"))) {
        Err(Failure::Domain(Error::MalformedPayload { entry_type, source })) => {
            assert_eq!(entry_type, EntryType::Decision);
            assert_eq!(source, "missing field `summary`");
        }
        other => panic!("unexpected {other:?}"),
    }
    match payload_from_args(EntryType::Decision, 1, None, None, Some(decision_flag("ship", " "))) {
        Err(Failure::Domain(Error::BlankField { field })) => assert_eq!(field, "decision reason"),
        other => panic!("unexpected {other:?}"),
    }
}

#[test]
fn stage_event_flags_need_stage_and_summary() {
    let no_stage = payload_from_args(EntryType::StageEvent, 1, None, Some("s".to_string()), None);
    assert_eq!(invalid_message(no_stage.unwrap_err()), "stage is required");
    let no_summary = payload_from_args(EntryType::StageEvent, 1, Some("build".to_string()), None, None);
    assert_eq!(invalid_message(no_summary.unwrap_err()), "summary is required");
    let built = payload_from_args(
        EntryType::StageEvent,
        1,
        Some("build".to_string()),
        Some("compiled".to_string()),
        Some(object_flag("{}")),
    )
    .unwrap();
    match built {
        Payload::StageEventV1(event) => {
            assert_eq!(event.stage(), "build");
            assert_eq!(event.summary(), "compiled");
            assert_eq!(event.payload().as_deref(), Some("{}"));
        }
        other => panic!("unexpected {other:?}"),
    }
    assert!(matches!(
        payload_from_args(EntryType::CardCreated, 1, None, None, None),
        Err(Failure::Domain(Error::NotAppendable { entry_type: EntryType::CardCreated }))
    ));
}

#[test]
fn append_checks_producer_then_type_then_version_then_payload() {
    let mut no_producer = append_flags("card-created");
    no_producer.producer = None;
    no_producer.schema_version = Some("x".to_string());
    assert!(matches!(append_plan(no_producer), Err(Failure::Domain(Error::MissingProducer))));

    let mut bad_version = append_flags("card-created");
    bad_version.schema_version = Some("x".to_string());
    assert!(matches!(
        append_plan(bad_version),
        Err(Failure::Domain(Error::NotAppendable { entry_type: EntryType::CardCreated }))
    ));

    match append_plan(append_flags("note")) {
        Err(Failure::Domain(Error::UnknownEntryType { requested })) => assert_eq!(requested, "note"),
        other => panic!("unexpected {other:?}"),
    }

    let mut version_first = append_flags("decision");
    version_first.schema_version = Some("-3".to_string());
    assert_eq!(
        invalid_message(append_plan(version_first).unwrap_err()),
        "schema-version must be an unsigned integer, got `-3`"
    );

    let mut no_type = append_flags("decision");
    no_type.entry_type = None;
    assert_eq!(invalid_message(append_plan(no_type).unwrap_err()), "entry-type is required");
}

#[test]
fn append_plan_carries_the_request_to_the_store() {
    let mut flags = append_flags("decision");
    flags.payload = Some(decision_flag("ship", "green"));
    flags.idempotency_key = Some("k-1".to_string());
    let plan = append_plan(flags).unwrap();
    assert_eq!(plan.card_id.as_str(), "card-1");
    assert_eq!(plan.producer.id, "builder");
    assert_eq!(plan.producer.kind, ProducerKind::Agent);
    assert_eq!(plan.idempotency_key.as_deref(), Some("k-1"));
    assert_eq!(plan.payload.entry_type(), EntryType::Decision);

    let mut no_card = append_flags("decision");
    no_card.payload = Some(decision_flag("ship", "green"));
    no_card.card_id = None;
    assert_eq!(invalid_message(append_plan(no_card).unwrap_err()), "card-id is required");

    let mut payload_first = append_flags("decision");
    payload_first.card_id = None;
    assert_eq!(invalid_message(append_plan(payload_first).unwrap_err()), "payload is required");
}

#[test]
fn create_checks_producer_before_title() {
    let flags = CreateFlags {
        title: None,
        task_key: Some("PER-1".to_string()),
        workspace: None,
        producer: Some("op".to_string()),
        producer_kind: Some("pilot".to_string()),
        idempotency_key: None,
    };
    assert!(matches!(
        create_request(flags),
        Err(Failure::Domain(Error::UnknownProducerKind { .. }))
    ));
    let flags = CreateFlags {
        title: None,
        task_key: None,
        workspace: None,
        producer: Some("op".to_string()),
        producer_kind: Some("operator".to_string()),
        idempotency_key: None,
    };
    assert_eq!(invalid_message(create_request(flags).unwrap_err()), "title is required");
    let flags = CreateFlags {
        title: Some("Ship it".to_string()),
        task_key: Some("PER-1".to_string()),
        workspace: Some("repo".to_string()),
        producer: Some("op".to_string()),
        producer_kind: Some("operator".to_string()),
        idempotency_key: Some("k".to_string()),
    };
    let request = create_request(flags).unwrap();
    assert_eq!(request.title, "Ship it");
    assert_eq!(request.task_key.as_deref(), Some("PER-1"));
    assert_eq!(request.workspace.as_deref(), Some("repo"));
    assert_eq!(request.producer.kind, ProducerKind::Operator);
    assert_eq!(request.idempotency_key.as_deref(), Some("k"));
}

#[test]
fn history_filter_is_optional_and_closed() {
    assert_eq!(history_filter(None).unwrap(), None);
    assert_eq!(history_filter(Some("stage-event")).unwrap(), Some(EntryType::StageEvent));
    assert!(matches!(
        history_filter(Some("stage")),
        Err(Failure::Domain(Error::UnknownEntryType { .. }))
    ));
}

#[test]
fn success_reports_are_compact_json() {
    let config = Config { db_path: "/tmp/cards.db".to_string(), source: ConfigSource::DotEnv };
    assert_eq!(db_path_json(&config), "{\"db_path\":\"/tmp/cards.db\",\"source\":\"dotenv\"}");
    let card = CardId::from_text("c-1".to_string());
    assert_eq!(created_json(&card), "{\"card_id\":\"c-1\"}");
    let accepted = Accepted { entry_id: EntryId::from_text("e-9".to_string()), sequence: 12 };
    assert_eq!(
        appended_json(&card, &accepted),
        "{\"card_id\":\"c-1\",\"entry_id\":\"e-9\",\"sequence\":12}"
    );
}

#[test]
fn a_failure_with_a_line_break_in_its_message_is_still_one_line() {
    let failure = Failure::Invalid("first\nsecond\u{1}".to_string());
    let report = failure.to_json();
    assert!(!report.contains('\n'));
    assert_eq!(
        report,
        "{\"error\":{\"category\":\"validation\",\"message\":\"first\\nsecond\\u0001\"}}"
    );
    let categories = [
        Failure::from(Error::MissingProducer).category(),
        Failure::from(Error::IdempotencyConflict { key: "k".to_string() }).category(),
        Failure::from(Error::DatabaseMissing { path: "p".to_string() }).category(),
        Failure::Config(ConfigProblem::UnknownCommand).category(),
        Failure::from(Error::Serve { source: "s".to_string() }).category(),
    ];
    assert_eq!(categories, ["validation", "conflict", "missing", "storage", "unavailable"]);
}

#[test]
fn success_reports_hold_no_line_break() {
    let card = CardId::from_text("line\nbreak".to_string());
    assert!(!created_json(&card).contains('\n'));
    let config = Config { db_path: "/tmp/a\nb.db".to_string(), source: ConfigSource::Flag };
    let printed = success_output(&Control::Print(db_path_json(&config)));
    assert_eq!(printed.matches('\n').count(), 1);
    assert!(printed.ends_with('\n'));
}
