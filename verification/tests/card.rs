use daemar::card::console::{
    entry_display, entry_failure_page, history_failure_page, ConfigSource, LoopbackAddr, Port,
    Startup,
};
use daemar::card::domain::{
    check_version, payload_json, AppendEntry, CardCreatedV1, CardId, CreateCard, DecisionV1, EntryId, EntryType,
    Payload, Producer, ProducerKind, StageEventV1, CURRENT_SCHEMA_VERSION,
};
use daemar::card::error::{Error, ErrorCategory, StorageContext};
use daemar::card::json::{first_duplicate, JsonList, JsonMembers, JsonValue};
use daemar::card::storage::{
    append_precheck, compare_schema, create_precheck, is_unique_code, payload_fingerprint,
    replays_after_failed_insert, stored_count, stored_names, stored_version, AppliedMigration,
    ExpectedMigration, MigrationVersion, SchemaIncompatibility,
};

const DISPLAY_FIXTURE_PORT: u16 = 7331;

fn scalar() -> JsonValue {
    JsonValue::Scalar
}

fn obj(members: Vec<(&str, JsonValue)>) -> JsonValue {
    let mut list = JsonMembers::Nil;
    for (name, value) in members.into_iter().rev() {
        list = JsonMembers::Cons(name.to_string(), Box::new(value), Box::new(list));
    }
    JsonValue::Object(list)
}

fn arr(items: Vec<JsonValue>) -> JsonValue {
    let mut list = JsonList::Nil;
    for item in items.into_iter().rev() {
        list = JsonList::Cons(Box::new(item), Box::new(list));
    }
    JsonValue::Array(list)
}

fn from_parts(summary: &str, raw: Option<&str>, tree: Option<&JsonValue>) -> Result<Payload, Error> {
    Payload::stage_event_from_parts(
        CURRENT_SCHEMA_VERSION,
        "stage".to_string(),
        summary.to_string(),
        raw,
        tree,
    )
}

#[test]
fn loopback_address_formats_both_families() {
    assert_eq!(
        LoopbackAddr::v4(Port::new(DISPLAY_FIXTURE_PORT)).text(),
        "127.0.0.1:7331"
    );
    assert_eq!(
        LoopbackAddr::v6(Port::new(DISPLAY_FIXTURE_PORT)).text(),
        "[::1]:7331"
    );
    assert_eq!(Port::new(DISPLAY_FIXTURE_PORT).get(), DISPLAY_FIXTURE_PORT);
    assert_eq!(Port::default_port().get(), DISPLAY_FIXTURE_PORT);
}

#[test]
fn config_source_has_contract_spellings() {
    assert_eq!(ConfigSource::Flag.text(), "flag");
    assert_eq!(ConfigSource::Env.text(), "env");
    assert_eq!(ConfigSource::DotEnv.text(), "dotenv");
    assert_eq!(ConfigSource::Default.text(), "default");
}

#[test]
fn publish_startup_error_category_and_display() {
    let error = Error::PublishStartup { source: "category sentinel".to_string() };
    assert_eq!(error.category(), ErrorCategory::Unavailable);
    assert_eq!(error.message(), "startup line could not be published");
    assert_eq!(error.cause().map(|s| s.as_str()), Some("category sentinel"));
}

#[test]
fn startup_line_is_one_json_object_and_a_newline() {
    let bound = LoopbackAddr::v4(Port::new(DISPLAY_FIXTURE_PORT));
    let startup = Startup::new(bound, "/var/lib/daemar/cards.db".to_string(), ConfigSource::Env);
    assert_eq!(startup.url(), "http://127.0.0.1:7331/");
    assert_eq!(
        startup.wire_line(),
        "{\"db_path\":\"/var/lib/daemar/cards.db\",\"source\":\"env\",\"url\":\"http://127.0.0.1:7331/\"}\n"
    );
}

#[test]
fn startup_line_escapes_the_database_path() {
    let bound = LoopbackAddr::v6(Port::new(8080));
    let startup = Startup::new(bound, "a\"b\\c".to_string(), ConfigSource::Flag);
    assert_eq!(
        startup.wire_line(),
        "{\"db_path\":\"a\\\"b\\\\c\",\"source\":\"flag\",\"url\":\"http://[::1]:8080/\"}\n"
    );
}

#[test]
fn every_error_variant_maps_to_its_category() {
    let cases = [
        (Error::UnknownEntryType { requested: "gizmo".to_owned() }, ErrorCategory::Validation),
        (Error::UnknownProducerKind { requested: "ghost".to_owned() }, ErrorCategory::Validation),
        (
            Error::UnknownSchemaVersion { entry_type: EntryType::Decision, requested: 999 },
            ErrorCategory::Validation,
        ),
        (
            Error::MalformedPayload {
                entry_type: EntryType::Decision,
                source: "expected ident at line 1 column 2".to_owned(),
            },
            ErrorCategory::Validation,
        ),
        (Error::MissingProducer, ErrorCategory::Validation),
        (Error::BlankField { field: "title".to_owned() }, ErrorCategory::Validation),
        (Error::NotAppendable { entry_type: EntryType::CardCreated }, ErrorCategory::Validation),
        (Error::IdempotencyConflict { key: "k".to_owned() }, ErrorCategory::Conflict),
        (Error::CardNotFound { card_id: CardId::from_text("card".to_owned()) }, ErrorCategory::Missing),
        (Error::Corrupt { context: StorageContext::ReadHistory }, ErrorCategory::Storage),
        (
            Error::Storage { context: StorageContext::Open, source: "no rows returned".to_owned() },
            ErrorCategory::Storage,
        ),
        (Error::NotSingleLine { field: "summary".to_owned() }, ErrorCategory::Validation),
        (Error::DuplicateJsonMember { name: "count".to_owned() }, ErrorCategory::Validation),
    ];
    for (error, category) in cases {
        assert_eq!(error.category(), category, "for {error:?}");
    }
}

#[test]
fn new_error_categories_displays_and_sources_are_typed() {
    let missing = Error::DatabaseMissing { path: "cards.db".to_string() };
    assert_eq!(missing.category(), ErrorCategory::Missing);
    assert_eq!(missing.message(), "no database at cards.db");

    let incompatible = Error::SchemaIncompatible {
        path: "cards.db".to_string(),
        reason: SchemaIncompatibility::Uninitialized,
    };
    assert_eq!(incompatible.category(), ErrorCategory::Unavailable);
    assert_eq!(incompatible.message(), "database cards.db schema is uninitialized");

    assert_eq!(StorageContext::OpenReadOnly.text(), "open-read-only");
    assert_eq!(StorageContext::VerifySchema.text(), "verify-schema");
    assert_eq!(StorageContext::Queue.text(), "queue");
    assert_eq!(StorageContext::ReadEntry.text(), "read-entry");
    assert_eq!(ErrorCategory::Unavailable.text(), "unavailable");

    let bind = Error::Bind {
        addr: LoopbackAddr::v4(Port::new(7331)),
        source: "bind sentinel".to_string(),
    };
    assert_eq!(bind.category(), ErrorCategory::Unavailable);
    assert_eq!(bind.message(), "cannot bind 127.0.0.1:7331");
    assert_eq!(bind.cause().map(|s| s.as_str()), Some("bind sentinel"));

    let serve = Error::Serve { source: "serve sentinel".to_string() };
    assert_eq!(serve.category(), ErrorCategory::Unavailable);
    assert_eq!(serve.message(), "console server failed");
    assert_eq!(serve.cause().map(|s| s.as_str()), Some("serve sentinel"));

    let entry = Error::EntryNotFound {
        card_id: CardId::from_text("card-1".to_owned()),
        entry_id: EntryId::from_text("entry-1".to_owned()),
    };
    assert_eq!(entry.category(), ErrorCategory::Missing);
    assert_eq!(entry.message(), "no entry `entry-1` on Card `card-1`");
    assert_eq!(EntryType::Decision.text(), "decision");
    assert_eq!(MigrationVersion::new(1).text(), "1");
}

#[test]
fn error_messages_never_interpolate_the_cause() {
    let error = Error::Storage { context: StorageContext::AppendEntry, source: "disk I/O".to_string() };
    assert_eq!(error.message(), "storage failure during append-entry");
    assert_eq!(error.cause().map(|s| s.as_str()), Some("disk I/O"));
    let corrupt = Error::Corrupt { context: StorageContext::Queue };
    assert_eq!(corrupt.message(), "stored data violated store invariants during queue");
    assert_eq!(corrupt.cause(), None);
    let kind = Error::UnknownProducerKind { requested: "ghost".to_string() };
    assert_eq!(
        kind.message(),
        "unknown producer kind `ghost` (expected agent, operator, or factory)"
    );
    let version = Error::UnknownSchemaVersion { entry_type: EntryType::StageEvent, requested: 7 };
    assert_eq!(version.message(), "unknown schema version 7 for entry type `stage-event`");
}

#[test]
fn producer_kind_round_trips() {
    for kind in [ProducerKind::Agent, ProducerKind::Operator, ProducerKind::Factory] {
        let parsed = ProducerKind::parse(&kind.text()).unwrap();
        assert_eq!(parsed, kind);
    }
    assert!(matches!(
        ProducerKind::parse("ghost"),
        Err(Error::UnknownProducerKind { requested }) if requested == "ghost"
    ));
}

#[test]
fn entry_type_round_trips() {
    for entry_type in [EntryType::CardCreated, EntryType::Decision, EntryType::StageEvent] {
        let parsed = EntryType::parse(&entry_type.text()).unwrap();
        assert_eq!(parsed, entry_type);
    }
    assert!(matches!(
        EntryType::parse("gizmo"),
        Err(Error::UnknownEntryType { requested }) if requested == "gizmo"
    ));
}

fn decision(summary: &str, reason: &str) -> Payload {
    Payload::DecisionV1(DecisionV1 { summary: summary.to_string(), reason: reason.to_string() })
}

#[test]
fn from_raw_reports_the_requested_unknown_version() {
    assert!(matches!(
        Payload::from_parsed(EntryType::Decision, 999, decision("s", "r")),
        Err(Error::UnknownSchemaVersion { entry_type: EntryType::Decision, requested: 999 })
    ));
}

#[test]
fn from_raw_rejects_blank_required_fields() {
    let blank_decisions = [("", "r"), ("   ", "r"), ("s", ""), ("s", "\t ")];
    for (summary, reason) in blank_decisions {
        assert!(
            matches!(
                Payload::from_parsed(EntryType::Decision, CURRENT_SCHEMA_VERSION, decision(summary, reason)),
                Err(Error::BlankField { .. })
            ),
            "expected BlankField for {summary:?} {reason:?}"
        );
    }
    let created = Payload::CardCreatedV1(CardCreatedV1 {
        title: "  ".to_string(),
        task_key: None,
        workspace: None,
    });
    assert!(matches!(
        Payload::from_parsed(EntryType::CardCreated, CURRENT_SCHEMA_VERSION, created),
        Err(Error::BlankField { field }) if field == "title"
    ));
}

#[test]
fn from_raw_parses_card_created_with_absent_references() {
    let created = Payload::CardCreatedV1(CardCreatedV1 {
        title: "t".to_string(),
        task_key: None,
        workspace: None,
    });
    let payload =
        Payload::from_parsed(EntryType::CardCreated, CURRENT_SCHEMA_VERSION, created).unwrap();
    assert_eq!(payload.entry_type(), EntryType::CardCreated);
    assert_eq!(payload.schema_version(), CURRENT_SCHEMA_VERSION);
    match payload {
        Payload::CardCreatedV1(created) => {
            assert_eq!(created.title, "t");
            assert_eq!(created.task_key, None);
            assert_eq!(created.workspace, None);
        }
        Payload::DecisionV1(_) | Payload::StageEventV1(_) => panic!("parsed as the wrong variant"),
    }
}

#[test]
fn blank_decision_fields_are_named() {
    assert!(matches!(
        decision("", "r").validate(),
        Err(Error::BlankField { field }) if field == "decision summary"
    ));
    assert!(matches!(
        decision("s", " ").validate(),
        Err(Error::BlankField { field }) if field == "decision reason"
    ));
    assert!(decision("s", "r").validate().is_ok());
}

#[test]
fn stage_event_from_parts_rejects_duplicate_at_top_level() {
    let raw = r#"{"count": 1, "count": 2}"#;
    let tree = obj(vec![("count", scalar()), ("count", scalar())]);
    assert!(matches!(
        from_parts("summary", Some(raw), Some(&tree)),
        Err(Error::DuplicateJsonMember { name }) if name == "count"
    ));
}

#[test]
fn stage_event_from_parts_rejects_duplicate_nested_deep() {
    let raw = r#"{"outer": {"mid": {"count": 1, "count": 2}}}"#;
    let tree = obj(vec![(
        "outer",
        obj(vec![("mid", obj(vec![("count", scalar()), ("count", scalar())]))]),
    )]);
    assert!(matches!(
        from_parts("summary", Some(raw), Some(&tree)),
        Err(Error::DuplicateJsonMember { name }) if name == "count"
    ));
}

#[test]
fn stage_event_from_parts_rejects_duplicate_in_array_element() {
    let raw = r#"{"items": [{"a": 1, "a": 2}]}"#;
    let tree = obj(vec![("items", arr(vec![obj(vec![("a", scalar()), ("a", scalar())])]))]);
    assert!(matches!(
        from_parts("summary", Some(raw), Some(&tree)),
        Err(Error::DuplicateJsonMember { name }) if name == "a"
    ));
}

#[test]
fn stage_event_from_parts_rejects_non_object_payloads() {
    let non_objects = [
        ("[1,2,3]", arr(vec![scalar(), scalar(), scalar()]), "array"),
        ("\"just a string\"", scalar(), "string"),
        ("7", scalar(), "number"),
        ("true", scalar(), "boolean"),
        ("null", scalar(), "null"),
    ];
    for (payload_str, tree, desc) in non_objects {
        let result = from_parts("summary", Some(payload_str), Some(&tree));
        assert!(
            matches!(
                result,
                Err(Error::MalformedPayload { entry_type: EntryType::StageEvent, .. })
            ),
            "expected MalformedPayload for {desc}"
        );
    }
}

#[test]
fn stage_event_from_parts_rejects_text_that_is_not_json() {
    let result = from_parts("summary", Some("{not json"), None);
    match result {
        Err(Error::MalformedPayload { entry_type: EntryType::StageEvent, source }) => {
            assert!(!source.is_empty());
        }
        other => panic!("expected MalformedPayload, got {other:?}"),
    }
}

#[test]
fn stage_event_from_parts_rejects_cr_or_lf_in_summary() {
    assert!(matches!(
        from_parts("text\rwith cr", None, None),
        Err(Error::NotSingleLine { field }) if field == "summary"
    ));
    assert!(matches!(
        from_parts("text\nwith lf", None, None),
        Err(Error::NotSingleLine { field }) if field == "summary"
    ));
}

#[test]
fn duplicate_probe_traverses_well_formed_json() {
    let test_cases = [
        (obj(vec![]), "empty object"),
        (obj(vec![("a", scalar())]), "simple object"),
        (obj(vec![("outer", obj(vec![("inner", obj(vec![("deep", scalar())]))]))]), "nested object"),
        (arr(vec![scalar(), scalar(), scalar()]), "array"),
        (arr(vec![obj(vec![("a", scalar())]), obj(vec![("b", scalar())])]), "array of objects"),
        (scalar(), "scalar"),
        (
            obj(vec![
                (
                    "items",
                    arr(vec![
                        obj(vec![("x", scalar()), ("y", scalar())]),
                        obj(vec![("x", scalar()), ("y", scalar())]),
                    ]),
                ),
                ("nested", obj(vec![("a", arr(vec![scalar(), scalar(), scalar()]))])),
            ]),
            "complex mixed structure",
        ),
    ];
    for (tree, desc) in test_cases {
        assert_eq!(first_duplicate(&tree), None, "failed to traverse {desc}");
    }
}

#[test]
fn stage_event_nested_payload_round_trip() {
    let payload_str = r#"{"outer":{"inner":{"value":42}}}"#;
    let tree = obj(vec![("outer", obj(vec![("inner", obj(vec![("value", scalar())]))]))]);
    let result = Payload::stage_event_from_parts(
        CURRENT_SCHEMA_VERSION,
        "test".to_string(),
        "summary".to_string(),
        Some(payload_str),
        Some(&tree),
    );
    match result {
        Ok(Payload::StageEventV1(event)) => {
            assert_eq!(event.stage(), "test");
            assert_eq!(event.summary(), "summary");
            assert_eq!(event.payload().as_deref(), Some(payload_str));
        }
        other => panic!("expected a stage event, got {other:?}"),
    }
}

#[test]
fn stage_event_payload_is_held_in_compact_form() {
    let raw = "{ \"b\" : 1,\n  \"a\" : [true, null] }";
    let tree = obj(vec![("b", scalar()), ("a", arr(vec![scalar(), scalar()]))]);
    match from_parts("summary", Some(raw), Some(&tree)) {
        Ok(Payload::StageEventV1(event)) => {
            assert_eq!(event.payload().as_deref(), Some(r#"{"a":[true,null],"b":1}"#));
        }
        other => panic!("expected a stage event, got {other:?}"),
    }
}

#[test]
fn stage_event_from_parts_duplicate_with_later_sibling_top_level() {
    let raw = r#"{"dup":1,"dup":2,"later":"field"}"#;
    let tree = obj(vec![("dup", scalar()), ("dup", scalar()), ("later", scalar())]);
    assert!(matches!(
        from_parts("summary", Some(raw), Some(&tree)),
        Err(Error::DuplicateJsonMember { name }) if name == "dup"
    ));
}

#[test]
fn stage_event_from_parts_duplicate_nested_with_later_sibling() {
    let raw = r#"{"nested":{"dup":1,"dup":2},"later":"field"}"#;
    let tree = obj(vec![
        ("nested", obj(vec![("dup", scalar()), ("dup", scalar())])),
        ("later", scalar()),
    ]);
    assert!(matches!(
        from_parts("summary", Some(raw), Some(&tree)),
        Err(Error::DuplicateJsonMember { name }) if name == "dup"
    ));
}

#[test]
fn stage_event_from_parts_duplicate_array_with_later_members() {
    let raw = r#"{"items":[{"dup":1,"dup":2},{"other":3}],"later":"field"}"#;
    let tree = obj(vec![
        (
            "items",
            arr(vec![obj(vec![("dup", scalar()), ("dup", scalar())]), obj(vec![("other", scalar())])]),
        ),
        ("later", scalar()),
    ]);
    assert!(matches!(
        from_parts("summary", Some(raw), Some(&tree)),
        Err(Error::DuplicateJsonMember { name }) if name == "dup"
    ));
}

#[test]
fn a_member_name_may_recur_in_different_objects() {
    let tree = obj(vec![
        ("a", obj(vec![("x", scalar())])),
        ("b", obj(vec![("x", scalar())])),
    ]);
    assert_eq!(first_duplicate(&tree), None);
}

#[test]
fn the_unknown_version_is_refused_before_the_payload_is_read() {
    let tree = obj(vec![("dup", scalar()), ("dup", scalar())]);
    assert!(matches!(
        Payload::stage_event_from_parts(2, "s".to_string(), "x".to_string(), Some("{"), Some(&tree)),
        Err(Error::UnknownSchemaVersion { entry_type: EntryType::StageEvent, requested: 2 })
    ));
}

fn schema_expected() -> Vec<ExpectedMigration> {
    vec![
        ExpectedMigration { version: 1, checksum: vec![1] },
        ExpectedMigration { version: 2, checksum: vec![2] },
        ExpectedMigration { version: 3, checksum: vec![3] },
    ]
}

fn applied(rows: Vec<(i64, Vec<u8>, bool)>) -> Vec<AppliedMigration> {
    rows.into_iter()
        .map(|(version, checksum, success)| AppliedMigration { version, checksum, success })
        .collect()
}

#[test]
fn schema_comparison_precedence_covers_all_shapes() {
    let expected = schema_expected();
    let cases = [
        ("exact", applied(vec![(1, vec![1], true), (2, vec![2], true), (3, vec![3], true)]), None),
        ("empty", Vec::new(), Some(SchemaIncompatibility::Uninitialized)),
        (
            "behind",
            applied(vec![(1, vec![1], true)]),
            Some(SchemaIncompatibility::Behind {
                applied: 1,
                required: 3,
                next_required: MigrationVersion::new(2),
            }),
        ),
        (
            "ahead",
            applied(vec![(1, vec![1], true), (2, vec![2], true), (3, vec![3], true), (4, vec![4], true)]),
            Some(SchemaIncompatibility::Ahead { unknown_version: MigrationVersion::new(4) }),
        ),
        (
            "diverged",
            applied(vec![(1, vec![1], true), (9, vec![2], true)]),
            Some(SchemaIncompatibility::Diverged {
                expected: MigrationVersion::new(2),
                found: MigrationVersion::new(9),
            }),
        ),
        (
            "checksum",
            applied(vec![(1, vec![9], true)]),
            Some(SchemaIncompatibility::ChecksumMismatch { version: MigrationVersion::new(1) }),
        ),
        (
            "first mismatch",
            applied(vec![(8, vec![9], true), (9, vec![8], true)]),
            Some(SchemaIncompatibility::Diverged {
                expected: MigrationVersion::new(1),
                found: MigrationVersion::new(8),
            }),
        ),
    ];
    for (name, applied, want) in cases {
        assert_eq!(compare_schema(&expected, &applied), want, "{name}");
    }
    let dirty = vec![
        AppliedMigration { version: 1, checksum: vec![9], success: false },
        AppliedMigration { version: 9, checksum: vec![8], success: false },
    ];
    assert_eq!(
        compare_schema(&expected, &dirty),
        Some(SchemaIncompatibility::Dirty { version: MigrationVersion::new(1) })
    );
}

#[test]
fn incompatibilities_read_as_sentences() {
    assert_eq!(
        SchemaIncompatibility::Behind { applied: 1, required: 3, next_required: MigrationVersion::new(2) }.text(),
        "behind (1 of 3 migrations applied; next is 2)"
    );
    assert_eq!(
        SchemaIncompatibility::Ahead { unknown_version: MigrationVersion::new(4) }.text(),
        "ahead (unknown migration 4)"
    );
    assert_eq!(
        SchemaIncompatibility::Dirty { version: MigrationVersion::new(-3) }.text(),
        "dirty (migration -3 did not complete)"
    );
}

fn producer(id: &str, kind: ProducerKind) -> Producer {
    Producer { id: id.to_owned(), kind }
}

#[test]
fn identical_requests_fingerprint_equal() {
    let scribe = producer("scribe", ProducerKind::Agent);
    let first = payload_fingerprint(&decision("s", "r"), &scribe);
    let second = payload_fingerprint(&decision("s", "r"), &scribe);
    assert_eq!(first, second);
}

#[test]
fn each_differing_field_changes_the_fingerprint() {
    let scribe = producer("scribe", ProducerKind::Agent);
    let base = payload_fingerprint(&decision("s", "r"), &scribe);
    let variants = [
        payload_fingerprint(&decision("other", "r"), &scribe),
        payload_fingerprint(&decision("s", "other"), &scribe),
        payload_fingerprint(&decision("s", "r"), &producer("drafter", ProducerKind::Agent)),
        payload_fingerprint(&decision("s", "r"), &producer("scribe", ProducerKind::Operator)),
    ];
    for variant in variants {
        assert_ne!(base, variant);
    }
}

#[test]
fn fingerprints_are_canonical_json() {
    let fp = payload_fingerprint(&decision("s", "r\"q"), &producer("scribe", ProducerKind::Agent));
    assert_eq!(
        fp,
        r#"{"entry_type":"decision","payload":{"reason":"r\"q","summary":"s"},"producer_id":"scribe","producer_kind":"agent","schema_version":1}"#
    );
}

#[test]
fn payloads_serialize_with_members_in_key_order() {
    let created = Payload::CardCreatedV1(CardCreatedV1 {
        title: "t".to_string(),
        task_key: None,
        workspace: Some("repo".to_string()),
    });
    assert_eq!(payload_json(&created), r#"{"task_key":null,"title":"t","workspace":"repo"}"#);
    let tree = obj(vec![("n", scalar())]);
    let event = Payload::stage_event_from_parts(
        CURRENT_SCHEMA_VERSION,
        "build".to_string(),
        "did it".to_string(),
        Some("{ \"n\": 1 }"),
        Some(&tree),
    )
    .unwrap();
    assert_eq!(payload_json(&event), r#"{"payload":{"n":1},"stage":"build","summary":"did it"}"#);
    let bare = from_parts("s", None, None).unwrap();
    assert_eq!(payload_json(&bare), r#"{"stage":"stage","summary":"s"}"#);
}

#[test]
fn prechecks_refuse_before_the_store_is_touched() {
    let create = CreateCard {
        title: "  ".to_string(),
        task_key: None,
        workspace: None,
        producer: producer("op", ProducerKind::Operator),
        idempotency_key: None,
    };
    assert!(matches!(create_precheck(&create), Err(Error::BlankField { field }) if field == "title"));
    let nameless = CreateCard { producer: producer(" ", ProducerKind::Operator), ..create };
    assert!(matches!(
        create_precheck(&nameless),
        Err(Error::BlankField { field }) if field == "producer identity"
    ));
    let card_created = AppendEntry {
        card_id: CardId::from_text("c".to_string()),
        payload: Payload::CardCreatedV1(CardCreatedV1 { title: "t".to_string(), task_key: None, workspace: None }),
        producer: producer("op", ProducerKind::Operator),
        idempotency_key: None,
    };
    assert_eq!(
        append_precheck(&card_created),
        Err(Error::NotAppendable { entry_type: EntryType::CardCreated })
    );
    let good = AppendEntry { payload: decision("s", "r"), ..card_created };
    assert_eq!(append_precheck(&good), Ok(()));
}

#[test]
fn storage_codes_and_columns_are_read_strictly() {
    assert!(is_unique_code(Some("2067")));
    assert!(is_unique_code(Some("1555")));
    assert!(!is_unique_code(Some("19")));
    assert!(!is_unique_code(None));
    assert!(replays_after_failed_insert(true, Some("k")));
    assert!(!replays_after_failed_insert(true, None));
    assert!(!replays_after_failed_insert(false, Some("k")));
    assert_eq!(stored_count(3, StorageContext::Queue), Ok(3));
    assert_eq!(stored_count(-1, StorageContext::Queue), Err(Error::Corrupt { context: StorageContext::Queue }));
    assert_eq!(stored_version(1, StorageContext::ReadEntry), Ok(1));
    assert_eq!(
        stored_version(4_294_967_296, StorageContext::ReadEntry),
        Err(Error::Corrupt { context: StorageContext::ReadEntry })
    );
    assert_eq!(
        stored_names("decision", "factory", StorageContext::ReadHistory),
        Ok((EntryType::Decision, ProducerKind::Factory))
    );
    assert_eq!(
        stored_names("decision", "ghost", StorageContext::ReadHistory),
        Err(Error::Corrupt { context: StorageContext::ReadHistory })
    );
}

#[test]
fn the_console_shows_summaries_reasons_and_stages() {
    let shown = entry_display(&decision("decided", "because"));
    assert_eq!(shown.summary, "decided");
    assert_eq!(shown.reason.as_deref(), Some("because"));
    assert_eq!(shown.stage, None);
    let created = entry_display(&Payload::CardCreatedV1(CardCreatedV1 {
        title: "title".to_string(),
        task_key: None,
        workspace: None,
    }));
    assert_eq!(created.summary, "title");
    let event = entry_display(&from_parts("went fine", None, None).unwrap());
    assert_eq!(event.summary, "went fine");
    assert_eq!(event.stage.as_deref(), Some("stage"));
    assert_eq!(
        history_failure_page(&Error::CardNotFound { card_id: CardId::from_text("x".to_string()) }),
        (404, "Card not found")
    );
    assert_eq!(history_failure_page(&Error::Corrupt { context: StorageContext::ReadHistory }), (500, "storage failed"));
    assert_eq!(
        entry_failure_page(&Error::EntryNotFound {
            card_id: CardId::from_text("x".to_string()),
            entry_id: EntryId::from_text("y".to_string())
        }),
        (404, "entry not found")
    );
}

#[test]
fn the_version_is_checked_before_the_payload() {
    assert_eq!(check_version(EntryType::Decision, CURRENT_SCHEMA_VERSION), Ok(()));
    assert_eq!(
        check_version(EntryType::StageEvent, 2),
        Err(Error::UnknownSchemaVersion { entry_type: EntryType::StageEvent, requested: 2 })
    );
}

#[test]
fn string_literals_escape_quotes_backslashes_and_control_characters() {
    assert_eq!(
        payload_json(&decision("a\u{1}b\u{1f}", "t\tq\"\\\u{8}\u{c}\r\n")),
        "{\"reason\":\"t\\tq\\\"\\\\\\b\\f\\r\\n\",\"summary\":\"a\\u0001b\\u001f\"}"
    );
    assert_eq!(payload_json(&decision("é/\u{7f}", "ok")), "{\"reason\":\"ok\",\"summary\":\"é/\u{7f}\"}");
}

#[test]
fn history_fields_decision_format() {
    let payload = Payload::DecisionV1(DecisionV1 {
        summary: "decided".to_string(),
        reason: "because".to_string(),
    });
    let fields = payload.history_fields().unwrap();
    assert_eq!(fields.len(), 1, "decision should have exactly one key");
    assert!(
        fields.iter().any(|(key, _)| key == "payload"),
        "decision should have payload key"
    );
    assert_eq!(fields[0].1, "{\"reason\":\"because\",\"summary\":\"decided\"}");
}

#[test]
fn history_fields_stage_event_no_payload() {
    let payload = Payload::StageEventV1(
        StageEventV1::validated("test".to_string(), "summary".to_string(), None).unwrap(),
    );
    let fields = payload.history_fields().unwrap();
    assert!(
        fields.iter().any(|(key, _)| key == "stage"),
        "stage event should have stage key"
    );
    assert!(
        fields.iter().any(|(key, _)| key == "summary"),
        "stage event should have summary key"
    );
    assert!(
        !fields.iter().any(|(key, _)| key == "payload"),
        "stage event without payload should NOT have payload key"
    );
}

#[test]
fn history_fields_stage_event_payload_comes_first_in_key_order() {
    let payload = Payload::StageEventV1(
        StageEventV1::validated(
            "review".to_string(),
            "looked".to_string(),
            Some("{\"n\":1}".to_string()),
        )
        .unwrap(),
    );
    let fields = payload.history_fields().unwrap();
    let keys: Vec<&str> = fields.iter().map(|(key, _)| key.as_str()).collect();
    assert_eq!(keys, ["payload", "stage", "summary"]);
    assert_eq!(fields[0].1, "{\"n\":1}");
    assert_eq!(fields[1].1, "\"review\"");
}

#[test]
fn generated_identities_are_version_seven_uuid_texts() {
    for text in [CardId::generate().as_str().to_string(), EntryId::generate().as_str().to_string()] {
        let chars: Vec<char> = text.chars().collect();
        assert_eq!(chars.len(), 36, "{text}");
        for (i, c) in chars.iter().enumerate() {
            if [8, 13, 18, 23].contains(&i) {
                assert_eq!(*c, '-', "{text}");
            } else {
                assert!(c.is_ascii_digit() || ('a'..='f').contains(c), "{text}");
            }
        }
        assert_eq!(chars[14], '7');
        assert!(['8', '9', 'a', 'b'].contains(&chars[19]));
    }
    assert_ne!(CardId::generate(), CardId::generate());
}
