//! The Card domain: identities, provenance, and the closed, versioned
//! entry vocabulary with its validation rules.
use vstd::prelude::*;

use crate::card::json::{json_quote, json_string};
use crate::card::error::Error;
use crate::card::json::{dup_value, first_duplicate, json_object_error, json_object_text, parse_json_object, JsonValue};
use crate::text::{chars_of, copy_string, has_char, is_blank, push_str, str_eq, string_from, trim_ws};

verus! {

/// The current payload schema version for every entry type.
pub const CURRENT_SCHEMA_VERSION: u32 = 1;

/// A lowercase hexadecimal digit.
pub open spec fn is_lower_hex(c: char) -> bool {
    ('0' <= c && c <= '9') || ('a' <= c && c <= 'f')
}

/// Whether `s` is the hyphenated lowercase text of a UUID of `version`:
/// 36 characters, hyphens at 8, 13, 18 and 23 and lowercase hexadecimal
/// digits elsewhere, the version digit at 14 and the RFC 9562 variant
/// digit (`8`, `9`, `a` or `b`) at 19.
pub open spec fn is_uuid_text(s: Seq<char>, version: char) -> bool {
    &&& s.len() == 36
    &&& forall|i: int|
        0 <= i < 36 ==> if i == 8 || i == 13 || i == 18 || i == 23 {
            #[trigger] s[i] == '-'
        } else {
            is_lower_hex(s[i])
        }
    &&& s[14] == version
    &&& (s[19] == '8' || s[19] == '9' || s[19] == 'a' || s[19] == 'b')
}

/// Whether `s` is the hyphenated lowercase text of a version-7 UUID.
pub open spec fn is_v7_text(s: Seq<char>) -> bool {
    is_uuid_text(s, '7')
}

/// `uuid::Uuid::now_v7().to_string()`: a fresh time-ordered identifier in
/// its hyphenated lowercase text form (`Display` writes the hyphenated
/// lowercase form; `now_v7` sets the version nibble to 7 and the RFC 9562
/// variant bits). Which identifier comes back is not stated: it depends
/// on the clock and on chance.
#[verifier::external_body]
fn fresh_v7() -> (r: String)
    ensures
        is_v7_text(r@),
{
    uuid::Uuid::now_v7().to_string()
}

/// Daemar-assigned durable Card identity; opaque to consumers.
#[derive(Debug, Clone, PartialEq, Eq)]
pub struct CardId(String);

impl View for CardId {
    type V = Seq<char>;

    closed spec fn view(&self) -> Seq<char> {
        self.0@
    }
}

impl CardId {
    /// A fresh identity: the text of a version-7 UUID, which orders by
    /// creation time.
    pub fn generate() -> (r: CardId)
        ensures
            is_v7_text(r@),
    {
        CardId(fresh_v7())
    }

    /// The identity as text.
    pub fn as_str(&self) -> (r: &str)
        ensures
            r@ == self@,
    {
        self.0.as_str()
    }

    /// An identity from its text.
    pub fn from_text(value: String) -> (r: CardId)
        ensures
            r@ == value@,
    {
        CardId(value)
    }
}

/// Daemar-assigned entry identity.
#[derive(Debug, Clone, PartialEq, Eq)]
pub struct EntryId(String);

impl View for EntryId {
    type V = Seq<char>;

    closed spec fn view(&self) -> Seq<char> {
        self.0@
    }
}

impl EntryId {
    /// A fresh identity: the text of a version-7 UUID, which orders by
    /// creation time.
    pub fn generate() -> (r: EntryId)
        ensures
            is_v7_text(r@),
    {
        EntryId(fresh_v7())
    }

    /// The identity as text.
    pub fn as_str(&self) -> (r: &str)
        ensures
            r@ == self@,
    {
        self.0.as_str()
    }

    /// An identity from its text.
    pub fn from_text(value: String) -> (r: EntryId)
        ensures
            r@ == value@,
    {
        EntryId(value)
    }
}

/// Who claims to have produced an entry; recorded verbatim.
#[derive(Debug, Clone)]
pub struct Producer {
    /// The producer's self-reported identity.
    pub id: String,
    /// What kind of actor the producer claims to be.
    pub kind: ProducerKind,
}

/// The closed set of producer kinds.
#[derive(Debug, Clone, Copy, PartialEq, Eq, Structural)]
pub enum ProducerKind {
    /// A coding agent.
    Agent,
    /// A human operator.
    Operator,
    /// The factory control plane itself.
    Factory,
}

/// The wire name of a producer kind.
pub open spec fn producer_kind_text(k: ProducerKind) -> Seq<char> {
    match k {
        ProducerKind::Agent => "agent"@,
        ProducerKind::Operator => "operator"@,
        ProducerKind::Factory => "factory"@,
    }
}

impl ProducerKind {
    /// Parses a wire name; anything else is refused.
    pub fn parse(s: &str) -> (r: Result<ProducerKind, Error>)
        ensures
            r matches Ok(k) ==> producer_kind_text(k) == s@,
            r is Err ==> (forall|k: ProducerKind| producer_kind_text(k) != s@),
            r matches Err(e) ==> e is UnknownProducerKind && e->UnknownProducerKind_requested@
                == s@,
    {
        proof {
            reveal_strlit("agent");
            reveal_strlit("operator");
            reveal_strlit("factory");
        }
        if str_eq(s, "agent") {
            Ok(ProducerKind::Agent)
        } else if str_eq(s, "operator") {
            Ok(ProducerKind::Operator)
        } else if str_eq(s, "factory") {
            Ok(ProducerKind::Factory)
        } else {
            Err(Error::UnknownProducerKind { requested: string_from(s) })
        }
    }

    /// The wire name.
    pub fn text(&self) -> (r: String)
        ensures
            r@ == producer_kind_text(*self),
    {
        match self {
            ProducerKind::Agent => string_from("agent"),
            ProducerKind::Operator => string_from("operator"),
            ProducerKind::Factory => string_from("factory"),
        }
    }
}

/// No two producer kinds share a wire name, so a kind's name always reads
/// back as that kind.
pub proof fn law_producer_kind_names_are_distinct(a: ProducerKind, b: ProducerKind)
    requires
        producer_kind_text(a) == producer_kind_text(b),
    ensures
        a == b,
{
    reveal_strlit("agent");
    reveal_strlit("operator");
    reveal_strlit("factory");
    assert("agent"@[0] != "operator"@[0]);
    assert("agent"@[0] != "factory"@[0]);
    assert("operator"@[0] != "factory"@[0]);
}

/// The closed entry vocabulary.
#[derive(Debug, Clone, Copy, PartialEq, Eq, Structural)]
pub enum EntryType {
    /// The Card's opening entry, always at sequence 1.
    CardCreated,
    /// A workflow decision with its reason.
    Decision,
    /// A free-form record of what a stage did.
    StageEvent,
}

/// The wire name of an entry type.
pub open spec fn entry_type_text(t: EntryType) -> Seq<char> {
    match t {
        EntryType::CardCreated => "card-created"@,
        EntryType::Decision => "decision"@,
        EntryType::StageEvent => "stage-event"@,
    }
}

impl EntryType {
    /// Parses a wire name; anything else is refused.
    pub fn parse(s: &str) -> (r: Result<EntryType, Error>)
        ensures
            r matches Ok(t) ==> entry_type_text(t) == s@,
            r is Err ==> (forall|t: EntryType| entry_type_text(t) != s@),
            r matches Err(e) ==> e is UnknownEntryType && e->UnknownEntryType_requested@ == s@,
    {
        proof {
            reveal_strlit("card-created");
            reveal_strlit("decision");
            reveal_strlit("stage-event");
        }
        if str_eq(s, "card-created") {
            Ok(EntryType::CardCreated)
        } else if str_eq(s, "decision") {
            Ok(EntryType::Decision)
        } else if str_eq(s, "stage-event") {
            Ok(EntryType::StageEvent)
        } else {
            Err(Error::UnknownEntryType { requested: string_from(s) })
        }
    }

    /// The wire name.
    pub fn text(&self) -> (r: String)
        ensures
            r@ == entry_type_text(*self),
    {
        match self {
            EntryType::CardCreated => string_from("card-created"),
            EntryType::Decision => string_from("decision"),
            EntryType::StageEvent => string_from("stage-event"),
        }
    }
}

/// No two entry types share a wire name, so a type's name always reads
/// back as that type.
pub proof fn law_entry_type_names_are_distinct(a: EntryType, b: EntryType)
    requires
        entry_type_text(a) == entry_type_text(b),
    ensures
        a == b,
{
    reveal_strlit("card-created");
    reveal_strlit("decision");
    reveal_strlit("stage-event");
    assert("card-created"@[0] != "decision"@[0]);
    assert("card-created"@[0] != "stage-event"@[0]);
    assert("decision"@[0] != "stage-event"@[0]);
}

// ── Payloads ────────────────────────────────────────────────────────────────

/// The `card-created` payload, version 1: the Card's opening metadata.
#[derive(Debug, Clone, PartialEq, Eq)]
pub struct CardCreatedV1 {
    /// Human-facing title of the task the Card accompanies.
    pub title: String,
    /// Optional external task key; retained metadata, never identity.
    pub task_key: Option<String>,
    /// Optional repository or workspace reference.
    pub workspace: Option<String>,
}

/// The `decision` payload, version 1: a workflow decision and its reason.
#[derive(Debug, Clone, PartialEq, Eq)]
pub struct DecisionV1 {
    /// What was decided.
    pub summary: String,
    /// Why it was decided.
    pub reason: String,
}

/// The `stage-event` payload, version 1: a free-form record of what a
/// stage did; its optional payload is a JSON object, held as its text.
#[derive(Debug, Clone, PartialEq, Eq)]
pub struct StageEventV1 {
    stage: String,
    summary: String,
    payload: Option<String>,
}

/// The mathematical form of a [`StageEventV1`].
pub struct StageEventV {
    pub stage: Seq<char>,
    pub summary: Seq<char>,
    pub payload: Option<Seq<char>>,
}

/// The text of an optional string.
pub open spec fn opt_string(o: Option<String>) -> Option<Seq<char>> {
    match o {
        Some(s) => Some(s@),
        None => None,
    }
}

impl View for StageEventV1 {
    type V = StageEventV;

    closed spec fn view(&self) -> StageEventV {
        StageEventV {
            stage: self.stage@,
            summary: self.summary@,
            payload: opt_string(self.payload),
        }
    }
}

/// Whether a required text is blank: empty or whitespace only.
pub open spec fn blank(s: Seq<char>) -> bool {
    trim_ws(s).len() == 0
}

/// Refuses empty or whitespace-only required text.
pub fn require_text(value: &str, field: &str) -> (r: Result<(), Error>)
    ensures
        r is Ok <==> !blank(value@),
        r matches Err(e) ==> e is BlankField && e->BlankField_field@ == field@,
{
    let v = chars_of(value);
    if is_blank(&v) {
        Err(Error::BlankField { field: string_from(field) })
    } else {
        Ok(())
    }
}

/// Whether a summary holds a line break.
pub open spec fn has_line_break(s: Seq<char>) -> bool {
    s.contains('\r') || s.contains('\n')
}

/// The verdict on a stage event's fields: both non-blank (stage first),
/// the summary on one line.
pub open spec fn stage_event_ok(stage: Seq<char>, summary: Seq<char>) -> bool {
    !blank(stage) && !blank(summary) && !has_line_break(summary)
}

/// The failure that refuses a stage event's fields: a blank stage first,
/// then a blank summary, then a summary with a line break.
pub open spec fn stage_event_field_error(stage: Seq<char>, summary: Seq<char>, e: Error) -> bool {
    if blank(stage) {
        e is BlankField && e->BlankField_field@ == "stage"@
    } else if blank(summary) {
        e is BlankField && e->BlankField_field@ == "summary"@
    } else {
        e is NotSingleLine && e->NotSingleLine_field@ == "summary"@
    }
}

/// Validates a stage event's fields: stage and summary non-blank, summary
/// without CR or LF.
pub fn validate_stage_event_fields(stage: &str, summary: &str) -> (r: Result<(), Error>)
    ensures
        r is Ok <==> stage_event_ok(stage@, summary@),
        r matches Err(e) ==> stage_event_field_error(stage@, summary@, e),
{
    match require_text(stage, "stage") {
        Err(e) => {
            return Err(e);
        },
        Ok(()) => {},
    }
    match require_text(summary, "summary") {
        Err(e) => {
            return Err(e);
        },
        Ok(()) => {},
    }
    let v = chars_of(summary);
    if has_char(&v, '\r') || has_char(&v, '\n') {
        return Err(Error::NotSingleLine { field: string_from("summary") });
    }
    Ok(())
}

impl StageEventV1 {
    /// A stage event whose fields pass [`validate_stage_event_fields`].
    pub fn validated(stage: String, summary: String, payload: Option<String>) -> (r: Result<
        StageEventV1,
        Error,
    >)
        ensures
            r is Ok <==> stage_event_ok(stage@, summary@),
            r matches Ok(ev) ==> ev@.stage == stage@ && ev@.summary == summary@ && ev@.payload
                == opt_string(payload),
            r matches Err(e) ==> stage_event_field_error(stage@, summary@, e),
    {
        match validate_stage_event_fields(stage.as_str(), summary.as_str()) {
            Err(e) => Err(e),
            Ok(()) => Ok(StageEventV1 { stage, summary, payload }),
        }
    }

    /// The producer-chosen stage name.
    pub fn stage(&self) -> (r: &String)
        ensures
            r@ == self@.stage,
    {
        &self.stage
    }

    /// The one-line summary.
    pub fn summary(&self) -> (r: &String)
        ensures
            r@ == self@.summary,
    {
        &self.summary
    }

    /// The optional JSON object payload, as text.
    pub fn payload(&self) -> (r: &Option<String>)
        ensures
            opt_string(*r) == self@.payload,
    {
        &self.payload
    }
}

/// A validated, typed, versioned entry payload: a `Payload` in hand is
/// storable.
#[derive(Debug, Clone, PartialEq, Eq)]
pub enum Payload {
    /// `card-created` version 1.
    CardCreatedV1(CardCreatedV1),
    /// `decision` version 1.
    DecisionV1(DecisionV1),
    /// `stage-event` version 1.
    StageEventV1(StageEventV1),
}

/// Whether a payload's required content is present: a card's title; a
/// decision's summary and reason; a stage event's fields.
pub open spec fn payload_ok(p: Payload) -> bool {
    match p {
        Payload::CardCreatedV1(c) => !blank(c.title@),
        Payload::DecisionV1(d) => !blank(d.summary@) && !blank(d.reason@),
        Payload::StageEventV1(e) => stage_event_ok(e@.stage, e@.summary),
    }
}

/// The failure that refuses a payload's content: the first required field
/// that is blank, or for a stage event the failure of its fields.
pub open spec fn payload_refusal(p: Payload, e: Error) -> bool {
    match p {
        Payload::CardCreatedV1(_) => e is BlankField && e->BlankField_field@ == "title"@,
        Payload::DecisionV1(d) => e is BlankField && e->BlankField_field@ == (if blank(
            d.summary@,
        ) {
            "decision summary"@
        } else {
            "decision reason"@
        }),
        Payload::StageEventV1(ev) => stage_event_field_error(ev@.stage, ev@.summary, e),
    }
}

/// The entry type a payload belongs to.
pub open spec fn payload_type(p: Payload) -> EntryType {
    match p {
        Payload::CardCreatedV1(_) => EntryType::CardCreated,
        Payload::DecisionV1(_) => EntryType::Decision,
        Payload::StageEventV1(_) => EntryType::StageEvent,
    }
}

impl Payload {
    /// Required content must not be blank; optional references are exempt.
    pub fn validate(&self) -> (r: Result<(), Error>)
        ensures
            r is Ok <==> payload_ok(*self),
            r matches Err(e) ==> payload_refusal(*self, e),
    {
        match self {
            Payload::CardCreatedV1(created) => require_text(created.title.as_str(), "title"),
            Payload::DecisionV1(decision) => {
                match require_text(decision.summary.as_str(), "decision summary") {
                    Err(e) => Err(e),
                    Ok(()) => require_text(decision.reason.as_str(), "decision reason"),
                }
            },
            Payload::StageEventV1(event) => validate_stage_event_fields(
                event.stage.as_str(),
                event.summary.as_str(),
            ),
        }
    }

    /// The entry type this payload belongs to.
    pub fn entry_type(&self) -> (r: EntryType)
        ensures
            r == payload_type(*self),
    {
        match self {
            Payload::CardCreatedV1(_) => EntryType::CardCreated,
            Payload::DecisionV1(_) => EntryType::Decision,
            Payload::StageEventV1(_) => EntryType::StageEvent,
        }
    }

    /// The schema version this payload was validated as.
    pub fn schema_version(&self) -> (r: u32)
        ensures
            r == CURRENT_SCHEMA_VERSION,
    {
        CURRENT_SCHEMA_VERSION
    }

    /// A payload parsed from raw producer JSON into `parsed`, once its
    /// claimed type and version are known: the version must be one this
    /// build validates, and the content must pass [`Payload::validate`].
    pub fn from_parsed(entry_type: EntryType, schema_version: u32, parsed: Payload) -> (r: Result<
        Payload,
        Error,
    >)
        requires
            payload_type(parsed) == entry_type,
        ensures
            schema_version != CURRENT_SCHEMA_VERSION ==> r == Err::<Payload, Error>(
                Error::UnknownSchemaVersion { entry_type, requested: schema_version },
            ),
            schema_version == CURRENT_SCHEMA_VERSION ==> (r is Ok <==> payload_ok(parsed)),
            r matches Ok(p) ==> p == parsed,
            schema_version == CURRENT_SCHEMA_VERSION ==> (r matches Err(e) ==> payload_refusal(
                parsed,
                e,
            )),
    {
        if schema_version != CURRENT_SCHEMA_VERSION {
            return Err(Error::UnknownSchemaVersion { entry_type, requested: schema_version });
        }
        match parsed.validate() {
            Err(e) => Err(e),
            Ok(()) => Ok(parsed),
        }
    }

    /// A stage-event payload from its parts. `raw_payload`, when present,
    /// must hold a JSON object with no member name twice at any depth;
    /// `tree` is `raw_payload` read as a document tree, `None` when it is
    /// not well-formed JSON.
    pub fn stage_event_from_parts(
        schema_version: u32,
        stage: String,
        summary: String,
        raw_payload: Option<&str>,
        tree: Option<&JsonValue>,
    ) -> (r: Result<Payload, Error>)
        ensures
            stage_event_parts_result(
                schema_version,
                stage@,
                summary@,
                opt_str_view(raw_payload),
                opt_tree(tree),
                r,
            ),
    {
        if schema_version != CURRENT_SCHEMA_VERSION {
            return Err(
                Error::UnknownSchemaVersion {
                    entry_type: EntryType::StageEvent,
                    requested: schema_version,
                },
            );
        }
        let payload = match raw_payload {
            Some(raw) => {
                match tree {
                    Some(t) => match first_duplicate(t) {
                        Some(name) => {
                            return Err(Error::DuplicateJsonMember { name });
                        },
                        None => {},
                    },
                    None => {},
                }
                match parse_json_object(raw) {
                    Ok(text) => Some(text),
                    Err(source) => {
                        return Err(
                            Error::MalformedPayload { entry_type: EntryType::StageEvent, source },
                        );
                    },
                }
            },
            None => None,
        };
        match StageEventV1::validated(stage, summary, payload) {
            Ok(ev) => Ok(Payload::StageEventV1(ev)),
            Err(e) => Err(e),
        }
    }
}

/// The view of an optional borrowed text.
pub open spec fn opt_str_view(o: Option<&str>) -> Option<Seq<char>> {
    match o {
        Some(t) => Some(t@),
        None => None,
    }
}

/// An optional borrowed document tree, by value.
pub open spec fn opt_tree(o: Option<&JsonValue>) -> Option<JsonValue> {
    match o {
        Some(t) => Some(*t),
        None => None,
    }
}

/// What [`Payload::stage_event_from_parts`] answers for its parts. The
/// schema version is checked first; then a payload, when one is given,
/// must have no member name twice at any depth (as `tree`, the payload
/// read as a document tree, shows) and must be a JSON object; then the
/// fields must pass [`validate_stage_event_fields`]. What is accepted is
/// a stage event carrying exactly these parts, the payload re-serialised.
pub open spec fn stage_event_parts_result(
    schema_version: u32,
    stage: Seq<char>,
    summary: Seq<char>,
    raw_payload: Option<Seq<char>>,
    tree: Option<JsonValue>,
    r: Result<Payload, Error>,
) -> bool {
    let dup = match (raw_payload, tree) {
        (Some(_), Some(t)) => dup_value(t),
        _ => None,
    };
    if schema_version != CURRENT_SCHEMA_VERSION {
        r == Err::<Payload, Error>(
            Error::UnknownSchemaVersion { entry_type: EntryType::StageEvent, requested: schema_version },
        )
    } else if dup is Some {
        r matches Err(e) && e is DuplicateJsonMember && e->DuplicateJsonMember_name@ == dup->0
    } else if raw_payload is Some && json_object_text(raw_payload->0) is None {
        r matches Err(e) && e is MalformedPayload && e->MalformedPayload_entry_type
            == EntryType::StageEvent && e->MalformedPayload_source@ == json_object_error(
            raw_payload->0,
        )
    } else if !stage_event_ok(stage, summary) {
        r matches Err(e) && stage_event_field_error(stage, summary, e)
    } else {
        r matches Ok(p) && p matches Payload::StageEventV1(ev) && ev@.stage == stage
            && ev@.summary == summary && ev@.payload == match raw_payload {
            None => None::<Seq<char>>,
            Some(raw) => json_object_text(raw),
        }
    }
}

/// An optional text as JSON: `null` when absent.
pub open spec fn opt_json(o: Option<Seq<char>>) -> Seq<char> {
    match o {
        None => "null"@,
        Some(s) => json_string(s),
    }
}

/// A payload as compact JSON with its members in key order: how it is
/// stored and fingerprinted. A stage event's optional payload object is
/// held as compact JSON text already and is carried as it is.
pub open spec fn payload_json_text(p: Payload) -> Seq<char> {
    match p {
        Payload::CardCreatedV1(c) => "{\"task_key\":"@ + opt_json(opt_string(c.task_key))
            + ",\"title\":"@ + json_string(c.title@) + ",\"workspace\":"@ + opt_json(
            opt_string(c.workspace),
        ) + "}"@,
        Payload::DecisionV1(d) => "{\"reason\":"@ + json_string(d.reason@) + ",\"summary\":"@
            + json_string(d.summary@) + "}"@,
        Payload::StageEventV1(e) => "{"@ + match e@.payload {
            Some(t) => "\"payload\":"@ + t + ","@,
            None => Seq::empty(),
        } + "\"stage\":"@ + json_string(e@.stage) + ",\"summary\":"@ + json_string(e@.summary)
            + "}"@,
    }
}

fn push_opt_json(s: &mut String, o: &Option<String>)
    ensures
        final(s)@ == old(s)@ + opt_json(opt_string(*o)),
{
    match o {
        None => push_str(s, "null"),
        Some(t) => {
            let q = json_quote(t.as_str());
            push_str(s, q.as_str());
        },
    }
}

/// The payload as compact JSON with its members in key order.
pub fn payload_json(p: &Payload) -> (r: String)
    ensures
        r@ == payload_json_text(*p),
{
    match p {
        Payload::CardCreatedV1(c) => {
            let mut s = string_from("{\"task_key\":");
            push_opt_json(&mut s, &c.task_key);
            push_str(&mut s, ",\"title\":");
            push_str(&mut s, json_quote(c.title.as_str()).as_str());
            push_str(&mut s, ",\"workspace\":");
            push_opt_json(&mut s, &c.workspace);
            push_str(&mut s, "}");
            s
        },
        Payload::DecisionV1(d) => {
            let mut s = string_from("{\"reason\":");
            push_str(&mut s, json_quote(d.reason.as_str()).as_str());
            push_str(&mut s, ",\"summary\":");
            push_str(&mut s, json_quote(d.summary.as_str()).as_str());
            push_str(&mut s, "}");
            s
        },
        Payload::StageEventV1(e) => {
            let mut s = string_from("{");
            match &e.payload {
                Some(t) => {
                    push_str(&mut s, "\"payload\":");
                    push_str(&mut s, t.as_str());
                    push_str(&mut s, ",");
                },
                None => {},
            }
            push_str(&mut s, "\"stage\":");
            push_str(&mut s, json_quote(e.stage.as_str()).as_str());
            push_str(&mut s, ",\"summary\":");
            push_str(&mut s, json_quote(e.summary.as_str()).as_str());
            push_str(&mut s, "}");
            proof {
                assert(s@ =~= payload_json_text(*p));
            }
            s
        },
    }
}

/// The entry-level members a payload contributes to a `card history`
/// record, each with its value as compact JSON, in key order: a card-created
/// or decision entry nests its whole payload under `payload`; a stage event
/// contributes `stage` and `summary`, and `payload` only when it has one.
pub open spec fn history_members(p: Payload) -> Seq<(Seq<char>, Seq<char>)> {
    match p {
        Payload::StageEventV1(ev) => {
            let fields = seq![
                ("stage"@, json_string(ev@.stage)),
                ("summary"@, json_string(ev@.summary)),
            ];
            match ev@.payload {
                Some(t) => seq![("payload"@, t)] + fields,
                None => fields,
            }
        },
        _ => seq![("payload"@, payload_json_text(p))],
    }
}

/// The views of named JSON members.
pub open spec fn members_view(v: Seq<(String, String)>) -> Seq<(Seq<char>, Seq<char>)> {
    v.map_values(|m: (String, String)| (m.0@, m.1@))
}

impl Payload {
    /// The entry-level members this payload contributes to a `card history`
    /// record; see [`history_members`].
    pub fn history_fields(&self) -> (r: Result<Vec<(String, String)>, Error>)
        ensures
            r matches Ok(v) && members_view(v@) == history_members(*self),
    {
        let mut v: Vec<(String, String)> = Vec::new();
        match self {
            Payload::StageEventV1(e) => {
                match &e.payload {
                    Some(t) => {
                        v.push((string_from("payload"), copy_string(t)));
                    },
                    None => {},
                }
                v.push((string_from("stage"), json_quote(e.stage.as_str())));
                v.push((string_from("summary"), json_quote(e.summary.as_str())));
            },
            _ => {
                v.push((string_from("payload"), payload_json(self)));
            },
        }
        proof {
            assert(members_view(v@) =~= history_members(*self));
        }
        Ok(v)
    }
}

/// Whether this build validates `schema_version` for `entry_type`: the
/// version is checked before the payload is read.
pub fn check_version(entry_type: EntryType, schema_version: u32) -> (r: Result<(), Error>)
    ensures
        schema_version == CURRENT_SCHEMA_VERSION ==> r is Ok,
        schema_version != CURRENT_SCHEMA_VERSION ==> r == Err::<(), Error>(
            Error::UnknownSchemaVersion { entry_type, requested: schema_version },
        ),
{
    if schema_version == CURRENT_SCHEMA_VERSION {
        Ok(())
    } else {
        Err(Error::UnknownSchemaVersion { entry_type, requested: schema_version })
    }
}

/// A request to open a Card for a real task.
#[derive(Debug)]
pub struct CreateCard {
    /// Human-facing title of the task.
    pub title: String,
    /// Optional external task key; absent stays absent.
    pub task_key: Option<String>,
    /// Optional repository or workspace reference.
    pub workspace: Option<String>,
    /// Who is opening the Card.
    pub producer: Producer,
    /// Optional retry token.
    pub idempotency_key: Option<String>,
}

/// A request to append one validated entry.
#[derive(Debug)]
pub struct AppendEntry {
    /// The Card to append to.
    pub card_id: CardId,
    /// The validated payload.
    pub payload: Payload,
    /// Who is appending.
    pub producer: Producer,
    /// Optional retry token.
    pub idempotency_key: Option<String>,
}

/// What an accepted, or idempotently replayed, append returns.
#[derive(Debug, Clone)]
pub struct Accepted {
    /// The entry's identity.
    pub entry_id: EntryId,
    /// The entry's per-Card sequence.
    pub sequence: u64,
}

/// The payload a new Card opens with, derived from its request.
pub fn card_created_payload(request: &CreateCard) -> (r: Payload)
    ensures
        r == Payload::CardCreatedV1(
            CardCreatedV1 {
                title: request.title,
                task_key: request.task_key,
                workspace: request.workspace,
            },
        ),
{
    Payload::CardCreatedV1(
        CardCreatedV1 {
            title: request.title.clone(),
            task_key: request.task_key.clone(),
            workspace: request.workspace.clone(),
        },
    )
}

} // verus!
