//! Schema compatibility: whether a database's applied migration history
//! matches the migrations this build embeds, and if not, how.
use vstd::prelude::*;

use crate::card::json::{json_quote, json_string, lemma_json_string_opens, lemma_json_string_prefix};
use crate::card::domain::{
    blank, entry_type_text, law_entry_type_names_are_distinct,
    law_producer_kind_names_are_distinct, opt_json, opt_string, payload_json, payload_json_text,
    payload_type, producer_kind_text, require_text, AppendEntry, CreateCard, EntryType, Payload,
    Producer, ProducerKind, CURRENT_SCHEMA_VERSION,
};
use crate::card::error::Error;
use crate::text::{dec, idec, push_int, push_str, push_u64, str_eq, string_from};

verus! {

/// A migration's version number.
#[derive(Debug, Clone, Copy, PartialEq, Eq, Structural)]
pub struct MigrationVersion(pub i64);

impl View for MigrationVersion {
    type V = i64;

    closed spec fn view(&self) -> i64 {
        self.0
    }
}

impl MigrationVersion {
    /// A version from its number.
    pub fn new(version: i64) -> (r: MigrationVersion)
        ensures
            r@ == version,
    {
        MigrationVersion(version)
    }

    /// The version number.
    pub fn get(self) -> (r: i64)
        ensures
            r == self@,
    {
        self.0
    }

    /// The version in decimal.
    pub fn text(self) -> (r: String)
        ensures
            r@ == idec(self@ as int),
    {
        let mut s = String::new();
        push_int(&mut s, self.0);
        s
    }
}

/// How a database's migration history fails to match this build.
#[derive(Debug, Clone, Copy, PartialEq, Eq, Structural)]
pub enum SchemaIncompatibility {
    /// A migration was recorded as not having completed.
    Dirty { version: MigrationVersion },
    /// No migration was ever applied.
    Uninitialized,
    /// An applied migration is not the one this build expects there.
    Diverged { expected: MigrationVersion, found: MigrationVersion },
    /// An applied migration's checksum differs from this build's.
    ChecksumMismatch { version: MigrationVersion },
    /// Fewer migrations are applied than this build requires.
    Behind { applied: usize, required: usize, next_required: MigrationVersion },
    /// A migration this build does not know was applied.
    Ahead { unknown_version: MigrationVersion },
}

/// How an incompatibility reads in a message.
pub open spec fn incompatibility_text(s: SchemaIncompatibility) -> Seq<char> {
    match s {
        SchemaIncompatibility::Dirty { version } => "dirty (migration "@ + idec(version@ as int)
            + " did not complete)"@,
        SchemaIncompatibility::Uninitialized => "uninitialized"@,
        SchemaIncompatibility::Diverged { expected, found } => "diverged (expected migration "@
            + idec(expected@ as int) + ", found "@ + idec(found@ as int) + ")"@,
        SchemaIncompatibility::ChecksumMismatch { version } => "modified (migration "@ + idec(
            version@ as int,
        ) + " checksum differs)"@,
        SchemaIncompatibility::Behind { applied, required, next_required } => "behind ("@ + dec(
            applied as nat,
        ) + " of "@ + dec(required as nat) + " migrations applied; next is "@ + idec(
            next_required@ as int,
        ) + ")"@,
        SchemaIncompatibility::Ahead { unknown_version } => "ahead (unknown migration "@ + idec(
            unknown_version@ as int,
        ) + ")"@,
    }
}

impl SchemaIncompatibility {
    /// How this incompatibility reads in a message.
    pub fn text(&self) -> (r: String)
        ensures
            r@ == incompatibility_text(*self),
    {
        match self {
            SchemaIncompatibility::Dirty { version } => {
                let mut s = string_from("dirty (migration ");
                push_int(&mut s, version.0);
                push_str(&mut s, " did not complete)");
                s
            },
            SchemaIncompatibility::Uninitialized => string_from("uninitialized"),
            SchemaIncompatibility::Diverged { expected, found } => {
                let mut s = string_from("diverged (expected migration ");
                push_int(&mut s, expected.0);
                push_str(&mut s, ", found ");
                push_int(&mut s, found.0);
                push_str(&mut s, ")");
                s
            },
            SchemaIncompatibility::ChecksumMismatch { version } => {
                let mut s = string_from("modified (migration ");
                push_int(&mut s, version.0);
                push_str(&mut s, " checksum differs)");
                s
            },
            SchemaIncompatibility::Behind { applied, required, next_required } => {
                let mut s = string_from("behind (");
                push_u64(&mut s, *applied as u64);
                push_str(&mut s, " of ");
                push_u64(&mut s, *required as u64);
                push_str(&mut s, " migrations applied; next is ");
                push_int(&mut s, next_required.0);
                push_str(&mut s, ")");
                s
            },
            SchemaIncompatibility::Ahead { unknown_version } => {
                let mut s = string_from("ahead (unknown migration ");
                push_int(&mut s, unknown_version.0);
                push_str(&mut s, ")");
                s
            },
        }
    }
}

/// A migration this build embeds.
#[derive(Debug, Clone, PartialEq, Eq)]
pub struct ExpectedMigration {
    pub version: i64,
    pub checksum: Vec<u8>,
}

/// A migration the database records as applied.
#[derive(Debug, Clone, PartialEq, Eq)]
pub struct AppliedMigration {
    pub version: i64,
    pub checksum: Vec<u8>,
    pub success: bool,
}

/// The position of the first applied migration recorded as failed.
pub open spec fn first_failure(a: Seq<AppliedMigration>, i: int) -> Option<int>
    decreases a.len() - i,
{
    if i < 0 || i >= a.len() {
        None
    } else if !a[i].success {
        Some(i)
    } else {
        first_failure(a, i + 1)
    }
}

/// The first position, among those both histories have, where the
/// applied migration is not the expected one (by version or checksum).
pub open spec fn first_mismatch(e: Seq<ExpectedMigration>, a: Seq<AppliedMigration>, i: int) -> Option<
    int,
>
    decreases a.len() - i,
{
    if i < 0 || i >= a.len() || i >= e.len() {
        None
    } else if a[i].version != e[i].version || a[i].checksum@ != e[i].checksum@ {
        Some(i)
    } else {
        first_mismatch(e, a, i + 1)
    }
}

/// How the applied history `a` fails to match the expected `e`, in order
/// of precedence: a failed migration anywhere; an empty history; the
/// first position where they differ (by version, else by checksum); a
/// history that stops short; one that runs past. `None` when they match.
pub open spec fn schema_verdict(e: Seq<ExpectedMigration>, a: Seq<AppliedMigration>) -> Option<
    SchemaIncompatibility,
> {
    match first_failure(a, 0) {
        Some(i) => Some(
            SchemaIncompatibility::Dirty { version: MigrationVersion(a[i].version) },
        ),
        None => if a.len() == 0 {
            Some(SchemaIncompatibility::Uninitialized)
        } else {
            match first_mismatch(e, a, 0) {
                Some(i) => if a[i].version != e[i].version {
                    Some(
                        SchemaIncompatibility::Diverged {
                            expected: MigrationVersion(e[i].version),
                            found: MigrationVersion(a[i].version),
                        },
                    )
                } else {
                    Some(
                        SchemaIncompatibility::ChecksumMismatch {
                            version: MigrationVersion(a[i].version),
                        },
                    )
                },
                None => if a.len() < e.len() {
                    Some(
                        SchemaIncompatibility::Behind {
                            applied: a.len() as usize,
                            required: e.len() as usize,
                            next_required: MigrationVersion(e[a.len() as int].version),
                        },
                    )
                } else if a.len() > e.len() {
                    Some(
                        SchemaIncompatibility::Ahead {
                            unknown_version: MigrationVersion(a[e.len() as int].version),
                        },
                    )
                } else {
                    None
                },
            }
        },
    }
}

/// Whether two byte vectors are equal.
pub fn bytes_eq(x: &Vec<u8>, y: &Vec<u8>) -> (r: bool)
    ensures
        r == (x@ == y@),
{
    if x.len() != y.len() {
        return false;
    }
    let mut i: usize = 0;
    while i < x.len()
        invariant
            i <= x.len(),
            x.len() == y.len(),
            forall|j: int| 0 <= j < i ==> x@[j] == y@[j],
        decreases x.len() - i,
    {
        if x[i] != y[i] {
            return false;
        }
        i = i + 1;
    }
    proof {
        assert(x@ =~= y@);
    }
    true
}

/// Compare the applied migration history with the expected one.
pub fn compare_schema(expected: &Vec<ExpectedMigration>, applied: &Vec<AppliedMigration>) -> (r:
    Option<SchemaIncompatibility>)
    ensures
        r == schema_verdict(expected@, applied@),
{
    let mut i: usize = 0;
    while i < applied.len()
        invariant
            i <= applied.len(),
            first_failure(applied@, i as int) == first_failure(applied@, 0),
        decreases applied.len() - i,
    {
        if !applied[i].success {
            return Some(SchemaIncompatibility::Dirty { version: MigrationVersion(applied[i].version) });
        }
        i = i + 1;
    }
    if applied.len() == 0 {
        return Some(SchemaIncompatibility::Uninitialized);
    }
    let mut k: usize = 0;
    while k < applied.len() && k < expected.len()
        invariant
            k <= applied.len(),
            applied.len() > 0,
            first_failure(applied@, 0) is None,
            first_mismatch(expected@, applied@, k as int) == first_mismatch(expected@, applied@, 0),
        decreases applied.len() - k,
    {
        if applied[k].version != expected[k].version {
            return Some(
                SchemaIncompatibility::Diverged {
                    expected: MigrationVersion(expected[k].version),
                    found: MigrationVersion(applied[k].version),
                },
            );
        }
        if !bytes_eq(&applied[k].checksum, &expected[k].checksum) {
            return Some(
                SchemaIncompatibility::ChecksumMismatch { version: MigrationVersion(applied[k].version) },
            );
        }
        k = k + 1;
    }
    if applied.len() < expected.len() {
        return Some(
            SchemaIncompatibility::Behind {
                applied: applied.len(),
                required: expected.len(),
                next_required: MigrationVersion(expected[applied.len()].version),
            },
        );
    }
    if applied.len() > expected.len() {
        return Some(
            SchemaIncompatibility::Ahead {
                unknown_version: MigrationVersion(applied[expected.len()].version),
            },
        );
    }
    None
}


// ── Writes ──────────────────────────────────────────────────────────────────

/// What must hold of a Card request before the store is touched: a
/// producer identity and a title, neither blank.
pub fn create_precheck(request: &CreateCard) -> (r: Result<(), Error>)
    ensures
        r is Ok <==> !blank(request.producer.id@) && !blank(request.title@),
        r matches Err(e) ==> e is BlankField && e->BlankField_field@ == (if blank(
            request.producer.id@,
        ) {
            "producer identity"@
        } else {
            "title"@
        }),
{
    match require_text(request.producer.id.as_str(), "producer identity") {
        Err(e) => Err(e),
        Ok(()) => require_text(request.title.as_str(), "title"),
    }
}

/// What must hold of an append before the store is touched: a card-created
/// entry exists only at sequence 1, written by the store itself; the
/// producer identity must not be blank; the payload must validate.
pub fn append_precheck(request: &AppendEntry) -> (r: Result<(), Error>)
    ensures
        request.payload is CardCreatedV1 ==> r == Err::<(), Error>(
            Error::NotAppendable { entry_type: EntryType::CardCreated },
        ),
        !(request.payload is CardCreatedV1) && blank(request.producer.id@) ==> (r matches Err(e)
            && e is BlankField && e->BlankField_field@ == "producer identity"@),
        !(request.payload is CardCreatedV1) && !blank(request.producer.id@) ==> (r is Ok
            <==> crate::card::domain::payload_ok(request.payload)),
{
    match &request.payload {
        Payload::CardCreatedV1(_) => {
            return Err(Error::NotAppendable { entry_type: EntryType::CardCreated });
        },
        _ => {},
    }
    match require_text(request.producer.id.as_str(), "producer identity") {
        Err(e) => Err(e),
        Ok(()) => request.payload.validate(),
    }
}

/// The canonical text idempotency compares: the entry type, the payload,
/// the producer and the schema version, as compact JSON with its members
/// in key order.
pub open spec fn fingerprint_text(
    entry_type: EntryType,
    schema_version: u32,
    payload: Seq<char>,
    producer_id: Seq<char>,
    producer_kind: crate::card::domain::ProducerKind,
) -> Seq<char> {
    "{\"entry_type\":"@ + json_string(entry_type_text(entry_type)) + ",\"payload\":"@ + payload
        + ",\"producer_id\":"@ + json_string(producer_id) + ",\"producer_kind\":"@ + json_string(
        producer_kind_text(producer_kind),
    ) + ",\"schema_version\":"@ + dec(schema_version as nat) + "}"@
}

/// The canonical fingerprint of a request whose payload, as JSON, is
/// `payload_json`: identical requests replay, different ones conflict.
pub fn canonical_fingerprint(entry_type: EntryType, schema_version: u32, payload_json: &str, producer: &Producer) -> (r: String)
    ensures
        r@ == fingerprint_text(entry_type, schema_version, payload_json@, producer.id@, producer.kind),
{
    let mut s = string_from("{\"entry_type\":");
    let t = entry_type.text();
    push_str(&mut s, json_quote(t.as_str()).as_str());
    push_str(&mut s, ",\"payload\":");
    push_str(&mut s, payload_json);
    push_str(&mut s, ",\"producer_id\":");
    push_str(&mut s, json_quote(producer.id.as_str()).as_str());
    push_str(&mut s, ",\"producer_kind\":");
    let k = producer.kind.text();
    push_str(&mut s, json_quote(k.as_str()).as_str());
    push_str(&mut s, ",\"schema_version\":");
    push_u64(&mut s, schema_version as u64);
    push_str(&mut s, "}");
    s
}

/// The fingerprint of an append of `payload` by `producer`.
pub fn payload_fingerprint(payload: &Payload, producer: &Producer) -> (r: String)
    ensures
        r@ == fingerprint_text(
            payload_type(*payload),
            CURRENT_SCHEMA_VERSION,
            payload_json_text(*payload),
            producer.id@,
            producer.kind,
        ),
{
    let json = payload_json(payload);
    canonical_fingerprint(payload.entry_type(), payload.schema_version(), json.as_str(), producer)
}

/// Whether a database error's code reports a uniqueness violation:
/// SQLite's extended result codes for UNIQUE and PRIMARY KEY constraints.
pub fn is_unique_code(code: Option<&str>) -> (r: bool)
    ensures
        r <==> (code matches Some(c) && (c@ == "2067"@ || c@ == "1555"@)),
{
    match code {
        None => false,
        Some(c) => str_eq(c, "2067") || str_eq(c, "1555"),
    }
}

/// What a failed insert leads to: a uniqueness violation under an
/// idempotency key is a concurrent retry, answered by replaying the
/// winner; anything else is a storage failure.
pub fn replays_after_failed_insert(unique_violation: bool, idempotency_key: Option<&str>) -> (r: bool)
    ensures
        r == (unique_violation && idempotency_key is Some),
{
    unique_violation && idempotency_key.is_some()
}

/// A stored sequence or version column, which must not be negative.
pub fn stored_count(raw: i64, context: crate::card::error::StorageContext) -> (r: Result<u64, Error>)
    ensures
        raw >= 0 ==> r == Ok::<u64, Error>(raw as u64),
        raw < 0 ==> r == Err::<u64, Error>(Error::Corrupt { context }),
{
    if raw < 0 {
        Err(Error::Corrupt { context })
    } else {
        Ok(raw as u64)
    }
}


/// A stored schema version, which must fit a `u32`.
pub fn stored_version(raw: i64, context: crate::card::error::StorageContext) -> (r: Result<u32, Error>)
    ensures
        0 <= raw <= u32::MAX ==> r == Ok::<u32, Error>(raw as u32),
        !(0 <= raw <= u32::MAX) ==> r == Err::<u32, Error>(Error::Corrupt { context }),
{
    if raw < 0 || raw > 4294967295i64 {
        Err(Error::Corrupt { context })
    } else {
        Ok(raw as u32)
    }
}

/// The entry type and producer kind of a stored entry, from their stored
/// names: a name outside the closed vocabularies is store corruption, not
/// a producer mistake.
pub fn stored_names(entry_type: &str, producer_kind: &str, context: crate::card::error::StorageContext) -> (r: Result<
    (EntryType, crate::card::domain::ProducerKind),
    Error,
>)
    ensures
        r matches Ok((t, k)) ==> entry_type_text(t) == entry_type@ && producer_kind_text(k)
            == producer_kind@,
        r is Err ==> r == Err::<(EntryType, crate::card::domain::ProducerKind), Error>(
            Error::Corrupt { context },
        ),
        r is Err ==> (forall|t: EntryType| entry_type_text(t) != entry_type@) || (forall|
            k: crate::card::domain::ProducerKind,
        | producer_kind_text(k) != producer_kind@),
{
    let t = match EntryType::parse(entry_type) {
        Ok(t) => t,
        Err(_) => {
            return Err(Error::Corrupt { context });
        },
    };
    match crate::card::domain::ProducerKind::parse(producer_kind) {
        Ok(k) => Ok((t, k)),
        Err(_) => Err(Error::Corrupt { context }),
    }
}


// ── Fingerprint laws ────────────────────────────────────────────────────────

/// What a common prefix leaves equal.
proof fn lemma_strip(pre: Seq<char>, a: Seq<char>, b: Seq<char>)
    requires
        pre + a == pre + b,
    ensures
        a == b,
{
    assert(a =~= (pre + a).skip(pre.len() as int));
    assert(b =~= (pre + b).skip(pre.len() as int));
}

/// An optional JSON string (`null` or a literal) followed by anything
/// determines the value and what follows.
proof fn lemma_opt_json_prefix(a: Option<Seq<char>>, b: Option<Seq<char>>, r1: Seq<char>, r2: Seq<char>)
    requires
        opt_json(a) + r1 == opt_json(b) + r2,
    ensures
        a == b,
        r1 == r2,
{
    let s1 = opt_json(a) + r1;
    let s2 = opt_json(b) + r2;
    match (a, b) {
        (None, None) => {
            lemma_strip("null"@, r1, r2);
        },
        (Some(x), Some(y)) => {
            lemma_json_string_prefix(x, y, r1, r2);
        },
        (None, Some(y)) => {
            reveal_strlit("null");
            lemma_json_string_opens(y);
            assert(s1[0] == 'n');
            assert(s2[0] == json_string(y)[0]);
        },
        (Some(x), None) => {
            reveal_strlit("null");
            lemma_json_string_opens(x);
            assert(s2[0] == 'n');
            assert(s1[0] == json_string(x)[0]);
        },
    }
}

/// Whether two payloads have the same content.
pub open spec fn same_payload(a: Payload, b: Payload) -> bool {
    match (a, b) {
        (Payload::CardCreatedV1(x), Payload::CardCreatedV1(y)) => x.title@ == y.title@ && opt_string(
            x.task_key,
        ) == opt_string(y.task_key) && opt_string(x.workspace) == opt_string(y.workspace),
        (Payload::DecisionV1(x), Payload::DecisionV1(y)) => x.summary@ == y.summary@ && x.reason@
            == y.reason@,
        (Payload::StageEventV1(x), Payload::StageEventV1(y)) => x@ == y@,
        _ => false,
    }
}

/// Whether a payload is a stage event carrying a JSON object.
pub open spec fn carries_object(p: Payload) -> bool {
    p matches Payload::StageEventV1(e) && e@.payload is Some
}

/// Two decisions whose JSON texts begin a common text have the same
/// content, and what follows them is the same.
proof fn lemma_decision_prefix(x: crate::card::domain::DecisionV1, y: crate::card::domain::DecisionV1, q1: Seq<char>, q2: Seq<char>)
    requires
        payload_json_text(Payload::DecisionV1(x)) + q1 == payload_json_text(Payload::DecisionV1(y)) + q2,
    ensures
        x.summary@ == y.summary@,
        x.reason@ == y.reason@,
        q1 == q2,
{
    let e1 = "{\"reason\":"@;
    let e2 = ",\"summary\":"@;
    let e3 = "}"@;
    let m1 = e2 + (json_string(x.summary@) + (e3 + q1));
    let m2 = e2 + (json_string(y.summary@) + (e3 + q2));
    assert(payload_json_text(Payload::DecisionV1(x)) + q1 =~= e1 + (json_string(x.reason@) + m1));
    assert(payload_json_text(Payload::DecisionV1(y)) + q2 =~= e1 + (json_string(y.reason@) + m2));
    lemma_strip(e1, json_string(x.reason@) + m1, json_string(y.reason@) + m2);
    lemma_json_string_prefix(x.reason@, y.reason@, m1, m2);
    lemma_strip(e2, json_string(x.summary@) + (e3 + q1), json_string(y.summary@) + (e3 + q2));
    lemma_json_string_prefix(x.summary@, y.summary@, e3 + q1, e3 + q2);
    lemma_strip(e3, q1, q2);
}

/// Two card-created payloads whose JSON texts begin a common text have the
/// same content, and what follows them is the same.
proof fn lemma_card_created_prefix(x: crate::card::domain::CardCreatedV1, y: crate::card::domain::CardCreatedV1, q1: Seq<char>, q2: Seq<char>)
    requires
        payload_json_text(Payload::CardCreatedV1(x)) + q1 == payload_json_text(Payload::CardCreatedV1(y)) + q2,
    ensures
        x.title@ == y.title@,
        opt_string(x.task_key) == opt_string(y.task_key),
        opt_string(x.workspace) == opt_string(y.workspace),
        q1 == q2,
{
    let f1 = "{\"task_key\":"@;
    let f2 = ",\"title\":"@;
    let f3 = ",\"workspace\":"@;
    let f4 = "}"@;
    let tx = opt_string(x.task_key);
    let ty = opt_string(y.task_key);
    let wx = opt_string(x.workspace);
    let wy = opt_string(y.workspace);
    let n1 = f3 + (opt_json(wx) + (f4 + q1));
    let n2 = f3 + (opt_json(wy) + (f4 + q2));
    let rest1 = f2 + (json_string(x.title@) + n1);
    let rest2 = f2 + (json_string(y.title@) + n2);
    assert(payload_json_text(Payload::CardCreatedV1(x)) + q1 =~= f1 + (opt_json(tx) + rest1));
    assert(payload_json_text(Payload::CardCreatedV1(y)) + q2 =~= f1 + (opt_json(ty) + rest2));
    lemma_strip(f1, opt_json(tx) + rest1, opt_json(ty) + rest2);
    lemma_opt_json_prefix(tx, ty, rest1, rest2);
    lemma_strip(f2, json_string(x.title@) + n1, json_string(y.title@) + n2);
    lemma_json_string_prefix(x.title@, y.title@, n1, n2);
    lemma_strip(f3, opt_json(wx) + (f4 + q1), opt_json(wy) + (f4 + q2));
    lemma_opt_json_prefix(wx, wy, f4 + q1, f4 + q2);
    lemma_strip(f4, q1, q2);
}

/// Two stage events without an attached object whose JSON texts begin a
/// common text have the same content, and what follows them is the same.
proof fn lemma_stage_event_prefix(x: crate::card::domain::StageEventV1, y: crate::card::domain::StageEventV1, q1: Seq<char>, q2: Seq<char>)
    requires
        x@.payload is None,
        y@.payload is None,
        payload_json_text(Payload::StageEventV1(x)) + q1 == payload_json_text(Payload::StageEventV1(y)) + q2,
    ensures
        x@ == y@,
        q1 == q2,
{
    let g1 = "{\"stage\":"@;
    let g2 = ",\"summary\":"@;
    let g3 = "}"@;
    reveal_strlit("{");
    reveal_strlit("\"stage\":");
    reveal_strlit("{\"stage\":");
    let m1 = g2 + (json_string(x@.summary) + (g3 + q1));
    let m2 = g2 + (json_string(y@.summary) + (g3 + q2));
    assert(payload_json_text(Payload::StageEventV1(x)) + q1 =~= g1 + (json_string(x@.stage) + m1));
    assert(payload_json_text(Payload::StageEventV1(y)) + q2 =~= g1 + (json_string(y@.stage) + m2));
    lemma_strip(g1, json_string(x@.stage) + m1, json_string(y@.stage) + m2);
    lemma_json_string_prefix(x@.stage, y@.stage, m1, m2);
    lemma_strip(g2, json_string(x@.summary) + (g3 + q1), json_string(y@.summary) + (g3 + q2));
    lemma_json_string_prefix(x@.summary, y@.summary, g3 + q1, g3 + q2);
    lemma_strip(g3, q1, q2);
}

/// Two payloads of one type whose JSON texts begin a common text have the
/// same content, and what follows them is the same.
proof fn lemma_payload_prefix(p1: Payload, p2: Payload, q1: Seq<char>, q2: Seq<char>)
    requires
        payload_type(p1) == payload_type(p2),
        !carries_object(p1),
        !carries_object(p2),
        payload_json_text(p1) + q1 == payload_json_text(p2) + q2,
    ensures
        same_payload(p1, p2),
        q1 == q2,
{
    match (p1, p2) {
        (Payload::DecisionV1(x), Payload::DecisionV1(y)) => lemma_decision_prefix(x, y, q1, q2),
        (Payload::CardCreatedV1(x), Payload::CardCreatedV1(y)) => lemma_card_created_prefix(x, y, q1, q2),
        (Payload::StageEventV1(x), Payload::StageEventV1(y)) => lemma_stage_event_prefix(x, y, q1, q2),
        _ => {},
    }
}

/// Identical requests fingerprint alike, so a retried request replays.
pub proof fn law_identical_requests_fingerprint_equal(p: Payload, producer_id: Seq<char>, kind: ProducerKind)
    ensures
        fingerprint_text(payload_type(p), CURRENT_SCHEMA_VERSION, payload_json_text(p), producer_id, kind)
            == fingerprint_text(payload_type(p), CURRENT_SCHEMA_VERSION, payload_json_text(p), producer_id, kind),
{
}

/// What a fingerprint holds after its payload: the producer's identity
/// and kind, and the schema version.
pub open spec fn after_payload(producer_id: Seq<char>, kind: ProducerKind) -> Seq<char> {
    ",\"producer_id\":"@ + json_string(producer_id) + ",\"producer_kind\":"@ + json_string(
        producer_kind_text(kind),
    ) + ",\"schema_version\":"@ + dec(CURRENT_SCHEMA_VERSION as nat) + "}"@
}

/// Fingerprints that agree agree on the entry type, and on the payload
/// text together with what follows it.
#[verifier::spinoff_prover]
#[verifier::rlimit(80)]
proof fn lemma_fingerprint_head(
    t1: EntryType,
    pj1: Seq<char>,
    id1: Seq<char>,
    k1: ProducerKind,
    t2: EntryType,
    pj2: Seq<char>,
    id2: Seq<char>,
    k2: ProducerKind,
)
    requires
        fingerprint_text(t1, CURRENT_SCHEMA_VERSION, pj1, id1, k1) == fingerprint_text(t2, CURRENT_SCHEMA_VERSION, pj2, id2, k2),
    ensures
        t1 == t2,
        pj1 + after_payload(id1, k1) == pj2 + after_payload(id2, k2),
{
    let a = "{\"entry_type\":"@;
    let b = ",\"payload\":"@;
    let r1 = b + (pj1 + after_payload(id1, k1));
    let r2 = b + (pj2 + after_payload(id2, k2));
    assert(fingerprint_text(t1, CURRENT_SCHEMA_VERSION, pj1, id1, k1) =~= a + (json_string(entry_type_text(t1)) + r1));
    assert(fingerprint_text(t2, CURRENT_SCHEMA_VERSION, pj2, id2, k2) =~= a + (json_string(entry_type_text(t2)) + r2));
    lemma_strip(a, json_string(entry_type_text(t1)) + r1, json_string(entry_type_text(t2)) + r2);
    lemma_json_string_prefix(entry_type_text(t1), entry_type_text(t2), r1, r2);
    law_entry_type_names_are_distinct(t1, t2);
    lemma_strip(b, pj1 + after_payload(id1, k1), pj2 + after_payload(id2, k2));
}

/// What follows the payload determines the producer.
proof fn lemma_after_payload(id1: Seq<char>, k1: ProducerKind, id2: Seq<char>, k2: ProducerKind)
    requires
        after_payload(id1, k1) == after_payload(id2, k2),
    ensures
        id1 == id2,
        k1 == k2,
{
    let c = ",\"producer_id\":"@;
    let d = ",\"producer_kind\":"@;
    let tail = ",\"schema_version\":"@ + dec(CURRENT_SCHEMA_VERSION as nat) + "}"@;
    let u1 = d + (json_string(producer_kind_text(k1)) + tail);
    let u2 = d + (json_string(producer_kind_text(k2)) + tail);
    assert(after_payload(id1, k1) =~= c + (json_string(id1) + u1));
    assert(after_payload(id2, k2) =~= c + (json_string(id2) + u2));
    lemma_strip(c, json_string(id1) + u1, json_string(id2) + u2);
    lemma_json_string_prefix(id1, id2, u1, u2);
    lemma_strip(d, json_string(producer_kind_text(k1)) + tail, json_string(producer_kind_text(k2)) + tail);
    lemma_json_string_prefix(producer_kind_text(k1), producer_kind_text(k2), tail, tail);
    law_producer_kind_names_are_distinct(k1, k2);
}

/// Fingerprints discriminate: two requests that fingerprint alike agree on
/// the entry type, the payload's content, the producer's identity and its
/// kind, so a reused key with different content is a conflict, never a
/// silent replay. Stated of payloads other than stage events carrying a
/// JSON object, whose object text is not delimited here.
pub proof fn law_fingerprints_discriminate(
    p1: Payload,
    id1: Seq<char>,
    k1: ProducerKind,
    p2: Payload,
    id2: Seq<char>,
    k2: ProducerKind,
)
    requires
        !carries_object(p1),
        !carries_object(p2),
        fingerprint_text(payload_type(p1), CURRENT_SCHEMA_VERSION, payload_json_text(p1), id1, k1)
            == fingerprint_text(payload_type(p2), CURRENT_SCHEMA_VERSION, payload_json_text(p2), id2, k2),
    ensures
        payload_type(p1) == payload_type(p2),
        same_payload(p1, p2),
        id1 == id2,
        k1 == k2,
{
    lemma_fingerprint_head(payload_type(p1), payload_json_text(p1), id1, k1, payload_type(p2), payload_json_text(p2), id2, k2);
    lemma_payload_prefix(p1, p2, after_payload(id1, k1), after_payload(id2, k2));
    lemma_after_payload(id1, k1, id2, k2);
}

} // verus!
