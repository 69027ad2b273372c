//! The `card` command's decisions between its flags and the store: the
//! producer an invocation names, the per-type flag policy of `append`, the
//! schema-version flag, and the one-line JSON answers it writes: success
//! on stdout, failure on stderr with its category.
use vstd::prelude::*;

use crate::card::config::Config;
use crate::card::console::{source_text, ConfigSource};
use crate::card::domain::{
    check_version, entry_type_text, payload_ok, payload_refusal, producer_kind_text,
    stage_event_parts_result, Accepted, AppendEntry, CardId, CreateCard, DecisionV1, EntryType,
    Payload, Producer, ProducerKind, CURRENT_SCHEMA_VERSION,
};
use crate::card::error::{category_of, category_text, error_text, Error};
use crate::card::json::{
    json_quote, json_string, lemma_json_string_printable, lemma_printable_concat, printable,
    JsonValue,
};
use crate::sandbox::runner::{all_digits, digits_value, lemma_digits_prefix};
use crate::text::{chars_of, copy_string, dec, push_str, push_u64, string_from};

verus! {

/// A configuration problem the store never sees.
#[derive(Debug, Clone, Copy, PartialEq, Eq, Structural)]
pub enum ConfigProblem {
    /// `HOME` is not set, so the factory home cannot be found.
    NoHome,
    /// The invocation named no command this build knows.
    UnknownCommand,
}

/// The message of a configuration problem.
pub open spec fn config_problem_text(p: ConfigProblem) -> Seq<char> {
    match p {
        ConfigProblem::NoHome => "cannot resolve the factory home: HOME is not set"@,
        ConfigProblem::UnknownCommand => "unknown command"@,
    }
}

/// A failure of the `card` command, ready to render: a domain error, an
/// invalid invocation, or a configuration problem the store never sees.
#[derive(Debug, Clone, PartialEq, Eq)]
pub enum Failure {
    /// The store or the domain refused.
    Domain(Error),
    /// The invocation itself is wrong.
    Invalid(String),
    /// The configuration cannot be resolved.
    Config(ConfigProblem),
    /// The factory home could not be created or tightened; `source` is the
    /// operating system's account of why.
    FactoryHome { path: String, source: String },
    /// The factory home's dot-env file exists but cannot be read; `source`
    /// is the reader's account of why.
    DotEnvFile { path: String, source: String },
}

/// The category a failure is reported under.
pub open spec fn failure_category(f: Failure) -> Seq<char> {
    match f {
        Failure::Domain(e) => category_text(category_of(e)),
        Failure::Invalid(_) => "validation"@,
        _ => "storage"@,
    }
}

/// The message a failure is reported with.
pub open spec fn failure_text(f: Failure) -> Seq<char> {
    match f {
        Failure::Domain(e) => error_text(e),
        Failure::Invalid(m) => m@,
        Failure::Config(p) => config_problem_text(p),
        Failure::FactoryHome { path, source } => "cannot prepare the factory home "@ + path@
            + ": "@ + source@,
        Failure::DotEnvFile { path, source } => "cannot load the factory dotenv "@ + path@
            + ": "@ + source@,
    }
}

/// The one-line JSON report of a failure:
/// `{"error":{"category":…,"message":…}}`.
pub open spec fn failure_json(f: Failure) -> Seq<char> {
    "{\"error\":{\"category\":"@ + json_string(failure_category(f)) + ",\"message\":"@
        + json_string(failure_text(f)) + "}}"@
}

/// Every failure is reported under one of the five categories of the
/// machine-facing contract, and on one line: its report holds no line
/// break, nor any other control character.
pub proof fn law_failure_report_is_one_categorised_line(f: Failure)
    ensures
        failure_category(f) == "validation"@ || failure_category(f) == "conflict"@
            || failure_category(f) == "missing"@ || failure_category(f) == "storage"@
            || failure_category(f) == "unavailable"@,
        printable(failure_json(f)),
        !failure_json(f).contains('\n'),
{
    reveal_strlit("{\"error\":{\"category\":");
    reveal_strlit(",\"message\":");
    reveal_strlit("}}");
    let open = "{\"error\":{\"category\":"@;
    let mid = ",\"message\":"@;
    let close = "}}"@;
    assert(printable(open));
    assert(printable(mid));
    assert(printable(close));
    lemma_json_string_printable(failure_category(f));
    lemma_json_string_printable(failure_text(f));
    lemma_printable_concat(open, json_string(failure_category(f)));
    lemma_printable_concat(open + json_string(failure_category(f)), mid);
    lemma_printable_concat(open + json_string(failure_category(f)) + mid, json_string(failure_text(f)));
    lemma_printable_concat(
        open + json_string(failure_category(f)) + mid + json_string(failure_text(f)),
        close,
    );
    let report = failure_json(f);
    if report.contains('\n') {
        let i = choose|i: int| 0 <= i < report.len() && report[i] == '\n';
        assert((report[i] as int) >= 0x20);
    }
}

/// Whether `r` is a refusal of the invocation with message `m`.
pub open spec fn refused_as_invalid<T>(r: Result<T, Failure>, m: Seq<char>) -> bool {
    r matches Err(f) && f is Invalid && f->Invalid_0@ == m
}

impl Failure {
    /// The category: a domain error's own, `validation` for an invalid
    /// invocation, `storage` for the configuration's failures.
    pub fn category(&self) -> (r: String)
        ensures
            r@ == failure_category(*self),
    {
        match self {
            Failure::Domain(e) => e.category().text(),
            Failure::Invalid(_) => string_from("validation"),
            _ => string_from("storage"),
        }
    }

    /// The message.
    pub fn message(&self) -> (r: String)
        ensures
            r@ == failure_text(*self),
    {
        match self {
            Failure::Domain(e) => e.message(),
            Failure::Invalid(m) => copy_string(m),
            Failure::Config(ConfigProblem::NoHome) => string_from(
                "cannot resolve the factory home: HOME is not set",
            ),
            Failure::Config(ConfigProblem::UnknownCommand) => string_from("unknown command"),
            Failure::FactoryHome { path, source } => {
                let mut s = string_from("cannot prepare the factory home ");
                push_str(&mut s, path.as_str());
                push_str(&mut s, ": ");
                push_str(&mut s, source.as_str());
                s
            },
            Failure::DotEnvFile { path, source } => {
                let mut s = string_from("cannot load the factory dotenv ");
                push_str(&mut s, path.as_str());
                push_str(&mut s, ": ");
                push_str(&mut s, source.as_str());
                s
            },
        }
    }

    /// The one-line JSON report written to stderr.
    pub fn to_json(&self) -> (r: String)
        ensures
            r@ == failure_json(*self),
    {
        let category = self.category();
        let message = self.message();
        let mut s = string_from("{\"error\":{\"category\":");
        push_str(&mut s, json_quote(category.as_str()).as_str());
        push_str(&mut s, ",\"message\":");
        push_str(&mut s, json_quote(message.as_str()).as_str());
        push_str(&mut s, "}}");
        s
    }
}

impl From<Error> for Failure {
    fn from(error: Error) -> (r: Failure) {
        Failure::Domain(error)
    }
}

impl vstd::std_specs::convert::FromSpecImpl<Error> for Failure {
    open spec fn obeys_from_spec() -> bool {
        true
    }

    open spec fn from_spec(v: Error) -> Failure {
        Failure::Domain(v)
    }
}

/// The message refusing an invocation that lacks the flag `name`.
fn require_message(name: &str) -> (r: String)
    ensures
        r@ == name@ + " is required"@,
{
    let mut m = string_from(name);
    push_str(&mut m, " is required");
    m
}

/// A required flag's value; clap enforces presence, and this refuses
/// explicitly rather than make a value up if that ever changes.
pub fn require_arg(value: Option<String>, name: &str) -> (r: Result<String, Failure>)
    ensures
        value matches Some(v) ==> r == Ok::<String, Failure>(v),
        value is None ==> refused_as_invalid(r, name@ + " is required"@),
{
    match value {
        Some(v) => Ok(v),
        None => Err(Failure::Invalid(require_message(name))),
    }
}

/// The producer kind a wire name names, if any.
pub open spec fn producer_kind_named(s: Seq<char>) -> Option<ProducerKind> {
    if s == "agent"@ {
        Some(ProducerKind::Agent)
    } else if s == "operator"@ {
        Some(ProducerKind::Operator)
    } else if s == "factory"@ {
        Some(ProducerKind::Factory)
    } else {
        None
    }
}

/// The entry type a wire name names, if any.
pub open spec fn entry_type_named(s: Seq<char>) -> Option<EntryType> {
    if s == "card-created"@ {
        Some(EntryType::CardCreated)
    } else if s == "decision"@ {
        Some(EntryType::Decision)
    } else if s == "stage-event"@ {
        Some(EntryType::StageEvent)
    } else {
        None
    }
}

/// A kind's wire name names that kind.
proof fn lemma_producer_kind_named(k: ProducerKind)
    ensures
        producer_kind_named(producer_kind_text(k)) == Some(k),
{
    reveal_strlit("agent");
    reveal_strlit("operator");
    reveal_strlit("factory");
    assert("operator"@.len() != "agent"@.len());
    assert("factory"@[0] != "agent"@[0]);
    assert("factory"@.len() != "operator"@.len());
}

/// A type's wire name names that type.
proof fn lemma_entry_type_named(t: EntryType)
    ensures
        entry_type_named(entry_type_text(t)) == Some(t),
{
    reveal_strlit("card-created");
    reveal_strlit("decision");
    reveal_strlit("stage-event");
    assert("decision"@.len() != "card-created"@.len());
    assert("stage-event"@.len() != "card-created"@.len());
    assert("stage-event"@.len() != "decision"@.len());
}

/// What `--producer` and `--producer-kind` give: both are required, and
/// the kind must be one of the closed set.
pub open spec fn producer_result(
    id: Option<String>,
    kind: Option<String>,
    r: Result<Producer, Failure>,
) -> bool {
    match (id, kind) {
        (Some(i), Some(k)) => match producer_kind_named(k@) {
            Some(pk) => r == Ok::<Producer, Failure>(Producer { id: i, kind: pk }),
            None => r matches Err(f) && f matches Failure::Domain(e) && e is UnknownProducerKind
                && e->UnknownProducerKind_requested@ == k@,
        },
        _ => r == Err::<Producer, Failure>(Failure::Domain(Error::MissingProducer)),
    }
}

/// The producer an invocation names.
pub fn require_producer(id: Option<String>, kind: Option<String>) -> (r: Result<
    Producer,
    Failure,
>)
    ensures
        producer_result(id, kind, r),
{
    proof {
        reveal_strlit("agent");
        reveal_strlit("operator");
        reveal_strlit("factory");
    }
    match (id, kind) {
        (Some(id), Some(kind)) => match ProducerKind::parse(kind.as_str()) {
            Ok(k) => {
                proof {
                    lemma_producer_kind_named(k);
                }
                Ok(Producer { id, kind: k })
            },
            Err(e) => {
                assert(producer_kind_text(ProducerKind::Agent) != kind@);
                assert(producer_kind_text(ProducerKind::Operator) != kind@);
                assert(producer_kind_text(ProducerKind::Factory) != kind@);
                Err(Failure::Domain(e))
            },
        },
        _ => Err(Failure::Domain(Error::MissingProducer)),
    }
}

/// An entry type flag read against the closed vocabulary.
pub fn entry_type_from_arg(text: &str) -> (r: Result<EntryType, Failure>)
    ensures
        entry_type_named(text@) matches Some(t) ==> r == Ok::<EntryType, Failure>(t),
        entry_type_named(text@) is None ==> (r matches Err(f) && f matches Failure::Domain(e)
            && e is UnknownEntryType && e->UnknownEntryType_requested@ == text@),
{
    proof {
        reveal_strlit("card-created");
        reveal_strlit("decision");
        reveal_strlit("stage-event");
    }
    match EntryType::parse(text) {
        Ok(t) => {
            proof {
                lemma_entry_type_named(t);
            }
            Ok(t)
        },
        Err(e) => {
            assert(entry_type_text(EntryType::CardCreated) != text@);
            assert(entry_type_text(EntryType::Decision) != text@);
            assert(entry_type_text(EntryType::StageEvent) != text@);
            Err(Failure::Domain(e))
        },
    }
}

/// `str::parse::<u32>`: an optional `+`, then at least one ASCII digit and
/// nothing else, whose value fits in a `u32`.
pub open spec fn parse_u32(s: Seq<char>) -> Option<u32> {
    let d = if s.len() > 0 && s[0] == '+' {
        s.drop_first()
    } else {
        s
    };
    if d.len() > 0 && all_digits(d) && digits_value(d) <= u32::MAX {
        Some(digits_value(d) as u32)
    } else {
        None
    }
}

/// Reads `text` as a `u32` the way `str::parse` does.
pub fn parse_u32_text(text: &str) -> (r: Option<u32>)
    ensures
        r == parse_u32(text@),
{
    let v = chars_of(text);
    let n = v.len();
    if n == 0 {
        return None;
    }
    let start: usize = if v[0] == '+' {
        1
    } else {
        0
    };
    if start >= n {
        return None;
    }
    let ghost d = v@.subrange(start as int, n as int);
    proof {
        if start == 1 {
            assert(d =~= v@.drop_first());
        } else {
            assert(d =~= v@);
        }
    }
    let mut value: u64 = 0;
    let mut i: usize = start;
    while i < n
        invariant
            start <= i <= n,
            start == 0 || start == 1,
            n == v@.len(),
            v@ == text@,
            start < n,
            d == v@.subrange(start as int, n as int),
            start == 1 ==> d == v@.drop_first() && v@[0] == '+',
            start == 0 ==> d == v@ && v@[0] != '+',
            all_digits(d.take(i - start)),
            value as int == digits_value(d.take(i - start)),
            value <= u32::MAX,
        decreases n - i,
    {
        let c = v[i];
        if c < '0' || c > '9' {
            proof {
                assert(d[i - start] == c);
                assert(!all_digits(d));
                assert(parse_u32(text@) is None);
            }
            return None;
        }
        let digit = (c as u32 - 48) as u64;
        let next = value * 10 + digit;
        proof {
            assert(digit as int == c as int - 48);
            assert(d.take(i - start + 1).drop_last() =~= d.take(i - start));
            assert(d.take(i - start + 1).last() == c);
            assert(digits_value(d.take(i - start + 1)) == digits_value(d.take(i - start)) * 10 + (c
                as int - 48));
            assert(all_digits(d.take(i - start + 1))) by {
                assert forall|j: int| 0 <= j < d.take(i - start + 1).len() implies '0'
                    <= #[trigger] d.take(i - start + 1)[j] && d.take(i - start + 1)[j] <= '9' by {
                    if j < i - start {
                        assert(d.take(i - start + 1)[j] == d.take(i - start)[j]);
                    }
                }
            }
        }
        if next > 0xFFFF_FFFF {
            // Too large for a u32 whatever the remaining characters are.
            proof {
                if all_digits(d) {
                    lemma_digits_prefix(d, i - start + 1);
                }
                assert(parse_u32(text@) is None);
            }
            return None;
        }
        value = next;
        i = i + 1;
    }
    proof {
        assert(d.take(n - start) =~= d);
    }
    Some(value as u32)
}

/// The `--schema-version` flag: the current version when absent, else the
/// flag read as an unsigned integer.
pub fn schema_version_from_arg(text: Option<&str>) -> (r: Result<u32, Failure>)
    ensures
        text is None ==> r == Ok::<u32, Failure>(CURRENT_SCHEMA_VERSION),
        text matches Some(t) ==> match parse_u32(t@) {
            Some(v) => r == Ok::<u32, Failure>(v),
            None => refused_as_invalid(
                r,
                "schema-version must be an unsigned integer, got `"@ + t@ + "`"@,
            ),
        },
{
    match text {
        None => Ok(CURRENT_SCHEMA_VERSION),
        Some(t) => match parse_u32_text(t) {
            Some(v) => Ok(v),
            None => {
                let mut m = string_from("schema-version must be an unsigned integer, got `");
                push_str(&mut m, t);
                push_str(&mut m, "`");
                Err(Failure::Invalid(m))
            },
        },
    }
}

/// The `--payload` flag, with what reading it as JSON gives.
#[derive(Debug)]
pub struct PayloadFlag {
    /// The flag's text as given.
    pub text: String,
    /// The text as a document tree, when it is well-formed JSON.
    pub tree: Option<JsonValue>,
    /// The text read strictly as a decision's fields, or the reader's
    /// complaint.
    pub as_decision: Result<DecisionV1, String>,
}

/// The text of an optional payload flag.
pub open spec fn flag_text(f: Option<PayloadFlag>) -> Option<Seq<char>> {
    match f {
        Some(flag) => Some(flag.text@),
        None => None,
    }
}

/// The document tree of an optional payload flag.
pub open spec fn flag_tree(f: Option<PayloadFlag>) -> Option<JsonValue> {
    match f {
        Some(flag) => flag.tree,
        None => None,
    }
}

/// What `append`'s per-type flag policy gives. A stage event needs
/// `--stage` and `--summary` and may carry `--payload`, and is built by
/// [`Payload::stage_event_from_parts`]. A decision refuses `--stage` and
/// `--summary`, needs `--payload`, and has its version checked before the
/// payload is read and validated. A card-created entry is never appended.
pub open spec fn payload_args_result(
    entry_type: EntryType,
    schema_version: u32,
    stage: Option<String>,
    summary: Option<String>,
    payload: Option<PayloadFlag>,
    r: Result<Payload, Failure>,
) -> bool {
    match entry_type {
        EntryType::CardCreated => r == Err::<Payload, Failure>(
            Failure::Domain(Error::NotAppendable { entry_type: EntryType::CardCreated }),
        ),
        EntryType::Decision => if stage is Some {
            refused_as_invalid(r, "entry type decision does not accept --stage"@)
        } else if summary is Some {
            refused_as_invalid(r, "entry type decision does not accept --summary"@)
        } else {
            match payload {
                None => refused_as_invalid(r, "payload"@ + " is required"@),
                Some(flag) => if schema_version != CURRENT_SCHEMA_VERSION {
                    r == Err::<Payload, Failure>(
                        Failure::Domain(
                            Error::UnknownSchemaVersion {
                                entry_type: EntryType::Decision,
                                requested: schema_version,
                            },
                        ),
                    )
                } else {
                    match flag.as_decision {
                        Err(source) => r matches Err(x) && x matches Failure::Domain(e)
                            && e is MalformedPayload && e->MalformedPayload_entry_type
                            == EntryType::Decision && e->MalformedPayload_source == source,
                        Ok(d) => if payload_ok(Payload::DecisionV1(d)) {
                            r == Ok::<Payload, Failure>(Payload::DecisionV1(d))
                        } else {
                            r matches Err(x) && x matches Failure::Domain(e) && payload_refusal(
                                Payload::DecisionV1(d),
                                e,
                            )
                        },
                    }
                },
            }
        },
        EntryType::StageEvent => match (stage, summary) {
            (Some(st), Some(su)) => match r {
                Ok(p) => stage_event_parts_result(
                    schema_version,
                    st@,
                    su@,
                    flag_text(payload),
                    flag_tree(payload),
                    Ok(p),
                ),
                Err(Failure::Domain(e)) => stage_event_parts_result(
                    schema_version,
                    st@,
                    su@,
                    flag_text(payload),
                    flag_tree(payload),
                    Err(e),
                ),
                Err(_) => false,
            },
            (None, _) => refused_as_invalid(r, "stage"@ + " is required"@),
            (Some(_), None) => refused_as_invalid(r, "summary"@ + " is required"@),
        },
    }
}

/// The payload `append`'s flags give for `entry_type`.
pub fn payload_from_args(
    entry_type: EntryType,
    schema_version: u32,
    stage: Option<String>,
    summary: Option<String>,
    payload: Option<PayloadFlag>,
) -> (r: Result<Payload, Failure>)
    ensures
        payload_args_result(entry_type, schema_version, stage, summary, payload, r),
{
    match entry_type {
        EntryType::StageEvent => {
            let stage = match require_arg(stage, "stage") {
                Ok(v) => v,
                Err(f) => {
                    return Err(f);
                },
            };
            let summary = match require_arg(summary, "summary") {
                Ok(v) => v,
                Err(f) => {
                    return Err(f);
                },
            };
            let (raw, tree): (Option<&str>, Option<&JsonValue>) = match &payload {
                Some(flag) => (
                    Some(flag.text.as_str()),
                    match &flag.tree {
                        Some(t) => Some(t),
                        None => None,
                    },
                ),
                None => (None, None),
            };
            match Payload::stage_event_from_parts(schema_version, stage, summary, raw, tree) {
                Ok(p) => Ok(p),
                Err(e) => Err(Failure::Domain(e)),
            }
        },
        EntryType::Decision => {
            if stage.is_some() {
                return Err(
                    Failure::Invalid(string_from("entry type decision does not accept --stage")),
                );
            }
            if summary.is_some() {
                return Err(
                    Failure::Invalid(string_from("entry type decision does not accept --summary")),
                );
            }
            let flag = match payload {
                Some(flag) => flag,
                None => {
                    return Err(Failure::Invalid(require_message("payload")));
                },
            };
            match check_version(EntryType::Decision, schema_version) {
                Err(e) => {
                    return Err(Failure::Domain(e));
                },
                Ok(()) => {},
            }
            match flag.as_decision {
                Err(source) => Err(
                    Failure::Domain(
                        Error::MalformedPayload { entry_type: EntryType::Decision, source },
                    ),
                ),
                Ok(d) => match Payload::from_parsed(
                    EntryType::Decision,
                    schema_version,
                    Payload::DecisionV1(d),
                ) {
                    Ok(p) => Ok(p),
                    Err(e) => Err(Failure::Domain(e)),
                },
            }
        },
        EntryType::CardCreated => Err(Failure::Domain(Error::NotAppendable { entry_type })),
    }
}

/// Whether the producer flags name a producer.
pub open spec fn producer_named(id: Option<String>, kind: Option<String>) -> bool {
    id is Some && kind is Some && producer_kind_named(kind->0@) is Some
}

/// The producer the flags name, when [`producer_named`].
pub open spec fn named_producer(id: Option<String>, kind: Option<String>) -> Producer {
    Producer { id: id->0, kind: producer_kind_named(kind->0@)->0 }
}

/// Whether `append`'s per-type flag policy accepts these flags.
pub open spec fn payload_args_accepted(
    entry_type: EntryType,
    schema_version: u32,
    stage: Option<String>,
    summary: Option<String>,
    payload: Option<PayloadFlag>,
) -> bool {
    exists|p: Payload|
        #[trigger] payload_args_result(entry_type, schema_version, stage, summary, payload, Ok(p))
}

/// The flags of `card append`, as given.
#[derive(Debug)]
pub struct AppendFlags {
    /// The Card to append to.
    pub card_id: Option<String>,
    /// `--entry-type`.
    pub entry_type: Option<String>,
    /// `--payload`, with what reading it gives.
    pub payload: Option<PayloadFlag>,
    /// `--stage`.
    pub stage: Option<String>,
    /// `--summary`.
    pub summary: Option<String>,
    /// `--schema-version`.
    pub schema_version: Option<String>,
    /// `--producer`.
    pub producer: Option<String>,
    /// `--producer-kind`.
    pub producer_kind: Option<String>,
    /// `--idempotency-key`.
    pub idempotency_key: Option<String>,
}

/// What `card append` asks of the store, or why it asks nothing. The
/// producer is checked first; then the entry type, which must name an
/// appendable type (card-created is refused before any payload is read);
/// then the schema version; then the per-type flag policy of
/// [`payload_args_result`]; the Card id last.
pub open spec fn append_plan_result(flags: AppendFlags, r: Result<AppendEntry, Failure>) -> bool {
    if !producer_named(flags.producer, flags.producer_kind) {
        match r {
            Ok(_) => false,
            Err(f) => producer_result(flags.producer, flags.producer_kind, Err(f)),
        }
    } else if flags.entry_type is None {
        refused_as_invalid(r, "entry-type"@ + " is required"@)
    } else if entry_type_named(flags.entry_type->0@) is None {
        r matches Err(f) && f matches Failure::Domain(e) && e is UnknownEntryType
            && e->UnknownEntryType_requested@ == flags.entry_type->0@
    } else if entry_type_named(flags.entry_type->0@) == Some(EntryType::CardCreated) {
        r == Err::<AppendEntry, Failure>(
            Failure::Domain(Error::NotAppendable { entry_type: EntryType::CardCreated }),
        )
    } else if flags.schema_version is Some && parse_u32(flags.schema_version->0@) is None {
        refused_as_invalid(
            r,
            "schema-version must be an unsigned integer, got `"@ + flags.schema_version->0@
                + "`"@,
        )
    } else {
        let entry_type = entry_type_named(flags.entry_type->0@)->0;
        let version = match flags.schema_version {
            Some(t) => parse_u32(t@)->0,
            None => CURRENT_SCHEMA_VERSION,
        };
        match r {
            Ok(plan) => payload_args_result(
                entry_type,
                version,
                flags.stage,
                flags.summary,
                flags.payload,
                Ok(plan.payload),
            ) && flags.card_id is Some && plan.card_id@ == flags.card_id->0@ && plan.producer
                == named_producer(flags.producer, flags.producer_kind) && plan.idempotency_key
                == flags.idempotency_key,
            Err(f) => payload_args_result(
                entry_type,
                version,
                flags.stage,
                flags.summary,
                flags.payload,
                Err(f),
            ) || (flags.card_id is None && refused_as_invalid(r, "card-id"@ + " is required"@)
                && payload_args_accepted(
                entry_type,
                version,
                flags.stage,
                flags.summary,
                flags.payload,
            )),
        }
    }
}

/// What `card append` asks of the store, from its flags.
pub fn append_plan(flags: AppendFlags) -> (r: Result<AppendEntry, Failure>)
    ensures
        append_plan_result(flags, r),
{
    let ghost given = flags;
    let AppendFlags {
        card_id,
        entry_type,
        payload,
        stage,
        summary,
        schema_version,
        producer,
        producer_kind,
        idempotency_key,
    } = flags;
    let producer = match require_producer(producer, producer_kind) {
        Ok(p) => p,
        Err(f) => {
            return Err(f);
        },
    };
    let entry_type_text = match require_arg(entry_type, "entry-type") {
        Ok(t) => t,
        Err(f) => {
            return Err(f);
        },
    };
    let entry_type = match entry_type_from_arg(entry_type_text.as_str()) {
        Ok(t) => t,
        Err(f) => {
            return Err(f);
        },
    };
    if entry_type == EntryType::CardCreated {
        return Err(Failure::Domain(Error::NotAppendable { entry_type }));
    }
    let version = match &schema_version {
        Some(t) => schema_version_from_arg(Some(t.as_str())),
        None => schema_version_from_arg(None),
    };
    let version = match version {
        Ok(v) => v,
        Err(f) => {
            return Err(f);
        },
    };
    let payload = match payload_from_args(entry_type, version, stage, summary, payload) {
        Ok(p) => p,
        Err(f) => {
            return Err(f);
        },
    };
    let ghost built = payload;
    let card_id = match card_id {
        Some(c) => CardId::from_text(c),
        None => {
            let res: Result<AppendEntry, Failure> = Err(
                Failure::Invalid(require_message("card-id")),
            );
            assert(payload_args_accepted(
                entry_type_named(given.entry_type->0@)->0,
                match given.schema_version {
                    Some(t) => parse_u32(t@)->0,
                    None => CURRENT_SCHEMA_VERSION,
                },
                given.stage,
                given.summary,
                given.payload,
            )) by {
                assert(payload_args_result(
                    entry_type,
                    version,
                    given.stage,
                    given.summary,
                    given.payload,
                    Ok(built),
                ));
            }
            return res;
        },
    };
    Ok(AppendEntry { card_id, payload, producer, idempotency_key })
}

/// The flags of `card create`, as given.
#[derive(Debug)]
pub struct CreateFlags {
    /// `--title`.
    pub title: Option<String>,
    /// `--task-key`.
    pub task_key: Option<String>,
    /// `--workspace`.
    pub workspace: Option<String>,
    /// `--producer`.
    pub producer: Option<String>,
    /// `--producer-kind`.
    pub producer_kind: Option<String>,
    /// `--idempotency-key`.
    pub idempotency_key: Option<String>,
}

/// What `card create` asks of the store: the producer is checked first,
/// then the title must be given; the optional references and the retry
/// token are carried as given.
pub fn create_request(flags: CreateFlags) -> (r: Result<CreateCard, Failure>)
    ensures
        !producer_named(flags.producer, flags.producer_kind) ==> match r {
            Ok(_) => false,
            Err(f) => producer_result(flags.producer, flags.producer_kind, Err(f)),
        },
        producer_named(flags.producer, flags.producer_kind) && flags.title is None
            ==> refused_as_invalid(r, "title"@ + " is required"@),
        producer_named(flags.producer, flags.producer_kind) && flags.title is Some ==> r
            == Ok::<CreateCard, Failure>(
            CreateCard {
                title: flags.title->0,
                task_key: flags.task_key,
                workspace: flags.workspace,
                producer: named_producer(flags.producer, flags.producer_kind),
                idempotency_key: flags.idempotency_key,
            },
        ),
{
    let CreateFlags { title, task_key, workspace, producer, producer_kind, idempotency_key } =
        flags;
    let producer = match require_producer(producer, producer_kind) {
        Ok(p) => p,
        Err(f) => {
            return Err(f);
        },
    };
    let title = match require_arg(title, "title") {
        Ok(t) => t,
        Err(f) => {
            return Err(f);
        },
    };
    Ok(CreateCard { title, task_key, workspace, producer, idempotency_key })
}

/// The `--entry-type` filter of `card history`: no filter when absent.
pub fn history_filter(text: Option<&str>) -> (r: Result<Option<EntryType>, Failure>)
    ensures
        text is None ==> r == Ok::<Option<EntryType>, Failure>(None),
        text matches Some(t) ==> match entry_type_named(t@) {
            Some(et) => r == Ok::<Option<EntryType>, Failure>(Some(et)),
            None => r matches Err(f) && f matches Failure::Domain(e) && e is UnknownEntryType
                && e->UnknownEntryType_requested@ == t@,
        },
{
    match text {
        None => Ok(None),
        Some(t) => match entry_type_from_arg(t) {
            Ok(et) => Ok(Some(et)),
            Err(f) => Err(f),
        },
    }
}

/// What a successful invocation leaves for stdout: a JSON document to
/// print, or nothing more once the console has served (its startup line
/// is its only output).
#[derive(Debug, Clone, PartialEq, Eq)]
pub enum Control {
    /// Print this JSON document.
    Print(String),
    /// The console served; nothing more is printed.
    Served,
}

/// The bytes of a success on stdout: the document and a newline, or
/// nothing.
pub fn success_output(control: &Control) -> (r: String)
    ensures
        control matches Control::Print(v) ==> r@ == v@ + "\n"@,
        control is Served ==> r@ == Seq::<char>::empty(),
{
    match control {
        Control::Print(v) => {
            let mut s = copy_string(v);
            push_str(&mut s, "\n");
            s
        },
        Control::Served => {
            let s = String::new();
            proof {
                assert(s@ =~= Seq::<char>::empty());
            }
            s
        },
    }
}

/// The report of `card db-path`: `{"db_path":…,"source":…}`.
pub open spec fn db_path_json_text(db_path: Seq<char>, source: Seq<char>) -> Seq<char> {
    "{\"db_path\":"@ + json_string(db_path) + ",\"source\":"@ + json_string(source) + "}"@
}

/// The report of `card db-path` for the resolved configuration.
pub fn db_path_json(config: &Config) -> (r: String)
    ensures
        r@ == db_path_json_text(config.db_path@, source_text(config.source)),
{
    let source = config.source.text();
    let mut s = string_from("{\"db_path\":");
    push_str(&mut s, json_quote(config.db_path.as_str()).as_str());
    push_str(&mut s, ",\"source\":");
    push_str(&mut s, json_quote(source.as_str()).as_str());
    push_str(&mut s, "}");
    s
}

/// The report of a created Card: `{"card_id":…}`.
pub open spec fn created_json_text(card_id: Seq<char>) -> Seq<char> {
    "{\"card_id\":"@ + json_string(card_id) + "}"@
}

/// The report of an accepted append:
/// `{"card_id":…,"entry_id":…,"sequence":…}`.
pub open spec fn appended_json_text(card_id: Seq<char>, entry_id: Seq<char>, sequence: u64) -> Seq<
    char,
> {
    "{\"card_id\":"@ + json_string(card_id) + ",\"entry_id\":"@ + json_string(entry_id)
        + ",\"sequence\":"@ + dec(sequence as nat) + "}"@
}

/// A decimal rendering is printable.
proof fn lemma_dec_printable(n: nat)
    ensures
        printable(dec(n)),
    decreases n,
{
    if n >= 10 {
        lemma_dec_printable(n / 10);
        lemma_printable_concat(dec(n / 10), seq![crate::text::digit_char((n % 10) as int)]);
        assert(dec(n / 10).push(crate::text::digit_char((n % 10) as int)) =~= dec(n / 10) + seq![
            crate::text::digit_char((n % 10) as int),
        ]);
    }
}

/// Every success report of the `card` command is one line: none holds a
/// line break, so each is one line once its newline is written.
pub proof fn law_success_reports_are_one_line(
    db_path: Seq<char>,
    source: ConfigSource,
    card_id: Seq<char>,
    entry_id: Seq<char>,
    sequence: u64,
)
    ensures
        printable(db_path_json_text(db_path, source_text(source))),
        printable(created_json_text(card_id)),
        printable(appended_json_text(card_id, entry_id, sequence)),
{
    reveal_strlit("{\"db_path\":");
    reveal_strlit(",\"source\":");
    reveal_strlit("}");
    reveal_strlit("{\"card_id\":");
    reveal_strlit(",\"entry_id\":");
    reveal_strlit(",\"sequence\":");
    let d0 = "{\"db_path\":"@;
    let d1 = ",\"source\":"@;
    let c0 = "{\"card_id\":"@;
    let e1 = ",\"entry_id\":"@;
    let q1 = ",\"sequence\":"@;
    let z = "}"@;
    assert(printable(d0) && printable(d1) && printable(c0) && printable(e1) && printable(q1)
        && printable(z));
    lemma_json_string_printable(db_path);
    lemma_json_string_printable(source_text(source));
    lemma_json_string_printable(card_id);
    lemma_json_string_printable(entry_id);
    lemma_dec_printable(sequence as nat);
    lemma_printable_concat(d0, json_string(db_path));
    lemma_printable_concat(d0 + json_string(db_path), d1);
    lemma_printable_concat(d0 + json_string(db_path) + d1, json_string(source_text(source)));
    lemma_printable_concat(d0 + json_string(db_path) + d1 + json_string(source_text(source)), z);
    lemma_printable_concat(c0, json_string(card_id));
    lemma_printable_concat(c0 + json_string(card_id), z);
    lemma_printable_concat(c0 + json_string(card_id), e1);
    lemma_printable_concat(c0 + json_string(card_id) + e1, json_string(entry_id));
    lemma_printable_concat(c0 + json_string(card_id) + e1 + json_string(entry_id), q1);
    lemma_printable_concat(
        c0 + json_string(card_id) + e1 + json_string(entry_id) + q1,
        dec(sequence as nat),
    );
    lemma_printable_concat(
        c0 + json_string(card_id) + e1 + json_string(entry_id) + q1 + dec(sequence as nat),
        z,
    );
}

/// The report of a created Card.
pub fn created_json(card_id: &CardId) -> (r: String)
    ensures
        r@ == created_json_text(card_id@),
{
    let mut s = string_from("{\"card_id\":");
    push_str(&mut s, json_quote(card_id.as_str()).as_str());
    push_str(&mut s, "}");
    s
}

/// The report of an accepted append.
pub fn appended_json(card_id: &CardId, accepted: &Accepted) -> (r: String)
    ensures
        r@ == appended_json_text(card_id@, accepted.entry_id@, accepted.sequence),
{
    let mut s = string_from("{\"card_id\":");
    push_str(&mut s, json_quote(card_id.as_str()).as_str());
    push_str(&mut s, ",\"entry_id\":");
    push_str(&mut s, json_quote(accepted.entry_id.as_str()).as_str());
    push_str(&mut s, ",\"sequence\":");
    push_u64(&mut s, accepted.sequence);
    push_str(&mut s, "}");
    s
}

} // verus!
