//! The Card store's failure contract: one explicit enum, its messages, and
//! the stable five-way category taxonomy agents branch on. A failure's
//! cause (an operating-system, JSON or database error) is carried as its
//! description and never interpolated into the message.
use vstd::prelude::*;

use crate::card::console::{loopback_text, LoopbackAddr};
use crate::card::domain::{entry_type_text, CardId, EntryId, EntryType};
use crate::card::storage::{incompatibility_text, SchemaIncompatibility};
use crate::text::{dec, push_str, push_u64, string_from};

verus! {

/// Which store operation a failure belongs to.
#[derive(Debug, Clone, Copy, PartialEq, Eq, Structural)]
pub enum StorageContext {
    /// Opening the database and configuring WAL.
    Open,
    /// Running embedded migrations.
    Migrate,
    /// Creating a Card with its card-created entry.
    CreateCard,
    /// Appending an entry.
    AppendEntry,
    /// Reading a Card's history.
    ReadHistory,
    /// Listing Cards.
    ListCards,
    /// Opening an existing database read-only.
    OpenReadOnly,
    /// Verifying migration history.
    VerifySchema,
    /// Reading the queue.
    Queue,
    /// Reading one entry.
    ReadEntry,
}

/// The name of a storage context.
pub open spec fn context_text(c: StorageContext) -> Seq<char> {
    match c {
        StorageContext::Open => "open"@,
        StorageContext::Migrate => "migrate"@,
        StorageContext::CreateCard => "create-card"@,
        StorageContext::AppendEntry => "append-entry"@,
        StorageContext::ReadHistory => "read-history"@,
        StorageContext::ListCards => "list-cards"@,
        StorageContext::OpenReadOnly => "open-read-only"@,
        StorageContext::VerifySchema => "verify-schema"@,
        StorageContext::Queue => "queue"@,
        StorageContext::ReadEntry => "read-entry"@,
    }
}

impl StorageContext {
    /// The context's name.
    pub fn text(&self) -> (r: String)
        ensures
            r@ == context_text(*self),
    {
        match self {
            StorageContext::Open => string_from("open"),
            StorageContext::Migrate => string_from("migrate"),
            StorageContext::CreateCard => string_from("create-card"),
            StorageContext::AppendEntry => string_from("append-entry"),
            StorageContext::ReadHistory => string_from("read-history"),
            StorageContext::ListCards => string_from("list-cards"),
            StorageContext::OpenReadOnly => string_from("open-read-only"),
            StorageContext::VerifySchema => string_from("verify-schema"),
            StorageContext::Queue => string_from("queue"),
            StorageContext::ReadEntry => string_from("read-entry"),
        }
    }
}

/// The five-way failure taxonomy of the machine-facing contract.
#[derive(Debug, Clone, Copy, PartialEq, Eq, Structural)]
pub enum ErrorCategory {
    /// The request was rejected before touching the record.
    Validation,
    /// An idempotency key was reused with different content.
    Conflict,
    /// The addressed Card does not exist.
    Missing,
    /// The store itself failed.
    Storage,
    /// An unavailable external resource.
    Unavailable,
}

/// The name of a category.
pub open spec fn category_text(c: ErrorCategory) -> Seq<char> {
    match c {
        ErrorCategory::Validation => "validation"@,
        ErrorCategory::Conflict => "conflict"@,
        ErrorCategory::Missing => "missing"@,
        ErrorCategory::Storage => "storage"@,
        ErrorCategory::Unavailable => "unavailable"@,
    }
}

impl ErrorCategory {
    /// The category's name.
    pub fn text(&self) -> (r: String)
        ensures
            r@ == category_text(*self),
    {
        match self {
            ErrorCategory::Validation => string_from("validation"),
            ErrorCategory::Conflict => string_from("conflict"),
            ErrorCategory::Missing => string_from("missing"),
            ErrorCategory::Storage => string_from("storage"),
            ErrorCategory::Unavailable => string_from("unavailable"),
        }
    }
}

/// Every way the Card store can refuse or fail.
#[derive(Debug, Clone, PartialEq, Eq)]
pub enum Error {
    /// The requested database file is absent.
    DatabaseMissing { path: String },
    /// The database migration history does not match this build.
    SchemaIncompatible { path: String, reason: SchemaIncompatibility },
    /// Binding the loopback socket failed.
    Bind { addr: LoopbackAddr, source: String },
    /// Publishing the startup line failed.
    PublishStartup { source: String },
    /// The accept loop failed.
    Serve { source: String },
    /// The entry is not a member of the addressed Card.
    EntryNotFound { card_id: CardId, entry_id: EntryId },
    /// The requested entry type is not in the closed vocabulary.
    UnknownEntryType { requested: String },
    /// The requested producer kind is not `agent`, `operator` or `factory`.
    UnknownProducerKind { requested: String },
    /// The schema version is not one this build can validate for the type.
    UnknownSchemaVersion { entry_type: EntryType, requested: u32 },
    /// The payload JSON did not parse as the claimed type and version.
    MalformedPayload { entry_type: EntryType, source: String },
    /// The request carried no producer identity or kind.
    MissingProducer,
    /// A required field was empty or whitespace-only.
    BlankField { field: String },
    /// The entry type is written by the store itself and cannot be appended.
    NotAppendable { entry_type: EntryType },
    /// An idempotency key was reused with different content.
    IdempotencyConflict { key: String },
    /// The addressed Card does not exist.
    CardNotFound { card_id: CardId },
    /// A stored value violated the store's own invariants.
    Corrupt { context: StorageContext },
    /// The underlying store failed.
    Storage { context: StorageContext, source: String },
    /// A summary field contained a CR or LF.
    NotSingleLine { field: String },
    /// A JSON object carried the same member name twice at some depth.
    DuplicateJsonMember { name: String },
}

/// The category of a failure.
pub open spec fn category_of(e: Error) -> ErrorCategory {
    match e {
        Error::DatabaseMissing { .. } => ErrorCategory::Missing,
        Error::EntryNotFound { .. } => ErrorCategory::Missing,
        Error::CardNotFound { .. } => ErrorCategory::Missing,
        Error::SchemaIncompatible { .. } => ErrorCategory::Unavailable,
        Error::Bind { .. } => ErrorCategory::Unavailable,
        Error::PublishStartup { .. } => ErrorCategory::Unavailable,
        Error::Serve { .. } => ErrorCategory::Unavailable,
        Error::IdempotencyConflict { .. } => ErrorCategory::Conflict,
        Error::Corrupt { .. } => ErrorCategory::Storage,
        Error::Storage { .. } => ErrorCategory::Storage,
        _ => ErrorCategory::Validation,
    }
}

/// The message of a failure.
pub open spec fn error_text(e: Error) -> Seq<char> {
    match e {
        Error::DatabaseMissing { path } => "no database at "@ + path@,
        Error::SchemaIncompatible { path, reason } => "database "@ + path@ + " schema is "@
            + incompatibility_text(reason),
        Error::Bind { addr, .. } => "cannot bind "@ + loopback_text(addr@),
        Error::PublishStartup { .. } => "startup line could not be published"@,
        Error::Serve { .. } => "console server failed"@,
        Error::EntryNotFound { card_id, entry_id } => "no entry `"@ + entry_id@ + "` on Card `"@
            + card_id@ + "`"@,
        Error::UnknownEntryType { requested } => "unknown entry type `"@ + requested@ + "`"@,
        Error::UnknownProducerKind { requested } => "unknown producer kind `"@ + requested@
            + "` (expected agent, operator, or factory)"@,
        Error::UnknownSchemaVersion { entry_type, requested } => "unknown schema version "@
            + dec(requested as nat) + " for entry type `"@ + entry_type_text(entry_type) + "`"@,
        Error::MalformedPayload { entry_type, .. } => "payload does not parse as entry type `"@
            + entry_type_text(entry_type) + "`"@,
        Error::MissingProducer => "producer identity and kind are required on every entry"@,
        Error::BlankField { field } => field@ + " must not be empty or whitespace-only"@,
        Error::NotAppendable { entry_type } => "entry type `"@ + entry_type_text(entry_type)
            + "` is written by the store and cannot be appended"@,
        Error::IdempotencyConflict { key } => "idempotency key `"@ + key@
            + "` was already used with different content"@,
        Error::CardNotFound { card_id } => "no Card with id `"@ + card_id@ + "`"@,
        Error::Corrupt { context } => "stored data violated store invariants during "@
            + context_text(context),
        Error::Storage { context, .. } => "storage failure during "@ + context_text(context),
        Error::NotSingleLine { field } => field@ + " contains a line break (CR or LF)"@,
        Error::DuplicateJsonMember { name } => "json object has duplicate member `"@ + name@
            + "` at some nesting depth"@,
    }
}

/// The cause behind a failure, when there is one.
pub open spec fn error_cause(e: Error) -> Option<Seq<char>> {
    match e {
        Error::Bind { source, .. } => Some(source@),
        Error::PublishStartup { source } => Some(source@),
        Error::Serve { source } => Some(source@),
        Error::MalformedPayload { source, .. } => Some(source@),
        Error::Storage { source, .. } => Some(source@),
        _ => None,
    }
}

impl Error {
    /// The stable category agents branch on.
    pub fn category(&self) -> (r: ErrorCategory)
        ensures
            r == category_of(*self),
    {
        match self {
            Error::DatabaseMissing { .. } | Error::EntryNotFound { .. } | Error::CardNotFound {
                ..
            } => ErrorCategory::Missing,
            Error::SchemaIncompatible { .. } | Error::Bind { .. } | Error::PublishStartup { .. }
            | Error::Serve { .. } => ErrorCategory::Unavailable,
            Error::UnknownEntryType { .. } | Error::UnknownProducerKind { .. }
            | Error::UnknownSchemaVersion { .. } | Error::MalformedPayload { .. }
            | Error::MissingProducer | Error::BlankField { .. } | Error::NotAppendable { .. }
            | Error::NotSingleLine { .. } | Error::DuplicateJsonMember { .. } => {
                ErrorCategory::Validation
            },
            Error::IdempotencyConflict { .. } => ErrorCategory::Conflict,
            Error::Corrupt { .. } | Error::Storage { .. } => ErrorCategory::Storage,
        }
    }

    /// The message describing this failure.
    pub fn message(&self) -> (r: String)
        ensures
            r@ == error_text(*self),
    {
        match self {
            Error::DatabaseMissing { path } => {
                let mut s = string_from("no database at ");
                push_str(&mut s, path.as_str());
                s
            },
            Error::SchemaIncompatible { path, reason } => {
                let mut s = string_from("database ");
                push_str(&mut s, path.as_str());
                push_str(&mut s, " schema is ");
                let r = reason.text();
                push_str(&mut s, r.as_str());
                s
            },
            Error::Bind { addr, .. } => {
                let mut s = string_from("cannot bind ");
                let a = addr.text();
                push_str(&mut s, a.as_str());
                s
            },
            Error::PublishStartup { .. } => string_from("startup line could not be published"),
            Error::Serve { .. } => string_from("console server failed"),
            Error::EntryNotFound { card_id, entry_id } => {
                let mut s = string_from("no entry `");
                push_str(&mut s, entry_id.as_str());
                push_str(&mut s, "` on Card `");
                push_str(&mut s, card_id.as_str());
                push_str(&mut s, "`");
                s
            },
            Error::UnknownEntryType { requested } => {
                let mut s = string_from("unknown entry type `");
                push_str(&mut s, requested.as_str());
                push_str(&mut s, "`");
                s
            },
            Error::UnknownProducerKind { requested } => {
                let mut s = string_from("unknown producer kind `");
                push_str(&mut s, requested.as_str());
                push_str(&mut s, "` (expected agent, operator, or factory)");
                s
            },
            Error::UnknownSchemaVersion { entry_type, requested } => {
                let mut s = string_from("unknown schema version ");
                push_u64(&mut s, *requested as u64);
                push_str(&mut s, " for entry type `");
                let t = entry_type.text();
                push_str(&mut s, t.as_str());
                push_str(&mut s, "`");
                s
            },
            Error::MalformedPayload { entry_type, .. } => {
                let mut s = string_from("payload does not parse as entry type `");
                let t = entry_type.text();
                push_str(&mut s, t.as_str());
                push_str(&mut s, "`");
                s
            },
            Error::MissingProducer => string_from(
                "producer identity and kind are required on every entry",
            ),
            Error::BlankField { field } => {
                let mut s = string_from(field.as_str());
                push_str(&mut s, " must not be empty or whitespace-only");
                s
            },
            Error::NotAppendable { entry_type } => {
                let mut s = string_from("entry type `");
                let t = entry_type.text();
                push_str(&mut s, t.as_str());
                push_str(&mut s, "` is written by the store and cannot be appended");
                s
            },
            Error::IdempotencyConflict { key } => {
                let mut s = string_from("idempotency key `");
                push_str(&mut s, key.as_str());
                push_str(&mut s, "` was already used with different content");
                s
            },
            Error::CardNotFound { card_id } => {
                let mut s = string_from("no Card with id `");
                push_str(&mut s, card_id.as_str());
                push_str(&mut s, "`");
                s
            },
            Error::Corrupt { context } => {
                let mut s = string_from("stored data violated store invariants during ");
                let c = context.text();
                push_str(&mut s, c.as_str());
                s
            },
            Error::Storage { context, .. } => {
                let mut s = string_from("storage failure during ");
                let c = context.text();
                push_str(&mut s, c.as_str());
                s
            },
            Error::NotSingleLine { field } => {
                let mut s = string_from(field.as_str());
                push_str(&mut s, " contains a line break (CR or LF)");
                s
            },
            Error::DuplicateJsonMember { name } => {
                let mut s = string_from("json object has duplicate member `");
                push_str(&mut s, name.as_str());
                push_str(&mut s, "` at some nesting depth");
                s
            },
        }
    }

    /// The cause behind this failure, when there is one.
    pub fn cause(&self) -> (r: Option<&String>)
        ensures
            r matches Some(c) ==> error_cause(*self) == Some(c@),
            r is None ==> error_cause(*self) is None,
    {
        match self {
            Error::Bind { source, .. } => Some(source),
            Error::PublishStartup { source } => Some(source),
            Error::Serve { source } => Some(source),
            Error::MalformedPayload { source, .. } => Some(source),
            Error::Storage { source, .. } => Some(source),
            _ => None,
        }
    }
}

} // verus!
