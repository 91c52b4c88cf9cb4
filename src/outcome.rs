use vstd::prelude::*;
use crate::items::{
    dimensions_value, is_random_uuid, new_item, number_value, record_of, request_of, submission_error, zero_price,
    CreateItemRequest, Item, ValidationError,
};
use crate::json::{present, JsonValue};

verus! {

/// How a submission ended.
pub enum Outcome {
    /// The body was rejected before anything was stored.
    ValidationFailed(ValidationError),
    /// The datastore refused or failed the write; the text describes why.
    PersistenceFailed(String),
    /// The record was stored.
    Succeeded,
}

/// The response status of each outcome; no response carries a body.
pub open spec fn status_of(o: Outcome) -> u16 {
    match o {
        Outcome::ValidationFailed(_) => 400,
        Outcome::PersistenceFailed(_) => 500,
        Outcome::Succeeded => 201,
    }
}

/// The response status of an outcome: 400 for a rejected body, 500 for a
/// failed write, 201 for a stored record.
pub fn status_code(o: &Outcome) -> (r: u16)
    ensures
        r == status_of(*o),
{
    match o {
        Outcome::ValidationFailed(_) => 400,
        Outcome::PersistenceFailed(_) => 500,
        Outcome::Succeeded => 201,
    }
}

/// Severity of a log event.
#[derive(PartialEq, Eq, Structural, Clone, Copy, Debug)]
pub enum LogLevel {
    Info,
    Error,
}

/// A structured log event within the scope of one request.
pub struct LogEvent {
    pub level: LogLevel,
    pub message: String,
}

/// The message logged when a write begins.
pub open spec fn start_message() -> Seq<char> {
    "Processing new item creation request"@
}

/// The message logged when a write succeeded.
pub open spec fn saved_message() -> Seq<char> {
    "New item has been saved to the database"@
}

/// The message logged when a write failed, with the failure's detail.
pub open spec fn failure_message(detail: Seq<char>) -> Seq<char> {
    "Failed to save item: "@ + detail
}

/// The informational event logged before the write is issued.
pub fn persistence_started() -> (r: LogEvent)
    ensures
        r.level == LogLevel::Info,
        r.message@ == start_message(),
{
    LogEvent { level: LogLevel::Info, message: String::from_str("Processing new item creation request") }
}

/// What follows the write: its outcome, with the event to log. A success
/// is logged at info level; a failure at error level, carrying the detail.
pub fn finish_write(result: Result<(), String>) -> (r: (Outcome, LogEvent))
    ensures
        match result {
            Ok(_) => {
                &&& r.0 is Succeeded
                &&& r.1.level == LogLevel::Info
                &&& r.1.message@ == saved_message()
            },
            Err(d) => {
                &&& r.0 matches Outcome::PersistenceFailed(e) && e@ == d@
                &&& r.1.level == LogLevel::Error
                &&& r.1.message@ == failure_message(d@)
            },
        },
        status_of(r.0) == if result is Ok { 201u16 } else { 500u16 },
{
    match result {
        Ok(_) => (
            Outcome::Succeeded,
            LogEvent {
                level: LogLevel::Info,
                message: String::from_str("New item has been saved to the database"),
            },
        ),
        Err(d) => {
            let mut message = String::from_str("Failed to save item: ");
            message.append(d.as_str());
            (Outcome::PersistenceFailed(d), LogEvent { level: LogLevel::Error, message })
        },
    }
}

/// The first step of an ingestion: a submitted body becomes either the
/// record to write or the rejection to answer with.
pub fn begin_ingest(body: &JsonValue) -> (r: Result<Item, Outcome>)
    ensures
        match r {
            Ok(item) => submission_error(*body) is None && is_random_uuid(item.id) && exists|req: CreateItemRequest|
                request_of(*body, req) && record_of(req, item.id, item.created_at, item),
            Err(o) => o matches Outcome::ValidationFailed(e) && submission_error(*body) == Some(e),
        },
{
    match crate::items::validate_item(body) {
        Ok(req) => {
            let ghost g = req;
            let item = new_item(req);
            assert(request_of(*body, g) && record_of(g, item.id, item.created_at, item));
            Ok(item)
        },
        Err(e) => Err(Outcome::ValidationFailed(e)),
    }
}

/// Every valid submission is stored with exactly the weight and the three
/// extents it carried: no rounding, no truncation.
pub proof fn lemma_measures_kept(body: JsonValue, req: CreateItemRequest, item: Item)
    requires
        submission_error(body) is None,
        request_of(body, req),
        record_of(req, item.id, item.created_at, item),
    ensures
        item.weight == number_value(body, "weight"@),
        item.dimensions == dimensions_value(body),
{
}

/// A dimensions object that lacks any one of length, width and height is
/// always rejected with a client error, whichever of the three is missing
/// and whatever the rest of the body holds.
pub proof fn lemma_incomplete_dimensions_rejected(body: JsonValue, d: JsonValue)
    requires
        body is Object,
        present(body, "dimensions"@) == Some(d),
        d is Object,
        present(d, "length"@) is None || present(d, "width"@) is None || present(
            d,
            "height"@,
        ) is None,
    ensures
        submission_error(body) is Some,
        status_of(Outcome::ValidationFailed(submission_error(body)->0)) == 400,
{
}

/// A valid submission without a price is stored with price zero; one
/// without a pickup flag is stored with the flag false.
pub proof fn lemma_absent_options_default(body: JsonValue, req: CreateItemRequest, item: Item)
    requires
        submission_error(body) is None,
        request_of(body, req),
        record_of(req, item.id, item.created_at, item),
    ensures
        present(body, "price"@) is None ==> item.price == zero_price(),
        present(body, "pickup_required"@) is None ==> !item.pickup_required,
{
}

} // verus!
