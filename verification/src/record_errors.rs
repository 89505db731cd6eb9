//! How failures of record APIs show to their callers: database errors become record
//! errors, and record errors become an HTTP status with an optional plain-text body.
use vstd::prelude::*;

use crate::records::RecordError;

verus! {

/// A database error as record APIs see it: no row, a failure with SQLite's extended
/// result code, or anything else (its message).
#[derive(Clone, Debug, PartialEq, Eq)]
pub enum DbError {
    QueryReturnedNoRows,
    SqliteFailure(i32),
    Other(String),
}

/// The message of a constraint violation by its extended result code.
pub open spec fn constraint_message(code: i32) -> Option<&'static str> {
    if code == 275 {
        Some("sqlite constraint: check")
    } else if code == 531 {
        Some("sqlite constraint: commit hook")
    } else if code == 3091 {
        Some("sqlite constraint: data type")
    } else if code == 787 {
        Some("sqlite constraint: fk")
    } else if code == 1043 {
        Some("sqlite constraint: function")
    } else if code == 1299 {
        Some("sqlite constraint: not null")
    } else if code == 2835 {
        Some("sqlite constraint: pinned")
    } else if code == 1555 {
        Some("sqlite constraint: pk")
    } else if code == 2579 {
        Some("sqlite constraint: row id")
    } else if code == 1811 {
        Some("sqlite constraint: trigger")
    } else if code == 2067 {
        Some("sqlite constraint: unique")
    } else if code == 2323 {
        Some("sqlite constraint: vtab")
    } else {
        None
    }
}

fn constraint_text(code: i32) -> (r: Option<&'static str>)
    ensures
        r == constraint_message(code),
{
    match code {
        275 => Some("sqlite constraint: check"),
        531 => Some("sqlite constraint: commit hook"),
        3091 => Some("sqlite constraint: data type"),
        787 => Some("sqlite constraint: fk"),
        1043 => Some("sqlite constraint: function"),
        1299 => Some("sqlite constraint: not null"),
        2835 => Some("sqlite constraint: pinned"),
        1555 => Some("sqlite constraint: pk"),
        2579 => Some("sqlite constraint: row id"),
        1811 => Some("sqlite constraint: trigger"),
        2067 => Some("sqlite constraint: unique"),
        2323 => Some("sqlite constraint: vtab"),
        _ => None,
    }
}

/// The record error of a database error: no row means no record, a constraint violation
/// is a bad request naming the constraint, anything else is internal.
pub fn record_error_from_db(e: DbError) -> (r: RecordError)
    ensures
        match e {
            DbError::QueryReturnedNoRows => r == RecordError::RecordNotFound,
            DbError::SqliteFailure(code) => match constraint_message(code) {
                Some(m) => r == RecordError::BadRequest(m),
                None => r is Internal,
            },
            DbError::Other(m) => r == RecordError::Internal(m),
        },
{
    match e {
        DbError::QueryReturnedNoRows => RecordError::RecordNotFound,
        DbError::SqliteFailure(code) => match constraint_text(code) {
            Some(m) => RecordError::BadRequest(m),
            None => RecordError::Internal(String::from_str("sqlite failure")),
        },
        DbError::Other(m) => RecordError::Internal(m),
    }
}

/// The HTTP status of a record error: unknown APIs and APIs without a table are 405, a
/// missing record 404, a refusal 403, a bad request 400 and the rest 500.
pub open spec fn error_status(e: RecordError) -> u16 {
    match e {
        RecordError::ApiNotFound => 405,
        RecordError::ApiRequiresTable => 405,
        RecordError::RecordNotFound => 404,
        RecordError::Forbidden => 403,
        RecordError::BadRequest(_) => 400,
        RecordError::Internal(_) => 500,
    }
}

/// The HTTP status of each record error: 405 Method Not Allowed for an unknown API or
/// one without a table, 404 for a missing record, 403 for a refusal, 400 for a bad
/// request and 500 for an internal error.
pub proof fn lemma_error_statuses(m: &'static str, s: String)
    ensures
        error_status(RecordError::ApiNotFound) == 405,
        error_status(RecordError::ApiRequiresTable) == 405,
        error_status(RecordError::RecordNotFound) == 404,
        error_status(RecordError::Forbidden) == 403,
        error_status(RecordError::BadRequest(m)) == 400,
        error_status(RecordError::Internal(s)) == 500,
{
}

/// The response to a record error: its status, and as plain text the message of a bad
/// request, or of an internal error in debug builds only.
pub fn error_response(e: &RecordError, debug: bool) -> (r: (u16, Option<String>))
    ensures
        r.0 == error_status(*e),
        match e {
            RecordError::BadRequest(m) => r.1 matches Some(b) && b@ == m@,
            RecordError::Internal(m) => if debug {
                r.1 matches Some(b) && b@ == m@
            } else {
                r.1 is None
            },
            _ => r.1 is None,
        },
{
    match e {
        RecordError::ApiNotFound => (405, None),
        RecordError::ApiRequiresTable => (405, None),
        RecordError::RecordNotFound => (404, None),
        RecordError::Forbidden => (403, None),
        RecordError::BadRequest(m) => (400, Some(String::from_str(m))),
        RecordError::Internal(m) => if debug {
            (500, Some(m.clone()))
        } else {
            (500, None)
        },
    }
}

} // verus!
