//! The SQL functions the database is extended with, over the plain value of their
//! argument: UUID checks and conversions, and JSON validation.
use vstd::prelude::*;

use crate::qs::{parse_uuid, uuid_parsed};
use crate::json_schema::{json_parses, parse_json};
use crate::records::{SqlValue, SqlValueV};

verus! {

/// Why a call of one of the SQL functions failed.
#[derive(Clone, Debug, PartialEq, Eq)]
pub enum SqlFunctionError {
    /// The blob is not 16 bytes long, or the text is no UUID.
    InvalidUuid,
    /// The argument's type is not one the function takes; the message says so.
    UnexpectedType(String),
    /// The argument is neither text nor `NULL`.
    NotText,
}

/// The name of the SQL type of a value.
pub open spec fn sql_type_name(v: SqlValueV) -> Seq<char> {
    match v {
        SqlValueV::Null => "Null"@,
        SqlValueV::Integer(_) => "Integer"@,
        SqlValueV::Real(_) => "Real"@,
        SqlValueV::Text(_) => "Text"@,
        SqlValueV::Blob(_) => "Blob"@,
    }
}

/// The type names that errors report: `Null`, `Integer`, `Real`, `Text` and `Blob`.
pub proof fn lemma_sql_type_names(i: i64, r: Seq<char>, t: Seq<char>, b: Seq<u8>)
    ensures
        sql_type_name(SqlValueV::Null) == "Null"@,
        sql_type_name(SqlValueV::Integer(i)) == "Integer"@,
        sql_type_name(SqlValueV::Real(r)) == "Real"@,
        sql_type_name(SqlValueV::Text(t)) == "Text"@,
        sql_type_name(SqlValueV::Blob(b)) == "Blob"@,
{
}

fn type_text(v: &SqlValue) -> (r: &'static str)
    ensures
        r@ == sql_type_name(v@),
{
    match v {
        SqlValue::Null => "Null",
        SqlValue::Integer(_) => "Integer",
        SqlValue::Real(_) => "Real",
        SqlValue::Text(_) => "Text",
        SqlValue::Blob(_) => "Blob",
    }
}

/// The lowercase hex digit of a value below 16.
pub open spec fn hex_digit(n: u8) -> char {
    if n < 10 {
        (48 + n) as char
    } else {
        (87 + n) as char
    }
}

/// Two lowercase hex digits per byte.
pub open spec fn hex_bytes(b: Seq<u8>) -> Seq<char>
    decreases b.len(),
{
    if b.len() == 0 {
        Seq::empty()
    } else {
        hex_bytes(b.drop_last()) + seq![hex_digit(b.last() >> 4), hex_digit(b.last() & 0x0f)]
    }
}

/// The hyphenated form of a UUID: its bytes in hex, grouped 4-2-2-2-6.
pub open spec fn hyphenated(b: Seq<u8>) -> Seq<char> {
    hex_bytes(b.subrange(0, 4)) + "-"@ + hex_bytes(b.subrange(4, 6)) + "-"@ + hex_bytes(b.subrange(6, 8))
        + "-"@ + hex_bytes(b.subrange(8, 10)) + "-"@ + hex_bytes(b.subrange(10, 16))
}

/// `uuid::Uuid::from_slice`: a UUID exactly when there are 16 bytes, which it keeps as
/// they are.
#[verifier::external_body]
fn uuid_from_slice(b: &[u8]) -> (r: Option<[u8; 16]>)
    ensures
        r is Some <==> b@.len() == 16,
        r matches Some(u) ==> u@ == b@,
{
    uuid::Uuid::from_slice(b).ok().map(|u| *u.as_bytes())
}

/// `uuid::Uuid::get_version_num`: the high nibble of byte 6.
#[verifier::external_body]
fn uuid_version_num(u: &[u8; 16]) -> (r: usize)
    ensures
        r == (u@[6] >> 4) as usize,
{
    uuid::Uuid::from_bytes(*u).get_version_num()
}

/// `uuid::Uuid::now_v7`: a new UUID from the clock and random bits, with version 7 in
/// the high nibble of byte 6 and the RFC 4122 variant in the top bits of byte 8.
#[verifier::external_body]
fn uuid_now_v7() -> (r: [u8; 16])
    ensures
        r@[6] >> 4 == 7,
        r@[8] >> 6 == 2,
{
    *uuid::Uuid::now_v7().as_bytes()
}

/// `uuid::Uuid::to_string`: the hyphenated, lowercase form.
#[verifier::external_body]
fn uuid_to_text(u: &[u8; 16]) -> (r: String)
    ensures
        r@ == hyphenated(u@),
{
    uuid::Uuid::from_bytes(*u).to_string()
}

/// Whether `serde_json` reads the text as a JSON value.
pub(crate) fn is_json_text(s: &str) -> (r: bool)
    ensures
        r == json_parses(s@),
{
    match parse_json(s) {
        Ok(_) => true,
        Err(_) => false,
    }
}

/// The UUID in a blob argument, `None` for `NULL`: other types and blobs that are not 16
/// bytes are refused.
pub fn unpack_uuid_or_null(arg: &SqlValue) -> (r: Result<Option<[u8; 16]>, SqlFunctionError>)
    ensures
        match arg@ {
            SqlValueV::Null => r == Ok::<Option<[u8; 16]>, SqlFunctionError>(None),
            SqlValueV::Blob(b) => if b.len() == 16 {
                r matches Ok(Some(u)) && u@ == b
            } else {
                r == Err::<Option<[u8; 16]>, SqlFunctionError>(SqlFunctionError::InvalidUuid)
            },
            _ => r matches Err(SqlFunctionError::UnexpectedType(m)) && m@ == "Expected BLOB column type."@,
        },
{
    match arg {
        SqlValue::Null => Ok(None),
        SqlValue::Blob(b) => match uuid_from_slice(b.as_slice()) {
            Some(u) => Ok(Some(u)),
            None => Err(SqlFunctionError::InvalidUuid),
        },
        _ => Err(SqlFunctionError::UnexpectedType(String::from_str("Expected BLOB column type."))),
    }
}

/// `is_uuid(x)`: whether `x` is a 16-byte blob or `NULL`, so that it can check nullable
/// columns.
pub fn is_uuid(arg: &SqlValue) -> (r: bool)
    ensures
        r == (arg@ is Null || (arg@ matches SqlValueV::Blob(b) && b.len() == 16)),
{
    unpack_uuid_or_null(arg).is_ok()
}

/// `is_uuid_v7(x)`: whether `x` is a version 7 UUID blob or `NULL`.
pub fn is_uuid_v7(arg: &SqlValue) -> (r: Result<bool, SqlFunctionError>)
    ensures
        match arg@ {
            SqlValueV::Null => r == Ok::<bool, SqlFunctionError>(true),
            SqlValueV::Blob(b) => if b.len() == 16 {
                r == Ok::<bool, SqlFunctionError>(b[6] >> 4 == 7)
            } else {
                r == Err::<bool, SqlFunctionError>(SqlFunctionError::InvalidUuid)
            },
            _ => r matches Err(SqlFunctionError::UnexpectedType(m)) && m@ == "Expected BLOB column type."@,
        },
{
    match unpack_uuid_or_null(arg) {
        Ok(Some(u)) => Ok(uuid_version_num(&u) == 7),
        Ok(None) => Ok(true),
        Err(e) => Err(e),
    }
}

/// `uuid_v7()`: a new version 7 UUID as a blob.
pub fn uuid_v7() -> (r: Vec<u8>)
    ensures
        r@.len() == 16,
        r@[6] >> 4 == 7,
        r@[8] >> 6 == 2,
{
    let u = uuid_now_v7();
    let mut r: Vec<u8> = Vec::new();
    let mut i: usize = 0;
    while i < 16
        invariant
            i <= 16,
            r@ == u@.take(i as int),
        decreases 16 - i,
    {
        r.push(u[i]);
        proof {
            assert(u@.take(i + 1) =~= u@.take(i as int).push(u@[i as int]));
        }
        i += 1;
    }
    proof {
        assert(u@.take(16) =~= u@);
    }
    r
}

/// `uuid_text(x)`: the hyphenated text of the UUID blob `x`.
pub fn uuid_text(arg: &SqlValue) -> (r: Result<String, SqlFunctionError>)
    ensures
        match arg@ {
            SqlValueV::Blob(b) => if b.len() == 16 {
                r matches Ok(s) && s@ == hyphenated(b)
            } else {
                r == Err::<String, SqlFunctionError>(SqlFunctionError::InvalidUuid)
            },
            other => r matches Err(SqlFunctionError::UnexpectedType(m)) && m@ == "Expected UUID blob, got "@
                + sql_type_name(other),
        },
{
    match arg {
        SqlValue::Blob(b) => match uuid_from_slice(b.as_slice()) {
            Some(u) => Ok(uuid_to_text(&u)),
            None => Err(SqlFunctionError::InvalidUuid),
        },
        other => {
            let mut m = String::from_str("Expected UUID blob, got ");
            m.append(type_text(other));
            Err(SqlFunctionError::UnexpectedType(m))
        },
    }
}

/// `uuid_parse(x)`: the 16 bytes of the UUID written in the text `x`.
pub fn uuid_parse(arg: &SqlValue) -> (r: Result<Vec<u8>, SqlFunctionError>)
    ensures
        match arg@ {
            SqlValueV::Text(s) => match uuid_parsed(s) {
                Some(b) => r matches Ok(v) && v@ == b,
                None => r == Err::<Vec<u8>, SqlFunctionError>(SqlFunctionError::InvalidUuid),
            },
            other => r matches Err(SqlFunctionError::UnexpectedType(m)) && m@ == "Expected text, got "@
                + sql_type_name(other),
        },
{
    match arg {
        SqlValue::Text(s) => match parse_uuid(s.as_str()) {
            Some(b) => Ok(b),
            None => Err(SqlFunctionError::InvalidUuid),
        },
        other => {
            let mut m = String::from_str("Expected text, got ");
            m.append(type_text(other));
            Err(SqlFunctionError::UnexpectedType(m))
        },
    }
}

/// `is_json(x)`: whether the text `x` is JSON; `NULL` passes.
pub fn is_json(arg: &SqlValue) -> (r: Result<bool, SqlFunctionError>)
    ensures
        match arg@ {
            SqlValueV::Null => r == Ok::<bool, SqlFunctionError>(true),
            SqlValueV::Text(s) => r == Ok::<bool, SqlFunctionError>(json_parses(s)),
            _ => r == Err::<bool, SqlFunctionError>(SqlFunctionError::NotText),
        },
{
    match arg {
        SqlValue::Null => Ok(true),
        SqlValue::Text(s) => Ok(is_json_text(s.as_str())),
        _ => Err(SqlFunctionError::NotText),
    }
}

/// Whether `validator` takes the text for an email address.
pub uninterp spec fn email_valid(text: Seq<char>) -> bool;

/// `validator::ValidateEmail::validate_email` on a text: whether it is an email address.
/// An empty text, or one without `@`, is none.
#[verifier::external_body]
fn validate_email(text: &str) -> (r: bool)
    ensures
        r == email_valid(text@),
        r ==> text@.len() > 0 && text@.contains('@'),
{
    validator::ValidateEmail::validate_email(&text)
}

/// `is_email(x)`: whether the text `x` is an email address; `NULL` passes.
pub fn is_email(arg: &SqlValue) -> (r: Result<bool, SqlFunctionError>)
    ensures
        match arg@ {
            SqlValueV::Null => r == Ok::<bool, SqlFunctionError>(true),
            SqlValueV::Text(s) => r == Ok::<bool, SqlFunctionError>(email_valid(s)),
            _ => r == Err::<bool, SqlFunctionError>(SqlFunctionError::NotText),
        },
{
    match arg {
        SqlValue::Null => Ok(true),
        SqlValue::Text(s) => Ok(validate_email(s.as_str())),
        _ => Err(SqlFunctionError::NotText),
    }
}

} // verus!
