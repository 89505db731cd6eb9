//! Converting JSON values of a request body to SQL values for their columns.
use vstd::prelude::*;

use crate::list_records::{i64_text, signed_decimal};
use crate::qs::decimal;
use crate::records::{json_string_to_value, text_value, ParamsError, SqlValue, SqlValueV};
use crate::schema::ColumnDataType;

verus! {

/// A JSON number as parsed: a non-negative integer, a negative integer, or a floating-point
/// number held as the text it prints as.
#[derive(Clone, Debug, PartialEq, Eq)]
pub enum JsonNumber {
    PosInt(u64),
    NegInt(i64),
    Float(String),
}

/// A JSON value of a request body; an object's members are not read here.
#[derive(Debug, PartialEq)]
pub enum JsonValue {
    Null,
    Bool(bool),
    Number(JsonNumber),
    String(String),
    Array(Vec<JsonValue>),
    Object,
}

/// The number as an `i64`, if it is an integer in range.
pub open spec fn number_i64(n: JsonNumber) -> Option<i64> {
    match n {
        JsonNumber::PosInt(u) => if u <= i64::MAX as u64 {
            Some(u as i64)
        } else {
            None
        },
        JsonNumber::NegInt(i) => Some(i),
        JsonNumber::Float(_) => None,
    }
}

/// The number as it prints.
pub open spec fn number_text(n: JsonNumber) -> Seq<char> {
    match n {
        JsonNumber::PosInt(u) => decimal(u as nat),
        JsonNumber::NegInt(i) => signed_decimal(i),
        JsonNumber::Float(t) => t@,
    }
}

/// The name of a column type as `Debug` prints it.
pub open spec fn data_type_name(t: ColumnDataType) -> Seq<char> {
    match t {
        ColumnDataType::Null => "Null"@,
        ColumnDataType::Any => "Any"@,
        ColumnDataType::Blob => "Blob"@,
        ColumnDataType::Text => "Text"@,
        ColumnDataType::Integer => "Integer"@,
        ColumnDataType::Real => "Real"@,
        ColumnDataType::Numeric => "Numeric"@,
        ColumnDataType::JSON => "JSON"@,
        ColumnDataType::JSONB => "JSONB"@,
        ColumnDataType::Int => "Int"@,
        ColumnDataType::TinyInt => "TinyInt"@,
        ColumnDataType::SmallInt => "SmallInt"@,
        ColumnDataType::MediumInt => "MediumInt"@,
        ColumnDataType::BigInt => "BigInt"@,
        ColumnDataType::UnignedBigInt => "UnignedBigInt"@,
        ColumnDataType::Int2 => "Int2"@,
        ColumnDataType::Int4 => "Int4"@,
        ColumnDataType::Int8 => "Int8"@,
        ColumnDataType::Character => "Character"@,
        ColumnDataType::Varchar => "Varchar"@,
        ColumnDataType::VaryingCharacter => "VaryingCharacter"@,
        ColumnDataType::NChar => "NChar"@,
        ColumnDataType::NativeCharacter => "NativeCharacter"@,
        ColumnDataType::NVarChar => "NVarChar"@,
        ColumnDataType::Clob => "Clob"@,
        ColumnDataType::Double => "Double"@,
        ColumnDataType::DoublePrecision => "DoublePrecision"@,
        ColumnDataType::Float => "Float"@,
        ColumnDataType::Boolean => "Boolean"@,
        ColumnDataType::Decimal => "Decimal"@,
        ColumnDataType::Date => "Date"@,
        ColumnDataType::DateTime => "DateTime"@,
    }
}

fn data_type_text(t: ColumnDataType) -> (r: &'static str)
    ensures
        r@ == data_type_name(t),
{
    match t {
        ColumnDataType::Null => "Null",
        ColumnDataType::Any => "Any",
        ColumnDataType::Blob => "Blob",
        ColumnDataType::Text => "Text",
        ColumnDataType::Integer => "Integer",
        ColumnDataType::Real => "Real",
        ColumnDataType::Numeric => "Numeric",
        ColumnDataType::JSON => "JSON",
        ColumnDataType::JSONB => "JSONB",
        ColumnDataType::Int => "Int",
        ColumnDataType::TinyInt => "TinyInt",
        ColumnDataType::SmallInt => "SmallInt",
        ColumnDataType::MediumInt => "MediumInt",
        ColumnDataType::BigInt => "BigInt",
        ColumnDataType::UnignedBigInt => "UnignedBigInt",
        ColumnDataType::Int2 => "Int2",
        ColumnDataType::Int4 => "Int4",
        ColumnDataType::Int8 => "Int8",
        ColumnDataType::Character => "Character",
        ColumnDataType::Varchar => "Varchar",
        ColumnDataType::VaryingCharacter => "VaryingCharacter",
        ColumnDataType::NChar => "NChar",
        ColumnDataType::NativeCharacter => "NativeCharacter",
        ColumnDataType::NVarChar => "NVarChar",
        ColumnDataType::Clob => "Clob",
        ColumnDataType::Double => "Double",
        ColumnDataType::DoublePrecision => "DoublePrecision",
        ColumnDataType::Float => "Float",
        ColumnDataType::Boolean => "Boolean",
        ColumnDataType::Decimal => "Decimal",
        ColumnDataType::Date => "Date",
        ColumnDataType::DateTime => "DateTime",
    }
}

/// The name of a JSON value's kind.
pub open spec fn json_kind(v: JsonValue) -> Seq<char> {
    match v {
        JsonValue::Null => "Null"@,
        JsonValue::Bool(_) => "Bool"@,
        JsonValue::Number(_) => "Number"@,
        JsonValue::String(_) => "String"@,
        JsonValue::Array(_) => "Array"@,
        JsonValue::Object => "Object"@,
    }
}

/// Abstract value of a conversion error.
pub ghost enum ParamsErrorV {
    Decode,
    ParseInt,
    ParseFloat,
    UnexpectedType(Seq<char>, Seq<char>),
    InhomogenousArray(Seq<char>),
    NestedObject(Seq<char>),
    NestedArray(Seq<char>),
    Column(Seq<char>),
}

pub open spec fn params_error_view(e: ParamsError) -> ParamsErrorV {
    match e {
        ParamsError::Decode => ParamsErrorV::Decode,
        ParamsError::ParseInt => ParamsErrorV::ParseInt,
        ParamsError::ParseFloat => ParamsErrorV::ParseFloat,
        ParamsError::UnexpectedType(k, m) => ParamsErrorV::UnexpectedType(k@, m@),
        ParamsError::InhomogenousArray(m) => ParamsErrorV::InhomogenousArray(m@),
        ParamsError::NestedObject(m) => ParamsErrorV::NestedObject(m@),
        ParamsError::NestedArray(m) => ParamsErrorV::NestedArray(m@),
        ParamsError::Column(m) => ParamsErrorV::Column(m@),
    }
}

/// Why an array cannot be read as bytes, if it cannot: each element must be an integer in
/// `0..=255`; the first offending element decides.
pub open spec fn blob_error(arr: Seq<JsonValue>) -> Option<ParamsErrorV>
    decreases arr.len(),
{
    if arr.len() == 0 {
        None
    } else {
        match blob_error(arr.drop_last()) {
            Some(e) => Some(e),
            None => match arr.last() {
                JsonValue::Number(n) => match number_i64(n) {
                    None => Some(ParamsErrorV::UnexpectedType(
                        "NonByteNumber"@,
                        "Number type: Number("@ + number_text(n) + ")"@,
                    )),
                    Some(i) => if 0 <= i <= 255 {
                        None
                    } else {
                        Some(ParamsErrorV::UnexpectedType("NonByteNumber"@, "Out-of-range int: "@ + signed_decimal(i)))
                    },
                },
                other => Some(ParamsErrorV::InhomogenousArray("Expected number, got "@ + json_kind(other))),
            },
        }
    }
}

/// The bytes of an array of byte-valued integers.
pub open spec fn blob_bytes(arr: Seq<JsonValue>) -> Seq<u8>
    decreases arr.len(),
{
    if arr.len() == 0 {
        seq![]
    } else {
        blob_bytes(arr.drop_last()).push(
            match arr.last() {
                JsonValue::Number(n) => match number_i64(n) {
                    Some(i) => i as u8,
                    None => 0,
                },
                _ => 0,
            },
        )
    }
}

fn number_as_i64(n: &JsonNumber) -> (r: Option<i64>)
    ensures
        r == number_i64(*n),
{
    match n {
        JsonNumber::PosInt(u) => if *u <= i64::MAX as u64 {
            Some(*u as i64)
        } else {
            None
        },
        JsonNumber::NegInt(i) => Some(*i),
        JsonNumber::Float(_) => None,
    }
}

fn number_display(n: &JsonNumber) -> (r: String)
    ensures
        r@ == number_text(*n),
{
    match n {
        JsonNumber::PosInt(u) => {
            let mut s = String::new();
            crate::list_records::push_u64_decimal(&mut s, *u);
            s
        },
        JsonNumber::NegInt(i) => i64_text(*i),
        JsonNumber::Float(t) => t.clone(),
    }
}

proof fn lemma_blob_error_stop(arr: Seq<JsonValue>, k: int, e: ParamsErrorV)
    requires
        0 <= k <= arr.len(),
        blob_error(arr.take(k)) == Some(e),
    ensures
        blob_error(arr) == Some(e),
    decreases arr.len() - k,
{
    if k == arr.len() {
        assert(arr.take(k) =~= arr);
    } else {
        assert(arr.take(k + 1).drop_last() =~= arr.take(k));
        lemma_blob_error_stop(arr, k + 1, e);
    }
}

/// Reads an array of integers in `0..=255` as bytes.
pub fn try_json_array_to_blob(arr: &Vec<JsonValue>) -> (r: Result<SqlValue, ParamsError>)
    ensures
        match blob_error(arr@) {
            None => r matches Ok(SqlValue::Blob(b)) && b@ == blob_bytes(arr@),
            Some(e) => r matches Err(x) && params_error_view(x) == e,
        },
{
    let mut bytes: Vec<u8> = Vec::new();
    let mut i: usize = 0;
    proof {
        assert(arr@.take(0) =~= Seq::<JsonValue>::empty());
    }
    while i < arr.len()
        invariant
            i <= arr.len(),
            blob_error(arr@.take(i as int)) is None,
            bytes@ == blob_bytes(arr@.take(i as int)),
        decreases arr.len() - i,
    {
        proof {
            assert(arr@.take(i + 1).drop_last() =~= arr@.take(i as int));
            assert(arr@.take(i + 1).last() == arr@[i as int]);
        }
        match &arr[i] {
            JsonValue::Number(n) => {
                match number_as_i64(n) {
                    None => {
                        let mut m = String::from_str("Number type: Number(");
                        m.append(number_display(n).as_str());
                        m.append(")");
                        proof {
                            lemma_blob_error_stop(
                                arr@,
                                i + 1,
                                ParamsErrorV::UnexpectedType("NonByteNumber"@, m@),
                            );
                        }
                        return Err(ParamsError::UnexpectedType("NonByteNumber", m));
                    },
                    Some(v) => {
                        if v < 0 || v > 255 {
                            let mut m = String::from_str("Out-of-range int: ");
                            m.append(i64_text(v).as_str());
                            proof {
                                lemma_blob_error_stop(
                                    arr@,
                                    i + 1,
                                    ParamsErrorV::UnexpectedType("NonByteNumber"@, m@),
                                );
                            }
                            return Err(ParamsError::UnexpectedType("NonByteNumber", m));
                        }
                        bytes.push(v as u8);
                    },
                }
            },
            other => {
                let kind = match other {
                    JsonValue::Null => "Null",
                    JsonValue::Bool(_) => "Bool",
                    JsonValue::String(_) => "String",
                    JsonValue::Array(_) => "Array",
                    _ => "Object",
                };
                let mut m = String::from_str("Expected number, got ");
                m.append(kind);
                proof {
                    lemma_blob_error_stop(arr@, i + 1, ParamsErrorV::InhomogenousArray(m@));
                }
                return Err(ParamsError::InhomogenousArray(m));
            },
        }
        i += 1;
    }
    proof {
        assert(arr@.take(i as int) =~= arr@);
    }
    Ok(SqlValue::Blob(bytes))
}

/// The SQL value of a plain JSON value for a column of type `t`, or the error: objects are
/// refused, arrays are bytes for blob columns only, booleans are 0 or 1, texts convert as
/// request texts do, and numbers are integers (unsigned ones beyond `i64` wrapping) or reals.
pub open spec fn simple_json_value(t: ColumnDataType, v: JsonValue) -> Result<SqlValueV, ParamsErrorV> {
    match v {
        JsonValue::Object => Err(ParamsErrorV::UnexpectedType("Object"@, "Trivial type: "@ + data_type_name(t))),
        JsonValue::Array(arr) => if !(t is Blob) {
            Err(ParamsErrorV::UnexpectedType("Array"@, "Trivial type: "@ + data_type_name(t)))
        } else {
            match blob_error(arr@) {
                Some(e) => Err(e),
                None => Ok(SqlValueV::Blob(blob_bytes(arr@))),
            }
        },
        JsonValue::Null => Ok(SqlValueV::Null),
        JsonValue::Bool(b) => Ok(SqlValueV::Integer(if b { 1 } else { 0 })),
        JsonValue::String(s) => match text_value(t, s@) {
            Ok(x) => Ok(x),
            Err(e) => Err(params_error_view(e)),
        },
        JsonValue::Number(n) => match number_i64(n) {
            Some(i) => Ok(SqlValueV::Integer(i)),
            None => match n {
                JsonNumber::PosInt(u) => Ok(SqlValueV::Integer(u as i64)),
                JsonNumber::Float(f) => Ok(SqlValueV::Real(f@)),
                JsonNumber::NegInt(i) => Ok(SqlValueV::Integer(i)),
            },
        },
    }
}

/// Plain JSON values as column values: `true` is 1 and `false` 0, `null` is `NULL`, an
/// object is refused, an array is refused unless the column is a blob, and a string for
/// an `ANY`, `TEXT`, `JSON` or text-affinity column is kept as the text it is.
pub proof fn lemma_simple_json_values(t: ColumnDataType, s: String, arr: Vec<JsonValue>)
    ensures
        simple_json_value(t, JsonValue::Bool(true)) == Ok::<SqlValueV, ParamsErrorV>(SqlValueV::Integer(1)),
        simple_json_value(t, JsonValue::Bool(false)) == Ok::<SqlValueV, ParamsErrorV>(SqlValueV::Integer(0)),
        simple_json_value(t, JsonValue::Null) == Ok::<SqlValueV, ParamsErrorV>(SqlValueV::Null),
        simple_json_value(t, JsonValue::Object) is Err,
        !(t is Blob) ==> simple_json_value(t, JsonValue::Array(arr)) is Err,
        (t is Any || t is Text || t is JSON || t is Character || t is Varchar || t is VaryingCharacter
            || t is NChar || t is NativeCharacter || t is NVarChar || t is Clob) ==> simple_json_value(
            t,
            JsonValue::String(s),
        ) == Ok::<SqlValueV, ParamsErrorV>(SqlValueV::Text(s@)),
{
    crate::records::lemma_text_value_by_type(t, s@);
}

/// Converts a plain JSON value of a request to the SQL value for a column of type
/// `col_type`.
pub fn simple_json_value_to_param(col_type: ColumnDataType, value: JsonValue) -> (r: Result<SqlValue, ParamsError>)
    ensures
        match r {
            Ok(x) => simple_json_value(col_type, value) == Ok::<SqlValueV, ParamsErrorV>(x@),
            Err(e) => simple_json_value(col_type, value) == Err::<SqlValueV, ParamsErrorV>(
                params_error_view(e),
            ),
        },
{
    match value {
        JsonValue::Object => {
            let mut m = String::from_str("Trivial type: ");
            m.append(data_type_text(col_type));
            Err(ParamsError::UnexpectedType("Object", m))
        },
        JsonValue::Array(arr) => match col_type {
            ColumnDataType::Blob => try_json_array_to_blob(&arr),
            _ => {
                let mut m = String::from_str("Trivial type: ");
                m.append(data_type_text(col_type));
                Err(ParamsError::UnexpectedType("Array", m))
            },
        },
        JsonValue::Null => Ok(SqlValue::Null),
        JsonValue::Bool(b) => Ok(SqlValue::Integer(if b { 1 } else { 0 })),
        JsonValue::String(s) => json_string_to_value(col_type, s),
        JsonValue::Number(n) => match number_as_i64(&n) {
            Some(i) => Ok(SqlValue::Integer(i)),
            None => match n {
                JsonNumber::PosInt(u) => Ok(SqlValue::Integer(u as i64)),
                JsonNumber::Float(f) => Ok(SqlValue::Real(f)),
                JsonNumber::NegInt(i) => Ok(SqlValue::Integer(i)),
            },
        },
    }
}

} // verus!
