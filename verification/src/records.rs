//! Record APIs: permissions and access-control lists, access-check queries, record ids
//! and the conversion of request texts to SQL values.
use vstd::prelude::*;
use vstd::utf8::encode_utf8;

use crate::num::{is_float, is_float_literal, parse_i64, parsed_i64};
use crate::qs::{parse_uuid, uuid_parsed};
use crate::schema::ColumnDataType;
use crate::sql_parse::{parsed_statement_of, sql_parse_error, sqlite3_parse_into_statement};
use crate::statement::{ParsedResultColumn, ParsedStatement};
use crate::text::push_char;
use crate::util::{b64_to_id, base64_url_decode, base64_url_decoded, is_ascii_alphanumeric};


verus! {

/// An operation on records, in API terms.
#[derive(Clone, Copy, Debug, PartialEq, Eq)]
pub enum Permission {
    /// ~ SQL insert.
    Create,
    /// ~ SQL select.
    Read,
    /// ~ SQL update.
    Update,
    /// ~ SQL delete.
    Delete,
    /// Looking up the JSON schema of the API.
    Schema,
}

/// The bit of a permission in an access-control byte.
pub open spec fn permission_bit(p: Permission) -> u8 {
    match p {
        Permission::Create => 1,
        Permission::Read => 2,
        Permission::Update => 4,
        Permission::Delete => 8,
        Permission::Schema => 16,
    }
}

impl Permission {
    /// The bit of the permission in an access-control byte.
    pub fn bit(self) -> (r: u8)
        ensures
            r == permission_bit(self),
    {
        match self {
            Permission::Create => 1,
            Permission::Read => 2,
            Permission::Update => 4,
            Permission::Delete => 8,
            Permission::Schema => 16,
        }
    }
}

/// A permission as the configuration lists it.
#[derive(Clone, Copy, Debug, PartialEq, Eq)]
pub enum PermissionFlag {
    Create,
    Read,
    Update,
    Delete,
    Schema,
}

pub open spec fn permission_flag_value(f: PermissionFlag) -> i32 {
    match f {
        PermissionFlag::Create => 1,
        PermissionFlag::Read => 2,
        PermissionFlag::Update => 4,
        PermissionFlag::Delete => 8,
        PermissionFlag::Schema => 16,
    }
}

/// Permissions are the bits of an access-control byte: create 1, read 2, update 4,
/// delete 8, schema 16, one bit each and no two the same; a configuration flag is the bit
/// of its permission.
pub proof fn lemma_permission_bits(p: Permission, q: Permission)
    ensures
        permission_bit(Permission::Create) == 1,
        permission_bit(Permission::Read) == 2,
        permission_bit(Permission::Update) == 4,
        permission_bit(Permission::Delete) == 8,
        permission_bit(Permission::Schema) == 16,
        p != q ==> permission_bit(p) & permission_bit(q) == 0,
        permission_flag_value(PermissionFlag::Create) == permission_bit(Permission::Create),
        permission_flag_value(PermissionFlag::Read) == permission_bit(Permission::Read),
        permission_flag_value(PermissionFlag::Update) == permission_bit(Permission::Update),
        permission_flag_value(PermissionFlag::Delete) == permission_bit(Permission::Delete),
        permission_flag_value(PermissionFlag::Schema) == permission_bit(Permission::Schema),
{
    let a = permission_bit(p);
    let b = permission_bit(q);
    assert(p != q ==> a & b == 0) by {
        if p != q {
            assert(a == 1u8 || a == 2u8 || a == 4u8 || a == 8u8 || a == 16u8);
            assert(b == 1u8 || b == 2u8 || b == 4u8 || b == 8u8 || b == 16u8);
            assert(a != b);
            assert(forall|x: u8, y: u8|
                (x == 1u8 || x == 2u8 || x == 4u8 || x == 8u8 || x == 16u8) && (y == 1u8 || y == 2u8 || y
                    == 4u8 || y == 8u8 || y == 16u8) && x != y ==> #[trigger] (x & y) == 0u8) by (bit_vector);
        }
    }
}

impl PermissionFlag {
    /// The flag's number in the configuration: the bit of the same permission.
    pub fn value(self) -> (r: i32)
        ensures
            r == permission_flag_value(self),
    {
        match self {
            PermissionFlag::Create => 1,
            PermissionFlag::Read => 2,
            PermissionFlag::Update => 4,
            PermissionFlag::Delete => 8,
            PermissionFlag::Schema => 16,
        }
    }
}

/// Table-level access-control lists: what anyone may do, and what signed-in users may do.
#[derive(Clone, Debug, Default, PartialEq, Eq)]
pub struct Acls {
    pub world: Vec<PermissionFlag>,
    pub authenticated: Vec<PermissionFlag>,
}

/// Row-level access rules: SQL expressions per operation.
#[derive(Clone, Debug, Default, PartialEq, Eq)]
pub struct AccessRules {
    pub create: Option<String>,
    pub read: Option<String>,
    pub update: Option<String>,
    pub delete: Option<String>,
    pub schema: Option<String>,
}

/// Publicly visible errors of record APIs, close to HTTP status codes.
#[derive(Clone, Debug, PartialEq, Eq)]
pub enum RecordError {
    ApiNotFound,
    ApiRequiresTable,
    RecordNotFound,
    Forbidden,
    BadRequest(&'static str),
    Internal(String),
}

/// The access-control byte of a list of flags: the bitwise or of their low bytes.
pub open spec fn acl_bits(acl: Seq<i32>) -> u8
    decreases acl.len(),
{
    if acl.len() == 0 {
        0
    } else {
        acl_bits(acl.drop_last()) | (acl.last() as u8)
    }
}

/// Folds configuration flags into an access-control byte.
pub fn convert_acl(acl: &Vec<i32>) -> (r: u8)
    ensures
        r == acl_bits(acl@),
{
    let mut value: u8 = 0;
    let mut i: usize = 0;
    while i < acl.len()
        invariant
            i <= acl.len(),
            value == acl_bits(acl@.take(i as int)),
        decreases acl.len() - i,
    {
        proof {
            assert(acl@.take(i + 1).drop_last() =~= acl@.take(i as int));
        }
        value = value | (acl[i] as u8);
        i += 1;
    }
    proof {
        assert(acl@.take(i as int) =~= acl@);
    }
    value
}

proof fn lemma_or_mask(a: u8, b: u8, m: u8)
    ensures
        ((a | b) & m) != 0 <==> ((a & m) != 0 || (b & m) != 0),
{
    assert(((a | b) & m) != 0 <==> ((a & m) != 0 || (b & m) != 0)) by (bit_vector);
}

/// An access-control byte grants exactly the bits that some flag of the list carries:
/// `acl_bits(acl) & m` is non-zero iff the low byte of some flag meets `m`.
pub proof fn lemma_acl_bits(acl: Seq<i32>, m: u8)
    ensures
        (acl_bits(acl) & m) != 0 <==> exists|i: int|
            0 <= i < acl.len() && ((#[trigger] acl[i] as u8) & m) != 0,
    decreases acl.len(),
{
    if acl.len() == 0 {
        assert((0u8 & m) == 0) by (bit_vector);
    } else {
        let init = acl.drop_last();
        lemma_acl_bits(init, m);
        lemma_or_mask(acl_bits(init), acl.last() as u8, m);
        if (acl_bits(acl) & m) != 0 {
            if (acl_bits(init) & m) != 0 {
                let i = choose|i: int| 0 <= i < init.len() && ((#[trigger] init[i] as u8) & m) != 0;
                assert(acl[i] == init[i]);
            } else {
                assert(((acl[acl.len() - 1] as u8) & m) != 0);
            }
        } else {
            assert forall|i: int| 0 <= i < acl.len() implies ((#[trigger] acl[i] as u8) & m) == 0 by {
                if i < acl.len() - 1 {
                    assert(acl[i] == init[i]);
                }
            }
        }
    }
}

/// The configuration values of a list of flags.
pub open spec fn flag_values(flags: Seq<PermissionFlag>) -> Seq<i32> {
    flags.map_values(|f: PermissionFlag| permission_flag_value(f))
}

/// A list of configuration flags grants a permission iff the permission's flag is listed.
pub proof fn lemma_acl_grants(flags: Seq<PermissionFlag>, p: Permission)
    ensures
        (acl_bits(flag_values(flags)) & permission_bit(p)) != 0 <==> exists|i: int|
            0 <= i < flags.len() && permission_flag_value(#[trigger] flags[i]) as u8
                == permission_bit(p),
{
    let vs = flag_values(flags);
    lemma_acl_bits(vs, permission_bit(p));
    assert forall|i: int| 0 <= i < flags.len() implies (((#[trigger] vs[i]) as u8) & permission_bit(
        p,
    )) != 0 <==> permission_flag_value(flags[i]) as u8 == permission_bit(p) by {
        let f = flags[i];
        assert(vs[i] == permission_flag_value(f));
        assert((1u8 & 1u8) != 0 && (1u8 & 2u8) == 0 && (1u8 & 4u8) == 0 && (1u8 & 8u8) == 0 && (1u8
            & 16u8) == 0) by (bit_vector);
        assert((2u8 & 1u8) == 0 && (2u8 & 2u8) != 0 && (2u8 & 4u8) == 0 && (2u8 & 8u8) == 0 && (2u8
            & 16u8) == 0) by (bit_vector);
        assert((4u8 & 1u8) == 0 && (4u8 & 2u8) == 0 && (4u8 & 4u8) != 0 && (4u8 & 8u8) == 0 && (4u8
            & 16u8) == 0) by (bit_vector);
        assert((8u8 & 1u8) == 0 && (8u8 & 2u8) == 0 && (8u8 & 4u8) == 0 && (8u8 & 8u8) != 0 && (8u8
            & 16u8) == 0) by (bit_vector);
        assert((16u8 & 1u8) == 0 && (16u8 & 2u8) == 0 && (16u8 & 4u8) == 0 && (16u8 & 8u8) == 0 && (
        16u8 & 16u8) != 0) by (bit_vector);
    }
    if (acl_bits(vs) & permission_bit(p)) != 0 {
        let i = choose|i: int| 0 <= i < vs.len() && ((#[trigger] vs[i] as u8) & permission_bit(p)) != 0;
        assert(permission_flag_value(flags[i]) as u8 == permission_bit(p));
    }
    if exists|i: int|
        0 <= i < flags.len() && permission_flag_value(#[trigger] flags[i]) as u8 == permission_bit(
            p,
        ) {
        let i = choose|i: int|
            0 <= i < flags.len() && permission_flag_value(#[trigger] flags[i]) as u8
                == permission_bit(p);
        assert(((vs[i] as u8) & permission_bit(p)) != 0);
    }
}

/// Who an access-control byte is for.
#[derive(Clone, Copy, Debug, PartialEq, Eq)]
pub enum Entity {
    World,
    Authenticated,
}

/// Whether the access-control byte grants the permission.
pub open spec fn grants(acl: u8, p: Permission) -> bool {
    (acl & permission_bit(p)) > 0
}

/// Whether the entity's byte of `acl` (world first, then authenticated) grants `p`.
pub fn has_access(acl: &[u8; 2], e: Entity, p: Permission) -> (r: bool)
    ensures
        r == grants(
            match e {
                Entity::World => acl@[0],
                Entity::Authenticated => acl@[1],
            },
            p,
        ),
{
    let b = match e {
        Entity::World => acl[0],
        Entity::Authenticated => acl[1],
    };
    (b & p.bit()) > 0
}

/// Table-level access: granted to anyone by the world byte, and to a signed-in user also by
/// the authenticated byte; refused with `Forbidden` otherwise.
pub fn check_table_level_access(acl: &[u8; 2], p: Permission, signed_in: bool) -> (r: Result<
    (),
    RecordError,
>)
    ensures
        r is Ok <==> (signed_in && grants(acl@[1], p)) || grants(acl@[0], p),
        r is Err ==> r == Err::<(), RecordError>(RecordError::Forbidden),
{
    if (signed_in && has_access(acl, Entity::Authenticated, p)) || has_access(
        acl,
        Entity::World,
        p,
    ) {
        return Ok(());
    }
    Err(RecordError::Forbidden)
}


/// A SQL value bound to a statement parameter. A real number is held as the text it was
/// written in, which `str::parse::<f64>` accepts.
#[derive(Clone, Debug, PartialEq)]
pub enum SqlValue {
    Null,
    Integer(i64),
    Real(String),
    Text(String),
    Blob(Vec<u8>),
}

pub ghost enum SqlValueV {
    Null,
    Integer(i64),
    Real(Seq<char>),
    Text(Seq<char>),
    Blob(Seq<u8>),
}

impl View for SqlValue {
    type V = SqlValueV;

    open spec fn view(&self) -> SqlValueV {
        match self {
            SqlValue::Null => SqlValueV::Null,
            SqlValue::Integer(i) => SqlValueV::Integer(*i),
            SqlValue::Real(r) => SqlValueV::Real(r@),
            SqlValue::Text(t) => SqlValueV::Text(t@),
            SqlValue::Blob(b) => SqlValueV::Blob(b@),
        }
    }
}

impl SqlValue {
    /// A copy of the value.
    pub fn duplicate(&self) -> (r: SqlValue)
        ensures
            r@ == self@,
    {
        match self {
            SqlValue::Null => SqlValue::Null,
            SqlValue::Integer(i) => SqlValue::Integer(*i),
            SqlValue::Real(r) => SqlValue::Real(r.clone()),
            SqlValue::Text(t) => SqlValue::Text(t.clone()),
            SqlValue::Blob(b) => {
                let c = b.clone();
                proof {
                    assert(c@ =~= b@);
                }
                SqlValue::Blob(c)
            },
        }
    }
}

/// Why a request value could not be converted for its column.
#[derive(Clone, Debug, PartialEq, Eq)]
pub enum ParamsError {
    /// Not url-safe base64.
    Decode,
    /// Not an `i64`.
    ParseInt,
    /// Not an `f64`.
    ParseFloat,
    /// A value of a kind the column cannot take: the kind, and what was expected.
    UnexpectedType(&'static str, String),
    /// An array to be read as bytes holds something other than a number.
    InhomogenousArray(String),
    /// A JSON object for a column that cannot hold one.
    NestedObject(String),
    /// A JSON array for a column that cannot hold one.
    NestedArray(String),
    /// An uploaded file that no column can take.
    Column(&'static str),
}

/// The SQL value of a request text for a column of the given type: text types keep the
/// text, blobs are url-safe base64, integer-like types an `i64`, real types an `f64`, and
/// `JSONB` the text's UTF-8 bytes.
pub open spec fn text_value(t: ColumnDataType, v: Seq<char>) -> Result<SqlValueV, ParamsError> {
    match t {
        ColumnDataType::Null => Ok(SqlValueV::Null),
        ColumnDataType::Any | ColumnDataType::Text | ColumnDataType::JSON
        | ColumnDataType::Character | ColumnDataType::Varchar | ColumnDataType::VaryingCharacter
        | ColumnDataType::NChar | ColumnDataType::NativeCharacter | ColumnDataType::NVarChar
        | ColumnDataType::Clob => Ok(SqlValueV::Text(v)),
        ColumnDataType::Blob => match base64_url_decoded(v) {
            Some(b) => Ok(SqlValueV::Blob(b)),
            None => Err(ParamsError::Decode),
        },
        ColumnDataType::Real | ColumnDataType::Double | ColumnDataType::DoublePrecision
        | ColumnDataType::Float => if is_float_literal(v) {
            Ok(SqlValueV::Real(v))
        } else {
            Err(ParamsError::ParseFloat)
        },
        ColumnDataType::JSONB => Ok(SqlValueV::Blob(encode_utf8(v))),
        _ => match parsed_i64(v) {
            Some(i) => Ok(SqlValueV::Integer(i)),
            None => Err(ParamsError::ParseInt),
        },
    }
}

/// How a request text becomes the value of a column, by the column's type: `ANY`, `TEXT`,
/// `JSON` and the text-affinity types keep the text unchanged; the integer-like types
/// (`INTEGER`, `NUMERIC`, the `INT` family, `BOOLEAN`, `DECIMAL`, `DATE`, `DATETIME`)
/// read it as an `i64` and refuse it otherwise; `BLOB` reads url-safe base64; the real
/// types keep a float literal and refuse anything else; `JSONB` stores the text's UTF-8
/// bytes; and a column of no type takes `NULL`.
pub proof fn lemma_text_value_by_type(t: ColumnDataType, v: Seq<char>)
    ensures
        (t is Any || t is Text || t is JSON || t is Character || t is Varchar || t is VaryingCharacter
            || t is NChar || t is NativeCharacter || t is NVarChar || t is Clob) ==> text_value(t, v)
            == Ok::<SqlValueV, ParamsError>(SqlValueV::Text(v)),
        (t is Integer || t is Numeric || t is Int || t is TinyInt || t is SmallInt || t is MediumInt
            || t is BigInt || t is UnignedBigInt || t is Int2 || t is Int4 || t is Int8 || t is Boolean
            || t is Decimal || t is Date || t is DateTime) ==> text_value(t, v) == match parsed_i64(v) {
            Some(i) => Ok::<SqlValueV, ParamsError>(SqlValueV::Integer(i)),
            None => Err::<SqlValueV, ParamsError>(ParamsError::ParseInt),
        },
        t is Blob ==> text_value(t, v) == match base64_url_decoded(v) {
            Some(b) => Ok::<SqlValueV, ParamsError>(SqlValueV::Blob(b)),
            None => Err::<SqlValueV, ParamsError>(ParamsError::Decode),
        },
        (t is Real || t is Double || t is DoublePrecision || t is Float) ==> text_value(t, v) == if is_float_literal(
            v,
        ) {
            Ok::<SqlValueV, ParamsError>(SqlValueV::Real(v))
        } else {
            Err::<SqlValueV, ParamsError>(ParamsError::ParseFloat)
        },
        t is JSONB ==> text_value(t, v) == Ok::<SqlValueV, ParamsError>(SqlValueV::Blob(encode_utf8(v))),
        t is Null ==> text_value(t, v) == Ok::<SqlValueV, ParamsError>(SqlValueV::Null),
{
}

/// Converts a request text to the SQL value for a column of type `data_type`.
pub fn json_string_to_value(data_type: ColumnDataType, value: String) -> (r: Result<
    SqlValue,
    ParamsError,
>)
    ensures
        match r {
            Ok(x) => text_value(data_type, value@) == Ok::<SqlValueV, ParamsError>(x@),
            Err(e) => text_value(data_type, value@) == Err::<SqlValueV, ParamsError>(e),
        },
{
    match data_type {
        ColumnDataType::Null => Ok(SqlValue::Null),
        ColumnDataType::Any | ColumnDataType::Text | ColumnDataType::JSON
        | ColumnDataType::Character | ColumnDataType::Varchar | ColumnDataType::VaryingCharacter
        | ColumnDataType::NChar | ColumnDataType::NativeCharacter | ColumnDataType::NVarChar
        | ColumnDataType::Clob => Ok(SqlValue::Text(value)),
        ColumnDataType::Blob => match base64_url_decode(value.as_str()) {
            Some(b) => Ok(SqlValue::Blob(b)),
            None => Err(ParamsError::Decode),
        },
        ColumnDataType::Real | ColumnDataType::Double | ColumnDataType::DoublePrecision
        | ColumnDataType::Float => if is_float(value.as_str()) {
            Ok(SqlValue::Real(value))
        } else {
            Err(ParamsError::ParseFloat)
        },
        ColumnDataType::JSONB => Ok(SqlValue::Blob(value.as_str().as_bytes_vec())),
        _ => match parse_i64(value.as_str()) {
            Some(i) => Ok(SqlValue::Integer(i)),
            None => Err(ParamsError::ParseInt),
        },
    }
}

/// The SQL value of a record id in a URL, for a primary key of the given type: a blob key
/// takes a 36-byte UUID text or a 16-byte url-safe base64 id, an integer key an `i64`.
pub open spec fn id_value(pk_type: ColumnDataType, id: Seq<char>) -> Option<SqlValueV> {
    match pk_type {
        ColumnDataType::Blob => if encode_utf8(id).len() as usize == 36 && uuid_parsed(id) is Some {
            Some(SqlValueV::Blob(uuid_parsed(id)->0))
        } else {
            match base64_url_decoded(id) {
                Some(b) => if b.len() == 16 {
                    Some(SqlValueV::Blob(b))
                } else {
                    None
                },
                None => None,
            }
        },
        ColumnDataType::Integer => match parsed_i64(id) {
            Some(i) => Some(SqlValueV::Integer(i)),
            None => None,
        },
        _ => None,
    }
}

/// Converts a record id from a URL to the SQL value of the primary key; a malformed id is
/// a bad request.
pub fn id_to_sql(pk_type: ColumnDataType, id: &str) -> (r: Result<SqlValue, RecordError>)
    ensures
        match r {
            Ok(v) => id_value(pk_type, id@) == Some(v@),
            Err(e) => id_value(pk_type, id@) is None && (e matches RecordError::BadRequest(m) && m@
                == "Invalid id"@),
        },
{
    match pk_type {
        ColumnDataType::Blob => {
            if id.len() == 36 {
                if let Some(b) = parse_uuid(id) {
                    return Ok(SqlValue::Blob(b));
                }
            }
            match b64_to_id(id) {
                Ok(record_id) => {
                    let mut v: Vec<u8> = Vec::new();
                    let mut i: usize = 0;
                    while i < 16
                        invariant
                            i <= 16,
                            v@ =~= record_id@.take(i as int),
                        decreases 16 - i,
                    {
                        v.push(record_id[i]);
                        i += 1;
                    }
                    assert(v@ =~= record_id@);
                    Ok(SqlValue::Blob(v))
                },
                Err(_) => Err(RecordError::BadRequest("Invalid id")),
            }
        },
        ColumnDataType::Integer => match parse_i64(id) {
            Some(i) => Ok(SqlValue::Integer(i)),
            None => Err(RecordError::BadRequest("Invalid id")),
        },
        _ => Err(RecordError::BadRequest("Invalid id")),
    }
}

/// The query checking a read, delete or schema access rule for one record: the rule as an
/// integer, with the user's id as `_USER_` and the record as `_ROW_`.
pub open spec fn read_delete_schema_query(table_name: Seq<char>, pk_column_name: Seq<char>, access_rule: Seq<char>) -> Seq<char> {
    "SELECT\n  CAST(("@ + access_rule + ") AS INTEGER)\nFROM\n  (SELECT :__user_id AS id) AS _USER_,\n  (SELECT * FROM \""@
        + table_name + "\" WHERE \""@ + pk_column_name + "\" = :__record_id) AS _ROW_\n"@
}

/// Builds the access query for record reads, deletes and schema lookups; `access_rule` is a
/// SQL expression.
pub fn build_read_delete_schema_query(table_name: &str, pk_column_name: &str, access_rule: &str) -> (r: String)
    ensures
        r@ == read_delete_schema_query(table_name@, pk_column_name@, access_rule@),
{
    let mut q = String::from_str("SELECT\n  CAST((");
    q.append(access_rule);
    q.append(") AS INTEGER)\nFROM\n  (SELECT :__user_id AS id) AS _USER_,\n  (SELECT * FROM \"");
    q.append(table_name);
    q.append("\" WHERE \"");
    q.append(pk_column_name);
    q.append("\" = :__record_id) AS _ROW_\n");
    q
}

/// Whether a column is listed: names starting with `_` are hidden.
pub fn column_filter(col_name: &str) -> (r: bool)
    ensures
        r == !(col_name@.len() > 0 && col_name@[0] == '_'),
{
    !(col_name.unicode_len() > 0 && col_name.get_char(0) == '_')
}

/// The named-parameter placeholder of a column: its name after a colon.
pub fn prefix_colon(s: &str) -> (r: String)
    ensures
        r@ == seq![':'] + s@,
{
    let mut new = String::new();
    push_char(&mut new, ':');
    new.append(s);
    new
}

/// A configuration that cannot be used.
#[derive(Clone, Debug, PartialEq, Eq)]
pub enum ConfigError {
    Invalid(String),
}

/// A valid API name: non-empty, of ASCII letters, digits and `_`.
pub open spec fn valid_api_name(name: Seq<char>) -> bool {
    name.len() > 0 && forall|i: int|
        0 <= i < name.len() ==> is_ascii_alphanumeric(#[trigger] name[i]) || name[i] == '_'
}

/// The message for an invalid API name.
pub open spec fn api_name_error(name: Seq<char>) -> Seq<char> {
    if name.len() == 0 {
        "Invalid api name: cannot be empty"@
    } else {
        "Invalid api name: "@ + name + ". Must only contain alphanumeric characters or '_'."@
    }
}

/// Checks a record API's name.
pub fn validate_record_api_name(name: &str) -> (r: Result<(), ConfigError>)
    ensures
        r is Ok <==> valid_api_name(name@),
        r is Err ==> (r matches Err(ConfigError::Invalid(m)) && m@ == api_name_error(name@)),
{
    let n = name.unicode_len();
    if n == 0 {
        return Err(ConfigError::Invalid(String::from_str("Invalid api name: cannot be empty")));
    }
    let mut i: usize = 0;
    while i < n
        invariant
            n == name@.len(),
            i <= n,
            forall|j: int| 0 <= j < i ==> is_ascii_alphanumeric(#[trigger] name@[j]) || name@[j] == '_',
        decreases n - i,
    {
        let c = name.get_char(i);
        if !(('a' <= c && c <= 'z') || ('A' <= c && c <= 'Z') || ('0' <= c && c <= '9') || c == '_') {
            let mut msg = String::from_str("Invalid api name: ");
            msg.append(name);
            msg.append(". Must only contain alphanumeric characters or '_'.");
            return Err(ConfigError::Invalid(msg));
        }
        i += 1;
    }
    Ok(())
}

/// The query of a record read: which foreign keys to expand, comma separated.
#[derive(Clone, Debug, Default, PartialEq, Eq)]
pub struct ReadRecordQuery {
    pub expand: Option<String>,
}

/// A change to a record that subscribers are told of.
#[derive(Clone, Copy, Debug, PartialEq, Eq)]
pub enum RecordAction {
    Delete,
    Insert,
    Update,
}


/// Why an access rule is refused, when the statement `SELECT <rule>` parsed: a rule is a
/// single SQL expression.
pub open spec fn rule_statement_check(p: ParsedStatement) -> Result<(), Seq<char>> {
    match p {
        ParsedStatement::Select { select, .. } => if !select.is_core {
            Err("Expected SELECT"@)
        } else if select.columns@.len() != 1 {
            Err("Expected single column"@)
        } else if select.columns@[0] is Star || select.columns@[0] is TableStar {
            Err("Expected expr"@)
        } else {
            Ok(())
        },
        _ => Err("Expected SELECT"@),
    }
}

/// Checks the parsed statement `SELECT <rule>` of an access rule.
pub fn check_rule_statement(p: &ParsedStatement) -> (r: Result<(), String>)
    ensures
        match rule_statement_check(*p) {
            Ok(()) => r is Ok,
            Err(m) => r matches Err(e) && e@ == m,
        },
{
    match p {
        ParsedStatement::Select { select, .. } => {
            if !select.is_core {
                return Err(String::from_str("Expected SELECT"));
            }
            if select.columns.len() != 1 {
                return Err(String::from_str("Expected single column"));
            }
            match &select.columns[0] {
                ParsedResultColumn::Star | ParsedResultColumn::TableStar(_) => Err(
                    String::from_str("Expected expr"),
                ),
                _ => Ok(()),
            }
        },
        _ => Err(String::from_str("Expected SELECT")),
    }
}

/// What checking an access rule gives: the parser's syntax error, "Expected SELECT" when
/// `SELECT <rule>` yields no statement, else the check of the statement read.
pub open spec fn rule_check_of(rule: Seq<char>) -> Result<(), Seq<char>> {
    let sql = "SELECT "@ + rule;
    match sql_parse_error(sql) {
        Some(e) => Err("'"@ + rule + "' not a valid SQL expression: "@ + e),
        None => match parsed_statement_of(sql) {
            None => Err("Expected SELECT"@),
            Some(p) => rule_statement_check(p),
        },
    }
}

/// Checks that an access rule is a single SQL expression, by parsing `SELECT <rule>`: a
/// syntax error is reported with the parser's message; a statement that parses is checked
/// by `check_rule_statement`.
pub fn validate_rule(rule: &str) -> (r: Result<(), String>)
    ensures
        match rule_check_of(rule@) {
            Ok(()) => r is Ok,
            Err(m) => r matches Err(e) && e@ == m,
        },
{
    let mut sql = String::from_str("SELECT ");
    sql.append(rule);
    match sqlite3_parse_into_statement(sql.as_str()) {
        Err(e) => {
            let mut msg = String::from_str("'");
            msg.append(rule);
            msg.append("' not a valid SQL expression: ");
            msg.append(e.as_str());
            Err(msg)
        },
        Ok(None) => Err(String::from_str("Expected SELECT")),
        Ok(Some(p)) => check_rule_statement(&p),
    }
}

} // verus!
