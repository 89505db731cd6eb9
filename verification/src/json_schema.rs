//! JSON documents, JSON schemas, and the checks that the SQL functions `jsonschema` and
//! `jsonschema_matches` make with them.
use vstd::prelude::*;

use crate::schema_registry::SchemaRegistry;
use serde_json::Value as JsonTree;

verus! {

#[verifier::external_type_specification]
#[verifier::external_body]
pub struct ExJsonTree(JsonTree);

/// What `serde_json` reports when it cannot read the text as a JSON value; `None` when it
/// can.
pub uninterp spec fn json_parse_error(text: Seq<char>) -> Option<Seq<char>>;

/// Whether `serde_json` reads the text as a JSON value.
pub open spec fn json_parses(text: Seq<char>) -> bool {
    json_parse_error(text) is None
}

/// What `jsonschema` reports when the document cannot be compiled as a schema; `None`
/// when it can.
pub uninterp spec fn schema_compile_error(schema: Seq<char>) -> Option<Seq<char>>;

/// Whether the document `instance` meets the schema `schema`.
pub uninterp spec fn schema_accepts(schema: Seq<char>, instance: Seq<char>) -> bool;

/// A parsed JSON document and the text it was read from. Only `parse_json` makes one, so
/// the tree is always the parse of the text.
pub struct JsonDoc {
    value: JsonTree,
    text: Ghost<Seq<char>>,
}

impl JsonDoc {
    /// The parsed tree.
    pub closed spec fn tree(&self) -> JsonTree {
        self.value
    }

    /// The parsed tree.
    pub fn value(&self) -> (r: &JsonTree)
        ensures
            *r == self.tree(),
    {
        &self.value
    }
}

impl View for JsonDoc {
    type V = Seq<char>;

    closed spec fn view(&self) -> Seq<char> {
        self.text@
    }
}

/// `serde_json::from_str::<serde_json::Value>`: the document, or the parser's message.
#[verifier::external_body]
pub fn parse_json(text: &str) -> (r: Result<JsonDoc, String>)
    ensures
        match r {
            Ok(d) => json_parse_error(text@) is None && d@ == text@,
            Err(m) => json_parse_error(text@) == Some(m@),
        },
{
    match serde_json::from_str::<JsonTree>(text) {
        Ok(value) => Ok(JsonDoc { value, text: Ghost(text@) }),
        Err(err) => Err(err.to_string()),
    }
}

/// `jsonschema::validator_for`: whether the document compiles as a schema, and if not the
/// message of its error.
#[verifier::external_body]
fn schema_problem(schema: &JsonDoc) -> (r: Option<String>)
    ensures
        match r {
            None => schema_compile_error(schema@) is None,
            Some(m) => schema_compile_error(schema@) == Some(m@),
        },
{
    jsonschema::validator_for(&schema.value).err().map(|err| err.to_string())
}

/// `jsonschema::is_valid`: whether `instance` meets the schema, which must compile (it
/// panics otherwise).
#[verifier::external_body]
fn accepts(schema: &JsonDoc, instance: &JsonDoc) -> (r: bool)
    requires
        schema_compile_error(schema@) is None,
    ensures
        r == schema_accepts(schema@, instance@),
{
    jsonschema::is_valid(&schema.value, &instance.value)
}

/// A registered schema: a document that compiles as a JSON schema, and maybe a further
/// check of its own, given by the user who registers the schema. The check is a function
/// of the parsed document and the extra argument of the SQL call, if any.
pub struct SchemaEntry<C> {
    schema: JsonDoc,
    custom_validator: Option<C>,
}

impl<C> SchemaEntry<C> {
    #[verifier::type_invariant]
    spec fn compiles(self) -> bool {
        schema_compile_error(self.schema@) is None
    }

    /// The text of the schema.
    pub closed spec fn schema_text(self) -> Seq<char> {
        self.schema@
    }

    /// The further check, if one was given.
    pub closed spec fn custom(self) -> Option<C> {
        self.custom_validator
    }

    /// Whether a further check was given.
    pub open spec fn has_custom_validator(self) -> bool {
        self.custom() is Some
    }

    /// An entry for `schema` with the further check `custom_validator`, if the schema
    /// compiles.
    pub fn from(schema: JsonDoc, custom_validator: Option<C>) -> (r: Result<SchemaEntry<C>, String>)
        ensures
            match r {
                Ok(e) => schema_compile_error(schema@) is None && e.schema_text() == schema@
                    && e.custom() == custom_validator,
                Err(m) => schema_compile_error(schema@) == Some(m@),
            },
    {
        match schema_problem(&schema) {
            None => Ok(SchemaEntry { schema, custom_validator }),
            Some(m) => Err(m),
        }
    }

    /// The schema document.
    pub fn schema(&self) -> (r: &JsonDoc)
        ensures
            r@ == self.schema_text(),
            schema_compile_error(r@) is None,
    {
        proof {
            use_type_invariant(self);
        }
        &self.schema
    }

    /// The further check, if one was given.
    pub fn custom_validator(&self) -> (r: &Option<C>)
        ensures
            *r == self.custom(),
    {
        &self.custom_validator
    }
}

/// The schema text registered under `name` in the registry `m`, if any.
pub open spec fn compiled_schema_of<C>(m: Map<Seq<char>, SchemaEntry<C>>, name: Seq<char>) -> Option<Seq<char>> {
    if m.contains_key(name) {
        Some(m[name].schema_text())
    } else {
        None
    }
}

/// What a lookup gives after a registry write: the entry just set under `name`, nothing
/// after it was removed, and for any other name what it gave before.
pub proof fn lemma_compiled_schema_after_write<C>(
    m: Map<Seq<char>, SchemaEntry<C>>,
    name: Seq<char>,
    other: Seq<char>,
    e: SchemaEntry<C>,
)
    requires
        other != name,
    ensures
        compiled_schema_of(m.insert(name, e), name) == Some(e.schema_text()),
        compiled_schema_of(m.remove(name), name) is None,
        compiled_schema_of(m.insert(name, e), other) == compiled_schema_of(m, other),
        compiled_schema_of(m.remove(name), other) == compiled_schema_of(m, other),
{
}

/// The compiled form of the schema registered under `name`.
pub fn get_compiled_schema<'a, C>(registry: &'a SchemaRegistry<SchemaEntry<C>>, name: &str) -> (r: Option<
    &'a JsonDoc,
>)
    ensures
        match r {
            Some(d) => registry@.contains_key(name@) && d@ == registry@[name@].schema_text()
                && schema_compile_error(d@) is None,
            None => !registry@.contains_key(name@),
        },
        match r {
            Some(d) => compiled_schema_of(registry@, name@) == Some(d@),
            None => compiled_schema_of(registry@, name@) is None,
        },
{
    match registry.get(name) {
        Some(e) => Some(e.schema()),
        None => None,
    }
}

/// `jsonschema(name, contents[, extra])`: whether the document `contents` meets the schema
/// registered under `name`, and then the entry's further check, which gets `extra`. `NULL`
/// contents pass; contents that are not JSON and names that are not registered are
/// errors. A document that the schema refuses is refused; on the others the further
/// check, if there is one, is called with the parsed document and `extra`, and its answer
/// is the result.
pub fn jsonschema_by_name<C: Fn(&JsonTree, Option<&str>) -> bool>(
    registry: &SchemaRegistry<SchemaEntry<C>>,
    name: &str,
    contents: Option<&str>,
    extra: Option<&str>,
) -> (r: Result<bool, String>)
    requires
        registry@.contains_key(name@) ==> match registry@[name@].custom() {
            Some(v) => forall|t: &JsonTree, e: Option<&str>| #[trigger] v.requires((t, e)),
            None => true,
        },
    ensures
        match contents {
            None => r == Ok::<bool, String>(true),
            Some(c) => match json_parse_error(c@) {
                Some(e) => r matches Err(m) && m@ == "Invalid JSON: "@ + c@ + " => "@ + e,
                None => if !registry@.contains_key(name@) {
                    r matches Err(m) && m@ == "Schema "@ + name@ + " not found"@
                } else if !schema_accepts(registry@[name@].schema_text(), c@) {
                    r == Ok::<bool, String>(false)
                } else {
                    match registry@[name@].custom() {
                        None => r == Ok::<bool, String>(true),
                        Some(v) => exists|d: JsonDoc, b: bool|
                            {
                                &&& d@ == c@
                                &&& v.ensures((&d.tree(), extra), b)
                                &&& r == Ok::<bool, String>(b)
                            },
                    }
                },
            },
        },
{
    let c = match contents {
        None => return Ok(true),
        Some(c) => c,
    };
    let doc = match parse_json(c) {
        Ok(d) => d,
        Err(e) => {
            let mut m = String::from_str("Invalid JSON: ");
            m.append(c);
            m.append(" => ");
            m.append(e.as_str());
            return Err(m);
        },
    };
    match registry.get(name) {
        None => {
            let mut m = String::from_str("Schema ");
            m.append(name);
            m.append(" not found");
            Err(m)
        },
        Some(entry) => {
            if !accepts(entry.schema(), &doc) {
                return Ok(false);
            }
            match entry.custom_validator() {
                None => Ok(true),
                Some(v) => {
                    let b = v(doc.value(), extra);
                    proof {
                        assert(v.ensures((&doc.tree(), extra), b));
                    }
                    Ok(b)
                },
            }
        },
    }
}

/// `jsonschema_matches(pattern, contents)`: whether the document `contents` meets the
/// schema given as the text `pattern`. `NULL` contents pass; contents that are not JSON,
/// and a pattern that is not JSON or does not compile, are errors.
pub fn jsonschema_matches(pattern: &str, contents: Option<&str>) -> (r: Result<bool, String>)
    ensures
        match contents {
            None => r == Ok::<bool, String>(true),
            Some(c) => match json_parse_error(c@) {
                Some(e) => r matches Err(m) && m@ == "Invalid JSON: '"@ + c@ + "' => "@ + e,
                None => match json_parse_error(pattern@) {
                    Some(e) => r matches Err(m) && m@ == "Invalid JSON Schema: "@ + e,
                    None => match schema_compile_error(pattern@) {
                        Some(e) => r matches Err(m) && m@ == "Failed to compile Schema: "@ + e,
                        None => r == Ok::<bool, String>(schema_accepts(pattern@, c@)),
                    },
                },
            },
        },
{
    let c = match contents {
        None => return Ok(true),
        Some(c) => c,
    };
    let doc = match parse_json(c) {
        Ok(d) => d,
        Err(e) => {
            let mut m = String::from_str("Invalid JSON: '");
            m.append(c);
            m.append("' => ");
            m.append(e.as_str());
            return Err(m);
        },
    };
    let schema = match parse_json(pattern) {
        Ok(d) => d,
        Err(e) => {
            let mut m = String::from_str("Invalid JSON Schema: ");
            m.append(e.as_str());
            return Err(m);
        },
    };
    match schema_problem(&schema) {
        Some(e) => {
            let mut m = String::from_str("Failed to compile Schema: ");
            m.append(e.as_str());
            Err(m)
        },
        None => Ok(accepts(&schema, &doc)),
    }
}

} // verus!
