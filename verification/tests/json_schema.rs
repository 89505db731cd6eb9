use trailbase::json_schema::{
    get_compiled_schema, jsonschema_by_name, jsonschema_matches, parse_json, SchemaEntry,
};
use trailbase::schema_registry::SchemaRegistry;

const TEXT0_SCHEMA: &str = r#"
        {
          "type": "object",
          "properties": {
            "name": { "type": "string" },
            "age": { "type": "integer", "minimum": 0 }
          },
          "required": ["name"]
        }
    "#;

/// A further check given with a schema.
type Check = fn(&serde_json::Value, Option<&str>) -> bool;

fn starts_with(v: &serde_json::Value, param: Option<&str>) -> bool {
    if let Some(param) = param {
        if let serde_json::Value::Object(map) = v {
            if let Some(serde_json::Value::String(str)) = map.get("name") {
                if str.starts_with(param) {
                    return true;
                }
            }
        }
    }
    return false;
}

fn never(_v: &serde_json::Value, _param: Option<&str>) -> bool {
    false
}

#[test]
fn jsonschema_test_explicit_jsonschema() {
    let text1_schema = r#"{ "type": "string" }"#;

    assert_eq!(
        jsonschema_matches(TEXT0_SCHEMA, Some(r#"{"name": "foo"}"#)),
        Ok(true)
    );
    assert_eq!(jsonschema_matches(text1_schema, Some(r#""text""#)), Ok(true));

    assert_eq!(
        jsonschema_matches(TEXT0_SCHEMA, Some(r#"{"name": "foo", "age": -5}"#)),
        Ok(false)
    );
}

#[test]
fn test_registerd_jsonschema() {
    let mut registry: SchemaRegistry<SchemaEntry<Check>> = SchemaRegistry::new();
    registry.set(
        "name0",
        Some(SchemaEntry::from(parse_json(TEXT0_SCHEMA).unwrap(), Some(starts_with as Check)).unwrap()),
    );

    assert_eq!(
        jsonschema_by_name(
            &registry,
            "name0",
            Some(r#"{"name": "prefix_foo"}"#),
            Some("prefix")
        ),
        Ok(true)
    );
    assert_eq!(
        jsonschema_by_name(
            &registry,
            "name0",
            Some(r#"{"name": "WRONG_PREFIX_foo"}"#),
            Some("prefix")
        ),
        Ok(false)
    );
}

#[test]
fn matches_null_contents_pass() {
    assert_eq!(jsonschema_matches("not even json", None), Ok(true));
}

#[test]
fn matches_reports_invalid_contents() {
    let r = jsonschema_matches(TEXT0_SCHEMA, Some("{oops"));
    let m = r.unwrap_err();
    assert!(m.starts_with("Invalid JSON: '{oops' => "), "{m}");
}

#[test]
fn matches_reports_invalid_schema_text() {
    let m = jsonschema_matches("{oops", Some("{}")).unwrap_err();
    assert!(m.starts_with("Invalid JSON Schema: "), "{m}");
}

#[test]
fn matches_reports_schema_that_does_not_compile() {
    let m = jsonschema_matches(r#"{"type": 12}"#, Some("{}")).unwrap_err();
    assert!(m.starts_with("Failed to compile Schema: "), "{m}");
}

#[test]
fn entry_refuses_schema_that_does_not_compile() {
    let r = SchemaEntry::<Check>::from(parse_json(r#"{"type": 12}"#).unwrap(), None);
    assert!(r.is_err());
}

#[test]
fn by_name_without_custom_check() {
    let mut registry: SchemaRegistry<SchemaEntry<Check>> = SchemaRegistry::new();
    registry.set(
        "person",
        Some(SchemaEntry::from(parse_json(TEXT0_SCHEMA).unwrap(), None).unwrap()),
    );
    assert_eq!(
        jsonschema_by_name(&registry, "person", Some(r#"{"name": "x"}"#), None),
        Ok(true)
    );
    assert_eq!(
        jsonschema_by_name(&registry, "person", Some(r#"{"age": 3}"#), None),
        Ok(false)
    );
    assert_eq!(jsonschema_by_name(&registry, "person", None, None), Ok(true));
    assert_eq!(
        jsonschema_by_name(&registry, "nope", Some("{}"), None),
        Err("Schema nope not found".to_string())
    );
    let m = jsonschema_by_name(&registry, "person", Some("[1,"), None).unwrap_err();
    assert!(m.starts_with("Invalid JSON: [1, => "), "{m}");
}

#[test]
fn custom_check_runs_only_after_schema() {
    let mut registry: SchemaRegistry<SchemaEntry<Check>> = SchemaRegistry::new();
    registry.set(
        "name0",
        Some(SchemaEntry::from(parse_json(TEXT0_SCHEMA).unwrap(), Some(starts_with as Check)).unwrap()),
    );
    // The schema refuses a negative age before the custom check is asked.
    assert_eq!(
        jsonschema_by_name(
            &registry,
            "name0",
            Some(r#"{"name": "prefix_foo", "age": -1}"#),
            Some("prefix")
        ),
        Ok(false)
    );
}

#[test]
fn compiled_schema_lookup() {
    let mut registry: SchemaRegistry<SchemaEntry<Check>> = SchemaRegistry::new();
    assert!(get_compiled_schema(&registry, "person").is_none());
    registry.set(
        "person",
        Some(SchemaEntry::from(parse_json(TEXT0_SCHEMA).unwrap(), None).unwrap()),
    );
    let doc = get_compiled_schema(&registry, "person").unwrap();
    assert_eq!(doc.value()["required"][0], "name");
}

#[test]
fn custom_check_answer_is_the_result() {
    let mut registry: SchemaRegistry<SchemaEntry<Check>> = SchemaRegistry::new();
    registry.set(
        "strict",
        Some(SchemaEntry::from(parse_json(TEXT0_SCHEMA).unwrap(), Some(never as Check)).unwrap()),
    );
    // The schema accepts the document; the check refuses it.
    assert_eq!(
        jsonschema_by_name(&registry, "strict", Some(r#"{"name": "x"}"#), Some("x")),
        Ok(false)
    );
    assert_eq!(jsonschema_by_name(&registry, "strict", None, None), Ok(true));
}
