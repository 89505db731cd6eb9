use trailbase::js_runtime::{
    drain_filter, imports_runtime_index, json_value_to_param, json_values_to_params,
    resolve_module_scheme, route_method, HttpMethod,
};
use trailbase::json_params::{JsonNumber, JsonValue};
use trailbase::records::SqlValue;

#[test]
fn route_methods() {
    assert_eq!(route_method("get"), Ok(HttpMethod::Get));
    assert_eq!(route_method("Post"), Ok(HttpMethod::Post));
    assert_eq!(route_method("DELETE"), Ok(HttpMethod::Delete));
    assert_eq!(route_method("trace"), Ok(HttpMethod::Trace));
    assert_eq!(route_method("fetch"), Err("method: FETCH".to_string()));
}

#[test]
fn module_schemes() {
    assert_eq!(resolve_module_scheme("file"), Ok(()));
    assert_eq!(resolve_module_scheme("trailbase"), Ok(()));
    assert_eq!(
        resolve_module_scheme("https"),
        Err("Unsupported schema: 'https'".to_string())
    );
    assert!(imports_runtime_index("trailbase"));
    assert!(!imports_runtime_index("file"));
}

#[test]
fn script_arguments_to_params() {
    assert_eq!(json_value_to_param(JsonValue::Null), Ok(SqlValue::Null));
    assert_eq!(json_value_to_param(JsonValue::Bool(true)), Ok(SqlValue::Integer(1)));
    assert_eq!(
        json_value_to_param(JsonValue::String("x".to_string())),
        Ok(SqlValue::Text("x".to_string()))
    );
    assert_eq!(
        json_value_to_param(JsonValue::Number(JsonNumber::PosInt(u64::MAX))),
        Ok(SqlValue::Integer(-1))
    );
    assert_eq!(
        json_value_to_param(JsonValue::Number(JsonNumber::Float("2.5".to_string()))),
        Ok(SqlValue::Real("2.5".to_string()))
    );
    assert_eq!(
        json_value_to_param(JsonValue::Object),
        Err("Object unsupported".to_string())
    );
    assert_eq!(
        json_values_to_params(vec![
            JsonValue::Number(JsonNumber::NegInt(-3)),
            JsonValue::Array(vec![]),
            JsonValue::Object,
        ]),
        Err("Array unsupported".to_string())
    );
    assert_eq!(
        json_values_to_params(vec![JsonValue::Null, JsonValue::Bool(false)]),
        Ok(vec![SqlValue::Null, SqlValue::Integer(0)])
    );
}

#[test]
fn draining_filtered_elements() {
    let mut v = vec![1, 2, 3, 4, 5, 6];
    let drained = drain_filter(&mut v, |x: &i32| x % 2 == 0);
    assert_eq!(drained, vec![6, 4, 2]);
    assert_eq!(v, vec![1, 5, 3]);

    let mut none = vec![1, 3];
    assert!(drain_filter(&mut none, |x: &i32| *x > 10).is_empty());
    assert_eq!(none, vec![1, 3]);
}
