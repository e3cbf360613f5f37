use datatool::coerce::PgValue;
use datatool::explain::{analyze_plan, extract_plan};
use datatool::json::{JsonNumber, JsonValue};
use datatool::results::{build_query_result, ColumnMeta, RawRow};

fn sample_plan() -> JsonValue {
    // The shape an analyzed explain of `SELECT 1` comes back in: one
    // array element with top-level timings and a nested plan node.
    JsonValue::Array(vec![JsonValue::Object(vec![
        (
            String::from("Plan"),
            JsonValue::Object(vec![
                (String::from("Node Type"), JsonValue::Text(String::from("Result"))),
                (
                    String::from("Total Cost"),
                    JsonValue::Number(JsonNumber::FloatBits(0.01f64.to_bits())),
                ),
            ]),
        ),
        (
            String::from("Planning Time"),
            JsonValue::Number(JsonNumber::FloatBits(0.025f64.to_bits())),
        ),
        (
            String::from("Execution Time"),
            JsonValue::Number(JsonNumber::FloatBits(0.011f64.to_bits())),
        ),
    ])])
}

#[test]
fn analyzed_plan_yields_timings_and_cost() {
    let r = analyze_plan(sample_plan());
    assert_eq!(r.planning_time, Some(JsonNumber::FloatBits(0.025f64.to_bits())));
    assert_eq!(r.execution_time, Some(JsonNumber::FloatBits(0.011f64.to_bits())));
    assert_eq!(r.total_cost, Some(JsonNumber::FloatBits(0.01f64.to_bits())));
    assert!(matches!(r.plan, JsonValue::Array(_)));
}

#[test]
fn missing_fields_yield_missing_values_not_errors() {
    let bare = JsonValue::Array(vec![JsonValue::Object(vec![(
        String::from("Plan"),
        JsonValue::Object(Vec::new()),
    )])]);
    let r = analyze_plan(bare);
    assert_eq!(r.planning_time, None);
    assert_eq!(r.execution_time, None);
    assert_eq!(r.total_cost, None);

    let not_an_array = JsonValue::Text(String::from("no plan"));
    let r = analyze_plan(not_an_array);
    assert_eq!(r.planning_time, None);
    assert_eq!(r.execution_time, None);
    assert_eq!(r.total_cost, None);
}

#[test]
fn plain_explain_takes_first_cell_of_first_row() {
    let raw = vec![RawRow {
        columns: vec![ColumnMeta {
            name: String::from("QUERY PLAN"),
            data_type: String::from("JSON"),
        }],
        cells: vec![PgValue::Json(JsonValue::Array(vec![JsonValue::Object(Vec::new())]))],
    }];
    let result = build_query_result(raw);
    match extract_plan(result) {
        Ok(JsonValue::Array(items)) => assert_eq!(items.len(), 1),
        other => panic!("expected the plan array, got {:?}", other),
    }
}

#[test]
fn plain_explain_without_rows_is_a_parse_failure() {
    let empty = build_query_result(Vec::new());
    match extract_plan(empty) {
        Err(m) => assert_eq!(m, "Failed to parse EXPLAIN output"),
        Ok(v) => panic!("expected a parse failure, got {:?}", v),
    }
}

#[test]
fn json_accessors_index_and_look_up() {
    let plan = sample_plan();
    let first = plan.get_index(0).expect("one element");
    assert!(plan.get_index(1).is_none());
    let node = first.get_key("Plan").expect("nested plan");
    match node.get_key("Node Type") {
        Some(JsonValue::Text(s)) => assert_eq!(s, "Result"),
        other => panic!("expected the node type, got {:?}", other),
    }
    assert!(first.get_key("Missing Key").is_none());
    assert_eq!(
        node.get_key("Total Cost").and_then(|v| v.as_number()),
        Some(JsonNumber::FloatBits(0.01f64.to_bits()))
    );
    assert!(first.get_key("Plan").unwrap().as_number().is_none());
}
