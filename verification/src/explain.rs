//! Extraction of diagnostics from a JSON-shaped execution plan.
//!
//! An analyzed plan is an array whose first element carries top-level
//! `Planning Time` and `Execution Time` numbers and a nested `Plan` object
//! with a `Total Cost`. Each is optional: absence yields a missing value,
//! never an error.
use vstd::prelude::*;

use crate::json::{spec_as_number, spec_get_index, spec_get_key, JsonNumber, JsonValue};
use crate::results::QueryResult;

verus! {

/// An analyzed plan beside the diagnostics drawn out of it.
#[derive(Debug)]
pub struct ExplainResult {
    pub plan: JsonValue,
    pub planning_time: Option<JsonNumber>,
    pub execution_time: Option<JsonNumber>,
    pub total_cost: Option<JsonNumber>,
}

/// The number under `key` in the plan's first element, if present.
pub open spec fn spec_plan_metric(plan: JsonValue, key: Seq<char>) -> Option<JsonNumber> {
    match spec_get_index(plan, 0) {
        Some(first) => match spec_get_key(first, key) {
            Some(v) => spec_as_number(v),
            None => None,
        },
        None => None,
    }
}

/// The number under `Total Cost` inside the first element's nested `Plan`
/// object, if present.
pub open spec fn spec_total_cost(plan: JsonValue) -> Option<JsonNumber> {
    match spec_get_index(plan, 0) {
        Some(first) => match spec_get_key(first, ("Plan")@) {
            Some(p) => match spec_get_key(p, ("Total Cost")@) {
                Some(v) => spec_as_number(v),
                None => None,
            },
            None => None,
        },
        None => None,
    }
}

/// Reads the number under `key` in the plan's first element.
fn plan_metric(plan: &JsonValue, key: &str) -> (r: Option<JsonNumber>)
    ensures
        r == spec_plan_metric(*plan, key@),
{
    match plan.get_index(0) {
        Some(first) => match first.get_key(key) {
            Some(v) => v.as_number(),
            None => None,
        },
        None => None,
    }
}

/// Structures an analyzed plan: keeps the plan itself and draws
/// `planning_time` and `execution_time` from its first element and
/// `total_cost` from the nested plan node. A missing or non-numeric field
/// yields a missing value.
pub fn analyze_plan(plan: JsonValue) -> (r: ExplainResult)
    ensures
        r.plan == plan,
        r.planning_time == spec_plan_metric(plan, ("Planning Time")@),
        r.execution_time == spec_plan_metric(plan, ("Execution Time")@),
        r.total_cost == spec_total_cost(plan),
{
    let planning_time = plan_metric(&plan, "Planning Time");
    let execution_time = plan_metric(&plan, "Execution Time");
    let total_cost = match plan.get_index(0) {
        Some(first) => match first.get_key("Plan") {
            Some(p) => match p.get_key("Total Cost") {
                Some(v) => v.as_number(),
                None => None,
            },
            None => None,
        },
        None => None,
    };
    ExplainResult { plan, planning_time, execution_time, total_cost }
}

/// Takes the raw plan out of a non-executing explain's result envelope:
/// the first column of the first row. A result without such a cell is a
/// parse failure.
pub fn extract_plan(result: QueryResult) -> (r: Result<JsonValue, String>)
    ensures
        result.rows@.len() > 0 && result.rows@[0]@.len() > 0 ==> (r matches Ok(v) && v
            == result.rows@[0]@[0]),
        !(result.rows@.len() > 0 && result.rows@[0]@.len() > 0) ==> (r matches Err(m) && m@ == (
        "Failed to parse EXPLAIN output")@),
{
    let mut rows = result.rows;
    if rows.len() > 0 {
        let mut row0 = rows.remove(0);
        if row0.len() > 0 {
            let v = row0.remove(0);
            return Ok(v);
        }
    }
    Err(String::from_str("Failed to parse EXPLAIN output"))
}

} // verus!
