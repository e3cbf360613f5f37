//! Assembly of uniform result envelopes from raw driver rows.
//!
//! A raw row pairs the driver's column metadata with the extracted native
//! cells; the builders coerce every cell and assemble the envelope. Column
//! descriptors are derived from the first row only, so a result with zero
//! rows reports zero columns — a documented limitation of the engine.
use vstd::prelude::*;

use crate::coerce::{spec_coerce, PgValue};
use crate::json::JsonValue;

verus! {

/// One result column: its name and its declared type name.
#[derive(Debug)]
pub struct ColumnMeta {
    pub name: String,
    pub data_type: String,
}

/// One raw result row as handed over by the driver: the row's column
/// metadata and one extracted native cell per column.
#[derive(Debug)]
pub struct RawRow {
    pub columns: Vec<ColumnMeta>,
    pub cells: Vec<PgValue>,
}

impl RawRow {
    /// A raw row is well formed when it has exactly one cell per column.
    pub open spec fn wf(self) -> bool {
        self.cells@.len() == self.columns@.len()
    }
}

/// The coerced values of a raw row, one per cell, each converted under its
/// own column's declared type.
pub open spec fn spec_row_values(row: RawRow) -> Seq<JsonValue> {
    Seq::new(row.cells@.len(), |j: int| spec_coerce(row.columns@[j].data_type@, row.cells@[j]))
}

/// The uniform envelope of an ad-hoc query: column descriptors, coerced
/// rows, and the row count. `affected_rows` is not populated on this path.
#[derive(Debug)]
pub struct QueryResult {
    pub columns: Vec<ColumnMeta>,
    pub rows: Vec<Vec<JsonValue>>,
    pub row_count: usize,
    pub affected_rows: Option<u64>,
}

impl QueryResult {
    /// Every row has exactly one value per column, in column order, and
    /// `row_count` counts the rows.
    pub open spec fn wf(self) -> bool {
        &&& forall|i: int|
            0 <= i < self.rows@.len() ==> (#[trigger] self.rows@[i])@.len() == self.columns@.len()
        &&& self.row_count == self.rows@.len()
    }
}

/// A bounded slice of a table, with the table's full row count.
#[derive(Debug)]
pub struct PaginatedResult {
    pub columns: Vec<ColumnMeta>,
    pub rows: Vec<Vec<JsonValue>>,
    pub total_count: i64,
    pub page: i32,
    pub page_size: i32,
}

impl PaginatedResult {
    /// Every row has exactly one value per column, and the slice never
    /// exceeds the requested page size. `total_count` is a property of the
    /// whole table, not of the slice.
    pub open spec fn wf(self) -> bool {
        &&& forall|i: int|
            0 <= i < self.rows@.len() ==> (#[trigger] self.rows@[i])@.len() == self.columns@.len()
        &&& self.rows@.len() <= self.page_size
    }
}

/// Coerces every cell of one raw row, returning the row's column metadata
/// unchanged beside the coerced values.
pub fn row_to_json_values(row: RawRow) -> (r: (Vec<ColumnMeta>, Vec<JsonValue>))
    requires
        row.wf(),
    ensures
        r.0 == row.columns,
        r.1@ == spec_row_values(row),
{
    let RawRow { columns, mut cells } = row;
    let ghost gcells = cells@;
    let mut out: Vec<JsonValue> = Vec::new();
    while cells.len() > 0
        invariant
            columns == row.columns,
            gcells == row.cells@,
            row.wf(),
            out@.len() + cells@.len() == gcells.len(),
            cells@ == gcells.skip(out@.len() as int),
            forall|k: int|
                0 <= k < out@.len() ==> out@[k] == spec_coerce(
                    row.columns@[k].data_type@,
                    gcells[k],
                ),
        decreases cells@.len(),
    {
        let j = out.len();
        let cell = cells.remove(0);
        proof {
            assert(cell == gcells[j as int]);
            assert(cells@ =~= gcells.skip(j + 1));
        }
        let v = crate::coerce::coerce_value(columns[j].data_type.as_str(), cell);
        out.push(v);
    }
    proof {
        assert(out@ =~= spec_row_values(row));
    }
    (columns, out)
}

/// Coerces a batch of raw rows. The envelope's column descriptors come from
/// the first row; an empty batch yields no columns.
fn convert_rows(input: Vec<RawRow>) -> (r: (Vec<ColumnMeta>, Vec<Vec<JsonValue>>))
    requires
        forall|i: int| 0 <= i < input@.len() ==> (#[trigger] input@[i]).wf(),
    ensures
        input@.len() == 0 ==> r.0@.len() == 0,
        input@.len() > 0 ==> r.0 == input@[0].columns,
        r.1@.len() == input@.len(),
        forall|i: int|
            0 <= i < input@.len() ==> (#[trigger] r.1@[i])@ == spec_row_values(input@[i]),
{
    let mut raw = input;
    let ghost graw = raw@;
    if raw.len() == 0 {
        return (Vec::new(), Vec::new());
    }
    let first = raw.remove(0);
    let (cols, vals) = row_to_json_values(first);
    let mut rows_out: Vec<Vec<JsonValue>> = Vec::new();
    rows_out.push(vals);
    proof {
        assert(raw@ =~= graw.skip(1));
    }
    while raw.len() > 0
        invariant
            graw == input@,
            forall|i: int| 0 <= i < graw.len() ==> (#[trigger] graw[i]).wf(),
            1 <= rows_out@.len() <= graw.len(),
            rows_out@.len() + raw@.len() == graw.len(),
            raw@ == graw.skip(rows_out@.len() as int),
            forall|k: int|
                0 <= k < rows_out@.len() ==> (#[trigger] rows_out@[k])@ == spec_row_values(
                    graw[k],
                ),
        decreases raw@.len(),
    {
        let ghost done: int = rows_out@.len() as int;
        let row = raw.remove(0);
        proof {
            assert(row == graw[done as int]);
            assert(raw@ =~= graw.skip(done + 1));
        }
        let converted = row_to_json_values(row);
        rows_out.push(converted.1);
    }
    (cols, rows_out)
}

/// Builds the envelope of an ad-hoc query from the driver's raw rows.
///
/// Zero raw rows yield an empty envelope: no columns, no rows, a row count
/// of zero. Otherwise the column descriptors are the first row's, every
/// cell is coerced under its column's declared type, and `affected_rows`
/// stays unset.
pub fn build_query_result(raw: Vec<RawRow>) -> (r: QueryResult)
    requires
        forall|i: int| 0 <= i < raw@.len() ==> (#[trigger] raw@[i]).wf(),
        forall|i: int|
            0 <= i < raw@.len() ==> (#[trigger] raw@[i]).columns@.len()
                == raw@[0].columns@.len(),
    ensures
        r.wf(),
        r.row_count == raw@.len(),
        r.affected_rows is None,
        raw@.len() == 0 ==> r.columns@.len() == 0 && r.rows@.len() == 0,
        raw@.len() > 0 ==> r.columns == raw@[0].columns,
        r.rows@.len() == raw@.len(),
        forall|i: int|
            0 <= i < raw@.len() ==> (#[trigger] r.rows@[i])@ == spec_row_values(raw@[i]),
{
    let ghost graw = raw@;
    let (columns, rows) = convert_rows(raw);
    let row_count = rows.len();
    proof {
        assert forall|i: int| 0 <= i < rows@.len() implies (#[trigger] rows@[i])@.len()
            == columns@.len() by {
            assert(rows@[i]@ == spec_row_values(graw[i]));
        }
    }
    QueryResult { columns, rows, row_count, affected_rows: None }
}

/// Builds a page envelope from the driver's raw rows, the table's full
/// count, and the requested page bounds.
///
/// The raw slice is the outcome of the bounded scan, so it never holds more
/// than `page_size` rows; the envelope keeps that bound. `total_count` is
/// the full count, taken over independently of the slice.
pub fn build_paginated_result(
    raw: Vec<RawRow>,
    total_count: i64,
    page: i32,
    page_size: i32,
) -> (r: PaginatedResult)
    requires
        forall|i: int| 0 <= i < raw@.len() ==> (#[trigger] raw@[i]).wf(),
        forall|i: int|
            0 <= i < raw@.len() ==> (#[trigger] raw@[i]).columns@.len()
                == raw@[0].columns@.len(),
        raw@.len() <= page_size,
    ensures
        r.wf(),
        r.total_count == total_count,
        r.page == page,
        r.page_size == page_size,
        r.rows@.len() <= page_size,
        raw@.len() == 0 ==> r.columns@.len() == 0 && r.rows@.len() == 0,
        raw@.len() > 0 ==> r.columns == raw@[0].columns,
        r.rows@.len() == raw@.len(),
        forall|i: int|
            0 <= i < raw@.len() ==> (#[trigger] r.rows@[i])@ == spec_row_values(raw@[i]),
{
    let ghost graw = raw@;
    let (columns, rows) = convert_rows(raw);
    proof {
        assert forall|i: int| 0 <= i < rows@.len() implies (#[trigger] rows@[i])@.len()
            == columns@.len() by {
            assert(rows@[i]@ == spec_row_values(graw[i]));
        }
    }
    PaginatedResult { columns, rows, total_count, page, page_size }
}

} // verus!
