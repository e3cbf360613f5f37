//! Structuring of catalog query results: the tables listing and the
//! per-table column descriptors with primary-key flags.
use vstd::prelude::*;

use crate::text::str_eq;

verus! {

/// One table or view, schema-qualified.
#[derive(Debug)]
pub struct TableInfo {
    pub schema: String,
    pub name: String,
    pub table_type: String,
}

/// One column of a table, as the catalog describes it, with its
/// primary-key membership resolved from the constraint listing.
#[derive(Debug)]
pub struct ColumnInfo {
    pub name: String,
    pub data_type: String,
    pub is_nullable: bool,
    pub column_default: Option<String>,
    pub is_primary_key: bool,
}

/// Whether some string in `names` reads as `name`.
pub open spec fn spec_contains_str(names: Seq<String>, name: Seq<char>) -> bool {
    exists|i: int| 0 <= i < names.len() && (#[trigger] names[i])@ == name
}

/// Whether `names` holds a string reading as `name`.
pub fn contains_str(names: &Vec<String>, name: &str) -> (r: bool)
    ensures
        r == spec_contains_str(names@, name@),
{
    let n = names.len();
    let mut i: usize = 0;
    while i < n
        invariant
            n == names@.len(),
            i <= n,
            forall|j: int| 0 <= j < i ==> (#[trigger] names@[j])@ != name@,
        decreases n - i,
    {
        if str_eq(names[i].as_str(), name) {
            return true;
        }
        i += 1;
    }
    false
}

/// Builds the tables listing from the catalog's `(schema, name, type)`
/// rows, one descriptor per row, in the order the catalog returned them.
pub fn tables_from_rows(rows: Vec<(String, String, String)>) -> (r: Vec<TableInfo>)
    ensures
        r@.len() == rows@.len(),
        forall|i: int|
            0 <= i < rows@.len() ==> {
                &&& (#[trigger] r@[i]).schema == rows@[i].0
                &&& r@[i].name == rows@[i].1
                &&& r@[i].table_type == rows@[i].2
            },
{
    let mut rows = rows;
    let ghost grows = rows@;
    let mut out: Vec<TableInfo> = Vec::new();
    while rows.len() > 0
        invariant
            out@.len() + rows@.len() == grows.len(),
            rows@ == grows.skip(out@.len() as int),
            forall|k: int|
                0 <= k < out@.len() ==> {
                    &&& (#[trigger] out@[k]).schema == grows[k].0
                    &&& out@[k].name == grows[k].1
                    &&& out@[k].table_type == grows[k].2
                },
        decreases rows@.len(),
    {
        let ghost done: int = out@.len() as int;
        let (schema, name, table_type) = rows.remove(0);
        proof {
            assert(rows@ =~= grows.skip(done + 1));
        }
        out.push(TableInfo { schema, name, table_type });
    }
    out
}

/// Builds the column descriptors of one table from the catalog's
/// `(name, data_type, is_nullable, column_default)` rows, in ordinal
/// order, and the primary-key constraint's column names.
///
/// A column is nullable exactly when the catalog says `YES`, and carries
/// the primary-key flag exactly when its name appears among the
/// constraint's columns.
pub fn columns_from_rows(
    rows: Vec<(String, String, String, Option<String>)>,
    pk_columns: Vec<String>,
) -> (r: Vec<ColumnInfo>)
    ensures
        r@.len() == rows@.len(),
        forall|i: int|
            0 <= i < rows@.len() ==> {
                &&& (#[trigger] r@[i]).name == rows@[i].0
                &&& r@[i].data_type == rows@[i].1
                &&& r@[i].is_nullable == (rows@[i].2@ == "YES"@)
                &&& r@[i].column_default == rows@[i].3
                &&& r@[i].is_primary_key == spec_contains_str(pk_columns@, rows@[i].0@)
            },
{
    let mut rows = rows;
    let ghost grows = rows@;
    let mut out: Vec<ColumnInfo> = Vec::new();
    while rows.len() > 0
        invariant
            out@.len() + rows@.len() == grows.len(),
            rows@ == grows.skip(out@.len() as int),
            forall|k: int|
                0 <= k < out@.len() ==> {
                    &&& (#[trigger] out@[k]).name == grows[k].0
                    &&& out@[k].data_type == grows[k].1
                    &&& out@[k].is_nullable == (grows[k].2@ == "YES"@)
                    &&& out@[k].column_default == grows[k].3
                    &&& out@[k].is_primary_key == spec_contains_str(pk_columns@, grows[k].0@)
                },
        decreases rows@.len(),
    {
        let ghost done: int = out@.len() as int;
        let (name, data_type, is_nullable, column_default) = rows.remove(0);
        proof {
            assert(rows@ =~= grows.skip(done + 1));
        }
        let nullable = str_eq(is_nullable.as_str(), "YES");
        let is_pk = contains_str(&pk_columns, name.as_str());
        out.push(
            ColumnInfo {
                name,
                data_type,
                is_nullable: nullable,
                column_default,
                is_primary_key: is_pk,
            },
        );
    }
    out
}

} // verus!
