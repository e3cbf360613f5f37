//! The value coercion layer.
//!
//! A result cell arrives from the database driver as a typed native value;
//! the engine converts it, directed by the column's declared type name, into
//! a JSON-compatible value. Conversion is best-effort: a cell whose native
//! value does not match its declared type (or is NULL) degrades to a JSON
//! null rather than failing the surrounding query.
use vstd::prelude::*;

use crate::json::{float_bits_finite, is_finite_float_bits, JsonNumber, JsonValue};
use crate::text::str_eq;

verus! {

/// Which native extraction a declared column type calls for.
#[derive(Clone, Copy, Debug, PartialEq, Eq, Structural)]
pub enum FetchKind {
    /// `BOOL`: read a boolean.
    Bool,
    /// `INT2` or `INT4`: read a 32-bit signed integer.
    Int4,
    /// `INT8`: read a 64-bit signed integer.
    Int8,
    /// `FLOAT4` or `FLOAT8`: read a double.
    Float8,
    /// `JSON` or `JSONB`: read a structured value.
    Json,
    /// `UUID`: read an identifier and keep its canonical textual form.
    Uuid,
    /// Any other declared type: read a textual representation.
    Text,
}

/// A native cell as handed over by the driver: the value the extraction for
/// the column's [`FetchKind`] produced, or [`PgValue::Missing`] when the
/// extraction failed (NULL cell or declared/native type mismatch).
#[derive(Debug)]
pub enum PgValue {
    Missing,
    Bool(bool),
    Int4(i32),
    Int8(i64),
    /// IEEE 754 bit pattern of the double the driver returned.
    Float8(u64),
    Json(JsonValue),
    /// Canonical textual form of the identifier.
    Uuid(String),
    Text(String),
}

/// The extraction kind for a declared type name. Matching is by exact,
/// case-sensitive name; every unknown name falls back to text.
pub open spec fn spec_fetch_kind(ty: Seq<char>) -> FetchKind {
    if ty == "BOOL"@ {
        FetchKind::Bool
    } else if ty == "INT2"@ || ty == "INT4"@ {
        FetchKind::Int4
    } else if ty == "INT8"@ {
        FetchKind::Int8
    } else if ty == "FLOAT4"@ || ty == "FLOAT8"@ {
        FetchKind::Float8
    } else if ty == "JSON"@ || ty == "JSONB"@ {
        FetchKind::Json
    } else if ty == "UUID"@ {
        FetchKind::Uuid
    } else {
        FetchKind::Text
    }
}

/// Decides, from a column's declared type name, which native extraction the
/// driver should attempt for its cells.
pub fn fetch_kind(declared_type: &str) -> (r: FetchKind)
    ensures
        r == spec_fetch_kind(declared_type@),
{
    if str_eq(declared_type, "BOOL") {
        FetchKind::Bool
    } else if str_eq(declared_type, "INT2") || str_eq(declared_type, "INT4") {
        FetchKind::Int4
    } else if str_eq(declared_type, "INT8") {
        FetchKind::Int8
    } else if str_eq(declared_type, "FLOAT4") || str_eq(declared_type, "FLOAT8") {
        FetchKind::Float8
    } else if str_eq(declared_type, "JSON") || str_eq(declared_type, "JSONB") {
        FetchKind::Json
    } else if str_eq(declared_type, "UUID") {
        FetchKind::Uuid
    } else {
        FetchKind::Text
    }
}

/// Coercion of a native cell under an extraction kind. A cell of the wrong
/// shape for the kind degrades to null; a non-finite double degrades to
/// null; a structured value passes through unchanged.
pub open spec fn spec_coerce_cell(kind: FetchKind, cell: PgValue) -> JsonValue {
    match kind {
        FetchKind::Bool => match cell {
            PgValue::Bool(b) => JsonValue::Bool(b),
            _ => JsonValue::Null,
        },
        FetchKind::Int4 => match cell {
            PgValue::Int4(v) => JsonValue::Number(JsonNumber::Int(v as i64)),
            _ => JsonValue::Null,
        },
        FetchKind::Int8 => match cell {
            PgValue::Int8(v) => JsonValue::Number(JsonNumber::Int(v)),
            _ => JsonValue::Null,
        },
        FetchKind::Float8 => match cell {
            PgValue::Float8(bits) => if float_bits_finite(bits) {
                JsonValue::Number(JsonNumber::FloatBits(bits))
            } else {
                JsonValue::Null
            },
            _ => JsonValue::Null,
        },
        FetchKind::Json => match cell {
            PgValue::Json(v) => v,
            _ => JsonValue::Null,
        },
        FetchKind::Uuid => match cell {
            PgValue::Uuid(s) => JsonValue::Text(s),
            _ => JsonValue::Null,
        },
        FetchKind::Text => match cell {
            PgValue::Text(s) => JsonValue::Text(s),
            _ => JsonValue::Null,
        },
    }
}

/// Coercion of a native cell under a declared type name.
pub open spec fn spec_coerce(ty: Seq<char>, cell: PgValue) -> JsonValue {
    spec_coerce_cell(spec_fetch_kind(ty), cell)
}

/// Converts one native cell into a JSON-compatible value, directed by the
/// column's declared type name.
pub fn coerce_value(declared_type: &str, cell: PgValue) -> (r: JsonValue)
    ensures
        r == spec_coerce(declared_type@, cell),
{
    match fetch_kind(declared_type) {
        FetchKind::Bool => match cell {
            PgValue::Bool(b) => JsonValue::Bool(b),
            _ => JsonValue::Null,
        },
        FetchKind::Int4 => match cell {
            PgValue::Int4(v) => JsonValue::Number(JsonNumber::Int(v as i64)),
            _ => JsonValue::Null,
        },
        FetchKind::Int8 => match cell {
            PgValue::Int8(v) => JsonValue::Number(JsonNumber::Int(v)),
            _ => JsonValue::Null,
        },
        FetchKind::Float8 => match cell {
            PgValue::Float8(bits) => if is_finite_float_bits(bits) {
                JsonValue::Number(JsonNumber::FloatBits(bits))
            } else {
                JsonValue::Null
            },
            _ => JsonValue::Null,
        },
        FetchKind::Json => match cell {
            PgValue::Json(v) => v,
            _ => JsonValue::Null,
        },
        FetchKind::Uuid => match cell {
            PgValue::Uuid(s) => JsonValue::Text(s),
            _ => JsonValue::Null,
        },
        FetchKind::Text => match cell {
            PgValue::Text(s) => JsonValue::Text(s),
            _ => JsonValue::Null,
        },
    }
}

/// Coercion output always matches the tag its declared type calls for, or is
/// null: a boolean type yields a boolean, the integer and floating types
/// yield numbers (a non-finite double yields null), the structured types
/// pass the structured value through unchanged, the identifier type and
/// every unknown type yield text. Coercion never fails.
pub proof fn lemma_coercion_tags(ty: Seq<char>, cell: PgValue)
    ensures
        spec_fetch_kind(ty) == FetchKind::Bool ==> (spec_coerce(ty, cell) is Bool || spec_coerce(
            ty,
            cell,
        ) is Null),
        spec_fetch_kind(ty) == FetchKind::Int4 || spec_fetch_kind(ty) == FetchKind::Int8
            || spec_fetch_kind(ty) == FetchKind::Float8 ==> (spec_coerce(ty, cell) is Number
            || spec_coerce(ty, cell) is Null),
        spec_fetch_kind(ty) == FetchKind::Float8 && (cell matches PgValue::Float8(bits)
            && !float_bits_finite(bits)) ==> spec_coerce(ty, cell) is Null,
        spec_fetch_kind(ty) == FetchKind::Json ==> ((cell matches PgValue::Json(v) && spec_coerce(
            ty,
            cell,
        ) == v) || (!(cell is Json) && spec_coerce(ty, cell) is Null)),
        spec_fetch_kind(ty) == FetchKind::Uuid || spec_fetch_kind(ty) == FetchKind::Text ==> (
        spec_coerce(ty, cell) is Text || spec_coerce(ty, cell) is Null),
{
}

} // verus!
