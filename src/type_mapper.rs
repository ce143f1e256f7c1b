//! The mapping from database column types to TypeScript type expressions.
use crate::model::Column;
use crate::text::{is_lower_ascii, lower_of, lowercase, same_text};
use vstd::prelude::*;

verus! {

/// The TypeScript type of each database type that has a fixed mapping,
/// keyed by the lower-cased type name.
pub open spec fn canonical_base(l: Seq<char>) -> Option<Seq<char>> {
    if l == "serial"@ || l == "serial4"@ || l == "pg_catalog.serial4"@ {
        Some("number"@)
    } else if l == "bigserial"@ || l == "serial8"@ || l == "pg_catalog.serial8"@ {
        Some("bigint"@)
    } else if l == "smallserial"@ || l == "serial2"@ || l == "pg_catalog.serial2"@ {
        Some("number"@)
    } else if l == "integer"@ || l == "int"@ || l == "int4"@ || l == "pg_catalog.int4"@ {
        Some("number"@)
    } else if l == "bigint"@ || l == "int8"@ || l == "pg_catalog.int8"@ {
        Some("bigint"@)
    } else if l == "smallint"@ || l == "int2"@ || l == "pg_catalog.int2"@ {
        Some("number"@)
    } else if l == "float"@ || l == "double precision"@ || l == "float8"@ || l == "pg_catalog.float8"@ {
        Some("number"@)
    } else if l == "real"@ || l == "float4"@ || l == "pg_catalog.float4"@ {
        Some("number"@)
    } else if l == "numeric"@ || l == "pg_catalog.numeric"@ || l == "money"@ {
        Some("string"@)
    } else if l == "boolean"@ || l == "bool"@ || l == "pg_catalog.bool"@ {
        Some("boolean"@)
    } else if l == "json"@ || l == "jsonb"@ {
        Some("unknown"@)
    } else if l == "bytea"@ || l == "blob"@ || l == "pg_catalog.bytea"@ {
        Some("Uint8Array"@)
    } else if l == "date"@ {
        Some("Date"@)
    } else if l == "pg_catalog.time"@ || l == "pg_catalog.timetz"@ {
        Some("string"@)
    } else if l == "pg_catalog.timestamp"@ || l == "pg_catalog.timestamptz"@ || l == "timestamptz"@ {
        Some("Date"@)
    } else if l == "text"@ || l == "pg_catalog.varchar"@ || l == "pg_catalog.bpchar"@ {
        Some("string"@)
    } else if l == "string"@ || l == "citext"@ || l == "name"@ {
        Some("string"@)
    } else if l == "uuid"@ {
        Some("string"@)
    } else if l == "any"@ {
        Some("unknown"@)
    } else {
        None
    }
}

/// The type a lower-cased database type name stands for: its fixed mapping,
/// or the name itself where it has none.
pub open spec fn base_of(l: Seq<char>) -> Seq<char> {
    match canonical_base(l) {
        Some(t) => t,
        None => l,
    }
}

/// The marker that makes a type an array of it.
pub open spec fn array_suffix(is_array: bool) -> Seq<char> {
    if is_array {
        "[]"@
    } else {
        Seq::empty()
    }
}

/// The marker that lets a value also be `null`.
pub open spec fn null_suffix(not_null: bool) -> Seq<char> {
    if not_null {
        Seq::empty()
    } else {
        " | null"@
    }
}

/// The full type expression of a lower-cased database type name: the base
/// type, then the array marker, then the nullable marker.
pub open spec fn type_expr(l: Seq<char>, not_null: bool, is_array: bool) -> Seq<char> {
    base_of(l) + array_suffix(is_array) + null_suffix(not_null)
}

/// The fixed mapping of a lower-cased database type name, if it has one.
pub fn canonical_type(l: &str) -> (r: Option<&'static str>)
    ensures
        r is None <==> canonical_base(l@) is None,
        r matches Some(t) ==> canonical_base(l@) == Some(t@),
{
    if same_text(l, "serial") || same_text(l, "serial4") || same_text(l, "pg_catalog.serial4") {
        Some("number")
    } else if same_text(l, "bigserial") || same_text(l, "serial8") || same_text(l, "pg_catalog.serial8") {
        Some("bigint")
    } else if same_text(l, "smallserial") || same_text(l, "serial2") || same_text(l, "pg_catalog.serial2") {
        Some("number")
    } else if same_text(l, "integer") || same_text(l, "int") || same_text(l, "int4") || same_text(l, "pg_catalog.int4") {
        Some("number")
    } else if same_text(l, "bigint") || same_text(l, "int8") || same_text(l, "pg_catalog.int8") {
        Some("bigint")
    } else if same_text(l, "smallint") || same_text(l, "int2") || same_text(l, "pg_catalog.int2") {
        Some("number")
    } else if same_text(l, "float") || same_text(l, "double precision") || same_text(l, "float8") || same_text(l, "pg_catalog.float8") {
        Some("number")
    } else if same_text(l, "real") || same_text(l, "float4") || same_text(l, "pg_catalog.float4") {
        Some("number")
    } else if same_text(l, "numeric") || same_text(l, "pg_catalog.numeric") || same_text(l, "money") {
        Some("string")
    } else if same_text(l, "boolean") || same_text(l, "bool") || same_text(l, "pg_catalog.bool") {
        Some("boolean")
    } else if same_text(l, "json") || same_text(l, "jsonb") {
        Some("unknown")
    } else if same_text(l, "bytea") || same_text(l, "blob") || same_text(l, "pg_catalog.bytea") {
        Some("Uint8Array")
    } else if same_text(l, "date") {
        Some("Date")
    } else if same_text(l, "pg_catalog.time") || same_text(l, "pg_catalog.timetz") {
        Some("string")
    } else if same_text(l, "pg_catalog.timestamp") || same_text(l, "pg_catalog.timestamptz") || same_text(l, "timestamptz") {
        Some("Date")
    } else if same_text(l, "text") || same_text(l, "pg_catalog.varchar") || same_text(l, "pg_catalog.bpchar") {
        Some("string")
    } else if same_text(l, "string") || same_text(l, "citext") || same_text(l, "name") {
        Some("string")
    } else if same_text(l, "uuid") {
        Some("string")
    } else if same_text(l, "any") {
        Some("unknown")
    } else {
        None
    }
}

/// The type expression of an already lower-cased database type name.
pub fn type_expression(lowered: &str, not_null: bool, is_array: bool) -> (r: String)
    ensures
        r@ == type_expr(lowered@, not_null, is_array),
{
    let mut r = match canonical_type(lowered) {
        Some(t) => String::from_str(t),
        None => String::from_str(lowered),
    };
    if is_array {
        r.append("[]");
    }
    if !not_null {
        r.append(" | null");
    }
    proof {
        assert(r@ =~= type_expr(lowered@, not_null, is_array));
    }
    r
}

/// The type expression of a database type name, matched without regard to
/// letter case.
pub fn map_type(db_type: &str, not_null: bool, is_array: bool) -> (r: String)
    ensures
        r@ == type_expr(lower_of(db_type@), not_null, is_array),
        is_lower_ascii(db_type@) ==> r@ == type_expr(db_type@, not_null, is_array),
{
    let lowered = lowercase(db_type);
    type_expression(lowered.as_str(), not_null, is_array)
}

/// The type expression of a column.
pub fn to_ts_type(column: &Column) -> (r: String)
    ensures
        r@ == type_expr(lower_of(column.db_type@), column.not_null, column.is_array),
{
    map_type(column.db_type.as_str(), column.not_null, column.is_array)
}

} // verus!
