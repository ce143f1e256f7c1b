use sqlc_gen_deno_postgres::model::Column;
use sqlc_gen_deno_postgres::type_mapper::{canonical_type, map_type, to_ts_type, type_expression};

#[test]
fn integer_types_map_by_width() {
    assert_eq!(map_type("int4", true, false), "number");
    assert_eq!(map_type("serial", true, false), "number");
    assert_eq!(map_type("pg_catalog.int2", true, false), "number");
    assert_eq!(map_type("int8", true, false), "bigint");
    assert_eq!(map_type("bigserial", true, false), "bigint");
    assert_eq!(map_type("pg_catalog.serial8", true, false), "bigint");
}

#[test]
fn other_families_map_to_documented_types() {
    assert_eq!(map_type("double precision", true, false), "number");
    assert_eq!(map_type("float4", true, false), "number");
    assert_eq!(map_type("numeric", true, false), "string");
    assert_eq!(map_type("money", true, false), "string");
    assert_eq!(map_type("bool", true, false), "boolean");
    assert_eq!(map_type("jsonb", true, false), "unknown");
    assert_eq!(map_type("bytea", true, false), "Uint8Array");
    assert_eq!(map_type("date", true, false), "Date");
    assert_eq!(map_type("pg_catalog.time", true, false), "string");
    assert_eq!(map_type("pg_catalog.timestamptz", true, false), "Date");
    assert_eq!(map_type("pg_catalog.varchar", true, false), "string");
    assert_eq!(map_type("citext", true, false), "string");
    assert_eq!(map_type("uuid", true, false), "string");
    assert_eq!(map_type("any", true, false), "unknown");
}

#[test]
fn type_names_match_without_regard_to_case() {
    assert_eq!(map_type("INT8", true, false), "bigint");
    assert_eq!(map_type("Pg_Catalog.Bool", false, false), "boolean | null");
}

#[test]
fn array_marker_precedes_nullable_marker() {
    assert_eq!(map_type("text", false, true), "string[] | null");
    assert_eq!(map_type("text", true, true), "string[]");
    assert_eq!(map_type("text", false, false), "string | null");
}

#[test]
fn unknown_type_passes_through_lower_cased() {
    assert_eq!(map_type("HStore", true, false), "hstore");
    assert_eq!(map_type("int4range", false, true), "int4range[] | null");
}

#[test]
fn unmapped_column_type_renders_bare() {
    let c = Column {
        name: "attrs".to_string(),
        db_type: "hstore".to_string(),
        not_null: true,
        is_array: false,
    };
    assert_eq!(to_ts_type(&c), "hstore");
}

#[test]
fn lowered_names_use_the_table_directly() {
    assert_eq!(canonical_type("int4"), Some("number"));
    assert_eq!(canonical_type("hstore"), None);
    assert_eq!(type_expression("uuid", false, true), "string[] | null");
}
