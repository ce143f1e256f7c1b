use sqlc_gen_deno_postgres::model::{Column, GenError, GenerateRequest, Parameter, Query};
use sqlc_gen_deno_postgres::querier::{
    arg_for, arg_from, build_params, create_querier, field_line, field_line_from, parse_cmd,
    query_check,
};
use sqlc_gen_deno_postgres::response::{create_codegen_response, create_contents};
use sqlc_gen_deno_postgres::model::Cmd;

fn column(name: &str, db_type: &str, not_null: bool, is_array: bool) -> Column {
    Column {
        name: name.to_string(),
        db_type: db_type.to_string(),
        not_null,
        is_array,
    }
}

fn param(c: Column) -> Parameter {
    Parameter { column: Some(c) }
}

fn get_user() -> Query {
    Query {
        name: "get_user".to_string(),
        cmd: ":one".to_string(),
        text: "SELECT id, name FROM users WHERE id = $1".to_string(),
        params: vec![param(column("id", "int4", true, false))],
        columns: vec![column("id", "int4", true, false), column("name", "text", false, false)],
    }
}

fn delete_all() -> Query {
    Query {
        name: "delete_all".to_string(),
        cmd: ":exec".to_string(),
        text: "DELETE FROM users".to_string(),
        params: vec![],
        columns: vec![],
    }
}

fn request(options: &[u8], queries: Vec<Query>) -> GenerateRequest {
    GenerateRequest {
        sqlc_version: "v1.21.0".to_string(),
        plugin_options: options.to_vec(),
        queries,
    }
}

const GET_USER_TEXT: &str = "const getUserQuery = `SELECT id, name FROM users WHERE id = $1`;

export type GetUserParams = {
  id: number;
};

export type GetUserRow = {
  id: number;
  name: string | null;
};

export async function getUser(
  client: Client,
  params: GetUserParams,
): Promise<GetUserRow | null> {
  const { rows } = await client.queryObject<GetUserRow>({
    args: [params.id],
    camelcase: true,
    text: getUserQuery,
  });
  return rows[0] ?? null;
}";

const DELETE_ALL_TEXT: &str = "const deleteAllQuery = `DELETE FROM users`;

export async function deleteAll(
  client: Client,
): Promise<void> {
  const { rows } = await client.queryObject<unknown>({
    camelcase: true,
    text: deleteAllQuery,
  });
  return ;
}";

#[test]
fn single_row_query_scenario() {
    let text = create_querier(&get_user()).unwrap();
    assert_eq!(text, GET_USER_TEXT);
    assert!(text.contains("getUserQuery"));
    assert!(text.contains("GetUserParams = {\n  id: number;\n}"));
    assert!(text.contains("GetUserRow = {\n  id: number;\n  name: string | null;\n}"));
    assert!(text.contains("return rows[0] ?? null;"));
}

#[test]
fn exec_query_scenario() {
    let text = create_querier(&delete_all()).unwrap();
    assert_eq!(text, DELETE_ALL_TEXT);
    assert!(!text.contains("Params"));
    assert!(!text.contains("Row"));
    assert!(text.contains("Promise<void>"));
}

#[test]
fn exec_query_with_params_declares_no_row() {
    let mut q = delete_all();
    q.name = "delete_user".to_string();
    q.params = vec![param(column("user_id", "int8", true, false))];
    let text = create_querier(&q).unwrap();
    assert!(text.contains("export type DeleteUserParams = {\n  userId: bigint;\n};"));
    assert!(!text.contains("Row"));
    assert!(text.contains("args: [params.userId],"));
}

#[test]
fn many_rows_query_returns_all_rows() {
    let q = Query {
        name: "list_users".to_string(),
        cmd: ":many".to_string(),
        text: "SELECT id FROM users".to_string(),
        params: vec![],
        columns: vec![column("user_id", "int8", true, false)],
    };
    let text = create_querier(&q).unwrap();
    assert!(!text.contains("Params"));
    assert!(text.contains("export type ListUsersRow = {\n  userId: bigint;\n};"));
    assert!(text.contains("export async function listUsers(\n  client: Client,\n): Promise<ListUsersRow[]>"));
    assert!(text.contains("queryObject<ListUsersRow>"));
    assert!(text.ends_with("  return rows;\n}"));
}

#[test]
fn array_parameters_are_wrapped() {
    let ps = vec![
        param(column("ids", "int4", true, true)),
        param(column("owner_name", "text", true, false)),
    ];
    assert_eq!(build_params(&ps), "params.ids[0], params.ownerName");
}

#[test]
fn command_kinds_are_read() {
    assert_eq!(parse_cmd(":exec"), Some(Cmd::Exec));
    assert_eq!(parse_cmd(":one"), Some(Cmd::One));
    assert_eq!(parse_cmd(":many"), Some(Cmd::Many));
    assert_eq!(parse_cmd(":execrows"), None);
}

#[test]
fn unsupported_command_is_refused() {
    let mut q = get_user();
    q.cmd = ":copyfrom".to_string();
    assert_eq!(create_querier(&q).err(), Some(GenError::UnsupportedCmd));
}

#[test]
fn parameter_without_column_is_refused() {
    let mut q = get_user();
    q.params.push(Parameter { column: None });
    assert_eq!(query_check(&q), Some(GenError::MissingParamColumn));
    assert_eq!(create_querier(&q).err(), Some(GenError::MissingParamColumn));
}

#[test]
fn empty_type_name_is_refused() {
    let mut q = get_user();
    q.columns.push(column("extra", "", true, false));
    assert_eq!(create_querier(&q).err(), Some(GenError::MissingTypeName));
    assert_eq!(query_check(&get_user()), None);
}

#[test]
fn file_uses_default_import_without_options() {
    let contents = create_contents(&request(b"", vec![get_user(), delete_all()])).unwrap();
    let expected = format!(
        "// Generated by sqlc-gen-deno-postgres. DO NOT EDIT.\n// versions:\n//   sqlc v1.21.0\n//   sqlc-gen-deno-postgres v0.1.0\nimport {{ Client }} from \"https://deno.land/x/postgres@v0.17.0/mod.ts\";\n\n{}\n\n{}",
        GET_USER_TEXT, DELETE_ALL_TEXT
    );
    assert_eq!(contents, expected);
}

#[test]
fn file_uses_import_url_option() {
    let blob = b"'import_url=\"https://example.test/mod.ts\"'";
    let contents = create_contents(&request(blob, vec![delete_all()])).unwrap();
    assert!(contents.contains("import { Client } from \"https://example.test/mod.ts\";\n\n"));
    assert!(!contents.contains("deno.land"));
}

#[test]
fn response_holds_one_querier_file() {
    let resp = create_codegen_response(request(b"", vec![delete_all()])).unwrap();
    assert_eq!(resp.files.len(), 1);
    assert_eq!(resp.files[0].name, "querier.ts");
    let text = String::from_utf8(resp.files[0].contents.clone()).unwrap();
    assert!(text.ends_with(DELETE_ALL_TEXT));
}

#[test]
fn response_reports_first_problem() {
    let mut bad = get_user();
    bad.cmd = ":bogus".to_string();
    let r = create_codegen_response(request(b"", vec![delete_all(), bad]));
    assert_eq!(r.err(), Some(GenError::UnsupportedCmd));
    let r = create_codegen_response(request(b"nope", vec![get_user()]));
    assert_eq!(r.err(), Some(GenError::OptionsQuoting));
}

#[test]
fn empty_request_gives_header_and_import() {
    let contents = create_contents(&request(b"", vec![])).unwrap();
    assert!(contents.ends_with("mod.ts\";\n\n"));
}

#[test]
fn field_lines_from_given_names() {
    assert_eq!(field_line_from("userId", "bigint | null"), "  userId: bigint | null;");
    assert_eq!(field_line(&column("created_at", "pg_catalog.timestamptz", false, false)), "  createdAt: Date | null;");
}

#[test]
fn arguments_from_given_names() {
    assert_eq!(arg_from("ids", true), "params.ids[0]");
    assert_eq!(arg_from("id", false), "params.id");
    assert_eq!(arg_for(&column("owner_id", "int4", true, false)), "params.ownerId");
}
