//! The source text generated for one query: its SQL constant, its parameter
//! and row types, and its client function.
use crate::model::{Cmd, Column, GenError, Parameter, Query};
use crate::text::{
    camel_lower, camel_lower_of, camel_upper, camel_upper_of, join_with, lemma_join_push,
    lower_of, same_text,
};
use crate::type_mapper::{to_ts_type, type_expr};
use vstd::prelude::*;

verus! {

/// The command kind written on the wire as `s`, if it is one.
pub open spec fn cmd_of(s: Seq<char>) -> Option<Cmd> {
    if s == ":exec"@ {
        Some(Cmd::Exec)
    } else if s == ":one"@ {
        Some(Cmd::One)
    } else if s == ":many"@ {
        Some(Cmd::Many)
    } else {
        None
    }
}

/// Reads a command kind as written on the wire.
pub fn parse_cmd(s: &str) -> (r: Option<Cmd>)
    ensures
        r == cmd_of(s@),
{
    if same_text(s, ":exec") {
        Some(Cmd::Exec)
    } else if same_text(s, ":one") {
        Some(Cmd::One)
    } else if same_text(s, ":many") {
        Some(Cmd::Many)
    } else {
        None
    }
}

/// The first problem that keeps code from being generated for `q`, checked
/// in this order: the command kind, parameters without a column, columns
/// with an empty type name.
pub open spec fn query_error(q: Query) -> Option<GenError> {
    if cmd_of(q.cmd@) is None {
        Some(GenError::UnsupportedCmd)
    } else if exists|i: int| 0 <= i < q.params@.len() && (#[trigger] q.params@[i]).column is None {
        Some(GenError::MissingParamColumn)
    } else if (exists|i: int|
        0 <= i < q.params@.len() && (#[trigger] q.params@[i]).column->0.db_type@.len() == 0) || (
    exists|i: int| 0 <= i < q.columns@.len() && (#[trigger] q.columns@[i]).db_type@.len() == 0) {
        Some(GenError::MissingTypeName)
    } else {
        None
    }
}

/// The columns attached to the parameters, in order.
pub open spec fn param_columns(ps: Seq<Parameter>) -> Seq<Column> {
    ps.map_values(|p: Parameter| p.column->0)
}

/// One field of a record type, from its field name and type expression.
pub open spec fn field_text(field: Seq<char>, ts_type: Seq<char>) -> Seq<char> {
    "  "@ + field + ": "@ + ts_type + ";"@
}

/// One field of a generated record type.
pub open spec fn field_line_text(c: Column) -> Seq<char> {
    field_text(camel_lower_of(c.name@), type_expr(lower_of(c.db_type@), c.not_null, c.is_array))
}

/// The fields of a record type, one per line.
pub open spec fn field_block(cols: Seq<Column>) -> Seq<char> {
    join_with(cols.map_values(|c: Column| field_line_text(c)), "\n"@)
}

/// How one parameter is handed to the driver; an array parameter is wrapped
/// so that one placeholder takes the whole collection.
pub open spec fn arg_text(c: Column) -> Seq<char> {
    arg_text_of(camel_lower_of(c.name@), c.is_array)
}

/// How a parameter with the given field name is handed to the driver.
pub open spec fn arg_text_of(field: Seq<char>, is_array: bool) -> Seq<char> {
    "params."@ + field + if is_array {
        "[0]"@
    } else {
        Seq::empty()
    }
}

/// The positional arguments handed to the driver.
pub open spec fn args_list(cols: Seq<Column>) -> Seq<char> {
    join_with(cols.map_values(|c: Column| arg_text(c)), ", "@)
}

/// The constant that holds the SQL text.
pub open spec fn const_section(q: Query) -> Seq<char> {
    "const "@ + camel_lower_of(q.name@) + "Query = `"@ + q.text@ + "`;\n\n"@
}

/// The parameter record type; nothing for a query without parameters.
pub open spec fn params_section(q: Query) -> Seq<char> {
    if q.params@.len() == 0 {
        Seq::empty()
    } else {
        "export type "@ + camel_upper_of(q.name@) + "Params = {\n"@ + field_block(
            param_columns(q.params@),
        ) + "\n};\n\n"@
    }
}

/// The row record type; nothing for a query that returns no rows.
pub open spec fn row_section(q: Query, cmd: Cmd) -> Seq<char> {
    if cmd == Cmd::Exec {
        Seq::empty()
    } else {
        "export type "@ + camel_upper_of(q.name@) + "Row = {\n"@ + field_block(q.columns@)
            + "\n};\n\n"@
    }
}

/// What the generated function's promise resolves to.
pub open spec fn return_type(cmd: Cmd, upper: Seq<char>) -> Seq<char> {
    match cmd {
        Cmd::Exec => "void"@,
        Cmd::One => upper + "Row | null"@,
        Cmd::Many => upper + "Row[]"@,
    }
}

/// The row type handed to the driver.
pub open spec fn row_type(cmd: Cmd, upper: Seq<char>) -> Seq<char> {
    match cmd {
        Cmd::Exec => "unknown"@,
        _ => upper + "Row"@,
    }
}

/// What the generated function returns: nothing, the first row or `null`,
/// or all rows.
pub open spec fn return_expr(cmd: Cmd) -> Seq<char> {
    match cmd {
        Cmd::Exec => Seq::empty(),
        Cmd::One => "rows[0] ?? null"@,
        Cmd::Many => "rows"@,
    }
}

/// The client function's parameter list after the client.
pub open spec fn params_arg(q: Query) -> Seq<char> {
    if q.params@.len() == 0 {
        Seq::empty()
    } else {
        ",\n  params: "@ + camel_upper_of(q.name@) + "Params"@
    }
}

/// The argument list handed to the driver; nothing without parameters.
pub open spec fn args_line(q: Query) -> Seq<char> {
    if q.params@.len() == 0 {
        Seq::empty()
    } else {
        "    args: ["@ + args_list(param_columns(q.params@)) + "],\n"@
    }
}

/// The client function's name and parameter list, up to its return type.
pub open spec fn signature_part(q: Query) -> Seq<char> {
    "export async function "@ + camel_lower_of(q.name@) + "(\n  client: Client"@ + params_arg(q)
        + ",\n): Promise<"@
}

/// The return type and the start of the driver call.
pub open spec fn call_part(q: Query, cmd: Cmd) -> Seq<char> {
    return_type(cmd, camel_upper_of(q.name@)) + "> {\n  const { rows } = await client.queryObject<"@
        + row_type(cmd, camel_upper_of(q.name@)) + ">({\n"@
}

/// The rest of the driver call and the return statement.
pub open spec fn body_part(q: Query, cmd: Cmd) -> Seq<char> {
    args_line(q) + "    camelcase: true,\n    text: "@ + camel_lower_of(q.name@)
        + "Query,\n  });\n  return "@ + return_expr(cmd) + ";\n}"@
}

/// The exported client function.
pub open spec fn function_section(q: Query, cmd: Cmd) -> Seq<char> {
    signature_part(q) + call_part(q, cmd) + body_part(q, cmd)
}

/// The whole text generated for a query whose command kind is `cmd`.
pub open spec fn querier_text(q: Query, cmd: Cmd) -> Seq<char> {
    const_section(q) + params_section(q) + row_section(q, cmd) + function_section(q, cmd)
}

/// Finds the first problem that keeps code from being generated for `q`.
pub fn query_check(q: &Query) -> (r: Option<GenError>)
    ensures
        r == query_error(*q),
{
    if parse_cmd(q.cmd.as_str()).is_none() {
        return Some(GenError::UnsupportedCmd);
    }
    assert(cmd_of(q.cmd@) is Some);
    let mut i: usize = 0;
    while i < q.params.len()
        invariant
            cmd_of(q.cmd@) is Some,
            i <= q.params@.len(),
            forall|k: int| 0 <= k < i ==> (#[trigger] q.params@[k]).column is Some,
        decreases q.params@.len() - i,
    {
        if q.params[i].column.is_none() {
            assert(q.params@[i as int].column is None);
            return Some(GenError::MissingParamColumn);
        }
        i = i + 1;
    }
    let mut i: usize = 0;
    while i < q.params.len()
        invariant
            cmd_of(q.cmd@) is Some,
            i <= q.params@.len(),
            forall|k: int| 0 <= k < q.params@.len() ==> (#[trigger] q.params@[k]).column is Some,
            forall|k: int|
                0 <= k < i ==> (#[trigger] q.params@[k]).column->0.db_type@.len() != 0,
        decreases q.params@.len() - i,
    {
        match &q.params[i].column {
            Some(c) => {
                if c.db_type.unicode_len() == 0 {
                    assert(q.params@[i as int].column->0.db_type@.len() == 0);
                    return Some(GenError::MissingTypeName);
                }
            },
            None => {},
        }
        i = i + 1;
    }
    let mut j: usize = 0;
    while j < q.columns.len()
        invariant
            cmd_of(q.cmd@) is Some,
            forall|k: int| 0 <= k < q.params@.len() ==> (#[trigger] q.params@[k]).column is Some,
            forall|k: int|
                0 <= k < q.params@.len() ==> (#[trigger] q.params@[k]).column->0.db_type@.len() != 0,
            j <= q.columns@.len(),
            forall|k: int| 0 <= k < j ==> (#[trigger] q.columns@[k]).db_type@.len() != 0,
        decreases q.columns@.len() - j,
    {
        if q.columns[j].db_type.unicode_len() == 0 {
            assert(q.columns@[j as int].db_type@.len() == 0);
            return Some(GenError::MissingTypeName);
        }
        j = j + 1;
    }
    None
}

/// One field of a record type, from its field name and type expression.
pub fn field_line_from(field: &str, ts_type: &str) -> (r: String)
    ensures
        r@ == field_text(field@, ts_type@),
{
    let mut r = String::from_str("  ");
    r.append(field);
    r.append(": ");
    r.append(ts_type);
    r.append(";");
    proof {
        assert(r@ =~= field_text(field@, ts_type@));
    }
    r
}

/// One field of a generated record type.
pub fn field_line(c: &Column) -> (r: String)
    ensures
        r@ == field_line_text(*c),
{
    let name = camel_lower(c.name.as_str());
    let t = to_ts_type(c);
    field_line_from(name.as_str(), t.as_str())
}

/// The fields of a record type for the given result columns.
pub fn column_fields(cols: &Vec<Column>) -> (r: String)
    ensures
        r@ == field_block(cols@),
{
    let ghost f = |c: Column| field_line_text(c);
    let mut r = String::new();
    let mut i: usize = 0;
    while i < cols.len()
        invariant
            i <= cols@.len(),
            f == (|c: Column| field_line_text(c)),
            r@ == join_with(cols@.take(i as int).map_values(f), "\n"@),
        decreases cols@.len() - i,
    {
        let line = field_line(&cols[i]);
        proof {
            lemma_join_push(cols@.take(i as int).map_values(f), "\n"@, line@);
            assert(cols@.take(i + 1).map_values(f) =~= cols@.take(i as int).map_values(f).push(
                line@,
            ));
        }
        if i > 0 {
            r.append("\n");
        }
        r.append(line.as_str());
        i = i + 1;
    }
    proof {
        assert(cols@.take(cols@.len() as int) =~= cols@);
    }
    r
}

/// The fields of a record type for the given parameters.
pub fn param_fields(ps: &Vec<Parameter>) -> (r: String)
    requires
        forall|k: int| 0 <= k < ps@.len() ==> (#[trigger] ps@[k]).column is Some,
    ensures
        r@ == field_block(param_columns(ps@)),
{
    let ghost f = |c: Column| field_line_text(c);
    let ghost cols = param_columns(ps@);
    let mut r = String::new();
    let mut i: usize = 0;
    while i < ps.len()
        invariant
            i <= ps@.len(),
            forall|k: int| 0 <= k < ps@.len() ==> (#[trigger] ps@[k]).column is Some,
            f == (|c: Column| field_line_text(c)),
            cols == param_columns(ps@),
            r@ == join_with(cols.take(i as int).map_values(f), "\n"@),
        decreases ps@.len() - i,
    {
        let line = match &ps[i].column {
            Some(c) => field_line(c),
            None => String::new(),
        };
        proof {
            lemma_join_push(cols.take(i as int).map_values(f), "\n"@, line@);
            assert(cols.take(i + 1).map_values(f) =~= cols.take(i as int).map_values(f).push(
                line@,
            ));
        }
        if i > 0 {
            r.append("\n");
        }
        r.append(line.as_str());
        i = i + 1;
    }
    proof {
        assert(cols.take(cols.len() as int) =~= cols);
    }
    r
}

/// How a parameter with the given field name is handed to the driver.
pub fn arg_from(field: &str, is_array: bool) -> (r: String)
    ensures
        r@ == arg_text_of(field@, is_array),
{
    let mut r = String::from_str("params.");
    r.append(field);
    if is_array {
        r.append("[0]");
    }
    proof {
        assert(r@ =~= arg_text_of(field@, is_array));
    }
    r
}

/// How one parameter is handed to the driver.
pub fn arg_for(c: &Column) -> (r: String)
    ensures
        r@ == arg_text(*c),
{
    let name = camel_lower(c.name.as_str());
    arg_from(name.as_str(), c.is_array)
}

/// The positional arguments handed to the driver, from the parameters.
pub fn build_params(ps: &Vec<Parameter>) -> (r: String)
    requires
        forall|k: int| 0 <= k < ps@.len() ==> (#[trigger] ps@[k]).column is Some,
    ensures
        r@ == args_list(param_columns(ps@)),
{
    let ghost f = |c: Column| arg_text(c);
    let ghost cols = param_columns(ps@);
    let mut r = String::new();
    let mut i: usize = 0;
    while i < ps.len()
        invariant
            i <= ps@.len(),
            forall|k: int| 0 <= k < ps@.len() ==> (#[trigger] ps@[k]).column is Some,
            f == (|c: Column| arg_text(c)),
            cols == param_columns(ps@),
            r@ == join_with(cols.take(i as int).map_values(f), ", "@),
        decreases ps@.len() - i,
    {
        let arg = match &ps[i].column {
            Some(c) => arg_for(c),
            None => String::new(),
        };
        proof {
            lemma_join_push(cols.take(i as int).map_values(f), ", "@, arg@);
            assert(cols.take(i + 1).map_values(f) =~= cols.take(i as int).map_values(f).push(
                arg@,
            ));
        }
        if i > 0 {
            r.append(", ");
        }
        r.append(arg.as_str());
        i = i + 1;
    }
    proof {
        assert(cols.take(cols.len() as int) =~= cols);
    }
    r
}

/// Appends the SQL constant.
fn push_const_section(out: &mut String, q: &Query, lower: &str)
    requires
        lower@ == camel_lower_of(q.name@),
    ensures
        final(out)@ == old(out)@ + const_section(*q),
{
    out.append("const ");
    out.append(lower);
    out.append("Query = `");
    out.append(q.text.as_str());
    out.append("`;\n\n");
    proof {
        assert(final(out)@ =~= old(out)@ + const_section(*q));
    }
}

/// Appends the parameter record type, if the query has parameters.
fn push_params_section(out: &mut String, q: &Query, upper: &str)
    requires
        upper@ == camel_upper_of(q.name@),
        query_error(*q) is None,
    ensures
        final(out)@ == old(out)@ + params_section(*q),
{
    if q.params.len() > 0 {
        assert(forall|k: int| 0 <= k < q.params@.len() ==> (#[trigger] q.params@[k]).column is Some);
        out.append("export type ");
        out.append(upper);
        out.append("Params = {\n");
        let fields = param_fields(&q.params);
        out.append(fields.as_str());
        out.append("\n};\n\n");
    }
    proof {
        assert(final(out)@ =~= old(out)@ + params_section(*q));
    }
}

/// Appends the row record type, unless the query returns no rows.
fn push_row_section(out: &mut String, q: &Query, cmd: Cmd, upper: &str)
    requires
        upper@ == camel_upper_of(q.name@),
    ensures
        final(out)@ == old(out)@ + row_section(*q, cmd),
{
    if cmd != Cmd::Exec {
        out.append("export type ");
        out.append(upper);
        out.append("Row = {\n");
        let fields = column_fields(&q.columns);
        out.append(fields.as_str());
        out.append("\n};\n\n");
    }
    proof {
        assert(final(out)@ =~= old(out)@ + row_section(*q, cmd));
    }
}

/// Appends the client function's parameter list after the client.
fn push_params_arg(out: &mut String, q: &Query, upper: &str)
    requires
        upper@ == camel_upper_of(q.name@),
    ensures
        final(out)@ == old(out)@ + params_arg(*q),
{
    if q.params.len() > 0 {
        out.append(",\n  params: ");
        out.append(upper);
        out.append("Params");
    }
    proof {
        assert(final(out)@ =~= old(out)@ + params_arg(*q));
    }
}

/// Appends what the promise resolves to.
fn push_return_type(out: &mut String, cmd: Cmd, upper: &str)
    ensures
        final(out)@ == old(out)@ + return_type(cmd, upper@),
{
    match cmd {
        Cmd::Exec => {
            out.append("void");
        },
        Cmd::One => {
            out.append(upper);
            out.append("Row | null");
        },
        Cmd::Many => {
            out.append(upper);
            out.append("Row[]");
        },
    }
    proof {
        assert(final(out)@ =~= old(out)@ + return_type(cmd, upper@));
    }
}

/// Appends the row type handed to the driver.
fn push_row_type(out: &mut String, cmd: Cmd, upper: &str)
    ensures
        final(out)@ == old(out)@ + row_type(cmd, upper@),
{
    match cmd {
        Cmd::Exec => {
            out.append("unknown");
        },
        _ => {
            out.append(upper);
            out.append("Row");
        },
    }
    proof {
        assert(final(out)@ =~= old(out)@ + row_type(cmd, upper@));
    }
}

/// Appends the argument list, if the query has parameters.
fn push_args_line(out: &mut String, q: &Query)
    requires
        query_error(*q) is None,
    ensures
        final(out)@ == old(out)@ + args_line(*q),
{
    if q.params.len() > 0 {
        assert(forall|k: int| 0 <= k < q.params@.len() ==> (#[trigger] q.params@[k]).column is Some);
        out.append("    args: [");
        let args = build_params(&q.params);
        out.append(args.as_str());
        out.append("],\n");
    }
    proof {
        assert(final(out)@ =~= old(out)@ + args_line(*q));
    }
}

/// Appends what the client function returns.
fn push_return_expr(out: &mut String, cmd: Cmd)
    ensures
        final(out)@ == old(out)@ + return_expr(cmd),
{
    match cmd {
        Cmd::Exec => {},
        Cmd::One => {
            out.append("rows[0] ?? null");
        },
        Cmd::Many => {
            out.append("rows");
        },
    }
    proof {
        assert(final(out)@ =~= old(out)@ + return_expr(cmd));
    }
}

/// Appends the exported client function.
#[verifier::rlimit(30)]
fn push_function_section(out: &mut String, q: &Query, cmd: Cmd, lower: &str, upper: &str)
    requires
        lower@ == camel_lower_of(q.name@),
        upper@ == camel_upper_of(q.name@),
        query_error(*q) is None,
    ensures
        final(out)@ == old(out)@ + function_section(*q, cmd),
{
    let ghost o = out@;
    out.append("export async function ");
    out.append(lower);
    out.append("(\n  client: Client");
    push_params_arg(out, q, upper);
    out.append(",\n): Promise<");
    proof {
        assert(out@ =~= o + signature_part(*q));
    }
    let ghost o2 = out@;
    push_return_type(out, cmd, upper);
    out.append("> {\n  const { rows } = await client.queryObject<");
    push_row_type(out, cmd, upper);
    out.append(">({\n");
    proof {
        assert(out@ =~= o2 + call_part(*q, cmd));
    }
    let ghost o3 = out@;
    push_args_line(out, q);
    out.append("    camelcase: true,\n    text: ");
    out.append(lower);
    out.append("Query,\n  });\n  return ");
    push_return_expr(out, cmd);
    out.append(";\n}");
    proof {
        assert(out@ =~= o3 + body_part(*q, cmd));
        assert(out@ =~= o + function_section(*q, cmd));
    }
}

/// The source text generated for one query, or the first problem that
/// keeps it from being generated.
pub fn create_querier(q: &Query) -> (r: Result<String, GenError>)
    ensures
        match r {
            Ok(s) => query_error(*q) is None && s@ == querier_text(*q, cmd_of(q.cmd@)->0),
            Err(e) => query_error(*q) == Some(e),
        },
{
    match query_check(q) {
        Some(e) => {
            return Err(e);
        },
        None => {},
    }
    let cmd = match parse_cmd(q.cmd.as_str()) {
        Some(c) => c,
        None => {
            return Err(GenError::UnsupportedCmd);
        },
    };
    let lower = camel_lower(q.name.as_str());
    let upper = camel_upper(q.name.as_str());
    let mut out = String::new();
    push_const_section(&mut out, q, lower.as_str());
    push_params_section(&mut out, q, upper.as_str());
    push_row_section(&mut out, q, cmd, upper.as_str());
    push_function_section(&mut out, q, cmd, lower.as_str(), upper.as_str());
    proof {
        assert(out@ =~= querier_text(*q, cmd));
    }
    Ok(out)
}

} // verus!
