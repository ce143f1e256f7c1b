//! Properties of the generator that hold for every input.
use crate::model::{Cmd, GenError, GenerateRequest, Query};
use crate::options::options_of;
use crate::querier::{
    args_line, const_section, function_section, params_arg, params_section, querier_text,
    return_expr, return_type, row_section, row_type, signature_part,
};
use crate::text::{camel_lower_of, camel_upper_of};
use crate::response::{
    header_text, import_line, import_url_of, queries_block, queries_error, response_text,
    DEFAULT_IMPORT_URL,
};
use crate::type_mapper::{array_suffix, canonical_base, null_suffix, type_expr};
use vstd::prelude::*;

verus! {

/// A type name with a fixed mapping renders as that mapping, then the array
/// marker, then the nullable marker: a nullable array is `T[] | null`.
pub proof fn lemma_canonical_type_layout(l: Seq<char>, not_null: bool, is_array: bool)
    requires
        canonical_base(l) is Some,
    ensures
        type_expr(l, not_null, is_array) == canonical_base(l)->0 + array_suffix(is_array)
            + null_suffix(not_null),
        is_array && !not_null ==> type_expr(l, not_null, is_array) == canonical_base(l)->0
            + "[] | null"@,
        !is_array && not_null ==> type_expr(l, not_null, is_array) == canonical_base(l)->0,
{
    reveal_strlit("[]");
    reveal_strlit(" | null");
    reveal_strlit("[] | null");
    assert(array_suffix(true) + null_suffix(false) =~= "[] | null"@);
    assert(canonical_base(l)->0 + array_suffix(true) + null_suffix(false) =~= canonical_base(l)->0
        + (array_suffix(true) + null_suffix(false)));
    assert(canonical_base(l)->0 + array_suffix(false) + null_suffix(true) =~= canonical_base(
        l,
    )->0);
}

/// A type name without a fixed mapping passes through unchanged, followed
/// by the same markers in the same order.
pub proof fn lemma_unknown_type_passes_through(l: Seq<char>, not_null: bool, is_array: bool)
    requires
        canonical_base(l) is None,
    ensures
        type_expr(l, not_null, is_array) == l + array_suffix(is_array) + null_suffix(not_null),
        is_array && !not_null ==> type_expr(l, not_null, is_array) == l + "[] | null"@,
        !is_array && not_null ==> type_expr(l, not_null, is_array) == l,
{
    reveal_strlit("[]");
    reveal_strlit(" | null");
    reveal_strlit("[] | null");
    assert(l + array_suffix(true) + null_suffix(false) =~= l + "[] | null"@);
    assert(l + array_suffix(false) + null_suffix(true) =~= l);
}

/// A query that returns nothing declares no row type, its function resolves
/// to `void`, and it returns no value.
pub proof fn lemma_exec_has_no_row(q: Query)
    ensures
        row_section(q, Cmd::Exec) == Seq::<char>::empty(),
        querier_text(q, Cmd::Exec) == const_section(q) + params_section(q) + function_section(
            q,
            Cmd::Exec,
        ),
        return_type(Cmd::Exec, camel_upper_of(q.name@)) == "void"@,
        row_type(Cmd::Exec, camel_upper_of(q.name@)) == "unknown"@,
        return_expr(Cmd::Exec) == Seq::<char>::empty(),
{
    assert(const_section(q) + params_section(q) + Seq::<char>::empty() =~= const_section(q)
        + params_section(q));
}

/// A query without parameters declares no parameter type, its function
/// takes only the client, and it hands the driver no arguments.
pub proof fn lemma_no_params_no_params_type(q: Query, cmd: Cmd)
    requires
        q.params@.len() == 0,
    ensures
        params_section(q) == Seq::<char>::empty(),
        params_arg(q) == Seq::<char>::empty(),
        args_line(q) == Seq::<char>::empty(),
        signature_part(q) == "export async function "@ + camel_lower_of(q.name@)
            + "(\n  client: Client"@ + ",\n): Promise<"@,
        querier_text(q, cmd) == const_section(q) + row_section(q, cmd) + function_section(q, cmd),
{
    assert(const_section(q) + Seq::<char>::empty() =~= const_section(q));
    assert("export async function "@ + camel_lower_of(q.name@) + "(\n  client: Client"@
        + Seq::<char>::empty() =~= "export async function "@ + camel_lower_of(q.name@)
        + "(\n  client: Client"@);
}

/// Empty plugin options parse to an empty mapping, and the generated file
/// then imports the default driver module.
pub proof fn lemma_empty_options_use_default_import(req: GenerateRequest)
    requires
        req.plugin_options@.len() == 0,
        queries_error(req.queries@) is None,
    ensures
        options_of(req.plugin_options@) == Ok::<Map<Seq<char>, Seq<char>>, GenError>(
            Map::empty(),
        ),
        response_text(req) == Ok::<Seq<char>, GenError>(
            header_text(req.sqlc_version@) + import_line(DEFAULT_IMPORT_URL@) + queries_block(
                req.queries@,
            ),
        ),
{
    assert(import_url_of(Map::empty()) == DEFAULT_IMPORT_URL@);
}

} // verus!
