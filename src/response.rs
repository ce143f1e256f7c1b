//! The single generated file: a header, the driver import, and the code of
//! every query in order.
use crate::model::{GenError, GenerateRequest, GenerateResponse, GeneratedFile, Query};
use crate::options::{options_of, parse_plugin_options};
use crate::querier::{cmd_of, create_querier, query_error, querier_text};
use crate::text::{join_with, lemma_join_push};
use vstd::prelude::*;
use vstd::utf8::encode_utf8;

verus! {

/// The driver module imported when the options name none.
pub const DEFAULT_IMPORT_URL: &'static str = "https://deno.land/x/postgres@v0.17.0/mod.ts";

/// This generator's version, written into the header.
pub const GENERATOR_VERSION: &'static str = "0.1.0";

/// The name of the generated file.
pub const OUTPUT_FILE_NAME: &'static str = "querier.ts";

/// The option that overrides the driver module.
pub const IMPORT_URL_KEY: &'static str = "import_url";

/// The header comment, naming the generator and both versions.
pub open spec fn header_text(sqlc_version: Seq<char>) -> Seq<char> {
    "// Generated by sqlc-gen-deno-postgres. DO NOT EDIT.\n// versions:\n//   sqlc "@ + sqlc_version
        + "\n//   sqlc-gen-deno-postgres v"@ + GENERATOR_VERSION@ + "\n"@
}

/// The driver module: the `import_url` option if given, else the default.
pub open spec fn import_url_of(opts: Map<Seq<char>, Seq<char>>) -> Seq<char> {
    if opts.contains_key(IMPORT_URL_KEY@) {
        opts[IMPORT_URL_KEY@]
    } else {
        DEFAULT_IMPORT_URL@
    }
}

/// The import statement for the driver.
pub open spec fn import_line(url: Seq<char>) -> Seq<char> {
    "import { Client } from \""@ + url + "\";\n\n"@
}

/// The problem of the first query that has one.
pub open spec fn queries_error(qs: Seq<Query>) -> Option<GenError>
    decreases qs.len(),
{
    if qs.len() == 0 {
        None
    } else {
        match queries_error(qs.drop_last()) {
            Some(e) => Some(e),
            None => query_error(qs.last()),
        }
    }
}

/// The code of every query, in order, separated by a blank line.
pub open spec fn queries_block(qs: Seq<Query>) -> Seq<char> {
    join_with(qs.map_values(|q: Query| querier_text(q, cmd_of(q.cmd@)->0)), "\n\n"@)
}

/// The text of the generated file for a request, or the first problem that
/// keeps it from being generated: the options first, then the queries in
/// order.
pub open spec fn response_text(req: GenerateRequest) -> Result<Seq<char>, GenError> {
    match options_of(req.plugin_options@) {
        Err(e) => Err(e),
        Ok(opts) => match queries_error(req.queries@) {
            Some(e) => Err(e),
            None => Ok(
                header_text(req.sqlc_version@) + import_line(import_url_of(opts)) + queries_block(
                    req.queries@,
                ),
            ),
        },
    }
}

/// Once a prefix of the queries fails, all of them fail the same way.
proof fn lemma_queries_err_persists(qs: Seq<Query>, k: int)
    requires
        0 <= k <= qs.len(),
        queries_error(qs.take(k)) is Some,
    ensures
        queries_error(qs) == queries_error(qs.take(k)),
    decreases qs.len(),
{
    if k == qs.len() {
        assert(qs.take(k) =~= qs);
    } else {
        assert(qs.drop_last().take(k) =~= qs.take(k));
        lemma_queries_err_persists(qs.drop_last(), k);
    }
}

/// The code of every query, separated by a blank line.
pub fn create_queriers(qs: &Vec<Query>) -> (r: Result<String, GenError>)
    ensures
        match r {
            Ok(s) => queries_error(qs@) is None && s@ == queries_block(qs@),
            Err(e) => queries_error(qs@) == Some(e),
        },
{
    let ghost f = |q: Query| querier_text(q, cmd_of(q.cmd@)->0);
    let mut out = String::new();
    let mut i: usize = 0;
    proof {
        assert(qs@.take(0) =~= Seq::<Query>::empty());
    }
    while i < qs.len()
        invariant
            i <= qs@.len(),
            f == (|q: Query| querier_text(q, cmd_of(q.cmd@)->0)),
            queries_error(qs@.take(i as int)) is None,
            out@ == join_with(qs@.take(i as int).map_values(f), "\n\n"@),
        decreases qs@.len() - i,
    {
        proof {
            assert(qs@.take(i + 1).drop_last() =~= qs@.take(i as int));
            assert(qs@.take(i + 1).last() == qs@[i as int]);
        }
        match create_querier(&qs[i]) {
            Ok(text) => {
                proof {
                    lemma_join_push(qs@.take(i as int).map_values(f), "\n\n"@, text@);
                    assert(qs@.take(i + 1).map_values(f) =~= qs@.take(i as int).map_values(
                        f,
                    ).push(text@));
                }
                if i > 0 {
                    out.append("\n\n");
                }
                out.append(text.as_str());
            },
            Err(e) => {
                proof {
                    lemma_queries_err_persists(qs@, i + 1);
                }
                return Err(e);
            },
        }
        i = i + 1;
    }
    proof {
        assert(qs@.take(qs@.len() as int) =~= qs@);
    }
    Ok(out)
}

/// The text of the generated file for a request.
pub fn create_contents(req: &GenerateRequest) -> (r: Result<String, GenError>)
    ensures
        match r {
            Ok(s) => response_text(*req) == Ok::<Seq<char>, GenError>(s@),
            Err(e) => response_text(*req) == Err::<Seq<char>, GenError>(e),
        },
{
    let options = match parse_plugin_options(&req.plugin_options) {
        Ok(o) => o,
        Err(e) => {
            return Err(e);
        },
    };
    let block = match create_queriers(&req.queries) {
        Ok(b) => b,
        Err(e) => {
            return Err(e);
        },
    };
    let mut out = String::from_str(
        "// Generated by sqlc-gen-deno-postgres. DO NOT EDIT.\n// versions:\n//   sqlc ",
    );
    out.append(req.sqlc_version.as_str());
    out.append("\n//   sqlc-gen-deno-postgres v");
    out.append(GENERATOR_VERSION);
    out.append("\n");
    out.append("import { Client } from \"");
    match options.get(IMPORT_URL_KEY) {
        Some(url) => {
            out.append(url.as_str());
        },
        None => {
            out.append(DEFAULT_IMPORT_URL);
        },
    }
    out.append("\";\n\n");
    out.append(block.as_str());
    proof {
        assert(out@ =~= header_text(req.sqlc_version@) + import_line(import_url_of(options@))
            + queries_block(req.queries@));
    }
    Ok(out)
}

/// The response for a request: one file named `querier.ts` holding the
/// generated code as UTF-8, or the first problem that keeps it from being
/// generated.
pub fn create_codegen_response(req: GenerateRequest) -> (r: Result<GenerateResponse, GenError>)
    ensures
        match r {
            Ok(resp) => match response_text(req) {
                Ok(t) => resp.files@.len() == 1 && resp.files@[0].name@ == OUTPUT_FILE_NAME@
                    && resp.files@[0].contents@ == encode_utf8(t),
                Err(_) => false,
            },
            Err(e) => response_text(req) == Err::<Seq<char>, GenError>(e),
        },
{
    let contents = match create_contents(&req) {
        Ok(c) => c,
        Err(e) => {
            return Err(e);
        },
    };
    let file = GeneratedFile {
        name: String::from_str(OUTPUT_FILE_NAME),
        contents: contents.as_str().as_bytes_vec(),
    };
    let mut files: Vec<GeneratedFile> = Vec::new();
    files.push(file);
    Ok(GenerateResponse { files })
}

} // verus!
