//! The request and response values the generator works on.
use vstd::prelude::*;

verus! {

/// One column of a parameter list or of a result row.
pub struct Column {
    pub name: String,
    /// The database type identifier, matched without regard to letter case.
    pub db_type: String,
    pub not_null: bool,
    /// The column stands for a whole collection bound to one placeholder.
    pub is_array: bool,
}

/// One query parameter; a well-formed request always attaches a column.
pub struct Parameter {
    pub column: Option<Column>,
}

} // verus!

verus! {

/// The execution shape of a query.
#[derive(PartialEq, Eq, Structural, Debug, Clone, Copy)]
pub enum Cmd {
    /// Runs the statement and returns nothing.
    Exec,
    /// Returns at most one row.
    One,
    /// Returns every row, in order.
    Many,
}

/// Why a request cannot be turned into generated code.
#[derive(PartialEq, Eq, Structural, Debug, Clone, Copy)]
pub enum GenError {
    /// The plugin options are not valid UTF-8.
    OptionsNotUtf8,
    /// The plugin options, or one of their values, are not properly quoted.
    OptionsQuoting,
    /// An option entry has no `=` between its key and its value.
    OptionsMissingSeparator,
    /// A query's command is none of `:exec`, `:one`, `:many`.
    UnsupportedCmd,
    /// A parameter carries no column.
    MissingParamColumn,
    /// A column has an empty database type name.
    MissingTypeName,
}

/// One query, as described by the request.
pub struct Query {
    pub name: String,
    /// The command kind as written on the wire (`:exec`, `:one`, `:many`).
    pub cmd: String,
    /// The SQL text, carried through unchanged.
    pub text: String,
    pub params: Vec<Parameter>,
    pub columns: Vec<Column>,
}

/// The whole request: the schema tool's version, the encoded plugin options,
/// and the queries in order.
pub struct GenerateRequest {
    pub sqlc_version: String,
    pub plugin_options: Vec<u8>,
    pub queries: Vec<Query>,
}

/// One generated source file.
pub struct GeneratedFile {
    pub name: String,
    /// UTF-8 source text.
    pub contents: Vec<u8>,
}

/// The generated files.
pub struct GenerateResponse {
    pub files: Vec<GeneratedFile>,
}

} // verus!
