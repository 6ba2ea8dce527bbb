//! From source text to top-level statements. The parsing is done by
//! `ruff_python_parser`; this module reads the parsed module through a few
//! narrow accessors and builds the library's own statements from it.

use vstd::prelude::*;
use ruff_python_ast::ModModule;
use ruff_python_parser::{ParseError, Parsed};
use ruff_text_size::Ranged;
use crate::resolution::{resolve, resolve_module};
use crate::statement::{
    binding_views, optional_text, statement_views, ImportBinding, Span, Statement, StatementView,
};

verus! {

/// The output of the parser, opaque to the verifier.
#[verifier::external_type_specification]
#[verifier::external_body]
#[verifier::reject_recursive_types(T)]
pub struct ExParsed<T>(ruff_python_parser::Parsed<T>);

/// The syntax tree of a module, opaque to the verifier.
#[verifier::external_type_specification]
#[verifier::external_body]
pub struct ExModModule(ruff_python_ast::ModModule);

/// The parser's error, opaque to the verifier.
#[verifier::external_type_specification]
#[verifier::external_body]
pub struct ExParseError(ruff_python_parser::ParseError);

/// The top-level statements that `ruff_python_parser::parse_module` finds in
/// a source text, or nothing where it reports a syntax error.
pub uninterp spec fn parsed_module(source: Seq<char>) -> Option<Seq<StatementView>>;

/// The top-level statements that a parsed module holds, in document order.
pub uninterp spec fn module_body(module: Parsed<ModModule>) -> Seq<StatementView>;

/// The largest source text, in bytes, that the parser takes.
pub const MAX_SOURCE_BYTES: usize = 4294967295;

/// Whether a source text is small enough for the parser.
pub open spec fn fits_parser(source: &str) -> bool {
    source.len() <= MAX_SOURCE_BYTES
}

/// Why a source text gave no statements.
#[derive(Clone, Debug, PartialEq, Eq)]
pub enum SyntaxError {
    /// The text is longer than the parser takes.
    TooLarge,
    /// The text is not a Python module; where, and what the parser said.
    Invalid { span: Span, message: String },
}

/// Calls `ruff_python_parser::parse_module`. It returns the parsed module
/// where the text has valid syntax and its first syntax error where not; the
/// outcome depends on the text alone. Its lexer refuses texts of more than
/// `u32::MAX` bytes by a panic, so those are left out.
#[verifier::external_body]
fn parse(source: &str) -> (outcome: Result<Parsed<ModModule>, ParseError>)
    requires
        fits_parser(source),
    ensures
        match outcome {
            Ok(module) => parsed_module(source@) == Some(module_body(module)),
            Err(_) => parsed_module(source@) is None,
        },
{
    ruff_python_parser::parse_module(source)
}

/// `Parsed::suite` and the length of the list it returns: the number of
/// top-level statements.
#[verifier::external_body]
fn statement_count(module: &Parsed<ModModule>) -> (count: usize)
    ensures
        count == module_body(*module).len(),
{
    module.suite().len()
}

/// `Ranged::range` of the statement at `index`: the byte offsets at which it
/// starts and ends.
#[verifier::external_body]
fn statement_span(module: &Parsed<ModModule>, index: usize) -> (span: Span)
    requires
        index < module_body(*module).len(),
    ensures
        span == module_body(*module)[index as int].span,
{
    let range = module.suite()[index].range();
    Span { start: range.start().to_u32(), end: range.end().to_u32() }
}

/// `Stmt::is_assign_stmt` of the statement at `index`: whether it is a plain
/// assignment (`Stmt::Assign`; augmented and annotated assignments are not).
#[verifier::external_body]
fn is_assign_statement(module: &Parsed<ModModule>, index: usize) -> (yes: bool)
    requires
        index < module_body(*module).len(),
    ensures
        yes == (module_body(*module)[index as int].kind is Assignment),
{
    module.suite()[index].is_assign_stmt()
}

/// `Stmt::as_import_stmt` of the statement at `index`, and the length of its
/// `names`: how many names the statement imports, where it is an `import`
/// statement (`Stmt::Import`; `from ... import` is not), else nothing.
#[verifier::external_body]
fn import_name_count(module: &Parsed<ModModule>, index: usize) -> (count: Option<usize>)
    requires
        index < module_body(*module).len(),
    ensures
        count is Some <==> module_body(*module)[index as int].kind is Import,
        count is Some ==> count->0 == module_body(*module)[index as int].kind->Import_0.len(),
{
    module.suite()[index].as_import_stmt().map(|import| import.names.len())
}

/// The `name` and `asname` of one `Alias` of an `import` statement, as
/// `Identifier::as_str` gives them: the dotted name that is imported and the
/// local name after `as`, if there is one.
#[verifier::external_body]
fn import_binding(module: &Parsed<ModModule>, index: usize, name: usize) -> (binding: Option<
    ImportBinding,
>)
    requires
        index < module_body(*module).len(),
        module_body(*module)[index as int].kind is Import,
        name < module_body(*module)[index as int].kind->Import_0.len(),
    ensures
        binding is Some,
        binding->0@ == module_body(*module)[index as int].kind->Import_0[name as int],
{
    let alias = &module.suite()[index].as_import_stmt()?.names[name];
    Some(
        ImportBinding {
            source_name: alias.name.as_str().to_owned(),
            local_alias: alias.asname.as_ref().map(|local| local.as_str().to_owned()),
        },
    )
}

/// The `location` of a `ParseError`: the byte offsets of the text that the
/// parser objects to.
#[verifier::external_body]
fn error_span(error: &ParseError) -> (span: Span) {
    Span { start: error.location.start().to_u32(), end: error.location.end().to_u32() }
}

/// The `Display` text of a `ParseError`'s `error`.
#[verifier::external_body]
fn error_message(error: &ParseError) -> (message: String) {
    error.error.to_string()
}

/// The names that the import statement at `index` introduces, in the order
/// they are written.
fn import_names(module: &Parsed<ModModule>, index: usize, count: usize) -> (names: Vec<
    ImportBinding,
>)
    requires
        index < module_body(*module).len(),
        module_body(*module)[index as int].kind is Import,
        count == module_body(*module)[index as int].kind->Import_0.len(),
    ensures
        binding_views(names@) == module_body(*module)[index as int].kind->Import_0,
{
    let ghost written = module_body(*module)[index as int].kind->Import_0;
    let mut names: Vec<ImportBinding> = Vec::new();
    let mut j: usize = 0;
    while j < count
        invariant
            j <= count,
            index < module_body(*module).len(),
            module_body(*module)[index as int].kind is Import,
            written == module_body(*module)[index as int].kind->Import_0,
            count == written.len(),
            binding_views(names@) =~= written.take(j as int),
        decreases count - j,
    {
        let ghost before = names@;
        match import_binding(module, index, j) {
            Some(binding) => {
                names.push(binding);
                assert(names@ == before.push(binding));
            },
            None => {},
        }
        assert(binding_views(names@) =~= binding_views(before).push(written[j as int]));
        j += 1;
    }
    assert(written.take(count as int) =~= written);
    names
}

/// The statement at `index` of a parsed module.
fn statement_at(module: &Parsed<ModModule>, index: usize) -> (statement: Statement)
    requires
        index < module_body(*module).len(),
    ensures
        statement@ == module_body(*module)[index as int],
{
    let span = statement_span(module, index);
    match import_name_count(module, index) {
        Some(count) => Statement::import(import_names(module, index, count), span),
        None => {
            if is_assign_statement(module, index) {
                Statement::assignment(span)
            } else {
                Statement::other(span)
            }
        },
    }
}

/// The top-level statements of a parsed module, in document order.
fn statements_of(module: &Parsed<ModModule>) -> (statements: Vec<Statement>)
    ensures
        statement_views(statements@) == module_body(*module),
{
    let count = statement_count(module);
    let mut statements: Vec<Statement> = Vec::new();
    let mut i: usize = 0;
    while i < count
        invariant
            i <= count,
            count == module_body(*module).len(),
            statement_views(statements@) =~= module_body(*module).take(i as int),
        decreases count - i,
    {
        let ghost before = statements@;
        let statement = statement_at(module, i);
        statements.push(statement);
        assert(statement_views(statements@) =~= statement_views(before).push(
            module_body(*module)[i as int],
        ));
        i += 1;
    }
    assert(module_body(*module).take(count as int) =~= module_body(*module));
    statements
}

/// Parses a source text into its top-level statements. A text that the
/// parser rejects gives the parser's first error; a text too long for the
/// parser is refused unparsed.
pub fn parse_statements(source: &str) -> (outcome: Result<Vec<Statement>, SyntaxError>)
    ensures
        match outcome {
            Ok(statements) => fits_parser(source) && parsed_module(source@) == Some(
                statement_views(statements@),
            ),
            Err(SyntaxError::TooLarge) => !fits_parser(source),
            Err(SyntaxError::Invalid { .. }) => fits_parser(source) && parsed_module(source@)
                is None,
        },
{
    if source.len() > MAX_SOURCE_BYTES {
        return Err(SyntaxError::TooLarge);
    }
    match parse(source) {
        Ok(module) => Ok(statements_of(&module)),
        Err(error) => Err(
            SyntaxError::Invalid { span: error_span(&error), message: error_message(&error) },
        ),
    }
}

/// The local name by which a source text refers to `target_library`, where
/// the text parses: the outcome of one resolution pass over its top-level
/// statements.
pub fn effective_name_in(source: &str, target_library: &str) -> (outcome: Result<
    Option<String>,
    SyntaxError,
>)
    ensures
        match outcome {
            Ok(name) => fits_parser(source) && parsed_module(source@) is Some && optional_text(
                name,
            ) == resolve(target_library@, parsed_module(source@)->0).effective_name(),
            Err(SyntaxError::TooLarge) => !fits_parser(source),
            Err(SyntaxError::Invalid { .. }) => fits_parser(source) && parsed_module(source@)
                is None,
        },
{
    match parse_statements(source) {
        Ok(statements) => {
            let context = resolve_module(target_library, &statements);
            Ok(context.get_effective_name())
        },
        Err(error) => Err(error),
    }
}

} // verus!
