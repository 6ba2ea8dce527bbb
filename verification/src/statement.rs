//! The top-level statements of a module, as far as binding resolution reads
//! them, and their mathematical models.

use vstd::prelude::*;

verus! {

/// The byte range that a statement covers in the source text.
#[derive(Clone, Copy, Debug, PartialEq, Eq, Structural)]
pub struct Span {
    pub start: u32,
    pub end: u32,
}

/// One name that an import statement brings into scope.
#[derive(Clone, Debug, PartialEq, Eq)]
pub struct ImportBinding {
    /// The name as the imported library carries it.
    pub source_name: String,
    /// The local name that the statement binds it to, if it gives one.
    pub local_alias: Option<String>,
}

/// Model of an [`ImportBinding`].
pub struct ImportBindingView {
    pub source_name: Seq<char>,
    pub local_alias: Option<Seq<char>>,
}

/// What kind of statement stands at the top level.
#[derive(Clone, Debug, PartialEq, Eq)]
pub enum StatementKind {
    /// `import a, b as c`: the names in the order they are written.
    Import(Vec<ImportBinding>),
    /// A plain assignment, `x = ...`.
    Assignment,
    /// Anything else.
    Other,
}

/// Model of a [`StatementKind`].
pub enum StatementKindView {
    Import(Seq<ImportBindingView>),
    Assignment,
    Other,
}

/// A top-level statement of a module.
#[derive(Clone, Debug, PartialEq, Eq)]
pub struct Statement {
    pub kind: StatementKind,
    pub span: Span,
}

/// Model of a [`Statement`].
pub struct StatementView {
    pub kind: StatementKindView,
    pub span: Span,
}

/// The model of an optional string.
pub open spec fn optional_text(text: Option<String>) -> Option<Seq<char>> {
    match text {
        Some(t) => Some(t@),
        None => None,
    }
}

/// The models of a sequence of bindings, in the same order.
pub open spec fn binding_views(names: Seq<ImportBinding>) -> Seq<ImportBindingView> {
    names.map_values(|b: ImportBinding| b@)
}

/// The models of a sequence of statements, in the same order.
pub open spec fn statement_views(statements: Seq<Statement>) -> Seq<StatementView> {
    statements.map_values(|s: Statement| s@)
}

impl View for ImportBinding {
    type V = ImportBindingView;

    open spec fn view(&self) -> ImportBindingView {
        ImportBindingView {
            source_name: self.source_name@,
            local_alias: optional_text(self.local_alias),
        }
    }
}

impl View for StatementKind {
    type V = StatementKindView;

    open spec fn view(&self) -> StatementKindView {
        match *self {
            StatementKind::Import(names) => StatementKindView::Import(binding_views(names@)),
            StatementKind::Assignment => StatementKindView::Assignment,
            StatementKind::Other => StatementKindView::Other,
        }
    }
}

impl View for Statement {
    type V = StatementView;

    open spec fn view(&self) -> StatementView {
        StatementView { kind: self.kind@, span: self.span }
    }
}

impl StatementView {
    /// Whether the statement is a plain assignment.
    pub open spec fn is_assignment(self) -> bool {
        self.kind is Assignment
    }
}

impl ImportBinding {
    /// A binding of `source_name`, under `local_alias` where one is given.
    pub fn new(source_name: &str, local_alias: Option<&str>) -> (binding: ImportBinding)
        ensures
            binding@.source_name == source_name@,
            binding@.local_alias == match local_alias {
                Some(a) => Some(a@),
                None => None,
            },
    {
        let alias = match local_alias {
            Some(a) => Some(a.to_owned()),
            None => None,
        };
        ImportBinding { source_name: source_name.to_owned(), local_alias: alias }
    }

    /// The name by which the module refers to what was imported: the alias
    /// where the statement gives one, else the source name.
    pub fn effective_name(&self) -> (name: &str)
        ensures
            name@ == self@.effective_name(),
    {
        match &self.local_alias {
            Some(alias) => alias.as_str(),
            None => self.source_name.as_str(),
        }
    }
}

impl ImportBindingView {
    /// The name by which the module refers to what was imported.
    pub open spec fn effective_name(self) -> Seq<char> {
        match self.local_alias {
            Some(alias) => alias,
            None => self.source_name,
        }
    }
}

impl Statement {
    /// An import statement that introduces `names`, in that order.
    pub fn import(names: Vec<ImportBinding>, span: Span) -> (statement: Statement)
        ensures
            statement@.kind == StatementKindView::Import(binding_views(names@)),
            statement@.span == span,
    {
        Statement { kind: StatementKind::Import(names), span }
    }

    /// An assignment statement.
    pub fn assignment(span: Span) -> (statement: Statement)
        ensures
            statement@ == (StatementView { kind: StatementKindView::Assignment, span }),
    {
        Statement { kind: StatementKind::Assignment, span }
    }

    /// A statement of any other kind.
    pub fn other(span: Span) -> (statement: Statement)
        ensures
            statement@ == (StatementView { kind: StatementKindView::Other, span }),
    {
        Statement { kind: StatementKind::Other, span }
    }

    /// Whether this is a plain assignment.
    pub fn is_assignment(&self) -> (yes: bool)
        ensures
            yes == self@.is_assignment(),
    {
        match &self.kind {
            StatementKind::Assignment => true,
            _ => false,
        }
    }
}

} // verus!
