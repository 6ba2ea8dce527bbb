//! The binding resolution pass: one walk over a module's top-level
//! statements that finds the import of a target library and collects the
//! assignments.

use vstd::prelude::*;
use crate::laws::{
    lemma_candidates_are_the_assignments, lemma_resolved_is_first_imported_name,
    lemma_target_is_kept,
};
use crate::statement::{
    binding_views, optional_text, statement_views, ImportBinding, ImportBindingView, Statement, StatementKind,
    StatementKindView, StatementView,
};

verus! {

/// Model of a [`ResolutionContext`]: what one pass has found so far.
pub struct ResolutionState {
    /// The library that is looked for.
    pub target: Seq<char>,
    /// The first binding of the target met so far, if any.
    pub resolved: Option<ImportBindingView>,
    /// The assignments met so far, in document order.
    pub candidates: Seq<StatementView>,
}

/// The first of `names`, from index `from` on, whose source name is `target`.
pub open spec fn first_match_from(
    names: Seq<ImportBindingView>,
    target: Seq<char>,
    from: int,
) -> Option<ImportBindingView>
    decreases names.len() - from,
{
    if from < 0 || from >= names.len() {
        None
    } else if names[from].source_name == target {
        Some(names[from])
    } else {
        first_match_from(names, target, from + 1)
    }
}

/// The first of `names` whose source name is `target`.
pub open spec fn first_match(names: Seq<ImportBindingView>, target: Seq<char>) -> Option<
    ImportBindingView,
> {
    first_match_from(names, target, 0)
}

/// The binding of `target` that `statement` introduces: the first one, where
/// an import statement names the target more than once.
pub open spec fn binding_in(statement: StatementView, target: Seq<char>) -> Option<
    ImportBindingView,
> {
    match statement.kind {
        StatementKindView::Import(names) => first_match(names, target),
        _ => None,
    }
}

impl ResolutionState {
    /// The state before any statement was processed.
    pub open spec fn initial(target: Seq<char>) -> ResolutionState {
        ResolutionState { target, resolved: None, candidates: Seq::empty() }
    }

    /// The state after one more statement.
    pub open spec fn step(self, statement: StatementView) -> ResolutionState {
        match statement.kind {
            StatementKindView::Import(names) => ResolutionState {
                resolved: if self.resolved is Some {
                    self.resolved
                } else {
                    first_match(names, self.target)
                },
                ..self
            },
            StatementKindView::Assignment => ResolutionState {
                candidates: self.candidates.push(statement),
                ..self
            },
            StatementKindView::Other => self,
        }
    }

    /// The state after the statements of `statements`, taken in order.
    pub open spec fn run(self, statements: Seq<StatementView>) -> ResolutionState
        decreases statements.len(),
    {
        if statements.len() == 0 {
            self
        } else {
            self.run(statements.drop_last()).step(statements.last())
        }
    }

    /// Whether a resolved import, if there is one, names the target library.
    pub open spec fn well_formed(self) -> bool {
        self.resolved is Some ==> self.resolved->0.source_name == self.target
    }

    /// The local name that refers to the target library: the alias of the
    /// resolved import, its source name where it has no alias, nothing where
    /// no import was resolved.
    pub open spec fn effective_name(self) -> Option<Seq<char>> {
        match self.resolved {
            Some(binding) => Some(binding.effective_name()),
            None => None,
        }
    }
}

/// Every name that the import statements among `statements` introduce, in
/// document order: statement by statement, and within a statement as written.
pub open spec fn imported_names(statements: Seq<StatementView>) -> Seq<ImportBindingView>
    decreases statements.len(),
{
    if statements.len() == 0 {
        Seq::empty()
    } else {
        let earlier = imported_names(statements.drop_last());
        match statements.last().kind {
            StatementKindView::Import(names) => earlier + names,
            _ => earlier,
        }
    }
}

/// The assignments among `statements`, in document order.
pub open spec fn assignments_of(statements: Seq<StatementView>) -> Seq<StatementView> {
    statements.filter(|s: StatementView| s.is_assignment())
}

/// The result of a whole pass over `statements` that looks for `target`.
pub open spec fn resolve(target: Seq<char>, statements: Seq<StatementView>) -> ResolutionState {
    ResolutionState::initial(target).run(statements)
}

/// The model of an optional reference to a binding.
pub open spec fn optional_binding(binding: Option<&ImportBinding>) -> Option<ImportBindingView> {
    match binding {
        Some(b) => Some(b@),
        None => None,
    }
}

/// The models of the statements that a sequence of references points to.
pub open spec fn referenced_views(statements: Seq<&Statement>) -> Seq<StatementView> {
    statements.map_values(|s: &Statement| s@)
}

/// The state of one pass over a module. It borrows from the statements it
/// has seen and copies none of them.
#[derive(Debug)]
pub struct ResolutionContext<'a> {
    target_library: String,
    resolved_import: Option<&'a ImportBinding>,
    assignment_candidates: Vec<&'a Statement>,
}

impl<'a> View for ResolutionContext<'a> {
    type V = ResolutionState;

    closed spec fn view(&self) -> ResolutionState {
        ResolutionState {
            target: self.target_library@,
            resolved: optional_binding(self.resolved_import),
            candidates: referenced_views(self.assignment_candidates@),
        }
    }
}

impl<'a> Default for ResolutionContext<'a> {
    /// A context with an empty target, which no import matches.
    fn default() -> (context: ResolutionContext<'a>)
        ensures
            context@ == ResolutionState::initial(Seq::empty()),
    {
        let context = ResolutionContext {
            target_library: String::new(),
            resolved_import: None,
            assignment_candidates: Vec::new(),
        };
        assert(context@.candidates =~= Seq::empty());
        context
    }
}

/// The first of `names` whose source name is `target`.
pub fn find_binding<'a>(names: &'a Vec<ImportBinding>, target: &String) -> (found: Option<
    &'a ImportBinding,
>)
    ensures
        optional_binding(found) == first_match(binding_views(names@), target@),
{
    let ghost views = binding_views(names@);
    let mut i: usize = 0;
    while i < names.len()
        invariant
            i <= names.len(),
            views == binding_views(names@),
            first_match(views, target@) == first_match_from(views, target@, i as int),
        decreases names.len() - i,
    {
        if names[i].source_name == *target {
            return Some(&names[i]);
        }
        i += 1;
    }
    None
}

impl<'a> ResolutionContext<'a> {
    /// A context that looks for `target_library` and has seen no statement.
    pub fn new(target_library: &str) -> (context: ResolutionContext<'a>)
        ensures
            context@ == ResolutionState::initial(target_library@),
    {
        let context = ResolutionContext {
            target_library: target_library.to_owned(),
            resolved_import: None,
            assignment_candidates: Vec::new(),
        };
        assert(context@.candidates =~= Seq::empty());
        context
    }

    /// Looks at the names of an import statement. The first one that names
    /// the target library becomes the resolved import, unless an earlier
    /// statement has already resolved it.
    pub fn try_set_import(&mut self, names: &'a Vec<ImportBinding>)
        ensures
            final(self)@ == (ResolutionState {
                resolved: if old(self)@.resolved is Some {
                    old(self)@.resolved
                } else {
                    first_match(binding_views(names@), old(self)@.target)
                },
                ..old(self)@
            }),
    {
        let found = find_binding(names, &self.target_library);
        if self.resolved_import.is_none() {
            self.resolved_import = found;
        }
    }

    /// Processes the next top-level statement of the module.
    pub fn process(&mut self, statement: &'a Statement)
        ensures
            final(self)@ == old(self)@.step(statement@),
    {
        match &statement.kind {
            StatementKind::Import(names) => {
                self.try_set_import(names);
            },
            StatementKind::Assignment => {
                self.assignment_candidates.push(statement);
                assert(final(self)@.candidates =~= old(self)@.candidates.push(statement@));
            },
            StatementKind::Other => {},
        }
    }

    /// The local name that refers to the target library, if an import of it
    /// was found.
    pub fn get_effective_name(&self) -> (name: Option<String>)
        ensures
            optional_text(name) == self@.effective_name(),
    {
        match self.resolved_import {
            Some(binding) => Some(binding.effective_name().to_owned()),
            None => None,
        }
    }

    /// The library that this context looks for.
    pub fn target_library(&self) -> (target: &str)
        ensures
            target@ == self@.target,
    {
        self.target_library.as_str()
    }

    /// The import that was resolved, if any.
    pub fn resolved_import(&self) -> (binding: Option<&'a ImportBinding>)
        ensures
            optional_binding(binding) == self@.resolved,
    {
        self.resolved_import
    }

    /// The assignments seen so far, in document order.
    pub fn assignment_candidates(&self) -> (candidates: &Vec<&'a Statement>)
        ensures
            referenced_views(candidates@) == self@.candidates,
    {
        &self.assignment_candidates
    }
}

/// One pass over the top-level statements of a module, in document order.
/// What it resolves is the first imported name, in document order, that is
/// the target library; what it collects are the module's assignments.
pub fn resolve_module<'a>(target_library: &str, statements: &'a Vec<Statement>) -> (context:
    ResolutionContext<'a>)
    ensures
        context@ == resolve(target_library@, statement_views(statements@)),
        context@.target == target_library@,
        context@.resolved == first_match(
            imported_names(statement_views(statements@)),
            target_library@,
        ),
        context@.candidates == assignments_of(statement_views(statements@)),
{
    let mut context = ResolutionContext::new(target_library);
    let ghost views = statement_views(statements@);
    let mut i: usize = 0;
    while i < statements.len()
        invariant
            i <= statements.len(),
            views == statement_views(statements@),
            context@ == resolve(target_library@, views.take(i as int)),
        decreases statements.len() - i,
    {
        assert(views.take(i + 1).drop_last() == views.take(i as int));
        context.process(&statements[i]);
        i += 1;
    }
    assert(views.take(i as int) == views);
    proof {
        lemma_target_is_kept(ResolutionState::initial(target_library@), views);
        lemma_resolved_is_first_imported_name(target_library@, views);
        lemma_candidates_are_the_assignments(target_library@, views);
    }
    context
}

} // verus!
