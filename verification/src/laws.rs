//! What holds of every pass, whatever the module: the first import of the
//! target library decides the local name, and the candidates are the
//! module's assignments.

use vstd::prelude::*;
use crate::resolution::{
    assignments_of, binding_in, first_match, first_match_from, imported_names, resolve,
    ResolutionContext, ResolutionState,
};
use crate::statement::{optional_text, ImportBindingView, StatementKindView, StatementView};

verus! {

/// Where no name from index `from` on is the target, nothing matches.
pub proof fn lemma_no_match(names: Seq<ImportBindingView>, target: Seq<char>, from: int)
    requires
        0 <= from,
        forall|j: int| from <= j < names.len() ==> names[j].source_name != target,
    ensures
        first_match_from(names, target, from) is None,
    decreases names.len() - from,
{
    if from < names.len() {
        lemma_no_match(names, target, from + 1);
    }
}

/// A name that is the target, with no such name between `from` and it, is
/// the match: within one statement the first name wins.
pub proof fn lemma_first_name_wins(
    names: Seq<ImportBindingView>,
    target: Seq<char>,
    from: int,
    at: int,
)
    requires
        0 <= from <= at < names.len(),
        names[at].source_name == target,
        forall|j: int| from <= j < at ==> names[j].source_name != target,
    ensures
        first_match_from(names, target, from) == Some(names[at]),
    decreases at - from,
{
    if from < at {
        lemma_first_name_wins(names, target, from + 1, at);
    }
}

/// A match is one of the names, and its source name is the target.
pub proof fn lemma_match_is_a_name(names: Seq<ImportBindingView>, target: Seq<char>, from: int)
    requires
        0 <= from,
        first_match_from(names, target, from) is Some,
    ensures
        names.contains(first_match_from(names, target, from)->0),
        first_match_from(names, target, from)->0.source_name == target,
    decreases names.len() - from,
{
    if names[from].source_name != target {
        lemma_match_is_a_name(names, target, from + 1);
    }
}

/// In two lists of names written one after the other, a match in the first
/// list wins; the second list is searched only where the first has none.
pub proof fn lemma_first_match_of_two_lists(
    first: Seq<ImportBindingView>,
    second: Seq<ImportBindingView>,
    target: Seq<char>,
)
    ensures
        first_match(first + second, target) == if first_match(first, target) is Some {
            first_match(first, target)
        } else {
            first_match(second, target)
        },
{
    lemma_match_in_second_list(first, second, target, 0);
    lemma_match_across_lists(first, second, target, 0);
}

/// From a place in the second of two lists on, the search goes as in the
/// second list alone.
proof fn lemma_match_in_second_list(
    first: Seq<ImportBindingView>,
    second: Seq<ImportBindingView>,
    target: Seq<char>,
    from: int,
)
    requires
        0 <= from <= second.len(),
    ensures
        first_match_from(first + second, target, first.len() + from) == first_match_from(
            second,
            target,
            from,
        ),
    decreases second.len() - from,
{
    if from < second.len() {
        assert((first + second)[first.len() + from] == second[from]);
        lemma_match_in_second_list(first, second, target, from + 1);
    }
}

/// From a place in the first of two lists on, the search goes through the
/// rest of the first list and then through the second.
proof fn lemma_match_across_lists(
    first: Seq<ImportBindingView>,
    second: Seq<ImportBindingView>,
    target: Seq<char>,
    from: int,
)
    requires
        0 <= from <= first.len(),
    ensures
        first_match_from(first + second, target, from) == if first_match_from(
            first,
            target,
            from,
        ) is Some {
            first_match_from(first, target, from)
        } else {
            first_match_from(second, target, 0)
        },
    decreases first.len() - from,
{
    if from < first.len() {
        assert((first + second)[from] == first[from]);
        lemma_match_across_lists(first, second, target, from + 1);
    } else {
        lemma_match_in_second_list(first, second, target, 0);
    }
}

/// First match wins, within and across statements alike: the resolved import
/// of a pass is the first of all imported names, in document order, whose
/// source name is the target library.
pub proof fn lemma_resolved_is_first_imported_name(
    target: Seq<char>,
    statements: Seq<StatementView>,
)
    ensures
        resolve(target, statements).resolved == first_match(imported_names(statements), target),
    decreases statements.len(),
{
    if statements.len() > 0 {
        let earlier = statements.drop_last();
        lemma_resolved_is_first_imported_name(target, earlier);
        lemma_target_is_kept(ResolutionState::initial(target), earlier);
        match statements.last().kind {
            StatementKindView::Import(names) => {
                lemma_first_match_of_two_lists(imported_names(earlier), names, target);
            },
            _ => {},
        }
    }
}

/// A resolved import always names the target library: no pass, from a state
/// of which that holds, leads to one of which it does not.
pub proof fn lemma_resolved_names_the_target(
    state: ResolutionState,
    statements: Seq<StatementView>,
)
    requires
        state.well_formed(),
    ensures
        state.run(statements).well_formed(),
    decreases statements.len(),
{
    if statements.len() > 0 {
        let earlier = statements.drop_last();
        lemma_resolved_names_the_target(state, earlier);
        lemma_target_is_kept(state, earlier);
        let reached = state.run(earlier);
        match statements.last().kind {
            StatementKindView::Import(names) => {
                if reached.resolved is None && first_match(names, reached.target) is Some {
                    lemma_match_is_a_name(names, reached.target, 0);
                }
            },
            _ => {},
        }
    }
}

/// The target library is set once and never changes.
pub proof fn lemma_target_is_kept(state: ResolutionState, statements: Seq<StatementView>)
    ensures
        state.run(statements).target == state.target,
    decreases statements.len(),
{
    if statements.len() > 0 {
        lemma_target_is_kept(state, statements.drop_last());
    }
}

/// A resolved import is never overwritten: whatever follows, it stays.
pub proof fn lemma_resolved_is_kept(state: ResolutionState, statements: Seq<StatementView>)
    requires
        state.resolved is Some,
    ensures
        state.run(statements).resolved == state.resolved,
    decreases statements.len(),
{
    if statements.len() > 0 {
        lemma_resolved_is_kept(state, statements.drop_last());
    }
}

/// A module in which no statement imports the target library resolves to
/// nothing, and has no effective name.
pub proof fn lemma_no_import_no_name(target: Seq<char>, statements: Seq<StatementView>)
    requires
        forall|i: int| 0 <= i < statements.len() ==> binding_in(statements[i], target) is None,
    ensures
        resolve(target, statements).resolved is None,
        resolve(target, statements).effective_name() is None,
    decreases statements.len(),
{
    if statements.len() > 0 {
        let earlier = statements.drop_last();
        assert forall|i: int| 0 <= i < earlier.len() implies binding_in(earlier[i], target)
            is None by {
            assert(earlier[i] == statements[i]);
        }
        lemma_no_import_no_name(target, earlier);
        lemma_target_is_kept(ResolutionState::initial(target), earlier);
        assert(binding_in(statements.last(), target) is None);
    }
}

/// First match wins: the first statement, in document order, that imports
/// the target library decides the resolved import, whatever later
/// statements import.
pub proof fn lemma_first_import_wins(
    target: Seq<char>,
    statements: Seq<StatementView>,
    at: int,
)
    requires
        0 <= at < statements.len(),
        binding_in(statements[at], target) is Some,
        forall|i: int| 0 <= i < at ==> binding_in(statements[i], target) is None,
    ensures
        resolve(target, statements).resolved == binding_in(statements[at], target),
{
    let before = statements.take(at);
    let upto = statements.take(at + 1);
    let after = statements.skip(at + 1);
    let start = ResolutionState::initial(target);
    lemma_no_import_no_name(target, before);
    lemma_target_is_kept(start, before);
    assert(upto.drop_last() == before);
    assert(upto.last() == statements[at]);
    assert(start.run(upto).resolved == binding_in(statements[at], target));
    lemma_run_splits(start, upto, after);
    assert(upto + after == statements);
    lemma_resolved_is_kept(start.run(upto), after);
}

/// A pass over two stretches of statements is a pass over the first,
/// carried on over the second.
pub proof fn lemma_run_splits(
    state: ResolutionState,
    first: Seq<StatementView>,
    second: Seq<StatementView>,
)
    ensures
        state.run(first + second) == state.run(first).run(second),
    decreases second.len(),
{
    if second.len() == 0 {
        assert(first + second == first);
    } else {
        lemma_run_splits(state, first, second.drop_last());
        assert((first + second).drop_last() == first + second.drop_last());
        assert((first + second).last() == second.last());
    }
}

/// An aliased import that is the module's only import of the target library
/// gives the alias as the effective name.
pub proof fn lemma_sole_aliased_import(
    target: Seq<char>,
    statements: Seq<StatementView>,
    at: int,
    name: int,
    alias: Seq<char>,
)
    requires
        0 <= at < statements.len(),
        statements[at].kind is Import,
        0 <= name < statements[at].kind->Import_0.len(),
        statements[at].kind->Import_0[name] == (ImportBindingView {
            source_name: target,
            local_alias: Some(alias),
        }),
        forall|i: int, j: int|
            0 <= i < statements.len() && statements[i].kind is Import && 0 <= j
                < statements[i].kind->Import_0.len() && (i != at || j != name)
                ==> (#[trigger] statements[i].kind->Import_0[j]).source_name != target,
    ensures
        resolve(target, statements).effective_name() == Some(alias),
{
    lemma_sole_import(target, statements, at, name);
}

/// An unaliased import that is the module's only import of the target
/// library gives the library's own name as the effective name.
pub proof fn lemma_sole_plain_import(
    target: Seq<char>,
    statements: Seq<StatementView>,
    at: int,
    name: int,
)
    requires
        0 <= at < statements.len(),
        statements[at].kind is Import,
        0 <= name < statements[at].kind->Import_0.len(),
        statements[at].kind->Import_0[name] == (ImportBindingView {
            source_name: target,
            local_alias: None,
        }),
        forall|i: int, j: int|
            0 <= i < statements.len() && statements[i].kind is Import && 0 <= j
                < statements[i].kind->Import_0.len() && (i != at || j != name)
                ==> (#[trigger] statements[i].kind->Import_0[j]).source_name != target,
    ensures
        resolve(target, statements).effective_name() == Some(target),
{
    lemma_sole_import(target, statements, at, name);
}

/// Where one name of one statement is the module's only import of the
/// target library, that name is the resolved import.
pub proof fn lemma_sole_import(
    target: Seq<char>,
    statements: Seq<StatementView>,
    at: int,
    name: int,
)
    requires
        0 <= at < statements.len(),
        statements[at].kind is Import,
        0 <= name < statements[at].kind->Import_0.len(),
        statements[at].kind->Import_0[name].source_name == target,
        forall|i: int, j: int|
            0 <= i < statements.len() && statements[i].kind is Import && 0 <= j
                < statements[i].kind->Import_0.len() && (i != at || j != name)
                ==> (#[trigger] statements[i].kind->Import_0[j]).source_name != target,
    ensures
        resolve(target, statements).resolved == Some(statements[at].kind->Import_0[name]),
{
    let names = statements[at].kind->Import_0;
    lemma_first_name_wins(names, target, 0, name);
    assert forall|i: int| 0 <= i < at implies binding_in(statements[i], target) is None by {
        if statements[i].kind is Import {
            lemma_no_match(statements[i].kind->Import_0, target, 0);
        }
    }
    lemma_first_import_wins(target, statements, at);
}

/// Of two imports of the target library, the first decides: an unaliased
/// import followed, anywhere later, by an aliased one still gives the
/// library's own name.
pub proof fn lemma_earlier_plain_import_wins(
    target: Seq<char>,
    statements: Seq<StatementView>,
    first: int,
    second: int,
    alias: Seq<char>,
)
    requires
        0 <= first < second < statements.len(),
        statements[first].kind == StatementKindView::Import(
            seq![ImportBindingView { source_name: target, local_alias: None }],
        ),
        statements[second].kind == StatementKindView::Import(
            seq![ImportBindingView { source_name: target, local_alias: Some(alias) }],
        ),
        forall|i: int| 0 <= i < first ==> binding_in(statements[i], target) is None,
    ensures
        resolve(target, statements).effective_name() == Some(target),
{
    let names = statements[first].kind->Import_0;
    lemma_first_name_wins(names, target, 0, 0);
    lemma_first_import_wins(target, statements, first);
}

/// A resolved import is the binding that one of the module's import
/// statements introduces for the target library, and its source name is the
/// target.
pub proof fn lemma_resolved_is_an_import(target: Seq<char>, statements: Seq<StatementView>)
    requires
        resolve(target, statements).resolved is Some,
    ensures
        exists|i: int|
            0 <= i < statements.len() && #[trigger] binding_in(statements[i], target) == resolve(
                target,
                statements,
            ).resolved,
        resolve(target, statements).resolved->0.source_name == target,
    decreases statements.len(),
{
    let earlier = statements.drop_last();
    let last = statements.len() - 1;
    lemma_target_is_kept(ResolutionState::initial(target), earlier);
    if resolve(target, earlier).resolved is Some {
        lemma_resolved_is_an_import(target, earlier);
        let i = choose|i: int|
            0 <= i < earlier.len() && #[trigger] binding_in(earlier[i], target) == resolve(
                target,
                earlier,
            ).resolved;
        assert(earlier[i] == statements[i]);
        assert(binding_in(statements[i], target) == resolve(target, statements).resolved);
    } else {
        assert(binding_in(statements[last], target) == resolve(target, statements).resolved);
        lemma_match_is_a_name(statements[last].kind->Import_0, target, 0);
    }
}

/// The candidates only grow: what was collected before a stretch of
/// statements is still there after it, at the front and in the same order.
pub proof fn lemma_candidates_only_grow(state: ResolutionState, statements: Seq<StatementView>)
    ensures
        state.candidates.is_prefix_of(state.run(statements).candidates),
    decreases statements.len(),
{
    if statements.len() > 0 {
        lemma_candidates_only_grow(state, statements.drop_last());
    }
}

/// Asking for the effective name changes nothing: any two answers that a
/// context gives are the same.
pub proof fn lemma_effective_name_is_stable(
    context: ResolutionContext,
    first: Option<String>,
    second: Option<String>,
)
    requires
        optional_text(first) == context@.effective_name(),
        optional_text(second) == context@.effective_name(),
    ensures
        optional_text(first) == optional_text(second),
{
}

/// The candidates of a pass are exactly the module's assignments, in
/// document order, each once, whether or not an import was resolved.
pub proof fn lemma_candidates_are_the_assignments(
    target: Seq<char>,
    statements: Seq<StatementView>,
)
    ensures
        resolve(target, statements).candidates == assignments_of(statements),
    decreases statements.len(),
{
    reveal(Seq::filter);
    if statements.len() > 0 {
        lemma_candidates_are_the_assignments(target, statements.drop_last());
    }
}

} // verus!
