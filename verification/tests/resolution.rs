use frame_check_core::resolution::{find_binding, resolve_module, ResolutionContext};
use frame_check_core::statement::{ImportBinding, Span, Statement, StatementKind};

fn span(start: u32, end: u32) -> Span {
    Span { start, end }
}

fn import_one(source_name: &str, local_alias: Option<&str>, at: u32) -> Statement {
    Statement::import(vec![ImportBinding::new(source_name, local_alias)], span(at, at + 1))
}

#[test]
fn new_context_is_unresolved_and_empty() {
    let context = ResolutionContext::new("polars");
    assert_eq!(context.target_library(), "polars");
    assert!(context.resolved_import().is_none());
    assert!(context.assignment_candidates().is_empty());
    assert_eq!(context.get_effective_name(), None);
}

#[test]
fn sole_aliased_import_gives_the_alias() {
    let module = vec![
        Statement::other(span(0, 1)),
        import_one("polars", Some("pl"), 2),
        Statement::assignment(span(4, 5)),
    ];
    let context = resolve_module("polars", &module);
    assert_eq!(context.get_effective_name(), Some("pl".to_string()));
}

#[test]
fn sole_plain_import_gives_the_library_name() {
    let module = vec![import_one("os", None, 0), import_one("polars", None, 2)];
    let context = resolve_module("polars", &module);
    assert_eq!(context.get_effective_name(), Some("polars".to_string()));
    assert_eq!(context.resolved_import(), Some(&ImportBinding::new("polars", None)));
}

#[test]
fn module_without_the_import_gives_nothing() {
    let module = vec![
        import_one("numpy", Some("np"), 0),
        Statement::assignment(span(2, 3)),
        Statement::other(span(4, 5)),
    ];
    let context = resolve_module("polars", &module);
    assert_eq!(context.get_effective_name(), None);
    assert!(context.resolved_import().is_none());
}

#[test]
fn empty_module_gives_nothing() {
    let module: Vec<Statement> = Vec::new();
    let context = resolve_module("polars", &module);
    assert_eq!(context.get_effective_name(), None);
    assert!(context.assignment_candidates().is_empty());
}

#[test]
fn first_import_wins_over_a_later_alias() {
    let module = vec![import_one("polars", None, 0), import_one("polars", Some("pl2"), 2)];
    let context = resolve_module("polars", &module);
    assert_eq!(context.get_effective_name(), Some("polars".to_string()));
}

#[test]
fn first_import_wins_over_a_later_plain_import() {
    let module = vec![import_one("polars", Some("pl"), 0), import_one("polars", None, 2)];
    let context = resolve_module("polars", &module);
    assert_eq!(context.get_effective_name(), Some("pl".to_string()));
}

#[test]
fn later_import_of_another_library_keeps_the_resolved_one() {
    let module = vec![import_one("polars", Some("pl"), 0), import_one("numpy", Some("np"), 2)];
    let context = resolve_module("polars", &module);
    assert_eq!(context.get_effective_name(), Some("pl".to_string()));
}

#[test]
fn first_name_wins_within_one_statement() {
    let names = vec![
        ImportBinding::new("os", None),
        ImportBinding::new("polars", Some("a")),
        ImportBinding::new("polars", Some("b")),
    ];
    let module = vec![Statement::import(names, span(0, 30))];
    let context = resolve_module("polars", &module);
    assert_eq!(context.get_effective_name(), Some("a".to_string()));
}

#[test]
fn import_without_a_matching_name_changes_nothing() {
    let names = vec![ImportBinding::new("os", None), ImportBinding::new("sys", Some("s"))];
    let module = vec![Statement::import(names, span(0, 20))];
    let mut context = ResolutionContext::new("polars");
    context.process(&module[0]);
    assert!(context.resolved_import().is_none());
    assert!(context.assignment_candidates().is_empty());
    assert_eq!(context.get_effective_name(), None);
}

#[test]
fn submodule_import_is_not_the_library() {
    let module = vec![import_one("polars.selectors", Some("cs"), 0)];
    let context = resolve_module("polars", &module);
    assert_eq!(context.get_effective_name(), None);
}

#[test]
fn candidates_are_the_assignments_in_document_order() {
    let module = vec![
        Statement::assignment(span(0, 5)),
        Statement::other(span(6, 9)),
        import_one("polars", Some("pl"), 10),
        Statement::assignment(span(12, 17)),
        Statement::assignment(span(18, 23)),
        Statement::other(span(24, 30)),
    ];
    let context = resolve_module("polars", &module);
    let candidates = context.assignment_candidates();
    assert_eq!(candidates.len(), 3);
    assert_eq!(*candidates[0], Statement::assignment(span(0, 5)));
    assert_eq!(*candidates[1], Statement::assignment(span(12, 17)));
    assert_eq!(*candidates[2], Statement::assignment(span(18, 23)));
    assert!(std::ptr::eq(candidates[0], &module[0]));
    assert!(std::ptr::eq(candidates[1], &module[3]));
    assert!(std::ptr::eq(candidates[2], &module[4]));
}

#[test]
fn candidates_are_collected_without_an_import() {
    let module = vec![Statement::assignment(span(0, 5)), Statement::assignment(span(6, 11))];
    let context = resolve_module("polars", &module);
    assert_eq!(context.get_effective_name(), None);
    assert_eq!(context.assignment_candidates().len(), 2);
    assert_eq!(context.assignment_candidates()[1].span, span(6, 11));
}

#[test]
fn equal_assignments_are_each_kept() {
    let module = vec![Statement::assignment(span(0, 5)), Statement::assignment(span(0, 5))];
    let context = resolve_module("polars", &module);
    assert_eq!(context.assignment_candidates().len(), 2);
}

#[test]
fn effective_name_is_the_same_on_every_call() {
    let module = vec![import_one("polars", Some("pl"), 0), Statement::assignment(span(2, 3))];
    let context = resolve_module("polars", &module);
    let first = context.get_effective_name();
    let second = context.get_effective_name();
    let third = context.get_effective_name();
    assert_eq!(first, Some("pl".to_string()));
    assert_eq!(first, second);
    assert_eq!(second, third);
}

#[test]
fn process_step_by_step_matches_a_whole_pass() {
    let module = vec![
        Statement::assignment(span(0, 5)),
        import_one("polars", None, 6),
        import_one("polars", Some("pl"), 8),
    ];
    let mut context = ResolutionContext::new("polars");
    context.process(&module[0]);
    assert_eq!(context.get_effective_name(), None);
    assert_eq!(context.assignment_candidates().len(), 1);
    context.process(&module[1]);
    assert_eq!(context.get_effective_name(), Some("polars".to_string()));
    context.process(&module[2]);
    assert_eq!(context.get_effective_name(), Some("polars".to_string()));
    assert_eq!(context.target_library(), "polars");
    let whole = resolve_module("polars", &module);
    assert_eq!(whole.get_effective_name(), context.get_effective_name());
    assert_eq!(whole.assignment_candidates().len(), 1);
}

#[test]
fn try_set_import_keeps_an_earlier_match() {
    let first = vec![ImportBinding::new("polars", Some("pl"))];
    let second = vec![ImportBinding::new("polars", Some("other"))];
    let mut context = ResolutionContext::new("polars");
    context.try_set_import(&first);
    context.try_set_import(&second);
    assert_eq!(context.get_effective_name(), Some("pl".to_string()));
}

#[test]
fn find_binding_returns_the_first_match() {
    let names = vec![
        ImportBinding::new("a", None),
        ImportBinding::new("b", Some("x")),
        ImportBinding::new("b", Some("y")),
    ];
    assert_eq!(find_binding(&names, &"b".to_string()), Some(&names[1]));
    assert_eq!(find_binding(&names, &"c".to_string()), None);
    let none: Vec<ImportBinding> = Vec::new();
    assert_eq!(find_binding(&none, &"b".to_string()), None);
}

#[test]
fn binding_effective_name_prefers_the_alias() {
    assert_eq!(ImportBinding::new("polars", Some("pl")).effective_name(), "pl");
    assert_eq!(ImportBinding::new("polars", None).effective_name(), "polars");
}

#[test]
fn statement_builders_set_kind_and_span() {
    let names = vec![ImportBinding::new("polars", Some("pl"))];
    let import = Statement::import(names.clone(), span(1, 2));
    assert_eq!(import.kind, StatementKind::Import(names));
    assert_eq!(import.span, span(1, 2));
    assert!(!import.is_assignment());
    assert_eq!(Statement::assignment(span(3, 4)).kind, StatementKind::Assignment);
    assert!(Statement::assignment(span(3, 4)).is_assignment());
    assert_eq!(Statement::other(span(5, 6)).kind, StatementKind::Other);
    assert!(!Statement::other(span(5, 6)).is_assignment());
}

#[test]
fn default_context_matches_nothing() {
    let module = vec![import_one("polars", None, 0), Statement::assignment(span(2, 3))];
    let mut context = ResolutionContext::default();
    assert_eq!(context.target_library(), "");
    context.process(&module[0]);
    context.process(&module[1]);
    assert_eq!(context.get_effective_name(), None);
    assert_eq!(context.assignment_candidates().len(), 1);
}
