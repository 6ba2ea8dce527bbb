use frame_check_core::launch::language_server_command;
use frame_check_core::resolution::resolve_module;
use frame_check_core::statement::{ImportBinding, Span, Statement, StatementKind};
use frame_check_core::syntax::{effective_name_in, parse_statements, SyntaxError};

#[test]
fn aliased_import_and_two_assignments() {
    let source = "import polars as pl\nx = 1\ny = pl.DataFrame()";
    let module = parse_statements(source).unwrap();
    assert_eq!(module.len(), 3);
    let context = resolve_module("polars", &module);
    assert_eq!(context.get_effective_name(), Some("pl".to_string()));
    let candidates = context.assignment_candidates();
    assert_eq!(candidates.len(), 2);
    assert_eq!(*candidates[0], Statement::assignment(Span { start: 20, end: 25 }));
    assert_eq!(*candidates[1], Statement::assignment(Span { start: 26, end: 44 }));
    assert_eq!(&source[20..25], "x = 1");
    assert_eq!(&source[26..44], "y = pl.DataFrame()");
}

#[test]
fn other_library_is_not_resolved() {
    let module = parse_statements("import numpy as np\nz = 2").unwrap();
    let context = resolve_module("polars", &module);
    assert_eq!(context.get_effective_name(), None);
    let candidates = context.assignment_candidates();
    assert_eq!(candidates.len(), 1);
    assert_eq!(*candidates[0], Statement::assignment(Span { start: 19, end: 24 }));
}

#[test]
fn first_unaliased_import_wins() {
    let module = parse_statements("import polars\nimport polars as pl2").unwrap();
    let context = resolve_module("polars", &module);
    assert_eq!(context.get_effective_name(), Some("polars".to_string()));
}

#[test]
fn parsed_import_lists_its_names_in_order() {
    let module = parse_statements("import os, polars as pl, numpy.linalg as la\n").unwrap();
    assert_eq!(module.len(), 1);
    let names = vec![
        ImportBinding::new("os", None),
        ImportBinding::new("polars", Some("pl")),
        ImportBinding::new("numpy.linalg", Some("la")),
    ];
    assert_eq!(module[0].kind, StatementKind::Import(names));
    assert_eq!(module[0].span, Span { start: 0, end: 43 });
}

#[test]
fn parsed_statement_kinds() {
    let source = "from polars import DataFrame\nx = 1\nx += 2\ny: int = 3\ndef f():\n    z = 4\n";
    let module = parse_statements(source).unwrap();
    assert_eq!(module.len(), 5);
    assert_eq!(module[0].kind, StatementKind::Other);
    assert_eq!(module[1].kind, StatementKind::Assignment);
    assert_eq!(module[1].span, Span { start: 29, end: 34 });
    assert_eq!(module[2].kind, StatementKind::Other);
    assert_eq!(module[3].kind, StatementKind::Other);
    assert_eq!(module[4].kind, StatementKind::Other);
    let context = resolve_module("polars", &module);
    assert_eq!(context.get_effective_name(), None);
    assert_eq!(context.assignment_candidates().len(), 1);
}

#[test]
fn empty_source_has_no_statements() {
    assert_eq!(parse_statements(""), Ok(Vec::new()));
    assert_eq!(effective_name_in("", "polars"), Ok(None));
}

#[test]
fn invalid_source_is_a_syntax_error() {
    match parse_statements("import\n") {
        Err(SyntaxError::Invalid { span, message }) => {
            assert!(span.start <= span.end);
            assert!(span.end <= 7);
            assert!(!message.is_empty());
        }
        other => panic!("unexpected outcome: {:?}", other),
    }
    assert!(matches!(effective_name_in("x = = 1", "polars"), Err(SyntaxError::Invalid { .. })));
}

#[test]
fn effective_name_in_source() {
    let source = "import polars as pl\nx = 1\ny = pl.DataFrame()";
    assert_eq!(effective_name_in(source, "polars"), Ok(Some("pl".to_string())));
    assert_eq!(effective_name_in(source, "numpy"), Ok(None));
    assert_eq!(effective_name_in("import polars\n", "polars"), Ok(Some("polars".to_string())));
    assert_eq!(
        effective_name_in("import polars as a, polars as b\n", "polars"),
        Ok(Some("a".to_string()))
    );
}

#[test]
fn nested_import_is_not_top_level() {
    let source = "def f():\n    import polars as pl\n";
    assert_eq!(effective_name_in(source, "polars"), Ok(None));
}

#[test]
fn language_server_command_line() {
    let env = vec![("PATH".to_string(), "/usr/bin".to_string())];
    let launch = language_server_command(env.clone());
    assert_eq!(launch.command, "frame-check-lsp");
    assert!(launch.args.is_empty());
    assert_eq!(launch.env, env);
}
