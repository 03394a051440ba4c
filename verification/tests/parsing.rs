use pyrust_check::ast::{BinOp, Expression, Literal, Statement, TypeAnnotation};
use pyrust_check::diagnostics::SourceLocation;
use pyrust_check::parser::PythonParser;
use pyrust_check::PyRustError;

#[test]
fn test_parse_simple_function() {
    let source = "\ndef add(a: int, b: int) -> int:\n    return a + b\n";
    let result = PythonParser::parse_source(source, "test.py");
    assert!(result.is_ok());
}

#[test]
fn test_parse_variable_annotation() {
    let source = "\nx: int = 5\ny: str = \"hello\"\n";
    let result = PythonParser::parse_source(source, "test.py");
    assert!(result.is_ok());
}

#[test]
fn test_parse_syntax_error() {
    let source = "def invalid syntax";
    let result = PythonParser::parse_source(source, "test.py");

    match result {
        Err(PyRustError::ParseError { location, .. }) => {
            assert_eq!(location.line, 1);
        }
        _ => panic!("Expected ParseError"),
    }
}

#[test]
fn test_empty_file() {
    let source = "";
    let result = PythonParser::parse_source(source, "test.py");
    assert!(result.is_ok());
    assert!(result.unwrap().is_empty());
}

#[test]
fn parse_is_deterministic() {
    let source = "x: int = 5\ndef f(a: int) -> int:\n    a + 1\n";
    let first = PythonParser::parse_source(source, "mod.py");
    let second = PythonParser::parse_source(source, "mod.py");
    assert_eq!(format!("{:?}", first), format!("{:?}", second));

    let bad = "def broken(";
    let first_err = PythonParser::parse_source(bad, "mod.py");
    let second_err = PythonParser::parse_source(bad, "mod.py");
    assert_eq!(format!("{:?}", first_err), format!("{:?}", second_err));
}

#[test]
fn single_expression_wraps_binop() {
    let result = PythonParser::parse_expression("1 + 2", "expr.py");
    let stmts = result.unwrap();
    assert_eq!(stmts.len(), 1);
    match &stmts[0] {
        Statement::Expression { value, span } => {
            match value {
                Expression::BinOp { left, op, right, span: expr_span } => {
                    assert!(matches!(op, BinOp::Add));
                    assert!(matches!(
                        &**left,
                        Expression::Literal { value: Literal::Int(1), .. }
                    ));
                    assert!(matches!(
                        &**right,
                        Expression::Literal { value: Literal::Int(2), .. }
                    ));
                    // The synthesized wrapper statement carries the span
                    // of its sole child.
                    assert_eq!(span, expr_span);
                    assert_eq!(expr_span.start_line, 1);
                    assert_eq!(expr_span.start_col, 0);
                    assert_eq!(expr_span.end_line, 1);
                    assert_eq!(expr_span.end_col, 5);
                }
                other => panic!("expected a binary operation, got {:?}", other),
            }
        }
        other => panic!("expected an expression statement, got {:?}", other),
    }
}

#[test]
fn multi_line_annotations_give_two_statements() {
    let source = "x: int = 5\ny: str = \"hello\"\n";
    let stmts = PythonParser::parse_source(source, "test.py").unwrap();
    assert_eq!(stmts.len(), 2);
    match &stmts[0] {
        Statement::AnnAssign { target, annotation, value, span } => {
            assert_eq!(target, "x");
            assert!(matches!(annotation, TypeAnnotation::Name(n) if n == "int"));
            assert!(matches!(
                value,
                Some(Expression::Literal { value: Literal::Int(5), .. })
            ));
            assert_eq!(span.start_line, 1);
            assert_eq!(span.start_col, 0);
        }
        other => panic!("expected an annotated assignment, got {:?}", other),
    }
    match &stmts[1] {
        Statement::AnnAssign { target, annotation, value, span } => {
            assert_eq!(target, "y");
            assert!(matches!(annotation, TypeAnnotation::Name(n) if n == "str"));
            match value {
                Some(Expression::Literal { value: Literal::Str(s), .. }) => {
                    assert_eq!(s, "hello")
                }
                other => panic!("expected a string literal, got {:?}", other),
            }
            assert_eq!(span.start_line, 2);
            assert_eq!(span.start_col, 0);
        }
        other => panic!("expected an annotated assignment, got {:?}", other),
    }
}

#[test]
fn function_def_lowering_keeps_parameters() {
    let source = "def add(a: int, b: int) -> int:\n    a + b\n";
    let stmts = PythonParser::parse_source(source, "test.py").unwrap();
    assert_eq!(stmts.len(), 1);
    match &stmts[0] {
        Statement::FunctionDef { name, args, return_annotation, body, span } => {
            assert_eq!(name, "add");
            assert_eq!(args.len(), 2);
            assert_eq!(args[0].name, "a");
            assert!(matches!(&args[0].annotation, Some(TypeAnnotation::Name(n)) if n == "int"));
            assert_eq!(args[1].name, "b");
            assert!(matches!(&args[1].annotation, Some(TypeAnnotation::Name(n)) if n == "int"));
            assert!(matches!(return_annotation, Some(TypeAnnotation::Name(n)) if n == "int"));
            assert_eq!(body.len(), 1);
            assert!(matches!(
                &body[0],
                Statement::Expression { value: Expression::BinOp { .. }, .. }
            ));
            assert_eq!(span.start_line, 1);
        }
        other => panic!("expected a function definition, got {:?}", other),
    }
}

#[test]
fn assignment_and_calls_lower() {
    let source = "x = f(1, g(y))\n";
    let stmts = PythonParser::parse_source(source, "test.py").unwrap();
    assert_eq!(stmts.len(), 1);
    match &stmts[0] {
        Statement::Assign { targets, value, .. } => {
            assert_eq!(targets.len(), 1);
            assert_eq!(targets[0], "x");
            match value {
                Expression::Call { func, args, .. } => {
                    assert!(matches!(&**func, Expression::Name { id, .. } if id == "f"));
                    assert_eq!(args.len(), 2);
                    assert!(matches!(
                        &args[0],
                        Expression::Literal { value: Literal::Int(1), .. }
                    ));
                    match &args[1] {
                        Expression::Call { func, args, .. } => {
                            assert!(matches!(&**func, Expression::Name { id, .. } if id == "g"));
                            assert_eq!(args.len(), 1);
                            assert!(matches!(&args[0], Expression::Name { id, .. } if id == "y"));
                        }
                        other => panic!("expected a nested call, got {:?}", other),
                    }
                }
                other => panic!("expected a call, got {:?}", other),
            }
        }
        other => panic!("expected an assignment, got {:?}", other),
    }
}

#[test]
fn literal_constants_lower() {
    let source = "a = True\nb = None\nc = \"s\"\nd = 7\n";
    let stmts = PythonParser::parse_source(source, "test.py").unwrap();
    assert_eq!(stmts.len(), 4);
    let expect = |s: &Statement, want: &Literal| match s {
        Statement::Assign { value: Expression::Literal { value, .. }, .. } => {
            assert_eq!(format!("{:?}", value), format!("{:?}", want));
        }
        other => panic!("expected a literal assignment, got {:?}", other),
    };
    expect(&stmts[0], &Literal::Bool(true));
    expect(&stmts[1], &Literal::NoneLit);
    expect(&stmts[2], &Literal::Str("s".to_string()));
    expect(&stmts[3], &Literal::Int(7));
}

#[test]
fn statements_outside_the_schema_are_left_out() {
    // An import and a float assignment lie outside the internal schema;
    // the annotated assignment between them is kept.
    let source = "import os\nx: int = 1\ny = 1.5\n";
    let stmts = PythonParser::parse_source(source, "test.py").unwrap();
    assert_eq!(stmts.len(), 1);
    assert!(matches!(&stmts[0], Statement::AnnAssign { target, .. } if target == "x"));
}

#[test]
fn keyword_arguments_are_outside_the_schema() {
    // A call with a keyword argument is not misread as a call without
    // it: the whole statement is left out.
    let stmts = PythonParser::parse_source("x = f(1, k=2)
y = f(1)
", "test.py").unwrap();
    assert_eq!(stmts.len(), 1);
    assert!(matches!(&stmts[0], Statement::Assign { targets, .. } if targets[0] == "y"));
}

#[test]
fn decorated_definitions_are_outside_the_schema() {
    // A decorated definition is not misread as an undecorated one.
    let source = "@dec
def f(a: int) -> int:
    a
def g(b: int) -> int:
    b
";
    let stmts = PythonParser::parse_source(source, "test.py").unwrap();
    assert_eq!(stmts.len(), 1);
    assert!(matches!(&stmts[0], Statement::FunctionDef { name, .. } if name == "g"));
}

#[test]
fn error_location_on_later_line() {
    let source = "x = 1\ny = (\n";
    match PythonParser::parse_source(source, "test.py") {
        Err(PyRustError::ParseError { location, .. }) => {
            assert_eq!(location.file, "test.py");
            assert!(location.line >= 2);
        }
        other => panic!("expected a parse error, got {:?}", other),
    }
}

fn assert_expr_files(e: &Expression, path: &str) {
    match e {
        Expression::Name { span, .. } => assert_eq!(span.file, path),
        Expression::Literal { span, .. } => assert_eq!(span.file, path),
        Expression::BinOp { left, right, span, .. } => {
            assert_eq!(span.file, path);
            assert_expr_files(left, path);
            assert_expr_files(right, path);
        }
        Expression::Call { func, args, span } => {
            assert_eq!(span.file, path);
            assert_expr_files(func, path);
            for a in args {
                assert_expr_files(a, path);
            }
        }
    }
}

fn assert_stmt_files(s: &Statement, path: &str) {
    match s {
        Statement::FunctionDef { args, body, span, .. } => {
            assert_eq!(span.file, path);
            assert!(span.start_line >= 1);
            for a in args {
                assert_eq!(a.span.file, path);
            }
            for st in body {
                assert_stmt_files(st, path);
            }
        }
        Statement::AnnAssign { value, span, .. } => {
            assert_eq!(span.file, path);
            if let Some(v) = value {
                assert_expr_files(v, path);
            }
        }
        Statement::Assign { value, span, .. } => {
            assert_eq!(span.file, path);
            assert_expr_files(value, path);
        }
        Statement::Expression { value, span } => {
            assert_eq!(span.file, path);
            assert_expr_files(value, path);
        }
    }
}

#[test]
fn every_span_names_the_path_verbatim() {
    let path = "some/Dir/../odd name.PY";
    let source = "def f(a: int) -> int:\n    a + g(1)\nx = f(2)\n";
    let stmts = PythonParser::parse_source(source, path).unwrap();
    assert_eq!(stmts.len(), 2);
    for s in &stmts {
        assert_stmt_files(s, path);
    }

    match PythonParser::parse_source("def broken(", path) {
        Err(PyRustError::ParseError { location, .. }) => {
            assert_eq!(location.file, path);
        }
        other => panic!("expected a parse error, got {:?}", other),
    }
}

#[test]
fn offset_zero_is_line_one_column_zero() {
    for source in ["", "abc", "\n", "a\nb\nc", "héllo\nwörld"] {
        let (line, col) = PythonParser::offset_to_line_col(source, 0);
        assert_eq!((line, col), (1, 0));
    }
}

#[test]
fn offsets_translate_by_terminator_count() {
    let s = "ab\ncd\ne";
    assert_eq!(PythonParser::offset_to_line_col(s, 1), (1, 1));
    assert_eq!(PythonParser::offset_to_line_col(s, 2), (1, 2));
    assert_eq!(PythonParser::offset_to_line_col(s, 3), (2, 0));
    assert_eq!(PythonParser::offset_to_line_col(s, 5), (2, 2));
    assert_eq!(PythonParser::offset_to_line_col(s, 6), (3, 0));
    assert_eq!(PythonParser::offset_to_line_col(s, 7), (3, 1));
    // Beyond the text, the last line simply extends.
    assert_eq!(PythonParser::offset_to_line_col(s, 100), (3, 94));
    // Consecutive terminators each open a line.
    assert_eq!(PythonParser::offset_to_line_col("\n\nx", 2), (3, 0));
}

#[test]
fn convert_parse_error_locates_the_offset() {
    let e = PythonParser::convert_parse_error(
        4,
        "unexpected token".to_string(),
        "a\nb\nc",
        "m.py",
    );
    match e {
        PyRustError::ParseError { location, message } => {
            assert_eq!(location.file, "m.py");
            assert_eq!(location.line, 3);
            assert_eq!(location.column, 0);
            assert_eq!(message, "unexpected token");
        }
        other => panic!("expected a parse error, got {:?}", other),
    }
}

#[test]
fn io_failures_are_not_parse_failures() {
    // The diagnostic for an unreadable file carries no location.
    let e = PyRustError::IoError("No such file or directory".to_string());
    assert_eq!(e.render(), "IO error: No such file or directory");
    let _ = SourceLocation { file: "x.py".to_string(), line: 1, column: 0 };
}

#[test]
fn expression_mode_failure_is_located() {
    match PythonParser::parse_expression("1 +", "e.py") {
        Err(PyRustError::ParseError { location, .. }) => {
            assert_eq!(location.file, "e.py");
            assert_eq!(location.line, 1);
        }
        other => panic!("expected a parse error, got {:?}", other),
    }
}

#[test]
fn expression_outside_the_schema_gives_an_empty_sequence() {
    let stmts = PythonParser::parse_expression("lambda x: x", "e.py").unwrap();
    assert!(stmts.is_empty());
}
