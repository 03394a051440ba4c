use pyrust_check::decfmt::usize_to_string;
use pyrust_check::diagnostics::SourceLocation;
use pyrust_check::span::SourceSpan;
use pyrust_check::PyRustError;

#[test]
fn decimal_rendering_is_exact() {
    assert_eq!(usize_to_string(0), "0");
    assert_eq!(usize_to_string(7), "7");
    assert_eq!(usize_to_string(10), "10");
    assert_eq!(usize_to_string(1203), "1203");
    assert_eq!(usize_to_string(usize::MAX), format!("{}", usize::MAX));
}

#[test]
fn location_renders_as_file_line_column() {
    let loc = SourceLocation { file: "dir/a.py".to_string(), line: 12, column: 5 };
    assert_eq!(loc.render(), "dir/a.py:12:5");
}

#[test]
fn parse_error_renders_with_location() {
    let e = PyRustError::ParseError {
        location: SourceLocation { file: "a.py".to_string(), line: 2, column: 5 },
        message: "bad input".to_string(),
    };
    assert_eq!(e.render(), "Parse error at a.py:2:5: bad input");
}

#[test]
fn type_error_renders_with_location() {
    let e = PyRustError::TypeError {
        location: SourceLocation { file: "f.py".to_string(), line: 9, column: 3 },
        message: "mismatch".to_string(),
    };
    assert_eq!(e.render(), "Type error at f.py:9:3: mismatch");
}

#[test]
fn undefined_name_renders_with_quotes() {
    let e = PyRustError::UndefinedName {
        name: "total".to_string(),
        location: SourceLocation { file: "f.py".to_string(), line: 1, column: 0 },
    };
    assert_eq!(e.render(), "Undefined name 'total' at f.py:1:0");
}

#[test]
fn span_new_keeps_its_fields() {
    let sp = SourceSpan::new("a.py".to_string(), 1, 2, 3, 4);
    assert_eq!(sp.file, "a.py");
    assert_eq!(sp.start_line, 1);
    assert_eq!(sp.start_col, 2);
    assert_eq!(sp.end_line, 3);
    assert_eq!(sp.end_col, 4);
    assert_eq!(sp.render(), "a.py:1:2");
}

#[test]
fn unknown_span_is_the_sentinel() {
    let sp = SourceSpan::unknown();
    assert_eq!(sp.file, "<unknown>");
    assert_eq!(sp.start_line, 0);
    assert_eq!(sp.start_col, 0);
    assert_eq!(sp.end_line, 0);
    assert_eq!(sp.end_col, 0);
}
