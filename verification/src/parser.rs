//! The parser adapter: it hands source text to the external grammar
//! parser, lowers the external tree into the internal syntax schema with
//! a span on every node, and translates any failure into a located
//! `ParseError` diagnostic. First error wins; no partial tree ever
//! accompanies a failure.
//!
//! Statement and expression forms outside the internal schema are a
//! documented limitation, not a failure: a top-level statement holding
//! one is left out of the lowered sequence.

use vstd::prelude::*;
use vstd::string::StringSliceAdditionalSpecFns;

use rustpython_parser::ast as py;

use crate::ast::{
    args_in_file, expr_in_file, exprs_in_file, span_in_file, stmt_in_file, stmts_in_file,
    Expression, Literal, Parameter, Statement, TypeAnnotation,
};
use crate::diagnostics::{PyRustError, SourceLocation};
use crate::extparse::{
    arg_parts, args_parts, const_parts, expr_parts, expr_range, op_parts, parse_fail_message,
    parse_fail_offset, parse_fails, parse_text, stmt_parts, stmt_range, ConstParts, ExprParts,
    ParseMode, ParseOutcome, StmtParts,
};
use crate::position::{line_col_from_bytes, spec_col, spec_line};
use crate::span::{span_eq, SourceSpan};

verus! {

/// The machine limit under which source text is handled: the grammar
/// parser's text offsets are 32-bit, so a longer text is not admitted.
pub open spec fn source_fits(source: &str) -> bool {
    source.spec_bytes().len() < u32::MAX
}

/// The diagnostic a failed parse of `path` produces: a `ParseError`
/// naming exactly `path`, carrying the grammar parser's own message,
/// positioned at the line/column translation of the byte offset the
/// grammar parser reported.
pub open spec fn located_parse_error(
    e: PyRustError,
    source: &str,
    path: &str,
    expression_mode: bool,
) -> bool {
    e matches PyRustError::ParseError { location, message } && location.file@ == path@
        && location.line == spec_line(
        source.spec_bytes(),
        parse_fail_offset(source@, expression_mode) as int,
    ) && location.column == spec_col(
        source.spec_bytes(),
        parse_fail_offset(source@, expression_mode) as int,
    ) && message@ == parse_fail_message(source@, expression_mode)
}

/// A one-statement sequence holding a synthesized expression statement
/// that carries the span of its sole child.
pub open spec fn wraps_single_expr(ss: Seq<Statement>) -> bool {
    ss.len() == 1 && (ss[0] matches Statement::Expression { value, span } && span_eq(span, value.span()))
}

/// The adapter around the external grammar parser.
pub struct PythonParser;

impl PythonParser {
    /// Translates a byte offset in `source` into a 1-based line and a
    /// 0-based column: the line is one more than the number of line
    /// terminators strictly before the offset, the column the byte
    /// distance from where that line starts.
    pub fn offset_to_line_col(source: &str, offset: usize) -> (r: (usize, usize))
        requires
            source_fits(source),
        ensures
            r.0 == spec_line(source.spec_bytes(), offset as int),
            r.1 == spec_col(source.spec_bytes(), offset as int),
            r.0 >= 1,
    {
        let b = source.as_bytes();
        line_col_from_bytes(b, offset)
    }

    /// Builds the `ParseError` diagnostic for a failure that the grammar
    /// parser reported at `offset` with `message`, locating it in `path`
    /// by the translation of `offset` into `source`.
    pub fn convert_parse_error(offset: usize, message: String, source: &str, path: &str) -> (e:
        PyRustError)
        requires
            source_fits(source),
        ensures
            e matches PyRustError::ParseError { location, message: m } && m == message
                && location.file@ == path@ && location.line == spec_line(
                source.spec_bytes(),
                offset as int,
            ) && location.column == spec_col(source.spec_bytes(), offset as int),
    {
        let (line, column) = Self::offset_to_line_col(source, offset);
        let location = SourceLocation { file: String::from_str(path), line, column };
        PyRustError::ParseError { location, message }
    }

    /// Parses `source` as a whole module. It fails exactly when the
    /// grammar parser rejects the text, with the located `ParseError`;
    /// on success, the lowered top-level statement sequence, every node
    /// carrying a span in `path`, and empty for empty input.
    pub fn parse_source(source: &str, path: &str) -> (r: Result<Vec<Statement>, PyRustError>)
        requires
            source_fits(source),
        ensures
            r matches Err(_) <==> parse_fails(source@, false),
            match r {
                Ok(stmts) => stmts_in_file(stmts@, path@) && (source@.len() == 0 ==> stmts@.len()
                    == 0),
                Err(e) => located_parse_error(e, source, path, false),
            },
    {
        parse_with(source, path, ParseMode::Module)
    }

    /// Parses `source` as a single expression, for interactive use. It
    /// fails exactly when the grammar parser rejects the text, with the
    /// located `ParseError`. On success the one parsed expression stands
    /// wrapped in a synthesized expression statement carrying the span
    /// of its sole child; an expression outside the internal schema
    /// leaves the sequence empty.
    pub fn parse_expression(source: &str, path: &str) -> (r: Result<Vec<Statement>, PyRustError>)
        requires
            source_fits(source),
        ensures
            r matches Err(_) <==> parse_fails(source@, true),
            match r {
                Ok(stmts) => stmts_in_file(stmts@, path@) && stmts@.len() <= 1 && (stmts@.len() == 1
                    ==> wraps_single_expr(stmts@)),
                Err(e) => located_parse_error(e, source, path, true),
            },
    {
        parse_with(source, path, ParseMode::Expression)
    }
}

/// The span of the byte range `start..end` of `source`, located in
/// `path`: both ends translated by the position model.
fn span_for(source: &str, path: &str, start: usize, end: usize) -> (sp: SourceSpan)
    requires
        source_fits(source),
    ensures
        span_in_file(sp, path@),
        sp.start_line == spec_line(source.spec_bytes(), start as int),
        sp.start_col == spec_col(source.spec_bytes(), start as int),
        sp.end_line == spec_line(source.spec_bytes(), end as int),
        sp.end_col == spec_col(source.spec_bytes(), end as int),
{
    let (start_line, start_col) = PythonParser::offset_to_line_col(source, start);
    let (end_line, end_col) = PythonParser::offset_to_line_col(source, end);
    SourceSpan::new(String::from_str(path), start_line, start_col, end_line, end_col)
}

/// Runs the external parser in the given entry mode and lowers what
/// comes back. Any other top-level tree form than the two lowered ones
/// yields an empty statement sequence: a documented limitation, not a
/// failure.
fn parse_with(source: &str, path: &str, mode: ParseMode) -> (r: Result<Vec<Statement>, PyRustError>)
    requires
        source_fits(source),
    ensures
        r matches Err(_) <==> parse_fails(source@, mode matches ParseMode::Expression),
        match r {
            Ok(stmts) => stmts_in_file(stmts@, path@) && (mode matches ParseMode::Expression
                ==> stmts@.len() <= 1 && (stmts@.len() == 1 ==> wraps_single_expr(stmts@))) && (mode
                matches ParseMode::Module && source@.len() == 0 ==> stmts@.len() == 0),
            Err(e) => located_parse_error(e, source, path, mode matches ParseMode::Expression),
        },
{
    let fuel = source.len() + 1;
    match parse_text(source, mode, path) {
        ParseOutcome::Statements(body) => Ok(lower_stmts(body, source, path, fuel)),
        ParseOutcome::Expression(e) => {
            match lower_expr(e, source, path, fuel) {
                Some(ex) => {
                    let sp = ex.span_ref().duplicate();
                    let stmts = vec![Statement::Expression { value: ex, span: sp }];
                    proof {
                        assert(stmts_in_file(stmts@, path@));
                        assert(wraps_single_expr(stmts@));
                    }
                    Ok(stmts)
                },
                None => Ok(Vec::new()),
            }
        },
        ParseOutcome::OtherTree => Ok(Vec::new()),
        ParseOutcome::Failure { offset, message } => Err(
            PythonParser::convert_parse_error(offset, message, source, path),
        ),
    }
}

/// Lowers a sequence of external statements, keeping the lowered form
/// of each statement the internal schema covers and leaving the others
/// out.
fn lower_stmts(ss: Vec<py::Stmt>, source: &str, path: &str, fuel: usize) -> (r: Vec<Statement>)
    requires
        source_fits(source),
    ensures
        stmts_in_file(r@, path@),
        r@.len() <= ss@.len(),
    decreases fuel, ss@.len(), 1int,
{
    let mut ss = ss;
    if ss.len() == 0 {
        Vec::new()
    } else {
        let first = ss.remove(0);
        let lowered = lower_stmt(first, source, path, fuel);
        let rest = lower_stmts(ss, source, path, fuel);
        match lowered {
            Some(st) => {
                let mut out = rest;
                out.insert(0, st);
                out
            },
            None => rest,
        }
    }
}

/// Lowers one external statement, or nothing when it, or a part it
/// holds, lies outside the internal schema: a decorated or generic
/// definition, a parameter default or star-parameter, and a call with
/// keyword arguments are all declined rather than misread.
fn lower_stmt(s: py::Stmt, source: &str, path: &str, fuel: usize) -> (r: Option<Statement>)
    requires
        source_fits(source),
    ensures
        r matches Some(st) ==> stmt_in_file(st, path@),
    decreases fuel, 0int, 0int,
{
    if fuel == 0 {
        return None;
    }
    let (start, end) = stmt_range(&s);
    let sp = span_for(source, path, start, end);
    match stmt_parts(s) {
        StmtParts::FunctionDef { name, args, return_annotation, body, decorators, type_params } => {
            if decorators.len() > 0 || type_params.len() > 0 {
                return None;
            }
            let ap = args_parts(args);
            if ap.posonlyargs.len() > 0 || ap.vararg.is_some() || ap.kwonlyargs.len() > 0
                || ap.kwarg.is_some() {
                return None;
            }
            let lowered_args = match lower_args(ap.args, source, path) {
                Some(v) => v,
                None => { return None; },
            };
            let lowered_return = match return_annotation {
                Some(e) => match lower_annotation(e) {
                    Some(t) => Some(t),
                    None => { return None; },
                },
                None => None,
            };
            let lowered_body = lower_stmts(body, source, path, fuel - 1);
            Some(
                Statement::FunctionDef {
                    name,
                    args: lowered_args,
                    return_annotation: lowered_return,
                    body: lowered_body,
                    span: sp,
                },
            )
        },
        StmtParts::AnnAssign { target, annotation, value } => {
            let target_name = match expr_parts(target) {
                ExprParts::Name(id) => id,
                _ => { return None; },
            };
            let lowered_annotation = match lower_annotation(annotation) {
                Some(t) => t,
                None => { return None; },
            };
            let lowered_value = match value {
                Some(e) => match lower_expr(e, source, path, fuel - 1) {
                    Some(x) => Some(x),
                    None => { return None; },
                },
                None => None,
            };
            Some(
                Statement::AnnAssign {
                    target: target_name,
                    annotation: lowered_annotation,
                    value: lowered_value,
                    span: sp,
                },
            )
        },
        StmtParts::Assign { targets, value } => {
            let target_names = match lower_name_targets(targets) {
                Some(v) => v,
                None => { return None; },
            };
            let lowered_value = match lower_expr(value, source, path, fuel - 1) {
                Some(x) => x,
                None => { return None; },
            };
            Some(Statement::Assign { targets: target_names, value: lowered_value, span: sp })
        },
        StmtParts::ExprStmt { value } => {
            let lowered_value = match lower_expr(value, source, path, fuel - 1) {
                Some(x) => x,
                None => { return None; },
            };
            Some(Statement::Expression { value: lowered_value, span: sp })
        },
        StmtParts::Other => None,
    }
}

/// Lowers one external expression, or nothing when a part of it lies
/// outside the internal schema.
fn lower_expr(e: py::Expr, source: &str, path: &str, fuel: usize) -> (r: Option<Expression>)
    requires
        source_fits(source),
    ensures
        r matches Some(ex) ==> expr_in_file(ex, path@),
    decreases fuel, 0int, 0int,
{
    if fuel == 0 {
        return None;
    }
    let (start, end) = expr_range(&e);
    let sp = span_for(source, path, start, end);
    match expr_parts(e) {
        ExprParts::Name(id) => Some(Expression::Name { id, span: sp }),
        ExprParts::Literal(c) => match const_parts(c) {
            ConstParts::Int(v) => Some(Expression::Literal { value: Literal::Int(v), span: sp }),
            ConstParts::Str(s) => Some(Expression::Literal { value: Literal::Str(s), span: sp }),
            ConstParts::Bool(b) => Some(Expression::Literal { value: Literal::Bool(b), span: sp }),
            ConstParts::NoneLit => Some(Expression::Literal { value: Literal::NoneLit, span: sp }),
            ConstParts::Other => None,
        },
        ExprParts::BinOp(left, op, right) => {
            let lowered_op = match op_parts(op) {
                Some(o) => o,
                None => { return None; },
            };
            let lowered_left = match lower_expr(left, source, path, fuel - 1) {
                Some(x) => x,
                None => { return None; },
            };
            let lowered_right = match lower_expr(right, source, path, fuel - 1) {
                Some(x) => x,
                None => { return None; },
            };
            Some(
                Expression::BinOp {
                    left: Box::new(lowered_left),
                    op: lowered_op,
                    right: Box::new(lowered_right),
                    span: sp,
                },
            )
        },
        ExprParts::Call(func, args, keywords) => {
            if keywords.len() > 0 {
                return None;
            }
            let lowered_func = match lower_expr(func, source, path, fuel - 1) {
                Some(x) => x,
                None => { return None; },
            };
            let lowered_args = match lower_exprs(args, source, path, fuel - 1) {
                Some(v) => v,
                None => { return None; },
            };
            Some(
                Expression::Call {
                    func: Box::new(lowered_func),
                    args: lowered_args,
                    span: sp,
                },
            )
        },
        ExprParts::Other => None,
    }
}

/// Lowers a sequence of external expressions, all or nothing: a call's
/// argument list is kept whole or the call is not lowered.
fn lower_exprs(es: Vec<py::Expr>, source: &str, path: &str, fuel: usize) -> (r: Option<Vec<Expression>>)
    requires
        source_fits(source),
    ensures
        r matches Some(v) ==> exprs_in_file(v@, path@) && v@.len() == es@.len(),
    decreases fuel, es@.len(), 1int,
{
    let mut es = es;
    if es.len() == 0 {
        Some(Vec::new())
    } else {
        let first = es.remove(0);
        let lowered = match lower_expr(first, source, path, fuel) {
            Some(x) => x,
            None => { return None; },
        };
        match lower_exprs(es, source, path, fuel) {
            Some(rest) => {
                let mut out = rest;
                out.insert(0, lowered);
                Some(out)
            },
            None => None,
        }
    }
}

/// Lowers an annotation expression: only a bare name is an annotation
/// of the internal schema.
fn lower_annotation(e: py::Expr) -> (r: Option<TypeAnnotation>) {
    match expr_parts(e) {
        ExprParts::Name(id) => Some(TypeAnnotation::Name(id)),
        _ => None,
    }
}

/// Lowers assignment targets: every target must be a bare name.
fn lower_name_targets(es: Vec<py::Expr>) -> (r: Option<Vec<String>>)
    ensures
        r matches Some(v) ==> v@.len() == es@.len(),
    decreases es@.len(),
{
    let mut es = es;
    if es.len() == 0 {
        Some(Vec::new())
    } else {
        let first = es.remove(0);
        let name = match expr_parts(first) {
            ExprParts::Name(id) => id,
            _ => { return None; },
        };
        match lower_name_targets(es) {
            Some(rest) => {
                let mut out = rest;
                out.insert(0, name);
                Some(out)
            },
            None => None,
        }
    }
}

/// Lowers a parameter list: every parameter must be a bare name with at
/// most a bare-name annotation and no default.
fn lower_args(aws: Vec<py::ArgWithDefault>, source: &str, path: &str) -> (r: Option<Vec<Parameter>>)
    requires
        source_fits(source),
    ensures
        r matches Some(v) ==> args_in_file(v@, path@) && v@.len() == aws@.len(),
    decreases aws@.len(),
{
    let mut aws = aws;
    if aws.len() == 0 {
        Some(Vec::new())
    } else {
        let first = aws.remove(0);
        let p = arg_parts(first);
        if p.default.is_some() {
            return None;
        }
        let annotation = match p.annotation {
            Some(e) => match lower_annotation(e) {
                Some(t) => Some(t),
                None => { return None; },
            },
            None => None,
        };
        let sp = span_for(source, path, p.start, p.end);
        let arg = Parameter { name: p.name, annotation, span: sp };
        match lower_args(aws, source, path) {
            Some(rest) => {
                let mut out = rest;
                out.insert(0, arg);
                Some(out)
            },
            None => None,
        }
    }
}

} // verus!
