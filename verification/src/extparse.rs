//! The boundary around the external grammar parser, `rustpython_parser`.
//!
//! The parser is a black box with the contract "given text and an entry
//! mode, it returns a tree or a byte offset and a message". Everything
//! here either declares its types or moves one level of one of its tree
//! nodes into plain values; all grammar recognition stays on its side,
//! and all error translation and lowering stay on the verified side.

use vstd::prelude::*;
use vstd::string::StringSliceAdditionalSpecFns;

use rustpython_parser::ast as py;
use rustpython_parser::ast::Ranged;
use rustpython_parser::text_size::TextRange;

verus! {

#[verifier::external_type_specification]
#[verifier::external_body]
pub struct ExTextRange(TextRange);

#[verifier::external_type_specification]
#[verifier::external_body]
#[verifier::reject_recursive_types(R)]
pub struct ExStmt<R>(py::Stmt<R>);

#[verifier::external_type_specification]
#[verifier::external_body]
#[verifier::reject_recursive_types(R)]
pub struct ExExpr<R>(py::Expr<R>);

#[verifier::external_type_specification]
#[verifier::external_body]
#[verifier::reject_recursive_types(R)]
pub struct ExArguments<R>(py::Arguments<R>);

#[verifier::external_type_specification]
#[verifier::external_body]
#[verifier::reject_recursive_types(R)]
pub struct ExArgWithDefault<R>(py::ArgWithDefault<R>);

#[verifier::external_type_specification]
#[verifier::external_body]
#[verifier::reject_recursive_types(R)]
pub struct ExArg<R>(py::Arg<R>);

#[verifier::external_type_specification]
#[verifier::external_body]
#[verifier::reject_recursive_types(R)]
pub struct ExKeyword<R>(py::Keyword<R>);

#[verifier::external_type_specification]
#[verifier::external_body]
#[verifier::reject_recursive_types(R)]
pub struct ExTypeParam<R>(py::TypeParam<R>);

#[verifier::external_type_specification]
#[verifier::external_body]
pub struct ExConstant(py::Constant);

#[verifier::external_type_specification]
#[verifier::external_body]
pub struct ExOperator(py::Operator);

/// The grammar parser's entry mode: parse a whole module, or a single
/// expression.
#[derive(Debug, Clone, Copy, PartialEq, Eq)]
pub enum ParseMode {
    Module,
    Expression,
}

/// What one call of the grammar parser comes back with, one level deep:
/// a module's statement list, a single expression, some other tree form,
/// or a failure with its byte offset and message.
pub(crate) enum ParseOutcome {
    Statements(Vec<py::Stmt>),
    Expression(py::Expr),
    OtherTree,
    Failure { offset: usize, message: String },
}

/// Whether the grammar parser rejects this text in this entry mode.
/// Its outcome depends on the text and the mode alone.
pub uninterp spec fn parse_fails(source: Seq<char>, expression_mode: bool) -> bool;

/// The byte offset at which the grammar parser reports its failure.
pub uninterp spec fn parse_fail_offset(source: Seq<char>, expression_mode: bool) -> nat;

/// The message with which the grammar parser reports its failure.
pub uninterp spec fn parse_fail_message(source: Seq<char>, expression_mode: bool) -> Seq<char>;

/// The outcome is a statement list with nothing in it.
pub(crate) open spec fn empty_statements(r: ParseOutcome) -> bool {
    r matches ParseOutcome::Statements(body) && body@.len() == 0
}

/// Relies on `rustpython_parser::parse`: it recognizes the grammar for
/// the given entry mode and on failure reports a byte offset and a
/// message, all a function of the text and the mode alone. Its text
/// offsets are 32-bit and advance with unchecked addition, so a source
/// of `u32::MAX` bytes or more is left out by `requires`. Its grammar
/// reaches the module production only from the module entry mode and
/// the expression production only from the expression entry mode, so a
/// success never carries the other mode's tree; and the module grammar
/// derives empty text to an empty statement list.
#[verifier::external_body]
pub(crate) fn parse_text(source: &str, mode: ParseMode, path: &str) -> (r: ParseOutcome)
    requires
        source.spec_bytes().len() < u32::MAX,
    ensures
        r matches ParseOutcome::Failure { .. } <==> parse_fails(
            source@,
            mode matches ParseMode::Expression,
        ),
        r matches ParseOutcome::Failure { offset, .. } ==> offset == parse_fail_offset(
            source@,
            mode matches ParseMode::Expression,
        ),
        r matches ParseOutcome::Failure { message, .. } ==> message@ == parse_fail_message(
            source@,
            mode matches ParseMode::Expression,
        ),
        mode matches ParseMode::Module ==> !(r matches ParseOutcome::Expression(_)) && !(r
            matches ParseOutcome::OtherTree),
        mode matches ParseMode::Expression ==> !(r matches ParseOutcome::Statements(_)) && !(r
            matches ParseOutcome::OtherTree),
        (mode matches ParseMode::Module && source@.len() == 0) ==> empty_statements(r),
{
    let ext_mode = match mode {
        ParseMode::Module => rustpython_parser::Mode::Module,
        ParseMode::Expression => rustpython_parser::Mode::Expression,
    };
    match rustpython_parser::parse(source, ext_mode, path) {
        Ok(py::Mod::Module(m)) => ParseOutcome::Statements(m.body),
        Ok(py::Mod::Expression(e)) => ParseOutcome::Expression(*e.body),
        Ok(_) => ParseOutcome::OtherTree,
        Err(e) => ParseOutcome::Failure {
            offset: e.offset.to_usize(),
            message: e.error.to_string(),
        },
    }
}

/// One statement of the external tree, one level deep, in plain values;
/// nested nodes stay external. `Other` stands for every statement form
/// outside the internal schema.
pub(crate) enum StmtParts {
    FunctionDef {
        name: String,
        args: py::Arguments,
        return_annotation: Option<py::Expr>,
        body: Vec<py::Stmt>,
        decorators: Vec<py::Expr>,
        type_params: Vec<py::TypeParam>,
    },
    AnnAssign { target: py::Expr, annotation: py::Expr, value: Option<py::Expr> },
    Assign { targets: Vec<py::Expr>, value: py::Expr },
    ExprStmt { value: py::Expr },
    Other,
}

/// One expression of the external tree, one level deep. `Other` stands
/// for every expression form outside the internal schema.
pub(crate) enum ExprParts {
    Name(String),
    Literal(py::Constant),
    BinOp(py::Expr, py::Operator, py::Expr),
    Call(py::Expr, Vec<py::Expr>, Vec<py::Keyword>),
    Other,
}

/// A literal constant of the external tree, in plain values. `Other`
/// stands for the forms outside the internal schema: floats, complex
/// numbers, byte strings, tuples, ellipses, and integers beyond `i64`.
pub(crate) enum ConstParts {
    Int(i64),
    Str(String),
    Bool(bool),
    NoneLit,
    Other,
}

/// The parameter lists of an external function definition, moved out
/// field by field.
pub(crate) struct ArgsParts {
    pub posonlyargs: Vec<py::ArgWithDefault>,
    pub args: Vec<py::ArgWithDefault>,
    pub vararg: Option<Box<py::Arg>>,
    pub kwonlyargs: Vec<py::ArgWithDefault>,
    pub kwarg: Option<Box<py::Arg>>,
}

/// One external parameter: its name, annotation, default if any, and
/// the byte range of the parameter itself.
pub(crate) struct ArgParts {
    pub name: String,
    pub annotation: Option<py::Expr>,
    pub default: Option<py::Expr>,
    pub start: usize,
    pub end: usize,
}

/// Unboxes an external expression when one is there, moving nothing
/// else.
#[verifier::external_body]
pub(crate) fn opt_unbox(o: Option<Box<py::Expr>>) -> (r: Option<py::Expr>) {
    match o {
        Some(b) => Some(*b),
        None => None,
    }
}

/// Relies on `rustpython_parser::ast::Stmt`'s `range` field: the byte
/// range of the statement in the parsed text, as `(start, end)`.
#[verifier::external_body]
pub(crate) fn stmt_range(s: &py::Stmt) -> (r: (usize, usize)) {
    let range = s.range();
    (range.start().to_usize(), range.end().to_usize())
}

/// Relies on `rustpython_parser::ast::Expr`'s `range` field: the byte
/// range of the expression in the parsed text, as `(start, end)`.
#[verifier::external_body]
pub(crate) fn expr_range(e: &py::Expr) -> (r: (usize, usize)) {
    let range = e.range();
    (range.start().to_usize(), range.end().to_usize())
}

/// Relies on the variants of `rustpython_parser::ast::Stmt`: tells the
/// four statement forms of the internal schema apart and moves their
/// fields out, a definition's decorators and type parameters included.
#[verifier::external_body]
pub(crate) fn stmt_parts(s: py::Stmt) -> (r: StmtParts) {
    match s {
        py::Stmt::FunctionDef(f) => StmtParts::FunctionDef {
            name: String::from(f.name), args: *f.args, body: f.body,
            return_annotation: opt_unbox(f.returns),
            decorators: f.decorator_list, type_params: f.type_params,
        },
        py::Stmt::AnnAssign(a) => StmtParts::AnnAssign {
            target: *a.target, annotation: *a.annotation, value: opt_unbox(a.value),
        },
        py::Stmt::Assign(a) => StmtParts::Assign { targets: a.targets, value: *a.value },
        py::Stmt::Expr(e) => StmtParts::ExprStmt { value: *e.value },
        _ => StmtParts::Other,
    }
}

/// Relies on the variants of `rustpython_parser::ast::Expr`: tells the
/// four expression forms of the internal schema apart and moves their
/// fields out, a call's keyword arguments included.
#[verifier::external_body]
pub(crate) fn expr_parts(e: py::Expr) -> (r: ExprParts) {
    match e {
        py::Expr::Name(n) => ExprParts::Name(String::from(n.id)),
        py::Expr::Constant(c) => ExprParts::Literal(c.value),
        py::Expr::BinOp(b) => ExprParts::BinOp(*b.left, b.op, *b.right),
        py::Expr::Call(c) => ExprParts::Call(*c.func, c.args, c.keywords),
        _ => ExprParts::Other,
    }
}

/// Relies on the variants of `rustpython_parser::ast::Constant` and on
/// `i64::try_from(&BigInt)`: moves a literal into plain values.
#[verifier::external_body]
pub(crate) fn const_parts(c: py::Constant) -> (r: ConstParts) {
    match c {
        py::Constant::None => ConstParts::NoneLit,
        py::Constant::Bool(b) => ConstParts::Bool(b),
        py::Constant::Str(s) => ConstParts::Str(s),
        py::Constant::Int(i) => match i64::try_from(&i) {
            Ok(v) => ConstParts::Int(v),
            Err(_) => ConstParts::Other,
        },
        _ => ConstParts::Other,
    }
}

/// Relies on the variants of `rustpython_parser::ast::Operator`: tells
/// the four operators of the internal schema apart.
#[verifier::external_body]
pub(crate) fn op_parts(op: py::Operator) -> (r: Option<crate::ast::BinOp>) {
    match op {
        py::Operator::Add => Some(crate::ast::BinOp::Add),
        py::Operator::Sub => Some(crate::ast::BinOp::Sub),
        py::Operator::Mult => Some(crate::ast::BinOp::Mult),
        py::Operator::Div => Some(crate::ast::BinOp::Div),
        _ => None,
    }
}

/// Relies on the fields of `rustpython_parser::ast::Arguments`: moves
/// the parameter lists out.
#[verifier::external_body]
pub(crate) fn args_parts(a: py::Arguments) -> (r: ArgsParts) {
    ArgsParts {
        posonlyargs: a.posonlyargs,
        args: a.args,
        vararg: a.vararg,
        kwonlyargs: a.kwonlyargs,
        kwarg: a.kwarg,
    }
}

/// Relies on the fields of `rustpython_parser::ast::ArgWithDefault`:
/// moves one parameter's name, annotation, default and range out.
#[verifier::external_body]
pub(crate) fn arg_parts(a: py::ArgWithDefault) -> (r: ArgParts) {
    ArgParts {
        name: String::from(a.def.arg),
        annotation: opt_unbox(a.def.annotation),
        default: opt_unbox(a.default),
        start: a.def.range.start().to_usize(),
        end: a.def.range.end().to_usize(),
    }
}

} // verus!
