//! The internal syntax schema: closed statement and expression variants,
//! each owning exactly one span, for the semantic phases to dispatch over
//! exhaustively.

use vstd::prelude::*;

use crate::span::SourceSpan;

verus! {

/// A statement of the checked language.
#[derive(Debug)]
pub enum Statement {
    FunctionDef {
        name: String,
        args: Vec<Parameter>,
        return_annotation: Option<TypeAnnotation>,
        body: Vec<Statement>,
        span: SourceSpan,
    },
    AnnAssign { target: String, annotation: TypeAnnotation, value: Option<Expression>, span: SourceSpan },
    Assign { targets: Vec<String>, value: Expression, span: SourceSpan },
    Expression { value: Expression, span: SourceSpan },
}

/// A function parameter: a name, an optional annotation, and its span.
#[derive(Debug, Clone, PartialEq)]
pub struct Parameter {
    pub name: String,
    pub annotation: Option<TypeAnnotation>,
    pub span: SourceSpan,
}

/// A type annotation. Only a bare name for now; meant to grow into
/// unions and generics later.
#[derive(Debug, Clone, PartialEq)]
pub enum TypeAnnotation {
    Name(String),
}

/// An expression of the checked language.
#[derive(Debug)]
pub enum Expression {
    Name { id: String, span: SourceSpan },
    Literal { value: Literal, span: SourceSpan },
    BinOp { left: Box<Expression>, op: BinOp, right: Box<Expression>, span: SourceSpan },
    Call { func: Box<Expression>, args: Vec<Expression>, span: SourceSpan },
}

/// A literal constant. Floating-point literals are outside this schema:
/// a statement holding one is not lowered.
#[derive(Debug, Clone, PartialEq)]
pub enum Literal {
    Int(i64),
    Str(String),
    Bool(bool),
    NoneLit,
}

/// A binary operator.
#[derive(Debug, Clone, PartialEq)]
pub enum BinOp {
    Add,
    Sub,
    Mult,
    Div,
}

impl Expression {
    /// The one span this expression owns.
    pub open spec fn span(self) -> SourceSpan {
        match self {
            Expression::Name { span, .. } => span,
            Expression::Literal { span, .. } => span,
            Expression::BinOp { span, .. } => span,
            Expression::Call { span, .. } => span,
        }
    }

    /// The one span this expression owns.
    pub fn span_ref(&self) -> (s: &SourceSpan)
        ensures
            *s == self.span(),
    {
        match self {
            Expression::Name { span, .. } => span,
            Expression::Literal { span, .. } => span,
            Expression::BinOp { span, .. } => span,
            Expression::Call { span, .. } => span,
        }
    }
}

impl Statement {
    /// The one span this statement owns.
    pub open spec fn span(self) -> SourceSpan {
        match self {
            Statement::FunctionDef { span, .. } => span,
            Statement::AnnAssign { span, .. } => span,
            Statement::Assign { span, .. } => span,
            Statement::Expression { span, .. } => span,
        }
    }
}

/// A span that a parse of `file` may produce: it names that file
/// exactly, and its lines are 1-based.
pub open spec fn span_in_file(sp: SourceSpan, file: Seq<char>) -> bool {
    &&& sp.file@ == file
    &&& sp.start_line >= 1
    &&& sp.end_line >= 1
}

/// Every span in the expression, the node's own included, lies in `file`.
pub open spec fn expr_in_file(e: Expression, file: Seq<char>) -> bool
    decreases e,
{
    &&& span_in_file(e.span(), file)
    &&& match e {
        Expression::Name { .. } => true,
        Expression::Literal { .. } => true,
        Expression::BinOp { left, right, .. } => expr_in_file(*left, file) && expr_in_file(*right, file),
        Expression::Call { func, args, .. } => expr_in_file(*func, file) && (forall|i: int|
            0 <= i < args@.len() ==> expr_in_file(#[trigger] args@[i], file)),
    }
}

/// Every span in the annotation lies in `file`. An annotation carries no
/// span of its own yet; the predicate is total over the variants so that
/// richer annotations keep the same statement.
pub open spec fn annotation_in_file(t: TypeAnnotation, file: Seq<char>) -> bool {
    match t {
        TypeAnnotation::Name(_) => true,
    }
}

/// Every span in the parameter lies in `file`.
pub open spec fn arg_in_file(a: Parameter, file: Seq<char>) -> bool {
    &&& span_in_file(a.span, file)
    &&& match a.annotation {
        Some(t) => annotation_in_file(t, file),
        None => true,
    }
}

/// Every span in the statement, nested statements and expressions
/// included, lies in `file`.
pub open spec fn stmt_in_file(s: Statement, file: Seq<char>) -> bool
    decreases s,
{
    &&& span_in_file(s.span(), file)
    &&& match s {
        Statement::FunctionDef { args, return_annotation, body, .. } => {
            &&& forall|i: int| 0 <= i < args@.len() ==> arg_in_file(#[trigger] args@[i], file)
            &&& match return_annotation {
                Some(t) => annotation_in_file(t, file),
                None => true,
            }
            &&& forall|i: int| 0 <= i < body@.len() ==> stmt_in_file(#[trigger] body@[i], file)
        },
        Statement::AnnAssign { annotation, value, .. } => {
            &&& annotation_in_file(annotation, file)
            &&& match value {
                Some(e) => expr_in_file(e, file),
                None => true,
            }
        },
        Statement::Assign { value, .. } => expr_in_file(value, file),
        Statement::Expression { value, .. } => expr_in_file(value, file),
    }
}

/// Every span in the expression sequence lies in `file`.
pub open spec fn exprs_in_file(es: Seq<Expression>, file: Seq<char>) -> bool {
    forall|i: int| 0 <= i < es.len() ==> expr_in_file(#[trigger] es[i], file)
}

/// Every span in the parameter sequence lies in `file`.
pub open spec fn args_in_file(aa: Seq<Parameter>, file: Seq<char>) -> bool {
    forall|i: int| 0 <= i < aa.len() ==> arg_in_file(#[trigger] aa[i], file)
}

/// Every span in the statement sequence lies in `file`.
pub open spec fn stmts_in_file(ss: Seq<Statement>, file: Seq<char>) -> bool {
    forall|i: int| 0 <= i < ss.len() ==> stmt_in_file(#[trigger] ss[i], file)
}

} // verus!
