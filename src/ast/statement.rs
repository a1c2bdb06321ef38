use vstd::prelude::*;
use crate::ast::expression::ExprType;
use crate::ast::list::ListType;
use crate::utils::SourcePosition;

verus! {

/// A statement.
#[derive(Debug, PartialEq)]
pub enum StmtType {
    BreakStmt(BreakStmt),
    CompoundStmt(CompoundStmt),
    ContinueStmt(ContinueStmt),
    EmptyCompoundStmt(EmptyCompoundStmt),
    EmptyStmt(EmptyStmt),
    ExprStmt(ExprStmt),
    ForStmt(ForStmt),
    IfStmt(IfStmt),
    ReturnStmt(ReturnStmt),
    WhileStmt(WhileStmt),
}

/// `break;`
#[derive(Clone, Copy, Debug, PartialEq, Eq, Structural)]
pub struct BreakStmt {
    pub source_position: SourcePosition,
}

impl BreakStmt {
    pub fn new(source_position: SourcePosition) -> (r: Self)
        ensures
            r.source_position == source_position,
    {
        Self { source_position }
    }
}

/// A block: local declarations, then statements.
#[derive(Debug, PartialEq)]
pub struct CompoundStmt {
    pub decl_list: Box<ListType>,
    pub stmt_list: Box<ListType>,
    pub source_position: SourcePosition,
}

impl CompoundStmt {
    pub fn new(decl_list: Box<ListType>, stmt_list: Box<ListType>, source_position: SourcePosition) -> (r: Self)
        ensures
            r.decl_list == decl_list,
            r.stmt_list == stmt_list,
            r.source_position == source_position,
    {
        Self { decl_list, stmt_list, source_position }
    }
}

/// `continue;`
#[derive(Clone, Copy, Debug, PartialEq, Eq, Structural)]
pub struct ContinueStmt {
    pub source_position: SourcePosition,
}

impl ContinueStmt {
    pub fn new(source_position: SourcePosition) -> (r: Self)
        ensures
            r.source_position == source_position,
    {
        Self { source_position }
    }
}

/// The absent else branch of an `if`.
#[derive(Clone, Copy, Debug, PartialEq, Eq, Structural)]
pub struct EmptyStmt {
    pub source_position: SourcePosition,
}

impl EmptyStmt {
    pub fn new(source_position: SourcePosition) -> (r: Self)
        ensures
            r.source_position == source_position,
    {
        Self { source_position }
    }
}

/// An expression statement; the expression may be empty.
#[derive(Debug, PartialEq)]
pub struct ExprStmt {
    pub source_position: SourcePosition,
    pub expr: ExprType,
}

impl ExprStmt {
    pub fn new(source_position: SourcePosition, e: ExprType) -> (r: Self)
        ensures
            r.source_position == source_position,
            r.expr == e,
    {
        Self { source_position, expr: e }
    }
}

/// A block with nothing in it.
#[derive(Clone, Copy, Debug, PartialEq, Eq, Structural)]
pub struct EmptyCompoundStmt {
    pub source_position: SourcePosition,
}

impl EmptyCompoundStmt {
    pub fn new(source_position: SourcePosition) -> (r: Self)
        ensures
            r.source_position == source_position,
    {
        Self { source_position }
    }
}

/// `for (e1; e2; e3) stmt`; each expression may be empty.
#[derive(Debug, PartialEq)]
pub struct ForStmt {
    pub source_position: SourcePosition,
    pub expr_1: Box<ExprType>,
    pub expr_2: Box<ExprType>,
    pub expr_3: Box<ExprType>,
    pub stmt: Box<StmtType>,
}

impl ForStmt {
    pub fn new(source_position: SourcePosition, expr_1: Box<ExprType>, expr_2: Box<ExprType>, expr_3: Box<ExprType>, stmt: Box<StmtType>) -> (r: Self)
        ensures
            r.source_position == source_position,
            r.expr_1 == expr_1,
            r.expr_2 == expr_2,
            r.expr_3 == expr_3,
            r.stmt == stmt,
    {
        Self { source_position, expr_1, expr_2, expr_3, stmt }
    }
}

/// `if (expr) stmt_1 else stmt_2`; `stmt_2` is an `EmptyStmt` when there is no else branch.
#[derive(Debug, PartialEq)]
pub struct IfStmt {
    pub source_position: SourcePosition,
    pub expr: Box<ExprType>,
    pub stmt_1: Box<StmtType>,
    pub stmt_2: Box<StmtType>,
}

impl IfStmt {
    pub fn new(source_position: SourcePosition, expr: Box<ExprType>, stmt_1: Box<StmtType>, stmt_2: Box<StmtType>) -> (r: Self)
        ensures
            r.source_position == source_position,
            r.expr == expr,
            r.stmt_1 == stmt_1,
            r.stmt_2 == stmt_2,
    {
        Self { source_position, expr, stmt_1, stmt_2 }
    }
}

/// `return expr;`; the expression may be empty.
#[derive(Debug, PartialEq)]
pub struct ReturnStmt {
    pub source_position: SourcePosition,
    pub expr: Box<ExprType>,
}

impl ReturnStmt {
    pub fn new(source_position: SourcePosition, expr: Box<ExprType>) -> (r: Self)
        ensures
            r.source_position == source_position,
            r.expr == expr,
    {
        Self { source_position, expr }
    }
}

/// `while (expr) stmt`
#[derive(Debug, PartialEq)]
pub struct WhileStmt {
    pub source_position: SourcePosition,
    pub expr: Box<ExprType>,
    pub stmt: Box<StmtType>,
}

impl WhileStmt {
    pub fn new(source_position: SourcePosition, expr: Box<ExprType>, stmt: Box<StmtType>) -> (r: Self)
        ensures
            r.source_position == source_position,
            r.expr == expr,
            r.stmt == stmt,
    {
        Self { source_position, expr, stmt }
    }
}

} // verus!
