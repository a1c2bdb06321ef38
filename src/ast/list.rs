use vstd::prelude::*;
use crate::ast::decl::{DeclType, ParaDecl};
use crate::ast::expression::ExprType;
use crate::ast::statement::StmtType;
use crate::utils::SourcePosition;

verus! {

/// The lists of the tree: cons cells, each list ending in its own empty node.
#[derive(Debug, PartialEq)]
pub enum ListType {
    ArgList(ArgList),
    DeclList(DeclList),
    EmptyArgList(EmptyArgList),
    EmptyDeclList(EmptyDeclList),
    EmptyArrayExprList(EmptyArrayExprList),
    ArrayExprList(ArrayExprList),
    EmptyStmtList(EmptyStmtList),
    StmtList(StmtList),
    ParamList(ParamList),
    EmptyParamList(EmptyParamList),
}

/// An element of an array initialiser and the rest of the list.
#[derive(Debug, PartialEq)]
pub struct ArrayExprList {
    pub source_position: SourcePosition,
    pub expression: ExprType,
    pub expr_list: Box<ListType>,
}

impl ArrayExprList {
    pub fn new(source_position: SourcePosition, expression: ExprType, expr_list: Box<ListType>) -> (r: Self)
        ensures
            r.source_position == source_position,
            r.expression == expression,
            r.expr_list == expr_list,
    {
        Self { source_position, expression, expr_list }
    }
}

/// An argument and the rest of the argument list.
#[derive(Debug, PartialEq)]
pub struct ArgList {
    pub source_position: SourcePosition,
    pub arg: ExprType,
    pub arg_list: Box<ListType>,
}

impl ArgList {
    pub fn new(source_position: SourcePosition, arg: ExprType, arg_list: Box<ListType>) -> (r: Self)
        ensures
            r.source_position == source_position,
            r.arg == arg,
            r.arg_list == arg_list,
    {
        Self { source_position, arg, arg_list }
    }
}

/// A declaration and the rest of the declaration list.
#[derive(Debug, PartialEq)]
pub struct DeclList {
    pub source_position: SourcePosition,
    pub decl_type: Box<DeclType>,
    pub decl_list: Box<ListType>,
}

impl DeclList {
    pub fn new(source_position: SourcePosition, decl_type: Box<DeclType>, decl_list: Box<ListType>) -> (r: Self)
        ensures
            r.source_position == source_position,
            r.decl_type == decl_type,
            r.decl_list == decl_list,
    {
        Self { source_position, decl_type, decl_list }
    }
}

/// The end of an argument list.
#[derive(Clone, Copy, Debug, PartialEq, Eq, Structural)]
pub struct EmptyArgList {
    pub source_position: SourcePosition,
}

impl EmptyArgList {
    pub fn new(source_position: SourcePosition) -> (r: Self)
        ensures
            r.source_position == source_position,
    {
        Self { source_position }
    }
}

/// The end of a declaration list.
#[derive(Clone, Copy, Debug, PartialEq, Eq, Structural)]
pub struct EmptyDeclList {
    pub source_position: SourcePosition,
}

impl EmptyDeclList {
    pub fn new(source_position: SourcePosition) -> (r: Self)
        ensures
            r.source_position == source_position,
    {
        Self { source_position }
    }
}

/// The end of an array initialiser list.
#[derive(Clone, Copy, Debug, PartialEq, Eq, Structural)]
pub struct EmptyArrayExprList {
    pub source_position: SourcePosition,
}

impl EmptyArrayExprList {
    pub fn new(source_position: SourcePosition) -> (r: Self)
        ensures
            r.source_position == source_position,
    {
        Self { source_position }
    }
}

/// A statement and the rest of the statement list.
#[derive(Debug, PartialEq)]
pub struct StmtList {
    pub source_position: SourcePosition,
    pub stmt: Box<StmtType>,
    pub stmt_list: Box<ListType>,
}

impl StmtList {
    pub fn new(source_position: SourcePosition, stmt: Box<StmtType>, stmt_list: Box<ListType>) -> (r: Self)
        ensures
            r.source_position == source_position,
            r.stmt == stmt,
            r.stmt_list == stmt_list,
    {
        Self { source_position, stmt, stmt_list }
    }
}

/// The end of a statement list.
#[derive(Clone, Copy, Debug, PartialEq, Eq, Structural)]
pub struct EmptyStmtList {
    pub source_position: SourcePosition,
}

impl EmptyStmtList {
    pub fn new(source_position: SourcePosition) -> (r: Self)
        ensures
            r.source_position == source_position,
    {
        Self { source_position }
    }
}

/// A parameter and the rest of the parameter list.
#[derive(Debug, PartialEq)]
pub struct ParamList {
    pub source_position: SourcePosition,
    pub param: ParaDecl,
    pub param_list: Box<ListType>,
}

impl ParamList {
    pub fn new(source_position: SourcePosition, param: ParaDecl, param_list: Box<ListType>) -> (r: Self)
        ensures
            r.source_position == source_position,
            r.param == param,
            r.param_list == param_list,
    {
        Self { source_position, param, param_list }
    }
}

/// The end of a parameter list.
#[derive(Clone, Copy, Debug, PartialEq, Eq, Structural)]
pub struct EmptyParamList {
    pub source_position: SourcePosition,
}

impl EmptyParamList {
    pub fn new(source_position: SourcePosition) -> (r: Self)
        ensures
            r.source_position == source_position,
    {
        Self { source_position }
    }
}

} // verus!
