use vstd::prelude::*;
use crate::ast::array_type::AstTypeVariant;
use crate::ast::expression::ExprType;
use crate::ast::ident::Ident;
use crate::ast::list::ListType;
use crate::ast::statement::StmtType;
use crate::utils::SourcePosition;

verus! {

/// A declaration.
#[derive(Debug, PartialEq)]
pub enum DeclType {
    FuncDecl(FuncDecl),
    GlobalVarDecl(GlobalVarDecl),
    LocalVarDecl(LocalVarDecl),
    ParaDecl(ParaDecl),
}

/// A function: return type, name, parameters and body.
#[derive(Debug, PartialEq)]
pub struct FuncDecl {
    pub source_position: SourcePosition,
    pub function_type: Box<AstTypeVariant>,
    pub ident: Box<Ident>,
    pub param_list: Box<ListType>,
    pub statements: Box<StmtType>,
}

impl FuncDecl {
    pub fn new(source_position: SourcePosition, function_type: Box<AstTypeVariant>, identifier: Box<Ident>, param_list: Box<ListType>, statement: Box<StmtType>) -> (r: Self)
        ensures
            r.source_position == source_position,
            r.function_type == function_type,
            r.ident == identifier,
            r.param_list == param_list,
            r.statements == statement,
    {
        Self { source_position, function_type, ident: identifier, param_list, statements: statement }
    }
}

/// A variable declared at the top level; `expr` is its initialiser or an `EmptyExpr`.
#[derive(Debug, PartialEq)]
pub struct GlobalVarDecl {
    pub source_position: SourcePosition,
    pub declaration_type: Box<AstTypeVariant>,
    pub ident: Box<Ident>,
    pub expr: Box<ExprType>,
}

impl GlobalVarDecl {
    pub fn new(source_position: SourcePosition, declaration_type: Box<AstTypeVariant>, ident: Box<Ident>, expr: Box<ExprType>) -> (r: Self)
        ensures
            r.source_position == source_position,
            r.declaration_type == declaration_type,
            r.ident == ident,
            r.expr == expr,
    {
        Self { source_position, declaration_type, ident, expr }
    }
}

/// A variable declared at the head of a compound statement; `expr` is its initialiser or an `EmptyExpr`.
#[derive(Debug, PartialEq)]
pub struct LocalVarDecl {
    pub source_position: SourcePosition,
    pub declaration_type: Box<AstTypeVariant>,
    pub ident: Box<Ident>,
    pub expr: Box<ExprType>,
}

impl LocalVarDecl {
    pub fn new(source_position: SourcePosition, declaration_type: Box<AstTypeVariant>, ident: Box<Ident>, expr: Box<ExprType>) -> (r: Self)
        ensures
            r.source_position == source_position,
            r.declaration_type == declaration_type,
            r.ident == ident,
            r.expr == expr,
    {
        Self { source_position, declaration_type, ident, expr }
    }
}

/// A parameter of a function.
#[derive(Debug, PartialEq)]
pub struct ParaDecl {
    pub source_position: SourcePosition,
    pub declaration_type: Box<AstTypeVariant>,
    pub ident: Box<Ident>,
}

impl ParaDecl {
    pub fn new(source_position: SourcePosition, decl_type: Box<AstTypeVariant>, ident: Box<Ident>) -> (r: Self)
        ensures
            r.source_position == source_position,
            r.declaration_type == decl_type,
            r.ident == ident,
    {
        Self { source_position, declaration_type: decl_type, ident }
    }
}

} // verus!
