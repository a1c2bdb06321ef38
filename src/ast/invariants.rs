use vstd::prelude::*;
use crate::ast::array_type::AstTypeVariant;
use crate::ast::decl::{DeclType, FuncDecl, ParaDecl};
use crate::ast::expression::ExprType;
use crate::ast::ident::Ident;
use crate::ast::list::ListType;
use crate::ast::program::Program;
use crate::ast::statement::StmtType;

verus! {

// The shape every tree built by the parser has: names carry no declaration
// yet, lists end in their own empty node and hold the right elements, a
// function's body is a compound statement, an array size is a literal or
// absent.

pub open spec fn ident_ok(i: Ident) -> bool {
    i.decl is None
}

pub open spec fn expr_ok(e: ExprType) -> bool
    decreases e,
{
    match e {
        ExprType::Arg(x) => expr_ok(*x.expr),
        ExprType::ArrayExpr(x) => ident_ok(x.var.ident) && expr_ok(*x.expr),
        ExprType::ArrayInitExpr(x) => array_expr_list_ok(*x.init_list),
        ExprType::AssignExpr(x) => expr_ok(*x.expression_one) && expr_ok(*x.expression_two),
        ExprType::BinaryExpr(x) => expr_ok(*x.expression_one) && expr_ok(*x.expression_two),
        ExprType::CallExpr(x) => ident_ok(x.ident) && arg_list_ok(*x.argument_list),
        ExprType::UnaryExpr(x) => expr_ok(*x.expression),
        ExprType::VarExpr(x) => ident_ok(x.var.ident),
        _ => true,
    }
}

pub open spec fn arg_list_ok(l: ListType) -> bool
    decreases l,
{
    match l {
        ListType::ArgList(c) => c.arg is Arg && expr_ok(c.arg) && arg_list_ok(*c.arg_list),
        ListType::EmptyArgList(_) => true,
        _ => false,
    }
}

pub open spec fn array_expr_list_ok(l: ListType) -> bool
    decreases l,
{
    match l {
        ListType::ArrayExprList(c) => expr_ok(c.expression) && array_expr_list_ok(*c.expr_list),
        ListType::EmptyArrayExprList(_) => true,
        _ => false,
    }
}

/// A declared type: a primitive, or an array of one whose size is an integer
/// literal or left out.
pub open spec fn type_ok(t: AstTypeVariant) -> bool {
    match t {
        AstTypeVariant::Primitive(_) => true,
        AstTypeVariant::Array(a) => a.expression is EmptyExpr || a.expression is IntExpr,
    }
}

pub open spec fn stmt_ok(s: StmtType) -> bool
    decreases s,
{
    match s {
        StmtType::CompoundStmt(c) => decl_list_ok(*c.decl_list, false) && stmt_list_ok(*c.stmt_list),
        StmtType::IfStmt(x) => expr_ok(*x.expr) && stmt_ok(*x.stmt_1) && stmt_ok(*x.stmt_2),
        StmtType::ForStmt(x) => expr_ok(*x.expr_1) && expr_ok(*x.expr_2) && expr_ok(*x.expr_3)
            && stmt_ok(*x.stmt),
        StmtType::WhileStmt(x) => expr_ok(*x.expr) && stmt_ok(*x.stmt),
        StmtType::ReturnStmt(x) => expr_ok(*x.expr),
        StmtType::ExprStmt(x) => expr_ok(x.expr),
        _ => true,
    }
}

pub open spec fn stmt_list_ok(l: ListType) -> bool
    decreases l,
{
    match l {
        ListType::StmtList(c) => stmt_ok(*c.stmt) && stmt_list_ok(*c.stmt_list),
        ListType::EmptyStmtList(_) => true,
        _ => false,
    }
}

pub open spec fn param_ok(p: ParaDecl) -> bool {
    &&& ident_ok(*p.ident)
    &&& match *p.declaration_type {
        AstTypeVariant::Primitive(_) => true,
        AstTypeVariant::Array(a) => a.expression is EmptyExpr,
    }
}

pub open spec fn param_list_ok(l: ListType) -> bool
    decreases l,
{
    match l {
        ListType::ParamList(c) => param_ok(c.param) && param_list_ok(*c.param_list),
        ListType::EmptyParamList(_) => true,
        _ => false,
    }
}

pub open spec fn func_ok(f: FuncDecl) -> bool
    decreases f,
{
    &&& ident_ok(*f.ident)
    &&& *f.function_type is Primitive
    &&& param_list_ok(*f.param_list)
    &&& *f.statements is CompoundStmt
    &&& stmt_ok(*f.statements)
}

/// A declaration of the list it stands in: functions and global variables at
/// the top level, local variables inside a compound statement.
pub open spec fn decl_ok(d: DeclType, global: bool) -> bool
    decreases d,
{
    match d {
        DeclType::FuncDecl(f) => global && func_ok(f),
        DeclType::GlobalVarDecl(v) => global && ident_ok(*v.ident) && type_ok(*v.declaration_type)
            && expr_ok(*v.expr),
        DeclType::LocalVarDecl(v) => !global && ident_ok(*v.ident) && type_ok(*v.declaration_type)
            && expr_ok(*v.expr),
        DeclType::ParaDecl(_) => false,
    }
}

pub open spec fn decl_list_ok(l: ListType, global: bool) -> bool
    decreases l,
{
    match l {
        ListType::DeclList(c) => decl_ok(*c.decl_type, global) && decl_list_ok(*c.decl_list, global),
        ListType::EmptyDeclList(_) => true,
        _ => false,
    }
}

pub open spec fn program_ok(p: Program) -> bool {
    decl_list_ok(p.declaration_list, true)
}

} // verus!
