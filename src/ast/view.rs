use vstd::prelude::*;
use crate::ast::array_type::AstTypeVariant;
use crate::ast::decl::{DeclType, ParaDecl};
use crate::ast::expression::ExprType;
use crate::ast::ident::Ident;
use crate::ast::list::ListType;
use crate::ast::primitive_types::AstTypes;
use crate::ast::program::Program;
use crate::ast::statement::StmtType;

verus! {

/// The tree without source positions: each node has the name of its
/// variant, the spelling it carries (empty for most), and its children.
pub enum Tree {
    Node { label: Seq<char>, text: Seq<char>, kids: Seq<Tree> },
}

pub open spec fn node(label: Seq<char>, kids: Seq<Tree>) -> Tree {
    Tree::Node { label, text: Seq::empty(), kids }
}

pub open spec fn leaf(label: Seq<char>, text: Seq<char>) -> Tree {
    Tree::Node { label, text, kids: Seq::empty() }
}

/// A list as cons cells: `cons` nodes holding an element and the rest,
/// ending in an `empty` node.
pub open spec fn cons_list(cons: Seq<char>, empty: Seq<char>, elems: Seq<Tree>) -> Tree
    decreases elems.len(),
{
    if elems.len() == 0 {
        node(empty, Seq::empty())
    } else {
        node(cons, seq![elems[0], cons_list(cons, empty, elems.drop_first())])
    }
}

pub open spec fn type_view(t: AstTypes) -> Tree {
    node(
        match t {
            AstTypes::BooleanType(_) => "BooleanType"@,
            AstTypes::FloatType(_) => "FloatType"@,
            AstTypes::IntType(_) => "IntType"@,
            AstTypes::StringType(_) => "StringType"@,
            AstTypes::VoidType(_) => "VoidType"@,
            AstTypes::ErrorType(_) => "ErrorType"@,
        },
        Seq::empty(),
    )
}

pub open spec fn ident_view(i: Ident) -> Tree {
    leaf("Ident"@, i.spelling@)
}

pub open spec fn variant_view(t: AstTypeVariant) -> Tree
    decreases t,
{
    match t {
        AstTypeVariant::Primitive(p) => type_view(p),
        AstTypeVariant::Array(a) => node("ArrayType"@, seq![type_view(*a.array_type), expr_view(a.expression)]),
    }
}

pub open spec fn expr_view(e: ExprType) -> Tree
    decreases e,
{
    match e {
        ExprType::Arg(x) => node("Arg"@, seq![expr_view(*x.expr)]),
        ExprType::ArrayExpr(x) => node("ArrayExpr"@, seq![ident_view(x.var.ident), expr_view(*x.expr)]),
        ExprType::ArrayInitExpr(x) => node("ArrayInitExpr"@, seq![list_view(*x.init_list)]),
        ExprType::AssignExpr(x) => node(
            "AssignExpr"@,
            seq![expr_view(*x.expression_one), expr_view(*x.expression_two)],
        ),
        ExprType::BinaryExpr(x) => node(
            "BinaryExpr"@,
            seq![
                expr_view(*x.expression_one),
                leaf("Operator"@, x.operator.spelling@),
                expr_view(*x.expression_two),
            ],
        ),
        ExprType::BooleanExpr(x) => leaf("BooleanExpr"@, x.boolean_literal.spelling@),
        ExprType::CallExpr(x) => node("CallExpr"@, seq![ident_view(x.ident), list_view(*x.argument_list)]),
        ExprType::EmptyExpr(_) => node("EmptyExpr"@, Seq::empty()),
        ExprType::FloatExpr(x) => leaf("FloatExpr"@, x.float_literal.spelling@),
        ExprType::IntExpr(x) => leaf("IntExpr"@, x.int_literal.spelling@),
        ExprType::StringExpr(x) => leaf("StringExpr"@, x.string_literal.spelling@),
        ExprType::UnaryExpr(x) => node(
            "UnaryExpr"@,
            seq![leaf("Operator"@, x.operator.spelling@), expr_view(*x.expression)],
        ),
        ExprType::VarExpr(x) => node("VarExpr"@, seq![ident_view(x.var.ident)]),
    }
}

pub open spec fn param_view(p: ParaDecl) -> Tree
    decreases p,
{
    node("ParaDecl"@, seq![variant_view(*p.declaration_type), ident_view(*p.ident)])
}

pub open spec fn list_view(l: ListType) -> Tree
    decreases l,
{
    match l {
        ListType::ArgList(c) => node("ArgList"@, seq![expr_view(c.arg), list_view(*c.arg_list)]),
        ListType::DeclList(c) => node("DeclList"@, seq![decl_view(*c.decl_type), list_view(*c.decl_list)]),
        ListType::EmptyArgList(_) => node("EmptyArgList"@, Seq::empty()),
        ListType::EmptyDeclList(_) => node("EmptyDeclList"@, Seq::empty()),
        ListType::EmptyArrayExprList(_) => node("EmptyArrayExprList"@, Seq::empty()),
        ListType::ArrayExprList(c) => node(
            "ArrayExprList"@,
            seq![expr_view(c.expression), list_view(*c.expr_list)],
        ),
        ListType::EmptyStmtList(_) => node("EmptyStmtList"@, Seq::empty()),
        ListType::StmtList(c) => node("StmtList"@, seq![stmt_view(*c.stmt), list_view(*c.stmt_list)]),
        ListType::ParamList(c) => node("ParamList"@, seq![param_view(c.param), list_view(*c.param_list)]),
        ListType::EmptyParamList(_) => node("EmptyParamList"@, Seq::empty()),
    }
}

pub open spec fn decl_view(d: DeclType) -> Tree
    decreases d,
{
    match d {
        DeclType::FuncDecl(f) => node(
            "FuncDecl"@,
            seq![
                variant_view(*f.function_type),
                ident_view(*f.ident),
                list_view(*f.param_list),
                stmt_view(*f.statements),
            ],
        ),
        DeclType::GlobalVarDecl(v) => node(
            "GlobalVarDecl"@,
            seq![variant_view(*v.declaration_type), ident_view(*v.ident), expr_view(*v.expr)],
        ),
        DeclType::LocalVarDecl(v) => node(
            "LocalVarDecl"@,
            seq![variant_view(*v.declaration_type), ident_view(*v.ident), expr_view(*v.expr)],
        ),
        DeclType::ParaDecl(p) => param_view(p),
    }
}

pub open spec fn stmt_view(s: StmtType) -> Tree
    decreases s,
{
    match s {
        StmtType::BreakStmt(_) => node("BreakStmt"@, Seq::empty()),
        StmtType::CompoundStmt(c) => node(
            "CompoundStmt"@,
            seq![list_view(*c.decl_list), list_view(*c.stmt_list)],
        ),
        StmtType::ContinueStmt(_) => node("ContinueStmt"@, Seq::empty()),
        StmtType::EmptyCompoundStmt(_) => node("EmptyCompoundStmt"@, Seq::empty()),
        StmtType::EmptyStmt(_) => node("EmptyStmt"@, Seq::empty()),
        StmtType::ExprStmt(x) => node("ExprStmt"@, seq![expr_view(x.expr)]),
        StmtType::ForStmt(x) => node(
            "ForStmt"@,
            seq![expr_view(*x.expr_1), expr_view(*x.expr_2), expr_view(*x.expr_3), stmt_view(*x.stmt)],
        ),
        StmtType::IfStmt(x) => node(
            "IfStmt"@,
            seq![expr_view(*x.expr), stmt_view(*x.stmt_1), stmt_view(*x.stmt_2)],
        ),
        StmtType::ReturnStmt(x) => node("ReturnStmt"@, seq![expr_view(*x.expr)]),
        StmtType::WhileStmt(x) => node("WhileStmt"@, seq![expr_view(*x.expr), stmt_view(*x.stmt)]),
    }
}

pub open spec fn program_view(p: Program) -> Tree {
    list_view(p.declaration_list)
}

} // verus!
