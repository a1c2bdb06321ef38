use vstd::prelude::*;
use crate::ast::array_type::AstTypeVariant;
use crate::ast::decl::{DeclType, ParaDecl};
use crate::ast::expression::ExprType;
use crate::ast::ident::Ident;
use crate::ast::list::ListType;
use crate::ast::primitive_types::AstTypes;
use crate::ast::program::Program;
use crate::ast::statement::StmtType;
use crate::ast::variable::VarUntyped;
use crate::unparser::{deeper, deeper_exec, emit, indent, write_indent};

verus! {

// The tree dump: one line per node, its simple type name indented by its
// depth, children one level deeper; names, operators and literals add their
// spelling in parentheses.

pub open spec fn line_text(name: Seq<char>, d: usize) -> Seq<char> {
    indent(d as nat) + name + "\n"@
}

pub open spec fn leaf_text(name: Seq<char>, spelling: Seq<char>, d: usize) -> Seq<char> {
    indent(d as nat) + name + " ("@ + spelling + ")\n"@
}

pub open spec fn type_tree(t: AstTypes, d: usize) -> Seq<char> {
    line_text(
        match t {
            AstTypes::BooleanType(_) => "BooleanType"@,
            AstTypes::FloatType(_) => "FloatType"@,
            AstTypes::IntType(_) => "IntType"@,
            AstTypes::StringType(_) => "StringType"@,
            AstTypes::VoidType(_) => "VoidType"@,
            AstTypes::ErrorType(_) => "ErrorType"@,
        },
        d,
    )
}

pub open spec fn ident_tree(i: Ident, d: usize) -> Seq<char> {
    leaf_text("Ident"@, i.spelling@, d)
}

pub open spec fn var_tree(v: VarUntyped, d: usize) -> Seq<char> {
    line_text("VarUntyped"@, d) + ident_tree(v.ident, deeper(d))
}

pub open spec fn variant_tree(t: AstTypeVariant, d: usize) -> Seq<char>
    decreases t,
{
    match t {
        AstTypeVariant::Primitive(p) => type_tree(p, d),
        AstTypeVariant::Array(a) => line_text("ArrayType"@, d) + type_tree(*a.array_type, deeper(d))
            + expr_tree(a.expression, deeper(d)),
    }
}

pub open spec fn expr_tree(e: ExprType, d: usize) -> Seq<char>
    decreases e,
{
    let c = deeper(d);
    match e {
        ExprType::Arg(x) => line_text("Arg"@, d) + expr_tree(*x.expr, c),
        ExprType::ArrayExpr(x) => line_text("ArrayExpr"@, d) + var_tree(x.var, c) + expr_tree(*x.expr, c),
        ExprType::ArrayInitExpr(x) => line_text("ArrayInitExpr"@, d) + list_tree(*x.init_list, c),
        ExprType::AssignExpr(x) => line_text("AssignExpr"@, d) + expr_tree(*x.expression_one, c)
            + expr_tree(*x.expression_two, c),
        ExprType::BinaryExpr(x) => line_text("BinaryExpr"@, d) + expr_tree(*x.expression_one, c)
            + leaf_text("Operator"@, x.operator.spelling@, c) + expr_tree(*x.expression_two, c),
        ExprType::BooleanExpr(x) => line_text("BooleanExpr"@, d) + leaf_text(
            "BooleanLiteral"@,
            x.boolean_literal.spelling@,
            c,
        ),
        ExprType::CallExpr(x) => line_text("CallExpr"@, d) + ident_tree(x.ident, c) + list_tree(
            *x.argument_list,
            c,
        ),
        ExprType::EmptyExpr(_) => line_text("EmptyExpr"@, d),
        ExprType::FloatExpr(x) => line_text("FloatExpr"@, d) + leaf_text(
            "FloatLiteral"@,
            x.float_literal.spelling@,
            c,
        ),
        ExprType::IntExpr(x) => line_text("IntExpr"@, d) + leaf_text("IntLiteral"@, x.int_literal.spelling@, c),
        ExprType::StringExpr(x) => line_text("StringExpr"@, d) + leaf_text(
            "StringLiteral"@,
            x.string_literal.spelling@,
            c,
        ),
        ExprType::UnaryExpr(x) => line_text("UnaryExpr"@, d) + leaf_text("Operator"@, x.operator.spelling@, c)
            + expr_tree(*x.expression, c),
        ExprType::VarExpr(x) => line_text("VarExpr"@, d) + var_tree(x.var, c),
    }
}

pub open spec fn param_tree(p: ParaDecl, d: usize) -> Seq<char>
    decreases p,
{
    line_text("ParaDecl"@, d) + variant_tree(*p.declaration_type, deeper(d)) + ident_tree(*p.ident, deeper(d))
}

pub open spec fn list_tree(l: ListType, d: usize) -> Seq<char>
    decreases l,
{
    let c = deeper(d);
    match l {
        ListType::ArgList(x) => line_text("ArgList"@, d) + expr_tree(x.arg, c) + list_tree(*x.arg_list, c),
        ListType::DeclList(x) => line_text("DeclList"@, d) + decl_tree(*x.decl_type, c) + list_tree(
            *x.decl_list,
            c,
        ),
        ListType::EmptyArgList(_) => line_text("EmptyArgList"@, d),
        ListType::EmptyDeclList(_) => line_text("EmptyDeclList"@, d),
        ListType::EmptyArrayExprList(_) => line_text("EmptyArrayExprList"@, d),
        ListType::ArrayExprList(x) => line_text("ArrayExprList"@, d) + expr_tree(x.expression, c)
            + list_tree(*x.expr_list, c),
        ListType::EmptyStmtList(_) => line_text("EmptyStmtList"@, d),
        ListType::StmtList(x) => line_text("StmtList"@, d) + stmt_tree(*x.stmt, c) + list_tree(*x.stmt_list, c),
        ListType::ParamList(x) => line_text("ParamList"@, d) + param_tree(x.param, c) + list_tree(
            *x.param_list,
            c,
        ),
        ListType::EmptyParamList(_) => line_text("EmptyParamList"@, d),
    }
}

pub open spec fn decl_tree(x: DeclType, d: usize) -> Seq<char>
    decreases x,
{
    let c = deeper(d);
    match x {
        DeclType::FuncDecl(f) => line_text("FuncDecl"@, d) + variant_tree(*f.function_type, c) + ident_tree(
            *f.ident,
            c,
        ) + list_tree(*f.param_list, c) + stmt_tree(*f.statements, c),
        DeclType::GlobalVarDecl(v) => line_text("GlobalVarDecl"@, d) + variant_tree(*v.declaration_type, c)
            + ident_tree(*v.ident, c) + expr_tree(*v.expr, c),
        DeclType::LocalVarDecl(v) => line_text("LocalVarDecl"@, d) + variant_tree(*v.declaration_type, c)
            + ident_tree(*v.ident, c) + expr_tree(*v.expr, c),
        DeclType::ParaDecl(p) => param_tree(p, d),
    }
}

pub open spec fn stmt_tree(s: StmtType, d: usize) -> Seq<char>
    decreases s,
{
    let c = deeper(d);
    match s {
        StmtType::BreakStmt(_) => line_text("BreakStmt"@, d),
        StmtType::CompoundStmt(x) => line_text("CompoundStmt"@, d) + list_tree(*x.decl_list, c) + list_tree(
            *x.stmt_list,
            c,
        ),
        StmtType::ContinueStmt(_) => line_text("ContinueStmt"@, d),
        StmtType::EmptyCompoundStmt(_) => line_text("EmptyCompoundStmt"@, d),
        StmtType::EmptyStmt(_) => line_text("EmptyStmt"@, d),
        StmtType::ExprStmt(x) => line_text("ExprStmt"@, d) + expr_tree(x.expr, c),
        StmtType::ForStmt(x) => line_text("ForStmt"@, d) + expr_tree(*x.expr_1, c) + expr_tree(*x.expr_2, c)
            + expr_tree(*x.expr_3, c) + stmt_tree(*x.stmt, c),
        StmtType::IfStmt(x) => line_text("IfStmt"@, d) + expr_tree(*x.expr, c) + stmt_tree(*x.stmt_1, c)
            + stmt_tree(*x.stmt_2, c),
        StmtType::ReturnStmt(x) => line_text("ReturnStmt"@, d) + expr_tree(*x.expr, c),
        StmtType::WhileStmt(x) => line_text("WhileStmt"@, d) + expr_tree(*x.expr, c) + stmt_tree(*x.stmt, c),
    }
}

pub open spec fn program_tree(p: Program) -> Seq<char> {
    line_text("Program"@, 0) + list_tree(p.declaration_list, 1)
}

fn line(name: &str, d: usize, out: &mut String)
    ensures
        final(out)@ == old(out)@ + line_text(name@, d),
{
    let ghost o = out@;
    write_indent(d, out);
    emit(out, name);
    emit(out, "\n");
    assert(out@ =~= o + line_text(name@, d));
}

fn leaf(name: &str, spelling: &String, d: usize, out: &mut String)
    ensures
        final(out)@ == old(out)@ + leaf_text(name@, spelling@, d),
{
    let ghost o = out@;
    write_indent(d, out);
    emit(out, name);
    emit(out, " (");
    emit(out, spelling.as_str());
    emit(out, ")\n");
    assert(out@ =~= o + leaf_text(name@, spelling@, d));
}

fn print_type(t: &AstTypes, d: usize, out: &mut String)
    ensures
        final(out)@ == old(out)@ + type_tree(*t, d),
{
    match t {
        AstTypes::BooleanType(_) => line("BooleanType", d, out),
        AstTypes::FloatType(_) => line("FloatType", d, out),
        AstTypes::IntType(_) => line("IntType", d, out),
        AstTypes::StringType(_) => line("StringType", d, out),
        AstTypes::VoidType(_) => line("VoidType", d, out),
        AstTypes::ErrorType(_) => line("ErrorType", d, out),
    }
}

fn print_var(v: &VarUntyped, d: usize, out: &mut String)
    ensures
        final(out)@ == old(out)@ + var_tree(*v, d),
{
    let ghost o = out@;
    line("VarUntyped", d, out);
    leaf("Ident", &v.ident.spelling, deeper_exec(d), out);
    assert(out@ =~= o + var_tree(*v, d));
}

fn print_variant(t: &AstTypeVariant, d: usize, out: &mut String)
    ensures
        final(out)@ == old(out)@ + variant_tree(*t, d),
    decreases t,
{
    let ghost o = out@;
    match t {
        AstTypeVariant::Primitive(p) => print_type(p, d, out),
        AstTypeVariant::Array(a) => {
            line("ArrayType", d, out);
            print_type(&a.array_type, deeper_exec(d), out);
            print_expr(&a.expression, deeper_exec(d), out);
        },
    }
    assert(out@ =~= o + variant_tree(*t, d));
}

fn print_expr(e: &ExprType, d: usize, out: &mut String)
    ensures
        final(out)@ == old(out)@ + expr_tree(*e, d),
    decreases e,
{
    let ghost o = out@;
    let c = deeper_exec(d);
    match e {
        ExprType::Arg(x) => {
            line("Arg", d, out);
            print_expr(&x.expr, c, out);
        },
        ExprType::ArrayExpr(x) => {
            line("ArrayExpr", d, out);
            print_var(&x.var, c, out);
            print_expr(&x.expr, c, out);
        },
        ExprType::ArrayInitExpr(x) => {
            line("ArrayInitExpr", d, out);
            print_list(&x.init_list, c, out);
        },
        ExprType::AssignExpr(x) => {
            line("AssignExpr", d, out);
            print_expr(&x.expression_one, c, out);
            print_expr(&x.expression_two, c, out);
        },
        ExprType::BinaryExpr(x) => {
            line("BinaryExpr", d, out);
            print_expr(&x.expression_one, c, out);
            leaf("Operator", &x.operator.spelling, c, out);
            print_expr(&x.expression_two, c, out);
        },
        ExprType::BooleanExpr(x) => {
            line("BooleanExpr", d, out);
            leaf("BooleanLiteral", &x.boolean_literal.spelling, c, out);
        },
        ExprType::CallExpr(x) => {
            line("CallExpr", d, out);
            leaf("Ident", &x.ident.spelling, c, out);
            print_list(&x.argument_list, c, out);
        },
        ExprType::EmptyExpr(_) => line("EmptyExpr", d, out),
        ExprType::FloatExpr(x) => {
            line("FloatExpr", d, out);
            leaf("FloatLiteral", &x.float_literal.spelling, c, out);
        },
        ExprType::IntExpr(x) => {
            line("IntExpr", d, out);
            leaf("IntLiteral", &x.int_literal.spelling, c, out);
        },
        ExprType::StringExpr(x) => {
            line("StringExpr", d, out);
            leaf("StringLiteral", &x.string_literal.spelling, c, out);
        },
        ExprType::UnaryExpr(x) => {
            line("UnaryExpr", d, out);
            leaf("Operator", &x.operator.spelling, c, out);
            print_expr(&x.expression, c, out);
        },
        ExprType::VarExpr(x) => {
            line("VarExpr", d, out);
            print_var(&x.var, c, out);
        },
    }
    assert(out@ =~= o + expr_tree(*e, d));
}

fn print_param(p: &ParaDecl, d: usize, out: &mut String)
    ensures
        final(out)@ == old(out)@ + param_tree(*p, d),
    decreases p,
{
    let ghost o = out@;
    line("ParaDecl", d, out);
    print_variant(&p.declaration_type, deeper_exec(d), out);
    leaf("Ident", &p.ident.spelling, deeper_exec(d), out);
    assert(out@ =~= o + param_tree(*p, d));
}

fn print_list(l: &ListType, d: usize, out: &mut String)
    ensures
        final(out)@ == old(out)@ + list_tree(*l, d),
    decreases l,
{
    let ghost o = out@;
    let c = deeper_exec(d);
    match l {
        ListType::ArgList(x) => {
            line("ArgList", d, out);
            print_expr(&x.arg, c, out);
            print_list(&x.arg_list, c, out);
        },
        ListType::DeclList(x) => {
            line("DeclList", d, out);
            print_decl(&x.decl_type, c, out);
            print_list(&x.decl_list, c, out);
        },
        ListType::EmptyArgList(_) => line("EmptyArgList", d, out),
        ListType::EmptyDeclList(_) => line("EmptyDeclList", d, out),
        ListType::EmptyArrayExprList(_) => line("EmptyArrayExprList", d, out),
        ListType::ArrayExprList(x) => {
            line("ArrayExprList", d, out);
            print_expr(&x.expression, c, out);
            print_list(&x.expr_list, c, out);
        },
        ListType::EmptyStmtList(_) => line("EmptyStmtList", d, out),
        ListType::StmtList(x) => {
            line("StmtList", d, out);
            print_stmt(&x.stmt, c, out);
            print_list(&x.stmt_list, c, out);
        },
        ListType::ParamList(x) => {
            line("ParamList", d, out);
            print_param(&x.param, c, out);
            print_list(&x.param_list, c, out);
        },
        ListType::EmptyParamList(_) => line("EmptyParamList", d, out),
    }
    assert(out@ =~= o + list_tree(*l, d));
}

fn print_decl(x: &DeclType, d: usize, out: &mut String)
    ensures
        final(out)@ == old(out)@ + decl_tree(*x, d),
    decreases x,
{
    let ghost o = out@;
    let c = deeper_exec(d);
    match x {
        DeclType::FuncDecl(f) => {
            line("FuncDecl", d, out);
            print_variant(&f.function_type, c, out);
            leaf("Ident", &f.ident.spelling, c, out);
            print_list(&f.param_list, c, out);
            print_stmt(&f.statements, c, out);
        },
        DeclType::GlobalVarDecl(v) => {
            line("GlobalVarDecl", d, out);
            print_variant(&v.declaration_type, c, out);
            leaf("Ident", &v.ident.spelling, c, out);
            print_expr(&v.expr, c, out);
        },
        DeclType::LocalVarDecl(v) => {
            line("LocalVarDecl", d, out);
            print_variant(&v.declaration_type, c, out);
            leaf("Ident", &v.ident.spelling, c, out);
            print_expr(&v.expr, c, out);
        },
        DeclType::ParaDecl(p) => print_param(p, d, out),
    }
    assert(out@ =~= o + decl_tree(*x, d));
}

fn print_stmt(s: &StmtType, d: usize, out: &mut String)
    ensures
        final(out)@ == old(out)@ + stmt_tree(*s, d),
    decreases s,
{
    let ghost o = out@;
    let c = deeper_exec(d);
    match s {
        StmtType::BreakStmt(_) => line("BreakStmt", d, out),
        StmtType::CompoundStmt(x) => {
            line("CompoundStmt", d, out);
            print_list(&x.decl_list, c, out);
            print_list(&x.stmt_list, c, out);
        },
        StmtType::ContinueStmt(_) => line("ContinueStmt", d, out),
        StmtType::EmptyCompoundStmt(_) => line("EmptyCompoundStmt", d, out),
        StmtType::EmptyStmt(_) => line("EmptyStmt", d, out),
        StmtType::ExprStmt(x) => {
            line("ExprStmt", d, out);
            print_expr(&x.expr, c, out);
        },
        StmtType::ForStmt(x) => {
            line("ForStmt", d, out);
            print_expr(&x.expr_1, c, out);
            print_expr(&x.expr_2, c, out);
            print_expr(&x.expr_3, c, out);
            print_stmt(&x.stmt, c, out);
        },
        StmtType::IfStmt(x) => {
            line("IfStmt", d, out);
            print_expr(&x.expr, c, out);
            print_stmt(&x.stmt_1, c, out);
            print_stmt(&x.stmt_2, c, out);
        },
        StmtType::ReturnStmt(x) => {
            line("ReturnStmt", d, out);
            print_expr(&x.expr, c, out);
        },
        StmtType::WhileStmt(x) => {
            line("WhileStmt", d, out);
            print_expr(&x.expr, c, out);
            print_stmt(&x.stmt, c, out);
        },
    }
    assert(out@ =~= o + stmt_tree(*s, d));
}

impl Program {
    /// The tree as indented text: one line per node.
    pub fn print_program(&self) -> (r: String)
        ensures
            r@ == program_tree(*self),
    {
        let mut out = String::new();
        line("Program", 0, &mut out);
        print_list(&self.declaration_list, 1, &mut out);
        assert(out@ =~= program_tree(*self));
        out
    }
}

} // verus!
