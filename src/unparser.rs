use vstd::prelude::*;
use vstd::string::{StrSliceExecFns, StringExecFns};
use crate::scanner::push_char;
use crate::ast::array_type::AstTypeVariant;
use crate::ast::decl::{DeclType, ParaDecl};
use crate::ast::expression::ExprType;
use crate::ast::ident::Ident;
use crate::ast::list::ListType;
use crate::ast::primitive_types::AstTypes;
use crate::ast::program::Program;
use crate::ast::statement::{CompoundStmt, StmtType};

verus! {

// The text the unparser emits for each node, as spec functions. Statements
// and declarations take the nesting depth, each level indented by one tab
// stop of spaces; binary operations and assignments are fully parenthesised.

/// One level deeper, the depth saturating at its maximum.
pub open spec fn deeper(d: usize) -> usize {
    if d < usize::MAX {
        (d + 1) as usize
    } else {
        d
    }
}

/// The indentation of depth `d`: eight spaces per level.
pub open spec fn indent(d: nat) -> Seq<char>
    decreases d,
{
    if d == 0 {
        Seq::empty()
    } else {
        indent((d - 1) as nat) + "        "@
    }
}

pub open spec fn type_text(t: AstTypes) -> Seq<char> {
    match t {
        AstTypes::BooleanType(_) => "boolean"@,
        AstTypes::FloatType(_) => "float"@,
        AstTypes::IntType(_) => "int"@,
        AstTypes::StringType(_) => "string"@,
        AstTypes::VoidType(_) => "void"@,
        AstTypes::ErrorType(_) => "error"@,
    }
}

/// The keyword of a declared type: the element type of an array.
pub open spec fn variant_text(t: AstTypeVariant) -> Seq<char> {
    match t {
        AstTypeVariant::Primitive(p) => type_text(p),
        AstTypeVariant::Array(a) => type_text(*a.array_type),
    }
}

pub open spec fn expr_text(e: ExprType) -> Seq<char>
    decreases e,
{
    match e {
        ExprType::Arg(x) => expr_text(*x.expr),
        ExprType::ArrayExpr(x) => x.var.ident.spelling@ + "["@ + expr_text(*x.expr) + "]"@,
        ExprType::ArrayInitExpr(x) => "{"@ + comma_list_text(*x.init_list) + "}"@,
        ExprType::AssignExpr(x) => "("@ + expr_text(*x.expression_one) + " = "@ + expr_text(
            *x.expression_two,
        ) + ")"@,
        ExprType::BinaryExpr(x) => "("@ + expr_text(*x.expression_one) + " "@ + x.operator.spelling@
            + " "@ + expr_text(*x.expression_two) + ")"@,
        ExprType::BooleanExpr(x) => x.boolean_literal.spelling@,
        ExprType::CallExpr(x) => x.ident.spelling@ + "("@ + comma_list_text(*x.argument_list) + ")"@,
        ExprType::EmptyExpr(_) => Seq::empty(),
        ExprType::FloatExpr(x) => x.float_literal.spelling@,
        ExprType::IntExpr(x) => x.int_literal.spelling@,
        ExprType::StringExpr(x) => "\""@ + x.string_literal.spelling@ + "\""@,
        ExprType::UnaryExpr(x) => x.operator.spelling@ + expr_text(*x.expression),
        ExprType::VarExpr(x) => x.var.ident.spelling@,
    }
}

/// The elements of an argument list or an array initialiser, separated by
/// a comma and a space.
pub open spec fn comma_list_text(l: ListType) -> Seq<char>
    decreases l,
{
    match l {
        ListType::ArgList(c) => expr_text(c.arg) + if *c.arg_list is EmptyArgList {
            Seq::empty()
        } else {
            ", "@ + comma_list_text(*c.arg_list)
        },
        ListType::ArrayExprList(c) => expr_text(c.expression) + if *c.expr_list is EmptyArrayExprList {
            Seq::empty()
        } else {
            ", "@ + comma_list_text(*c.expr_list)
        },
        _ => Seq::empty(),
    }
}

/// The `[size]` after a declared name, for an array type.
pub open spec fn dims_text(t: AstTypeVariant) -> Seq<char> {
    match t {
        AstTypeVariant::Primitive(_) => Seq::empty(),
        AstTypeVariant::Array(a) => "["@ + expr_text(a.expression) + "]"@,
    }
}

pub open spec fn param_text(p: ParaDecl) -> Seq<char> {
    variant_text(*p.declaration_type) + " "@ + p.ident.spelling@ + dims_text(*p.declaration_type)
}

pub open spec fn params_text(l: ListType) -> Seq<char>
    decreases l,
{
    match l {
        ListType::ParamList(c) => param_text(c.param) + if *c.param_list is EmptyParamList {
            Seq::empty()
        } else {
            ", "@ + params_text(*c.param_list)
        },
        _ => Seq::empty(),
    }
}

/// A variable declaration without indentation: `int a[2] = {1, 2};`.
pub open spec fn var_text(t: AstTypeVariant, i: Ident, init: ExprType) -> Seq<char> {
    variant_text(t) + " "@ + i.spelling@ + dims_text(t) + if init is EmptyExpr {
        Seq::empty()
    } else {
        " = "@ + expr_text(init)
    } + ";"@
}

pub open spec fn decl_text(d: DeclType, depth: usize) -> Seq<char>
    decreases d,
{
    match d {
        DeclType::FuncDecl(f) => indent(depth as nat) + variant_text(*f.function_type) + " "@
            + f.ident.spelling@ + "("@ + params_text(*f.param_list) + ") "@ + match *f.statements {
            StmtType::CompoundStmt(c) => compound_text(c, depth),
            _ => stmt_text(*f.statements, depth),
        } + "\n"@,
        DeclType::GlobalVarDecl(v) => indent(depth as nat) + var_text(
            *v.declaration_type,
            *v.ident,
            *v.expr,
        ) + "\n"@,
        DeclType::LocalVarDecl(v) => indent(depth as nat) + var_text(
            *v.declaration_type,
            *v.ident,
            *v.expr,
        ) + "\n"@,
        DeclType::ParaDecl(p) => param_text(p),
    }
}

pub open spec fn decls_text(l: ListType, depth: usize) -> Seq<char>
    decreases l,
{
    match l {
        ListType::DeclList(c) => decl_text(*c.decl_type, depth) + decls_text(*c.decl_list, depth),
        _ => Seq::empty(),
    }
}

pub open spec fn stmts_text(l: ListType, depth: usize) -> Seq<char>
    decreases l,
{
    match l {
        ListType::StmtList(c) => stmt_text(*c.stmt, depth) + stmts_text(*c.stmt_list, depth),
        _ => Seq::empty(),
    }
}

/// A block: its declarations and statements one level deeper, the closing
/// brace at the block's own depth.
pub open spec fn compound_text(c: CompoundStmt, depth: usize) -> Seq<char>
    decreases c,
{
    "{\n"@ + decls_text(*c.decl_list, deeper(depth)) + stmts_text(*c.stmt_list, deeper(depth))
        + indent(depth as nat) + "}"@
}

/// The body of a control statement: a block stays on the line of its head,
/// any other statement goes on the next line, one level deeper.
pub open spec fn body_text(s: StmtType, depth: usize) -> Seq<char>
    decreases s, 1nat,
{
    match s {
        StmtType::CompoundStmt(c) => " "@ + compound_text(c, depth) + "\n"@,
        _ => "\n"@ + stmt_text(s, deeper(depth)),
    }
}

/// A statement on lines of its own, indented to `depth`.
pub open spec fn stmt_text(s: StmtType, depth: usize) -> Seq<char>
    decreases s, 0nat,
{
    let ind = indent(depth as nat);
    match s {
        StmtType::BreakStmt(_) => ind + "break;\n"@,
        StmtType::CompoundStmt(c) => ind + compound_text(c, depth) + "\n"@,
        StmtType::ContinueStmt(_) => ind + "continue;\n"@,
        StmtType::EmptyCompoundStmt(_) => ind + "{\n"@ + ind + "}\n"@,
        StmtType::EmptyStmt(_) => ind + ";\n"@,
        StmtType::ExprStmt(x) => ind + expr_text(x.expr) + ";\n"@,
        StmtType::ForStmt(x) => ind + "for ("@ + expr_text(*x.expr_1) + "; "@ + expr_text(*x.expr_2)
            + "; "@ + expr_text(*x.expr_3) + ")"@ + body_text(*x.stmt, depth),
        StmtType::IfStmt(x) => ind + "if ("@ + expr_text(*x.expr) + ")"@ + body_text(*x.stmt_1, depth)
            + if *x.stmt_2 is EmptyStmt {
            Seq::empty()
        } else {
            ind + "else"@ + body_text(*x.stmt_2, depth)
        },
        StmtType::ReturnStmt(x) => ind + "return"@ + if *x.expr is EmptyExpr {
            Seq::empty()
        } else {
            " "@ + expr_text(*x.expr)
        } + ";\n"@,
        StmtType::WhileStmt(x) => ind + "while ("@ + expr_text(*x.expr) + ")"@ + body_text(*x.stmt, depth),
    }
}

/// The text of a whole program: its top-level declarations, one after the
/// other, each ending in a newline.
pub open spec fn program_text(p: Program) -> Seq<char> {
    decls_text(p.declaration_list, 0)
}

pub(crate) fn emit(out: &mut String, s: &str)
    ensures
        final(out)@ == old(out)@ + s@,
{
    out.append(s);
}

pub(crate) fn deeper_exec(d: usize) -> (r: usize)
    ensures
        r == deeper(d),
{
    if d < usize::MAX {
        d + 1
    } else {
        d
    }
}

pub(crate) fn write_indent(d: usize, out: &mut String)
    ensures
        final(out)@ == old(out)@ + indent(d as nat),
{
    let ghost o = out@;
    let mut i: usize = 0;
    while i < d
        invariant
            i <= d,
            out@ == o + indent(i as nat),
        decreases d - i,
    {
        emit(out, "        ");
        assert(out@ =~= o + indent((i + 1) as nat));
        i = i + 1;
    }
}

fn unparse_type(t: &AstTypes, out: &mut String)
    ensures
        final(out)@ == old(out)@ + type_text(*t),
{
    match t {
        AstTypes::BooleanType(_) => emit(out, "boolean"),
        AstTypes::FloatType(_) => emit(out, "float"),
        AstTypes::IntType(_) => emit(out, "int"),
        AstTypes::StringType(_) => emit(out, "string"),
        AstTypes::VoidType(_) => emit(out, "void"),
        AstTypes::ErrorType(_) => emit(out, "error"),
    }
}

fn unparse_variant(t: &AstTypeVariant, out: &mut String)
    ensures
        final(out)@ == old(out)@ + variant_text(*t),
{
    match t {
        AstTypeVariant::Primitive(p) => unparse_type(p, out),
        AstTypeVariant::Array(a) => unparse_type(&a.array_type, out),
    }
}

fn unparse_dims(t: &AstTypeVariant, out: &mut String)
    ensures
        final(out)@ == old(out)@ + dims_text(*t),
{
    let ghost o = out@;
    match t {
        AstTypeVariant::Primitive(_) => {
            assert(out@ =~= o + dims_text(*t));
        },
        AstTypeVariant::Array(a) => {
            emit(out, "[");
            unparse_expr(&a.expression, out);
            emit(out, "]");
            assert(out@ =~= o + dims_text(*t));
        },
    }
}

/// Appends the text of an expression.
pub fn unparse_expr(e: &ExprType, out: &mut String)
    ensures
        final(out)@ == old(out)@ + expr_text(*e),
    decreases e,
{
    let ghost o = out@;
    match e {
        ExprType::Arg(x) => {
            unparse_expr(&x.expr, out);
        },
        ExprType::ArrayExpr(x) => {
            emit(out, x.var.ident.spelling.as_str());
            emit(out, "[");
            unparse_expr(&x.expr, out);
            emit(out, "]");
        },
        ExprType::ArrayInitExpr(x) => {
            emit(out, "{");
            unparse_comma_list(&x.init_list, out);
            emit(out, "}");
        },
        ExprType::AssignExpr(x) => {
            emit(out, "(");
            unparse_expr(&x.expression_one, out);
            emit(out, " = ");
            unparse_expr(&x.expression_two, out);
            emit(out, ")");
        },
        ExprType::BinaryExpr(x) => {
            emit(out, "(");
            unparse_expr(&x.expression_one, out);
            emit(out, " ");
            emit(out, x.operator.spelling.as_str());
            emit(out, " ");
            unparse_expr(&x.expression_two, out);
            emit(out, ")");
        },
        ExprType::BooleanExpr(x) => {
            emit(out, x.boolean_literal.spelling.as_str());
        },
        ExprType::CallExpr(x) => {
            emit(out, x.ident.spelling.as_str());
            emit(out, "(");
            unparse_comma_list(&x.argument_list, out);
            emit(out, ")");
        },
        ExprType::EmptyExpr(_) => {},
        ExprType::FloatExpr(x) => {
            emit(out, x.float_literal.spelling.as_str());
        },
        ExprType::IntExpr(x) => {
            emit(out, x.int_literal.spelling.as_str());
        },
        ExprType::StringExpr(x) => {
            emit(out, "\"");
            emit(out, x.string_literal.spelling.as_str());
            emit(out, "\"");
        },
        ExprType::UnaryExpr(x) => {
            emit(out, x.operator.spelling.as_str());
            unparse_expr(&x.expression, out);
        },
        ExprType::VarExpr(x) => {
            emit(out, x.var.ident.spelling.as_str());
        },
    }
    assert(out@ =~= o + expr_text(*e));
}

fn unparse_comma_list(l: &ListType, out: &mut String)
    ensures
        final(out)@ == old(out)@ + comma_list_text(*l),
    decreases l,
{
    let ghost o = out@;
    match l {
        ListType::ArgList(c) => {
            unparse_expr(&c.arg, out);
            if let ListType::EmptyArgList(_) = &*c.arg_list {
            } else {
                emit(out, ", ");
                unparse_comma_list(&c.arg_list, out);
            }
        },
        ListType::ArrayExprList(c) => {
            unparse_expr(&c.expression, out);
            if let ListType::EmptyArrayExprList(_) = &*c.expr_list {
            } else {
                emit(out, ", ");
                unparse_comma_list(&c.expr_list, out);
            }
        },
        _ => {},
    }
    assert(out@ =~= o + comma_list_text(*l));
}

fn unparse_param(d: &ParaDecl, out: &mut String)
    ensures
        final(out)@ == old(out)@ + param_text(*d),
{
    let ghost o = out@;
    unparse_variant(&d.declaration_type, out);
    emit(out, " ");
    emit(out, d.ident.spelling.as_str());
    unparse_dims(&d.declaration_type, out);
    assert(out@ =~= o + param_text(*d));
}

fn unparse_params(l: &ListType, out: &mut String)
    ensures
        final(out)@ == old(out)@ + params_text(*l),
    decreases l,
{
    let ghost o = out@;
    if let ListType::ParamList(c) = l {
        unparse_param(&c.param, out);
        if let ListType::EmptyParamList(_) = &*c.param_list {
        } else {
            emit(out, ", ");
            unparse_params(&c.param_list, out);
        }
    }
    assert(out@ =~= o + params_text(*l));
}

fn unparse_var(t: &AstTypeVariant, i: &Ident, init: &ExprType, out: &mut String)
    ensures
        final(out)@ == old(out)@ + var_text(*t, *i, *init),
{
    let ghost o = out@;
    unparse_variant(t, out);
    emit(out, " ");
    emit(out, i.spelling.as_str());
    unparse_dims(t, out);
    if let ExprType::EmptyExpr(_) = init {
    } else {
        emit(out, " = ");
        unparse_expr(init, out);
    }
    emit(out, ";");
    assert(out@ =~= o + var_text(*t, *i, *init));
}

/// Appends the text of a declaration at nesting depth `depth`.
pub fn unparse_decl(d: &DeclType, depth: usize, out: &mut String)
    ensures
        final(out)@ == old(out)@ + decl_text(*d, depth),
    decreases d,
{
    let ghost o = out@;
    match d {
        DeclType::FuncDecl(f) => {
            write_indent(depth, out);
            unparse_variant(&f.function_type, out);
            emit(out, " ");
            emit(out, f.ident.spelling.as_str());
            emit(out, "(");
            unparse_params(&f.param_list, out);
            emit(out, ") ");
            match &*f.statements {
                StmtType::CompoundStmt(c) => unparse_compound(c, depth, out),
                _ => unparse_stmt(&f.statements, depth, out),
            }
            emit(out, "\n");
        },
        DeclType::GlobalVarDecl(v) => {
            write_indent(depth, out);
            unparse_var(&v.declaration_type, &v.ident, &v.expr, out);
            emit(out, "\n");
        },
        DeclType::LocalVarDecl(v) => {
            write_indent(depth, out);
            unparse_var(&v.declaration_type, &v.ident, &v.expr, out);
            emit(out, "\n");
        },
        DeclType::ParaDecl(p) => {
            unparse_param(p, out);
        },
    }
    assert(out@ =~= o + decl_text(*d, depth));
}

fn unparse_decls(l: &ListType, depth: usize, out: &mut String)
    ensures
        final(out)@ == old(out)@ + decls_text(*l, depth),
    decreases l,
{
    let ghost o = out@;
    if let ListType::DeclList(c) = l {
        unparse_decl(&c.decl_type, depth, out);
        unparse_decls(&c.decl_list, depth, out);
    }
    assert(out@ =~= o + decls_text(*l, depth));
}

fn unparse_stmts(l: &ListType, depth: usize, out: &mut String)
    ensures
        final(out)@ == old(out)@ + stmts_text(*l, depth),
    decreases l,
{
    let ghost o = out@;
    if let ListType::StmtList(c) = l {
        unparse_stmt(&c.stmt, depth, out);
        unparse_stmts(&c.stmt_list, depth, out);
    }
    assert(out@ =~= o + stmts_text(*l, depth));
}

fn unparse_compound(c: &CompoundStmt, depth: usize, out: &mut String)
    ensures
        final(out)@ == old(out)@ + compound_text(*c, depth),
    decreases c,
{
    let ghost o = out@;
    let inner = deeper_exec(depth);
    emit(out, "{\n");
    unparse_decls(&c.decl_list, inner, out);
    unparse_stmts(&c.stmt_list, inner, out);
    write_indent(depth, out);
    emit(out, "}");
    assert(out@ =~= o + compound_text(*c, depth));
}

fn unparse_body(s: &StmtType, depth: usize, out: &mut String)
    ensures
        final(out)@ == old(out)@ + body_text(*s, depth),
    decreases s, 1nat,
{
    let ghost o = out@;
    match s {
        StmtType::CompoundStmt(c) => {
            emit(out, " ");
            unparse_compound(c, depth, out);
            emit(out, "\n");
        },
        _ => {
            emit(out, "\n");
            unparse_stmt(s, deeper_exec(depth), out);
        },
    }
    assert(out@ =~= o + body_text(*s, depth));
}

/// Appends the text of a statement at nesting depth `depth`.
pub fn unparse_stmt(s: &StmtType, depth: usize, out: &mut String)
    ensures
        final(out)@ == old(out)@ + stmt_text(*s, depth),
    decreases s, 0nat,
{
    let ghost o = out@;
    write_indent(depth, out);
    match s {
        StmtType::BreakStmt(_) => emit(out, "break;\n"),
        StmtType::CompoundStmt(c) => {
            unparse_compound(c, depth, out);
            emit(out, "\n");
        },
        StmtType::ContinueStmt(_) => emit(out, "continue;\n"),
        StmtType::EmptyCompoundStmt(_) => {
            emit(out, "{\n");
            write_indent(depth, out);
            emit(out, "}\n");
        },
        StmtType::EmptyStmt(_) => emit(out, ";\n"),
        StmtType::ExprStmt(x) => {
            unparse_expr(&x.expr, out);
            emit(out, ";\n");
        },
        StmtType::ForStmt(x) => {
            emit(out, "for (");
            unparse_expr(&x.expr_1, out);
            emit(out, "; ");
            unparse_expr(&x.expr_2, out);
            emit(out, "; ");
            unparse_expr(&x.expr_3, out);
            emit(out, ")");
            unparse_body(&x.stmt, depth, out);
        },
        StmtType::IfStmt(x) => {
            emit(out, "if (");
            unparse_expr(&x.expr, out);
            emit(out, ")");
            unparse_body(&x.stmt_1, depth, out);
            if let StmtType::EmptyStmt(_) = &*x.stmt_2 {
            } else {
                write_indent(depth, out);
                emit(out, "else");
                unparse_body(&x.stmt_2, depth, out);
            }
        },
        StmtType::ReturnStmt(x) => {
            emit(out, "return");
            if let ExprType::EmptyExpr(_) = &*x.expr {
            } else {
                emit(out, " ");
                unparse_expr(&x.expr, out);
            }
            emit(out, ";\n");
        },
        StmtType::WhileStmt(x) => {
            emit(out, "while (");
            unparse_expr(&x.expr, out);
            emit(out, ")");
            unparse_body(&x.stmt, depth, out);
        },
    }
    assert(out@ =~= o + stmt_text(*s, depth));
}

impl Program {
    /// The program rendered back to source text.
    pub fn print_unparsed_program(&self) -> (r: String)
        ensures
            r@ == program_text(*self),
    {
        let mut out = String::new();
        unparse_decls(&self.declaration_list, 0, &mut out);
        assert(out@ =~= program_text(*self));
        out
    }
}

/// A character as it is written inside a string literal: the characters
/// that have an escape sequence get it, the others stand for themselves.
pub open spec fn escape_char(c: char) -> Seq<char> {
    if c == '\x08' {
        "\\b"@
    } else if c == '\x0C' {
        "\\f"@
    } else if c == '\n' {
        "\\n"@
    } else if c == '\r' {
        "\\r"@
    } else if c == '\t' {
        "\\t"@
    } else if c == '\'' {
        "\\'"@
    } else if c == '"' {
        "\\\""@
    } else if c == '\\' {
        "\\\\"@
    } else {
        seq![c]
    }
}

pub open spec fn escape_text(s: Seq<char>) -> Seq<char>
    decreases s.len(),
{
    if s.len() == 0 {
        Seq::empty()
    } else {
        escape_text(s.drop_last()) + escape_char(s.last())
    }
}

/// `s` with each character written as a string literal would hold it.
pub fn add_escape_to_string(s: &str) -> (r: String)
    ensures
        r@ == escape_text(s@),
{
    let n = s.unicode_len();
    let mut t = String::new();
    let mut i: usize = 0;
    while i < n
        invariant
            n == s@.len(),
            i <= n,
            t@ == escape_text(s@.subrange(0, i as int)),
        decreases n - i,
    {
        let c = s.get_char(i);
        let ghost before = t@;
        match c {
            '\x08' => emit(&mut t, "\\b"),
            '\x0C' => emit(&mut t, "\\f"),
            '\n' => emit(&mut t, "\\n"),
            '\r' => emit(&mut t, "\\r"),
            '\t' => emit(&mut t, "\\t"),
            '\'' => emit(&mut t, "\\'"),
            '"' => emit(&mut t, "\\\""),
            '\\' => emit(&mut t, "\\\\"),
            _ => push_char(&mut t, c),
        }
        assert(s@.subrange(0, i + 1).drop_last() =~= s@.subrange(0, i as int));
        assert(t@ =~= before + escape_char(c));
        i = i + 1;
    }
    assert(s@.subrange(0, n as int) =~= s@);
    t
}

} // verus!
