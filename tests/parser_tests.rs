use vc::ast::array_type::AstTypeVariant;
use vc::ast::decl::DeclType;
use vc::ast::expression::ExprType;
use vc::ast::list::ListType;
use vc::ast::primitive_types::AstTypes;
use vc::ast::program::Program;
use vc::ast::statement::StmtType;
use vc::parser::{parse_code, CompileError};
use vc::scanner::{LexicalError, Scanner};
use vc::token::TokenKind;

fn parse(src: &str) -> Result<Program, CompileError> {
    parse_code(Scanner::new(src.to_string()))
}

fn decls(l: &ListType) -> Vec<&DeclType> {
    let mut out = Vec::new();
    let mut cur = l;
    while let ListType::DeclList(c) = cur {
        out.push(&*c.decl_type);
        cur = &c.decl_list;
    }
    assert!(matches!(cur, ListType::EmptyDeclList(_)));
    out
}

fn stmts(l: &ListType) -> Vec<&StmtType> {
    let mut out = Vec::new();
    let mut cur = l;
    while let ListType::StmtList(c) = cur {
        out.push(&*c.stmt);
        cur = &c.stmt_list;
    }
    assert!(matches!(cur, ListType::EmptyStmtList(_)));
    out
}

/// A bracketed rendering of an expression's shape, spellings only.
fn shape(e: &ExprType) -> String {
    match e {
        ExprType::BinaryExpr(b) => format!(
            "({} {} {})",
            shape(&b.expression_one),
            b.operator.spelling,
            shape(&b.expression_two)
        ),
        ExprType::AssignExpr(a) => format!("({} = {})", shape(&a.expression_one), shape(&a.expression_two)),
        ExprType::UnaryExpr(u) => format!("{}{}", u.operator.spelling, shape(&u.expression)),
        ExprType::IntExpr(i) => i.int_literal.spelling.clone(),
        ExprType::VarExpr(v) => v.var.ident.spelling.clone(),
        ExprType::EmptyExpr(_) => String::new(),
        other => format!("{:?}", other),
    }
}

/// The expression of the only statement of `void f() { <stmt> }`.
fn expr_of(stmt: &str) -> String {
    let src = format!("void f() {{ {} }}", stmt);
    let prog = parse(&src).expect("parses");
    let ds = decls(&prog.declaration_list);
    let DeclType::FuncDecl(f) = ds[0] else { panic!("function expected") };
    let StmtType::CompoundStmt(c) = &*f.statements else { panic!("block expected") };
    let ss = stmts(&c.stmt_list);
    let StmtType::ExprStmt(e) = ss[0] else { panic!("expression statement expected") };
    shape(&e.expr)
}

#[test]
fn main_it_works() {
    let result = 2 + 2;
    assert_eq!(result, 4);
}

#[test]
fn test_parser_fibonacci() {
    let src = "void main() {\n    int n;\n    int i;\n    int current;\n    int next;\n    int twoaway;\n\n    putString(\"How many Fibonacci numbers do you want to compute? \");\n    n = getInt();\n    if (n<=0)\n       putString(\"The number should be positive.\");\n    else {\n      putString(\"\\tn\\t\\tfib(n)\\n\\t-\\t\\t-----\\n\");\n      next = current = 1;\n      for (i=1; i<=n; i=i+1) {\n        putString(\"\\t\");\n        putInt(i);\n        putString(\"\\t\\t\");\n        putIntLn(current);\n        twoaway = current+next;\n        current = next;\n        next    = twoaway;\n      }\n    }\n}\n";
    let prog = parse(src).expect("parses");
    let ds = decls(&prog.declaration_list);
    assert_eq!(ds.len(), 1);
    let DeclType::FuncDecl(f) = ds[0] else { panic!() };
    assert_eq!(f.ident.spelling, "main");
    let StmtType::CompoundStmt(c) = &*f.statements else { panic!() };
    assert_eq!(decls(&c.decl_list).len(), 5);
    assert_eq!(stmts(&c.stmt_list).len(), 3);
}

#[test]
fn test_parser_bubble_sort() {
    let src = "int a[5] = {5, 1, 4, 2, 3};\nvoid sort(int v[], int n) {\n  int i, j, t;\n  for (i = 0; i < n; i = i + 1)\n    for (j = 0; j < n - 1 - i; j = j + 1)\n      if (v[j] > v[j + 1]) {\n        t = v[j];\n        v[j] = v[j + 1];\n        v[j + 1] = t;\n      }\n}\nint main() {\n  sort(a, 5);\n  return 0;\n}\n";
    let prog = parse(src).expect("parses");
    let ds = decls(&prog.declaration_list);
    assert_eq!(ds.len(), 3);
    assert!(matches!(ds[0], DeclType::GlobalVarDecl(_)));
    assert!(matches!(ds[1], DeclType::FuncDecl(_)));
    assert!(matches!(ds[2], DeclType::FuncDecl(_)));
}

#[test]
fn test_parser_numerics() {
    let src = "float x = 1.5e3;\nfloat y = .25;\nint z = 42;\nboolean b = true;\n";
    let prog = parse(src).expect("parses");
    let ds = decls(&prog.declaration_list);
    assert_eq!(ds.len(), 4);
    let DeclType::GlobalVarDecl(x) = ds[0] else { panic!() };
    let ExprType::FloatExpr(fx) = &*x.expr else { panic!() };
    assert_eq!(fx.float_literal.spelling, "1.5e3");
}

#[test]
fn single_int_declaration() {
    let prog = parse("int i;").unwrap();
    let ds = decls(&prog.declaration_list);
    assert_eq!(ds.len(), 1);
    let DeclType::GlobalVarDecl(g) = ds[0] else { panic!() };
    assert!(matches!(*g.declaration_type, AstTypeVariant::Primitive(AstTypes::IntType(_))));
    assert_eq!(g.ident.spelling, "i");
    assert!(g.ident.decl.is_none());
    assert!(matches!(*g.expr, ExprType::EmptyExpr(_)));
}

#[test]
fn array_declaration_with_size() {
    let prog = parse("int a[10];").unwrap();
    let ds = decls(&prog.declaration_list);
    let DeclType::GlobalVarDecl(g) = ds[0] else { panic!() };
    let AstTypeVariant::Array(a) = &*g.declaration_type else { panic!() };
    assert!(matches!(*a.array_type, AstTypes::IntType(_)));
    let ExprType::IntExpr(size) = &a.expression else { panic!() };
    assert_eq!(size.int_literal.spelling, "10");
    assert_eq!(g.ident.spelling, "a");
    assert!(matches!(*g.expr, ExprType::EmptyExpr(_)));
}

#[test]
fn void_main_with_return() {
    let prog = parse("void main() { return; }").unwrap();
    let ds = decls(&prog.declaration_list);
    let DeclType::FuncDecl(f) = ds[0] else { panic!() };
    assert!(matches!(*f.function_type, AstTypeVariant::Primitive(AstTypes::VoidType(_))));
    assert_eq!(f.ident.spelling, "main");
    assert!(matches!(*f.param_list, ListType::EmptyParamList(_)));
    let StmtType::CompoundStmt(c) = &*f.statements else { panic!() };
    assert!(decls(&c.decl_list).is_empty());
    let ss = stmts(&c.stmt_list);
    assert_eq!(ss.len(), 1);
    let StmtType::ReturnStmt(r) = ss[0] else { panic!() };
    assert!(matches!(*r.expr, ExprType::EmptyExpr(_)));
}

#[test]
fn precedence_and_associativity() {
    assert_eq!(expr_of("a + b * c;"), "(a + (b * c))");
    assert_eq!(expr_of("a - b - c;"), "((a - b) - c)");
    assert_eq!(expr_of("a = b = c;"), "(a = (b = c))");
    assert_eq!(expr_of("1 + 2 * 3 + 4;"), "((1 + (2 * 3)) + 4)");
    assert_eq!(expr_of("a * b * c;"), "((a * b) * c)");
    assert_eq!(expr_of("a || b && c == d < e + f * -g;"), "(a || (b && (c == (d < (e + (f * -g))))))");
    assert_eq!(expr_of("(a + b) * c;"), "((a + b) * c)");
    assert_eq!(expr_of("!!x;"), "!!x");
}

#[test]
fn function_and_variable_share_a_prefix() {
    let f = parse("int f() { }").unwrap();
    assert!(matches!(decls(&f.declaration_list)[0], DeclType::FuncDecl(_)));
    let v = parse("int f;").unwrap();
    assert!(matches!(decls(&v.declaration_list)[0], DeclType::GlobalVarDecl(_)));
}

#[test]
fn else_if_chain() {
    let prog = parse("void f() { if (x) y = 1; else if (z) y = 2; }").unwrap();
    let DeclType::FuncDecl(f) = decls(&prog.declaration_list)[0] else { panic!() };
    let StmtType::CompoundStmt(c) = &*f.statements else { panic!() };
    let StmtType::IfStmt(outer) = stmts(&c.stmt_list)[0] else { panic!() };
    let StmtType::IfStmt(inner) = &*outer.stmt_2 else { panic!() };
    assert!(matches!(*inner.stmt_2, StmtType::EmptyStmt(_)));
}

#[test]
fn chained_declarations_share_the_type() {
    let prog = parse("int a, b = 3, c[10];").unwrap();
    let ds = decls(&prog.declaration_list);
    assert_eq!(ds.len(), 3);
    let names: Vec<String> = ds
        .iter()
        .map(|d| match d {
            DeclType::GlobalVarDecl(g) => g.ident.spelling.clone(),
            _ => panic!(),
        })
        .collect();
    assert_eq!(names, vec!["a", "b", "c"]);
    let DeclType::GlobalVarDecl(c) = ds[2] else { panic!() };
    assert!(matches!(*c.declaration_type, AstTypeVariant::Array(_)));
}

#[test]
fn calls_subscripts_and_initialisers() {
    assert_eq!(expr_of("f(1, x, g());").contains("CallExpr"), true);
    let prog = parse("void f() { int v[] = {1, 2, 3}; v[0] = f(v[1], 2); }").unwrap();
    let DeclType::FuncDecl(f) = decls(&prog.declaration_list)[0] else { panic!() };
    let StmtType::CompoundStmt(c) = &*f.statements else { panic!() };
    let DeclType::LocalVarDecl(v) = decls(&c.decl_list)[0] else { panic!() };
    let ExprType::ArrayInitExpr(init) = &*v.expr else { panic!() };
    let mut n = 0;
    let mut cur = &*init.init_list;
    while let ListType::ArrayExprList(l) = cur {
        n += 1;
        cur = &l.expr_list;
    }
    assert_eq!(n, 3);
}

#[test]
fn syntax_errors_name_the_offending_token() {
    match parse("int x = ;") {
        Err(CompileError::Syntax { kind, spelling, position }) => {
            assert_eq!(kind, TokenKind::SEMICOLON);
            assert_eq!(spelling, ";");
            assert_eq!((position.line_start, position.char_start), (1, 9));
        }
        other => panic!("unexpected {:?}", other),
    }
    assert!(matches!(parse("int x"), Err(CompileError::Syntax { kind: TokenKind::EOF, .. })));
    assert!(matches!(parse("x = 1;"), Err(CompileError::Syntax { kind: TokenKind::ID, .. })));
    assert!(matches!(parse("void f() { int g() { } }"), Err(CompileError::Syntax { .. })));
    assert!(matches!(parse("void f() { else; }"), Err(CompileError::Syntax { kind: TokenKind::ELSE, .. })));
    assert!(matches!(parse("void f() { x = @; }"), Err(CompileError::Syntax { kind: TokenKind::ERROR, .. })));
}

#[test]
fn lexical_errors_abort_parsing() {
    assert!(matches!(
        parse("int x; /* never closed"),
        Err(CompileError::Lexical(LexicalError::UnterminatedComment { .. }))
    ));
    assert!(matches!(parse("void f() { s = \"abc; }"), Err(CompileError::Lexical(LexicalError::MalformedString { .. }))));
}

#[test]
fn empty_program_has_no_declarations() {
    let prog = parse("  // nothing here\n").unwrap();
    assert!(matches!(prog.declaration_list, ListType::EmptyDeclList(_)));
}
