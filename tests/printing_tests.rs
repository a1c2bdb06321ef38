use vc::parser::parse_code;
use vc::scanner::Scanner;
use vc::token::TokenKind;
use vc::unparser::add_escape_to_string;
use vc::utils::generate_tabbed_string;

#[test]
fn tree_dump_of_a_small_program() {
    let prog = parse_code(Scanner::new("int x = -1;".to_string())).unwrap();
    let expected = "Program
        DeclList
                GlobalVarDecl
                        IntType
                        Ident (x)
                        UnaryExpr
                                Operator (-)
                                IntExpr
                                        IntLiteral (1)
                EmptyDeclList
";
    assert_eq!(prog.print_program(), expected);
}

#[test]
fn tree_dump_of_a_function() {
    let prog = parse_code(Scanner::new("void f(int a[]) { g(a); }".to_string())).unwrap();
    let expected = "Program
        DeclList
                FuncDecl
                        VoidType
                        Ident (f)
                        ParamList
                                ParaDecl
                                        ArrayType
                                                IntType
                                                EmptyExpr
                                        Ident (a)
                                EmptyParamList
                        CompoundStmt
                                EmptyDeclList
                                StmtList
                                        ExprStmt
                                                CallExpr
                                                        Ident (g)
                                                        ArgList
                                                                Arg
                                                                        VarExpr
                                                                                VarUntyped
                                                                                        Ident (a)
                                                                EmptyArgList
                                        EmptyStmtList
                EmptyDeclList
";
    assert_eq!(prog.print_program(), expected);
}

#[test]
fn tabbed_names_keep_the_last_path_segment() {
    assert_eq!(generate_tabbed_string("vc::ast::statement::IfStmt", 2), format!("{}IfStmt", " ".repeat(16)));
    assert_eq!(generate_tabbed_string("Program", 0), "Program");
    assert_eq!(generate_tabbed_string("a:::b", 1), "        b");
    assert_eq!(generate_tabbed_string("", 0), "");
}

#[test]
fn escapes_are_written_out() {
    assert_eq!(add_escape_to_string("a\tb\n"), "a\\tb\\n");
    assert_eq!(add_escape_to_string("\"q\" \\ '"), "\\\"q\\\" \\\\ \\'");
    assert_eq!(add_escape_to_string("\u{8}\u{c}\r"), "\\b\\f\\r");
    assert_eq!(add_escape_to_string("plain"), "plain");
}

#[test]
fn kinds_from_their_names() {
    assert_eq!(TokenKind::from_str("<="), TokenKind::LTEQ);
    assert_eq!(TokenKind::from_str("boolean"), TokenKind::BOOLEAN);
    assert_eq!(TokenKind::from_str("<string-literal>"), TokenKind::STRINGLITERAL);
    assert_eq!(TokenKind::from_str("$"), TokenKind::EOF);
    assert_eq!(TokenKind::from_str("counter"), TokenKind::ID);
    assert_eq!(TokenKind::from_str("<id>"), TokenKind::ID);
}
