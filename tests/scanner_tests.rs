use vc::scanner::{LexicalError, Scanner};
use vc::token::TokenKind::{
    ANDAND, BOOLEAN, BOOLEANLITERAL, BREAK, COMMA, CONTINUE, DIV, ELSE, EOF, EQ, EQEQ, FLOAT,
    FLOATLITERAL, FOR, GT, GTEQ, ID, IF, INT, INTLITERAL, LBRACE, LPAREN, LT, LTEQ, MINUS, MULT,
    NOT, NOTEQ, OROR, PLUS, RBRACE, RETURN, RPAREN, SEMICOLON, VOID, WHILE,
};
use vc::token::{Token, TokenKind};
use vc::utils::SourcePosition;

fn scan(src: &str) -> Vec<Token> {
    let mut scanner = Scanner::new(src.to_string());
    scanner.scan_all().expect("no lexical error")
}

fn kinds(src: &str) -> Vec<TokenKind> {
    scan(src).iter().map(|t| t.token_kind).collect()
}

const GCD: &str = "int i;\nint j;\n\nint gcd(int a, int b) {\n  if (b == 0)\n    return a;\n  else\n  return gcd(b, a - (a/b) *b);\n}\nvoid main() {\n  i = getInt();\n  j = getInt();\n  putIntLn(gcd(i, j));\n}\n";

#[test]
fn scanner_it_works() {
    let result = 2 + 2;
    assert_eq!(result, 4);
}

#[test]
fn test_string_scanning() {
    let src = "// strings\n\n  \"comp3131\"\n  \"x\\ty\"\n  \"carriage return\\r\"\n  \"a\\'\\\\b\"\n  \"comp3131\\ncomp9102\"\n";
    let tokens = scan(src);
    let expected = vec![
        Token::new(TokenKind::STRINGLITERAL, "comp3131".to_string(), SourcePosition::new(3, 3, 3, 12)),
        Token::new(TokenKind::STRINGLITERAL, "x\\ty".to_string(), SourcePosition::new(4, 4, 3, 8)),
        Token::new(TokenKind::STRINGLITERAL, "carriage return\\r".to_string(), SourcePosition::new(5, 5, 3, 21)),
        Token::new(TokenKind::STRINGLITERAL, "a\\'\\\\b".to_string(), SourcePosition::new(6, 6, 3, 10)),
        Token::new(TokenKind::STRINGLITERAL, "comp3131\\ncomp9102".to_string(), SourcePosition::new(7, 7, 3, 22)),
        Token::new(TokenKind::EOF, "$".to_string(), SourcePosition::new(8, 8, 1, 1)),
    ];
    assert_eq!(tokens, expected);
}

#[test]
fn test_seps_newline() {
    assert_eq!(
        kinds("(\n(\n(\n"),
        vec![TokenKind::LPAREN, TokenKind::LPAREN, TokenKind::LPAREN, TokenKind::EOF]
    );
}

#[test]
fn test_all_separators() {
    assert_eq!(
        kinds("( ) { } [ ] ; ,\n"),
        vec![
            TokenKind::LPAREN,
            TokenKind::RPAREN,
            TokenKind::LBRACE,
            TokenKind::RBRACE,
            TokenKind::LBRACKET,
            TokenKind::RBRACKET,
            TokenKind::SEMICOLON,
            TokenKind::COMMA,
            TokenKind::EOF
        ]
    );
}

#[test]
fn test_literals_identifiers() {
    assert_eq!(
        kinds("int i;\nfloat f;\nboolean b;\n"),
        vec![
            TokenKind::INT,
            TokenKind::ID,
            TokenKind::SEMICOLON,
            TokenKind::FLOAT,
            TokenKind::ID,
            TokenKind::SEMICOLON,
            TokenKind::BOOLEAN,
            TokenKind::ID,
            TokenKind::SEMICOLON,
            TokenKind::EOF,
        ]
    );
}

#[test]
fn test_gcd_signature() {
    assert_eq!(
        kinds("int gcd(int a, int b) {\n}\n"),
        vec![
            TokenKind::INT,
            TokenKind::ID,
            TokenKind::LPAREN,
            TokenKind::INT,
            TokenKind::ID,
            TokenKind::COMMA,
            TokenKind::INT,
            TokenKind::ID,
            TokenKind::RPAREN,
            TokenKind::LBRACE,
            TokenKind::RBRACE,
            TokenKind::EOF,
        ]
    );
}

#[test]
fn test_gcd_whole_file() {
    let expected: Vec<(TokenKind, &str, (usize, usize, usize, usize))> = vec![
        (INT, "int", (1, 1, 1, 3)), (ID, "i", (1, 1, 5, 5)), (SEMICOLON, ";", (1, 1, 6, 6)),
        (INT, "int", (2, 2, 1, 3)), (ID, "j", (2, 2, 5, 5)), (SEMICOLON, ";", (2, 2, 6, 6)),
        (INT, "int", (4, 4, 1, 3)), (ID, "gcd", (4, 4, 5, 7)), (LPAREN, "(", (4, 4, 8, 8)),
        (INT, "int", (4, 4, 9, 11)), (ID, "a", (4, 4, 13, 13)), (COMMA, ",", (4, 4, 14, 14)),
        (INT, "int", (4, 4, 16, 18)), (ID, "b", (4, 4, 20, 20)), (RPAREN, ")", (4, 4, 21, 21)),
        (LBRACE, "{", (4, 4, 23, 23)), (IF, "if", (5, 5, 3, 4)), (LPAREN, "(", (5, 5, 6, 6)),
        (ID, "b", (5, 5, 7, 7)), (EQEQ, "==", (5, 5, 9, 10)), (INTLITERAL, "0", (5, 5, 12, 12)),
        (RPAREN, ")", (5, 5, 13, 13)), (RETURN, "return", (6, 6, 5, 10)), (ID, "a", (6, 6, 12, 12)),
        (SEMICOLON, ";", (6, 6, 13, 13)), (ELSE, "else", (7, 7, 3, 6)),
        (RETURN, "return", (8, 8, 3, 8)), (ID, "gcd", (8, 8, 10, 12)), (LPAREN, "(", (8, 8, 13, 13)),
        (ID, "b", (8, 8, 14, 14)), (COMMA, ",", (8, 8, 15, 15)), (ID, "a", (8, 8, 17, 17)),
        (MINUS, "-", (8, 8, 19, 19)), (LPAREN, "(", (8, 8, 21, 21)), (ID, "a", (8, 8, 22, 22)),
        (DIV, "/", (8, 8, 23, 23)), (ID, "b", (8, 8, 24, 24)), (RPAREN, ")", (8, 8, 25, 25)),
        (MULT, "*", (8, 8, 27, 27)), (ID, "b", (8, 8, 28, 28)), (RPAREN, ")", (8, 8, 29, 29)),
        (SEMICOLON, ";", (8, 8, 30, 30)), (RBRACE, "}", (9, 9, 1, 1)),
        (VOID, "void", (10, 10, 1, 4)), (ID, "main", (10, 10, 6, 9)), (LPAREN, "(", (10, 10, 10, 10)),
        (RPAREN, ")", (10, 10, 11, 11)), (LBRACE, "{", (10, 10, 13, 13)),
        (ID, "i", (11, 11, 3, 3)), (EQ, "=", (11, 11, 5, 5)), (ID, "getInt", (11, 11, 7, 12)),
        (LPAREN, "(", (11, 11, 13, 13)), (RPAREN, ")", (11, 11, 14, 14)), (SEMICOLON, ";", (11, 11, 15, 15)),
        (ID, "j", (12, 12, 3, 3)), (EQ, "=", (12, 12, 5, 5)), (ID, "getInt", (12, 12, 7, 12)),
        (LPAREN, "(", (12, 12, 13, 13)), (RPAREN, ")", (12, 12, 14, 14)), (SEMICOLON, ";", (12, 12, 15, 15)),
        (ID, "putIntLn", (13, 13, 3, 10)), (LPAREN, "(", (13, 13, 11, 11)), (ID, "gcd", (13, 13, 12, 14)),
        (LPAREN, "(", (13, 13, 15, 15)), (ID, "i", (13, 13, 16, 16)), (COMMA, ",", (13, 13, 17, 17)),
        (ID, "j", (13, 13, 19, 19)), (RPAREN, ")", (13, 13, 20, 20)), (RPAREN, ")", (13, 13, 21, 21)),
        (SEMICOLON, ";", (13, 13, 22, 22)), (RBRACE, "}", (14, 14, 1, 1)), (EOF, "$", (15, 15, 1, 1)),
    ];
    let tokens = scan(GCD);
    assert_eq!(tokens.len(), expected.len());
    for (t, (k, s, (a, b, c, d))) in tokens.iter().zip(expected.iter()) {
        assert_eq!(t.token_kind, *k);
        assert_eq!(t.spelling, *s);
        assert_eq!(t.token_position, SourcePosition::new(*a, *b, *c, *d));
    }
}

#[test]
fn string_with_tab_escape_keeps_escape_and_spans_quotes() {
    let tokens = scan("\"a\\tb\"");
    assert_eq!(tokens.len(), 2);
    assert_eq!(tokens[0].token_kind, TokenKind::STRINGLITERAL);
    assert_eq!(tokens[0].spelling, "a\\tb");
    assert_eq!(tokens[0].spelling.chars().count(), 4);
    assert_eq!(tokens[0].token_position, SourcePosition::new(1, 1, 1, 6));
    assert_eq!(tokens[1].token_kind, TokenKind::EOF);
}

#[test]
fn unterminated_comment_names_its_opening() {
    let mut scanner = Scanner::new("/* unterminated".to_string());
    assert_eq!(
        scanner.get_next_token(),
        Err(LexicalError::UnterminatedComment { position: SourcePosition::new(1, 1, 1, 1) })
    );
    let mut scanner = Scanner::new("int x;\n  /* open".to_string());
    assert_eq!(scanner.get_next_token().unwrap().token_kind, TokenKind::INT);
    assert_eq!(scanner.get_next_token().unwrap().token_kind, TokenKind::ID);
    assert_eq!(scanner.get_next_token().unwrap().token_kind, TokenKind::SEMICOLON);
    assert_eq!(
        scanner.get_next_token(),
        Err(LexicalError::UnterminatedComment { position: SourcePosition::new(2, 2, 3, 3) })
    );
}

#[test]
fn malformed_strings_are_lexical_errors() {
    for src in ["\"abc", "\"ab\ncd\"", "\"a\\qb\"", "\"a\rb\""] {
        let mut scanner = Scanner::new(src.to_string());
        assert_eq!(
            scanner.get_next_token(),
            Err(LexicalError::MalformedString { position: SourcePosition::new(1, 1, 1, 1) })
        );
    }
}

#[test]
fn operators_take_the_longest_match() {
    assert_eq!(
        kinds("+ - * / ! != = == < <= > >= && ||"),
        vec![PLUS, MINUS, MULT, DIV, NOT, NOTEQ, EQ, EQEQ, LT, LTEQ, GT, GTEQ, ANDAND, OROR, EOF]
    );
    assert_eq!(kinds("a<=b"), vec![ID, LTEQ, ID, EOF]);
    assert_eq!(kinds("!!="), vec![NOT, NOTEQ, EOF]);
}

#[test]
fn numbers_ints_and_floats() {
    let tokens = scan("12 1.5 .5 1e10 2E-3 3. 1.2e+4 7");
    let got: Vec<(TokenKind, String)> = tokens.iter().map(|t| (t.token_kind, t.spelling.clone())).collect();
    let want = vec![
        (INTLITERAL, "12"), (FLOATLITERAL, "1.5"), (FLOATLITERAL, ".5"), (FLOATLITERAL, "1e10"),
        (FLOATLITERAL, "2E-3"), (FLOATLITERAL, "3."), (FLOATLITERAL, "1.2e+4"), (INTLITERAL, "7"),
        (EOF, "$"),
    ];
    let want: Vec<(TokenKind, String)> = want.into_iter().map(|(k, s)| (k, s.to_string())).collect();
    assert_eq!(got, want);
}

#[test]
fn keywords_booleans_and_identifiers() {
    assert_eq!(
        kinds("boolean break continue else float for if int return void while true false x_1 _y iffy"),
        vec![BOOLEAN, BREAK, CONTINUE, ELSE, FLOAT, FOR, IF, INT, RETURN, VOID, WHILE,
             BOOLEANLITERAL, BOOLEANLITERAL, ID, ID, ID, EOF]
    );
    let t = scan("x_1");
    assert_eq!(t[0].spelling, "x_1");
    assert_eq!(t[0].token_position, SourcePosition::new(1, 1, 1, 3));
}

#[test]
fn comments_and_tabs_are_skipped() {
    let tokens = scan("// line\n/* block\n */\tx");
    assert_eq!(tokens[0].token_kind, TokenKind::ID);
    assert_eq!(tokens[0].token_position, SourcePosition::new(3, 3, 9, 9));
    let tokens = scan("ab\tc");
    assert_eq!(tokens[1].token_position, SourcePosition::new(1, 1, 9, 9));
    let tokens = scan("abcdefgh\tc");
    assert_eq!(tokens[1].token_position, SourcePosition::new(1, 1, 17, 17));
}

#[test]
fn unknown_character_is_an_error_token() {
    let tokens = scan("a @ b");
    assert_eq!(tokens.len(), 2);
    assert_eq!(tokens[1].token_kind, TokenKind::ERROR);
    assert_eq!(tokens[1].spelling, "@");
    let tokens = scan("a & b");
    assert_eq!(tokens[1].token_kind, TokenKind::ERROR);
    assert_eq!(tokens[1].spelling, "&");
}

#[test]
fn scanner_is_total_and_positions_never_go_back() {
    for src in ["", "   ", GCD, "x = 1;\n\ty = \"s\" + 2.5e3 / z;", "a @"] {
        let tokens = scan(src);
        assert!(!tokens.is_empty());
        let last = tokens.last().unwrap().token_kind;
        assert!(last == TokenKind::EOF || last == TokenKind::ERROR);
        for t in &tokens[..tokens.len() - 1] {
            assert!(t.token_kind != TokenKind::EOF && t.token_kind != TokenKind::ERROR);
        }
        for w in tokens.windows(2) {
            let (a, b) = (w[0].token_position, w[1].token_position);
            assert!((a.line_start, a.char_start) <= (b.line_start, b.char_start));
        }
    }
}

#[test]
fn eof_repeats_after_the_end() {
    let mut scanner = Scanner::new("x".to_string());
    assert_eq!(scanner.get_next_token().unwrap().token_kind, TokenKind::ID);
    for _ in 0..3 {
        let t = scanner.get_next_token().unwrap();
        assert_eq!(t.token_kind, TokenKind::EOF);
        assert_eq!(t.spelling, "$");
        assert_eq!(t.token_position, SourcePosition::new(1, 1, 2, 2));
    }
}

#[test]
fn token_kind_names_and_classification() {
    assert_eq!(TokenKind::from_spelling("while"), TokenKind::WHILE);
    assert_eq!(TokenKind::from_spelling("true"), TokenKind::BOOLEANLITERAL);
    assert_eq!(TokenKind::from_spelling("whilex"), TokenKind::ID);
    assert_eq!(TokenKind::LTEQ.as_str(), "<=");
    assert_eq!(TokenKind::EOF.as_str(), "$");
    assert_eq!(TokenKind::INTLITERAL.as_str(), "<int-literal>");
    let t = Token::new(TokenKind::ID, "int".to_string(), SourcePosition::new(1, 1, 1, 3));
    assert_eq!(t.token_kind, TokenKind::INT);
    assert_eq!(t.kind_to_string(), "int");
}
