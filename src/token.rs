use vstd::prelude::*;
use vstd::string::StrSliceExecFns;
use crate::utils::SourcePosition;

verus! {

/// The closed set of token kinds.
#[allow(non_camel_case_types)]
#[derive(Clone, Copy, Debug, PartialEq, Eq, Hash, Structural)]
pub enum TokenKind {
    // keywords
    BOOLEAN,
    BREAK,
    CONTINUE,
    ELSE,
    FLOAT,
    FOR,
    IF,
    INT,
    RETURN,
    VOID,
    WHILE,
    // operators
    PLUS,
    MINUS,
    MULT,
    DIV,
    NOT,
    NOTEQ,
    EQ,
    EQEQ,
    LT,
    LTEQ,
    GT,
    GTEQ,
    ANDAND,
    OROR,
    // separators
    LBRACE,
    RBRACE,
    LPAREN,
    RPAREN,
    LBRACKET,
    RBRACKET,
    SEMICOLON,
    COMMA,
    // identifiers
    ID,
    // literals
    INTLITERAL,
    FLOATLITERAL,
    BOOLEANLITERAL,
    STRINGLITERAL,
    // special tokens
    ERROR,
    EOF,
}

/// A lexeme with its kind and the span it occupies in the source.
#[derive(Clone, Debug, PartialEq)]
pub struct Token {
    pub token_kind: TokenKind,
    pub spelling: String,
    pub token_position: SourcePosition,
}

/// The kind that a word read as an identifier gets: a keyword's own kind,
/// `BOOLEANLITERAL` for `true` and `false`, `ID` for any other word.
pub open spec fn keyword_kind(s: Seq<char>) -> TokenKind {
    if s == "boolean"@ {
        TokenKind::BOOLEAN
    } else if s == "break"@ {
        TokenKind::BREAK
    } else if s == "continue"@ {
        TokenKind::CONTINUE
    } else if s == "else"@ {
        TokenKind::ELSE
    } else if s == "float"@ {
        TokenKind::FLOAT
    } else if s == "for"@ {
        TokenKind::FOR
    } else if s == "if"@ {
        TokenKind::IF
    } else if s == "int"@ {
        TokenKind::INT
    } else if s == "return"@ {
        TokenKind::RETURN
    } else if s == "void"@ {
        TokenKind::VOID
    } else if s == "while"@ {
        TokenKind::WHILE
    } else if s == "true"@ || s == "false"@ {
        TokenKind::BOOLEANLITERAL
    } else {
        TokenKind::ID
    }
}

/// The printable name of each kind: the spelling for keywords, operators and
/// separators, a bracketed description for the others, `$` for end of input.
pub open spec fn kind_text(k: TokenKind) -> Seq<char> {
    match k {
        TokenKind::BOOLEAN => "boolean"@,
        TokenKind::BREAK => "break"@,
        TokenKind::CONTINUE => "continue"@,
        TokenKind::ELSE => "else"@,
        TokenKind::FLOAT => "float"@,
        TokenKind::FOR => "for"@,
        TokenKind::IF => "if"@,
        TokenKind::INT => "int"@,
        TokenKind::RETURN => "return"@,
        TokenKind::VOID => "void"@,
        TokenKind::WHILE => "while"@,
        TokenKind::PLUS => "+"@,
        TokenKind::MINUS => "-"@,
        TokenKind::MULT => "*"@,
        TokenKind::DIV => "/"@,
        TokenKind::NOT => "!"@,
        TokenKind::NOTEQ => "!="@,
        TokenKind::EQ => "="@,
        TokenKind::EQEQ => "=="@,
        TokenKind::LT => "<"@,
        TokenKind::LTEQ => "<="@,
        TokenKind::GT => ">"@,
        TokenKind::GTEQ => ">="@,
        TokenKind::ANDAND => "&&"@,
        TokenKind::OROR => "||"@,
        TokenKind::LBRACE => "{"@,
        TokenKind::RBRACE => "}"@,
        TokenKind::LPAREN => "("@,
        TokenKind::RPAREN => ")"@,
        TokenKind::LBRACKET => "["@,
        TokenKind::RBRACKET => "]"@,
        TokenKind::SEMICOLON => ";"@,
        TokenKind::COMMA => ","@,
        TokenKind::ID => "<id>"@,
        TokenKind::INTLITERAL => "<int-literal>"@,
        TokenKind::FLOATLITERAL => "<float-literal>"@,
        TokenKind::BOOLEANLITERAL => "<boolean-literal>"@,
        TokenKind::STRINGLITERAL => "<string-literal>"@,
        TokenKind::ERROR => "<error>"@,
        TokenKind::EOF => "$"@,
    }
}

/// Whether two strings hold the same characters.
pub fn same_chars(s: &str, w: &str) -> (r: bool)
    ensures
        r == (s@ == w@),
{
    let n = s.unicode_len();
    if n != w.unicode_len() {
        return false;
    }
    let mut i: usize = 0;
    while i < n
        invariant
            n == s@.len(),
            n == w@.len(),
            i <= n,
            s@.subrange(0, i as int) == w@.subrange(0, i as int),
        decreases n - i,
    {
        if s.get_char(i) != w.get_char(i) {
            return false;
        }
        assert(s@.subrange(0, i + 1) == s@.subrange(0, i as int).push(s@[i as int]));
        assert(w@.subrange(0, i + 1) == w@.subrange(0, i as int).push(w@[i as int]));
        i = i + 1;
    }
    assert(s@ == s@.subrange(0, n as int));
    assert(w@ == w@.subrange(0, n as int));
    true
}

impl TokenKind {
    /// The kind of a word: a keyword, a boolean literal, or an identifier.
    pub fn from_spelling(spelling: &str) -> (r: Self)
        ensures
            r == keyword_kind(spelling@),
    {
        if same_chars(spelling, "boolean") {
            TokenKind::BOOLEAN
        } else if same_chars(spelling, "break") {
            TokenKind::BREAK
        } else if same_chars(spelling, "continue") {
            TokenKind::CONTINUE
        } else if same_chars(spelling, "else") {
            TokenKind::ELSE
        } else if same_chars(spelling, "float") {
            TokenKind::FLOAT
        } else if same_chars(spelling, "for") {
            TokenKind::FOR
        } else if same_chars(spelling, "if") {
            TokenKind::IF
        } else if same_chars(spelling, "int") {
            TokenKind::INT
        } else if same_chars(spelling, "return") {
            TokenKind::RETURN
        } else if same_chars(spelling, "void") {
            TokenKind::VOID
        } else if same_chars(spelling, "while") {
            TokenKind::WHILE
        } else if same_chars(spelling, "true") || same_chars(spelling, "false") {
            TokenKind::BOOLEANLITERAL
        } else {
            TokenKind::ID
        }
    }

    /// The kind whose printable name is `s` (see `kind_text`); `ID` for any
    /// other text.
    pub fn from_str(s: &str) -> (r: Self)
        ensures
            (exists|k: TokenKind| kind_text(k) == s@) ==> kind_text(r) == s@,
            !(exists|k: TokenKind| kind_text(k) == s@) ==> r == TokenKind::ID,
    {
        if same_chars(s, TokenKind::BOOLEAN.as_str()) {
            return TokenKind::BOOLEAN;
        }
        if same_chars(s, TokenKind::BREAK.as_str()) {
            return TokenKind::BREAK;
        }
        if same_chars(s, TokenKind::CONTINUE.as_str()) {
            return TokenKind::CONTINUE;
        }
        if same_chars(s, TokenKind::ELSE.as_str()) {
            return TokenKind::ELSE;
        }
        if same_chars(s, TokenKind::FLOAT.as_str()) {
            return TokenKind::FLOAT;
        }
        if same_chars(s, TokenKind::FOR.as_str()) {
            return TokenKind::FOR;
        }
        if same_chars(s, TokenKind::IF.as_str()) {
            return TokenKind::IF;
        }
        if same_chars(s, TokenKind::INT.as_str()) {
            return TokenKind::INT;
        }
        if same_chars(s, TokenKind::RETURN.as_str()) {
            return TokenKind::RETURN;
        }
        if same_chars(s, TokenKind::VOID.as_str()) {
            return TokenKind::VOID;
        }
        if same_chars(s, TokenKind::WHILE.as_str()) {
            return TokenKind::WHILE;
        }
        if same_chars(s, TokenKind::PLUS.as_str()) {
            return TokenKind::PLUS;
        }
        if same_chars(s, TokenKind::MINUS.as_str()) {
            return TokenKind::MINUS;
        }
        if same_chars(s, TokenKind::MULT.as_str()) {
            return TokenKind::MULT;
        }
        if same_chars(s, TokenKind::DIV.as_str()) {
            return TokenKind::DIV;
        }
        if same_chars(s, TokenKind::NOT.as_str()) {
            return TokenKind::NOT;
        }
        if same_chars(s, TokenKind::NOTEQ.as_str()) {
            return TokenKind::NOTEQ;
        }
        if same_chars(s, TokenKind::EQ.as_str()) {
            return TokenKind::EQ;
        }
        if same_chars(s, TokenKind::EQEQ.as_str()) {
            return TokenKind::EQEQ;
        }
        if same_chars(s, TokenKind::LT.as_str()) {
            return TokenKind::LT;
        }
        if same_chars(s, TokenKind::LTEQ.as_str()) {
            return TokenKind::LTEQ;
        }
        if same_chars(s, TokenKind::GT.as_str()) {
            return TokenKind::GT;
        }
        if same_chars(s, TokenKind::GTEQ.as_str()) {
            return TokenKind::GTEQ;
        }
        if same_chars(s, TokenKind::ANDAND.as_str()) {
            return TokenKind::ANDAND;
        }
        if same_chars(s, TokenKind::OROR.as_str()) {
            return TokenKind::OROR;
        }
        if same_chars(s, TokenKind::LBRACE.as_str()) {
            return TokenKind::LBRACE;
        }
        if same_chars(s, TokenKind::RBRACE.as_str()) {
            return TokenKind::RBRACE;
        }
        if same_chars(s, TokenKind::LPAREN.as_str()) {
            return TokenKind::LPAREN;
        }
        if same_chars(s, TokenKind::RPAREN.as_str()) {
            return TokenKind::RPAREN;
        }
        if same_chars(s, TokenKind::LBRACKET.as_str()) {
            return TokenKind::LBRACKET;
        }
        if same_chars(s, TokenKind::RBRACKET.as_str()) {
            return TokenKind::RBRACKET;
        }
        if same_chars(s, TokenKind::SEMICOLON.as_str()) {
            return TokenKind::SEMICOLON;
        }
        if same_chars(s, TokenKind::COMMA.as_str()) {
            return TokenKind::COMMA;
        }
        if same_chars(s, TokenKind::INTLITERAL.as_str()) {
            return TokenKind::INTLITERAL;
        }
        if same_chars(s, TokenKind::FLOATLITERAL.as_str()) {
            return TokenKind::FLOATLITERAL;
        }
        if same_chars(s, TokenKind::BOOLEANLITERAL.as_str()) {
            return TokenKind::BOOLEANLITERAL;
        }
        if same_chars(s, TokenKind::STRINGLITERAL.as_str()) {
            return TokenKind::STRINGLITERAL;
        }
        if same_chars(s, TokenKind::ERROR.as_str()) {
            return TokenKind::ERROR;
        }
        if same_chars(s, TokenKind::EOF.as_str()) {
            return TokenKind::EOF;
        }
        assert forall|k: TokenKind| k != TokenKind::ID implies kind_text(k) != s@ by {
            match k {
                _ => {},
            }
        }
        TokenKind::ID
    }

    pub fn as_str(&self) -> (r: &'static str)
        ensures
            r@ == kind_text(*self),
    {
        match self {
            TokenKind::BOOLEAN => "boolean",
            TokenKind::BREAK => "break",
            TokenKind::CONTINUE => "continue",
            TokenKind::ELSE => "else",
            TokenKind::FLOAT => "float",
            TokenKind::FOR => "for",
            TokenKind::IF => "if",
            TokenKind::INT => "int",
            TokenKind::RETURN => "return",
            TokenKind::VOID => "void",
            TokenKind::WHILE => "while",
            TokenKind::PLUS => "+",
            TokenKind::MINUS => "-",
            TokenKind::MULT => "*",
            TokenKind::DIV => "/",
            TokenKind::NOT => "!",
            TokenKind::NOTEQ => "!=",
            TokenKind::EQ => "=",
            TokenKind::EQEQ => "==",
            TokenKind::LT => "<",
            TokenKind::LTEQ => "<=",
            TokenKind::GT => ">",
            TokenKind::GTEQ => ">=",
            TokenKind::ANDAND => "&&",
            TokenKind::OROR => "||",
            TokenKind::LBRACE => "{",
            TokenKind::RBRACE => "}",
            TokenKind::LPAREN => "(",
            TokenKind::RPAREN => ")",
            TokenKind::LBRACKET => "[",
            TokenKind::RBRACKET => "]",
            TokenKind::SEMICOLON => ";",
            TokenKind::COMMA => ",",
            TokenKind::ID => "<id>",
            TokenKind::INTLITERAL => "<int-literal>",
            TokenKind::FLOATLITERAL => "<float-literal>",
            TokenKind::BOOLEANLITERAL => "<boolean-literal>",
            TokenKind::STRINGLITERAL => "<string-literal>",
            TokenKind::ERROR => "<error>",
            TokenKind::EOF => "$",
        }
    }
}

impl Token {
    /// A token; a word given as `ID` is classified by its spelling, so that
    /// keywords and boolean literals get their own kinds.
    pub fn new(kind: TokenKind, spelling: String, position: SourcePosition) -> (r: Self)
        ensures
            r.token_kind == (if kind == TokenKind::ID {
                keyword_kind(spelling@)
            } else {
                kind
            }),
            r.spelling@ == spelling@,
            r.token_position == position,
    {
        let token_kind = if kind == TokenKind::ID {
            TokenKind::from_spelling(spelling.as_str())
        } else {
            kind
        };
        Token { token_kind, spelling, token_position: position }
    }

    pub fn kind_to_string(&self) -> (r: &'static str)
        ensures
            r@ == kind_text(self.token_kind),
    {
        self.token_kind.as_str()
    }
}

} // verus!
