use vstd::prelude::*;
use crate::token::{TokenKind, keyword_kind};

verus! {

// What the scanner reads, stated over the source as a sequence of characters.

pub open spec fn is_digit(c: char) -> bool {
    '0' <= c && c <= '9'
}

pub open spec fn is_letter(c: char) -> bool {
    ('a' <= c && c <= 'z') || ('A' <= c && c <= 'Z')
}

pub open spec fn is_ident_start(c: char) -> bool {
    is_letter(c) || c == '_'
}

pub open spec fn is_ident_char(c: char) -> bool {
    is_letter(c) || is_digit(c) || c == '_'
}

pub open spec fn is_space(c: char) -> bool {
    c == ' ' || c == '\t' || c == '\n'
}

/// The characters that may follow a backslash inside a string literal.
pub open spec fn is_escape_char(c: char) -> bool {
    c == 'n' || c == 't' || c == 'r' || c == 'f' || c == 'b' || c == '\\' || c == '\''
        || c == '"'
}

/// One character's effect on a (line, column) cursor: a newline starts the
/// next line, a tab moves to the next tab stop, anything else moves one column.
pub open spec fn step(p: (int, int), c: char) -> (int, int) {
    if c == '\n' {
        (p.0 + 1, 1)
    } else if c == '\t' {
        (p.0, ((p.1 - 1) / 8 + 1) * 8 + 1)
    } else {
        (p.0, p.1 + 1)
    }
}

/// The (line, column) of the character at index `n`, starting from (1, 1).
pub open spec fn cursor(s: Seq<char>, n: int) -> (int, int)
    decreases n,
{
    if n <= 0 {
        (1, 1)
    } else {
        step(cursor(s, n - 1), s[n - 1])
    }
}

/// The index just past the newline that ends a line comment whose body
/// starts at `k`, or the end of the input.
pub open spec fn line_comment_end(s: Seq<char>, k: int) -> int
    decreases s.len() - k,
{
    if k >= s.len() {
        s.len() as int
    } else if s[k] == '\n' {
        k + 1
    } else {
        line_comment_end(s, k + 1)
    }
}

/// The index just past the `*/` closing a block comment whose body starts at
/// `k`, or `None` when the input ends first.
pub open spec fn block_comment_end(s: Seq<char>, k: int) -> Option<int>
    decreases s.len() - k,
{
    if k + 1 >= s.len() {
        None
    } else if s[k] == '*' && s[k + 1] == '/' {
        Some(k + 2)
    } else {
        block_comment_end(s, k + 1)
    }
}

/// Skipping whitespace and comments from `i`: `Ok` with the index of the next
/// lexeme (or the end of input), `Err` with the index of a `/*` never closed.
pub open spec fn trivia_end(s: Seq<char>, i: int) -> Result<int, int>
    decreases s.len() - i,
{
    if i < 0 || i >= s.len() {
        Ok(i)
    } else if is_space(s[i]) {
        trivia_end(s, i + 1)
    } else if s[i] == '/' && i + 1 < s.len() && s[i + 1] == '/' {
        let e = line_comment_end(s, i + 2);
        if i < e <= s.len() {
            trivia_end(s, e)
        } else {
            Ok(i)
        }
    } else if s[i] == '/' && i + 1 < s.len() && s[i + 1] == '*' {
        match block_comment_end(s, i + 2) {
            Some(e) => if i < e <= s.len() {
                trivia_end(s, e)
            } else {
                Ok(i)
            },
            None => Err(i),
        }
    } else {
        Ok(i)
    }
}

/// The end of the run of digits that starts at `k`.
pub open spec fn digits_end(s: Seq<char>, k: int) -> int
    decreases s.len() - k,
{
    if 0 <= k < s.len() && is_digit(s[k]) {
        digits_end(s, k + 1)
    } else {
        k
    }
}

/// The end of the run of identifier characters that starts at `k`.
pub open spec fn ident_end(s: Seq<char>, k: int) -> int
    decreases s.len() - k,
{
    if 0 <= k < s.len() && is_ident_char(s[k]) {
        ident_end(s, k + 1)
    } else {
        k
    }
}

/// An exponent `[eE][+-]?digits*` starting at `k`, if there is one.
pub open spec fn exponent_end(s: Seq<char>, k: int) -> int {
    if 0 <= k < s.len() && (s[k] == 'e' || s[k] == 'E') {
        if k + 1 < s.len() && (s[k + 1] == '+' || s[k + 1] == '-') {
            digits_end(s, k + 2)
        } else {
            digits_end(s, k + 1)
        }
    } else {
        k
    }
}

/// A number starting at `i`: its kind and end. Digits, then a float form if a
/// `.`, `e` or `E` follows.
pub open spec fn number_lexeme(s: Seq<char>, i: int) -> (TokenKind, int) {
    let d = digits_end(s, i);
    if d < s.len() && s[d] == '.' {
        (TokenKind::FLOATLITERAL, exponent_end(s, digits_end(s, d + 1)))
    } else if d < s.len() && (s[d] == 'e' || s[d] == 'E') {
        (TokenKind::FLOATLITERAL, exponent_end(s, d))
    } else {
        (TokenKind::INTLITERAL, d)
    }
}

/// The index of the quote closing a string whose body starts at `k`, or
/// `None` for an invalid escape, a newline or carriage return, or the end of
/// input before it.
pub open spec fn string_close(s: Seq<char>, k: int) -> Option<int>
    decreases s.len() - k,
{
    if k < 0 || k >= s.len() {
        None
    } else if s[k] == '"' {
        Some(k)
    } else if s[k] == '\\' {
        if k + 1 < s.len() && is_escape_char(s[k + 1]) {
            string_close(s, k + 2)
        } else {
            None
        }
    } else if s[k] == '\n' || s[k] == '\r' {
        None
    } else {
        string_close(s, k + 1)
    }
}

pub open spec fn separator_kind(c: char) -> Option<TokenKind> {
    if c == '(' {
        Some(TokenKind::LPAREN)
    } else if c == ')' {
        Some(TokenKind::RPAREN)
    } else if c == '{' {
        Some(TokenKind::LBRACE)
    } else if c == '}' {
        Some(TokenKind::RBRACE)
    } else if c == '[' {
        Some(TokenKind::LBRACKET)
    } else if c == ']' {
        Some(TokenKind::RBRACKET)
    } else if c == ';' {
        Some(TokenKind::SEMICOLON)
    } else if c == ',' {
        Some(TokenKind::COMMA)
    } else {
        None
    }
}

/// The operator starting with `c` followed by `n`, by maximal munch: its kind
/// and length.
pub open spec fn operator_kind(c: char, n: Option<char>) -> Option<(TokenKind, int)> {
    if c == '!' && n == Some('=') {
        Some((TokenKind::NOTEQ, 2))
    } else if c == '=' && n == Some('=') {
        Some((TokenKind::EQEQ, 2))
    } else if c == '<' && n == Some('=') {
        Some((TokenKind::LTEQ, 2))
    } else if c == '>' && n == Some('=') {
        Some((TokenKind::GTEQ, 2))
    } else if c == '&' && n == Some('&') {
        Some((TokenKind::ANDAND, 2))
    } else if c == '|' && n == Some('|') {
        Some((TokenKind::OROR, 2))
    } else if c == '+' {
        Some((TokenKind::PLUS, 1))
    } else if c == '-' {
        Some((TokenKind::MINUS, 1))
    } else if c == '*' {
        Some((TokenKind::MULT, 1))
    } else if c == '/' {
        Some((TokenKind::DIV, 1))
    } else if c == '!' {
        Some((TokenKind::NOT, 1))
    } else if c == '=' {
        Some((TokenKind::EQ, 1))
    } else if c == '<' {
        Some((TokenKind::LT, 1))
    } else if c == '>' {
        Some((TokenKind::GT, 1))
    } else {
        None
    }
}

pub open spec fn char_at(s: Seq<char>, k: int) -> Option<char> {
    if 0 <= k < s.len() {
        Some(s[k])
    } else {
        None
    }
}

/// A lexeme that starts at `i`: its kind, where its spelling starts and
/// ends, and where the lexeme itself ends. `None` for an unterminated or
/// malformed string literal.
pub open spec fn lexeme(s: Seq<char>, i: int) -> Option<(TokenKind, int, int, int)> {
    let c = s[i];
    if separator_kind(c) is Some {
        Some((separator_kind(c)->0, i, i + 1, i + 1))
    } else if operator_kind(c, char_at(s, i + 1)) is Some {
        let (k, n) = operator_kind(c, char_at(s, i + 1))->0;
        Some((k, i, i + n, i + n))
    } else if is_digit(c) || (c == '.' && i + 1 < s.len() && is_digit(s[i + 1])) {
        let (k, e) = number_lexeme(s, i);
        Some((k, i, e, e))
    } else if c == '"' {
        match string_close(s, i + 1) {
            Some(q) => Some((TokenKind::STRINGLITERAL, i + 1, q, q + 1)),
            None => None,
        }
    } else if is_ident_start(c) {
        let e = ident_end(s, i);
        Some((keyword_kind(s.subrange(i, e)), i, e, e))
    } else {
        Some((TokenKind::ERROR, i, i + 1, i + 1))
    }
}

} // verus!
