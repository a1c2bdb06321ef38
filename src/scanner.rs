use vstd::prelude::*;
use vstd::string::StringExecFns;
use vstd::std_specs::iter::IteratorSpec;
use crate::lexical::{
    block_comment_end, char_at, cursor, digits_end, exponent_end, ident_end, is_digit,
    is_ident_char, is_ident_start, lexeme, line_comment_end, number_lexeme, operator_kind,
    separator_kind, string_close, trivia_end,
};
use crate::grammar::Tok;
use crate::token::{Token, TokenKind};
use crate::utils::{SourcePosition, TAB_SIZE};

verus! {

/// The longest source, in characters, whose positions are sure to fit in a `usize`.
pub open spec fn max_source_len() -> int {
    usize::MAX as int / 16
}

/// A fatal lexical error, with the position where the offending construct opens.
#[derive(Clone, Copy, Debug, PartialEq, Eq, Structural)]
pub enum LexicalError {
    /// A `/*` with no `*/` after it.
    UnterminatedComment { position: SourcePosition },
    /// A string literal holding a bad escape, a newline or a carriage return,
    /// or running into the end of input.
    MalformedString { position: SourcePosition },
}

/// The one-character span at index `k`.
pub open spec fn point_at(s: Seq<char>, k: int) -> SourcePosition {
    SourcePosition {
        line_start: cursor(s, k).0 as usize,
        line_finish: cursor(s, k).0 as usize,
        char_start: cursor(s, k).1 as usize,
        char_end: cursor(s, k).1 as usize,
    }
}

/// The span of the characters from `a` up to (not including) `e`.
pub open spec fn span(s: Seq<char>, a: int, e: int) -> SourcePosition {
    SourcePosition {
        line_start: cursor(s, a).0 as usize,
        line_finish: cursor(s, e).0 as usize,
        char_start: cursor(s, a).1 as usize,
        char_end: (cursor(s, e).1 - 1) as usize,
    }
}

/// The next token from index `i`: its kind, spelling, span, and the index
/// just past it; or the lexical error met on the way.
pub open spec fn next_token_spec(s: Seq<char>, i: int) -> Result<
    (TokenKind, Seq<char>, SourcePosition, int),
    LexicalError,
> {
    match trivia_end(s, i) {
        Err(k) => Err(LexicalError::UnterminatedComment { position: point_at(s, k) }),
        Ok(t) => if t >= s.len() {
            Ok((TokenKind::EOF, "$"@, point_at(s, t), t))
        } else {
            match lexeme(s, t) {
                None => Err(LexicalError::MalformedString { position: point_at(s, t) }),
                Some((k, a, b, e)) => Ok((k, s.subrange(a, b), span(s, t, e), e)),
            }
        },
    }
}

/// The tokens read from index `i` on, each as its kind and spelling, up to
/// and including the first `EOF` or `ERROR`; or the first lexical error met.
pub open spec fn token_stream(s: Seq<char>, i: int) -> Result<Seq<Tok>, LexicalError>
    decreases s.len() - i,
{
    match next_token_spec(s, i) {
        Err(e) => Err(e),
        Ok((k, sp, _pos, e)) => if ends_stream(k) || !(i < e <= s.len()) {
            Ok(seq![(k, sp)])
        } else {
            match token_stream(s, e) {
                Ok(rest) => Ok(seq![(k, sp)] + rest),
                Err(x) => Err(x),
            }
        },
    }
}

/// Scanning is total: from any index of any source the scanner either meets
/// a lexical error or yields a finite, non-empty run of tokens whose last one,
/// and only that one, is `EOF` or `ERROR`.
pub proof fn lemma_token_stream_ends(s: Seq<char>, i: int)
    requires
        0 <= i <= s.len(),
    ensures
        token_stream(s, i) matches Ok(ts) ==> {
            &&& ts.len() >= 1
            &&& ends_stream(ts.last().0)
            &&& forall|j: int| 0 <= j < ts.len() - 1 ==> !ends_stream(#[trigger] ts[j].0)
        },
    decreases s.len() - i,
{
    lemma_trivia_end(s, i);
    if let Ok(t) = trivia_end(s, i) {
        if t < s.len() {
            lemma_lexeme(s, t);
        }
    }
    if let Ok((k, sp, pos, e)) = next_token_spec(s, i) {
        if !ends_stream(k) {
            lemma_token_stream_ends(s, e);
            if let Ok(rest) = token_stream(s, e) {
                let ts = seq![(k, sp)] + rest;
                assert forall|j: int| 0 <= j < ts.len() - 1 implies !ends_stream(#[trigger] ts[j].0) by {
                    if j > 0 {
                        assert(ts[j] == rest[j - 1]);
                    }
                }
                assert(ts.last() == rest.last());
            }
        }
    }
}

/// Tokens as the grammar sees them: kind and spelling.
pub open spec fn toks_of(v: Seq<Token>) -> Seq<Tok> {
    v.map_values(|t: Token| (t.token_kind, t.spelling@))
}

/// `done` followed by what `rest` holds, or the error `rest` holds.
pub open spec fn prepend(done: Seq<Tok>, rest: Result<Seq<Tok>, LexicalError>) -> Result<
    Seq<Tok>,
    LexicalError,
> {
    match rest {
        Ok(x) => Ok(done + x),
        Err(e) => Err(e),
    }
}

/// Turns characters of the source into tokens, one per call.
pub struct Scanner {
    file_contents: Vec<char>,
    global_character_index: usize,
    line: usize,
    column: usize,
}

/// Relies on `String::push`: appends one character.
#[verifier::external_body]
pub(crate) fn push_char(s: &mut String, c: char)
    ensures
        final(s)@ == old(s)@.push(c),
{
    s.push(c);
}

/// The characters of `v` from `a` up to `b`, as a `String`.
fn string_of(v: &Vec<char>, a: usize, b: usize) -> (r: String)
    requires
        a <= b <= v@.len(),
    ensures
        r@ == v@.subrange(a as int, b as int),
{
    let mut r = String::new();
    let mut k = a;
    while k < b
        invariant
            a <= k <= b <= v@.len(),
            r@ == v@.subrange(a as int, k as int),
        decreases b - k,
    {
        push_char(&mut r, v[k]);
        assert(v@.subrange(a as int, k + 1) == v@.subrange(a as int, k as int).push(v@[k as int]));
        k = k + 1;
    }
    r
}

fn is_digit_char(c: char) -> (r: bool)
    ensures
        r == is_digit(c),
{
    '0' <= c && c <= '9'
}

fn is_ident_start_char(c: char) -> (r: bool)
    ensures
        r == is_ident_start(c),
{
    ('a' <= c && c <= 'z') || ('A' <= c && c <= 'Z') || c == '_'
}

fn is_ident_char_exec(c: char) -> (r: bool)
    ensures
        r == is_ident_char(c),
{
    ('a' <= c && c <= 'z') || ('A' <= c && c <= 'Z') || ('0' <= c && c <= '9') || c == '_'
}

fn char_at_exec(v: &Vec<char>, k: usize) -> (r: Option<char>)
    ensures
        r == char_at(v@, k as int),
{
    if k < v.len() {
        Some(v[k])
    } else {
        None
    }
}

/// The separator kind of `c`, if it is one of `( ) { } [ ] ; ,`.
pub fn handle_separators(c: char) -> (r: Option<TokenKind>)
    ensures
        r == separator_kind(c),
{
    match c {
        '(' => Some(TokenKind::LPAREN),
        ')' => Some(TokenKind::RPAREN),
        '{' => Some(TokenKind::LBRACE),
        '}' => Some(TokenKind::RBRACE),
        '[' => Some(TokenKind::LBRACKET),
        ']' => Some(TokenKind::RBRACKET),
        ';' => Some(TokenKind::SEMICOLON),
        ',' => Some(TokenKind::COMMA),
        _ => None,
    }
}

/// The operator that starts with `c`, followed by `n`, and its length:
/// two-character operators take precedence over their one-character prefixes.
fn handle_operators(c: char, n: Option<char>) -> (r: Option<(TokenKind, usize)>)
    ensures
        match (r, operator_kind(c, n)) {
            (Some((a, b)), Some((x, y))) => a == x && b as int == y,
            (None, None) => true,
            _ => false,
        },
{
    if c == '!' && n == Some('=') {
        Some((TokenKind::NOTEQ, 2))
    } else if c == '=' && n == Some('=') {
        Some((TokenKind::EQEQ, 2))
    } else if c == '<' && n == Some('=') {
        Some((TokenKind::LTEQ, 2))
    } else if c == '>' && n == Some('=') {
        Some((TokenKind::GTEQ, 2))
    } else if c == '&' && n == Some('&') {
        Some((TokenKind::ANDAND, 2))
    } else if c == '|' && n == Some('|') {
        Some((TokenKind::OROR, 2))
    } else {
        match c {
            '+' => Some((TokenKind::PLUS, 1)),
            '-' => Some((TokenKind::MINUS, 1)),
            '*' => Some((TokenKind::MULT, 1)),
            '/' => Some((TokenKind::DIV, 1)),
            '!' => Some((TokenKind::NOT, 1)),
            '=' => Some((TokenKind::EQ, 1)),
            '<' => Some((TokenKind::LT, 1)),
            '>' => Some((TokenKind::GT, 1)),
            _ => None,
        }
    }
}

fn scan_digits(v: &Vec<char>, k: usize) -> (r: usize)
    requires
        k <= v@.len(),
    ensures
        r as int == digits_end(v@, k as int),
        k <= r <= v@.len(),
{
    let mut j = k;
    while j < v.len() && is_digit_char(v[j])
        invariant
            k <= j <= v@.len(),
            digits_end(v@, j as int) == digits_end(v@, k as int),
        decreases v@.len() - j,
    {
        j = j + 1;
    }
    j
}

fn scan_exponent(v: &Vec<char>, k: usize) -> (r: usize)
    requires
        k <= v@.len(),
    ensures
        r as int == exponent_end(v@, k as int),
        k <= r <= v@.len(),
{
    if k < v.len() && (v[k] == 'e' || v[k] == 'E') {
        if k + 1 < v.len() && (v[k + 1] == '+' || v[k + 1] == '-') {
            scan_digits(v, k + 2)
        } else {
            scan_digits(v, k + 1)
        }
    } else {
        k
    }
}

/// A number starting at `i`: an integer literal, or a float literal when a
/// fraction or an exponent follows the digits. Returns its kind and end.
fn handle_numbers(v: &Vec<char>, i: usize) -> (r: (TokenKind, usize))
    requires
        i < v@.len(),
    ensures
        (r.0, r.1 as int) == number_lexeme(v@, i as int),
        i <= r.1 <= v@.len(),
{
    let d = scan_digits(v, i);
    if d < v.len() && v[d] == '.' {
        let f = scan_digits(v, d + 1);
        (TokenKind::FLOATLITERAL, scan_exponent(v, f))
    } else if d < v.len() && (v[d] == 'e' || v[d] == 'E') {
        (TokenKind::FLOATLITERAL, scan_exponent(v, d))
    } else {
        (TokenKind::INTLITERAL, d)
    }
}

/// The end of the identifier that starts at `i`.
fn handle_identifiers(v: &Vec<char>, i: usize) -> (r: usize)
    requires
        i <= v@.len(),
    ensures
        r as int == ident_end(v@, i as int),
        i <= r <= v@.len(),
{
    let mut j = i;
    while j < v.len() && is_ident_char_exec(v[j])
        invariant
            i <= j <= v@.len(),
            ident_end(v@, j as int) == ident_end(v@, i as int),
        decreases v@.len() - j,
    {
        j = j + 1;
    }
    j
}

/// The index of the quote closing a string literal whose body starts at `k`;
/// `None` when the literal is malformed.
fn handle_strings(v: &Vec<char>, k: usize) -> (r: Option<usize>)
    requires
        k <= v@.len(),
    ensures
        r is Some <==> string_close(v@, k as int) is Some,
        r is Some ==> r->0 as int == string_close(v@, k as int)->0 && k <= r->0 < v@.len(),
{
    let mut j = k;
    while j < v.len()
        invariant
            k <= j <= v@.len(),
            string_close(v@, j as int) == string_close(v@, k as int),
        decreases v@.len() - j,
    {
        let c = v[j];
        if c == '"' {
            return Some(j);
        } else if c == '\\' {
            if j + 1 < v.len() && (v[j + 1] == 'n' || v[j + 1] == 't' || v[j + 1] == 'r'
                || v[j + 1] == 'f' || v[j + 1] == 'b' || v[j + 1] == '\\' || v[j + 1] == '\''
                || v[j + 1] == '"') {
                j = j + 2;
            } else {
                return None;
            }
        } else if c == '\n' || c == '\r' {
            return None;
        } else {
            j = j + 1;
        }
    }
    None
}

/// Line and column of the cursor stay within what `n` characters can reach.
proof fn lemma_cursor_bounds(s: Seq<char>, n: int)
    requires
        0 <= n,
    ensures
        1 <= cursor(s, n).0 <= n + 1,
        1 <= cursor(s, n).1 <= 8 * n + 1,
    decreases n,
{
    if n > 0 {
        lemma_cursor_bounds(s, n - 1);
    }
}

/// The cursor never moves backwards: positions are ordered as indices are.
pub proof fn lemma_cursor_monotone(s: Seq<char>, a: int, b: int)
    requires
        0 <= a <= b,
    ensures
        cursor(s, a).0 < cursor(s, b).0 || (cursor(s, a).0 == cursor(s, b).0 && cursor(s, a).1
            <= cursor(s, b).1),
    decreases b - a,
{
    if a < b {
        lemma_cursor_monotone(s, a, b - 1);
        lemma_cursor_bounds(s, b - 1);
    }
}

proof fn lemma_line_comment_end(s: Seq<char>, k: int)
    requires
        0 <= k <= s.len(),
    ensures
        k <= line_comment_end(s, k) <= s.len(),
        k < s.len() ==> k < line_comment_end(s, k),
    decreases s.len() - k,
{
    if k < s.len() && s[k] != '\n' {
        lemma_line_comment_end(s, k + 1);
    }
}

proof fn lemma_block_comment_end(s: Seq<char>, k: int)
    requires
        0 <= k,
    ensures
        block_comment_end(s, k) matches Some(e) ==> k + 2 <= e <= s.len(),
    decreases s.len() - k,
{
    if k + 1 < s.len() && !(s[k] == '*' && s[k + 1] == '/') {
        lemma_block_comment_end(s, k + 1);
    }
}

/// Skipping trivia never moves backwards, and stops inside the input or at its end.
pub proof fn lemma_trivia_end(s: Seq<char>, i: int)
    requires
        0 <= i <= s.len(),
    ensures
        trivia_end(s, i) matches Ok(t) ==> i <= t <= s.len(),
        trivia_end(s, i) matches Err(k) ==> i <= k < s.len(),
    decreases s.len() - i,
{
    if i < s.len() {
        if s[i] == ' ' || s[i] == '\t' || s[i] == '\n' {
            lemma_trivia_end(s, i + 1);
        } else if s[i] == '/' && i + 1 < s.len() && s[i + 1] == '/' {
            lemma_line_comment_end(s, i + 2);
            lemma_trivia_end(s, line_comment_end(s, i + 2));
        } else if s[i] == '/' && i + 1 < s.len() && s[i + 1] == '*' {
            lemma_block_comment_end(s, i + 2);
            if let Some(e) = block_comment_end(s, i + 2) {
                lemma_trivia_end(s, e);
            }
        }
    }
}

proof fn lemma_digits_end(s: Seq<char>, k: int)
    requires
        0 <= k <= s.len(),
    ensures
        k <= digits_end(s, k) <= s.len(),
        k < s.len() && is_digit(s[k]) ==> k < digits_end(s, k),
    decreases s.len() - k,
{
    if k < s.len() && is_digit(s[k]) {
        lemma_digits_end(s, k + 1);
    }
}

proof fn lemma_exponent_end(s: Seq<char>, k: int)
    requires
        0 <= k <= s.len(),
    ensures
        k <= exponent_end(s, k) <= s.len(),
        k < s.len() && (s[k] == 'e' || s[k] == 'E') ==> k < exponent_end(s, k),
{
    if k < s.len() && (s[k] == 'e' || s[k] == 'E') {
        lemma_digits_end(s, k + 1);
        if k + 1 < s.len() {
            lemma_digits_end(s, k + 2);
        }
    }
}

proof fn lemma_string_close(s: Seq<char>, k: int)
    requires
        0 <= k,
    ensures
        string_close(s, k) matches Some(q) ==> k <= q < s.len(),
    decreases s.len() - k,
{
    if 0 <= k < s.len() && s[k] != '"' {
        if s[k] == '\\' {
            if k + 1 < s.len() {
                lemma_string_close(s, k + 2);
            }
        } else {
            lemma_string_close(s, k + 1);
        }
    }
}

/// A lexeme is never empty and never runs past the input.
pub proof fn lemma_lexeme(s: Seq<char>, i: int)
    requires
        0 <= i < s.len(),
    ensures
        lexeme(s, i) matches Some((k, a, b, e)) ==> i < e <= s.len() && i <= a <= b <= e,
{
    let c = s[i];
    if separator_kind(c) is Some {
    } else if operator_kind(c, char_at(s, i + 1)) is Some {
    } else if is_digit(c) || (c == '.' && i + 1 < s.len() && is_digit(s[i + 1])) {
        let d = digits_end(s, i);
        lemma_digits_end(s, i);
        if d < s.len() && s[d] == '.' {
            lemma_digits_end(s, d + 1);
            lemma_exponent_end(s, digits_end(s, d + 1));
        } else if d < s.len() && (s[d] == 'e' || s[d] == 'E') {
            lemma_exponent_end(s, d);
        }
    } else if c == '"' {
        lemma_string_close(s, i + 1);
    } else if is_ident_start(c) {
        lemma_ident_end(s, i);
    }
}

proof fn lemma_ident_end(s: Seq<char>, k: int)
    requires
        0 <= k <= s.len(),
    ensures
        k <= ident_end(s, k) <= s.len(),
        k < s.len() && is_ident_char(s[k]) ==> k < ident_end(s, k),
    decreases s.len() - k,
{
    if k < s.len() && is_ident_char(s[k]) {
        lemma_ident_end(s, k + 1);
    }
}

impl Scanner {
    /// The characters of the source.
    pub closed spec fn chars(&self) -> Seq<char> {
        self.file_contents@
    }

    /// The index of the next character to read.
    pub closed spec fn index(&self) -> int {
        self.global_character_index as int
    }

    /// The cursor sits inside the source (or at its end) and knows its line
    /// and column.
    pub closed spec fn wf(&self) -> bool {
        &&& self.file_contents@.len() <= max_source_len()
        &&& self.global_character_index <= self.file_contents@.len()
        &&& (self.line as int, self.column as int) == cursor(
            self.file_contents@,
            self.global_character_index as int,
        )
    }

    /// A scanner at the start of `s`.
    pub fn new(s: String) -> (r: Self)
        requires
            s@.len() <= max_source_len(),
        ensures
            r.wf(),
            r.chars() == s@,
            r.index() == 0,
    {
        let mut file_contents: Vec<char> = Vec::new();
        let text = s.as_str();
        let mut it = text.chars();
        broadcast use vstd::string::group_string_axioms;
        loop
            invariant
                file_contents@ + it.remaining() == s@,
                it.decrease() is Some,
            ensures
                file_contents@ == s@,
            decreases it.decrease()->0,
        {
            let ghost before = it.remaining();
            match it.next() {
                Some(c) => {
                    file_contents.push(c);
                    assert(file_contents@ + it.remaining() =~= s@);
                },
                None => {
                    assert(file_contents@ =~= s@);
                    break;
                },
            }
        }
        Scanner { file_contents, global_character_index: 0, line: 1, column: 1 }
    }

    /// Moves the cursor past one character.
    pub fn skip_next_character(&mut self)
        requires
            old(self).wf(),
            old(self).index() < old(self).chars().len(),
        ensures
            final(self).wf(),
            final(self).chars() == old(self).chars(),
            final(self).index() == old(self).index() + 1,
    {
        let c = self.file_contents[self.global_character_index];
        proof {
            lemma_cursor_bounds(self.file_contents@, self.global_character_index as int);
        }
        if c == '\n' {
            self.line = self.line + 1;
            self.column = 1;
        } else if c == '\t' {
            self.column = ((self.column - 1) / TAB_SIZE + 1) * TAB_SIZE + 1;
        } else {
            self.column = self.column + 1;
        }
        self.global_character_index = self.global_character_index + 1;
    }

    /// Moves the cursor forward to index `e`.
    fn advance_to(&mut self, e: usize)
        requires
            old(self).wf(),
            old(self).index() <= e <= old(self).chars().len(),
        ensures
            final(self).wf(),
            final(self).chars() == old(self).chars(),
            final(self).index() == e,
    {
        while self.global_character_index < e
            invariant
                self.wf(),
                self.chars() == old(self).chars(),
                self.index() <= e,
                e <= self.chars().len(),
            decreases e - self.index(),
        {
            self.skip_next_character();
        }
    }

    fn point(&self) -> (r: SourcePosition)
        requires
            self.wf(),
        ensures
            r == point_at(self.chars(), self.index()),
    {
        SourcePosition::new(self.line, self.line, self.column, self.column)
    }

    /// Skips whitespace, line comments and block comments.
    fn skip_spaces_comments_newlines(&mut self) -> (r: Result<(), LexicalError>)
        requires
            old(self).wf(),
        ensures
            final(self).wf(),
            final(self).chars() == old(self).chars(),
            match trivia_end(old(self).chars(), old(self).index()) {
                Ok(t) => r is Ok && final(self).index() == t,
                Err(k) => r == Err::<(), LexicalError>(
                    LexicalError::UnterminatedComment { position: point_at(old(self).chars(), k) },
                ),
            },
    {
        let ghost s = self.chars();
        let ghost goal = trivia_end(s, self.index());
        let n = self.file_contents.len();
        loop
            invariant
                self.wf(),
                self.chars() == s,
                s == old(self).chars(),
                goal == trivia_end(s, old(self).index()),
                n == s.len(),
                trivia_end(s, self.index()) == goal,
            decreases n - self.index(),
        {
            let i = self.global_character_index;
            if i >= n {
                return Ok(());
            }
            let c = self.file_contents[i];
            if c == ' ' || c == '\t' || c == '\n' {
                self.skip_next_character();
            } else if c == '/' && i + 1 < n && self.file_contents[i + 1] == '/' {
                proof {
                    lemma_line_comment_end(s, i + 2);
                }
                self.skip_next_character();
                self.skip_next_character();
                self.handle_single_line_comment();
            } else if c == '/' && i + 1 < n && self.file_contents[i + 1] == '*' {
                proof {
                    lemma_block_comment_end(s, i + 2);
                }
                let open = self.point();
                self.skip_next_character();
                self.skip_next_character();
                if !self.handle_multiline_comment() {
                    return Err(LexicalError::UnterminatedComment { position: open });
                }
            } else {
                return Ok(());
            }
        }
    }

    /// Skips the body of a line comment and the newline that ends it.
    fn handle_single_line_comment(&mut self)
        requires
            old(self).wf(),
        ensures
            final(self).wf(),
            final(self).chars() == old(self).chars(),
            final(self).index() == line_comment_end(old(self).chars(), old(self).index()),
    {
        let ghost s = self.chars();
        let ghost goal = line_comment_end(s, self.index());
        let n = self.file_contents.len();
        while self.global_character_index < n
            invariant
                self.wf(),
                self.chars() == s,
                s == old(self).chars(),
                goal == line_comment_end(s, old(self).index()),
                n == s.len(),
                line_comment_end(s, self.index()) == goal,
            decreases n - self.index(),
        {
            let c = self.file_contents[self.global_character_index];
            self.skip_next_character();
            if c == '\n' {
                return;
            }
        }
    }

    /// Skips the body of a block comment and its closing `*/`; `false` when
    /// the input ends before the comment closes.
    fn handle_multiline_comment(&mut self) -> (r: bool)
        requires
            old(self).wf(),
        ensures
            final(self).wf(),
            final(self).chars() == old(self).chars(),
            r == block_comment_end(old(self).chars(), old(self).index()) is Some,
            r ==> final(self).index() == block_comment_end(
                old(self).chars(),
                old(self).index(),
            )->0,
    {
        let ghost s = self.chars();
        let ghost goal = block_comment_end(s, self.index());
        let n = self.file_contents.len();
        loop
            invariant
                self.wf(),
                self.chars() == s,
                s == old(self).chars(),
                goal == block_comment_end(s, old(self).index()),
                n == s.len(),
                block_comment_end(s, self.index()) == goal,
            decreases n - self.index(),
        {
            let i = self.global_character_index;
            if i + 1 >= n {
                return false;
            }
            if self.file_contents[i] == '*' && self.file_contents[i + 1] == '/' {
                self.skip_next_character();
                self.skip_next_character();
                return true;
            }
            self.skip_next_character();
        }
    }

    /// Reads the lexeme at the cursor, which stands on a character of the
    /// source: its kind and where its spelling starts and ends, and where it
    /// ends; `None` for a malformed string literal.
    pub fn handle_tokens(&self) -> (r: Option<(TokenKind, usize, usize, usize)>)
        requires
            self.wf(),
            self.index() < self.chars().len(),
        ensures
            match (r, lexeme(self.chars(), self.index())) {
                (Some((k, a, b, e)), Some((k2, a2, b2, e2))) => {
                    &&& k == k2
                    &&& a == a2
                    &&& b == b2
                    &&& e == e2
                },
                (None, None) => true,
                _ => false,
            },
    {
        let v = &self.file_contents;
        let i = self.global_character_index;
        let c = v[i];
        let next = char_at_exec(v, i + 1);
        proof {
            lemma_lexeme(v@, i as int);
        }
        if let Some(k) = handle_separators(c) {
            Some((k, i, i + 1, i + 1))
        } else if let Some((k, n)) = handle_operators(c, next) {
            Some((k, i, i + n, i + n))
        } else if is_digit_char(c) || (c == '.' && i + 1 < v.len() && is_digit_char(v[i + 1])) {
            let (k, e) = handle_numbers(v, i);
            Some((k, i, e, e))
        } else if c == '"' {
            match handle_strings(v, i + 1) {
                Some(q) => Some((TokenKind::STRINGLITERAL, i + 1, q, q + 1)),
                None => None,
            }
        } else if is_ident_start_char(c) {
            let e = handle_identifiers(v, i);
            let spelling = string_of(v, i, e);
            let k = TokenKind::from_spelling(spelling.as_str());
            Some((k, i, e, e))
        } else {
            Some((TokenKind::ERROR, i, i + 1, i + 1))
        }
    }

    /// Skips whitespace and comments, then reads one token. At the end of
    /// input it returns `EOF`, on this and every later call. A character that
    /// begins no token comes back as an `ERROR` token.
    pub fn get_next_token(&mut self) -> (r: Result<Token, LexicalError>)
        requires
            old(self).wf(),
        ensures
            final(self).wf(),
            final(self).chars() == old(self).chars(),
            match next_token_spec(old(self).chars(), old(self).index()) {
                Ok((k, sp, pos, e)) => {
                    &&& r matches Ok(t)
                    &&& t.token_kind == k
                    &&& t.spelling@ == sp
                    &&& t.token_position == pos
                    &&& final(self).index() == e
                },
                Err(err) => r == Err::<Token, LexicalError>(err),
            },
    {
        proof {
            lemma_trivia_end(self.chars(), self.index());
        }
        self.skip_spaces_comments_newlines()?;
        let start_line = self.line;
        let start_column = self.column;
        if self.global_character_index >= self.file_contents.len() {
            let position = SourcePosition::new(start_line, start_line, start_column, start_column);
            return Ok(Token { token_kind: TokenKind::EOF, spelling: String::from_str("$"), token_position: position });
        }
        proof {
            lemma_lexeme(self.chars(), self.index());
        }
        match self.handle_tokens() {
            None => Err(LexicalError::MalformedString { position: self.point() }),
            Some((kind, a, b, e)) => {
                let spelling = string_of(&self.file_contents, a, b);
                self.advance_to(e);
                proof {
                    lemma_cursor_bounds(self.chars(), e as int);
                }
                let position = SourcePosition::new(start_line, self.line, start_column, self.column - 1);
                Ok(Token { token_kind: kind, spelling, token_position: position })
            },
        }
    }

    /// Reads every token up to and including the first `EOF` or `ERROR`.
    /// The tokens come in source order: each one starts no earlier than the
    /// one before it.
    pub fn scan_all(&mut self) -> (r: Result<Vec<Token>, LexicalError>)
        requires
            old(self).wf(),
        ensures
            final(self).wf(),
            final(self).chars() == old(self).chars(),
            r matches Ok(v) ==> token_stream(old(self).chars(), old(self).index()) == Ok::<
                Seq<Tok>,
                LexicalError,
            >(toks_of(v@)),
            r matches Err(e) ==> token_stream(old(self).chars(), old(self).index()) == Err::<
                Seq<Tok>,
                LexicalError,
            >(e),
            r matches Ok(v) ==> {
                &&& v@.len() >= 1
                &&& ends_stream(v@.last().token_kind)
                &&& forall|i: int| 0 <= i < v@.len() - 1 ==> !ends_stream(#[trigger] v@[i].token_kind)
                &&& forall|i: int, j: int|
                    0 <= i <= j < v@.len() ==> (#[trigger] v@[i].token_position).starts_no_later_than(
                        #[trigger] v@[j].token_position,
                    )
            },
    {
        let mut v: Vec<Token> = Vec::new();
        loop
            invariant
                self.wf(),
                self.chars() == old(self).chars(),
                forall|i: int| 0 <= i < v@.len() ==> !ends_stream(#[trigger] v@[i].token_kind),
                forall|i: int, j: int|
                    0 <= i <= j < v@.len() ==> (#[trigger] v@[i].token_position).starts_no_later_than(
                        #[trigger] v@[j].token_position,
                    ),
                forall|i: int|
                    0 <= i < v@.len() ==> (#[trigger] v@[i].token_position).starts_no_later_than(
                        point_at(self.chars(), self.index()),
                    ),
                token_stream(old(self).chars(), old(self).index()) == prepend(
                    toks_of(v@),
                    token_stream(self.chars(), self.index()),
                ),
            decreases self.chars().len() - self.index(),
        {
            let ghost s = self.chars();
            let ghost i0 = self.index();
            proof {
                lemma_trivia_end(s, i0);
                if let Ok(t) = trivia_end(s, i0) {
                    if t < s.len() {
                        lemma_lexeme(s, t);
                    }
                    lemma_cursor_monotone(s, i0, t);
                    lemma_cursor_bounds(s, i0);
                    lemma_cursor_bounds(s, t);
                }
            }
            let token = self.get_next_token()?;
            proof {
                lemma_cursor_monotone(s, trivia_end(s, i0)->Ok_0, self.index());
                lemma_cursor_bounds(s, self.index());
            }
            let stop = token.token_kind == TokenKind::EOF || token.token_kind == TokenKind::ERROR;
            let ghost before = v@;
            v.push(token);
            proof {
                let last = (v@.last().token_kind, v@.last().spelling@);
                assert(toks_of(v@) =~= toks_of(before) + seq![last]);
                if let Ok(rest) = token_stream(s, self.index()) {
                    assert(toks_of(before) + (seq![last] + rest) =~= toks_of(v@) + rest);
                }
            }
            if stop {
                return Ok(v);
            }
        }
    }
}

/// `EOF` and `ERROR` end the stream of tokens.
pub open spec fn ends_stream(k: TokenKind) -> bool {
    k == TokenKind::EOF || k == TokenKind::ERROR
}

} // verus!
