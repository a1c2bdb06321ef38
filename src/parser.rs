use vstd::prelude::*;
use crate::ast::array_type::{ArrayType, AstTypeVariant};
use crate::ast::decl::{DeclType, FuncDecl, GlobalVarDecl, LocalVarDecl, ParaDecl};
use crate::ast::expression::{
    Arg, ArrayExpr, ArrayInitExpr, AssignExpr, BinaryExpr, BooleanExpr, CallExpr, EmptyExpr,
    ExprType, FloatExpr, IntExpr, StringExpr, UnaryExpr, VarExpr,
};
use crate::ast::ident::Ident;
use crate::ast::invariants::{
    arg_list_ok, array_expr_list_ok, decl_list_ok, decl_ok, expr_ok, func_ok, ident_ok,
    param_list_ok, param_ok, program_ok, stmt_list_ok, stmt_ok, type_ok,
};
use crate::ast::list::{
    ArgList, ArrayExprList, DeclList, EmptyArgList, EmptyArrayExprList, EmptyDeclList,
    EmptyParamList, EmptyStmtList, ListType, ParamList, StmtList,
};
use crate::ast::literals::{BooleanLiteral, FloatLiteral, IntLiteral, Operator, StringLiteral};
use crate::ast::primitive_types::{AstTypes, BooleanType, FloatType, IntType, VoidType};
use crate::ast::program::Program;
use crate::ast::statement::{
    BreakStmt, CompoundStmt, ContinueStmt, EmptyStmt, ExprStmt, ForStmt, IfStmt, ReturnStmt,
    StmtType, WhileStmt,
};
use crate::ast::variable::VarUntyped;
use crate::ast::view::{
    Tree, cons_list, decl_view, expr_view, ident_view, list_view, node, param_view,
    program_view, stmt_view, type_view, variant_view,
};
use crate::grammar::{
    Tok, empty_expr, kind_at, type_of_kind, rec_args, rec_args_tail, rec_compound, rec_decl_list, rec_declaration, rec_declarator,
    rec_expr, rec_for, rec_func, rec_if, rec_init_declarator, rec_init_tail, rec_initialiser,
    rec_level, rec_level_tail, rec_opt_expr, rec_operand, rec_param_decl, rec_params,
    rec_params_tail, rec_primary, rec_program, rec_single, rec_stmt_list, rec_unary, rec_var_list,
    rec_var_tail, rec_while,
};
use crate::scanner::{LexicalError, Scanner, ends_stream, toks_of, token_stream};
use crate::token::{Token, TokenKind};
use crate::utils::{SourcePosition, finish_position};

verus! {

/// Why a source text was rejected.
#[derive(Debug, PartialEq)]
pub enum CompileError {
    /// The scanner met an unterminated comment or a malformed string.
    Lexical(LexicalError),
    /// A token the grammar does not allow where it stands.
    Syntax { kind: TokenKind, spelling: String, position: SourcePosition },
}

/// The parser's state: the tokens of the source, ending in `EOF` or `ERROR`,
/// and the index of the current one.
pub struct ParserData {
    tokens: Vec<Token>,
    current: usize,
}

/// The kinds that can begin an expression.
pub open spec fn expr_first(k: TokenKind) -> bool {
    ||| k == TokenKind::ID
    ||| k == TokenKind::INTLITERAL
    ||| k == TokenKind::FLOATLITERAL
    ||| k == TokenKind::BOOLEANLITERAL
    ||| k == TokenKind::STRINGLITERAL
    ||| k == TokenKind::PLUS
    ||| k == TokenKind::MINUS
    ||| k == TokenKind::NOT
    ||| k == TokenKind::LPAREN
}

/// The kinds that name a type at the head of a declaration.
pub open spec fn type_first(k: TokenKind) -> bool {
    k == TokenKind::VOID || k == TokenKind::INT || k == TokenKind::FLOAT || k == TokenKind::BOOLEAN
}

/// The primitive type named by kind `k`.
pub open spec fn type_matches(t: AstTypes, k: TokenKind) -> bool {
    match t {
        AstTypes::VoidType(_) => k == TokenKind::VOID,
        AstTypes::IntType(_) => k == TokenKind::INT,
        AstTypes::FloatType(_) => k == TokenKind::FLOAT,
        AstTypes::BooleanType(_) => k == TokenKind::BOOLEAN,
        _ => false,
    }
}

impl ParserData {
    pub closed spec fn tokens(&self) -> Seq<Token> {
        self.tokens@
    }

    pub closed spec fn cur(&self) -> int {
        self.current as int
    }

    /// There is a current token, and only the last token ends the stream.
    pub closed spec fn wf(&self) -> bool {
        &&& self.tokens@.len() >= 1
        &&& self.current < self.tokens@.len()
        &&& ends_stream(self.tokens@.last().token_kind)
        &&& forall|i: int|
            0 <= i < self.tokens@.len() - 1 ==> !ends_stream(#[trigger] self.tokens@[i].token_kind)
    }

    /// The tokens as the grammar sees them.
    pub open spec fn toks(&self) -> Seq<Tok> {
        toks_of(self.tokens())
    }

    /// The kind of the current token.
    pub open spec fn kind(&self) -> TokenKind {
        self.tokens()[self.cur()].token_kind
    }

    /// How many tokens are left, the current one included.
    pub open spec fn left(&self) -> int {
        self.tokens().len() - self.cur()
    }

    /// Reads all the tokens of `scanner`; a lexical error stops it.
    pub fn new(scanner: Scanner) -> (r: Result<Self, CompileError>)
        requires
            scanner.wf(),
        ensures
            r matches Ok(p) ==> p.wf() && p.cur() == 0 && token_stream(scanner.chars(), scanner.index())
                == Ok::<Seq<Tok>, LexicalError>(p.toks()),
            r matches Err(e) ==> e matches CompileError::Lexical(l) && token_stream(
                scanner.chars(),
                scanner.index(),
            ) == Err::<Seq<Tok>, LexicalError>(l),
    {
        let mut scanner = scanner;
        match scanner.scan_all() {
            Ok(tokens) => Ok(ParserData { tokens, current: 0 }),
            Err(e) => Err(CompileError::Lexical(e)),
        }
    }
}

/// A failure is a syntax error.
pub open spec fn syntax_only<T>(r: Result<T, CompileError>) -> bool {
    r matches Err(e) ==> e is Syntax
}

/// `b` is `a` moved forward over zero or more tokens.
pub open spec fn moved_on(a: ParserData, b: ParserData) -> bool {
    &&& b.wf()
    &&& b.tokens() == a.tokens()
    &&& b.cur() >= a.cur()
}

/// The parser succeeds exactly where the grammar finds a phrase, stops where
/// the phrase ends, and builds what the phrase stands for: `got` is the view
/// of what was built.
pub open spec fn follows(b: ParserData, ok: bool, s: Option<(Tree, int)>, got: Tree) -> bool {
    match s {
        Some((tree, end)) => ok && b.cur() == end && got == tree,
        None => !ok,
    }
}

/// As `follows`, for a list whose elements the grammar gives.
pub open spec fn follows_list(
    b: ParserData,
    r: Result<ListType, CompileError>,
    s: Option<(Seq<Tree>, int)>,
    cons: Seq<char>,
    empty: Seq<char>,
) -> bool {
    match (r, s) {
        (Ok(l), Some((elems, end))) => b.cur() == end && list_view(l) == cons_list(cons, empty, elems),
        (Err(_), None) => true,
        _ => false,
    }
}

/// The view of a successful result; a placeholder otherwise.
pub open spec fn ok_expr(r: Result<ExprType, CompileError>) -> Tree {
    match r {
        Ok(e) => expr_view(e),
        Err(_) => empty_expr(),
    }
}

pub open spec fn ok_stmt(r: Result<StmtType, CompileError>) -> Tree {
    match r {
        Ok(x) => stmt_view(x),
        Err(_) => empty_expr(),
    }
}

pub open spec fn ok_list(r: Result<ListType, CompileError>) -> Tree {
    match r {
        Ok(x) => list_view(x),
        Err(_) => empty_expr(),
    }
}

pub open spec fn ok_variant(r: Result<AstTypeVariant, CompileError>) -> Tree {
    match r {
        Ok(x) => variant_view(x),
        Err(_) => empty_expr(),
    }
}

pub open spec fn ok_param(r: Result<ParaDecl, CompileError>) -> Tree {
    match r {
        Ok(x) => param_view(x),
        Err(_) => empty_expr(),
    }
}

pub open spec fn ok_decl(r: Result<DeclType, CompileError>) -> Tree {
    match r {
        Ok(x) => decl_view(x),
        Err(_) => empty_expr(),
    }
}

pub open spec fn ok_func(r: Result<FuncDecl, CompileError>) -> Tree {
    match r {
        Ok(x) => decl_view(DeclType::FuncDecl(x)),
        Err(_) => empty_expr(),
    }
}

pub open spec fn decl_views(v: Seq<(DeclType, SourcePosition)>) -> Seq<Tree> {
    v.map_values(|x: (DeclType, SourcePosition)| decl_view(x.0))
}

pub open spec fn stmt_views(v: Seq<(StmtType, SourcePosition)>) -> Seq<Tree> {
    v.map_values(|x: (StmtType, SourcePosition)| stmt_view(x.0))
}

pub open spec fn expr_views(v: Seq<(ExprType, SourcePosition)>) -> Seq<Tree> {
    v.map_values(|x: (ExprType, SourcePosition)| expr_view(x.0))
}

pub open spec fn param_views(v: Seq<ParaDecl>) -> Seq<Tree> {
    v.map_values(|x: ParaDecl| param_view(x))
}

/// `done` followed by the elements `r` holds, if it holds any.
pub open spec fn prefixed(done: Seq<Tree>, r: Option<(Seq<Tree>, int)>) -> Option<(Seq<Tree>, int)> {
    match r {
        Some((x, m)) => Some((done + x, m)),
        None => None,
    }
}

proof fn lemma_prefixed(a: Seq<Tree>, b: Seq<Tree>, r: Option<(Seq<Tree>, int)>)
    ensures
        prefixed(a, prefixed(b, r)) == prefixed(a + b, r),
        prefixed(Seq::empty(), r) == r,
{
    if let Some((x, m)) = r {
        assert(a + (b + x) =~= (a + b) + x);
        assert(Seq::<Tree>::empty() + x =~= x);
    }
}

/// What every expression parser promises; `s` is what the recogniser finds.
pub open spec fn expr_post(
    a: ParserData,
    b: ParserData,
    r: Result<ExprType, CompileError>,
    s: Option<(Tree, int)>,
) -> bool {
    &&& moved_on(a, b)
    &&& follows(b, r is Ok, s, ok_expr(r))
    &&& r matches Ok(e) ==> expr_ok(e) && b.cur() > a.cur() && !(e is EmptyExpr) && !(e is Arg)
    &&& !expr_first(a.kind()) ==> r is Err
}

/// What every statement parser promises; `s` is what the recogniser finds.
pub open spec fn stmt_post(
    a: ParserData,
    b: ParserData,
    r: Result<StmtType, CompileError>,
    s: Option<(Tree, int)>,
) -> bool {
    &&& moved_on(a, b)
    &&& follows(b, r is Ok, s, ok_stmt(r))
    &&& r matches Ok(x) ==> stmt_ok(x) && b.cur() > a.cur()
}

fn current_kind(p: &ParserData) -> (r: TokenKind)
    requires
        p.wf(),
    ensures
        r == p.kind(),
        r == kind_at(p.toks(), p.cur()),
{
    p.tokens[p.current].token_kind
}

fn current_position(p: &ParserData) -> (r: SourcePosition)
    requires
        p.wf(),
    ensures
        r == p.tokens()[p.cur()].token_position,
{
    p.tokens[p.current].token_position
}

/// The position of the token before the current one: the end of what has
/// been read so far.
fn previous_position(p: &ParserData) -> (r: SourcePosition)
    requires
        p.wf(),
{
    if p.current > 0 {
        p.tokens[p.current - 1].token_position
    } else {
        p.tokens[0].token_position
    }
}

/// The error for an unexpected current token.
fn syntax_error(p: &ParserData) -> (r: CompileError)
    requires
        p.wf(),
    ensures
        r matches CompileError::Syntax { kind, spelling, position } && kind == p.kind()
            && spelling@ == p.tokens()[p.cur()].spelling@ && position == p.tokens()[p.cur()].token_position,
{
    let t = &p.tokens[p.current];
    CompileError::Syntax { kind: t.token_kind, spelling: t.spelling.clone(), position: t.token_position }
}

/// Moves to the next token; the last token, `EOF` or `ERROR`, is never left.
fn advance(p: &mut ParserData)
    requires
        old(p).wf(),
    ensures
        moved_on(*old(p), *final(p)),
        final(p).cur() == if ends_stream(old(p).kind()) {
            old(p).cur()
        } else {
            old(p).cur() + 1
        },
{
    if p.current < p.tokens.len() - 1 {
        p.current = p.current + 1;
    }
}

/// Consumes the current token if it has kind `kind`; a syntax error otherwise.
fn match_and_consume_next_token(p: &mut ParserData, kind: TokenKind) -> (r: Result<(), CompileError>)
    requires
        old(p).wf(),
    ensures
        syntax_only(r),
        moved_on(*old(p), *final(p)),
        r is Ok <==> old(p).kind() == kind,
        r is Ok && !ends_stream(kind) ==> final(p).cur() == old(p).cur() + 1,
{
    if current_kind(p) == kind {
        advance(p);
        Ok(())
    } else {
        Err(syntax_error(p))
    }
}

/// Reads the current token as an operator.
fn consume_operator(p: &mut ParserData) -> (r: Operator)
    requires
        old(p).wf(),
        !ends_stream(old(p).kind()),
    ensures
        moved_on(*old(p), *final(p)),
        final(p).cur() == old(p).cur() + 1,
        r.spelling@ == old(p).tokens()[old(p).cur()].spelling@,
{
    let t = &p.tokens[p.current];
    let op = Operator::new(t.token_position, t.spelling.clone());
    advance(p);
    op
}

// ======================================== Lists ==================================================

fn decl_list_of(v: Vec<(DeclType, SourcePosition)>, end: SourcePosition, global: bool) -> (r: ListType)
    requires
        forall|i: int| 0 <= i < v@.len() ==> decl_ok(#[trigger] v@[i].0, global),
    ensures
        decl_list_ok(r, global),
        list_view(r) == cons_list("DeclList"@, "EmptyDeclList"@, decl_views(v@)),
{
    let ghost all = decl_views(v@);
    let ghost n = v@.len();
    let mut v = v;
    let mut list = ListType::EmptyDeclList(EmptyDeclList::new(end));
    proof {
        assert(all.subrange(n as int, n as int) =~= Seq::<Tree>::empty());
    }
    while v.len() > 0
        invariant
            forall|i: int| 0 <= i < v@.len() ==> decl_ok(#[trigger] v@[i].0, global),
            decl_list_ok(list, global),
            v@.len() <= n,
            all.len() == n,
            decl_views(v@) == all.subrange(0, v@.len() as int),
            list_view(list) == cons_list("DeclList"@, "EmptyDeclList"@, all.subrange(v@.len() as int, n as int)),
        decreases v@.len(),
    {
        let ghost before = v@;
        let ghost k = v@.len() as int;
        let (d, start) = v.pop().unwrap();
        assert(decl_views(before)[k - 1] == all[k - 1]);
        assert(decl_ok(before[k - 1].0, global));
        assert(decl_views(v@) =~= all.subrange(0, k - 1)) by {
            assert(v@ =~= before.drop_last());
        }
        assert(all[k - 1] == decl_view(d));
        assert(all.subrange(k - 1, n as int).drop_first() =~= all.subrange(k, n as int));
        list = ListType::DeclList(DeclList::new(finish_position(&start, &end), Box::new(d), Box::new(list)));
    }
    assert(all.subrange(0, n as int) =~= all);
    list
}

fn stmt_list_of(v: Vec<(StmtType, SourcePosition)>, end: SourcePosition) -> (r: ListType)
    requires
        forall|i: int| 0 <= i < v@.len() ==> stmt_ok(#[trigger] v@[i].0),
    ensures
        stmt_list_ok(r),
        list_view(r) == cons_list("StmtList"@, "EmptyStmtList"@, stmt_views(v@)),
{
    let ghost all = stmt_views(v@);
    let ghost n = v@.len();
    let mut v = v;
    let mut list = ListType::EmptyStmtList(EmptyStmtList::new(end));
    proof {
        assert(all.subrange(n as int, n as int) =~= Seq::<Tree>::empty());
    }
    while v.len() > 0
        invariant
            forall|i: int| 0 <= i < v@.len() ==> stmt_ok(#[trigger] v@[i].0),
            stmt_list_ok(list),
            v@.len() <= n,
            all.len() == n,
            stmt_views(v@) == all.subrange(0, v@.len() as int),
            list_view(list) == cons_list("StmtList"@, "EmptyStmtList"@, all.subrange(v@.len() as int, n as int)),
        decreases v@.len(),
    {
        let ghost before = v@;
        let ghost k = v@.len() as int;
        let (s, start) = v.pop().unwrap();
        assert(stmt_views(before)[k - 1] == all[k - 1]);
        assert(stmt_ok(before[k - 1].0));
        assert(stmt_views(v@) =~= all.subrange(0, k - 1)) by {
            assert(v@ =~= before.drop_last());
        }
        assert(all[k - 1] == stmt_view(s));
        assert(all.subrange(k - 1, n as int).drop_first() =~= all.subrange(k, n as int));
        list = ListType::StmtList(StmtList::new(finish_position(&start, &end), Box::new(s), Box::new(list)));
    }
    assert(all.subrange(0, n as int) =~= all);
    list
}

fn arg_list_of(v: Vec<(ExprType, SourcePosition)>, end: SourcePosition) -> (r: ListType)
    requires
        forall|i: int| 0 <= i < v@.len() ==> (#[trigger] v@[i].0 is Arg && expr_ok(#[trigger] v@[i].0)),
    ensures
        arg_list_ok(r),
        list_view(r) == cons_list("ArgList"@, "EmptyArgList"@, expr_views(v@)),
{
    let ghost all = expr_views(v@);
    let ghost n = v@.len();
    let mut v = v;
    let mut list = ListType::EmptyArgList(EmptyArgList::new(end));
    proof {
        assert(all.subrange(n as int, n as int) =~= Seq::<Tree>::empty());
    }
    while v.len() > 0
        invariant
            forall|i: int| 0 <= i < v@.len() ==> (#[trigger] v@[i].0 is Arg && expr_ok(#[trigger] v@[i].0)),
            arg_list_ok(list),
            v@.len() <= n,
            all.len() == n,
            expr_views(v@) == all.subrange(0, v@.len() as int),
            list_view(list) == cons_list("ArgList"@, "EmptyArgList"@, all.subrange(v@.len() as int, n as int)),
        decreases v@.len(),
    {
        let ghost before = v@;
        let ghost k = v@.len() as int;
        let (a, start) = v.pop().unwrap();
        assert(expr_views(before)[k - 1] == all[k - 1]);
        assert((before[k - 1].0 is Arg && expr_ok(before[k - 1].0)));
        assert(expr_views(v@) =~= all.subrange(0, k - 1)) by {
            assert(v@ =~= before.drop_last());
        }
        assert(all[k - 1] == expr_view(a));
        assert(all.subrange(k - 1, n as int).drop_first() =~= all.subrange(k, n as int));
        list = ListType::ArgList(ArgList::new(finish_position(&start, &end), a, Box::new(list)));
    }
    assert(all.subrange(0, n as int) =~= all);
    list
}

fn array_expr_list_of(v: Vec<(ExprType, SourcePosition)>, end: SourcePosition) -> (r: ListType)
    requires
        forall|i: int| 0 <= i < v@.len() ==> expr_ok(#[trigger] v@[i].0),
    ensures
        array_expr_list_ok(r),
        list_view(r) == cons_list("ArrayExprList"@, "EmptyArrayExprList"@, expr_views(v@)),
{
    let ghost all = expr_views(v@);
    let ghost n = v@.len();
    let mut v = v;
    let mut list = ListType::EmptyArrayExprList(EmptyArrayExprList::new(end));
    proof {
        assert(all.subrange(n as int, n as int) =~= Seq::<Tree>::empty());
    }
    while v.len() > 0
        invariant
            forall|i: int| 0 <= i < v@.len() ==> expr_ok(#[trigger] v@[i].0),
            array_expr_list_ok(list),
            v@.len() <= n,
            all.len() == n,
            expr_views(v@) == all.subrange(0, v@.len() as int),
            list_view(list) == cons_list("ArrayExprList"@, "EmptyArrayExprList"@, all.subrange(v@.len() as int, n as int)),
        decreases v@.len(),
    {
        let ghost before = v@;
        let ghost k = v@.len() as int;
        let (e, start) = v.pop().unwrap();
        assert(expr_views(before)[k - 1] == all[k - 1]);
        assert(expr_ok(before[k - 1].0));
        assert(expr_views(v@) =~= all.subrange(0, k - 1)) by {
            assert(v@ =~= before.drop_last());
        }
        assert(all[k - 1] == expr_view(e));
        assert(all.subrange(k - 1, n as int).drop_first() =~= all.subrange(k, n as int));
        list = ListType::ArrayExprList(ArrayExprList::new(finish_position(&start, &end), e, Box::new(list)));
    }
    assert(all.subrange(0, n as int) =~= all);
    list
}

fn param_list_of(v: Vec<ParaDecl>, end: SourcePosition) -> (r: ListType)
    requires
        forall|i: int| 0 <= i < v@.len() ==> param_ok(#[trigger] v@[i]),
    ensures
        param_list_ok(r),
        list_view(r) == cons_list("ParamList"@, "EmptyParamList"@, param_views(v@)),
{
    let ghost all = param_views(v@);
    let ghost n = v@.len();
    let mut v = v;
    let mut list = ListType::EmptyParamList(EmptyParamList::new(end));
    proof {
        assert(all.subrange(n as int, n as int) =~= Seq::<Tree>::empty());
    }
    while v.len() > 0
        invariant
            forall|i: int| 0 <= i < v@.len() ==> param_ok(#[trigger] v@[i]),
            param_list_ok(list),
            v@.len() <= n,
            all.len() == n,
            param_views(v@) == all.subrange(0, v@.len() as int),
            list_view(list) == cons_list("ParamList"@, "EmptyParamList"@, all.subrange(v@.len() as int, n as int)),
        decreases v@.len(),
    {
        let ghost before = v@;
        let ghost k = v@.len() as int;
        let d = v.pop().unwrap();
        assert(param_views(before)[k - 1] == all[k - 1]);
        assert(param_ok(before[k - 1]));
        assert(param_views(v@) =~= all.subrange(0, k - 1)) by {
            assert(v@ =~= before.drop_last());
        }
        assert(all[k - 1] == param_view(d));
        assert(all.subrange(k - 1, n as int).drop_first() =~= all.subrange(k, n as int));
        list = ListType::ParamList(ParamList::new(finish_position(&d.source_position, &end), d, Box::new(list)));
    }
    assert(all.subrange(0, n as int) =~= all);
    list
}

// ====================================== Expressions ==============================================

/// expr -> assignment-expr
fn parse_expr(p: &mut ParserData) -> (r: Result<ExprType, CompileError>)
    requires
        old(p).wf(),
    ensures
        syntax_only(r),
        expr_post(*old(p), *final(p), r, rec_expr(old(p).toks(), old(p).cur())),
    decreases old(p).left(), 11nat,
{
    parse_assign_expr(p)
}

/// assignment-expr -> cond-or-expr ( "=" assignment-expr )?, grouping to the right.
fn parse_assign_expr(p: &mut ParserData) -> (r: Result<ExprType, CompileError>)
    requires
        old(p).wf(),
    ensures
        syntax_only(r),
        expr_post(*old(p), *final(p), r, rec_expr(old(p).toks(), old(p).cur())),
    decreases old(p).left(), 10nat,
{
    let start = current_position(p);
    let lhs = parse_conditional_or_expression(p)?;
    if current_kind(p) == TokenKind::EQ {
        advance(p);
        let rhs = parse_assign_expr(p)?;
        let position = finish_position(&start, rhs.get_source_position());
        Ok(ExprType::AssignExpr(AssignExpr::new(position, Box::new(lhs), Box::new(rhs))))
    } else {
        Ok(lhs)
    }
}

/// cond-or-expr -> cond-and-expr ( "||" cond-and-expr )*, grouping to the left.
fn parse_conditional_or_expression(p: &mut ParserData) -> (r: Result<ExprType, CompileError>)
    requires
        old(p).wf(),
    ensures
        syntax_only(r),
        expr_post(*old(p), *final(p), r, rec_level(old(p).toks(), old(p).cur(), 0)),
    decreases old(p).left(), 9nat,
{
    let start = current_position(p);
    assert(rec_operand(p.toks(), p.cur(), 0) == rec_level(p.toks(), p.cur(), 1));
    let mut lhs = parse_conditional_and_expression(p)?;
    loop
        invariant
            moved_on(*old(p), *p),
            p.cur() > old(p).cur(),
            expr_ok(lhs),
            !(lhs is EmptyExpr) && !(lhs is Arg),
            expr_first(old(p).kind()),
            rec_level(old(p).toks(), old(p).cur(), 0) == rec_level_tail(p.toks(), p.cur(), 0, expr_view(lhs)),
        decreases p.left(),
    {
        let k = current_kind(p);
        if !(k == TokenKind::OROR) {
            return Ok(lhs);
        }
        let ghost j = p.cur();
        assert(j + 1 < p.tokens().len());
        let op = consume_operator(p);
        let next = parse_conditional_and_expression(p);
        assert(rec_operand(p.toks(), j + 1, 0) == rec_level(p.toks(), j + 1, 1));
        let rhs = next?;
        let position = finish_position(&start, rhs.get_source_position());
        lhs = ExprType::BinaryExpr(BinaryExpr::new(position, Box::new(lhs), op, Box::new(rhs)));
    }
}

/// cond-and-expr -> equality-expr ( "&&" equality-expr )*, grouping to the left.
fn parse_conditional_and_expression(p: &mut ParserData) -> (r: Result<ExprType, CompileError>)
    requires
        old(p).wf(),
    ensures
        syntax_only(r),
        expr_post(*old(p), *final(p), r, rec_level(old(p).toks(), old(p).cur(), 1)),
    decreases old(p).left(), 8nat,
{
    let start = current_position(p);
    assert(rec_operand(p.toks(), p.cur(), 1) == rec_level(p.toks(), p.cur(), 2));
    let mut lhs = parse_equality_expression(p)?;
    loop
        invariant
            moved_on(*old(p), *p),
            p.cur() > old(p).cur(),
            expr_ok(lhs),
            !(lhs is EmptyExpr) && !(lhs is Arg),
            expr_first(old(p).kind()),
            rec_level(old(p).toks(), old(p).cur(), 1) == rec_level_tail(p.toks(), p.cur(), 1, expr_view(lhs)),
        decreases p.left(),
    {
        let k = current_kind(p);
        if !(k == TokenKind::ANDAND) {
            return Ok(lhs);
        }
        let ghost j = p.cur();
        assert(j + 1 < p.tokens().len());
        let op = consume_operator(p);
        let next = parse_equality_expression(p);
        assert(rec_operand(p.toks(), j + 1, 1) == rec_level(p.toks(), j + 1, 2));
        let rhs = next?;
        let position = finish_position(&start, rhs.get_source_position());
        lhs = ExprType::BinaryExpr(BinaryExpr::new(position, Box::new(lhs), op, Box::new(rhs)));
    }
}

/// equality-expr -> rel-expr ( ("==" | "!=") rel-expr )*, grouping to the left.
fn parse_equality_expression(p: &mut ParserData) -> (r: Result<ExprType, CompileError>)
    requires
        old(p).wf(),
    ensures
        syntax_only(r),
        expr_post(*old(p), *final(p), r, rec_level(old(p).toks(), old(p).cur(), 2)),
    decreases old(p).left(), 7nat,
{
    let start = current_position(p);
    assert(rec_operand(p.toks(), p.cur(), 2) == rec_level(p.toks(), p.cur(), 3));
    let mut lhs = parse_relational_expression(p)?;
    loop
        invariant
            moved_on(*old(p), *p),
            p.cur() > old(p).cur(),
            expr_ok(lhs),
            !(lhs is EmptyExpr) && !(lhs is Arg),
            expr_first(old(p).kind()),
            rec_level(old(p).toks(), old(p).cur(), 2) == rec_level_tail(p.toks(), p.cur(), 2, expr_view(lhs)),
        decreases p.left(),
    {
        let k = current_kind(p);
        if !(k == TokenKind::EQEQ || k == TokenKind::NOTEQ) {
            return Ok(lhs);
        }
        let ghost j = p.cur();
        assert(j + 1 < p.tokens().len());
        let op = consume_operator(p);
        let next = parse_relational_expression(p);
        assert(rec_operand(p.toks(), j + 1, 2) == rec_level(p.toks(), j + 1, 3));
        let rhs = next?;
        let position = finish_position(&start, rhs.get_source_position());
        lhs = ExprType::BinaryExpr(BinaryExpr::new(position, Box::new(lhs), op, Box::new(rhs)));
    }
}

/// rel-expr -> additive-expr ( ("<" | "<=" | ">" | ">=") additive-expr )*, grouping to the left.
fn parse_relational_expression(p: &mut ParserData) -> (r: Result<ExprType, CompileError>)
    requires
        old(p).wf(),
    ensures
        syntax_only(r),
        expr_post(*old(p), *final(p), r, rec_level(old(p).toks(), old(p).cur(), 3)),
    decreases old(p).left(), 6nat,
{
    let start = current_position(p);
    assert(rec_operand(p.toks(), p.cur(), 3) == rec_level(p.toks(), p.cur(), 4));
    let mut lhs = parse_additive_expression(p)?;
    loop
        invariant
            moved_on(*old(p), *p),
            p.cur() > old(p).cur(),
            expr_ok(lhs),
            !(lhs is EmptyExpr) && !(lhs is Arg),
            expr_first(old(p).kind()),
            rec_level(old(p).toks(), old(p).cur(), 3) == rec_level_tail(p.toks(), p.cur(), 3, expr_view(lhs)),
        decreases p.left(),
    {
        let k = current_kind(p);
        if !(k == TokenKind::LT || k == TokenKind::LTEQ || k == TokenKind::GT || k == TokenKind::GTEQ) {
            return Ok(lhs);
        }
        let ghost j = p.cur();
        assert(j + 1 < p.tokens().len());
        let op = consume_operator(p);
        let next = parse_additive_expression(p);
        assert(rec_operand(p.toks(), j + 1, 3) == rec_level(p.toks(), j + 1, 4));
        let rhs = next?;
        let position = finish_position(&start, rhs.get_source_position());
        lhs = ExprType::BinaryExpr(BinaryExpr::new(position, Box::new(lhs), op, Box::new(rhs)));
    }
}

/// additive-expr -> multiplicative-expr ( ("+" | "-") multiplicative-expr )*, grouping to the left.
fn parse_additive_expression(p: &mut ParserData) -> (r: Result<ExprType, CompileError>)
    requires
        old(p).wf(),
    ensures
        syntax_only(r),
        expr_post(*old(p), *final(p), r, rec_level(old(p).toks(), old(p).cur(), 4)),
    decreases old(p).left(), 5nat,
{
    let start = current_position(p);
    assert(rec_operand(p.toks(), p.cur(), 4) == rec_level(p.toks(), p.cur(), 5));
    let mut lhs = parse_multiplicative_expression(p)?;
    loop
        invariant
            moved_on(*old(p), *p),
            p.cur() > old(p).cur(),
            expr_ok(lhs),
            !(lhs is EmptyExpr) && !(lhs is Arg),
            expr_first(old(p).kind()),
            rec_level(old(p).toks(), old(p).cur(), 4) == rec_level_tail(p.toks(), p.cur(), 4, expr_view(lhs)),
        decreases p.left(),
    {
        let k = current_kind(p);
        if !(k == TokenKind::PLUS || k == TokenKind::MINUS) {
            return Ok(lhs);
        }
        let ghost j = p.cur();
        assert(j + 1 < p.tokens().len());
        let op = consume_operator(p);
        let next = parse_multiplicative_expression(p);
        assert(rec_operand(p.toks(), j + 1, 4) == rec_level(p.toks(), j + 1, 5));
        let rhs = next?;
        let position = finish_position(&start, rhs.get_source_position());
        lhs = ExprType::BinaryExpr(BinaryExpr::new(position, Box::new(lhs), op, Box::new(rhs)));
    }
}

/// multiplicative-expr -> unary-expr ( ("*" | "/") unary-expr )*, grouping to the left.
fn parse_multiplicative_expression(p: &mut ParserData) -> (r: Result<ExprType, CompileError>)
    requires
        old(p).wf(),
    ensures
        syntax_only(r),
        expr_post(*old(p), *final(p), r, rec_level(old(p).toks(), old(p).cur(), 5)),
    decreases old(p).left(), 4nat,
{
    let start = current_position(p);
    assert(rec_operand(p.toks(), p.cur(), 5) == rec_unary(p.toks(), p.cur()));
    let mut lhs = parse_unary_expression(p)?;
    loop
        invariant
            moved_on(*old(p), *p),
            p.cur() > old(p).cur(),
            expr_ok(lhs),
            !(lhs is EmptyExpr) && !(lhs is Arg),
            expr_first(old(p).kind()),
            rec_level(old(p).toks(), old(p).cur(), 5) == rec_level_tail(p.toks(), p.cur(), 5, expr_view(lhs)),
        decreases p.left(),
    {
        let k = current_kind(p);
        if !(k == TokenKind::MULT || k == TokenKind::DIV) {
            return Ok(lhs);
        }
        let ghost j = p.cur();
        assert(j + 1 < p.tokens().len());
        let op = consume_operator(p);
        let next = parse_unary_expression(p);
        assert(rec_operand(p.toks(), j + 1, 5) == rec_unary(p.toks(), j + 1));
        let rhs = next?;
        let position = finish_position(&start, rhs.get_source_position());
        lhs = ExprType::BinaryExpr(BinaryExpr::new(position, Box::new(lhs), op, Box::new(rhs)));
    }
}

/// unary-expr -> ( "+" | "-" | "!" ) unary-expr | primary-expr
fn parse_unary_expression(p: &mut ParserData) -> (r: Result<ExprType, CompileError>)
    requires
        old(p).wf(),
    ensures
        syntax_only(r),
        expr_post(*old(p), *final(p), r, rec_unary(old(p).toks(), old(p).cur())),
        r matches Ok(e) ==> ((old(p).kind() == TokenKind::PLUS || old(p).kind() == TokenKind::MINUS
            || old(p).kind() == TokenKind::NOT) ==> e is UnaryExpr),
    decreases old(p).left(), 3nat,
{
    let start = current_position(p);
    let k = current_kind(p);
    if k == TokenKind::PLUS || k == TokenKind::MINUS || k == TokenKind::NOT {
        let op = consume_operator(p);
        let operand = parse_unary_expression(p)?;
        let position = finish_position(&start, operand.get_source_position());
        Ok(ExprType::UnaryExpr(UnaryExpr::new(position, op, Box::new(operand))))
    } else {
        parse_primary_expr(p)
    }
}

/// primary-expr -> identifier arg-list? | identifier "[" expr "]" | "(" expr ")"
///              | INTLITERAL | FLOATLITERAL | BOOLLITERAL | STRINGLITERAL
fn parse_primary_expr(p: &mut ParserData) -> (r: Result<ExprType, CompileError>)
    requires
        old(p).wf(),
    ensures
        syntax_only(r),
        expr_post(*old(p), *final(p), r, rec_primary(old(p).toks(), old(p).cur())),
        r matches Ok(e) ==> {
            &&& old(p).kind() == TokenKind::ID ==> (e is VarExpr || e is ArrayExpr || e is CallExpr)
            &&& old(p).kind() == TokenKind::INTLITERAL ==> e is IntExpr
            &&& old(p).kind() == TokenKind::FLOATLITERAL ==> e is FloatExpr
            &&& old(p).kind() == TokenKind::BOOLEANLITERAL ==> e is BooleanExpr
            &&& old(p).kind() == TokenKind::STRINGLITERAL ==> e is StringExpr
        },
    decreases old(p).left(), 2nat,
{
    let start = current_position(p);
    let k = current_kind(p);
    if k == TokenKind::ID {
        let ident = parse_identifier(p)?;
        match current_kind(p) {
            TokenKind::LBRACKET => {
                advance(p);
                let var = VarUntyped::new(start, ident);
                let index = parse_expr(p)?;
                match_and_consume_next_token(p, TokenKind::RBRACKET)?;
                let position = finish_position(&start, &previous_position(p));
                Ok(ExprType::ArrayExpr(ArrayExpr::new(position, var, Box::new(index))))
            },
            TokenKind::LPAREN => {
                let args = parse_argument_list(p)?;
                let position = finish_position(&start, &previous_position(p));
                Ok(ExprType::CallExpr(CallExpr::new(position, ident, Box::new(args))))
            },
            _ => {
                let var = VarUntyped::new(start, ident);
                Ok(ExprType::VarExpr(VarExpr::new(start, var)))
            },
        }
    } else if k == TokenKind::LPAREN {
        advance(p);
        let e = parse_expr(p)?;
        match_and_consume_next_token(p, TokenKind::RPAREN)?;
        Ok(e)
    } else if k == TokenKind::INTLITERAL {
        let spelling = p.tokens[p.current].spelling.clone();
        advance(p);
        Ok(ExprType::IntExpr(IntExpr::new(start, IntLiteral::new(start, spelling))))
    } else if k == TokenKind::FLOATLITERAL {
        let spelling = p.tokens[p.current].spelling.clone();
        advance(p);
        Ok(ExprType::FloatExpr(FloatExpr::new(start, FloatLiteral::new(start, spelling))))
    } else if k == TokenKind::BOOLEANLITERAL {
        let spelling = p.tokens[p.current].spelling.clone();
        advance(p);
        Ok(ExprType::BooleanExpr(BooleanExpr::new(start, BooleanLiteral::new(start, spelling))))
    } else if k == TokenKind::STRINGLITERAL {
        let spelling = p.tokens[p.current].spelling.clone();
        advance(p);
        Ok(ExprType::StringExpr(StringExpr::new(start, Box::new(StringLiteral::new(start, spelling)))))
    } else {
        Err(syntax_error(p))
    }
}

/// arg-list -> "(" ( arg ( "," arg )* )? ")"
fn parse_argument_list(p: &mut ParserData) -> (r: Result<ListType, CompileError>)
    requires
        old(p).wf(),
    ensures
        syntax_only(r),
        moved_on(*old(p), *final(p)),
        r matches Ok(l) ==> arg_list_ok(l) && final(p).cur() > old(p).cur(),
        old(p).kind() != TokenKind::LPAREN ==> r is Err,
        follows(*final(p), r is Ok, rec_args(old(p).toks(), old(p).cur()), ok_list(r)),
    decreases old(p).left(), 1nat,
{
    let ghost t = p.toks();
    match_and_consume_next_token(p, TokenKind::LPAREN)?;
    let mut args: Vec<(ExprType, SourcePosition)> = Vec::new();
    if current_kind(p) == TokenKind::RPAREN {
        let end = current_position(p);
        advance(p);
        assert(expr_views(args@) =~= Seq::<Tree>::empty());
        return Ok(arg_list_of(args, end));
    }
    let ghost whole = rec_args_tail(t, p.cur());
    proof {
        lemma_prefixed(Seq::empty(), Seq::empty(), whole);
        assert(expr_views(args@) =~= Seq::<Tree>::empty());
    }
    loop
        invariant_except_break
            whole == prefixed(expr_views(args@), rec_args_tail(t, p.cur())),
        invariant
            moved_on(*old(p), *p),
            t == old(p).toks(),
            p.cur() > old(p).cur(),
            forall|i: int| 0 <= i < args@.len() ==> (#[trigger] args@[i].0) is Arg && expr_ok(args@[i].0),
            rec_args(t, old(p).cur()) == match whole {
                Some((es, m)) => Some((cons_list("ArgList"@, "EmptyArgList"@, es), m)),
                None => None,
            },
        ensures
            moved_on(*old(p), *p),
            t == old(p).toks(),
            p.cur() > old(p).cur(),
            forall|i: int| 0 <= i < args@.len() ==> (#[trigger] args@[i].0) is Arg && expr_ok(args@[i].0),
            rec_args(t, old(p).cur()) == match whole {
                Some((es, m)) => Some((cons_list("ArgList"@, "EmptyArgList"@, es), m)),
                None => None,
            },
            whole == if p.kind() == TokenKind::RPAREN {
                Some((expr_views(args@), p.cur() + 1))
            } else {
                None
            },
        decreases p.left(),
    {
        let ghost before = args@;
        let start = current_position(p);
        let e = parse_expr(p)?;
        let position = finish_position(&start, e.get_source_position());
        let a = ExprType::Arg(Arg::new(position, Box::new(e)));
        let ghost av = expr_view(a);
        args.push((a, position));
        proof {
            assert(expr_views(args@) =~= expr_views(before) + seq![av]);
        }
        if current_kind(p) != TokenKind::COMMA {
            break;
        }
        advance(p);
        proof {
            lemma_prefixed(expr_views(before), seq![av], rec_args_tail(t, p.cur()));
        }
    }
    let end = current_position(p);
    match_and_consume_next_token(p, TokenKind::RPAREN)?;
    Ok(arg_list_of(args, end))
}

fn parse_identifier(p: &mut ParserData) -> (r: Result<Ident, CompileError>)
    requires
        old(p).wf(),
    ensures
        syntax_only(r),
        moved_on(*old(p), *final(p)),
        r is Ok <==> old(p).kind() == TokenKind::ID,
        r matches Ok(i) ==> {
            &&& ident_ok(i)
            &&& i.spelling@ == old(p).tokens()[old(p).cur()].spelling@
            &&& i.source_position == old(p).tokens()[old(p).cur()].token_position
            &&& final(p).cur() == old(p).cur() + 1
        },
{
    if current_kind(p) == TokenKind::ID {
        let t = &p.tokens[p.current];
        let ident = Ident::new(t.spelling.clone(), t.token_position, None);
        advance(p);
        Ok(ident)
    } else {
        Err(syntax_error(p))
    }
}

/// type -> "void" | "int" | "float" | "boolean"
fn parse_type(p: &mut ParserData) -> (r: Result<AstTypes, CompileError>)
    requires
        old(p).wf(),
    ensures
        syntax_only(r),
        moved_on(*old(p), *final(p)),
        r is Ok <==> type_first(old(p).kind()),
        r matches Ok(t) ==> type_matches(t, old(p).kind()) && final(p).cur() == old(p).cur() + 1
            && type_view(t) == type_of_kind(old(p).kind()),
{
    let position = current_position(p);
    let t = match current_kind(p) {
        TokenKind::VOID => AstTypes::VoidType(VoidType::new(position)),
        TokenKind::INT => AstTypes::IntType(IntType::new(position)),
        TokenKind::FLOAT => AstTypes::FloatType(FloatType::new(position)),
        TokenKind::BOOLEAN => AstTypes::BooleanType(BooleanType::new(position)),
        _ => {
            return Err(syntax_error(p));
        },
    };
    advance(p);
    Ok(t)
}

/// An expression, or an `EmptyExpr` when the current token is `stop`.
fn parse_optional_expr(p: &mut ParserData, stop: TokenKind) -> (r: Result<ExprType, CompileError>)
    requires
        old(p).wf(),
    ensures
        syntax_only(r),
        follows(*final(p), r is Ok, rec_opt_expr(old(p).toks(), old(p).cur(), stop), ok_expr(r)),
        moved_on(*old(p), *final(p)),
        r matches Ok(e) ==> expr_ok(e) && (old(p).kind() == stop <==> e is EmptyExpr),
        old(p).kind() != stop && !expr_first(old(p).kind()) ==> r is Err,
    decreases old(p).left(), 12nat,
{
    if current_kind(p) == stop {
        Ok(ExprType::EmptyExpr(EmptyExpr::new(current_position(p))))
    } else {
        parse_expr(p)
    }
}

// ======================================== Statements =============================================

/// compound-stmt -> "{" var-decl* stmt* "}"
fn parse_compound_stmt(p: &mut ParserData) -> (r: Result<StmtType, CompileError>)
    requires
        old(p).wf(),
    ensures
        syntax_only(r),
        stmt_post(*old(p), *final(p), r, rec_compound(old(p).toks(), old(p).cur())),
        r matches Ok(s) ==> s is CompoundStmt,
        old(p).kind() != TokenKind::LBRACE ==> r is Err,
    decreases old(p).left(), 30nat,
{
    let start = current_position(p);
    match_and_consume_next_token(p, TokenKind::LBRACE)?;
    let decls = parse_declaration_list(p, false)?;
    let stmts = parse_stmt_list(p)?;
    match_and_consume_next_token(p, TokenKind::RBRACE)?;
    let position = finish_position(&start, &previous_position(p));
    Ok(StmtType::CompoundStmt(CompoundStmt::new(Box::new(decls), Box::new(stmts), position)))
}

/// The statements of a compound statement, up to its closing brace.
fn parse_stmt_list(p: &mut ParserData) -> (r: Result<ListType, CompileError>)
    requires
        old(p).wf(),
    ensures
        syntax_only(r),
        follows_list(
            *final(p),
            r,
            rec_stmt_list(old(p).toks(), old(p).cur()),
            "StmtList"@,
            "EmptyStmtList"@,
        ),
        moved_on(*old(p), *final(p)),
        r matches Ok(l) ==> stmt_list_ok(l) && final(p).kind() == TokenKind::RBRACE,
    decreases old(p).left(), 33nat,
{
    let ghost t = p.toks();
    let mut stmts: Vec<(StmtType, SourcePosition)> = Vec::new();
    proof {
        lemma_prefixed(Seq::empty(), Seq::empty(), rec_stmt_list(t, p.cur()));
        assert(stmt_views(stmts@) =~= Seq::<Tree>::empty());
    }
    while current_kind(p) != TokenKind::RBRACE
        invariant
            moved_on(*old(p), *p),
            t == old(p).toks(),
            forall|i: int| 0 <= i < stmts@.len() ==> stmt_ok(#[trigger] stmts@[i].0),
            rec_stmt_list(t, old(p).cur()) == prefixed(stmt_views(stmts@), rec_stmt_list(t, p.cur())),
        decreases p.left(),
    {
        let ghost before = stmts@;
        let start = current_position(p);
        let s = parse_single_stmt(p)?;
        let ghost sv = stmt_view(s);
        stmts.push((s, start));
        proof {
            assert(stmt_views(stmts@) =~= stmt_views(before) + seq![sv]);
            lemma_prefixed(stmt_views(before), seq![sv], rec_stmt_list(t, p.cur()));
        }
    }
    proof {
        assert(stmt_views(stmts@) + Seq::<Tree>::empty() =~= stmt_views(stmts@));
    }
    Ok(stmt_list_of(stmts, current_position(p)))
}

/// stmt -> compound-stmt | if-stmt | for-stmt | while-stmt | break-stmt
///       | continue-stmt | return-stmt | expr-stmt
fn parse_single_stmt(p: &mut ParserData) -> (r: Result<StmtType, CompileError>)
    requires
        old(p).wf(),
    ensures
        syntax_only(r),
        stmt_post(*old(p), *final(p), r, rec_single(old(p).toks(), old(p).cur())),
        r matches Ok(s) ==> {
            &&& old(p).kind() == TokenKind::LBRACE ==> s is CompoundStmt
            &&& old(p).kind() == TokenKind::IF ==> s is IfStmt
            &&& old(p).kind() == TokenKind::FOR ==> s is ForStmt
            &&& old(p).kind() == TokenKind::WHILE ==> s is WhileStmt
            &&& old(p).kind() == TokenKind::BREAK ==> s is BreakStmt
            &&& old(p).kind() == TokenKind::CONTINUE ==> s is ContinueStmt
            &&& old(p).kind() == TokenKind::RETURN ==> s is ReturnStmt
            &&& (old(p).kind() == TokenKind::SEMICOLON || expr_first(old(p).kind())) ==> s is ExprStmt
        },
        !(expr_first(old(p).kind()) || old(p).kind() == TokenKind::SEMICOLON || old(p).kind()
            == TokenKind::LBRACE || old(p).kind() == TokenKind::IF || old(p).kind() == TokenKind::FOR
            || old(p).kind() == TokenKind::WHILE || old(p).kind() == TokenKind::BREAK || old(p).kind()
            == TokenKind::CONTINUE || old(p).kind() == TokenKind::RETURN) ==> r is Err,
    decreases old(p).left(), 32nat,
{
    match current_kind(p) {
        TokenKind::LBRACE => parse_compound_stmt(p),
        TokenKind::IF => parse_if_statement(p),
        TokenKind::FOR => parse_for_statement(p),
        TokenKind::WHILE => parse_while_stmt(p),
        TokenKind::BREAK => parse_break_stmt(p),
        TokenKind::CONTINUE => parse_continue_stmt(p),
        TokenKind::RETURN => parse_return_stmt(p),
        _ => parse_expr_stmt(p),
    }
}

/// if-stmt -> "if" "(" expr ")" stmt ( "else" stmt )?
fn parse_if_statement(p: &mut ParserData) -> (r: Result<StmtType, CompileError>)
    requires
        old(p).wf(),
    ensures
        syntax_only(r),
        stmt_post(*old(p), *final(p), r, rec_if(old(p).toks(), old(p).cur())),
        r matches Ok(s) ==> s is IfStmt,
    decreases old(p).left(), 31nat,
{
    let start = current_position(p);
    match_and_consume_next_token(p, TokenKind::IF)?;
    match_and_consume_next_token(p, TokenKind::LPAREN)?;
    let cond = parse_expr(p)?;
    match_and_consume_next_token(p, TokenKind::RPAREN)?;
    let then_branch = parse_single_stmt(p)?;
    assert(p.kind() == TokenKind::ELSE ==> p.cur() + 1 < p.tokens().len());
    if current_kind(p) == TokenKind::ELSE {
        advance(p);
        let else_branch = parse_single_stmt(p)?;
        let position = finish_position(&start, &previous_position(p));
        Ok(StmtType::IfStmt(IfStmt::new(position, Box::new(cond), Box::new(then_branch), Box::new(else_branch))))
    } else {
        let position = finish_position(&start, &previous_position(p));
        let none = StmtType::EmptyStmt(EmptyStmt::new(position));
        assert(stmt_ok(none));
        assert(stmt_view(none) == node("EmptyStmt"@, Seq::<Tree>::empty()));
        Ok(StmtType::IfStmt(IfStmt::new(position, Box::new(cond), Box::new(then_branch), Box::new(none))))
    }
}

/// for-stmt -> "for" "(" expr? ";" expr? ";" expr? ")" stmt
fn parse_for_statement(p: &mut ParserData) -> (r: Result<StmtType, CompileError>)
    requires
        old(p).wf(),
    ensures
        syntax_only(r),
        stmt_post(*old(p), *final(p), r, rec_for(old(p).toks(), old(p).cur())),
        r matches Ok(s) ==> s is ForStmt,
    decreases old(p).left(), 31nat,
{
    let start = current_position(p);
    match_and_consume_next_token(p, TokenKind::FOR)?;
    match_and_consume_next_token(p, TokenKind::LPAREN)?;
    let e1 = parse_optional_expr(p, TokenKind::SEMICOLON)?;
    match_and_consume_next_token(p, TokenKind::SEMICOLON)?;
    let e2 = parse_optional_expr(p, TokenKind::SEMICOLON)?;
    match_and_consume_next_token(p, TokenKind::SEMICOLON)?;
    let e3 = parse_optional_expr(p, TokenKind::RPAREN)?;
    match_and_consume_next_token(p, TokenKind::RPAREN)?;
    let body = parse_single_stmt(p)?;
    let position = finish_position(&start, &previous_position(p));
    Ok(StmtType::ForStmt(ForStmt::new(position, Box::new(e1), Box::new(e2), Box::new(e3), Box::new(body))))
}

/// while-stmt -> "while" "(" expr ")" stmt
fn parse_while_stmt(p: &mut ParserData) -> (r: Result<StmtType, CompileError>)
    requires
        old(p).wf(),
    ensures
        syntax_only(r),
        stmt_post(*old(p), *final(p), r, rec_while(old(p).toks(), old(p).cur())),
        r matches Ok(s) ==> s is WhileStmt,
    decreases old(p).left(), 31nat,
{
    let start = current_position(p);
    match_and_consume_next_token(p, TokenKind::WHILE)?;
    match_and_consume_next_token(p, TokenKind::LPAREN)?;
    let cond = parse_expr(p)?;
    match_and_consume_next_token(p, TokenKind::RPAREN)?;
    let body = parse_single_stmt(p)?;
    let position = finish_position(&start, &previous_position(p));
    Ok(StmtType::WhileStmt(WhileStmt::new(position, Box::new(cond), Box::new(body))))
}

/// break-stmt -> "break" ";"
fn parse_break_stmt(p: &mut ParserData) -> (r: Result<StmtType, CompileError>)
    requires
        old(p).wf(),
        old(p).kind() == TokenKind::BREAK,
    ensures
        syntax_only(r),
        stmt_post(*old(p), *final(p), r, rec_single(old(p).toks(), old(p).cur())),
        r matches Ok(s) ==> s is BreakStmt,
{
    let start = current_position(p);
    match_and_consume_next_token(p, TokenKind::BREAK)?;
    match_and_consume_next_token(p, TokenKind::SEMICOLON)?;
    Ok(StmtType::BreakStmt(BreakStmt::new(finish_position(&start, &previous_position(p)))))
}

/// continue-stmt -> "continue" ";"
fn parse_continue_stmt(p: &mut ParserData) -> (r: Result<StmtType, CompileError>)
    requires
        old(p).wf(),
        old(p).kind() == TokenKind::CONTINUE,
    ensures
        syntax_only(r),
        stmt_post(*old(p), *final(p), r, rec_single(old(p).toks(), old(p).cur())),
        r matches Ok(s) ==> s is ContinueStmt,
{
    let start = current_position(p);
    match_and_consume_next_token(p, TokenKind::CONTINUE)?;
    match_and_consume_next_token(p, TokenKind::SEMICOLON)?;
    Ok(StmtType::ContinueStmt(ContinueStmt::new(finish_position(&start, &previous_position(p)))))
}

/// return-stmt -> "return" expr? ";"
fn parse_return_stmt(p: &mut ParserData) -> (r: Result<StmtType, CompileError>)
    requires
        old(p).wf(),
        old(p).kind() == TokenKind::RETURN,
    ensures
        syntax_only(r),
        stmt_post(*old(p), *final(p), r, rec_single(old(p).toks(), old(p).cur())),
        r matches Ok(s) ==> s is ReturnStmt,
    decreases old(p).left(), 31nat,
{
    let start = current_position(p);
    match_and_consume_next_token(p, TokenKind::RETURN)?;
    let e = parse_optional_expr(p, TokenKind::SEMICOLON)?;
    match_and_consume_next_token(p, TokenKind::SEMICOLON)?;
    let position = finish_position(&start, &previous_position(p));
    Ok(StmtType::ReturnStmt(ReturnStmt::new(position, Box::new(e))))
}

/// expr-stmt -> expr? ";"
fn parse_expr_stmt(p: &mut ParserData) -> (r: Result<StmtType, CompileError>)
    requires
        old(p).wf(),
        !(old(p).kind() == TokenKind::LBRACE || old(p).kind() == TokenKind::IF || old(p).kind()
            == TokenKind::FOR || old(p).kind() == TokenKind::WHILE || old(p).kind() == TokenKind::BREAK
            || old(p).kind() == TokenKind::CONTINUE || old(p).kind() == TokenKind::RETURN),
    ensures
        syntax_only(r),
        stmt_post(*old(p), *final(p), r, rec_single(old(p).toks(), old(p).cur())),
        r matches Ok(s) ==> s is ExprStmt,
        old(p).kind() != TokenKind::SEMICOLON && !expr_first(old(p).kind()) ==> r is Err,
    decreases old(p).left(), 31nat,
{
    let start = current_position(p);
    let e = parse_optional_expr(p, TokenKind::SEMICOLON)?;
    match_and_consume_next_token(p, TokenKind::SEMICOLON)?;
    let position = finish_position(&start, &previous_position(p));
    Ok(StmtType::ExprStmt(ExprStmt::new(position, e)))
}

// ======================================= Declarations ============================================

/// declarator -> identifier ( "[" INTLITERAL? "]" )?, the identifier already read.
fn parse_declarator(p: &mut ParserData, decl_type: AstTypes) -> (r: Result<AstTypeVariant, CompileError>)
    requires
        old(p).wf(),
    ensures
        syntax_only(r),
        follows(*final(p), r is Ok, rec_declarator(old(p).toks(), old(p).cur(), type_view(decl_type)), ok_variant(r)),
        moved_on(*old(p), *final(p)),
        r matches Ok(t) ==> type_ok(t) && (old(p).kind() == TokenKind::LBRACKET <==> t is Array),
{
    let start = current_position(p);
    if current_kind(p) != TokenKind::LBRACKET {
        return Ok(AstTypeVariant::Primitive(decl_type));
    }
    advance(p);
    let size = if current_kind(p) == TokenKind::INTLITERAL {
        let at = current_position(p);
        let spelling = p.tokens[p.current].spelling.clone();
        advance(p);
        ExprType::IntExpr(IntExpr::new(at, IntLiteral::new(at, spelling)))
    } else {
        ExprType::EmptyExpr(EmptyExpr::new(current_position(p)))
    };
    match_and_consume_next_token(p, TokenKind::RBRACKET)?;
    let position = finish_position(&start, &previous_position(p));
    Ok(AstTypeVariant::Array(ArrayType::new(position, Box::new(decl_type), size)))
}

/// initialiser -> expr | "{" expr ( "," expr )* "}"
fn parse_initialiser(p: &mut ParserData) -> (r: Result<ExprType, CompileError>)
    requires
        old(p).wf(),
    ensures
        syntax_only(r),
        follows(*final(p), r is Ok, rec_initialiser(old(p).toks(), old(p).cur()), ok_expr(r)),
        moved_on(*old(p), *final(p)),
        r matches Ok(e) ==> expr_ok(e) && !(e is EmptyExpr) && final(p).cur() > old(p).cur(),
    decreases old(p).left(), 12nat,
{
    if current_kind(p) != TokenKind::LBRACE {
        return parse_expr(p);
    }
    let ghost t = p.toks();
    let start = current_position(p);
    advance(p);
    let mut elems: Vec<(ExprType, SourcePosition)> = Vec::new();
    let ghost whole = rec_init_tail(t, p.cur());
    proof {
        lemma_prefixed(Seq::empty(), Seq::empty(), whole);
        assert(expr_views(elems@) =~= Seq::<Tree>::empty());
    }
    loop
        invariant_except_break
            whole == prefixed(expr_views(elems@), rec_init_tail(t, p.cur())),
        invariant
            moved_on(*old(p), *p),
            t == old(p).toks(),
            p.cur() > old(p).cur(),
            forall|i: int| 0 <= i < elems@.len() ==> expr_ok(#[trigger] elems@[i].0),
            rec_initialiser(t, old(p).cur()) == match whole {
                Some((es, m)) => Some(
                    (node("ArrayInitExpr"@, seq![cons_list("ArrayExprList"@, "EmptyArrayExprList"@, es)]), m),
                ),
                None => None,
            },
        ensures
            moved_on(*old(p), *p),
            t == old(p).toks(),
            p.cur() > old(p).cur(),
            forall|i: int| 0 <= i < elems@.len() ==> expr_ok(#[trigger] elems@[i].0),
            rec_initialiser(t, old(p).cur()) == match whole {
                Some((es, m)) => Some(
                    (node("ArrayInitExpr"@, seq![cons_list("ArrayExprList"@, "EmptyArrayExprList"@, es)]), m),
                ),
                None => None,
            },
            whole == if p.kind() == TokenKind::RBRACE {
                Some((expr_views(elems@), p.cur() + 1))
            } else {
                None
            },
        decreases p.left(),
    {
        let ghost before = elems@;
        let at = current_position(p);
        let e = parse_expr(p)?;
        let ghost ev = expr_view(e);
        elems.push((e, at));
        proof {
            assert(expr_views(elems@) =~= expr_views(before) + seq![ev]);
        }
        if current_kind(p) != TokenKind::COMMA {
            break;
        }
        advance(p);
        proof {
            lemma_prefixed(expr_views(before), seq![ev], rec_init_tail(t, p.cur()));
        }
    }
    let end = current_position(p);
    match_and_consume_next_token(p, TokenKind::RBRACE)?;
    let list = array_expr_list_of(elems, end);
    let position = finish_position(&start, &previous_position(p));
    Ok(ExprType::ArrayInitExpr(ArrayInitExpr::new(position, Box::new(list))))
}

/// init-declarator -> declarator ( "=" initialiser )?, the identifier already read.
fn parse_initial_declarator(
    p: &mut ParserData,
    decl_type: AstTypes,
    ident: Ident,
    start: SourcePosition,
    is_global: bool,
) -> (r: Result<DeclType, CompileError>)
    requires
        old(p).wf(),
        ident_ok(ident),
    ensures
        syntax_only(r),
        follows(
            *final(p),
            r is Ok,
            rec_init_declarator(old(p).toks(), old(p).cur(), type_view(decl_type), ident_view(ident), is_global),
            ok_decl(r),
        ),
        moved_on(*old(p), *final(p)),
        r matches Ok(d) ==> decl_ok(d, is_global),
    decreases old(p).left(), 13nat,
{
    let var_type = parse_declarator(p, decl_type)?;
    let init = if current_kind(p) == TokenKind::EQ {
        advance(p);
        parse_initialiser(p)?
    } else {
        ExprType::EmptyExpr(EmptyExpr::new(current_position(p)))
    };
    let position = finish_position(&start, &previous_position(p));
    if is_global {
        Ok(DeclType::GlobalVarDecl(GlobalVarDecl::new(position, Box::new(var_type), Box::new(ident), Box::new(init))))
    } else {
        Ok(DeclType::LocalVarDecl(LocalVarDecl::new(position, Box::new(var_type), Box::new(ident), Box::new(init))))
    }
}

/// init-declarator-list -> init-declarator ( "," init-declarator )* ";", the
/// type and the first identifier already read. Each declarator becomes a
/// declaration of its own, all of the same type.
fn parse_initial_declaration_list(
    p: &mut ParserData,
    decl_type: AstTypes,
    ident: Ident,
    start: SourcePosition,
    is_global: bool,
    out: &mut Vec<(DeclType, SourcePosition)>,
) -> (r: Result<(), CompileError>)
    requires
        old(p).wf(),
        ident_ok(ident),
        forall|i: int| 0 <= i < old(out)@.len() ==> decl_ok(#[trigger] old(out)@[i].0, is_global),
    ensures
        syntax_only(r),
        moved_on(*old(p), *final(p)),
        forall|i: int| 0 <= i < final(out)@.len() ==> decl_ok(#[trigger] final(out)@[i].0, is_global),
        r is Ok ==> final(out)@.len() > old(out)@.len() && final(p).cur() > old(p).cur(),
        r is Ok <==> rec_var_list(
            old(p).toks(),
            old(p).cur(),
            type_view(decl_type),
            ident_view(ident),
            is_global,
        ) is Some,
        r is Ok ==> {
            let s = rec_var_list(
                old(p).toks(),
                old(p).cur(),
                type_view(decl_type),
                ident_view(ident),
                is_global,
            )->0;
            final(p).cur() == s.1 && decl_views(final(out)@) == decl_views(old(out)@) + s.0
        },
    decreases old(p).left(), 14nat,
{
    let ghost t = p.toks();
    let ghost ty = type_view(decl_type);
    let ghost base = decl_views(out@);
    let d = parse_initial_declarator(p, decl_type, ident, start, is_global)?;
    let ghost dv = decl_view(d);
    let ghost prev_out = out@;
    out.push((d, start));
    assert(decl_views(out@) =~= decl_views(prev_out) + seq![dv]);
    let ghost mut added = seq![dv];
    proof {
        assert(decl_views(out@) =~= base + added);
    }
    while current_kind(p) == TokenKind::COMMA
        invariant
            moved_on(*old(p), *p),
            t == old(p).toks(),
            ty == type_view(decl_type),
            base == decl_views(old(out)@),
            out@.len() > old(out)@.len(),
            forall|i: int| 0 <= i < out@.len() ==> decl_ok(#[trigger] out@[i].0, is_global),
            decl_views(out@) == base + added,
            rec_var_list(t, old(p).cur(), ty, ident_view(ident), is_global) == prefixed(
                added,
                rec_var_tail(t, p.cur(), ty, is_global),
            ),
        decreases p.left(),
    {
        advance(p);
        let at = current_position(p);
        let name = parse_identifier(p)?;
        let d = parse_initial_declarator(p, decl_type, name, at, is_global)?;
        let ghost dv2 = decl_view(d);
        let ghost prev = added;
        let ghost prev_out = out@;
        out.push((d, at));
        proof {
            assert(decl_views(out@) =~= decl_views(prev_out) + seq![dv2]);
            added = added + seq![dv2];
            assert(decl_views(out@) =~= base + added);
            lemma_prefixed(prev, seq![dv2], rec_var_tail(t, p.cur(), ty, is_global));
        }
    }
    match_and_consume_next_token(p, TokenKind::SEMICOLON)?;
    proof {
        assert(added + Seq::<Tree>::empty() =~= added);
    }
    Ok(())
}

/// para-decl -> type identifier ( "[" "]" )?
fn parse_parameter_declaration(p: &mut ParserData) -> (r: Result<ParaDecl, CompileError>)
    requires
        old(p).wf(),
    ensures
        syntax_only(r),
        follows(*final(p), r is Ok, rec_param_decl(old(p).toks(), old(p).cur()), ok_param(r)),
        moved_on(*old(p), *final(p)),
        r matches Ok(d) ==> param_ok(d) && final(p).cur() > old(p).cur(),
{
    let start = current_position(p);
    let t = parse_type(p)?;
    let ident = parse_identifier(p)?;
    let var_type = if current_kind(p) == TokenKind::LBRACKET {
        let at = current_position(p);
        advance(p);
        let size = ExprType::EmptyExpr(EmptyExpr::new(current_position(p)));
        match_and_consume_next_token(p, TokenKind::RBRACKET)?;
        AstTypeVariant::Array(ArrayType::new(finish_position(&at, &previous_position(p)), Box::new(t), size))
    } else {
        AstTypeVariant::Primitive(t)
    };
    let position = finish_position(&start, &previous_position(p));
    Ok(ParaDecl::new(position, Box::new(var_type), Box::new(ident)))
}

/// para-list -> "(" ( para-decl ( "," para-decl )* )? ")"
fn parse_parameter_list(p: &mut ParserData) -> (r: Result<ListType, CompileError>)
    requires
        old(p).wf(),
    ensures
        syntax_only(r),
        follows(*final(p), r is Ok, rec_params(old(p).toks(), old(p).cur()), ok_list(r)),
        moved_on(*old(p), *final(p)),
        r matches Ok(l) ==> param_list_ok(l) && final(p).cur() > old(p).cur(),
        old(p).kind() != TokenKind::LPAREN ==> r is Err,
{
    let ghost t = p.toks();
    match_and_consume_next_token(p, TokenKind::LPAREN)?;
    let mut params: Vec<ParaDecl> = Vec::new();
    if current_kind(p) == TokenKind::RPAREN {
        let end = current_position(p);
        advance(p);
        assert(param_views(params@) =~= Seq::<Tree>::empty());
        return Ok(param_list_of(params, end));
    }
    let ghost whole = rec_params_tail(t, p.cur());
    proof {
        lemma_prefixed(Seq::empty(), Seq::empty(), whole);
        assert(param_views(params@) =~= Seq::<Tree>::empty());
    }
    loop
        invariant_except_break
            whole == prefixed(param_views(params@), rec_params_tail(t, p.cur())),
        invariant
            moved_on(*old(p), *p),
            t == old(p).toks(),
            p.cur() > old(p).cur(),
            forall|i: int| 0 <= i < params@.len() ==> param_ok(#[trigger] params@[i]),
            rec_params(t, old(p).cur()) == match whole {
                Some((ps, m)) => Some((cons_list("ParamList"@, "EmptyParamList"@, ps), m)),
                None => None,
            },
        ensures
            moved_on(*old(p), *p),
            t == old(p).toks(),
            p.cur() > old(p).cur(),
            forall|i: int| 0 <= i < params@.len() ==> param_ok(#[trigger] params@[i]),
            rec_params(t, old(p).cur()) == match whole {
                Some((ps, m)) => Some((cons_list("ParamList"@, "EmptyParamList"@, ps), m)),
                None => None,
            },
            whole == if p.kind() == TokenKind::RPAREN {
                Some((param_views(params@), p.cur() + 1))
            } else {
                None
            },
        decreases p.left(),
    {
        let ghost before = params@;
        let d = parse_parameter_declaration(p)?;
        let ghost dv = param_view(d);
        params.push(d);
        proof {
            assert(param_views(params@) =~= param_views(before) + seq![dv]);
        }
        if current_kind(p) != TokenKind::COMMA {
            break;
        }
        advance(p);
        proof {
            lemma_prefixed(param_views(before), seq![dv], rec_params_tail(t, p.cur()));
        }
    }
    let end = current_position(p);
    match_and_consume_next_token(p, TokenKind::RPAREN)?;
    Ok(param_list_of(params, end))
}

/// func-decl -> type identifier para-list compound-stmt, the type and the
/// identifier already read.
fn parse_func_decl(p: &mut ParserData, function_type: AstTypes, ident: Ident, start: SourcePosition) -> (r:
    Result<FuncDecl, CompileError>)
    requires
        old(p).wf(),
        ident_ok(ident),
    ensures
        syntax_only(r),
        follows(
            *final(p),
            r is Ok,
            rec_func(old(p).toks(), old(p).cur(), type_view(function_type), ident_view(ident)),
            ok_func(r),
        ),
        moved_on(*old(p), *final(p)),
        r matches Ok(f) ==> func_ok(f) && final(p).cur() > old(p).cur(),
    decreases old(p).left(), 35nat,
{
    let params = parse_parameter_list(p)?;
    let body = parse_compound_stmt(p)?;
    let position = finish_position(&start, &previous_position(p));
    Ok(FuncDecl::new(position, Box::new(AstTypeVariant::Primitive(function_type)), Box::new(ident), Box::new(params), Box::new(body)))
}

/// One declaration at the head of the program or of a compound statement:
/// a type and a name, then a function (at the top level only, when `(`
/// follows the name) or a list of variables.
fn parse_declaration(p: &mut ParserData, is_global: bool, out: &mut Vec<(DeclType, SourcePosition)>) -> (r:
    Result<(), CompileError>)
    requires
        old(p).wf(),
        forall|i: int| 0 <= i < old(out)@.len() ==> decl_ok(#[trigger] old(out)@[i].0, is_global),
    ensures
        syntax_only(r),
        moved_on(*old(p), *final(p)),
        forall|i: int| 0 <= i < final(out)@.len() ==> decl_ok(#[trigger] final(out)@[i].0, is_global),
        r is Ok ==> final(p).cur() > old(p).cur(),
        !type_first(old(p).kind()) ==> r is Err,
        r is Ok <==> rec_declaration(old(p).toks(), old(p).cur(), is_global) is Some,
        r is Ok ==> {
            let s = rec_declaration(old(p).toks(), old(p).cur(), is_global)->0;
            final(p).cur() == s.1 && decl_views(final(out)@) == decl_views(old(out)@) + s.0
        },
    decreases old(p).left(), 40nat,
{
    let start = current_position(p);
    let t = parse_type(p)?;
    let ident = parse_identifier(p)?;
    if is_global && current_kind(p) == TokenKind::LPAREN {
        let f = parse_func_decl(p, t, ident, start)?;
        let ghost before = out@;
        let d = DeclType::FuncDecl(f);
        let ghost dv = decl_view(d);
        out.push((d, start));
        proof {
            assert(decl_views(out@) =~= decl_views(before) + seq![dv]);
        }
        Ok(())
    } else {
        parse_initial_declaration_list(p, t, ident, start, is_global, out)
    }
}

/// The declarations at the head of the program (`is_global`) or of a
/// compound statement: as many as begin with a type.
fn parse_declaration_list(p: &mut ParserData, is_global: bool) -> (r: Result<ListType, CompileError>)
    requires
        old(p).wf(),
    ensures
        syntax_only(r),
        follows_list(
            *final(p),
            r,
            rec_decl_list(old(p).toks(), old(p).cur(), is_global),
            "DeclList"@,
            "EmptyDeclList"@,
        ),
        moved_on(*old(p), *final(p)),
        r matches Ok(l) ==> decl_list_ok(l, is_global) && !type_first(final(p).kind()),
    decreases old(p).left(), 41nat,
{
    let ghost t = p.toks();
    let mut decls: Vec<(DeclType, SourcePosition)> = Vec::new();
    proof {
        lemma_prefixed(Seq::empty(), Seq::empty(), rec_decl_list(t, p.cur(), is_global));
        assert(decl_views(decls@) =~= Seq::<Tree>::empty());
    }
    while type_first_exec(current_kind(p))
        invariant
            moved_on(*old(p), *p),
            t == old(p).toks(),
            forall|i: int| 0 <= i < decls@.len() ==> decl_ok(#[trigger] decls@[i].0, is_global),
            rec_decl_list(t, old(p).cur(), is_global) == prefixed(
                decl_views(decls@),
                rec_decl_list(t, p.cur(), is_global),
            ),
        decreases p.left(),
    {
        let ghost before = decl_views(decls@);
        let ghost j = p.cur();
        parse_declaration(p, is_global, &mut decls)?;
        proof {
            let (ds, _) = rec_declaration(t, j, is_global)->0;
            assert(decl_views(decls@) == before + ds);
            lemma_prefixed(before, ds, rec_decl_list(t, p.cur(), is_global));
        }
    }
    proof {
        assert(decl_views(decls@) + Seq::<Tree>::empty() =~= decl_views(decls@));
    }
    Ok(decl_list_of(decls, current_position(p), is_global))
}

fn type_first_exec(k: TokenKind) -> (r: bool)
    ensures
        r == type_first(k),
{
    k == TokenKind::VOID || k == TokenKind::INT || k == TokenKind::FLOAT || k == TokenKind::BOOLEAN
}

/// program -> ( func-decl | var-decl )* EOF
pub fn parse_program(p: &mut ParserData) -> (r: Result<Program, CompileError>)
    requires
        old(p).wf(),
    ensures
        syntax_only(r),
        r is Ok <==> rec_program(old(p).toks(), old(p).cur()) is Some,
        r matches Ok(prog) ==> program_view(prog) == rec_program(old(p).toks(), old(p).cur())->0,
        moved_on(*old(p), *final(p)),
        r matches Ok(prog) ==> program_ok(prog) && final(p).kind() == TokenKind::EOF,
{
    let decls = parse_declaration_list(p, true)?;
    if current_kind(p) != TokenKind::EOF {
        return Err(syntax_error(p));
    }
    Ok(Program::new(decls))
}

/// Parses the whole source that `scanner` reads.
pub fn parse_code(scanner: Scanner) -> (r: Result<Program, CompileError>)
    requires
        scanner.wf(),
    ensures
        r matches Ok(prog) ==> program_ok(prog),
        r is Ok <==> (token_stream(scanner.chars(), scanner.index()) is Ok && rec_program(
            token_stream(scanner.chars(), scanner.index())->Ok_0,
            0,
        ) is Some),
        r matches Ok(prog) ==> program_view(prog) == rec_program(
            token_stream(scanner.chars(), scanner.index())->Ok_0,
            0,
        )->0,
        r matches Err(CompileError::Lexical(l)) ==> token_stream(scanner.chars(), scanner.index())
            == Err::<Seq<Tok>, LexicalError>(l),
        token_stream(scanner.chars(), scanner.index()) matches Err(l) ==> (r matches Err(
            CompileError::Lexical(l2),
        ) && l2 == l),
{
    let mut p = ParserData::new(scanner)?;
    parse_program(&mut p)
}

} // verus!
