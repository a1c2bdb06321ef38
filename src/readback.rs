use vstd::prelude::*;
use crate::ast::expression::ExprType;
use crate::ast::list::ListType;
use crate::ast::view::{Tree, cons_list, expr_view, list_view};
use crate::grammar::{
    Tok, is_unary_op, kind_at, level_op, rec_args, rec_args_tail, rec_expr, rec_level,
    rec_level_tail, rec_operand, rec_primary, rec_unary, text_at,
};
use crate::token::TokenKind;

verus! {

// The parser's half of the round trip through text, for expressions: the
// tokens the unparser writes for an expression are read back by the grammar
// into the same tree.

/// The kind of a binary operator's spelling, and its level.
pub open spec fn binary_op(s: Seq<char>) -> Option<(TokenKind, nat)> {
    if s == "||"@ {
        Some((TokenKind::OROR, 0))
    } else if s == "&&"@ {
        Some((TokenKind::ANDAND, 1))
    } else if s == "=="@ {
        Some((TokenKind::EQEQ, 2))
    } else if s == "!="@ {
        Some((TokenKind::NOTEQ, 2))
    } else if s == "<"@ {
        Some((TokenKind::LT, 3))
    } else if s == "<="@ {
        Some((TokenKind::LTEQ, 3))
    } else if s == ">"@ {
        Some((TokenKind::GT, 3))
    } else if s == ">="@ {
        Some((TokenKind::GTEQ, 3))
    } else if s == "+"@ {
        Some((TokenKind::PLUS, 4))
    } else if s == "-"@ {
        Some((TokenKind::MINUS, 4))
    } else if s == "*"@ {
        Some((TokenKind::MULT, 5))
    } else if s == "/"@ {
        Some((TokenKind::DIV, 5))
    } else {
        None
    }
}

/// The kind of a prefix operator's spelling.
pub open spec fn unary_op(s: Seq<char>) -> Option<TokenKind> {
    if s == "+"@ {
        Some(TokenKind::PLUS)
    } else if s == "-"@ {
        Some(TokenKind::MINUS)
    } else if s == "!"@ {
        Some(TokenKind::NOT)
    } else {
        None
    }
}

/// An expression the unparser writes as tokens the grammar reads: its
/// operators are spelled as operators, and it holds no argument,
/// initialiser or empty expression outside an argument list.
pub open spec fn printable(e: ExprType) -> bool
    decreases e,
{
    match e {
        ExprType::ArrayExpr(x) => printable(*x.expr),
        ExprType::AssignExpr(x) => printable(*x.expression_one) && printable(*x.expression_two),
        ExprType::BinaryExpr(x) => binary_op(x.operator.spelling@) is Some && printable(
            *x.expression_one,
        ) && printable(*x.expression_two),
        ExprType::BooleanExpr(_) => true,
        ExprType::CallExpr(x) => args_printable(*x.argument_list),
        ExprType::FloatExpr(_) => true,
        ExprType::IntExpr(_) => true,
        ExprType::StringExpr(_) => true,
        ExprType::UnaryExpr(x) => unary_op(x.operator.spelling@) is Some && printable(*x.expression),
        ExprType::VarExpr(_) => true,
        _ => false,
    }
}

pub open spec fn args_printable(l: ListType) -> bool
    decreases l,
{
    match l {
        ListType::ArgList(c) => match c.arg {
            ExprType::Arg(a) => printable(*a.expr) && args_printable(*c.arg_list),
            _ => false,
        },
        ListType::EmptyArgList(_) => true,
        _ => false,
    }
}

pub open spec fn binary_tok(s: Seq<char>) -> Tok {
    match binary_op(s) {
        Some((k, _)) => (k, s),
        None => (TokenKind::ERROR, s),
    }
}

pub open spec fn unary_tok(s: Seq<char>) -> Tok {
    match unary_op(s) {
        Some(k) => (k, s),
        None => (TokenKind::ERROR, s),
    }
}

/// The tokens of the text the unparser writes for an expression.
pub open spec fn expr_toks(e: ExprType) -> Seq<Tok>
    decreases e,
{
    match e {
        ExprType::ArrayExpr(x) => seq![(TokenKind::ID, x.var.ident.spelling@), (TokenKind::LBRACKET, "["@)]
            + expr_toks(*x.expr) + seq![(TokenKind::RBRACKET, "]"@)],
        ExprType::AssignExpr(x) => seq![(TokenKind::LPAREN, "("@)] + expr_toks(*x.expression_one) + seq![
            (TokenKind::EQ, "="@),
        ] + expr_toks(*x.expression_two) + seq![(TokenKind::RPAREN, ")"@)],
        ExprType::BinaryExpr(x) => seq![(TokenKind::LPAREN, "("@)] + expr_toks(*x.expression_one) + seq![
            binary_tok(x.operator.spelling@),
        ] + expr_toks(*x.expression_two) + seq![(TokenKind::RPAREN, ")"@)],
        ExprType::BooleanExpr(x) => seq![(TokenKind::BOOLEANLITERAL, x.boolean_literal.spelling@)],
        ExprType::CallExpr(x) => seq![(TokenKind::ID, x.ident.spelling@), (TokenKind::LPAREN, "("@)]
            + args_toks(*x.argument_list) + seq![(TokenKind::RPAREN, ")"@)],
        ExprType::FloatExpr(x) => seq![(TokenKind::FLOATLITERAL, x.float_literal.spelling@)],
        ExprType::IntExpr(x) => seq![(TokenKind::INTLITERAL, x.int_literal.spelling@)],
        ExprType::StringExpr(x) => seq![(TokenKind::STRINGLITERAL, x.string_literal.spelling@)],
        ExprType::UnaryExpr(x) => seq![unary_tok(x.operator.spelling@)] + expr_toks(*x.expression),
        ExprType::VarExpr(x) => seq![(TokenKind::ID, x.var.ident.spelling@)],
        _ => Seq::empty(),
    }
}

/// The tokens of an argument list, without its parentheses.
pub open spec fn args_toks(l: ListType) -> Seq<Tok>
    decreases l,
{
    match l {
        ListType::ArgList(c) => match c.arg {
            ExprType::Arg(a) => expr_toks(*a.expr) + match *c.arg_list {
                ListType::EmptyArgList(_) => Seq::empty(),
                _ => seq![(TokenKind::COMMA, ","@)] + args_toks(*c.arg_list),
            },
            _ => Seq::empty(),
        },
        _ => Seq::empty(),
    }
}

/// The views of the arguments of a list.
pub open spec fn args_views(l: ListType) -> Seq<Tree>
    decreases l,
{
    match l {
        ListType::ArgList(c) => seq![expr_view(c.arg)] + args_views(*c.arg_list),
        _ => Seq::empty(),
    }
}

/// `t` holds the tokens `x` from index `i` on.
pub open spec fn holds_at(t: Seq<Tok>, i: int, x: Seq<Tok>) -> bool {
    0 <= i && i + x.len() <= t.len() && t.subrange(i, i + x.len()) == x
}

proof fn lemma_holds_part(t: Seq<Tok>, i: int, x: Seq<Tok>, p: int, q: int)
    requires
        holds_at(t, i, x),
        0 <= p <= q <= x.len(),
    ensures
        holds_at(t, i + p, x.subrange(p, q)),
        forall|k: int| p <= k < q ==> #[trigger] t[i + k] == x[k],
{
    assert(t.subrange(i + p, i + q) =~= x.subrange(p, q));
    assert forall|k: int| p <= k < q implies #[trigger] t[i + k] == x[k] by {
        assert(t.subrange(i, i + x.len())[k] == t[i + k]);
    }
}

/// Up the levels: a phrase of level `top` (6 standing for a unary
/// expression) is a phrase of every looser level down to `low`, when the
/// token after it is no operator of those levels.
proof fn lemma_levels(t: Seq<Tok>, i: int, x: Tree, j: int, low: nat, top: nat)
    requires
        low < top <= 6,
        0 <= i <= j < t.len(),
        top == 6 ==> rec_unary(t, i) == Some((x, j)),
        top < 6 ==> rec_level(t, i, top) == Some((x, j)),
        forall|l: nat| low <= l < top ==> !#[trigger] level_op(l, kind_at(t, j)),
    ensures
        rec_level(t, i, low) == Some((x, j)),
    decreases top - low,
{
    if low + 1 < top {
        lemma_levels(t, i, x, j, low + 1, top);
    }
    assert(rec_operand(t, i, low) == Some((x, j)));
    assert(rec_level_tail(t, j, low, x) == Some((x, j)));
}

pub open spec fn no_binary_op(k: TokenKind) -> bool {
    forall|l: nat| l <= 5 ==> !#[trigger] level_op(l, k)
}

proof fn lemma_expr_of_unary(t: Seq<Tok>, i: int, x: Tree, j: int)
    requires
        0 <= i <= j < t.len(),
        rec_unary(t, i) == Some((x, j)),
        no_binary_op(kind_at(t, j)),
        kind_at(t, j) != TokenKind::EQ,
    ensures
        rec_expr(t, i) == Some((x, j)),
{
    lemma_levels(t, i, x, j, 0, 6);
}

proof fn lemma_args_view(l: ListType)
    requires
        args_printable(l),
    ensures
        list_view(l) == cons_list("ArgList"@, "EmptyArgList"@, args_views(l)),
    decreases l,
{
    if let ListType::ArgList(c) = l {
        lemma_args_view(*c.arg_list);
        assert((seq![expr_view(c.arg)] + args_views(*c.arg_list)).drop_first() =~= args_views(
            *c.arg_list,
        ));
    }
}

/// What reading back an expression gives: a unary-level phrase standing for
/// it, which does not start with `)`.
pub open spec fn read_back(e: ExprType, t: Seq<Tok>, i: int) -> bool {
    &&& expr_toks(e).len() >= 1
    &&& kind_at(t, i) != TokenKind::RPAREN
    &&& rec_unary(t, i) == Some((expr_view(e), i + expr_toks(e).len()))
}

/// The hypotheses under which an expression reads back.
pub open spec fn readable(e: ExprType, t: Seq<Tok>, i: int) -> bool {
    &&& printable(e)
    &&& holds_at(t, i, expr_toks(e))
    &&& i + expr_toks(e).len() < t.len()
    &&& kind_at(t, i + expr_toks(e).len()) != TokenKind::LPAREN
    &&& kind_at(t, i + expr_toks(e).len()) != TokenKind::LBRACKET
}

/// The tokens of a printable expression, followed by a token that opens no
/// subscript or call, read back as a unary-level phrase standing for it.
proof fn lemma_reads_back(e: ExprType, t: Seq<Tok>, i: int)
    requires
        readable(e, t, i),
    ensures
        read_back(e, t, i),
    decreases e, 1nat,
{
    let x = expr_toks(e);
    let n = x.len() as int;
    match e {
        ExprType::UnaryExpr(u) => {
            let a = expr_toks(*u.expression);
            lemma_holds_part(t, i, x, 0, 1);
            lemma_holds_part(t, i, x, 1, n);
            assert(x.subrange(1, n) =~= a);
            assert(t[i] == x[0]);
            assert(kind_at(t, i) == unary_op(u.operator.spelling@)->0);
            assert(is_unary_op(kind_at(t, i)));
            assert(text_at(t, i) == u.operator.spelling@);
            lemma_reads_back(*u.expression, t, i + 1);
            assert(rec_unary(t, i) == Some((expr_view(e), i + n)));
            assert(kind_at(t, i) != TokenKind::RPAREN);
            assert(expr_toks(e).len() >= 1);
        },
        ExprType::BinaryExpr(_) => lemma_binary_reads_back(e, t, i),
        ExprType::AssignExpr(_) => lemma_assign_reads_back(e, t, i),
        ExprType::ArrayExpr(_) => lemma_array_reads_back(e, t, i),
        ExprType::CallExpr(_) => lemma_call_reads_back(e, t, i),
        _ => {
            lemma_holds_part(t, i, x, 0, n);
            assert(t[i] == x[0]);
            assert(n == 1);
            assert(rec_primary(t, i) == Some((expr_view(e), i + 1)));
        },
    }
}

proof fn lemma_binary_reads_back(e: ExprType, t: Seq<Tok>, i: int)
    requires
        readable(e, t, i),
        e is BinaryExpr,
    ensures
        read_back(e, t, i),
    decreases e, 0nat,
{
    let x = expr_toks(e);
    let n = x.len() as int;
    if let ExprType::BinaryExpr(b) = e {
        let la = expr_toks(*b.expression_one);
        let rb = expr_toks(*b.expression_two);
        let ln = la.len() as int;
        let rn = rb.len() as int;
        let a = i + 1 + ln;
        let c = a + 1 + rn;
        let (k, lv) = binary_op(b.operator.spelling@)->0;
        lemma_holds_part(t, i, x, 0, n);
        lemma_holds_part(t, i, x, 1, 1 + ln);
        assert(x.subrange(1, 1 + ln) =~= la);
        lemma_holds_part(t, i, x, 2 + ln, 2 + ln + rn);
        assert(x.subrange(2 + ln, 2 + ln + rn) =~= rb);
        assert(t[a] == x[1 + ln]);
        assert(t[c] == x[2 + ln + rn]);
        lemma_reads_back(*b.expression_one, t, i + 1);
        lemma_reads_back(*b.expression_two, t, a + 1);
        let lview = expr_view(*b.expression_one);
        let rview = expr_view(*b.expression_two);
        let bin = expr_view(e);
        assert(kind_at(t, a) == k);
        assert(level_op(lv, k));
        assert(forall|l: nat| l <= 5 && l != lv ==> !#[trigger] level_op(l, k));
        if lv < 5 {
            lemma_levels(t, i + 1, lview, a, lv + 1, 6);
            lemma_levels(t, a + 1, rview, c, lv + 1, 6);
        }
        assert(rec_operand(t, i + 1, lv) == Some((lview, a)));
        assert(rec_operand(t, a + 1, lv) == Some((rview, c)));
        assert(rec_level_tail(t, c, lv, bin) == Some((bin, c)));
        assert(rec_level_tail(t, a, lv, lview) == Some((bin, c)));
        assert(rec_level(t, i + 1, lv) == Some((bin, c)));
        if lv > 0 {
            lemma_levels(t, i + 1, bin, c, 0, lv);
        }
        assert(rec_expr(t, i + 1) == Some((bin, c)));
        assert(rec_primary(t, i) == Some((bin, c + 1)));
    }
}

proof fn lemma_assign_reads_back(e: ExprType, t: Seq<Tok>, i: int)
    requires
        readable(e, t, i),
        e is AssignExpr,
    ensures
        read_back(e, t, i),
    decreases e, 0nat,
{
    let x = expr_toks(e);
    let n = x.len() as int;
    if let ExprType::AssignExpr(b) = e {
        let la = expr_toks(*b.expression_one);
        let rb = expr_toks(*b.expression_two);
        let ln = la.len() as int;
        let rn = rb.len() as int;
        let a = i + 1 + ln;
        let c = a + 1 + rn;
        lemma_holds_part(t, i, x, 0, n);
        lemma_holds_part(t, i, x, 1, 1 + ln);
        assert(x.subrange(1, 1 + ln) =~= la);
        lemma_holds_part(t, i, x, 2 + ln, 2 + ln + rn);
        assert(x.subrange(2 + ln, 2 + ln + rn) =~= rb);
        assert(t[a] == x[1 + ln]);
        assert(t[c] == x[2 + ln + rn]);
        lemma_reads_back(*b.expression_one, t, i + 1);
        lemma_reads_back(*b.expression_two, t, a + 1);
        let lview = expr_view(*b.expression_one);
        let rview = expr_view(*b.expression_two);
        lemma_levels(t, i + 1, lview, a, 0, 6);
        lemma_expr_of_unary(t, a + 1, rview, c);
        assert(rec_expr(t, i + 1) == Some((expr_view(e), c)));
        assert(rec_primary(t, i) == Some((expr_view(e), c + 1)));
    }
}

proof fn lemma_array_reads_back(e: ExprType, t: Seq<Tok>, i: int)
    requires
        readable(e, t, i),
        e is ArrayExpr,
    ensures
        read_back(e, t, i),
    decreases e, 0nat,
{
    let x = expr_toks(e);
    let n = x.len() as int;
    if let ExprType::ArrayExpr(ae) = e {
        let ia = expr_toks(*ae.expr);
        let m = ia.len() as int;
        let a = i + 2 + m;
        lemma_holds_part(t, i, x, 0, n);
        lemma_holds_part(t, i, x, 2, 2 + m);
        assert(x.subrange(2, 2 + m) =~= ia);
        assert(t[a] == x[2 + m]);
        lemma_reads_back(*ae.expr, t, i + 2);
        lemma_expr_of_unary(t, i + 2, expr_view(*ae.expr), a);
        assert(rec_primary(t, i) == Some((expr_view(e), a + 1)));
    }
}

proof fn lemma_call_reads_back(e: ExprType, t: Seq<Tok>, i: int)
    requires
        readable(e, t, i),
        e is CallExpr,
    ensures
        read_back(e, t, i),
    decreases e, 0nat,
{
    let x = expr_toks(e);
    let n = x.len() as int;
    if let ExprType::CallExpr(ce) = e {
        let at = args_toks(*ce.argument_list);
        let m = at.len() as int;
        lemma_holds_part(t, i, x, 0, n);
        lemma_args_view(*ce.argument_list);
        if let ListType::ArgList(_) = *ce.argument_list {
            lemma_holds_part(t, i, x, 2, 2 + m);
            assert(x.subrange(2, 2 + m) =~= at);
            assert(t[i + 2 + m] == x[2 + m]);
            lemma_args_read_back(*ce.argument_list, t, i + 2);
            assert(rec_args(t, i + 1) == Some((list_view(*ce.argument_list), i + 2 + m + 1)));
        } else {
            assert(args_views(*ce.argument_list) =~= Seq::<Tree>::empty());
            assert(rec_args(t, i + 1) == Some((list_view(*ce.argument_list), i + 3)));
        }
        assert(rec_primary(t, i) == Some((expr_view(e), i + n)));
    }
}

/// The tokens of a non-empty argument list, closed by `)`, read back as its
/// arguments.
proof fn lemma_args_read_back(l: ListType, t: Seq<Tok>, j: int)
    requires
        args_printable(l),
        l is ArgList,
        holds_at(t, j, args_toks(l)),
        j + args_toks(l).len() < t.len(),
        kind_at(t, j + args_toks(l).len()) == TokenKind::RPAREN,
    ensures
        args_toks(l).len() >= 1,
        kind_at(t, j) != TokenKind::RPAREN,
        rec_args_tail(t, j) == Some((args_views(l), j + args_toks(l).len() + 1)),
    decreases l,
{
    if let ListType::ArgList(c) = l {
        if let ExprType::Arg(a) = c.arg {
            let x = args_toks(l);
            let ea = expr_toks(*a.expr);
            let m = ea.len() as int;
            let k = j + m;
            lemma_holds_part(t, j, x, 0, m);
            assert(x.subrange(0, m) =~= ea);
            if let ListType::EmptyArgList(_) = *c.arg_list {
                assert(x =~= ea);
                assert(kind_at(t, k) == TokenKind::RPAREN);
                lemma_reads_back(*a.expr, t, j);
                lemma_expr_of_unary(t, j, expr_view(*a.expr), k);
                assert(args_views(*c.arg_list) =~= Seq::<Tree>::empty());
                assert(seq![expr_view(c.arg)] + Seq::<Tree>::empty() =~= seq![expr_view(c.arg)]);
            } else {
                assert(args_printable(*c.arg_list));
                assert(*c.arg_list is ArgList);
                let rt = args_toks(*c.arg_list);
                lemma_holds_part(t, j, x, m, x.len() as int);
                assert(t[k] == x[m]);
                assert(kind_at(t, k) == TokenKind::COMMA);
                lemma_reads_back(*a.expr, t, j);
                lemma_expr_of_unary(t, j, expr_view(*a.expr), k);
                lemma_holds_part(t, j, x, m + 1, x.len() as int);
                assert(x.subrange(m + 1, x.len() as int) =~= rt);
                lemma_args_read_back(*c.arg_list, t, k + 1);
            }
        }
    }
}

/// The grammar reads back the tokens the unparser writes for an expression:
/// followed by a token that continues no expression (such as `;`, `)` or
/// `,`), the tokens of a printable expression parse as that expression.
pub proof fn lemma_expr_reads_back(e: ExprType, t: Seq<Tok>, i: int)
    requires
        printable(e),
        holds_at(t, i, expr_toks(e)),
        i + expr_toks(e).len() < t.len(),
        no_binary_op(kind_at(t, i + expr_toks(e).len())),
        kind_at(t, i + expr_toks(e).len()) != TokenKind::EQ,
        kind_at(t, i + expr_toks(e).len()) != TokenKind::LPAREN,
        kind_at(t, i + expr_toks(e).len()) != TokenKind::LBRACKET,
    ensures
        rec_expr(t, i) == Some((expr_view(e), i + expr_toks(e).len())),
{
    lemma_reads_back(e, t, i);
    lemma_expr_of_unary(t, i, expr_view(e), i + expr_toks(e).len());
}

} // verus!
