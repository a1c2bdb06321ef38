use vstd::prelude::*;
use crate::ast::view::{Tree, cons_list, leaf, node};
use crate::token::TokenKind;

verus! {

// The grammar of VC as a parser over tokens, each given by its kind and its
// spelling. Each function says whether a phrase of its category starts at
// index `i` and, if so, the tree it stands for (without positions) and the
// index just past it. The checks `i <= j < t.len()` on intermediate results
// always hold; they make termination evident.

/// A token as the grammar sees it: its kind and its spelling.
pub type Tok = (TokenKind, Seq<char>);

/// The kind at index `i`, or `EOF` past the end.
pub open spec fn kind_at(t: Seq<Tok>, i: int) -> TokenKind {
    if 0 <= i < t.len() {
        t[i].0
    } else {
        TokenKind::EOF
    }
}

/// The spelling at index `i`.
pub open spec fn text_at(t: Seq<Tok>, i: int) -> Seq<char> {
    if 0 <= i < t.len() {
        t[i].1
    } else {
        Seq::empty()
    }
}

pub open spec fn is_unary_op(k: TokenKind) -> bool {
    k == TokenKind::PLUS || k == TokenKind::MINUS || k == TokenKind::NOT
}

/// The operators of each level of binary operators, loosest first.
pub open spec fn level_op(level: nat, k: TokenKind) -> bool {
    if level == 0 {
        k == TokenKind::OROR
    } else if level == 1 {
        k == TokenKind::ANDAND
    } else if level == 2 {
        k == TokenKind::EQEQ || k == TokenKind::NOTEQ
    } else if level == 3 {
        k == TokenKind::LT || k == TokenKind::LTEQ || k == TokenKind::GT || k == TokenKind::GTEQ
    } else if level == 4 {
        k == TokenKind::PLUS || k == TokenKind::MINUS
    } else {
        k == TokenKind::MULT || k == TokenKind::DIV
    }
}

pub open spec fn empty_expr() -> Tree {
    node("EmptyExpr"@, Seq::empty())
}

/// expr -> cond-or-expr ( "=" expr )?
pub open spec fn rec_expr(t: Seq<Tok>, i: int) -> Option<(Tree, int)>
    decreases t.len() - i, 30nat,
{
    if i < 0 || i >= t.len() {
        None
    } else {
        match rec_level(t, i, 0) {
            Some((l, j)) => if i <= j < t.len() && kind_at(t, j) == TokenKind::EQ {
                if j + 1 < t.len() {
                    match rec_expr(t, j + 1) {
                        Some((r, k)) => Some((node("AssignExpr"@, seq![l, r]), k)),
                        None => None,
                    }
                } else {
                    None
                }
            } else {
                Some((l, j))
            },
            None => None,
        }
    }
}

/// An operand of binary level `level`: the next level, or a unary
/// expression below the last.
pub open spec fn rec_operand(t: Seq<Tok>, i: int, level: nat) -> Option<(Tree, int)>
    decreases t.len() - i, 20nat - 2 * level,
{
    if level == 5 {
        rec_unary(t, i)
    } else if level < 5 {
        rec_level(t, i, level + 1)
    } else {
        None
    }
}

/// Level `level`: operands joined by the operators of that level, grouping
/// to the left.
pub open spec fn rec_level(t: Seq<Tok>, i: int, level: nat) -> Option<(Tree, int)>
    decreases t.len() - i, 21nat - 2 * level,
{
    if level > 5 {
        None
    } else {
        match rec_operand(t, i, level) {
            Some((l, j)) => if i <= j < t.len() {
                rec_level_tail(t, j, level, l)
            } else {
                None
            },
            None => None,
        }
    }
}

/// The rest of level `level` after the operands up to `j`, which make `acc`.
pub open spec fn rec_level_tail(t: Seq<Tok>, j: int, level: nat, acc: Tree) -> Option<(Tree, int)>
    decreases t.len() - j, 20nat - 2 * level,
{
    if j < 0 || j >= t.len() || level > 5 {
        None
    } else if level_op(level, kind_at(t, j)) {
        if j + 1 < t.len() {
            match rec_operand(t, j + 1, level) {
                Some((r, k)) => if j < k < t.len() {
                    rec_level_tail(
                        t,
                        k,
                        level,
                        node("BinaryExpr"@, seq![acc, leaf("Operator"@, text_at(t, j)), r]),
                    )
                } else {
                    None
                },
                None => None,
            }
        } else {
            None
        }
    } else {
        Some((acc, j))
    }
}

/// unary-expr -> ( "+" | "-" | "!" ) unary-expr | primary-expr
pub open spec fn rec_unary(t: Seq<Tok>, i: int) -> Option<(Tree, int)>
    decreases t.len() - i, 8nat,
{
    if i < 0 || i >= t.len() {
        None
    } else if is_unary_op(kind_at(t, i)) {
        if i + 1 < t.len() {
            match rec_unary(t, i + 1) {
                Some((e, j)) => Some((node("UnaryExpr"@, seq![leaf("Operator"@, text_at(t, i)), e]), j)),
                None => None,
            }
        } else {
            None
        }
    } else {
        rec_primary(t, i)
    }
}

/// primary-expr -> identifier ( "[" expr "]" | arg-list )? | "(" expr ")" | literal
pub open spec fn rec_primary(t: Seq<Tok>, i: int) -> Option<(Tree, int)>
    decreases t.len() - i, 6nat,
{
    let k = kind_at(t, i);
    if i < 0 || i + 1 >= t.len() {
        None
    } else if k == TokenKind::ID {
        let name = leaf("Ident"@, text_at(t, i));
        if kind_at(t, i + 1) == TokenKind::LBRACKET {
            if i + 2 < t.len() {
                match rec_expr(t, i + 2) {
                    Some((e, j)) => if kind_at(t, j) == TokenKind::RBRACKET {
                        Some((node("ArrayExpr"@, seq![name, e]), j + 1))
                    } else {
                        None
                    },
                    None => None,
                }
            } else {
                None
            }
        } else if kind_at(t, i + 1) == TokenKind::LPAREN {
            match rec_args(t, i + 1) {
                Some((a, j)) => Some((node("CallExpr"@, seq![name, a]), j)),
                None => None,
            }
        } else {
            Some((node("VarExpr"@, seq![name]), i + 1))
        }
    } else if k == TokenKind::LPAREN {
        match rec_expr(t, i + 1) {
            Some((e, j)) => if kind_at(t, j) == TokenKind::RPAREN {
                Some((e, j + 1))
            } else {
                None
            },
            None => None,
        }
    } else if k == TokenKind::INTLITERAL {
        Some((leaf("IntExpr"@, text_at(t, i)), i + 1))
    } else if k == TokenKind::FLOATLITERAL {
        Some((leaf("FloatExpr"@, text_at(t, i)), i + 1))
    } else if k == TokenKind::BOOLEANLITERAL {
        Some((leaf("BooleanExpr"@, text_at(t, i)), i + 1))
    } else if k == TokenKind::STRINGLITERAL {
        Some((leaf("StringExpr"@, text_at(t, i)), i + 1))
    } else {
        None
    }
}

/// arg-list -> "(" ( expr ( "," expr )* )? ")", from the `(` at `i`.
pub open spec fn rec_args(t: Seq<Tok>, i: int) -> Option<(Tree, int)>
    decreases t.len() - i, 32nat,
{
    if i < 0 || i + 1 >= t.len() || kind_at(t, i) != TokenKind::LPAREN {
        None
    } else if kind_at(t, i + 1) == TokenKind::RPAREN {
        Some((cons_list("ArgList"@, "EmptyArgList"@, Seq::empty()), i + 2))
    } else {
        match rec_args_tail(t, i + 1) {
            Some((es, j)) => Some((cons_list("ArgList"@, "EmptyArgList"@, es), j)),
            None => None,
        }
    }
}

/// The arguments from `j` on, up to and including the `)`.
pub open spec fn rec_args_tail(t: Seq<Tok>, j: int) -> Option<(Seq<Tree>, int)>
    decreases t.len() - j, 32nat,
{
    if j < 0 || j >= t.len() {
        None
    } else {
        match rec_expr(t, j) {
            Some((e, k)) => {
                let a = node("Arg"@, seq![e]);
                if j < k < t.len() && kind_at(t, k) == TokenKind::COMMA {
                    if k + 1 < t.len() {
                        match rec_args_tail(t, k + 1) {
                            Some((rest, m)) => Some((seq![a] + rest, m)),
                            None => None,
                        }
                    } else {
                        None
                    }
                } else if kind_at(t, k) == TokenKind::RPAREN {
                    Some((seq![a], k + 1))
                } else {
                    None
                }
            },
            None => None,
        }
    }
}

/// An expression, or nothing when the kind at `i` is `stop`.
pub open spec fn rec_opt_expr(t: Seq<Tok>, i: int, stop: TokenKind) -> Option<(Tree, int)>
    decreases t.len() - i, 34nat,
{
    if kind_at(t, i) == stop {
        Some((empty_expr(), i))
    } else {
        rec_expr(t, i)
    }
}

/// compound-stmt -> "{" var-decl* stmt* "}"
pub open spec fn rec_compound(t: Seq<Tok>, i: int) -> Option<(Tree, int)>
    decreases t.len() - i, 50nat,
{
    if i < 0 || i + 1 >= t.len() || kind_at(t, i) != TokenKind::LBRACE {
        None
    } else {
        match rec_decl_list(t, i + 1, false) {
            Some((ds, j)) => if i < j < t.len() {
                match rec_stmt_list(t, j) {
                    Some((ss, k)) => if kind_at(t, k) == TokenKind::RBRACE {
                        Some(
                            (
                                node(
                                    "CompoundStmt"@,
                                    seq![
                                        cons_list("DeclList"@, "EmptyDeclList"@, ds),
                                        cons_list("StmtList"@, "EmptyStmtList"@, ss),
                                    ],
                                ),
                                k + 1,
                            ),
                        )
                    } else {
                        None
                    },
                    None => None,
                }
            } else {
                None
            },
            None => None,
        }
    }
}

/// Statements up to (not including) a `}`.
pub open spec fn rec_stmt_list(t: Seq<Tok>, i: int) -> Option<(Seq<Tree>, int)>
    decreases t.len() - i, 54nat,
{
    if i < 0 || i >= t.len() {
        None
    } else if kind_at(t, i) == TokenKind::RBRACE {
        Some((Seq::empty(), i))
    } else {
        match rec_single(t, i) {
            Some((s, j)) => if i < j < t.len() {
                match rec_stmt_list(t, j) {
                    Some((rest, k)) => Some((seq![s] + rest, k)),
                    None => None,
                }
            } else {
                None
            },
            None => None,
        }
    }
}

/// stmt -> compound-stmt | if-stmt | for-stmt | while-stmt | break-stmt
///       | continue-stmt | return-stmt | expr-stmt
pub open spec fn rec_single(t: Seq<Tok>, i: int) -> Option<(Tree, int)>
    decreases t.len() - i, 52nat,
{
    let k = kind_at(t, i);
    if k == TokenKind::LBRACE {
        rec_compound(t, i)
    } else if k == TokenKind::IF {
        rec_if(t, i)
    } else if k == TokenKind::FOR {
        rec_for(t, i)
    } else if k == TokenKind::WHILE {
        rec_while(t, i)
    } else if k == TokenKind::BREAK {
        if kind_at(t, i + 1) == TokenKind::SEMICOLON {
            Some((node("BreakStmt"@, Seq::empty()), i + 2))
        } else {
            None
        }
    } else if k == TokenKind::CONTINUE {
        if kind_at(t, i + 1) == TokenKind::SEMICOLON {
            Some((node("ContinueStmt"@, Seq::empty()), i + 2))
        } else {
            None
        }
    } else if k == TokenKind::RETURN {
        match rec_opt_expr(t, i + 1, TokenKind::SEMICOLON) {
            Some((e, j)) => if kind_at(t, j) == TokenKind::SEMICOLON {
                Some((node("ReturnStmt"@, seq![e]), j + 1))
            } else {
                None
            },
            None => None,
        }
    } else {
        match rec_opt_expr(t, i, TokenKind::SEMICOLON) {
            Some((e, j)) => if kind_at(t, j) == TokenKind::SEMICOLON {
                Some((node("ExprStmt"@, seq![e]), j + 1))
            } else {
                None
            },
            None => None,
        }
    }
}

/// if-stmt -> "if" "(" expr ")" stmt ( "else" stmt )?
pub open spec fn rec_if(t: Seq<Tok>, i: int) -> Option<(Tree, int)>
    decreases t.len() - i, 51nat,
{
    if i < 0 || i + 2 >= t.len() || kind_at(t, i) != TokenKind::IF || kind_at(t, i + 1)
        != TokenKind::LPAREN {
        None
    } else {
        match rec_expr(t, i + 2) {
            Some((c, j)) => if i + 2 <= j && j + 1 < t.len() && kind_at(t, j) == TokenKind::RPAREN {
                match rec_single(t, j + 1) {
                    Some((s1, k)) => if j < k && k + 1 < t.len() && kind_at(t, k) == TokenKind::ELSE {
                        match rec_single(t, k + 1) {
                            Some((s2, m)) => Some((node("IfStmt"@, seq![c, s1, s2]), m)),
                            None => None,
                        }
                    } else {
                        Some((node("IfStmt"@, seq![c, s1, node("EmptyStmt"@, Seq::empty())]), k))
                    },
                    None => None,
                }
            } else {
                None
            },
            None => None,
        }
    }
}

/// for-stmt -> "for" "(" expr? ";" expr? ";" expr? ")" stmt
pub open spec fn rec_for(t: Seq<Tok>, i: int) -> Option<(Tree, int)>
    decreases t.len() - i, 51nat,
{
    if i < 0 || i + 2 >= t.len() || kind_at(t, i) != TokenKind::FOR || kind_at(t, i + 1)
        != TokenKind::LPAREN {
        None
    } else {
        match rec_opt_expr(t, i + 2, TokenKind::SEMICOLON) {
            Some((e1, j)) => if i + 2 <= j && j + 1 < t.len() && kind_at(t, j) == TokenKind::SEMICOLON {
                match rec_opt_expr(t, j + 1, TokenKind::SEMICOLON) {
                    Some((e2, k)) => if j < k && k + 1 < t.len() && kind_at(t, k)
                        == TokenKind::SEMICOLON {
                        match rec_opt_expr(t, k + 1, TokenKind::RPAREN) {
                            Some((e3, m)) => if k < m && m + 1 < t.len() && kind_at(t, m)
                                == TokenKind::RPAREN {
                                match rec_single(t, m + 1) {
                                    Some((s, n)) => Some((node("ForStmt"@, seq![e1, e2, e3, s]), n)),
                                    None => None,
                                }
                            } else {
                                None
                            },
                            None => None,
                        }
                    } else {
                        None
                    },
                    None => None,
                }
            } else {
                None
            },
            None => None,
        }
    }
}

/// while-stmt -> "while" "(" expr ")" stmt
pub open spec fn rec_while(t: Seq<Tok>, i: int) -> Option<(Tree, int)>
    decreases t.len() - i, 51nat,
{
    if i < 0 || i + 2 >= t.len() || kind_at(t, i) != TokenKind::WHILE || kind_at(t, i + 1)
        != TokenKind::LPAREN {
        None
    } else {
        match rec_expr(t, i + 2) {
            Some((c, j)) => if i + 2 <= j && j + 1 < t.len() && kind_at(t, j) == TokenKind::RPAREN {
                match rec_single(t, j + 1) {
                    Some((s, k)) => Some((node("WhileStmt"@, seq![c, s]), k)),
                    None => None,
                }
            } else {
                None
            },
            None => None,
        }
    }
}

pub open spec fn is_type_kind(k: TokenKind) -> bool {
    k == TokenKind::VOID || k == TokenKind::INT || k == TokenKind::FLOAT || k == TokenKind::BOOLEAN
}

/// The tree of the primitive type named by kind `k`.
pub open spec fn type_of_kind(k: TokenKind) -> Tree {
    node(
        if k == TokenKind::VOID {
            "VoidType"@
        } else if k == TokenKind::INT {
            "IntType"@
        } else if k == TokenKind::FLOAT {
            "FloatType"@
        } else {
            "BooleanType"@
        },
        Seq::empty(),
    )
}

/// declarator suffix -> ( "[" INTLITERAL? "]" )?, turning `ty` into an array type.
pub open spec fn rec_declarator(t: Seq<Tok>, i: int, ty: Tree) -> Option<(Tree, int)> {
    if kind_at(t, i) == TokenKind::LBRACKET {
        let has_size = kind_at(t, i + 1) == TokenKind::INTLITERAL;
        let j = if has_size {
            i + 2
        } else {
            i + 1
        };
        let size = if has_size {
            leaf("IntExpr"@, text_at(t, i + 1))
        } else {
            empty_expr()
        };
        if kind_at(t, j) == TokenKind::RBRACKET {
            Some((node("ArrayType"@, seq![ty, size]), j + 1))
        } else {
            None
        }
    } else {
        Some((ty, i))
    }
}

/// initialiser -> expr | "{" expr ( "," expr )* "}"
pub open spec fn rec_initialiser(t: Seq<Tok>, i: int) -> Option<(Tree, int)>
    decreases t.len() - i, 35nat,
{
    if kind_at(t, i) != TokenKind::LBRACE {
        rec_expr(t, i)
    } else if i >= 0 && i + 1 < t.len() {
        match rec_init_tail(t, i + 1) {
            Some((es, j)) => Some(
                (
                    node(
                        "ArrayInitExpr"@,
                        seq![cons_list("ArrayExprList"@, "EmptyArrayExprList"@, es)],
                    ),
                    j,
                ),
            ),
            None => None,
        }
    } else {
        None
    }
}

/// The elements of a braced initialiser from `j` on, up to and including the `}`.
pub open spec fn rec_init_tail(t: Seq<Tok>, j: int) -> Option<(Seq<Tree>, int)>
    decreases t.len() - j, 36nat,
{
    match rec_expr(t, j) {
        Some((e, k)) => if j < k && k + 1 < t.len() && kind_at(t, k) == TokenKind::COMMA {
            match rec_init_tail(t, k + 1) {
                Some((rest, m)) => Some((seq![e] + rest, m)),
                None => None,
            }
        } else if kind_at(t, k) == TokenKind::RBRACE {
            Some((seq![e], k + 1))
        } else {
            None
        },
        None => None,
    }
}

/// The label of a variable declaration at the top level or in a block.
pub open spec fn var_label(global: bool) -> Seq<char> {
    if global {
        "GlobalVarDecl"@
    } else {
        "LocalVarDecl"@
    }
}

/// init-declarator -> declarator ( "=" initialiser )?, after the name `name`.
pub open spec fn rec_init_declarator(t: Seq<Tok>, i: int, ty: Tree, name: Tree, global: bool) -> Option<
    (Tree, int),
>
    decreases t.len() - i, 37nat,
{
    match rec_declarator(t, i, ty) {
        Some((vt, j)) => if i <= j && j + 1 < t.len() && kind_at(t, j) == TokenKind::EQ {
            match rec_initialiser(t, j + 1) {
                Some((e, k)) => Some((node(var_label(global), seq![vt, name, e]), k)),
                None => None,
            }
        } else {
            Some((node(var_label(global), seq![vt, name, empty_expr()]), j))
        },
        None => None,
    }
}

/// The variables of a declaration after its first name: each declarator,
/// then `, name declarator` pairs, then `;`.
pub open spec fn rec_var_list(t: Seq<Tok>, i: int, ty: Tree, name: Tree, global: bool) -> Option<
    (Seq<Tree>, int),
>
    decreases t.len() - i, 39nat,
{
    match rec_init_declarator(t, i, ty, name, global) {
        Some((d, j)) => if i <= j < t.len() {
            match rec_var_tail(t, j, ty, global) {
                Some((rest, k)) => Some((seq![d] + rest, k)),
                None => None,
            }
        } else {
            None
        },
        None => None,
    }
}

pub open spec fn rec_var_tail(t: Seq<Tok>, j: int, ty: Tree, global: bool) -> Option<(Seq<Tree>, int)>
    decreases t.len() - j, 38nat,
{
    if j < 0 || j >= t.len() {
        None
    } else if kind_at(t, j) == TokenKind::COMMA {
        if kind_at(t, j + 1) == TokenKind::ID && j + 2 < t.len() {
            match rec_init_declarator(t, j + 2, ty, leaf("Ident"@, text_at(t, j + 1)), global) {
                Some((d, k)) => if j + 2 <= k < t.len() {
                    match rec_var_tail(t, k, ty, global) {
                        Some((rest, m)) => Some((seq![d] + rest, m)),
                        None => None,
                    }
                } else {
                    None
                },
                None => None,
            }
        } else {
            None
        }
    } else if kind_at(t, j) == TokenKind::SEMICOLON {
        Some((Seq::empty(), j + 1))
    } else {
        None
    }
}

/// para-decl -> type identifier ( "[" "]" )?
pub open spec fn rec_param_decl(t: Seq<Tok>, i: int) -> Option<(Tree, int)> {
    if is_type_kind(kind_at(t, i)) && kind_at(t, i + 1) == TokenKind::ID {
        let ty = type_of_kind(kind_at(t, i));
        let name = leaf("Ident"@, text_at(t, i + 1));
        if kind_at(t, i + 2) == TokenKind::LBRACKET {
            if kind_at(t, i + 3) == TokenKind::RBRACKET {
                Some((node("ParaDecl"@, seq![node("ArrayType"@, seq![ty, empty_expr()]), name]), i + 4))
            } else {
                None
            }
        } else {
            Some((node("ParaDecl"@, seq![ty, name]), i + 2))
        }
    } else {
        None
    }
}

/// para-list -> "(" ( para-decl ( "," para-decl )* )? ")"
pub open spec fn rec_params(t: Seq<Tok>, i: int) -> Option<(Tree, int)> {
    if kind_at(t, i) != TokenKind::LPAREN {
        None
    } else if kind_at(t, i + 1) == TokenKind::RPAREN {
        Some((cons_list("ParamList"@, "EmptyParamList"@, Seq::empty()), i + 2))
    } else {
        match rec_params_tail(t, i + 1) {
            Some((ps, j)) => Some((cons_list("ParamList"@, "EmptyParamList"@, ps), j)),
            None => None,
        }
    }
}

pub open spec fn rec_params_tail(t: Seq<Tok>, j: int) -> Option<(Seq<Tree>, int)>
    decreases t.len() - j,
{
    match rec_param_decl(t, j) {
        Some((p, k)) => if j < k && k + 1 < t.len() && kind_at(t, k) == TokenKind::COMMA {
            match rec_params_tail(t, k + 1) {
                Some((rest, m)) => Some((seq![p] + rest, m)),
                None => None,
            }
        } else if kind_at(t, k) == TokenKind::RPAREN {
            Some((seq![p], k + 1))
        } else {
            None
        },
        None => None,
    }
}

/// func-decl -> para-list compound-stmt, after the type `ty` and the name `name`.
pub open spec fn rec_func(t: Seq<Tok>, i: int, ty: Tree, name: Tree) -> Option<(Tree, int)>
    decreases t.len() - i, 56nat,
{
    match rec_params(t, i) {
        Some((ps, j)) => if i < j < t.len() {
            match rec_compound(t, j) {
                Some((body, k)) => Some((node("FuncDecl"@, seq![ty, name, ps, body]), k)),
                None => None,
            }
        } else {
            None
        },
        None => None,
    }
}

/// A declaration: a type and a name, then a function (at the top level,
/// when `(` follows) or variables.
pub open spec fn rec_declaration(t: Seq<Tok>, i: int, global: bool) -> Option<(Seq<Tree>, int)>
    decreases t.len() - i, 58nat,
{
    if i >= 0 && i + 2 < t.len() && is_type_kind(kind_at(t, i)) && kind_at(t, i + 1) == TokenKind::ID {
        let ty = type_of_kind(kind_at(t, i));
        let name = leaf("Ident"@, text_at(t, i + 1));
        if global && kind_at(t, i + 2) == TokenKind::LPAREN {
            match rec_func(t, i + 2, ty, name) {
                Some((f, j)) => Some((seq![f], j)),
                None => None,
            }
        } else {
            rec_var_list(t, i + 2, ty, name, global)
        }
    } else {
        None
    }
}

/// Declarations, as many as begin with a type.
pub open spec fn rec_decl_list(t: Seq<Tok>, i: int, global: bool) -> Option<(Seq<Tree>, int)>
    decreases t.len() - i, 60nat,
{
    if i < 0 || i >= t.len() {
        None
    } else if is_type_kind(kind_at(t, i)) {
        match rec_declaration(t, i, global) {
            Some((ds, j)) => if i < j < t.len() {
                match rec_decl_list(t, j, global) {
                    Some((rest, k)) => Some((ds + rest, k)),
                    None => None,
                }
            } else {
                None
            },
            None => None,
        }
    } else {
        Some((Seq::empty(), i))
    }
}

/// A whole program from `i`: top-level declarations, then the end of input.
pub open spec fn rec_program(t: Seq<Tok>, i: int) -> Option<Tree> {
    match rec_decl_list(t, i, true) {
        Some((ds, j)) => if kind_at(t, j) == TokenKind::EOF {
            Some(cons_list("DeclList"@, "EmptyDeclList"@, ds))
        } else {
            None
        },
        None => None,
    }
}

/// The label of a tree's root.
pub open spec fn label_of(x: Tree) -> Seq<char> {
    match x {
        Tree::Node { label, .. } => label,
    }
}

proof fn lemma_var_tail_labels(t: Seq<Tok>, j: int, ty: Tree, global: bool)
    ensures
        rec_var_tail(t, j, ty, global) matches Some((ds, m)) ==> forall|n: int|
            0 <= n < ds.len() ==> label_of(#[trigger] ds[n]) == var_label(global),
    decreases t.len() - j,
{
    if 0 <= j < t.len() && kind_at(t, j) == TokenKind::COMMA && kind_at(t, j + 1) == TokenKind::ID && j
        + 2 < t.len() {
        if let Some((d, k)) = rec_init_declarator(t, j + 2, ty, leaf("Ident"@, text_at(t, j + 1)), global) {
            if j + 2 <= k < t.len() {
                lemma_var_tail_labels(t, k, ty, global);
                if let Some((rest, m)) = rec_var_tail(t, k, ty, global) {
                    let ds = seq![d] + rest;
                    assert forall|n: int| 0 <= n < ds.len() implies label_of(#[trigger] ds[n]) == var_label(
                        global,
                    ) by {
                        if n > 0 {
                            assert(ds[n] == rest[n - 1]);
                        }
                    }
                }
            }
        }
    }
}

/// A function and a variable declaration begin alike, with a type and a
/// name; at the top level the token after the name decides. With `(` the
/// declaration is one function; otherwise it is one or more global
/// variables, one per declarator.
pub proof fn lemma_function_or_variable(t: Seq<Tok>, i: int)
    requires
        0 <= i,
        i + 2 < t.len(),
        is_type_kind(kind_at(t, i)),
        kind_at(t, i + 1) == TokenKind::ID,
    ensures
        rec_declaration(t, i, true) matches Some((ds, j)) ==> {
            &&& ds.len() >= 1
            &&& kind_at(t, i + 2) == TokenKind::LPAREN ==> ds.len() == 1 && label_of(ds[0]) == "FuncDecl"@
            &&& kind_at(t, i + 2) != TokenKind::LPAREN ==> forall|n: int|
                0 <= n < ds.len() ==> label_of(#[trigger] ds[n]) == "GlobalVarDecl"@
        },
{
    let ty = type_of_kind(kind_at(t, i));
    let name = leaf("Ident"@, text_at(t, i + 1));
    if kind_at(t, i + 2) != TokenKind::LPAREN {
        if let Some((d, j)) = rec_init_declarator(t, i + 2, ty, name, true) {
            if i + 2 <= j < t.len() {
                lemma_var_tail_labels(t, j, ty, true);
                if let Some((rest, m)) = rec_var_tail(t, j, ty, true) {
                    let ds = seq![d] + rest;
                    assert forall|n: int| 0 <= n < ds.len() implies label_of(#[trigger] ds[n])
                        == "GlobalVarDecl"@ by {
                        if n > 0 {
                            assert(ds[n] == rest[n - 1]);
                        }
                    }
                }
            }
        }
    }
}

/// Binary operators of one level group to the left: operands `x`, `y`, `z`
/// of level `level`, joined by two of its operators and followed by a token
/// that is not one, make `((x op1 y) op2 z)`.
pub proof fn lemma_left_associative(
    t: Seq<Tok>,
    level: nat,
    i: int,
    x: Tree,
    j: int,
    y: Tree,
    k: int,
    z: Tree,
    m: int,
)
    requires
        level <= 5,
        0 <= i <= j,
        j < k < m < t.len(),
        rec_operand(t, i, level) == Some((x, j)),
        level_op(level, kind_at(t, j)),
        rec_operand(t, j + 1, level) == Some((y, k)),
        level_op(level, kind_at(t, k)),
        rec_operand(t, k + 1, level) == Some((z, m)),
        !level_op(level, kind_at(t, m)),
    ensures
        rec_level(t, i, level) == Some(
            (
                node(
                    "BinaryExpr"@,
                    seq![
                        node("BinaryExpr"@, seq![x, leaf("Operator"@, text_at(t, j)), y]),
                        leaf("Operator"@, text_at(t, k)),
                        z,
                    ],
                ),
                m,
            ),
        ),
{
    let xy = node("BinaryExpr"@, seq![x, leaf("Operator"@, text_at(t, j)), y]);
    let xyz = node("BinaryExpr"@, seq![xy, leaf("Operator"@, text_at(t, k)), z]);
    assert(rec_level_tail(t, m, level, xyz) == Some((xyz, m)));
    assert(rec_level_tail(t, k, level, xy) == rec_level_tail(t, m, level, xyz));
    assert(rec_level_tail(t, j, level, x) == rec_level_tail(t, k, level, xy));
}

/// Assignment groups to the right: `a = b = c`, with `a`, `b` and `c`
/// phrases of the loosest binary level and no `=` after `c`, makes
/// `(a = (b = c))`.
pub proof fn lemma_assignment_right_associative(
    t: Seq<Tok>,
    i: int,
    a: Tree,
    j: int,
    b: Tree,
    k: int,
    c: Tree,
    m: int,
)
    requires
        0 <= i <= j,
        j < k < m < t.len(),
        rec_level(t, i, 0) == Some((a, j)),
        kind_at(t, j) == TokenKind::EQ,
        rec_level(t, j + 1, 0) == Some((b, k)),
        kind_at(t, k) == TokenKind::EQ,
        rec_level(t, k + 1, 0) == Some((c, m)),
        kind_at(t, m) != TokenKind::EQ,
    ensures
        rec_expr(t, i) == Some((node("AssignExpr"@, seq![a, node("AssignExpr"@, seq![b, c])]), m)),
{
    assert(rec_expr(t, k + 1) == Some((c, m)));
    assert(rec_expr(t, j + 1) == Some((node("AssignExpr"@, seq![b, c]), m)));
}

/// Tighter operators bind first: the right operand of an operator of level
/// `level` is a whole phrase of the next level, operators of that level
/// included, so `x + y * z` makes `(x + (y * z))`.
pub proof fn lemma_tighter_binds_first(t: Seq<Tok>, level: nat, i: int, x: Tree, j: int, y: Tree, m: int)
    requires
        level < 5,
        0 <= i <= j,
        j < m < t.len(),
        rec_operand(t, i, level) == Some((x, j)),
        level_op(level, kind_at(t, j)),
        rec_level(t, j + 1, level + 1) == Some((y, m)),
        !level_op(level, kind_at(t, m)),
    ensures
        rec_level(t, i, level) == Some(
            (node("BinaryExpr"@, seq![x, leaf("Operator"@, text_at(t, j)), y]), m),
        ),
{
    let xy = node("BinaryExpr"@, seq![x, leaf("Operator"@, text_at(t, j)), y]);
    assert(rec_operand(t, j + 1, level) == rec_level(t, j + 1, level + 1));
    assert(rec_level_tail(t, m, level, xy) == Some((xy, m)));
    assert(rec_level_tail(t, j, level, x) == rec_level_tail(t, m, level, xy));
}

} // verus!
