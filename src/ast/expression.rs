use vstd::prelude::*;
use crate::ast::ident::Ident;
use crate::ast::list::ListType;
use crate::ast::literals::{BooleanLiteral, FloatLiteral, IntLiteral, Operator, StringLiteral};
use crate::ast::variable::VarUntyped;
use crate::utils::SourcePosition;

verus! {

/// An expression.
#[derive(Debug, PartialEq)]
pub enum ExprType {
    Arg(Arg),
    ArrayExpr(ArrayExpr),
    ArrayInitExpr(ArrayInitExpr),
    AssignExpr(AssignExpr),
    BinaryExpr(BinaryExpr),
    BooleanExpr(BooleanExpr),
    CallExpr(CallExpr),
    EmptyExpr(EmptyExpr),
    FloatExpr(FloatExpr),
    IntExpr(IntExpr),
    StringExpr(StringExpr),
    UnaryExpr(UnaryExpr),
    VarExpr(VarExpr),
}

/// The span of an expression of any kind.
pub open spec fn expr_position(e: ExprType) -> SourcePosition {
    match e {
        ExprType::Arg(x) => x.source_position,
        ExprType::ArrayExpr(x) => x.source_position,
        ExprType::ArrayInitExpr(x) => x.source_position,
        ExprType::AssignExpr(x) => x.source_position,
        ExprType::BinaryExpr(x) => x.source_position,
        ExprType::BooleanExpr(x) => x.source_position,
        ExprType::CallExpr(x) => x.source_position,
        ExprType::EmptyExpr(x) => x.source_position,
        ExprType::FloatExpr(x) => x.source_position,
        ExprType::IntExpr(x) => x.source_position,
        ExprType::StringExpr(x) => x.source_position,
        ExprType::UnaryExpr(x) => x.source_position,
        ExprType::VarExpr(x) => x.source_position,
    }
}

impl ExprType {
    pub fn get_source_position(&self) -> (r: &SourcePosition)
        ensures
            *r == expr_position(*self),
    {
        match self {
            ExprType::Arg(x) => &x.source_position,
            ExprType::ArrayExpr(x) => &x.source_position,
            ExprType::ArrayInitExpr(x) => &x.source_position,
            ExprType::AssignExpr(x) => &x.source_position,
            ExprType::BinaryExpr(x) => &x.source_position,
            ExprType::BooleanExpr(x) => &x.source_position,
            ExprType::CallExpr(x) => &x.source_position,
            ExprType::EmptyExpr(x) => &x.source_position,
            ExprType::FloatExpr(x) => &x.source_position,
            ExprType::IntExpr(x) => &x.source_position,
            ExprType::StringExpr(x) => &x.source_position,
            ExprType::UnaryExpr(x) => &x.source_position,
            ExprType::VarExpr(x) => &x.source_position,
        }
    }
}

/// An argument of a call.
#[derive(Debug, PartialEq)]
pub struct Arg {
    pub source_position: SourcePosition,
    pub expr: Box<ExprType>,
}

impl Arg {
    pub fn new(source_position: SourcePosition, e: Box<ExprType>) -> (r: Self)
        ensures
            r.source_position == source_position,
            r.expr == e,
    {
        Self { source_position, expr: e }
    }
}

/// An element of an array: `a[i]`.
#[derive(Debug, PartialEq)]
pub struct ArrayExpr {
    pub source_position: SourcePosition,
    pub var: VarUntyped,
    pub expr: Box<ExprType>,
}

impl ArrayExpr {
    pub fn new(source_position: SourcePosition, var: VarUntyped, expr: Box<ExprType>) -> (r: Self)
        ensures
            r.source_position == source_position,
            r.var == var,
            r.expr == expr,
    {
        Self { source_position, var, expr }
    }
}

/// An assignment `e1 = e2`.
#[derive(Debug, PartialEq)]
pub struct AssignExpr {
    pub source_position: SourcePosition,
    pub expression_one: Box<ExprType>,
    pub expression_two: Box<ExprType>,
}

impl AssignExpr {
    pub fn new(source_position: SourcePosition, e1: Box<ExprType>, e2: Box<ExprType>) -> (r: Self)
        ensures
            r.source_position == source_position,
            r.expression_one == e1,
            r.expression_two == e2,
    {
        Self { source_position, expression_one: e1, expression_two: e2 }
    }
}

/// A braced list of expressions initialising an array.
#[derive(Debug, PartialEq)]
pub struct ArrayInitExpr {
    pub source_position: SourcePosition,
    pub init_list: Box<ListType>,
}

impl ArrayInitExpr {
    pub fn new(source_position: SourcePosition, init_list: Box<ListType>) -> (r: Self)
        ensures
            r.source_position == source_position,
            r.init_list == init_list,
    {
        Self { source_position, init_list }
    }
}

/// A binary operation `e1 op e2`.
#[derive(Debug, PartialEq)]
pub struct BinaryExpr {
    pub source_position: SourcePosition,
    pub expression_one: Box<ExprType>,
    pub operator: Operator,
    pub expression_two: Box<ExprType>,
}

impl BinaryExpr {
    pub fn new(source_position: SourcePosition, expression_one: Box<ExprType>, operator: Operator, expression_two: Box<ExprType>) -> (r: Self)
        ensures
            r.source_position == source_position,
            r.expression_one == expression_one,
            r.operator == operator,
            r.expression_two == expression_two,
    {
        Self { source_position, expression_one, operator, expression_two }
    }
}

/// A boolean literal used as an expression.
#[derive(Debug, PartialEq)]
pub struct BooleanExpr {
    pub source_position: SourcePosition,
    pub boolean_literal: BooleanLiteral,
}

impl BooleanExpr {
    pub fn new(source_position: SourcePosition, boolean_literal: BooleanLiteral) -> (r: Self)
        ensures
            r.source_position == source_position,
            r.boolean_literal == boolean_literal,
    {
        Self { source_position, boolean_literal }
    }
}

/// A call `f(args)`.
#[derive(Debug, PartialEq)]
pub struct CallExpr {
    pub source_position: SourcePosition,
    pub ident: Ident,
    pub argument_list: Box<ListType>,
}

impl CallExpr {
    pub fn new(source_position: SourcePosition, ident: Ident, argument_list: Box<ListType>) -> (r: Self)
        ensures
            r.source_position == source_position,
            r.ident == ident,
            r.argument_list == argument_list,
    {
        Self { source_position, ident, argument_list }
    }
}

/// An absent expression.
#[derive(Clone, Copy, Debug, PartialEq, Eq, Structural)]
pub struct EmptyExpr {
    pub source_position: SourcePosition,
}

impl EmptyExpr {
    pub fn new(source_position: SourcePosition) -> (r: Self)
        ensures
            r.source_position == source_position,
    {
        Self { source_position }
    }
}

/// A float literal used as an expression.
#[derive(Debug, PartialEq)]
pub struct FloatExpr {
    pub source_position: SourcePosition,
    pub float_literal: FloatLiteral,
}

impl FloatExpr {
    pub fn new(source_position: SourcePosition, float_literal: FloatLiteral) -> (r: Self)
        ensures
            r.source_position == source_position,
            r.float_literal == float_literal,
    {
        Self { source_position, float_literal }
    }
}

/// An integer literal used as an expression.
#[derive(Debug, PartialEq)]
pub struct IntExpr {
    pub source_position: SourcePosition,
    pub int_literal: IntLiteral,
}

impl IntExpr {
    pub fn new(source_position: SourcePosition, int_literal: IntLiteral) -> (r: Self)
        ensures
            r.source_position == source_position,
            r.int_literal == int_literal,
    {
        Self { source_position, int_literal }
    }
}

/// A string literal used as an expression.
#[derive(Debug, PartialEq)]
pub struct StringExpr {
    pub source_position: SourcePosition,
    pub string_literal: Box<StringLiteral>,
}

impl StringExpr {
    pub fn new(source_position: SourcePosition, string_literal: Box<StringLiteral>) -> (r: Self)
        ensures
            r.source_position == source_position,
            r.string_literal == string_literal,
    {
        Self { source_position, string_literal }
    }
}

/// A prefix operation `op e`.
#[derive(Debug, PartialEq)]
pub struct UnaryExpr {
    pub source_position: SourcePosition,
    pub operator: Operator,
    pub expression: Box<ExprType>,
}

impl UnaryExpr {
    pub fn new(source_position: SourcePosition, operator: Operator, expr: Box<ExprType>) -> (r: Self)
        ensures
            r.source_position == source_position,
            r.operator == operator,
            r.expression == expr,
    {
        Self { source_position, operator, expression: expr }
    }
}

/// A variable used as an expression.
#[derive(Debug, PartialEq)]
pub struct VarExpr {
    pub source_position: SourcePosition,
    pub var: VarUntyped,
}

impl VarExpr {
    pub fn new(source_position: SourcePosition, var: VarUntyped) -> (r: Self)
        ensures
            r.source_position == source_position,
            r.var == var,
    {
        Self { source_position, var }
    }
}

} // verus!
