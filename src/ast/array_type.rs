use vstd::prelude::*;
use crate::ast::expression::ExprType;
use crate::ast::primitive_types::AstTypes;
use crate::utils::SourcePosition;

verus! {

/// An array of a primitive element type; `expression` is the size, or an
/// `EmptyExpr` when the size is left out.
#[derive(Debug, PartialEq)]
pub struct ArrayType {
    pub source_position: SourcePosition,
    pub array_type: Box<AstTypes>,
    pub expression: ExprType,
}

impl ArrayType {
    pub fn new(source_position: SourcePosition, array_type: Box<AstTypes>, expression: ExprType) -> (r:
        Self)
        ensures
            r.source_position == source_position,
            r.array_type == array_type,
            r.expression == expression,
    {
        Self { source_position, array_type, expression }
    }
}

/// The type of a declaration: primitive, or an array of a primitive.
#[derive(Debug, PartialEq)]
pub enum AstTypeVariant {
    Primitive(AstTypes),
    Array(ArrayType),
}

} // verus!
