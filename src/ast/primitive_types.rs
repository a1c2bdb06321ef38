use vstd::prelude::*;
use crate::utils::SourcePosition;

verus! {

/// The type `boolean`.
#[derive(Clone, Copy, Debug, PartialEq, Eq, Structural)]
pub struct BooleanType {
    pub source_position: SourcePosition,
}

impl BooleanType {
    pub fn new(source_position: SourcePosition) -> (r: Self)
        ensures
            r.source_position == source_position,
    {
        Self { source_position }
    }
}

/// The type given to ill-typed nodes; the parser never builds it.
#[derive(Clone, Copy, Debug, PartialEq, Eq, Structural)]
pub struct ErrorType {
    pub source_position: SourcePosition,
}

impl ErrorType {
    pub fn new(source_position: SourcePosition) -> (r: Self)
        ensures
            r.source_position == source_position,
    {
        Self { source_position }
    }
}

/// The type `float`.
#[derive(Clone, Copy, Debug, PartialEq, Eq, Structural)]
pub struct FloatType {
    pub source_position: SourcePosition,
}

impl FloatType {
    pub fn new(source_position: SourcePosition) -> (r: Self)
        ensures
            r.source_position == source_position,
    {
        Self { source_position }
    }
}

/// The type `int`.
#[derive(Clone, Copy, Debug, PartialEq, Eq, Structural)]
pub struct IntType {
    pub source_position: SourcePosition,
}

impl IntType {
    pub fn new(source_position: SourcePosition) -> (r: Self)
        ensures
            r.source_position == source_position,
    {
        Self { source_position }
    }
}

/// The type `string`.
#[derive(Clone, Copy, Debug, PartialEq, Eq, Structural)]
pub struct StringType {
    pub source_position: SourcePosition,
}

impl StringType {
    pub fn new(source_position: SourcePosition) -> (r: Self)
        ensures
            r.source_position == source_position,
    {
        Self { source_position }
    }
}

/// The type `void`.
#[derive(Clone, Copy, Debug, PartialEq, Eq, Structural)]
pub struct VoidType {
    pub source_position: SourcePosition,
}

impl VoidType {
    pub fn new(source_position: SourcePosition) -> (r: Self)
        ensures
            r.source_position == source_position,
    {
        Self { source_position }
    }
}

/// A primitive type.
#[derive(Clone, Copy, Debug, PartialEq, Eq, Structural)]
pub enum AstTypes {
    BooleanType(BooleanType),
    FloatType(FloatType),
    IntType(IntType),
    StringType(StringType),
    VoidType(VoidType),
    ErrorType(ErrorType),
}

impl AstTypes {
    /// `void`, `int`, `float` and `boolean` are the primitive types a
    /// declaration can name.
    pub fn is_primitive_type(&self) -> (r: bool)
        ensures
            r == (self is VoidType || self is IntType || self is FloatType || self is BooleanType),
    {
        match self {
            AstTypes::IntType(_) => true,
            AstTypes::FloatType(_) => true,
            AstTypes::BooleanType(_) => true,
            AstTypes::VoidType(_) => true,
            _ => false,
        }
    }
}

} // verus!
