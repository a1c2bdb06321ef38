use vstd::prelude::*;
use crate::utils::SourcePosition;

verus! {

/// An operator, by its spelling.
#[derive(Clone, Debug, PartialEq)]
pub struct Operator {
    pub source_position: SourcePosition,
    pub spelling: String,
}

impl Operator {
    pub fn new(source_position: SourcePosition, spelling: String) -> (r: Self)
        ensures
            r.source_position == source_position,
            r.spelling@ == spelling@,
    {
        Self { source_position, spelling }
    }
}

/// A terminal symbol, by its spelling.
#[derive(Clone, Debug, PartialEq)]
pub struct Terminal {
    pub source_position: SourcePosition,
    pub spelling: String,
}

impl Terminal {
    pub fn new(source_position: SourcePosition, spelling: String) -> (r: Self)
        ensures
            r.source_position == source_position,
            r.spelling@ == spelling@,
    {
        Self { source_position, spelling }
    }
}

/// An integer literal, as spelled in the source.
#[derive(Clone, Debug, PartialEq)]
pub struct IntLiteral {
    pub source_position: SourcePosition,
    pub spelling: String,
}

impl IntLiteral {
    pub fn new(source_position: SourcePosition, spelling: String) -> (r: Self)
        ensures
            r.source_position == source_position,
            r.spelling@ == spelling@,
    {
        Self { source_position, spelling }
    }
}

/// A float literal, as spelled in the source.
#[derive(Clone, Debug, PartialEq)]
pub struct FloatLiteral {
    pub source_position: SourcePosition,
    pub spelling: String,
}

impl FloatLiteral {
    pub fn new(source_position: SourcePosition, spelling: String) -> (r: Self)
        ensures
            r.source_position == source_position,
            r.spelling@ == spelling@,
    {
        Self { source_position, spelling }
    }
}

/// `true` or `false`.
#[derive(Clone, Debug, PartialEq)]
pub struct BooleanLiteral {
    pub source_position: SourcePosition,
    pub spelling: String,
}

impl BooleanLiteral {
    pub fn new(source_position: SourcePosition, spelling: String) -> (r: Self)
        ensures
            r.source_position == source_position,
            r.spelling@ == spelling@,
    {
        Self { source_position, spelling }
    }
}

/// A string literal without its quotes, escapes kept as written.
#[derive(Clone, Debug, PartialEq)]
pub struct StringLiteral {
    pub source_position: SourcePosition,
    pub spelling: String,
}

impl StringLiteral {
    pub fn new(source_position: SourcePosition, spelling: String) -> (r: Self)
        ensures
            r.source_position == source_position,
            r.spelling@ == spelling@,
    {
        Self { source_position, spelling }
    }
}

} // verus!
