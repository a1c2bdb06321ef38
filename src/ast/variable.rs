use vstd::prelude::*;
use crate::ast::ident::Ident;
use crate::ast::primitive_types::AstTypes;
use crate::utils::SourcePosition;

verus! {

/// A variable known by its type only.
#[derive(Clone, Debug, PartialEq)]
pub struct VarTyped {
    pub source_position: SourcePosition,
    pub var_type: Box<AstTypes>,
}

impl VarTyped {
    pub fn new(source_position: SourcePosition, var_type: Box<AstTypes>) -> (r: Self)
        ensures
            r.source_position == source_position,
            r.var_type == var_type,
    {
        Self { source_position, var_type }
    }
}

/// A use of a variable by name.
#[derive(Clone, Debug, PartialEq)]
pub struct VarUntyped {
    pub source_position: SourcePosition,
    pub ident: Ident,
}

impl VarUntyped {
    pub fn new(source_position: SourcePosition, ident: Ident) -> (r: Self)
        ensures
            r.source_position == source_position,
            r.ident == ident,
    {
        Self { source_position, ident }
    }
}

} // verus!
