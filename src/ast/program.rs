use vstd::prelude::*;
use crate::ast::list::ListType;

verus! {

/// The root of the tree: the program's top-level declarations.
#[derive(Debug, PartialEq)]
pub struct Program {
    pub declaration_list: ListType,
}

impl Program {
    pub fn new(declaration_list: ListType) -> (r: Self)
        ensures
            r.declaration_list == declaration_list,
    {
        Self { declaration_list }
    }
}

} // verus!
