use vstd::prelude::*;
use crate::utils::SourcePosition;

verus! {

/// A name as written in the source. `decl` will index the declaration the
/// name refers to, in a table built by a later pass; parsing leaves it empty.
#[derive(Clone, Debug, PartialEq)]
pub struct Ident {
    pub spelling: String,
    pub source_position: SourcePosition,
    pub decl: Option<usize>,
}

impl Ident {
    pub fn new(spelling: String, source_position: SourcePosition, decl: Option<usize>) -> (r: Self)
        ensures
            r.spelling@ == spelling@,
            r.source_position == source_position,
            r.decl == decl,
    {
        Self { spelling, source_position, decl }
    }

    /// The same name at the same place, with no declaration attached.
    pub fn copy_with_null_decl(&self) -> (r: Self)
        ensures
            r.spelling@ == self.spelling@,
            r.source_position == self.source_position,
            r.decl is None,
    {
        Self { spelling: self.spelling.clone(), source_position: self.source_position, decl: None }
    }
}

} // verus!
