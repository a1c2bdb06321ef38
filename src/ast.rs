//! The abstract syntax tree: a closed family of tagged nodes, each carrying
//! the span of source it was read from.
pub mod array_type;
pub mod decl;
pub mod expression;
pub mod ident;
pub mod list;
pub mod literals;
pub mod primitive_types;
pub mod program;
pub mod statement;
pub mod variable;
pub mod invariants;
pub mod view;
