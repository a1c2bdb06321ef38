//! Front end for VC, a small C-like language: a scanner, a recursive-descent
//! parser building a tree of tagged nodes, and an unparser that renders the
//! tree back to source text.
pub mod utils;
pub mod token;
pub mod lexical;
pub mod scanner;
pub mod ast;
pub mod grammar;
pub mod parser;
pub mod unparser;
pub mod printer;
pub mod readback;
