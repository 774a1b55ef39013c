//! Front end of a small declarative contract-specification language: a
//! sort-directed recursive descent that turns a tagged parse tree into a
//! fully typed abstract syntax tree.
//!
//! The parse tree itself comes from an external grammar-matching engine;
//! this library consumes it as a plain [`node::Node`] value and produces
//! the typed [`ast::Contract`] tree, propagating declared signatures into
//! the parameters and return variables of every case.

pub mod ast;
pub mod laws;
pub mod model;
pub mod node;
pub mod translate;
