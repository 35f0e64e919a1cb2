//! Recursive-descent front end for a small Java-like language: tokens in,
//! syntax trees out, every parser proved equal to its grammar rule.
pub mod token;
pub mod combinator;
pub mod tree;
pub mod tpe;
pub mod grammar;
pub mod id_gen;
pub mod expr;
pub mod statement;
pub mod laws;
