//! The source language: S-expression text and its grammar.

pub mod parse;
pub mod sexp;
