//! The front end of a compiler for a small imperative language written as
//! S-expressions.
//!
//! Source text is parsed into a syntax tree (`hxx`, `ir1::model`), and the
//! trees of all files are resolved together into one program in which every
//! type is known, every variable has a name of its own and every call is
//! bound to one declaration (`ir1::to_ir2`, `ir2`). `ir3` holds the shapes
//! of the low-level form that later stages work on. Every error comes with
//! the place in the source that it is about (`common`).

pub mod common;
pub mod hxx;
pub mod ir1;
pub mod ir2;
pub mod ir3;
