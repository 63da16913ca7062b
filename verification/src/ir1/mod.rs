//! Stage 1: the syntax tree, and its resolution into stage 2.

pub mod hygiene;
pub mod model;
pub mod order;
pub mod scope;
pub mod to_ir2;
pub mod undeclared;
