//! Stage 2: the resolved tree and the rules by which calls pick their
//! declaration.

pub mod builtins;
pub mod mangle;
pub mod model;
pub mod type_resolve;
