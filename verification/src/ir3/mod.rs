//! Stage 3: the shapes of the low-level form.

pub mod model;
