pub mod eqf64;
pub mod err;
pub mod sepvec;
pub mod span;
pub mod text;
pub mod util;
