//! Floating-point literals, held so that they can be compared and ordered.

use vstd::prelude::*;

verus! {

/// A 64-bit floating-point number, held as its bit pattern. Two are equal
/// when their bits are, and they are ordered as their bits are.
#[derive(Debug, Clone, Copy, PartialEq, Eq, PartialOrd, Ord, Hash)]
pub struct EqF64(pub u64);

impl DeepView for EqF64 {
    type V = EqF64;

    open spec fn deep_view(&self) -> EqF64 {
        *self
    }
}

} // verus!
