//! Fixed-function state values referenced while recording.

use vstd::prelude::*;
use crate::target::Stencil;

verus! {

/// Reference values for the fixed-function blend and stencil units.
#[derive(Copy, Clone, Debug)]
pub struct RefValues {
    /// Front and back stencil reference values.
    pub stencil: (Stencil, Stencil),
    /// Constant blend color components, carried as IEEE-754 bit patterns of
    /// 32-bit floats.
    pub blend: [u32; 4],
}

} // verus!
