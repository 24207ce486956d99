//! Memory-mapped register stores, computed by the verified code and carried
//! out by the platform layer.
use vstd::prelude::*;

verus! {

/// A 32-bit store of `value` to the device register at `addr`.
#[derive(PartialEq, Eq, Structural, Debug, Clone, Copy)]
pub struct RegWrite {
    pub addr: usize,
    pub value: u32,
}

/// Whether bit `i` of `x` is set.
pub open spec fn bit_of(x: usize, i: usize) -> bool {
    (x >> i) & 1usize == 1usize
}

/// Whether bit `i` of the 32-bit `x` is set.
pub open spec fn bit32_of(x: u32, i: u32) -> bool {
    (x >> i) & 1u32 == 1u32
}

} // verus!
