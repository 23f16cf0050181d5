//! Bus operations that the core asks the platform layer to perform.

use vstd::prelude::*;

verus! {

/// One operation on the controller's register block. Offsets are in bytes
/// from the controller's base address.
#[derive(Clone, Copy, Debug, PartialEq, Eq)]
pub enum BusOp {
    /// Store `value` to the 32-bit register at `offset`.
    Write { offset: usize, value: u32 },
    /// Read the register at `offset` again and again until none of the bits
    /// in `mask` is set. There is no iteration cap: the wait ends when the
    /// hardware says so.
    AwaitClear { offset: usize, mask: u32 },
}

} // verus!
