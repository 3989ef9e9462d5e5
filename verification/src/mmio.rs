//! Register operations that drivers plan and the platform performs.

use vstd::prelude::*;

verus! {

/// One access to a 32-bit device register at a physical address.
#[derive(Clone, Copy, Debug, PartialEq, Eq, Structural)]
pub enum RegOp {
    /// Write `value` to the register.
    Write { addr: usize, value: u32 },
    /// Read the register, clear the bits of `clear`, set the bits of `set`, and
    /// write the result back.
    Modify { addr: usize, clear: u32, set: u32 },
    /// Read the register and discard the value.
    Read { addr: usize },
}

/// The value a [`RegOp::Modify`] writes back over `old`.
pub open spec fn modified(old: u32, clear: u32, set: u32) -> u32 {
    (old & !clear) | set
}

/// Computes the value a [`RegOp::Modify`] writes back over `old`.
pub fn modify_value(old: u32, clear: u32, set: u32) -> (r: u32)
    ensures
        r == modified(old, clear, set),
{
    (old & !clear) | set
}

} // verus!
