//! The values that the operand stack and the local variables hold.

use vstd::prelude::*;

verus! {

/// A value of the virtual machine. Values are copied freely between the
/// operand stack and the local variables.
#[derive(Debug, Clone, Copy, PartialEq, Eq, Structural)]
pub enum JvmValue {
    /// A 32-bit signed integer.
    Int(i32),
    /// A 64-bit signed integer.
    Long(i64),
    /// A 32-bit float, by its bits.
    Float(u32),
    /// A 64-bit float, by its bits.
    Double(u64),
    /// An opaque handle.
    Reference(usize),
    /// The content of a local variable that was never written.
    Undefined,
}

} // verus!
