//! The faults that stop the machine.

use vstd::prelude::*;

verus! {

/// Why an operation could not be carried out.
///
/// A fault is a value handed back to the caller; nothing in this crate panics.
#[derive(Clone, Copy, Debug, PartialEq, Eq, Structural)]
pub enum Fault {
    /// A register index at or beyond the capacity of the register file.
    IndexFault,
    /// A constant address at or beyond the length of the constant table.
    AddressFault,
    /// An operator was applied to operands of a kind it does not accept.
    TypeError,
    /// Division or modulo by zero, or a result that cannot be represented.
    ArithmeticError,
    /// A reserved instruction was reached.
    NotImplemented,
}

} // verus!
